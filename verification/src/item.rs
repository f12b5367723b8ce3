use vstd::prelude::*;

verus! {

/// Mathematical value of an [`Item`].
pub struct ItemView {
    pub id: u16,
    pub title: Seq<char>,
    pub body: Seq<char>,
    pub assignee: Option<Seq<char>>,
}

/// The characters of an optional string, or `None` where there is no string.
pub open spec fn text_of(s: Option<String>) -> Option<Seq<char>> {
    match s {
        Some(t) => Some(t@),
        None => None,
    }
}

/// A unit of work: an identifier, a title, a body and, optionally, an assignee.
#[derive(Debug)]
pub struct Item {
    id: u16,
    title: String,
    body: String,
    assignee: Option<String>,
}

impl View for Item {
    type V = ItemView;

    closed spec fn view(&self) -> ItemView {
        ItemView {
            id: self.id,
            title: self.title@,
            body: self.body@,
            assignee: text_of(self.assignee),
        }
    }
}

impl Item {
    /// Builds an item from its four attributes.
    pub fn new(id: u16, title: String, body: String, assignee: Option<String>) -> (item: Item)
        ensures
            item@ == (ItemView { id: id, title: title@, body: body@, assignee: text_of(assignee) }),
    {
        Item { id, title, body, assignee }
    }

    /// The item's identifier.
    pub fn id(&self) -> (id: u16)
        ensures
            id == self@.id,
    {
        self.id
    }

    /// The item's title.
    pub fn title(&self) -> (title: &String)
        ensures
            title@ == self@.title,
    {
        &self.title
    }

    /// The item's body.
    pub fn body(&self) -> (body: &String)
        ensures
            body@ == self@.body,
    {
        &self.body
    }

    /// The item's assignee, `None` where the item is unassigned.
    pub fn assignee(&self) -> (assignee: &Option<String>)
        ensures
            text_of(*assignee) == self@.assignee,
    {
        &self.assignee
    }

    /// Overwrites the title and leaves the other attributes as they are.
    pub fn set_title(&mut self, title: String)
        ensures
            final(self)@ == (ItemView { title: title@, ..old(self)@ }),
    {
        self.title = title;
    }

    /// Overwrites the body and leaves the other attributes as they are.
    pub fn set_body(&mut self, body: String)
        ensures
            final(self)@ == (ItemView { body: body@, ..old(self)@ }),
    {
        self.body = body;
    }
}

} // verus!
