use vstd::prelude::*;
use crate::item::{Item, ItemView};

verus! {

/// Mathematical value of a [`Column`].
pub struct ColumnView {
    pub title: Seq<char>,
    pub items: Seq<ItemView>,
}

impl ColumnView {
    /// The column with `item` appended after its last item.
    pub open spec fn with_item(self, item: ItemView) -> ColumnView {
        ColumnView { items: self.items.push(item), ..self }
    }

    /// The column without the item at position `k`; the others keep their order.
    pub open spec fn without_item(self, k: int) -> ColumnView {
        ColumnView { items: self.items.remove(k), ..self }
    }

    /// The column with the item at position `k` replaced by `item`.
    pub open spec fn with_item_at(self, k: int, item: ItemView) -> ColumnView {
        ColumnView { items: self.items.update(k, item), ..self }
    }
}

/// A titled lane of the board that holds its items in insertion order.
#[derive(Debug)]
pub struct Column {
    title: String,
    items: Vec<Item>,
}

impl View for Column {
    type V = ColumnView;

    closed spec fn view(&self) -> ColumnView {
        ColumnView {
            title: self.title@,
            items: Seq::new(self.items@.len(), |k: int| self.items@[k]@),
        }
    }
}

impl Column {
    /// Builds an empty column with the given title.
    pub fn new(title: String) -> (column: Column)
        ensures
            column@ == (ColumnView { title: title@, items: Seq::empty() }),
    {
        let column = Column { title, items: Vec::new() };
        assert(column@.items =~= Seq::empty());
        column
    }

    /// The column's title.
    pub fn title(&self) -> (title: &String)
        ensures
            title@ == self@.title,
    {
        &self.title
    }

    /// The number of items in the column.
    pub fn len(&self) -> (n: usize)
        ensures
            n == self@.items.len(),
    {
        self.items.len()
    }

    /// The item at position `k`.
    pub fn item(&self, k: usize) -> (item: &Item)
        requires
            k < self@.items.len(),
        ensures
            item@ == self@.items[k as int],
    {
        &self.items[k]
    }

    /// Appends `item` after the last item.
    pub fn push(&mut self, item: Item)
        ensures
            final(self)@ == old(self)@.with_item(item@),
    {
        self.items.push(item);
        assert(self@.items =~= old(self)@.items.push(item@));
    }

    /// Takes the item at position `k` out of the column and hands it back.
    pub fn remove(&mut self, k: usize) -> (item: Item)
        requires
            k < old(self)@.items.len(),
        ensures
            item@ == old(self)@.items[k as int],
            final(self)@ == old(self)@.without_item(k as int),
    {
        let item = self.items.remove(k);
        assert(self@.items =~= old(self)@.items.remove(k as int));
        item
    }

    /// Overwrites the title of the item at position `k`.
    pub fn set_item_title(&mut self, k: usize, title: String)
        requires
            k < old(self)@.items.len(),
        ensures
            final(self)@ == old(self)@.with_item_at(
                k as int,
                ItemView { title: title@, ..old(self)@.items[k as int] },
            ),
    {
        self.items[k].set_title(title);
        assert(self@.items =~= old(self)@.items.update(
            k as int,
            ItemView { title: title@, ..old(self)@.items[k as int] },
        ));
    }

    /// Overwrites the body of the item at position `k`.
    pub fn set_item_body(&mut self, k: usize, body: String)
        requires
            k < old(self)@.items.len(),
        ensures
            final(self)@ == old(self)@.with_item_at(
                k as int,
                ItemView { body: body@, ..old(self)@.items[k as int] },
            ),
    {
        self.items[k].set_body(body);
        assert(self@.items =~= old(self)@.items.update(
            k as int,
            ItemView { body: body@, ..old(self)@.items[k as int] },
        ));
    }
}

} // verus!
