use vstd::prelude::*;
use crate::column::ColumnView;
use crate::item::ItemView;

verus! {

/// Mathematical value of a board: the next identifier to hand out and the
/// columns in insertion order.
pub struct BoardView {
    pub counter: u16,
    pub columns: Seq<ColumnView>,
}

impl BoardView {
    /// The board with no column, whose first identifier will be 0.
    pub open spec fn empty() -> BoardView {
        BoardView { counter: 0, columns: Seq::empty() }
    }

    // ----- columns by title -----

    /// Some column carries `title`.
    pub open spec fn has_column(self, title: Seq<char>) -> bool {
        exists|i: int| 0 <= i < self.columns.len() && #[trigger] self.columns[i].title == title
    }

    /// Column `i` carries `title` and no column before it does.
    pub open spec fn is_first_column(self, i: int, title: Seq<char>) -> bool {
        &&& 0 <= i < self.columns.len()
        &&& self.columns[i].title == title
        &&& forall|j: int| 0 <= j < i ==> #[trigger] self.columns[j].title != title
    }

    /// The position of the first column that carries `title`.
    pub open spec fn first_column(self, title: Seq<char>) -> Option<int> {
        if self.has_column(title) {
            Some(choose|i: int| self.is_first_column(i, title))
        } else {
            None
        }
    }

    // ----- items by identifier -----

    /// Position `k` of column `c` holds an item whose identifier is `id`.
    pub open spec fn holds(self, c: int, k: int, id: u16) -> bool {
        &&& 0 <= c < self.columns.len()
        &&& 0 <= k < self.columns[c].items.len()
        &&& self.columns[c].items[k].id == id
    }

    /// Some item of the board has the identifier `id`.
    pub open spec fn has_item(self, id: u16) -> bool {
        exists|c: int, k: int| #[trigger] self.holds(c, k, id)
    }

    /// Position `k` of column `c` holds `id`, and no position that a scan
    /// through the columns in order, and through each column's items in
    /// order, reaches earlier does.
    pub open spec fn is_first_item(self, c: int, k: int, id: u16) -> bool {
        &&& self.holds(c, k, id)
        &&& forall|d: int, j: int| (d < c || (d == c && j < k)) ==> !#[trigger] self.holds(d, j, id)
    }

    /// The column and the position in it of the first item whose identifier
    /// is `id`.
    pub open spec fn locate(self, id: u16) -> Option<(int, int)> {
        if self.has_item(id) {
            Some(choose|p: (int, int)| self.is_first_item(p.0, p.1, id))
        } else {
            None
        }
    }

    /// The first item whose identifier is `id`.
    pub open spec fn item(self, id: u16) -> Option<ItemView> {
        match self.locate(id) {
            Some((c, k)) => Some(self.columns[c].items[k]),
            None => None,
        }
    }

    /// The title of the column that holds the first item whose identifier is
    /// `id`.
    pub open spec fn item_column(self, id: u16) -> Option<Seq<char>> {
        match self.locate(id) {
            Some((c, k)) => Some(self.columns[c].title),
            None => None,
        }
    }

    // ----- validity -----

    /// No two items share an identifier, and every identifier in use lies
    /// below the counter.
    pub open spec fn wf(self) -> bool {
        &&& forall|c: int, k: int|
            0 <= c < self.columns.len() && 0 <= k < self.columns[c].items.len()
                ==> (#[trigger] self.columns[c].items[k]).id < self.counter
        &&& forall|c: int, k: int, d: int, j: int|
            #![trigger self.columns[c].items[k], self.columns[d].items[j]]
            0 <= c < self.columns.len() && 0 <= k < self.columns[c].items.len()
                && 0 <= d < self.columns.len() && 0 <= j < self.columns[d].items.len()
                && self.columns[c].items[k].id == self.columns[d].items[j].id
                ==> c == d && k == j
    }

    // ----- the operations -----

    /// The board without the item at position `k` of column `c`.
    pub open spec fn take_at(self, c: int, k: int) -> BoardView {
        BoardView { columns: self.columns.update(c, self.columns[c].without_item(k)), ..self }
    }

    /// The board with `item` as the new last item of column `d`, and with
    /// `counter` as its counter.
    pub open spec fn append_at(self, d: int, item: ItemView, counter: u16) -> BoardView {
        BoardView {
            counter: counter,
            columns: self.columns.update(d, self.columns[d].with_item(item)),
        }
    }

    /// A new empty column titled `title` stands after the last column.
    pub open spec fn with_column(self, title: Seq<char>) -> BoardView {
        BoardView {
            columns: self.columns.push(ColumnView { title: title, items: Seq::empty() }),
            ..self
        }
    }

    /// The first column titled `title` is gone, with its items; without such
    /// a column nothing changes.
    pub open spec fn without_column(self, title: Seq<char>) -> BoardView {
        match self.first_column(title) {
            Some(i) => BoardView { columns: self.columns.remove(i), ..self },
            None => self,
        }
    }

    /// The first column titled `column` has a new last item, whose identifier
    /// is the counter, and the counter is one higher; without such a column
    /// nothing changes.
    pub open spec fn with_item(
        self,
        title: Seq<char>,
        body: Seq<char>,
        assignee: Option<Seq<char>>,
        column: Seq<char>,
    ) -> BoardView
        recommends
            self.has_column(column) ==> self.counter < u16::MAX,
    {
        match self.first_column(column) {
            Some(i) => self.append_at(
                i,
                ItemView { id: self.counter, title: title, body: body, assignee: assignee },
                (self.counter + 1) as u16,
            ),
            None => self,
        }
    }

    /// The first item whose identifier is `id` is gone from its column;
    /// without such an item nothing changes.
    pub open spec fn without_item(self, id: u16) -> BoardView {
        match self.locate(id) {
            Some((c, k)) => self.take_at(c, k),
            None => self,
        }
    }

    /// The first item whose identifier is `id` is replaced by `item`, in
    /// place; without such an item nothing changes.
    pub open spec fn with_item_replaced(self, id: u16, item: ItemView) -> BoardView {
        match self.locate(id) {
            Some((c, k)) => BoardView {
                columns: self.columns.update(c, self.columns[c].with_item_at(k, item)),
                ..self
            },
            None => self,
        }
    }

    /// The first item whose identifier is `id` has the title `title`.
    pub open spec fn with_item_title(self, id: u16, title: Seq<char>) -> BoardView {
        match self.item(id) {
            Some(item) => self.with_item_replaced(id, ItemView { title: title, ..item }),
            None => self,
        }
    }

    /// The first item whose identifier is `id` has the body `body`.
    pub open spec fn with_item_body(self, id: u16, body: Seq<char>) -> BoardView {
        match self.item(id) {
            Some(item) => self.with_item_replaced(id, ItemView { body: body, ..item }),
            None => self,
        }
    }

    /// The first item whose identifier is `id` has left its column and is
    /// the last item of the first column titled `dest`: one step, taking out
    /// and appending. Without such an item or without such a column nothing
    /// changes.
    pub open spec fn with_item_moved(self, id: u16, dest: Seq<char>) -> BoardView {
        match (self.first_column(dest), self.locate(id)) {
            (Some(d), Some((c, k))) => self.take_at(c, k).append_at(
                d,
                self.columns[c].items[k],
                self.counter,
            ),
            _ => self,
        }
    }

    // ----- how the positions are found -----

    /// A position that is the first for a title is the one `first_column`
    /// gives.
    pub proof fn lemma_first_column_is(self, i: int, title: Seq<char>)
        requires
            self.is_first_column(i, title),
        ensures
            self.first_column(title) == Some(i),
    {
        let j = choose|j: int| self.is_first_column(j, title);
        assert(self.is_first_column(j, title));
        if i < j {
            assert(self.columns[i].title == title);
        } else if j < i {
            assert(self.columns[j].title == title);
        }
    }

    /// Where column `k` carries `title`, some column is the first to do so.
    pub proof fn lemma_first_column_exists(self, k: int, title: Seq<char>)
        requires
            0 <= k < self.columns.len(),
            self.columns[k].title == title,
        ensures
            exists|i: int| self.is_first_column(i, title),
        decreases k,
    {
        if exists|j: int| 0 <= j < k && #[trigger] self.columns[j].title == title {
            let j = choose|j: int| 0 <= j < k && #[trigger] self.columns[j].title == title;
            self.lemma_first_column_exists(j, title);
        } else {
            assert(self.is_first_column(k, title));
        }
    }

    /// What `first_column` gives is in range, carries the title, and is the
    /// first to do so; it gives nothing exactly where no column carries the
    /// title.
    pub proof fn lemma_first_column(self, title: Seq<char>)
        ensures
            self.first_column(title) is Some <==> self.has_column(title),
            self.first_column(title) matches Some(i) ==> self.is_first_column(i, title),
    {
        if self.has_column(title) {
            let k = choose|k: int| 0 <= k < self.columns.len() && #[trigger] self.columns[k].title == title;
            self.lemma_first_column_exists(k, title);
        }
    }

    /// A position that is the first for an identifier is the one `locate`
    /// gives.
    pub proof fn lemma_locate_is(self, c: int, k: int, id: u16)
        requires
            self.is_first_item(c, k, id),
        ensures
            self.locate(id) == Some((c, k)),
    {
        assert(self.holds(c, k, id));
        let p = choose|p: (int, int)| self.is_first_item(p.0, p.1, id);
        assert(self.is_first_item((c, k).0, (c, k).1, id));
        assert(self.is_first_item(p.0, p.1, id));
        assert(self.holds(p.0, p.1, id));
        if p.0 < c || (p.0 == c && p.1 < k) {
            assert(!self.holds(p.0, p.1, id));
        } else if c < p.0 || (c == p.0 && k < p.1) {
            assert(!self.holds(c, k, id));
        }
    }

    /// Where position `k` of column `c` holds `id`, some position is the
    /// first to do so.
    pub proof fn lemma_first_item_exists(self, c: int, k: int, id: u16)
        requires
            self.holds(c, k, id),
        ensures
            exists|p: (int, int)| self.is_first_item(p.0, p.1, id),
        decreases c, k,
    {
        if exists|d: int, j: int| (d < c || (d == c && j < k)) && #[trigger] self.holds(d, j, id) {
            let (d, j) = choose|d: int, j: int|
                (d < c || (d == c && j < k)) && #[trigger] self.holds(d, j, id);
            self.lemma_first_item_exists(d, j, id);
        } else {
            assert(self.is_first_item((c, k).0, (c, k).1, id));
        }
    }

    /// What `locate` gives holds the identifier and is the first position to
    /// do so; it gives nothing exactly where no item has the identifier.
    pub proof fn lemma_locate(self, id: u16)
        ensures
            self.locate(id) is Some <==> self.has_item(id),
            self.locate(id) matches Some((c, k)) ==> self.is_first_item(c, k, id),
    {
        if self.has_item(id) {
            let (c, k) = choose|c: int, k: int| #[trigger] self.holds(c, k, id);
            self.lemma_first_item_exists(c, k, id);
        }
    }
}

} // verus!
