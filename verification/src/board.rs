use vstd::prelude::*;
use crate::column::Column;
use crate::item::{text_of, Item};
use crate::laws::{
    law_create_column, law_create_item, law_edit_item, law_move_item, law_move_item_missing,
    law_remove_column, law_remove_item,
};
use crate::model::BoardView;

verus! {

/// Why an item was not moved.
#[derive(Debug, Clone, Copy, PartialEq, Eq, Structural)]
pub enum MoveError {
    /// No column carries the destination title.
    ColumnNotFound,
    /// The destination exists, but no item has the identifier.
    ItemNotFound,
}

/// The root document: the columns in insertion order and the identifier that
/// the next new item will get.
#[derive(Debug)]
pub struct Board {
    pub counter: u16,
    columns: Vec<Column>,
}

impl View for Board {
    type V = BoardView;

    closed spec fn view(&self) -> BoardView {
        BoardView {
            counter: self.counter,
            columns: Seq::new(self.columns@.len(), |i: int| self.columns@[i]@),
        }
    }
}

impl Board {
    /// The empty board: no column, and 0 as the first identifier.
    pub fn new() -> (board: Board)
        ensures
            board@ == BoardView::empty(),
            board@.wf(),
    {
        let board = Board { counter: 0, columns: Vec::new() };
        assert(board@.columns =~= Seq::empty());
        board
    }

    /// Builds a board from a counter and columns that were stored earlier.
    /// Any counter and any columns are taken as they are; `is_valid` tells
    /// whether the result is a valid board.
    pub fn from_parts(counter: u16, columns: Vec<Column>) -> (board: Board)
        ensures
            board@.counter == counter,
            board@.columns.len() == columns@.len(),
            forall|i: int| 0 <= i < columns@.len() ==> board@.columns[i] == (#[trigger] columns@[i])@,
    {
        Board { counter, columns }
    }

    /// The identifier that the next new item will get.
    pub fn next_id(&self) -> (id: u16)
        ensures
            id == self@.counter,
    {
        self.counter
    }

    /// The number of columns.
    pub fn column_count(&self) -> (n: usize)
        ensures
            n == self@.columns.len(),
    {
        self.columns.len()
    }

    /// The column at position `i`.
    pub fn column(&self, i: usize) -> (column: &Column)
        requires
            i < self@.columns.len(),
        ensures
            column@ == self@.columns[i as int],
    {
        &self.columns[i]
    }

    /// Checks that the board is valid: no identifier occurs twice and every
    /// identifier in use lies below the counter.
    pub fn is_valid(&self) -> (valid: bool)
        ensures
            valid == self@.wf(),
    {
        let n = self.columns.len();
        let mut c: usize = 0;
        while c < n
            invariant
                n == self@.columns.len(),
                0 <= c <= n,
                forall|d: int, j: int|
                    0 <= d < c && 0 <= j < self@.columns[d].items.len() ==> {
                        &&& (#[trigger] self@.columns[d].items[j]).id < self@.counter
                        &&& self@.locate(self@.columns[d].items[j].id) == Some((d, j))
                    },
            decreases n - c,
        {
            let m = self.columns[c].len();
            let mut k: usize = 0;
            while k < m
                invariant
                    n == self@.columns.len(),
                    0 <= c < n,
                    m == self@.columns[c as int].items.len(),
                    0 <= k <= m,
                    forall|d: int, j: int|
                        0 <= d < c && 0 <= j < self@.columns[d].items.len() ==> {
                            &&& (#[trigger] self@.columns[d].items[j]).id < self@.counter
                            &&& self@.locate(self@.columns[d].items[j].id) == Some((d, j))
                        },
                    forall|j: int|
                        0 <= j < k ==> {
                            &&& (#[trigger] self@.columns[c as int].items[j]).id < self@.counter
                            &&& self@.locate(self@.columns[c as int].items[j].id) == Some(
                                (c as int, j),
                            )
                        },
                decreases m - k,
            {
                let id = self.columns[c].item(k).id();
                if id >= self.counter {
                    return false;
                }
                match self.find_item(id) {
                    Some((d, j)) => {
                        if d != c || j != k {
                            assert(self@.columns[d as int].items[j as int].id
                                == self@.columns[c as int].items[k as int].id);
                            return false;
                        }
                    },
                    None => {
                        assert(self@.holds(c as int, k as int, id));
                        return false;
                    },
                }
                k += 1;
            }
            c += 1;
        }
        assert forall|c1: int, k1: int, d1: int, j1: int|
            #![trigger self@.columns[c1].items[k1], self@.columns[d1].items[j1]]
            0 <= c1 < self@.columns.len() && 0 <= k1 < self@.columns[c1].items.len() && 0 <= d1
                < self@.columns.len() && 0 <= j1 < self@.columns[d1].items.len()
                && self@.columns[c1].items[k1].id
                == self@.columns[d1].items[j1].id implies c1 == d1 && k1 == j1 by {
            assert(self@.locate(self@.columns[c1].items[k1].id) == Some((c1, k1)));
            assert(self@.locate(self@.columns[d1].items[j1].id) == Some((d1, j1)));
        }
        true
    }

    /// Scans the columns in order for the first one titled `title`.
    fn find_column(&self, title: &String) -> (found: Option<usize>)
        ensures
            match found {
                Some(i) => self@.is_first_column(i as int, title@),
                None => !self@.has_column(title@),
            },
            self@.first_column(title@) == match found {
                Some(i) => Some(i as int),
                None => None,
            },
    {
        let n = self.columns.len();
        let mut i: usize = 0;
        while i < n
            invariant
                n == self@.columns.len(),
                0 <= i <= n,
                forall|j: int| 0 <= j < i ==> #[trigger] self@.columns[j].title != title@,
            decreases n - i,
        {
            if *self.columns[i].title() == *title {
                proof {
                    self@.lemma_first_column_is(i as int, title@);
                }
                return Some(i);
            }
            i += 1;
        }
        None
    }

    /// Scans the columns in order, and each column's items in order, for the
    /// first item whose identifier is `id`.
    fn find_item(&self, id: u16) -> (found: Option<(usize, usize)>)
        ensures
            match found {
                Some((c, k)) => self@.is_first_item(c as int, k as int, id),
                None => !self@.has_item(id),
            },
            self@.locate(id) == match found {
                Some((c, k)) => Some((c as int, k as int)),
                None => None,
            },
    {
        let n = self.columns.len();
        let mut c: usize = 0;
        while c < n
            invariant
                n == self@.columns.len(),
                0 <= c <= n,
                forall|d: int, j: int| d < c ==> !#[trigger] self@.holds(d, j, id),
            decreases n - c,
        {
            let column = &self.columns[c];
            let m = column.len();
            let mut k: usize = 0;
            while k < m
                invariant
                    n == self@.columns.len(),
                    0 <= c < n,
                    column@ == self@.columns[c as int],
                    m == column@.items.len(),
                    0 <= k <= m,
                    forall|d: int, j: int| d < c ==> !#[trigger] self@.holds(d, j, id),
                    forall|j: int| j < k ==> !#[trigger] self@.holds(c as int, j, id),
                decreases m - k,
            {
                if column.item(k).id() == id {
                    proof {
                        self@.lemma_locate_is(c as int, k as int, id);
                    }
                    return Some((c, k));
                }
                k += 1;
            }
            c += 1;
        }
        None
    }

    /// Appends a new empty column titled `title`. A title that is already in
    /// use is accepted.
    pub fn create_column(&mut self, title: String)
        ensures
            final(self)@ == old(self)@.with_column(title@),
            old(self)@.wf() ==> final(self)@.wf(),
    {
        self.columns.push(Column::new(title));
        assert(self@.columns =~= old(self)@.with_column(title@).columns);
        proof {
            law_create_column(old(self)@, title@, title@, 0);
        }
    }

    /// Removes the first column titled `title`, together with its items.
    /// Nothing changes where no column carries the title.
    pub fn remove_column(&mut self, title: String)
        ensures
            final(self)@ == old(self)@.without_column(title@),
            old(self)@.wf() ==> final(self)@.wf(),
    {
        proof {
            law_remove_column(old(self)@, title@, title@);
        }
        match self.find_column(&title) {
            Some(i) => {
                self.columns.remove(i);
                assert(self@.columns =~= old(self)@.columns.remove(i as int));
            },
            None => {},
        }
    }

    /// Appends a new item to the first column titled `col_title`. The item
    /// gets the counter as its identifier, and the counter goes up by one.
    /// Where no column carries the title, nothing changes and no identifier
    /// is used up.
    pub fn create_item(
        &mut self,
        item_title: String,
        item_body: String,
        item_assignee: Option<String>,
        col_title: String,
    )
        requires
            old(self)@.has_column(col_title@) ==> old(self)@.counter < u16::MAX,
        ensures
            final(self)@ == old(self)@.with_item(
                item_title@,
                item_body@,
                text_of(item_assignee),
                col_title@,
            ),
            old(self)@.wf() ==> final(self)@.wf(),
    {
        proof {
            if self@.wf() {
                law_create_item(
                    self@,
                    item_title@,
                    item_body@,
                    text_of(item_assignee),
                    col_title@,
                    0,
                );
            }
        }
        match self.find_column(&col_title) {
            Some(i) => {
                let item = Item::new(self.counter, item_title, item_body, item_assignee);
                self.columns[i].push(item);
                self.counter += 1;
                assert(self@.columns =~= old(self)@.columns.update(
                    i as int,
                    old(self)@.columns[i as int].with_item(item@),
                ));
            },
            None => {},
        }
    }

    /// Removes the first item whose identifier is `id`, and says whether
    /// there was one. Nothing changes where no item has the identifier.
    pub fn remove_item(&mut self, id: u16) -> (removed: bool)
        ensures
            final(self)@ == old(self)@.without_item(id),
            removed == old(self)@.has_item(id),
            old(self)@.wf() ==> final(self)@.wf(),
    {
        proof {
            if self@.wf() {
                law_remove_item(self@, id, id);
            }
        }
        match self.find_item(id) {
            Some((c, k)) => {
                self.columns[c].remove(k);
                assert(self@.columns =~= old(self)@.columns.update(
                    c as int,
                    old(self)@.columns[c as int].without_item(k as int),
                ));
                true
            },
            None => false,
        }
    }

    /// Overwrites the title of the first item whose identifier is `id`.
    /// Nothing changes where no item has the identifier.
    pub fn edit_item_title(&mut self, id: u16, title: String)
        ensures
            final(self)@ == old(self)@.with_item_title(id, title@),
            old(self)@.wf() ==> final(self)@.wf(),
    {
        proof {
            if self@.wf() {
                law_edit_item(self@, id, title@, id);
            }
        }
        match self.find_item(id) {
            Some((c, k)) => {
                self.columns[c].set_item_title(k, title);
                assert(self@.columns =~= old(self)@.with_item_title(id, title@).columns);
            },
            None => {},
        }
    }

    /// Overwrites the body of the first item whose identifier is `id`.
    /// Nothing changes where no item has the identifier.
    pub fn edit_item_body(&mut self, id: u16, body: String)
        ensures
            final(self)@ == old(self)@.with_item_body(id, body@),
            old(self)@.wf() ==> final(self)@.wf(),
    {
        proof {
            if self@.wf() {
                law_edit_item(self@, id, body@, id);
            }
        }
        match self.find_item(id) {
            Some((c, k)) => {
                self.columns[c].set_item_body(k, body);
                assert(self@.columns =~= old(self)@.with_item_body(id, body@).columns);
            },
            None => {},
        }
    }

    /// Moves the first item whose identifier is `id` to the end of the first
    /// column titled `col_title`. Both are looked up before anything is
    /// touched: where the column is missing, or the item, the board stays as
    /// it is and the result says which of the two was not found, the column
    /// first.
    pub fn move_item(&mut self, id: u16, col_title: String) -> (moved: Result<(), MoveError>)
        ensures
            final(self)@ == old(self)@.with_item_moved(id, col_title@),
            moved == if !old(self)@.has_column(col_title@) {
                Err::<(), MoveError>(MoveError::ColumnNotFound)
            } else if !old(self)@.has_item(id) {
                Err::<(), MoveError>(MoveError::ItemNotFound)
            } else {
                Ok::<(), MoveError>(())
            },
            old(self)@.wf() ==> final(self)@.wf(),
    {
        proof {
            if self@.has_column(col_title@) && self@.has_item(id) {
                if self@.wf() {
                    law_move_item(self@, id, col_title@, id);
                }
            } else {
                law_move_item_missing(self@, id, col_title@);
            }
        }
        let dest = match self.find_column(&col_title) {
            Some(d) => d,
            None => {
                return Err(MoveError::ColumnNotFound);
            },
        };
        let (c, k) = match self.find_item(id) {
            Some(p) => p,
            None => {
                return Err(MoveError::ItemNotFound);
            },
        };
        let item = self.columns[c].remove(k);
        self.columns[dest].push(item);
        assert(self@.columns =~= old(self)@.with_item_moved(id, col_title@).columns);
        Ok(())
    }

    /// Whether some column is titled `title`.
    pub fn column_exists(&self, title: String) -> (exists: bool)
        ensures
            exists == self@.has_column(title@),
    {
        self.find_column(&title).is_some()
    }

    /// The title of the column that holds the first item whose identifier is
    /// `id`, or `None` where no item has the identifier.
    pub fn item_exists(&self, id: u16) -> (holder: Option<&String>)
        ensures
            holder is Some <==> self@.has_item(id),
            self@.item_column(id) == match holder {
                Some(title) => Some(title@),
                None => None,
            },
    {
        match self.find_item(id) {
            Some((c, _k)) => Some(self.columns[c].title()),
            None => None,
        }
    }
}

} // verus!
