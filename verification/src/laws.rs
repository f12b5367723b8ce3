use vstd::prelude::*;
use crate::command::{assignee_of, CommandView};
use crate::input::id_of;
use crate::item::ItemView;
use crate::model::BoardView;

verus! {

impl BoardView {
    /// On a valid board every position that holds an identifier is the first
    /// that does, so it is the one `locate` gives.
    pub proof fn lemma_locate_valid(self, c: int, k: int, id: u16)
        requires
            self.wf(),
            self.holds(c, k, id),
        ensures
            self.locate(id) == Some((c, k)),
            self.item(id) == Some(self.columns[c].items[k]),
            self.item_column(id) == Some(self.columns[c].title),
    {
        assert forall|d: int, j: int| (d < c || (d == c && j < k)) implies !#[trigger] self.holds(
            d,
            j,
            id,
        ) by {
            if self.holds(d, j, id) {
                assert(self.columns[d].items[j].id == self.columns[c].items[k].id);
            }
        }
        self.lemma_locate_is(c, k, id);
    }

    /// Taking one item out of a valid board leaves a valid board on which
    /// that item's identifier is free and every other item is where it was,
    /// with the fields it had.
    pub proof fn lemma_take_at(self, c: int, k: int, other: u16)
        requires
            self.wf(),
            0 <= c < self.columns.len(),
            0 <= k < self.columns[c].items.len(),
        ensures
            self.take_at(c, k).wf(),
            !self.take_at(c, k).has_item(self.columns[c].items[k].id),
            other != self.columns[c].items[k].id ==> {
                &&& self.take_at(c, k).has_item(other) == self.has_item(other)
                &&& self.take_at(c, k).item(other) == self.item(other)
                &&& self.take_at(c, k).item_column(other) == self.item_column(other)
            },
    {
        let after = self.take_at(c, k);
        let id = self.columns[c].items[k].id;
        // Each position of `after` is a position of `self`, other than (c, k).
        assert forall|d: int, j: int|
            0 <= d < after.columns.len() && 0 <= j < after.columns[d].items.len() implies {
            let s = if d == c && j >= k { j + 1 } else { j };
            &&& 0 <= s < self.columns[d].items.len()
            &&& #[trigger] after.columns[d].items[j] == self.columns[d].items[s]
            &&& !(d == c && s == k)
        } by {}
        assert(after.wf()) by {
            assert forall|d1: int, j1: int, d2: int, j2: int|
                #![trigger after.columns[d1].items[j1], after.columns[d2].items[j2]]
                0 <= d1 < after.columns.len() && 0 <= j1 < after.columns[d1].items.len() && 0 <= d2
                    < after.columns.len() && 0 <= j2 < after.columns[d2].items.len()
                    && after.columns[d1].items[j1].id
                    == after.columns[d2].items[j2].id implies d1 == d2 && j1 == j2 by {
                let s1 = if d1 == c && j1 >= k { j1 + 1 } else { j1 };
                let s2 = if d2 == c && j2 >= k { j2 + 1 } else { j2 };
                assert(self.columns[d1].items[s1].id == self.columns[d2].items[s2].id);
            }
        }
        assert(!after.has_item(id)) by {
            if after.has_item(id) {
                let (d, j) = choose|d: int, j: int| #[trigger] after.holds(d, j, id);
                let s = if d == c && j >= k { j + 1 } else { j };
                assert(self.columns[d].items[s].id == self.columns[c].items[k].id);
            }
        }
        if other != id {
            if self.has_item(other) {
                let (d, s) = choose|d: int, s: int| #[trigger] self.holds(d, s, other);
                self.lemma_locate_valid(d, s, other);
                let j = if d == c && s > k { s - 1 } else { s };
                assert(after.columns[d].items[j] == self.columns[d].items[s]);
                assert(after.holds(d, j, other));
                after.lemma_locate_valid(d, j, other);
            } else {
                if after.has_item(other) {
                    let (d, j) = choose|d: int, j: int| #[trigger] after.holds(d, j, other);
                    let s = if d == c && j >= k { j + 1 } else { j };
                    assert(self.holds(d, s, other));
                }
            }
        }
    }

    /// Appending an item whose identifier is free to a valid board, under a
    /// counter above that identifier and not below the old counter, gives a
    /// valid board that holds the item at the end of that column and every
    /// other item where it was.
    pub proof fn lemma_append_at(self, d: int, item: ItemView, counter: u16, other: u16)
        requires
            self.wf(),
            0 <= d < self.columns.len(),
            !self.has_item(item.id),
            self.counter <= counter,
            item.id < counter,
        ensures
            self.append_at(d, item, counter).wf(),
            self.append_at(d, item, counter).item(item.id) == Some(item),
            self.append_at(d, item, counter).item_column(item.id) == Some(self.columns[d].title),
            other != item.id ==> {
                &&& self.append_at(d, item, counter).has_item(other) == self.has_item(other)
                &&& self.append_at(d, item, counter).item(other) == self.item(other)
                &&& self.append_at(d, item, counter).item_column(other) == self.item_column(other)
            },
    {
        let after = self.append_at(d, item, counter);
        let last = self.columns[d].items.len() as int;
        assert forall|e: int, j: int|
            0 <= e < after.columns.len() && 0 <= j < after.columns[e].items.len() implies {
            ||| (e == d && j == last && #[trigger] after.columns[e].items[j] == item)
            ||| (!(e == d && j == last) && j < self.columns[e].items.len()
                && after.columns[e].items[j] == self.columns[e].items[j])
        } by {}
        assert forall|e: int, j: int|
            0 <= e < self.columns.len() && 0 <= j < self.columns[e].items.len()
                implies #[trigger] self.columns[e].items[j].id != item.id by {
            if self.columns[e].items[j].id == item.id {
                assert(self.holds(e, j, item.id));
            }
        }
        assert(after.wf()) by {
            assert forall|e1: int, j1: int, e2: int, j2: int|
                #![trigger after.columns[e1].items[j1], after.columns[e2].items[j2]]
                0 <= e1 < after.columns.len() && 0 <= j1 < after.columns[e1].items.len() && 0 <= e2
                    < after.columns.len() && 0 <= j2 < after.columns[e2].items.len()
                    && after.columns[e1].items[j1].id
                    == after.columns[e2].items[j2].id implies e1 == e2 && j1 == j2 by {
                if !(e1 == d && j1 == last) && !(e2 == d && j2 == last) {
                    assert(self.columns[e1].items[j1].id == self.columns[e2].items[j2].id);
                }
            }
        }
        assert(after.columns[d].items[last] == item);
        assert(after.holds(d, last, item.id));
        after.lemma_locate_valid(d, last, item.id);
        if other != item.id {
            if self.has_item(other) {
                let (e, j) = choose|e: int, j: int| #[trigger] self.holds(e, j, other);
                self.lemma_locate_valid(e, j, other);
                assert(after.columns[e].items[j] == self.columns[e].items[j]);
                assert(after.holds(e, j, other));
                after.lemma_locate_valid(e, j, other);
            } else {
                if after.has_item(other) {
                    let (e, j) = choose|e: int, j: int| #[trigger] after.holds(e, j, other);
                    assert(self.holds(e, j, other));
                }
            }
        }
    }

    /// Replacing an item of a valid board by one with the same identifier
    /// keeps the board valid, puts the new item where the old one was and
    /// leaves every other item as it was.
    pub proof fn lemma_replace(self, id: u16, item: ItemView, other: u16)
        requires
            self.wf(),
            self.has_item(id),
            item.id == id,
        ensures
            self.with_item_replaced(id, item).wf(),
            self.with_item_replaced(id, item).item(id) == Some(item),
            self.with_item_replaced(id, item).item_column(id) == self.item_column(id),
            other != id ==> {
                &&& self.with_item_replaced(id, item).item(other) == self.item(other)
                &&& self.with_item_replaced(id, item).item_column(other) == self.item_column(other)
            },
    {
        let after = self.with_item_replaced(id, item);
        self.lemma_locate(id);
        let (c, k) = self.locate(id).unwrap();
        assert forall|d: int, j: int|
            0 <= d < after.columns.len() && 0 <= j < after.columns[d].items.len() implies j
            < self.columns[d].items.len() && (#[trigger] after.columns[d].items[j]).id
            == self.columns[d].items[j].id && (!(d == c && j == k) ==> after.columns[d].items[j]
            == self.columns[d].items[j]) by {}
        assert(after.wf()) by {
            assert forall|d1: int, j1: int, d2: int, j2: int|
                #![trigger after.columns[d1].items[j1], after.columns[d2].items[j2]]
                0 <= d1 < after.columns.len() && 0 <= j1 < after.columns[d1].items.len() && 0 <= d2
                    < after.columns.len() && 0 <= j2 < after.columns[d2].items.len()
                    && after.columns[d1].items[j1].id
                    == after.columns[d2].items[j2].id implies d1 == d2 && j1 == j2 by {
                assert(self.columns[d1].items[j1].id == self.columns[d2].items[j2].id);
            }
        }
        assert(after.columns[c].items[k] == item);
        assert(after.holds(c, k, id));
        after.lemma_locate_valid(c, k, id);
        if other != id {
            self.lemma_locate(other);
            after.lemma_locate(other);
            if self.has_item(other) {
                let (d, j) = self.locate(other).unwrap();
                assert(after.columns[d].items[j] == self.columns[d].items[j]);
                assert(after.holds(d, j, other));
                after.lemma_locate_valid(d, j, other);
            } else {
                if after.has_item(other) {
                    let (d, j) = after.locate(other).unwrap();
                    assert(self.holds(d, j, other));
                }
            }
        }
    }
}

/// A title is present after `with_column(t)` exactly if it is `t` or was
/// present before. The counter has not moved, every item is where it was,
/// and a valid board stays valid.
pub proof fn law_create_column(b: BoardView, t: Seq<char>, u: Seq<char>, id: u16)
    ensures
        b.with_column(t).has_column(u) == (u == t || b.has_column(u)),
        b.with_column(t).counter == b.counter,
        b.with_column(t).item(id) == b.item(id),
        b.with_column(t).item_column(id) == b.item_column(id),
        b.wf() ==> b.with_column(t).wf(),
{
    let after = b.with_column(t);
    let n = b.columns.len() as int;
    assert forall|c: int, k: int| after.holds(c, k, id) == b.holds(c, k, id) by {
        if 0 <= c < n {
            assert(after.columns[c] == b.columns[c]);
        }
    }
    b.lemma_locate(id);
    after.lemma_locate(id);
    if b.has_item(id) {
        let (c, k) = b.locate(id).unwrap();
        assert(after.holds(c, k, id));
        assert(after.is_first_item(c, k, id));
        after.lemma_locate_is(c, k, id);
        assert(after.columns[c] == b.columns[c]);
    } else if after.has_item(id) {
        let (c, k) = after.locate(id).unwrap();
        assert(b.holds(c, k, id));
    }
    assert(after.columns[n].title == t);
    if b.has_column(u) {
        let i = choose|i: int| 0 <= i < b.columns.len() && #[trigger] b.columns[i].title == u;
        assert(after.columns[i].title == u);
    }
    if after.has_column(u) && u != t {
        let i = choose|i: int| 0 <= i < after.columns.len() && #[trigger] after.columns[i].title == u;
        assert(b.columns[i].title == u);
    }
    if b.wf() {
        assert forall|c: int, k: int|
            0 <= c < after.columns.len() && 0 <= k < after.columns[c].items.len() implies c < n
            && #[trigger] after.columns[c].items[k] == b.columns[c].items[k] by {}
        assert(after.wf());
    }
}

/// Removing the first column titled `t` leaves every other title as present
/// as it was; `t` itself stays present exactly if two columns carried it.
/// Without a column titled `t` nothing changes.
pub proof fn law_remove_column(b: BoardView, t: Seq<char>, u: Seq<char>)
    ensures
        u != t ==> b.without_column(t).has_column(u) == b.has_column(u),
        b.without_column(t).has_column(t) == (exists|i: int, j: int|
            0 <= i < j < b.columns.len() && #[trigger] b.columns[i].title == t
                && #[trigger] b.columns[j].title == t),
        !b.has_column(t) ==> b.without_column(t) == b,
        b.without_column(t).counter == b.counter,
        b.wf() ==> b.without_column(t).wf(),
{
    let after = b.without_column(t);
    b.lemma_first_column(t);
    match b.first_column(t) {
        Some(f) => {
            // Column `i` of `after` is column `i` of `b`, or the one behind it.
            assert forall|i: int| 0 <= i < after.columns.len() implies #[trigger] after.columns[i]
                == b.columns[if i < f { i } else { i + 1 }] by {}
            if u != t {
                if b.has_column(u) {
                    let i = choose|i: int|
                        0 <= i < b.columns.len() && #[trigger] b.columns[i].title == u;
                    let j = if i < f { i } else { i - 1 };
                    assert(after.columns[j].title == u);
                }
                if after.has_column(u) {
                    let j = choose|j: int|
                        0 <= j < after.columns.len() && #[trigger] after.columns[j].title == u;
                    assert(b.columns[if j < f { j } else { j + 1 }].title == u);
                }
            }
            if after.has_column(t) {
                let j = choose|j: int|
                    0 <= j < after.columns.len() && #[trigger] after.columns[j].title == t;
                let s = if j < f { j } else { j + 1 };
                assert(b.columns[s].title == t);
                assert(f < s);
                assert(b.columns[f].title == t);
            }
            if exists|i: int, j: int|
                0 <= i < j < b.columns.len() && #[trigger] b.columns[i].title == t
                    && #[trigger] b.columns[j].title == t {
                let (i, j) = choose|i: int, j: int|
                    0 <= i < j < b.columns.len() && #[trigger] b.columns[i].title == t
                        && #[trigger] b.columns[j].title == t;
                assert(after.columns[j - 1] == b.columns[j]);
                assert(after.columns[j - 1].title == t);
            }
            if b.wf() {
                assert forall|c: int, k: int, d: int, j: int|
                    #![trigger after.columns[c].items[k], after.columns[d].items[j]]
                    0 <= c < after.columns.len() && 0 <= k < after.columns[c].items.len() && 0 <= d
                        < after.columns.len() && 0 <= j < after.columns[d].items.len()
                        && after.columns[c].items[k].id
                        == after.columns[d].items[j].id implies c == d && k == j by {
                    let c0 = if c < f { c } else { c + 1 };
                    let d0 = if d < f { d } else { d + 1 };
                    assert(b.columns[c0].items[k].id == b.columns[d0].items[j].id);
                }
                assert forall|c: int, k: int|
                    0 <= c < after.columns.len() && 0 <= k < after.columns[c].items.len() implies (
                #[trigger] after.columns[c].items[k]).id < after.counter by {
                    let c0 = if c < f { c } else { c + 1 };
                    assert(b.columns[c0].items[k].id < b.counter);
                }
            }
        },
        None => {},
    }
}

/// Removing the first column titled `t` from a valid board makes every item
/// of that column unreachable and leaves every other item in the column it
/// was in, with the fields it had.
pub proof fn law_remove_column_items(b: BoardView, t: Seq<char>, id: u16)
    requires
        b.wf(),
    ensures
        match (b.first_column(t), b.locate(id)) {
            (Some(f), Some((c, k))) => if c == f {
                &&& !b.without_column(t).has_item(id)
                &&& b.without_column(t).item_column(id) is None
            } else {
                &&& b.without_column(t).item(id) == b.item(id)
                &&& b.without_column(t).item_column(id) == b.item_column(id)
            },
            (Some(f), None) => !b.without_column(t).has_item(id),
            (None, _) => b.without_column(t) == b,
        },
{
    let after = b.without_column(t);
    law_remove_column(b, t, t);
    b.lemma_first_column(t);
    b.lemma_locate(id);
    after.lemma_locate(id);
    if let Some(f) = b.first_column(t) {
        assert forall|d: int| 0 <= d < after.columns.len() implies #[trigger] after.columns[d]
            == b.columns[if d < f { d } else { d + 1 }] by {}
        assert forall|d: int, j: int| #[trigger] after.holds(d, j, id) implies b.holds(
            if d < f { d } else { d + 1 },
            j,
            id,
        ) by {}
        match b.locate(id) {
            Some((c, k)) => {
                if c == f {
                    if after.has_item(id) {
                        let (d, j) = after.locate(id).unwrap();
                        let d0 = if d < f { d } else { d + 1 };
                        assert(b.holds(d0, j, id));
                        assert(b.columns[d0].items[j].id == b.columns[c].items[k].id);
                    }
                } else {
                    let d = if c < f { c } else { c - 1 };
                    assert(after.columns[d] == b.columns[c]);
                    assert(after.holds(d, k, id));
                    after.lemma_locate_valid(d, k, id);
                }
            },
            None => {
                if after.has_item(id) {
                    let (d, j) = after.locate(id).unwrap();
                    assert(b.holds(if d < f { d } else { d + 1 }, j, id));
                }
            },
        }
    }
}

/// A successful creation gives the new item the old counter as its
/// identifier, with the fields handed in, puts it in a column titled
/// `column`, raises the counter by exactly one, keeps the board valid and
/// leaves every other item as it was. Without a column of that title the
/// board, and with it the counter, stays as it was.
pub proof fn law_create_item(
    b: BoardView,
    title: Seq<char>,
    body: Seq<char>,
    assignee: Option<Seq<char>>,
    column: Seq<char>,
    other: u16,
)
    requires
        b.wf(),
        b.has_column(column) ==> b.counter < u16::MAX,
    ensures
        !b.has_column(column) ==> b.with_item(title, body, assignee, column) == b,
        b.has_column(column) ==> {
            let after = b.with_item(title, body, assignee, column);
            &&& after.counter == b.counter + 1
            &&& after.item(b.counter) == Some(
                ItemView { id: b.counter, title: title, body: body, assignee: assignee },
            )
            &&& after.item_column(b.counter) == Some(column)
            &&& after.wf()
            &&& other != b.counter ==> after.item(other) == b.item(other) && after.item_column(other)
                == b.item_column(other)
        },
{
    b.lemma_first_column(column);
    if b.has_column(column) {
        let i = b.first_column(column).unwrap();
        let item = ItemView { id: b.counter, title: title, body: body, assignee: assignee };
        let next = (b.counter + 1) as u16;
        assert(!b.has_item(b.counter)) by {
            if b.has_item(b.counter) {
                let (c, k) = choose|c: int, k: int| #[trigger] b.holds(c, k, b.counter);
                assert(b.columns[c].items[k].id < b.counter);
            }
        }
        b.lemma_append_at(i, item, next, other);
        assert(b.with_item(title, body, assignee, column) == b.append_at(i, item, next));
    }
}

/// On a valid board, after `without_item(id)` no item has the identifier
/// `id`, every item with another identifier is in the column it was in, with
/// the fields it had, and the counter has not moved.
pub proof fn law_remove_item(b: BoardView, id: u16, other: u16)
    requires
        b.wf(),
    ensures
        !b.without_item(id).has_item(id),
        b.without_item(id).item_column(id) is None,
        other != id ==> {
            &&& b.without_item(id).has_item(other) == b.has_item(other)
            &&& b.without_item(id).item(other) == b.item(other)
            &&& b.without_item(id).item_column(other) == b.item_column(other)
        },
        b.without_item(id).counter == b.counter,
        b.without_item(id).wf(),
        !b.has_item(id) ==> b.without_item(id) == b,
{
    b.lemma_locate(id);
    b.without_item(id).lemma_locate(id);
    match b.locate(id) {
        Some((c, k)) => {
            assert(b.without_item(id) == b.take_at(c, k));
            b.lemma_take_at(c, k, other);
        },
        None => {},
    }
}

/// On a valid board that has a column titled `dest` and an item `id`: after
/// `with_item_moved(id, dest)` the item is in a column titled `dest`, with
/// the fields it had; it occurs exactly once on the board; every other item
/// is where it was; the counter has not moved and the board is valid.
pub proof fn law_move_item(b: BoardView, id: u16, dest: Seq<char>, other: u16)
    requires
        b.wf(),
        b.has_column(dest),
        b.has_item(id),
    ensures
        b.with_item_moved(id, dest).item_column(id) == Some(dest),
        b.with_item_moved(id, dest).item(id) == b.item(id),
        b.with_item_moved(id, dest).has_item(id),
        forall|c: int, k: int, d: int, j: int|
            #![trigger b.with_item_moved(id, dest).holds(c, k, id), b.with_item_moved(id, dest).holds(d, j, id)]
            b.with_item_moved(id, dest).holds(c, k, id) && b.with_item_moved(id, dest).holds(
                d,
                j,
                id,
            ) ==> c == d && k == j,
        other != id ==> {
            &&& b.with_item_moved(id, dest).has_item(other) == b.has_item(other)
            &&& b.with_item_moved(id, dest).item(other) == b.item(other)
            &&& b.with_item_moved(id, dest).item_column(other) == b.item_column(other)
        },
        b.with_item_moved(id, dest).counter == b.counter,
        b.with_item_moved(id, dest).wf(),
{
    let after = b.with_item_moved(id, dest);
    b.lemma_first_column(dest);
    b.lemma_locate(id);
    let d = b.first_column(dest).unwrap();
    let (c, k) = b.locate(id).unwrap();
    let item = b.columns[c].items[k];
    let taken = b.take_at(c, k);
    b.lemma_take_at(c, k, other);
    assert(item.id < b.counter);
    taken.lemma_append_at(d, item, b.counter, other);
    assert(after == taken.append_at(d, item, b.counter));
    assert(taken.columns[d].title == dest);
    after.lemma_locate(id);
}

/// Where no column is titled `dest`, or no item has the identifier `id`,
/// `with_item_moved(id, dest)` is the board itself.
pub proof fn law_move_item_missing(b: BoardView, id: u16, dest: Seq<char>)
    requires
        !b.has_column(dest) || !b.has_item(id),
    ensures
        b.with_item_moved(id, dest) == b,
{
    b.lemma_first_column(dest);
    b.lemma_locate(id);
}

/// Editing the title or the body of an item changes that field of that item
/// and nothing else: the item keeps its column, its identifier and its other
/// fields, every other item is as it was, and a valid board stays valid.
pub proof fn law_edit_item(b: BoardView, id: u16, text: Seq<char>, other: u16)
    requires
        b.wf(),
    ensures
        !b.has_item(id) ==> b.with_item_title(id, text) == b && b.with_item_body(id, text) == b,
        b.item(id) matches Some(item) ==> {
            &&& b.with_item_title(id, text).item(id) == Some(ItemView { title: text, ..item })
            &&& b.with_item_body(id, text).item(id) == Some(ItemView { body: text, ..item })
        },
        b.with_item_title(id, text).item_column(id) == b.item_column(id),
        b.with_item_body(id, text).item_column(id) == b.item_column(id),
        other != id ==> {
            &&& b.with_item_title(id, text).item(other) == b.item(other)
            &&& b.with_item_title(id, text).item_column(other) == b.item_column(other)
            &&& b.with_item_body(id, text).item(other) == b.item(other)
            &&& b.with_item_body(id, text).item_column(other) == b.item_column(other)
        },
        b.with_item_title(id, text).wf(),
        b.with_item_body(id, text).wf(),
        b.with_item_title(id, text).counter == b.counter,
        b.with_item_body(id, text).counter == b.counter,
{
    b.lemma_locate(id);
    match b.locate(id) {
        Some((c, k)) => {
            let item = b.columns[c].items[k];
            b.lemma_replace(id, ItemView { title: text, ..item }, other);
            b.lemma_replace(id, ItemView { body: text, ..item }, other);
        },
        None => {},
    }
}

/// A command that fits a valid board leaves it valid and never lowers the
/// counter. A command that only lists, that is refused for its identifier,
/// or that finds no such column or no such item, leaves the board as it was.
pub proof fn law_apply(b: BoardView, command: CommandView)
    requires
        b.wf(),
        command.fits(b),
    ensures
        b.after(command).wf(),
        b.after(command).counter >= b.counter,
        (b.outcome(command) is Listed || b.outcome(command) is BadId || b.outcome(command)
            is ColumnNotFound || b.outcome(command) is ItemNotFound) ==> b.after(command) == b,
{
    match command {
        CommandView::List => {},
        CommandView::AddColumn(Some(t)) => {
            law_create_column(b, t, t, 0);
        },
        CommandView::AddColumn(None) => {},
        CommandView::RemoveColumn(Some(t)) => {
            law_remove_column(b, t, t);
        },
        CommandView::RemoveColumn(None) => {},
        CommandView::AddItem { title, body, assignee, column } => {
            law_create_item(b, title, body, assignee_of(assignee), column, 0);
        },
        CommandView::RemoveItem(Some(text)) => {
            if let Some(id) = id_of(text) {
                law_remove_item(b, id, id);
            }
        },
        CommandView::RemoveItem(None) => {},
        CommandView::MoveItem { id, column } => {
            if let Some(id) = id_of(id) {
                if b.has_column(column) && b.has_item(id) {
                    law_move_item(b, id, column, id);
                } else {
                    law_move_item_missing(b, id, column);
                }
            }
        },
        CommandView::EditItem { id, title, body } => {
            if let Some(id) = id_of(id) {
                law_edit_item(b, id, title, id);
                let retitled = if title.len() > 0 {
                    b.with_item_title(id, title)
                } else {
                    b
                };
                law_edit_item(retitled, id, body, id);
            }
        },
    }
}

} // verus!
