use vstd::prelude::*;
use crate::board::Board;
use crate::column::{Column, ColumnView};
use crate::item::{Item, ItemView};
use crate::model::BoardView;

verus! {

/// The character that stands for a single decimal digit.
pub open spec fn digit_char(d: nat) -> char
    recommends
        d < 10,
{
    if d == 0 {
        '0'
    } else if d == 1 {
        '1'
    } else if d == 2 {
        '2'
    } else if d == 3 {
        '3'
    } else if d == 4 {
        '4'
    } else if d == 5 {
        '5'
    } else if d == 6 {
        '6'
    } else if d == 7 {
        '7'
    } else if d == 8 {
        '8'
    } else {
        '9'
    }
}

/// A number in decimal notation, without sign or leading zeros.
pub open spec fn decimal(n: nat) -> Seq<char>
    decreases n,
{
    if n < 10 {
        seq![digit_char(n)]
    } else {
        decimal(n / 10).push(digit_char(n % 10))
    }
}

/// The renderings of the first `n` items, separated by a line break and two
/// tabs.
pub open spec fn items_text(items: Seq<ItemView>, n: nat) -> Seq<char>
    decreases n,
{
    if n == 0 {
        Seq::empty()
    } else if n == 1 {
        items[0].render()
    } else {
        items_text(items, (n - 1) as nat) + "\n\t\t"@ + items[n - 1].render()
    }
}

/// The renderings of the first `n` columns, separated by a line break and a
/// tab.
pub open spec fn columns_text(columns: Seq<ColumnView>, n: nat) -> Seq<char>
    decreases n,
{
    if n == 0 {
        Seq::empty()
    } else if n == 1 {
        columns[0].render()
    } else {
        columns_text(columns, (n - 1) as nat) + "\n\t"@ + columns[n - 1].render()
    }
}

impl ItemView {
    /// Identifier, title and body on one line, followed by the assignee
    /// where there is one.
    pub open spec fn render(self) -> Seq<char> {
        let head = "(ID: "@ + decimal(self.id as nat) + ") Title: "@ + self.title + ", Body: "@
            + self.body;
        match self.assignee {
            Some(a) => head + ", Assigned To: "@ + a,
            None => head,
        }
    }
}

impl ColumnView {
    /// The title, then the items, each on a line of its own.
    pub open spec fn render(self) -> Seq<char> {
        self.title + ": \n\t\t"@ + items_text(self.items, self.items.len())
    }
}

impl BoardView {
    /// A header, then the columns, each starting a line of its own.
    pub open spec fn render(self) -> Seq<char> {
        "Board: \n\t"@ + columns_text(self.columns, self.columns.len())
    }
}

/// The one-character text of a decimal digit.
fn digit_text(d: u16) -> (text: &'static str)
    requires
        d < 10,
    ensures
        text@ == seq![digit_char(d as nat)],
{
    proof {
        reveal_strlit("0");
        reveal_strlit("1");
        reveal_strlit("2");
        reveal_strlit("3");
        reveal_strlit("4");
        reveal_strlit("5");
        reveal_strlit("6");
        reveal_strlit("7");
        reveal_strlit("8");
        reveal_strlit("9");
    }
    let text = if d == 0 {
        "0"
    } else if d == 1 {
        "1"
    } else if d == 2 {
        "2"
    } else if d == 3 {
        "3"
    } else if d == 4 {
        "4"
    } else if d == 5 {
        "5"
    } else if d == 6 {
        "6"
    } else if d == 7 {
        "7"
    } else if d == 8 {
        "8"
    } else {
        "9"
    };
    assert(text@ =~= seq![digit_char(d as nat)]);
    text
}

/// Appends `n` in decimal notation to `out`.
fn push_decimal(out: &mut String, n: u16)
    ensures
        final(out)@ == old(out)@ + decimal(n as nat),
    decreases n,
{
    if n >= 10 {
        push_decimal(out, n / 10);
    }
    out.append(digit_text(n % 10));
    assert(out@ =~= old(out)@ + decimal(n as nat));
}

impl Item {
    /// The item as one line of text.
    pub fn to_string(&self) -> (text: String)
        ensures
            text@ == self@.render(),
    {
        let mut out = String::from_str("(ID: ");
        push_decimal(&mut out, self.id());
        out.append(") Title: ");
        out.append(self.title().as_str());
        out.append(", Body: ");
        out.append(self.body().as_str());
        match self.assignee() {
            Some(a) => {
                out.append(", Assigned To: ");
                out.append(a.as_str());
            },
            None => {},
        }
        assert(out@ =~= self@.render());
        out
    }
}

impl Column {
    /// The column as text: its title, then one line for each item.
    pub fn to_string(&self) -> (text: String)
        ensures
            text@ == self@.render(),
    {
        let mut out = self.title().clone();
        out.append(": \n\t\t");
        let n = self.len();
        let mut k: usize = 0;
        while k < n
            invariant
                n == self@.items.len(),
                0 <= k <= n,
                out@ == self@.title + ": \n\t\t"@ + items_text(self@.items, k as nat),
            decreases n - k,
        {
            if k > 0 {
                out.append("\n\t\t");
            }
            let line = self.item(k).to_string();
            out.append(line.as_str());
            k += 1;
            assert(out@ =~= self@.title + ": \n\t\t"@ + items_text(self@.items, k as nat));
        }
        out
    }
}

impl Board {
    /// The board as text: a header, then the columns with their items.
    /// Display only: nothing reads this text back.
    pub fn to_string(&self) -> (text: String)
        ensures
            text@ == self@.render(),
    {
        let mut out = String::from_str("Board: \n\t");
        let n = self.column_count();
        let mut i: usize = 0;
        while i < n
            invariant
                n == self@.columns.len(),
                0 <= i <= n,
                out@ == "Board: \n\t"@ + columns_text(self@.columns, i as nat),
            decreases n - i,
        {
            if i > 0 {
                out.append("\n\t");
            }
            let part = self.column(i).to_string();
            out.append(part.as_str());
            i += 1;
            assert(out@ =~= "Board: \n\t"@ + columns_text(self@.columns, i as nat));
        }
        out
    }
}

} // verus!
