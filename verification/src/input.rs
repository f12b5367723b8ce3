use vstd::prelude::*;
use vstd::string::StrSliceExecFns;

verus! {

/// `c` is one of the ten decimal digits.
pub open spec fn is_digit(c: char) -> bool {
    '0' <= c <= '9'
}

/// The number that a decimal digit stands for; 0 for any other character.
pub open spec fn digit_value(c: char) -> nat {
    if is_digit(c) {
        (c as nat - '0' as nat) as nat
    } else {
        0
    }
}

/// The number that the first `n` characters of `s` spell in decimal
/// notation.
pub open spec fn digits_value(s: Seq<char>, n: nat) -> nat
    decreases n,
{
    if n == 0 {
        0
    } else {
        digits_value(s, (n - 1) as nat) * 10 + digit_value(s[n - 1])
    }
}

/// The characters of `text` behind an optional leading `+`.
pub open spec fn unsigned_part(text: Seq<char>) -> Seq<char> {
    if text.len() > 0 && text[0] == '+' {
        text.subrange(1, text.len() as int)
    } else {
        text
    }
}

/// The identifier that `text` spells: an optional `+`, then one or more
/// decimal digits whose number is at most 65535. Any other text spells
/// none.
pub open spec fn id_of(text: Seq<char>) -> Option<u16> {
    let digits = unsigned_part(text);
    if digits.len() > 0 && (forall|i: int| 0 <= i < digits.len() ==> is_digit(#[trigger] digits[i]))
        && digits_value(digits, digits.len()) <= u16::MAX {
        Some(digits_value(digits, digits.len()) as u16)
    } else {
        None
    }
}

/// A longer prefix spells a number that is no smaller.
pub proof fn lemma_digits_value_grows(s: Seq<char>, k: nat, n: nat)
    requires
        k <= n,
    ensures
        digits_value(s, k) <= digits_value(s, n),
    decreases n,
{
    if k < n {
        lemma_digits_value_grows(s, k, (n - 1) as nat);
    }
}

/// A line without its end: a final line feed goes, and then a final
/// carriage return.
pub open spec fn without_line_end(line: Seq<char>) -> Seq<char> {
    let cut = if line.len() > 0 && line.last() == '\n' {
        line.drop_last()
    } else {
        line
    };
    if cut.len() > 0 && cut.last() == '\r' {
        cut.drop_last()
    } else {
        cut
    }
}

/// Cuts the line end off a line that was read from a terminal.
pub fn strip_line_end(line: &str) -> (text: &str)
    ensures
        text@ == without_line_end(line@),
{
    let mut n = line.unicode_len();
    if n > 0 && line.get_char(n - 1) == '\n' {
        n -= 1;
    }
    if n > 0 && line.get_char(n - 1) == '\r' {
        n -= 1;
    }
    let text = line.substring_char(0, n);
    assert(text@ =~= without_line_end(line@));
    text
}

/// Reads an identifier from the text a user typed. The whole text must be
/// the number: no blanks, no sign but `+`, nothing above 65535.
pub fn parse_id(text: &str) -> (id: Option<u16>)
    ensures
        id == id_of(text@),
{
    if !text.is_ascii() {
        proof {
            let i = choose|i: int| 0 <= i < text@.len() && !('\0' <= #[trigger] text@[i] <= '\u{7f}');
            let digits = unsigned_part(text@);
            if digits.len() == text@.len() {
                assert(!is_digit(digits[i]));
            } else if i > 0 {
                assert(digits[i - 1] == text@[i]);
                assert(!is_digit(digits[i - 1]));
            }
        }
        return None;
    }
    let n = text.unicode_len();
    let start: usize = if n > 0 && text.get_ascii(0) == 43u8 {
        1
    } else {
        0
    };
    let ghost digits = unsigned_part(text@);
    assert(digits =~= text@.subrange(start as int, n as int));
    if start == n {
        return None;
    }
    let mut value: u32 = 0;
    let mut i: usize = start;
    while i < n
        invariant
            text.is_ascii(),
            n == text@.len(),
            start <= i <= n,
            digits == unsigned_part(text@),
            digits == text@.subrange(start as int, n as int),
            forall|j: int| 0 <= j < i - start ==> is_digit(#[trigger] digits[j]),
            value == digits_value(digits, (i - start) as nat),
            value <= u16::MAX,
        decreases n - i,
    {
        let b = text.get_ascii(i);
        assert(digits[i - start] == text@[i as int]);
        if b < 48u8 || b > 57u8 {
            assert(!is_digit(digits[i - start]));
            return None;
        }
        assert(is_digit(digits[i - start]));
        assert(digit_value(digits[i - start]) == b - 48);
        value = value * 10 + (b - 48u8) as u32;
        i += 1;
        assert(value == digits_value(digits, (i - start) as nat));
        if value > 65535u32 {
            proof {
                lemma_digits_value_grows(digits, (i - start) as nat, digits.len());
            }
            return None;
        }
    }
    Some(value as u16)
}

} // verus!
