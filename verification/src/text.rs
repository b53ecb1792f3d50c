//! Text-level helpers: the command character whitelist, trailing line-break
//! trimming, and decimal rendering of numeric commands.

use vstd::prelude::*;
use vstd::string::*;

verus! {

/// Whether `char::is_alphanumeric` holds of the character. The Unicode
/// classification is too large to restate, so it is left uninterpreted.
pub uninterp spec fn char_alphanumeric(c: char) -> bool;

/// Relies on `char::is_alphanumeric` of std: whether a character lies in a
/// Unicode letter or number category is a property of the character alone.
pub assume_specification[ char::is_alphanumeric ](c: char) -> (r: bool)
    ensures
        r == char_alphanumeric(c),
;

/// A character a command line may contain: alphanumeric or one of the fixed
/// set `. + - | @ space`.
pub open spec fn valid_char(c: char) -> bool {
    char_alphanumeric(c) || c == '.' || c == '+' || c == '-' || c == '|' || c == '@' || c == ' '
}

/// A command line that passes validation: non-empty, every character accepted.
pub open spec fn valid_text(s: Seq<char>) -> bool {
    s.len() > 0 && forall|i: int| 0 <= i < s.len() ==> valid_char(#[trigger] s[i])
}

/// A trailing character that a terminal line read may leave behind.
pub open spec fn line_break(c: char) -> bool {
    c == '\r' || c == '\n'
}

/// The text with every trailing `\r` and `\n` removed.
pub open spec fn trim_crlf(s: Seq<char>) -> Seq<char>
    decreases s.len(),
{
    if s.len() > 0 && line_break(s[s.len() - 1]) {
        trim_crlf(s.drop_last())
    } else {
        s
    }
}

/// Whether the text's character just before position `end` is a line
/// break.
pub(crate) fn is_trailing_break(s: &str, end: usize) -> (b: bool)
    requires
        0 < end <= s@.len(),
    ensures
        b == line_break(s@[end - 1]),
{
    let c = s.get_char(end - 1);
    c == '\r' || c == '\n'
}

/// The character for one decimal digit value.
pub open spec fn decimal_digit(d: nat) -> char {
    if d == 0 {
        '0'
    } else if d == 1 {
        '1'
    } else if d == 2 {
        '2'
    } else if d == 3 {
        '3'
    } else if d == 4 {
        '4'
    } else if d == 5 {
        '5'
    } else if d == 6 {
        '6'
    } else if d == 7 {
        '7'
    } else if d == 8 {
        '8'
    } else {
        '9'
    }
}

/// The usual decimal rendering of a number, most significant digit first.
pub open spec fn decimal_chars(n: nat) -> Seq<char>
    decreases n,
{
    if n < 10 {
        seq![decimal_digit(n)]
    } else {
        decimal_chars(n / 10).push(decimal_digit(n % 10))
    }
}

fn digit_str(d: usize) -> (r: &'static str)
    requires
        d < 10,
    ensures
        r@ == seq![decimal_digit(d as nat)],
{
    proof {
        reveal_strlit("0");
        reveal_strlit("1");
        reveal_strlit("2");
        reveal_strlit("3");
        reveal_strlit("4");
        reveal_strlit("5");
        reveal_strlit("6");
        reveal_strlit("7");
        reveal_strlit("8");
        reveal_strlit("9");
    }
    let r = if d == 0 {
        "0"
    } else if d == 1 {
        "1"
    } else if d == 2 {
        "2"
    } else if d == 3 {
        "3"
    } else if d == 4 {
        "4"
    } else if d == 5 {
        "5"
    } else if d == 6 {
        "6"
    } else if d == 7 {
        "7"
    } else if d == 8 {
        "8"
    } else {
        "9"
    };
    proof {
        assert(r@ =~= seq![decimal_digit(d as nat)]);
    }
    r
}

/// Renders a number in decimal, as terminal input would spell it.
pub fn usize_to_string(n: usize) -> (r: String)
    ensures
        r@ == decimal_chars(n as nat),
    decreases n,
{
    if n < 10 {
        let r = digit_str(n).to_owned();
        proof {
            assert(r@ =~= decimal_chars(n as nat));
        }
        r
    } else {
        let mut r = usize_to_string(n / 10);
        r.append(digit_str(n % 10));
        proof {
            assert(r@ =~= decimal_chars(n as nat));
        }
        r
    }
}

} // verus!
