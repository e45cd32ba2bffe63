//! Text: numbers written in decimal, and what counts as white space.

use vstd::prelude::*;

verus! {

/// Whether `c` is white space: whether it has the Unicode property
/// `White_Space`, which twenty-five characters have. They are the tab, the
/// line feed, the vertical tab, the form feed, the carriage return and the
/// space; the next line and the no-break space; the Ogham space mark; the
/// spaces of fixed widths from the en quad to the hair space; the line and
/// the paragraph separator; and the narrow no-break, the medium
/// mathematical and the ideographic space.
pub open spec fn white_space(c: char) -> bool {
    ||| '\u{9}' <= c <= '\u{d}'
    ||| c == ' '
    ||| c == '\u{85}'
    ||| c == '\u{a0}'
    ||| c == '\u{1680}'
    ||| '\u{2000}' <= c <= '\u{200a}'
    ||| c == '\u{2028}'
    ||| c == '\u{2029}'
    ||| c == '\u{202f}'
    ||| c == '\u{205f}'
    ||| c == '\u{3000}'
}

/// `char::is_whitespace`, which says whether a character has the Unicode
/// property `White_Space`.
#[verifier::external_body]
pub(crate) fn is_whitespace(c: char) -> (space: bool)
    ensures
        space == white_space(c),
{
    c.is_whitespace()
}

/// `String::push`: append `c` to the end of `text`.
#[verifier::external_body]
pub(crate) fn push_char(text: &mut String, c: char)
    ensures
        final(text)@ == old(text)@.push(c),
{
    text.push(c);
}

/// The number of bytes that `text` takes.
pub open spec fn width_of(text: Seq<char>) -> usize {
    vstd::utf8::encode_utf8(text).len() as usize
}

/// The number of bytes that `text` takes.
pub fn byte_width(text: &str) -> (n: usize)
    ensures
        n == width_of(text@),
{
    text.len()
}

/// Whether `c` is one of the ten digits.
pub open spec fn is_digit(c: char) -> bool {
    '0' <= c <= '9'
}

/// The number that the digit `c` stands for.
pub open spec fn digit_value(c: char) -> int {
    c as u32 - '0' as u32
}

/// The digit that stands for `d`, a number below ten.
pub open spec fn digit(d: int) -> char {
    (d + '0' as u32) as u8 as char
}

/// `n` written in decimal, without leading zeros.
pub open spec fn decimal(n: nat) -> Seq<char>
    decreases n,
{
    if n < 10 {
        seq![digit(n as int)]
    } else {
        decimal(n / 10).push(digit((n % 10) as int))
    }
}

/// `n` written in decimal, with a minus sign before it where it is below
/// zero.
pub open spec fn signed_decimal(n: int) -> Seq<char> {
    if n < 0 {
        seq!['-'] + decimal((-n) as nat)
    } else {
        decimal(n as nat)
    }
}

/// Whether `c` is one of the ten digits.
pub fn digit_char(c: char) -> (yes: bool)
    ensures
        yes == is_digit(c),
{
    '0' <= c && c <= '9'
}

/// The number that the digit `c` stands for.
pub fn digit_to_number(c: char) -> (d: u32)
    requires
        is_digit(c),
    ensures
        d == digit_value(c),
        d < 10,
{
    c as u32 - '0' as u32
}

/// The digit that stands for `d`.
fn number_to_digit(d: u64) -> (c: char)
    requires
        d < 10,
    ensures
        c == digit(d as int),
{
    (d as u8 + 48u8) as char
}

/// `n` written in decimal.
pub fn decimal_text(n: u64) -> (text: String)
    ensures
        text@ == decimal(n as nat),
{
    let mut backwards: Vec<char> = Vec::new();
    let mut rest = n;
    let ghost mut tail: Seq<char> = Seq::empty();
    while rest >= 10
        invariant
            decimal(n as nat) == decimal(rest as nat) + tail,
            tail.len() == backwards@.len(),
            forall|j: int| 0 <= j < tail.len() ==> tail[j] == backwards@[tail.len() - 1 - j],
        decreases rest,
    {
        let c = number_to_digit(rest % 10);
        proof {
            assert(decimal(rest as nat) == decimal((rest / 10) as nat).push(c));
            assert(decimal((rest / 10) as nat).push(c) + tail =~= decimal((rest / 10) as nat) + (
            seq![c] + tail));
            tail = seq![c] + tail;
        }
        backwards.push(c);
        rest = rest / 10;
    }
    let c = number_to_digit(rest);
    proof {
        assert(decimal(rest as nat) + tail =~= seq![c] + tail);
        tail = seq![c] + tail;
    }
    backwards.push(c);
    let mut text = String::new();
    let mut i = backwards.len();
    while i > 0
        invariant
            i <= backwards@.len(),
            tail.len() == backwards@.len(),
            forall|j: int| 0 <= j < tail.len() ==> tail[j] == backwards@[tail.len() - 1 - j],
            text@ == tail.subrange(0, backwards@.len() - i),
        decreases i,
    {
        i -= 1;
        push_char(&mut text, backwards[i]);
        assert(text@ =~= tail.subrange(0, backwards@.len() - i));
    }
    assert(text@ =~= tail);
    text
}

/// `n` written in decimal, with a minus sign before it where it is below
/// zero.
pub fn signed_decimal_text(n: i64) -> (text: String)
    ensures
        text@ == signed_decimal(n as int),
{
    if n < 0 {
        let size: u64 = (-(n + 1)) as u64 + 1;
        let digits = decimal_text(size);
        let mut text = String::new();
        push_char(&mut text, '-');
        text.append(digits.as_str());
        assert(text@ =~= seq!['-'] + decimal((-n) as nat));
        text
    } else {
        decimal_text(n as u64)
    }
}

} // verus!
