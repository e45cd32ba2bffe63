//! Dice rolls: what a roll is, how one is written, and how one is read.
//!
//! A roll is written as a quantity, `d`, a size, then suffixes and
//! modifiers in any order: `4d6k3 + 10 * 10.1`. The amount of a modifier is
//! kept as it is written.

use crate::text::{
    decimal, decimal_text, digit_char, digit_to_number, digit_value, is_digit, is_whitespace,
    push_char, white_space,
};
use vstd::prelude::*;
use vstd::slice::slice_subrange;

verus! {

/// Which of the dice of a roll count.
#[derive(Debug, Clone, Copy, PartialEq, Eq, Structural)]
pub enum RollSuff {
    /// All of them.
    Plain,
    /// The highest.
    Advantage,
    /// The lowest.
    Disadvantage,
    /// The highest so many.
    Keep(u32),
}

impl RollSuff {
    /// How the suffix is written: nothing, `a`, `d`, or `k` and the number
    /// of dice kept.
    pub open spec fn written(self) -> Seq<char> {
        match self {
            RollSuff::Plain => Seq::empty(),
            RollSuff::Advantage => seq!['a'],
            RollSuff::Disadvantage => seq!['d'],
            RollSuff::Keep(n) => seq!['k'] + decimal(n as nat),
        }
    }

    pub fn format(&self) -> (text: String)
        ensures
            text@ == self.written(),
    {
        let mut text = String::new();
        match self {
            RollSuff::Plain => {},
            RollSuff::Advantage => {
                push_char(&mut text, 'a');
            },
            RollSuff::Disadvantage => {
                push_char(&mut text, 'd');
            },
            RollSuff::Keep(n) => {
                push_char(&mut text, 'k');
                let number = decimal_text(*n as u64);
                text.append(number.as_str());
            },
        }
        assert(text@ =~= self.written());
        text
    }
}

/// What a modifier does with its amount.
#[derive(Debug, Clone, Copy, PartialEq, Eq, Structural)]
pub enum RollOp {
    Add,
    Sub,
    Mul,
    Div,
}

impl RollOp {
    /// The operation that `c` stands for: `+`, `-`, `*` or `x`, and `/`.
    pub open spec fn of(c: char) -> Option<RollOp> {
        if c == '+' {
            Some(RollOp::Add)
        } else if c == '-' {
            Some(RollOp::Sub)
        } else if c == '*' || c == 'x' {
            Some(RollOp::Mul)
        } else if c == '/' {
            Some(RollOp::Div)
        } else {
            None
        }
    }

    /// The sign by which the operation is written.
    pub open spec fn sign(self) -> char {
        match self {
            RollOp::Add => '+',
            RollOp::Sub => '-',
            RollOp::Mul => '*',
            RollOp::Div => '/',
        }
    }

    pub fn from(c: char) -> (op: Option<RollOp>)
        ensures
            op == Self::of(c),
    {
        match c {
            '+' => Some(RollOp::Add),
            '-' => Some(RollOp::Sub),
            '*' | 'x' => Some(RollOp::Mul),
            '/' => Some(RollOp::Div),
            _ => None,
        }
    }

    pub fn format(&self) -> (text: &'static str)
        ensures
            text@ == seq![self.sign()],
    {
        proof {
            reveal_strlit("+");
            reveal_strlit("-");
            reveal_strlit("*");
            reveal_strlit("/");
        }
        let text = match self {
            RollOp::Add => "+",
            RollOp::Sub => "-",
            RollOp::Mul => "*",
            RollOp::Div => "/",
        };
        assert(text@ =~= seq![self.sign()]);
        text
    }
}

/// A modifier of a roll: an operation, and the amount it is done with, as
/// it is written.
#[derive(Debug, Clone, PartialEq, Eq)]
pub struct RollMod {
    pub op: RollOp,
    /// Digits, with at most one point among them, and at least one digit.
    pub amount: String,
}

impl View for RollMod {
    type V = (RollOp, Seq<char>);

    open spec fn view(&self) -> (RollOp, Seq<char>) {
        (self.op, self.amount@)
    }
}

impl RollMod {
    /// How the modifier is written: the sign of its operation, a space, and
    /// its amount.
    pub open spec fn written(self) -> Seq<char> {
        seq![self.op.sign(), ' '] + self.amount@
    }

    pub fn format(&self) -> (text: String)
        ensures
            text@ == self.written(),
    {
        let mut text = String::new();
        text.append(self.op.format());
        push_char(&mut text, ' ');
        text.append(self.amount.as_str());
        assert(text@ =~= self.written());
        text
    }
}

/// `mods` as they are written, each with a space before it.
pub open spec fn mods_written(mods: Seq<RollMod>) -> Seq<char>
    decreases mods.len(),
{
    if mods.len() == 0 {
        Seq::empty()
    } else {
        mods_written(mods.drop_last()) + seq![' '] + mods.last().written()
    }
}

/// What a roll says, apart from how it is stored.
pub struct RollSpec {
    pub quantity: u32,
    pub size: u32,
    pub suff: RollSuff,
    pub mods: Seq<(RollOp, Seq<char>)>,
}

/// A roll of dice.
#[derive(Debug, Clone, PartialEq, Eq)]
pub struct Roll {
    pub quantity: u32,
    pub size: u32,
    pub suff: RollSuff,
    pub mods: Vec<RollMod>,
}

impl View for Roll {
    type V = RollSpec;

    open spec fn view(&self) -> RollSpec {
        RollSpec {
            quantity: self.quantity,
            size: self.size,
            suff: self.suff,
            mods: Seq::new(self.mods@.len(), |i: int| self.mods@[i]@),
        }
    }
}

impl Roll {
    /// How the roll is written: the quantity unless it is one, `d`, the
    /// size, the suffix, and the modifiers with a space before each.
    pub open spec fn written(&self) -> Seq<char> {
        (if self.quantity != 1 {
            decimal(self.quantity as nat)
        } else {
            Seq::empty()
        }) + seq!['d'] + decimal(self.size as nat) + self.suff.written() + mods_written(self.mods@)
    }

    pub fn format(&self) -> (text: String)
        ensures
            text@ == self.written(),
    {
        let mut text = String::new();
        if self.quantity != 1 {
            let quantity = decimal_text(self.quantity as u64);
            text.append(quantity.as_str());
        }
        push_char(&mut text, 'd');
        let size = decimal_text(self.size as u64);
        text.append(size.as_str());
        let suff = self.suff.format();
        text.append(suff.as_str());
        let ghost head = text@;
        let mut i: usize = 0;
        assert(self.mods@.take(0) =~= Seq::<RollMod>::empty());
        assert(head + Seq::<char>::empty() =~= head);
        while i < self.mods.len()
            invariant
                i <= self.mods@.len(),
                text@ == head + mods_written(self.mods@.take(i as int)),
            decreases self.mods@.len() - i,
        {
            let ghost before = text@;
            push_char(&mut text, ' ');
            let modifier = self.mods[i].format();
            text.append(modifier.as_str());
            proof {
                let now = self.mods@.take(i + 1);
                assert(now.drop_last() =~= self.mods@.take(i as int));
                assert(now.last() == self.mods@[i as int]);
                assert(text@ =~= head + mods_written(now));
            }
            i += 1;
        }
        assert(self.mods@.take(i as int) =~= self.mods@);
        text
    }
}

/// `s` without the white space it begins with.
pub open spec fn skip_spaces(s: Seq<char>) -> Seq<char>
    decreases s.len(),
{
    if s.len() > 0 && white_space(s[0]) {
        skip_spaces(s.skip(1))
    } else {
        s
    }
}

/// The number of digits that `s` begins with.
pub open spec fn leading_digits(s: Seq<char>) -> nat
    decreases s.len(),
{
    if s.len() > 0 && is_digit(s[0]) {
        1 + leading_digits(s.skip(1))
    } else {
        0
    }
}

/// The number that the digits `s` write in decimal.
pub open spec fn number(s: Seq<char>) -> nat
    decreases s.len(),
{
    if s.len() == 0 {
        0
    } else {
        (number(s.drop_last()) * 10 + digit_value(s.last())) as nat
    }
}

/// The next character of `s` that is not white space, and what follows it.
pub open spec fn next_of(s: Seq<char>) -> Option<(Seq<char>, char)> {
    let t = skip_spaces(s);
    if t.len() == 0 {
        None
    } else {
        Some((t.skip(1), t[0]))
    }
}

/// What follows `expected` in `s`, where `expected` is the next character
/// of `s` that is not white space.
pub open spec fn after(expected: char, s: Seq<char>) -> Option<Seq<char>> {
    match next_of(s) {
        Some((rest, c)) => if c == expected {
            Some(rest)
        } else {
            None
        },
        None => None,
    }
}

/// The whole number that `s` begins with after white space, and what
/// follows it. The number is that of its digits, counted as thirty-two bits
/// count: above their range it starts from zero again.
pub open spec fn leading_int(s: Seq<char>) -> Option<(Seq<char>, u32)> {
    let t = skip_spaces(s);
    let n = leading_digits(t);
    if n == 0 {
        None
    } else {
        Some((t.skip(n as int), (number(t.take(n as int)) % 0x1_0000_0000) as u32))
    }
}

/// White space is skipped from the front only: what is left is the end of
/// what there was.
pub proof fn lemma_skip_spaces(s: Seq<char>)
    ensures
        skip_spaces(s).len() <= s.len(),
        skip_spaces(s) == s.skip(s.len() - skip_spaces(s).len()),
        skip_spaces(s).len() > 0 ==> !white_space(skip_spaces(s)[0]),
        forall|j: int| 0 <= j < s.len() - skip_spaces(s).len() ==> white_space(#[trigger] s[j]),
    decreases s.len(),
{
    if s.len() > 0 && white_space(s[0]) {
        let rest = s.skip(1);
        lemma_skip_spaces(rest);
        let k = rest.len() - skip_spaces(rest).len();
        assert(rest.skip(k) =~= s.skip(k + 1));
        assert forall|j: int| 0 <= j < s.len() - skip_spaces(s).len() implies white_space(
            #[trigger] s[j],
        ) by {
            if j > 0 {
                assert(s[j] == rest[j - 1]);
            }
        }
    } else {
        assert(s.skip(0) =~= s);
    }
}

/// Where `s` begins with `n` characters of white space and goes on with
/// another or ends, skipping its white space leaves what follows the `n`.
pub proof fn lemma_spaces_skipped(s: Seq<char>, n: int)
    requires
        0 <= n <= s.len(),
        forall|j: int| 0 <= j < n ==> white_space(#[trigger] s[j]),
        n < s.len() ==> !white_space(s[n]),
    ensures
        skip_spaces(s) == s.skip(n),
    decreases n,
{
    if n == 0 {
        assert(s.skip(0) =~= s);
    } else {
        let rest = s.skip(1);
        assert forall|j: int| 0 <= j < n - 1 implies white_space(#[trigger] rest[j]) by {
            assert(rest[j] == s[j + 1]);
        }
        lemma_spaces_skipped(rest, n - 1);
        assert(rest.skip(n - 1) =~= s.skip(n));
    }
}

/// Where `s` begins with `n` digits and goes on with another character or
/// ends, `n` is the number of digits it begins with.
pub proof fn lemma_digits_counted(s: Seq<char>, n: int)
    requires
        0 <= n <= s.len(),
        forall|j: int| 0 <= j < n ==> is_digit(#[trigger] s[j]),
        n < s.len() ==> !is_digit(s[n]),
    ensures
        leading_digits(s) == n,
    decreases n,
{
    if n > 0 {
        let rest = s.skip(1);
        assert forall|j: int| 0 <= j < n - 1 implies is_digit(#[trigger] rest[j]) by {
            assert(rest[j] == s[j + 1]);
        }
        lemma_digits_counted(rest, n - 1);
    }
}

/// Remove the white space that `text` begins with.
pub fn trim_whitespace(text: &[char]) -> (rest: &[char])
    ensures
        rest@ == skip_spaces(text@),
{
    let mut i: usize = 0;
    while i < text.len() && is_whitespace(text[i])
        invariant
            i <= text@.len(),
            forall|j: int| 0 <= j < i ==> white_space(#[trigger] text@[j]),
        decreases text@.len() - i,
    {
        i += 1;
    }
    proof {
        lemma_spaces_skipped(text@, i as int);
    }
    slice_subrange(text, i, text.len())
}

/// The next character of `text` that is not white space, and what follows
/// it.
pub fn next_char(text: &[char]) -> (next: Option<(&[char], char)>)
    ensures
        match next {
            Some((rest, c)) => next_of(text@) == Some((rest@, c)),
            None => next_of(text@) is None,
        },
{
    let stripped = trim_whitespace(text);
    if stripped.len() > 0 {
        Some((slice_subrange(stripped, 1, stripped.len()), stripped[0]))
    } else {
        None
    }
}

/// What follows `expected` in `text`, where `expected` is the next
/// character of `text` that is not white space.
pub fn expect(expected: char, text: &[char]) -> (rest: Option<&[char]>)
    ensures
        match rest {
            Some(rest) => after(expected, text@) == Some(rest@),
            None => after(expected, text@) is None,
        },
{
    match next_char(text) {
        Some((rest, actual)) => {
            if actual == expected {
                Some(rest)
            } else {
                None
            }
        },
        None => None,
    }
}

/// The whole number that `text` begins with after white space, and what
/// follows it.
pub fn take_leading_int(text: &[char]) -> (taken: Option<(&[char], u32)>)
    ensures
        match taken {
            Some((rest, val)) => leading_int(text@) == Some((rest@, val)),
            None => leading_int(text@) is None,
        },
{
    let digits = trim_whitespace(text);
    let mut val: u32 = 0;
    let mut i: usize = 0;
    assert(digits@.take(0) =~= Seq::<char>::empty());
    while i < digits.len() && digit_char(digits[i])
        invariant
            i <= digits@.len(),
            forall|j: int| 0 <= j < i ==> is_digit(#[trigger] digits@[j]),
            val == number(digits@.take(i as int)) % 0x1_0000_0000,
        decreases digits@.len() - i,
    {
        let d = digit_to_number(digits[i]);
        proof {
            let before = digits@.take(i as int);
            let now = digits@.take(i + 1);
            assert(now.drop_last() =~= before);
            assert(now.last() == digits@[i as int]);
            let n = number(before);
            assert((n * 10 + d) % 0x1_0000_0000 == ((n % 0x1_0000_0000) * 10 + d) % 0x1_0000_0000)
                by (nonlinear_arith)
                requires
                    n >= 0,
                    d >= 0,
            ;
        }
        val = ((val as u64 * 10 + d as u64) % 0x1_0000_0000) as u32;
        i += 1;
    }
    proof {
        lemma_digits_counted(digits@, i as int);
    }
    if i == 0 {
        None
    } else {
        Some((slice_subrange(digits, i, digits.len()), val))
    }
}

/// Whether there is a digit in `s`.
pub open spec fn has_digit(s: Seq<char>) -> bool {
    exists|i: int| 0 <= i < s.len() && is_digit(#[trigger] s[i])
}

/// The number that `s` goes on with when `num` of it has been read, and
/// what follows it. White space before any of its characters is passed
/// over; a number ends before a second point and before anything that is
/// neither digit nor point.
pub open spec fn number_from(s: Seq<char>, num: Seq<char>) -> (Seq<char>, Seq<char>)
    decreases s.len(),
{
    match next_of(s) {
        Some((rest, c)) => if rest.len() < s.len() && (is_digit(c) || (c == '.' && !num.contains(
            '.',
        ))) {
            number_from(rest, num.push(c))
        } else {
            (s, num)
        },
        None => (s, num),
    }
}

/// The number that `s` begins with, as it is written but for white space,
/// and what follows it. There is a number only where there is a digit.
pub open spec fn leading_number(s: Seq<char>) -> Option<(Seq<char>, Seq<char>)> {
    let (rest, num) = number_from(s, Seq::empty());
    if has_digit(num) {
        Some((rest, num))
    } else {
        None
    }
}

/// What follows the next character of `s` is shorter than `s`.
pub proof fn lemma_next_shorter(s: Seq<char>)
    ensures
        next_of(s) is Some ==> next_of(s)->Some_0.0.len() < s.len(),
{
    lemma_skip_spaces(s);
}

/// The views of `mods`, in their order.
pub open spec fn mods_view(mods: Seq<RollMod>) -> Seq<(RollOp, Seq<char>)> {
    Seq::new(mods.len(), |i: int| mods[i]@)
}

/// What one suffix or modifier at the front of `s` says, and what follows
/// it: `a`, `d`, `k` with the number kept, one where none is written, or an
/// operation with its amount.
pub open spec fn suffix(s: Seq<char>) -> Option<(Seq<char>, RollSuff, Seq<(RollOp, Seq<char>)>)> {
    match next_of(s) {
        None => None,
        Some((rest, c)) => if c == 'a' {
            Some((rest, RollSuff::Advantage, Seq::empty()))
        } else if c == 'd' {
            Some((rest, RollSuff::Disadvantage, Seq::empty()))
        } else if c == 'k' {
            match leading_int(rest) {
                Some((rest, kept)) => Some((rest, RollSuff::Keep(kept), Seq::empty())),
                None => Some((rest, RollSuff::Keep(1), Seq::empty())),
            }
        } else {
            match RollOp::of(c) {
                Some(op) => match leading_number(rest) {
                    Some((rest, amount)) => Some((rest, RollSuff::Plain, seq![(op, amount)])),
                    None => None,
                },
                None => None,
            }
        },
    }
}

/// What the suffixes and modifiers at the front of `s` say, and what
/// follows them; nothing where `s` begins with none. Of several suffixes
/// the last counts. The modifiers are in the order they are written.
pub open spec fn suffixes(s: Seq<char>) -> Option<(Seq<char>, RollSuff, Seq<(RollOp, Seq<char>)>)>
    decreases s.len(),
{
    match suffix(s) {
        None => None,
        Some((rest, suff, mods)) => if rest.len() < s.len() {
            match suffixes(rest) {
                Some((rest, later, more)) => Some(
                    (
                        rest,
                        if later == RollSuff::Plain {
                            suff
                        } else {
                            later
                        },
                        mods + more,
                    ),
                ),
                None => Some((rest, suff, mods)),
            }
        } else {
            Some((rest, suff, mods))
        },
    }
}

/// The quantity that a roll written in `s` begins with, one where none is
/// written, and what follows the `d` after it.
pub open spec fn roll_head(s: Seq<char>) -> Option<(Seq<char>, u32)> {
    match leading_int(s) {
        Some((rest, quantity)) => match after('d', rest) {
            Some(rest) => Some((rest, quantity)),
            None => None,
        },
        None => match after('d', skip_spaces(s)) {
            Some(rest) => Some((rest, 1u32)),
            None => None,
        },
    }
}

/// The roll written at the front of `s`, and what follows it.
pub open spec fn one_roll(s: Seq<char>) -> Option<(RollSpec, Seq<char>)> {
    match roll_head(s) {
        None => None,
        Some((rest, quantity)) => match leading_int(rest) {
            None => None,
            Some((rest, size)) => match suffixes(rest) {
                Some((rest, suff, mods)) => Some((RollSpec { quantity, size, suff, mods }, rest)),
                None => Some(
                    (RollSpec { quantity, size, suff: RollSuff::Plain, mods: Seq::empty() }, rest),
                ),
            },
        },
    }
}

/// No more digits are counted than there are characters.
pub proof fn lemma_leading_digits_bound(s: Seq<char>)
    ensures
        leading_digits(s) <= s.len(),
    decreases s.len(),
{
    if s.len() > 0 && is_digit(s[0]) {
        lemma_leading_digits_bound(s.skip(1));
    }
}

/// What follows a whole number is shorter than what it was read from.
pub proof fn lemma_leading_int_shorter(s: Seq<char>)
    ensures
        leading_int(s) is Some ==> leading_int(s)->Some_0.0.len() < s.len(),
{
    lemma_skip_spaces(s);
    lemma_leading_digits_bound(skip_spaces(s));
}

/// The number that `text` begins with, as it is written but for white
/// space, and what follows it.
pub fn take_leading_number(text: &[char]) -> (taken: Option<(&[char], String)>)
    ensures
        match taken {
            Some((rest, num)) => leading_number(text@) == Some((rest@, num@)),
            None => leading_number(text@) is None,
        },
{
    let mut num = String::new();
    let mut pointed = false;
    let mut digits = false;
    let mut rest = text;
    let mut done = false;
    while !done
        invariant
            number_from(text@, Seq::empty()) == number_from(rest@, num@),
            pointed == num@.contains('.'),
            digits == has_digit(num@),
            done ==> number_from(rest@, num@) == (rest@, num@),
        decreases rest@.len() + (if done { 0int } else { 1int }),
    {
        proof {
            lemma_next_shorter(rest@);
        }
        match next_char(rest) {
            Some((after, c)) => {
                if digit_char(c) || (c == '.' && !pointed) {
                    proof {
                        let before = num@;
                        let now = before.push(c);
                        assert(now[before.len() as int] == c);
                        assert(now.contains('.') == (before.contains('.') || c == '.')) by {
                            if before.contains('.') {
                                let j = choose|j: int| 0 <= j < before.len() && before[j] == '.';
                                assert(now[j] == '.');
                            }
                            if now.contains('.') && c != '.' {
                                let j = choose|j: int| 0 <= j < now.len() && now[j] == '.';
                                assert(before[j] == '.');
                            }
                        }
                        assert(has_digit(now) == (has_digit(before) || is_digit(c))) by {
                            if has_digit(before) {
                                let j = choose|j: int|
                                    0 <= j < before.len() && is_digit(#[trigger] before[j]);
                                assert(is_digit(now[j]));
                            }
                            if has_digit(now) && !is_digit(c) {
                                let j = choose|j: int|
                                    0 <= j < now.len() && is_digit(#[trigger] now[j]);
                                assert(is_digit(before[j]));
                            }
                        }
                    }
                    if c == '.' {
                        pointed = true;
                    } else {
                        digits = true;
                    }
                    push_char(&mut num, c);
                    rest = after;
                } else {
                    done = true;
                }
            },
            None => {
                done = true;
            },
        }
    }
    if digits {
        Some((rest, num))
    } else {
        None
    }
}

/// What the suffixes and modifiers at the front of `text` say, and what
/// follows them.
pub fn parse_roll_suff_mods(text: &[char]) -> (parsed: Option<(&[char], RollSuff, Vec<RollMod>)>)
    ensures
        match parsed {
            Some((rest, suff, mods)) => suffixes(text@) == Some((rest@, suff, mods_view(mods@))),
            None => suffixes(text@) is None,
        },
    decreases text@.len(),
{
    let mut suff = RollSuff::Plain;
    let mut mods: Vec<RollMod> = Vec::new();
    proof {
        lemma_next_shorter(text@);
    }
    let (mut rest, c) = match next_char(text) {
        Some(next) => next,
        None => {
            return None;
        },
    };
    match c {
        'a' => {
            suff = RollSuff::Advantage;
        },
        'd' => {
            suff = RollSuff::Disadvantage;
        },
        'k' => {
            proof {
                lemma_leading_int_shorter(rest@);
            }
            match take_leading_int(rest) {
                Some((after, num)) => {
                    rest = after;
                    suff = RollSuff::Keep(num);
                },
                None => {
                    suff = RollSuff::Keep(1);
                },
            }
        },
        _ => {
            match RollOp::from(c) {
                Some(op) => {
                    proof {
                        lemma_number_shorter(rest@, Seq::empty());
                    }
                    match take_leading_number(rest) {
                        Some((after, amount)) => {
                            rest = after;
                            mods.push(RollMod { op, amount });
                        },
                        None => {
                            return None;
                        },
                    }
                },
                None => {
                    return None;
                },
            }
        },
    }
    assert(mods_view(mods@) =~= suffix(text@)->Some_0.2);
    assert(suffix(text@) == Some((rest@, suff, mods_view(mods@))));
    match parse_roll_suff_mods(rest) {
        Some((rest, later, mut more)) => {
            let ghost first = mods@;
            let ghost second = more@;
            mods.append(&mut more);
            assert(mods_view(mods@) =~= mods_view(first) + mods_view(second));
            let suff = match later {
                RollSuff::Plain => suff,
                _ => later,
            };
            Some((rest, suff, mods))
        },
        None => Some((rest, suff, mods)),
    }
}

/// What follows a number is no longer than what went before it.
pub proof fn lemma_number_shorter(s: Seq<char>, num: Seq<char>)
    ensures
        number_from(s, num).0.len() <= s.len(),
    decreases s.len(),
{
    match next_of(s) {
        Some((rest, c)) => {
            if rest.len() < s.len() && (is_digit(c) || (c == '.' && !num.contains('.'))) {
                lemma_number_shorter(rest, num.push(c));
            }
        },
        None => {},
    }
}

/// The roll written at the front of `text`, and what follows it.
pub fn parse_one_roll(text: &[char]) -> (parsed: Option<(Roll, &[char])>)
    ensures
        match parsed {
            Some((roll, rest)) => one_roll(text@) == Some((roll@, rest@)),
            None => one_roll(text@) is None,
        },
{
    let head = match take_leading_int(text) {
        Some((rest, quantity)) => {
            match expect('d', rest) {
                Some(rest) => Some((rest, quantity)),
                None => None,
            }
        },
        None => {
            match expect('d', trim_whitespace(text)) {
                Some(rest) => Some((rest, 1u32)),
                None => None,
            }
        },
    };
    let (rest, quantity) = match head {
        Some(head) => head,
        None => {
            return None;
        },
    };
    let (rest, size) = match take_leading_int(rest) {
        Some(taken) => taken,
        None => {
            return None;
        },
    };
    match parse_roll_suff_mods(rest) {
        Some((rest, suff, mods)) => {
            let roll = Roll { quantity, size, suff, mods };
            assert(roll@.mods =~= mods_view(mods@));
            Some((roll, rest))
        },
        None => {
            let roll = Roll { quantity, size, suff: RollSuff::Plain, mods: Vec::new() };
            assert(roll@.mods =~= Seq::empty());
            Some((roll, rest))
        },
    }
}

/// The roll that `text` begins with.
pub fn parse_roll(text: &str) -> (roll: Option<Roll>)
    ensures
        match roll {
            Some(roll) => one_roll(text@) is Some && one_roll(text@)->Some_0.0 == roll@,
            None => one_roll(text@) is None,
        },
{
    let chars = characters(text);
    match parse_one_roll(chars.as_slice()) {
        Some((roll, _)) => Some(roll),
        None => None,
    }
}

/// The characters of `text`.
pub fn characters(text: &str) -> (chars: Vec<char>)
    ensures
        chars@ == text@,
{
    let mut chars: Vec<char> = Vec::new();
    let n = text.unicode_len();
    let mut i: usize = 0;
    while i < n
        invariant
            i <= n,
            n == text@.len(),
            chars@ == text@.take(i as int),
        decreases n - i,
    {
        chars.push(text.get_char(i));
        assert(text@.take(i + 1) =~= text@.take(i as int).push(text@[i as int]));
        i += 1;
    }
    assert(text@.take(n as int) =~= text@);
    chars
}

} // verus!
