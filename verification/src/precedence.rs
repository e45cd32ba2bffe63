//! The precedence of sizing constraints: which of two constrains more.
//!
//! The kinds are ranked `Max > Length > Min > Percentage > Ratio > Fill`, and
//! within one kind the larger size constrains more. The ranking is a
//! convention of this crate's layouts; nothing derives it.

use crate::geometry::{ratio_less, Constraint};
use std::cmp::Ordering;
use vstd::prelude::*;

verus! {

/// Order two sizes of one kind.
fn compare_sizes(a: u16, b: u16) -> (o: Ordering)
    ensures
        a < b <==> o is Less,
        a > b <==> o is Greater,
{
    if a < b {
        Ordering::Less
    } else if a > b {
        Ordering::Greater
    } else {
        Ordering::Equal
    }
}

/// Order two shares.
fn compare_ratios(n1: u32, d1: u32, n2: u32, d2: u32) -> (o: Ordering)
    ensures
        Constraint::Ratio(n1, d1).weaker(Constraint::Ratio(n2, d2)) <==> o is Less,
        Constraint::Ratio(n2, d2).weaker(Constraint::Ratio(n1, d1)) <==> o is Greater,
{
    if ratio_less(n1, d1, n2, d2) {
        Ordering::Less
    } else if ratio_less(n2, d2, n1, d1) {
        Ordering::Greater
    } else {
        Ordering::Equal
    }
}

/// Compare two constraints, ordering such that more constraining
/// constraints are greater. This is used to prioritise constraints when
/// laying out columns.
pub fn compare_constraints(a: &Constraint, b: &Constraint) -> (o: Ordering)
    ensures
        a.weaker(*b) <==> o is Less,
        b.weaker(*a) <==> o is Greater,
{
    match (a, b) {
        (Constraint::Min(a), Constraint::Min(b)) => compare_sizes(*a, *b),
        (Constraint::Max(a), Constraint::Max(b)) => compare_sizes(*a, *b),
        (Constraint::Length(a), Constraint::Length(b)) => compare_sizes(*a, *b),
        (Constraint::Percentage(a), Constraint::Percentage(b)) => compare_sizes(*a, *b),
        (Constraint::Ratio(a1, a2), Constraint::Ratio(b1, b2)) => compare_ratios(
            *a1,
            *a2,
            *b1,
            *b2,
        ),
        (Constraint::Fill(a), Constraint::Fill(b)) => compare_sizes(*a, *b),
        (Constraint::Max(_), _) => Ordering::Greater,
        (_, Constraint::Max(_)) => Ordering::Less,
        (Constraint::Length(_), _) => Ordering::Greater,
        (_, Constraint::Length(_)) => Ordering::Less,
        (Constraint::Min(_), _) => Ordering::Greater,
        (_, Constraint::Min(_)) => Ordering::Less,
        (Constraint::Percentage(_), _) => Ordering::Greater,
        (_, Constraint::Percentage(_)) => Ordering::Less,
        (Constraint::Ratio(_, _), _) => Ordering::Greater,
        (_, Constraint::Ratio(_, _)) => Ordering::Less,
    }
}

/// The most constraining of `widths`, the last such where several constrain
/// alike; `Fill(0)` where there is none to choose from.
pub open spec fn dominant(widths: Seq<Constraint>) -> Constraint
    decreases widths.len(),
{
    if widths.len() == 0 {
        Constraint::Fill(0)
    } else if widths.len() == 1 {
        widths[0]
    } else {
        let before = dominant(widths.drop_last());
        if widths.last().weaker(before) {
            before
        } else {
            widths.last()
        }
    }
}

/// The most constraining of `widths`, by [`compare_constraints`].
pub fn most_constraining(widths: &Vec<Constraint>) -> (c: Constraint)
    ensures
        c == dominant(widths@),
{
    if widths.len() == 0 {
        return Constraint::Fill(0);
    }
    let mut best = widths[0];
    let mut i: usize = 1;
    let ghost mut seen: int = 1;
    assert(widths@.subrange(0, 1) =~= seq![widths@[0]]);
    while i < widths.len()
        invariant
            1 <= i <= widths@.len(),
            seen == i,
            best == dominant(widths@.subrange(0, seen)),
        decreases widths@.len() - i,
    {
        assert(widths@.subrange(0, seen + 1).drop_last() =~= widths@.subrange(0, seen));
        match compare_constraints(&best, &widths[i]) {
            Ordering::Greater => {},
            _ => {
                best = widths[i];
            },
        }
        i += 1;
        proof {
            seen = seen + 1;
        }
    }
    assert(widths@.subrange(0, seen) =~= widths@);
    best
}

/// No constraint is less constraining than itself, and of two constraints at
/// most one is less constraining than the other.
pub proof fn lemma_weaker_asymmetric(a: Constraint, b: Constraint)
    ensures
        !a.weaker(a),
        a.weaker(b) ==> !b.weaker(a),
{
}

/// Where `a` constrains at least as much as `b`, and `b` at least as much as
/// `c`, `a` constrains at least as much as `c`.
pub proof fn lemma_not_weaker_transitive(a: Constraint, b: Constraint, c: Constraint)
    requires
        !a.weaker(b),
        !b.weaker(c),
    ensures
        !a.weaker(c),
{
    if a.rank() == b.rank() && b.rank() == c.rank() {
        match (a, b, c) {
            (Constraint::Ratio(n1, d1), Constraint::Ratio(n2, d2), Constraint::Ratio(n3, d3)) => {
                lemma_shares_transitive(n1, d1, n2, d2, n3, d3);
            },
            _ => {},
        }
    }
}

/// Shares are ordered as the fractions they stand for.
proof fn lemma_shares_transitive(n1: u32, d1: u32, n2: u32, d2: u32, n3: u32, d3: u32)
    requires
        !crate::geometry::ratio_below(n1, d1, n2, d2),
        !crate::geometry::ratio_below(n2, d2, n3, d3),
    ensures
        !crate::geometry::ratio_below(n1, d1, n3, d3),
{
    let e1 = crate::geometry::ratio_base(n1, d1);
    let e2 = crate::geometry::ratio_base(n2, d2);
    let e3 = crate::geometry::ratio_base(n3, d3);
    let (a, b, c) = (n1 as int, n2 as int, n3 as int);
    assert(a * e3 >= c * e1) by (nonlinear_arith)
        requires
            a * e2 >= b * e1,
            b * e3 >= c * e2,
            a >= 0,
            b >= 0,
            c >= 0,
            e1 >= 0,
            e2 >= 0,
            e3 >= 0,
            e1 == 0 ==> a > 0,
            e2 == 0 ==> b > 0,
            e3 == 0 ==> c > 0,
    {
        if e2 == 0 {
            assert(b * e1 <= 0);
            assert(e1 == 0);
        } else {
            assert((a * e3) * e2 == (a * e2) * e3);
            assert((a * e2) * e3 >= (b * e1) * e3);
            assert((b * e1) * e3 == (b * e3) * e1);
            assert((b * e3) * e1 >= (c * e2) * e1);
            assert((c * e2) * e1 == (c * e1) * e2);
            assert((a * e3) * e2 >= (c * e1) * e2);
        }
    }
}

/// The constraint that [`dominant`] picks is one of those it was given, and
/// none of them constrains more.
pub proof fn lemma_dominant_is_greatest(widths: Seq<Constraint>)
    requires
        widths.len() > 0,
    ensures
        widths.contains(dominant(widths)),
        forall|i: int| 0 <= i < widths.len() ==> !dominant(widths).weaker(#[trigger] widths[i]),
    decreases widths.len(),
{
    if widths.len() == 1 {
        lemma_weaker_asymmetric(widths[0], widths[0]);
    } else {
        let before = widths.drop_last();
        lemma_dominant_is_greatest(before);
        let best = dominant(before);
        let i = choose|i: int| 0 <= i < before.len() && before[i] == best;
        assert(widths[i] == best);
        lemma_weaker_asymmetric(widths.last(), best);
        lemma_weaker_asymmetric(widths.last(), widths.last());
        assert forall|j: int| 0 <= j < widths.len() implies !dominant(widths).weaker(
            #[trigger] widths[j],
        ) by {
            if j < before.len() {
                assert(before[j] == widths[j]);
                if !widths.last().weaker(best) {
                    lemma_not_weaker_transitive(widths.last(), best, widths[j]);
                }
            }
        }
    }
}

} // verus!
