//! The spellbook: the spells that are known, in the order of their names.

use crate::roll::characters;
use crate::spells::spell::Spell;
use std::sync::Arc;
use vstd::prelude::*;

verus! {

/// Another pointer to the spell that `spell` points to: `Arc::clone`.
#[verifier::external_body]
fn share(spell: &Arc<Spell>) -> (shared: Arc<Spell>)
    ensures
        shared == *spell,
{
    Arc::clone(spell)
}

/// Whether `a` comes before `b` or is the same as `b`, where names are
/// ordered character by character by the numbers of their characters, and
/// a name comes after each name that it goes on from.
pub open spec fn name_le(a: Seq<char>, b: Seq<char>) -> bool
    decreases a.len(),
{
    if a.len() == 0 {
        true
    } else if b.len() == 0 {
        false
    } else if a[0] != b[0] {
        a[0] < b[0]
    } else {
        name_le(a.skip(1), b.skip(1))
    }
}

/// Whether `a` comes before `b` in the order of names, or is the same.
pub fn name_not_after(a: &str, b: &str) -> (yes: bool)
    ensures
        yes == name_le(a@, b@),
{
    let left = characters(a);
    let right = characters(b);
    let mut i: usize = 0;
    assert(left@.skip(0) =~= left@);
    assert(right@.skip(0) =~= right@);
    while i < left.len() && i < right.len()
        invariant
            i <= left@.len(),
            i <= right@.len(),
            left@ == a@,
            right@ == b@,
            name_le(a@, b@) == name_le(left@.skip(i as int), right@.skip(i as int)),
        decreases left@.len() - i,
    {
        assert(left@.skip(i as int)[0] == left@[i as int]);
        assert(right@.skip(i as int)[0] == right@[i as int]);
        if left[i] != right[i] {
            return left[i] < right[i];
        }
        assert(left@.skip(i as int).skip(1) =~= left@.skip(i + 1));
        assert(right@.skip(i as int).skip(1) =~= right@.skip(i + 1));
        i += 1;
    }
    i == left.len()
}

/// `sorted` with `spell` put after the last spell in it whose name does not
/// come after its own.
pub open spec fn inserted(sorted: Seq<Arc<Spell>>, spell: Arc<Spell>) -> Seq<Arc<Spell>>
    decreases sorted.len(),
{
    if sorted.len() == 0 {
        seq![spell]
    } else if name_le(sorted.last().name@, spell.name@) {
        sorted.push(spell)
    } else {
        inserted(sorted.drop_last(), spell).push(sorted.last())
    }
}

/// `spells` in the order of their names, spells of one name in the order
/// they were in.
pub open spec fn sorted_by_name(spells: Seq<Arc<Spell>>) -> Seq<Arc<Spell>>
    decreases spells.len(),
{
    if spells.len() == 0 {
        Seq::empty()
    } else {
        inserted(sorted_by_name(spells.drop_last()), spells.last())
    }
}

/// Whether the names of `spells` are in order.
pub open spec fn ordered(spells: Seq<Arc<Spell>>) -> bool {
    forall|i: int, j: int|
        0 <= i < j < spells.len() ==> name_le(
            (#[trigger] spells[i]).name@,
            (#[trigger] spells[j]).name@,
        )
}

/// Of two names one does not come after the other.
pub proof fn lemma_name_le_total(a: Seq<char>, b: Seq<char>)
    ensures
        name_le(a, b) || name_le(b, a),
    decreases a.len(),
{
    if a.len() > 0 && b.len() > 0 && a[0] == b[0] {
        lemma_name_le_total(a.skip(1), b.skip(1));
    }
}

/// Where `a` does not come after `b`, nor `b` after `c`, `a` does not come
/// after `c`.
pub proof fn lemma_name_le_transitive(a: Seq<char>, b: Seq<char>, c: Seq<char>)
    requires
        name_le(a, b),
        name_le(b, c),
    ensures
        name_le(a, c),
    decreases a.len(),
{
    if a.len() > 0 && b.len() > 0 && c.len() > 0 && a[0] == b[0] && b[0] == c[0] {
        lemma_name_le_transitive(a.skip(1), b.skip(1), c.skip(1));
    }
}

/// Putting a spell into spells adds that spell and nothing else, and keeps
/// them in order where they were.
pub proof fn lemma_inserted(sorted: Seq<Arc<Spell>>, spell: Arc<Spell>)
    ensures
        inserted(sorted, spell).to_multiset() == sorted.to_multiset().insert(spell),
        inserted(sorted, spell).len() == sorted.len() + 1,
        ordered(sorted) ==> ordered(inserted(sorted, spell)),
    decreases sorted.len(),
{
    broadcast use vstd::seq_lib::to_multiset_build;

    let put = inserted(sorted, spell);
    if sorted.len() == 0 {
        assert(put =~= sorted.push(spell));
    } else if name_le(sorted.last().name@, spell.name@) {
        if ordered(sorted) {
            assert forall|i: int, j: int| 0 <= i < j < put.len() implies name_le(
                (#[trigger] put[i]).name@,
                (#[trigger] put[j]).name@,
            ) by {
                if j == sorted.len() {
                    if i < sorted.len() - 1 {
                        assert(name_le(sorted[i].name@, sorted[sorted.len() - 1].name@));
                        lemma_name_le_transitive(
                            sorted[i].name@,
                            sorted.last().name@,
                            spell.name@,
                        );
                    }
                } else {
                    assert(name_le(sorted[i].name@, sorted[j].name@));
                }
            }
        }
    } else {
        let front = sorted.drop_last();
        let last = sorted.last();
        lemma_inserted(front, spell);
        assert(sorted =~= front.push(last));
        assert(sorted.to_multiset() =~= front.to_multiset().insert(last));
        assert(put.to_multiset() =~= sorted.to_multiset().insert(spell));
        if ordered(sorted) {
            assert(ordered(front)) by {
                assert forall|i: int, j: int| 0 <= i < j < front.len() implies name_le(
                    (#[trigger] front[i]).name@,
                    (#[trigger] front[j]).name@,
                ) by {
                    assert(name_le(sorted[i].name@, sorted[j].name@));
                }
            }
            let inner = inserted(front, spell);
            lemma_name_le_total(last.name@, spell.name@);
            assert forall|i: int, j: int| 0 <= i < j < put.len() implies name_le(
                (#[trigger] put[i]).name@,
                (#[trigger] put[j]).name@,
            ) by {
                if j == inner.len() {
                    // Each of the spells before the last is the new spell or
                    // one that stood before the last.
                    assert(inner.to_multiset().count(inner[i]) > 0) by {
                        inner.to_multiset_ensures();
                        assert(inner.contains(inner[i]));
                    }
                    if inner[i] != spell {
                        assert(front.to_multiset().count(inner[i]) > 0);
                        front.to_multiset_ensures();
                        assert(front.contains(inner[i]));
                        let k = choose|k: int| 0 <= k < front.len() && front[k] == inner[i];
                        assert(name_le(sorted[k].name@, sorted[sorted.len() - 1].name@));
                    }
                } else {
                    assert(name_le(inner[i].name@, inner[j].name@));
                }
            }
        }
    }
}

/// Spells in the order of their names are the same spells, and in order.
pub proof fn lemma_sorted_by_name(spells: Seq<Arc<Spell>>)
    ensures
        sorted_by_name(spells).to_multiset() == spells.to_multiset(),
        sorted_by_name(spells).len() == spells.len(),
        ordered(sorted_by_name(spells)),
    decreases spells.len(),
{
    broadcast use vstd::seq_lib::to_multiset_build;

    if spells.len() > 0 {
        let front = spells.drop_last();
        lemma_sorted_by_name(front);
        lemma_inserted(sorted_by_name(front), spells.last());
        assert(spells =~= front.push(spells.last()));
        assert(front.push(spells.last()).to_multiset() =~= front.to_multiset().insert(
            spells.last(),
        ));
    } else {
        assert(spells =~= Seq::empty());
    }
}

/// Whether one of the first `n` of `spells` is called `name`.
pub open spec fn named_in(spells: Seq<Arc<Spell>>, name: Seq<char>, n: int) -> bool
    decreases n,
{
    if n <= 0 {
        false
    } else {
        spells[n - 1].name@ == name || named_in(spells, name, n - 1)
    }
}

/// Those of the first `n` of `old` whose name none of `new` has, in their
/// order.
pub open spec fn kept(old: Seq<Arc<Spell>>, new: Seq<Arc<Spell>>, n: int) -> Seq<Arc<Spell>>
    decreases n,
{
    if n <= 0 {
        Seq::empty()
    } else if named_in(new, old[n - 1].name@, new.len() as int) {
        kept(old, new, n - 1)
    } else {
        kept(old, new, n - 1).push(old[n - 1])
    }
}

/// What the spellbook holds when `new` spells are merged into `old`: the
/// new spells, and those of the old whose name no new spell has, in the
/// order of their names.
pub open spec fn merged(old: Seq<Arc<Spell>>, new: Seq<Arc<Spell>>) -> Seq<Arc<Spell>> {
    sorted_by_name(new + kept(old, new, old.len() as int))
}

/// Whether one of the first `n` of `spells` is called `name`.
pub fn has_name_among(spells: &Vec<Arc<Spell>>, n: usize, name: &String) -> (yes: bool)
    requires
        n <= spells@.len(),
    ensures
        yes == named_in(spells@, name@, n as int),
{
    let mut i: usize = n;
    while i > 0
        invariant
            i <= n,
            n <= spells@.len(),
            named_in(spells@, name@, n as int) == named_in(spells@, name@, i as int),
        decreases i,
    {
        if spells[i - 1].name == *name {
            return true;
        }
        i -= 1;
    }
    false
}

/// Whether one of the first spells is called `name` depends on those spells
/// alone.
pub proof fn lemma_named_in_front(a: Seq<Arc<Spell>>, b: Seq<Arc<Spell>>, name: Seq<char>, n: int)
    requires
        0 <= n <= a.len(),
        n <= b.len(),
        forall|i: int| 0 <= i < n ==> a[i] == b[i],
    ensures
        named_in(a, name, n) == named_in(b, name, n),
    decreases n,
{
    if n > 0 {
        lemma_named_in_front(a, b, name, n - 1);
    }
}

/// Put `spell` into `sorted` after the last spell whose name does not come
/// after its own.
pub fn insert_by_name(sorted: &mut Vec<Arc<Spell>>, spell: Arc<Spell>)
    ensures
        final(sorted)@ == inserted(old(sorted)@, spell),
{
    let mut at: usize = sorted.len();
    let ghost whole = sorted@;
    proof {
        assert(whole.take(whole.len() as int) =~= whole);
        assert(inserted(whole, spell) + whole.skip(whole.len() as int) =~= inserted(whole, spell));
    }
    while at > 0 && !name_not_after(sorted[at - 1].name.as_str(), spell.name.as_str())
        invariant
            at <= sorted@.len(),
            sorted@ == whole,
            inserted(whole, spell) == inserted(whole.take(at as int), spell) + whole.skip(at as int),
        decreases at,
    {
        proof {
            let head = whole.take(at as int);
            assert(head.last() == whole[at - 1]);
            assert(head.drop_last() =~= whole.take(at - 1));
            assert(inserted(head, spell) == inserted(head.drop_last(), spell).push(head.last()));
            assert(inserted(head.drop_last(), spell).push(head.last()) + whole.skip(at as int)
                =~= inserted(whole.take(at - 1), spell) + whole.skip(at - 1));
        }
        at -= 1;
    }
    proof {
        let head = whole.take(at as int);
        if at > 0 {
            assert(head.last() == whole[at - 1]);
        }
        assert(inserted(head, spell) =~= head.push(spell));
        assert(head.push(spell) + whole.skip(at as int) =~= whole.insert(at as int, spell));
        assert(whole.take(whole.len() as int) =~= whole);
        assert(whole.skip(whole.len() as int) =~= Seq::empty());
    }
    sorted.insert(at, spell);
}

/// `spells` in the order of their names.
pub fn sort_by_name(spells: Vec<Arc<Spell>>) -> (sorted: Vec<Arc<Spell>>)
    ensures
        sorted@ == sorted_by_name(spells@),
{
    let mut sorted: Vec<Arc<Spell>> = Vec::new();
    let mut i: usize = 0;
    assert(spells@.take(0) =~= Seq::empty());
    while i < spells.len()
        invariant
            i <= spells@.len(),
            sorted@ == sorted_by_name(spells@.take(i as int)),
        decreases spells@.len() - i,
    {
        assert(spells@.take(i + 1).drop_last() =~= spells@.take(i as int));
        insert_by_name(&mut sorted, share(&spells[i]));
        i += 1;
    }
    assert(spells@.take(i as int) =~= spells@);
    sorted
}

/// Some spells of a spellbook, as they were when they were asked for.
pub struct SpellBookQuery(pub Vec<Arc<Spell>>);

impl SpellBookQuery {
    pub fn len(&self) -> (n: usize)
        ensures
            n == self.0@.len(),
    {
        self.0.len()
    }

    /// The spells, in the order of the book.
    pub fn iter(&self) -> (spells: &[Arc<Spell>])
        ensures
            spells@ == self.0@,
    {
        self.0.as_slice()
    }
}

/// The spells that are known, and what is being done to know more.
pub struct SpellBook {
    pub spells: Vec<Arc<Spell>>,
    pub status: String,
}

impl SpellBook {
    /// All the spells of the book.
    pub fn query_all(&self) -> (query: SpellBookQuery)
        ensures
            query.0@ == self.spells@,
    {
        let mut spells: Vec<Arc<Spell>> = Vec::new();
        let mut i: usize = 0;
        while i < self.spells.len()
            invariant
                i <= self.spells@.len(),
                spells@ == self.spells@.take(i as int),
            decreases self.spells@.len() - i,
        {
            spells.push(share(&self.spells[i]));
            assert(self.spells@.take(i + 1) =~= self.spells@.take(i as int).push(
                self.spells@[i as int],
            ));
            i += 1;
        }
        assert(self.spells@.take(i as int) =~= self.spells@);
        SpellBookQuery(spells)
    }

    pub fn len(&self) -> (n: usize)
        ensures
            n == self.spells@.len(),
    {
        self.spells.len()
    }

    pub fn status(&self) -> (status: String)
        ensures
            status == self.status,
    {
        self.status.clone()
    }

    pub fn set_status(&mut self, status: &str)
        ensures
            final(self).status@ == status@,
            final(self).spells == old(self).spells,
    {
        self.status = status.to_owned();
    }

    /// Merge `spells` into the book: afterwards it holds them, and those it
    /// held whose name none of them has, in the order of their names.
    pub fn merge(&mut self, spells: Vec<Arc<Spell>>)
        ensures
            final(self).spells@ == merged(old(self).spells@, spells@),
            final(self).status == old(self).status,
    {
        let ghost new = spells@;
        let fresh = spells.len();
        let mut all = spells;
        let mut i: usize = 0;
        while i < self.spells.len()
            invariant
                i <= self.spells@.len(),
                *self == *old(self),
                fresh == new.len(),
                all@ == new + kept(self.spells@, new, i as int),
            decreases self.spells@.len() - i,
        {
            proof {
                lemma_named_in_front(all@, new, self.spells@[i as int].name@, fresh as int);
            }
            if !has_name_among(&all, fresh, &self.spells[i].name) {
                all.push(share(&self.spells[i]));
                assert(all@ =~= new + kept(self.spells@, new, i + 1));
            }
            i += 1;
        }
        self.spells = sort_by_name(all);
    }
}

impl Default for SpellBook {
    /// A book without spells, that is being loaded.
    fn default() -> (book: SpellBook)
        ensures
            book.spells@.len() == 0,
            book.status@ == "Loading..."@,
    {
        SpellBook { spells: Vec::new(), status: "Loading...".to_owned() }
    }
}

} // verus!
