//! The dependency collector: walks an object description and accumulates the
//! header dependencies its value types need, deduplicated at insertion and
//! sorted before emission so that the generated text is reproducible.

use vstd::prelude::*;

use crate::qobject::{ArgModel, QObjectConfig, QObjectMethod, QObjectProp, QObjectSignal};
use crate::strutil::{lex_le, lemma_lex_le_antisym, lemma_lex_le_total, lemma_lex_le_trans,
    str_le};
use crate::typeref::{Include, IncludeModel, TypeModel};

verus! {

/// Total order on dependencies: system headers before relative ones, each
/// group ordered lexicographically.
pub open spec fn include_le(a: IncludeModel, b: IncludeModel) -> bool {
    match (a, b) {
        (IncludeModel::System(x), IncludeModel::System(y)) => lex_le(x, y),
        (IncludeModel::System(x), IncludeModel::Relative(y)) => true,
        (IncludeModel::Relative(x), IncludeModel::System(y)) => false,
        (IncludeModel::Relative(x), IncludeModel::Relative(y)) => lex_le(x, y),
    }
}

pub proof fn lemma_include_le_total(a: IncludeModel, b: IncludeModel)
    ensures
        include_le(a, b) || include_le(b, a),
{
    match (a, b) {
        (IncludeModel::System(x), IncludeModel::System(y)) => lemma_lex_le_total(x, y),
        (IncludeModel::Relative(x), IncludeModel::Relative(y)) => lemma_lex_le_total(x, y),
        _ => {},
    }
}

pub proof fn lemma_include_le_antisym(a: IncludeModel, b: IncludeModel)
    requires
        include_le(a, b),
        include_le(b, a),
    ensures
        a == b,
{
    match (a, b) {
        (IncludeModel::System(x), IncludeModel::System(y)) => lemma_lex_le_antisym(x, y),
        (IncludeModel::Relative(x), IncludeModel::Relative(y)) => lemma_lex_le_antisym(x, y),
        _ => {},
    }
}

pub proof fn lemma_include_le_trans(a: IncludeModel, b: IncludeModel, c: IncludeModel)
    requires
        include_le(a, b),
        include_le(b, c),
    ensures
        include_le(a, c),
{
    match (a, c) {
        (IncludeModel::System(x), IncludeModel::System(z)) => {
            if let IncludeModel::System(y) = b {
                lemma_lex_le_trans(x, y, z);
            }
        },
        (IncludeModel::Relative(x), IncludeModel::Relative(z)) => {
            if let IncludeModel::Relative(y) = b {
                lemma_lex_le_trans(x, y, z);
            }
        },
        _ => {},
    }
}

/// Whether two dependencies denote the same header.
fn eq_include(a: &Include, b: &Include) -> (r: bool)
    ensures
        r == (a@ == b@),
{
    match (a, b) {
        (Include::System(x), Include::System(y)) => x.eq(y),
        (Include::Relative(x), Include::Relative(y)) => x.eq(y),
        _ => false,
    }
}

/// Decides the emission order of two dependencies.
fn le_include(a: &Include, b: &Include) -> (r: bool)
    ensures
        r == include_le(a@, b@),
{
    match (a, b) {
        (Include::System(x), Include::System(y)) => str_le(x.as_str(), y.as_str()),
        (Include::System(x), Include::Relative(y)) => true,
        (Include::Relative(x), Include::System(y)) => false,
        (Include::Relative(x), Include::Relative(y)) => str_le(x.as_str(), y.as_str()),
    }
}

/// Adds one dependency to an accumulation, merging duplicates.
pub open spec fn insert_dep(s: Seq<IncludeModel>, d: IncludeModel) -> Seq<IncludeModel> {
    if s.contains(d) {
        s
    } else {
        s.push(d)
    }
}

/// Adds a run of dependencies in order.
pub open spec fn insert_deps(s: Seq<IncludeModel>, deps: Seq<IncludeModel>) -> Seq<IncludeModel>
    decreases deps.len(),
{
    if deps.len() == 0 {
        s
    } else {
        insert_deps(insert_dep(s, deps[0]), deps.drop_first())
    }
}

pub proof fn lemma_insert_deps_append(s: Seq<IncludeModel>, a: Seq<IncludeModel>, b: Seq<
    IncludeModel,
>)
    ensures
        insert_deps(s, a + b) == insert_deps(insert_deps(s, a), b),
    decreases a.len(),
{
    if a.len() == 0 {
        assert(a + b =~= b);
    } else {
        assert((a + b)[0] == a[0]);
        assert((a + b).drop_first() =~= a.drop_first() + b);
        lemma_insert_deps_append(insert_dep(s, a[0]), a.drop_first(), b);
    }
}

/// No element occurs twice.
pub open spec fn seq_nodup(s: Seq<IncludeModel>) -> bool {
    forall|i: int, j: int| 0 <= i < j < s.len() ==> s[i] != s[j]
}

pub proof fn lemma_insert_dep_nodup(s: Seq<IncludeModel>, d: IncludeModel)
    requires
        seq_nodup(s),
    ensures
        seq_nodup(insert_dep(s, d)),
        forall|x: IncludeModel| #![trigger insert_dep(s, d).contains(x)]
            insert_dep(s, d).contains(x) <==> s.contains(x) || x == d,
{
    if !s.contains(d) {
        let r = s.push(d);
        assert forall|i: int, j: int| 0 <= i < j < r.len() implies r[i] != r[j] by {
            if j == s.len() {
                assert(r[i] == s[i]);
                assert(s.contains(s[i]));
            }
        }
        assert forall|x: IncludeModel| r.contains(x) implies s.contains(x) || x == d by {
            let k = choose|k: int| 0 <= k < r.len() && r[k] == x;
            if k < s.len() {
                assert(s[k] == x);
            }
        }
        assert forall|x: IncludeModel| s.contains(x) || x == d implies r.contains(x) by {
            if s.contains(x) {
                let k = choose|k: int| 0 <= k < s.len() && s[k] == x;
                assert(r[k] == x);
            } else {
                assert(r[s.len() as int] == d);
            }
        }
    }
}

pub proof fn lemma_insert_deps_nodup(s: Seq<IncludeModel>, deps: Seq<IncludeModel>)
    requires
        seq_nodup(s),
    ensures
        seq_nodup(insert_deps(s, deps)),
        forall|x: IncludeModel| #![trigger insert_deps(s, deps).contains(x)]
            insert_deps(s, deps).contains(x) <==> s.contains(x) || deps.contains(x),
    decreases deps.len(),
{
    if deps.len() == 0 {
    } else {
        lemma_insert_dep_nodup(s, deps[0]);
        lemma_insert_deps_nodup(insert_dep(s, deps[0]), deps.drop_first());
        assert(insert_deps(s, deps) == insert_deps(insert_dep(s, deps[0]), deps.drop_first()));
        assert forall|x: IncludeModel|
            s.contains(x) || deps.contains(x) implies insert_deps(s, deps).contains(x) by {
            if s.contains(x) {
                assert(insert_dep(s, deps[0]).contains(x));
            } else {
                let k = choose|k: int| 0 <= k < deps.len() && deps[k] == x;
                if k == 0 {
                    assert(insert_dep(s, deps[0]).contains(x));
                } else {
                    assert(deps.drop_first()[k - 1] == x);
                    assert(deps.drop_first().contains(x));
                }
            }
        }
        assert forall|x: IncludeModel|
            insert_deps(s, deps).contains(x) implies s.contains(x) || deps.contains(x) by {
            if deps.drop_first().contains(x) {
                let k = choose|k: int| 0 <= k < deps.drop_first().len() && deps.drop_first()[k]
                    == x;
                assert(deps[k + 1] == x);
            }
        }
    }
}

/// The accumulated dependencies, in first-seen order, without duplicates.
pub struct IncludeSet {
    items: Vec<Include>,
}

impl View for IncludeSet {
    type V = Seq<IncludeModel>;

    closed spec fn view(&self) -> Seq<IncludeModel> {
        self.items.deep_view()
    }
}

impl IncludeSet {
    pub fn new() -> (r: Self)
        ensures
            r@ == Seq::<IncludeModel>::empty(),
    {
        let r = Self { items: Vec::new() };
        proof {
            assert(r@ =~= Seq::<IncludeModel>::empty());
        }
        r
    }

    fn contains_include(&self, inc: &Include) -> (r: bool)
        ensures
            r == self@.contains(inc@),
    {
        let mut i: usize = 0;
        while i < self.items.len()
            invariant
                i <= self.items.len(),
                forall|j: int| 0 <= j < i ==> self@[j] != inc@,
            decreases self.items.len() - i,
        {
            if eq_include(&self.items[i], inc) {
                proof {
                    assert(self@[i as int] == inc@);
                }
                return true;
            }
            i = i + 1;
        }
        false
    }

    /// Adds a dependency; a header already present is not added again.
    pub fn insert(&mut self, inc: Include)
        ensures
            final(self)@ == insert_dep(old(self)@, inc@),
    {
        if !self.contains_include(&inc) {
            let ghost pre = self@;
            self.items.push(inc);
            proof {
                assert(self@ =~= pre.push(inc@));
            }
        }
    }

    /// The dependencies in emission order: sorted, still without duplicates.
    pub fn sorted_items(&self) -> (r: Vec<Include>)
        ensures
            r.deep_view() == sort_deps(self@),
    {
        let mut result: Vec<Include> = Vec::new();
        let mut i: usize = 0;
        while i < self.items.len()
            invariant
                i <= self.items.len(),
                result.deep_view() =~= sort_deps(self@.take(i as int)),
            decreases self.items.len() - i,
        {
            let item = self.items[i].dup();
            let ghost pre = result.deep_view();
            // find the first position whose element does not precede `item`
            let mut j: usize = 0;
            while j < result.len() && !le_include(&item, &result[j])
                invariant
                    j <= result.len(),
                    result.deep_view() == pre,
                    forall|k: int| 0 <= k < j ==> !include_le(item@, pre[k]),
                decreases result.len() - j,
            {
                j = j + 1;
            }
            proof {
                lemma_insert_sorted_at(item@, pre, j as int);
            }
            result.insert(j, item);
            proof {
                assert(result.deep_view() =~= pre.take(j as int) + seq![item@] + pre.skip(
                    j as int,
                ));
                assert(self@.take(i + 1).drop_last() =~= self@.take(i as int));
                assert(self@.take(i + 1).last() == self@[i as int]);
                assert(result.deep_view() =~= sort_deps(self@.take(i + 1)));
            }
            i = i + 1;
        }
        proof {
            assert(self@.take(self.items.len() as int) =~= self@);
        }
        result
    }
}

/// Insertion into a sorted run.
pub open spec fn insert_sorted(d: IncludeModel, s: Seq<IncludeModel>) -> Seq<IncludeModel>
    decreases s.len(),
{
    if s.len() == 0 {
        seq![d]
    } else if include_le(d, s[0]) {
        seq![d] + s
    } else {
        seq![s[0]] + insert_sorted(d, s.drop_first())
    }
}

/// Insertion sort of an accumulation.
pub open spec fn sort_deps(s: Seq<IncludeModel>) -> Seq<IncludeModel>
    decreases s.len(),
{
    if s.len() == 0 {
        Seq::empty()
    } else {
        insert_sorted(s.last(), sort_deps(s.drop_last()))
    }
}

/// Inserting at the first position whose element does not precede `d`
/// realizes `insert_sorted`.
proof fn lemma_insert_sorted_at(d: IncludeModel, s: Seq<IncludeModel>, j: int)
    requires
        0 <= j <= s.len(),
        forall|k: int| 0 <= k < j ==> !include_le(d, s[k]),
        j < s.len() ==> include_le(d, s[j]),
    ensures
        insert_sorted(d, s) == s.take(j) + seq![d] + s.skip(j),
    decreases s.len(),
{
    if s.len() == 0 {
        assert(insert_sorted(d, s) =~= s.take(j) + seq![d] + s.skip(j));
    } else if j == 0 {
        assert(include_le(d, s[0]));
        assert(s.take(0) =~= Seq::<IncludeModel>::empty());
        assert(s.skip(0) =~= s);
        assert(insert_sorted(d, s) =~= s.take(0) + seq![d] + s.skip(0));
    } else {
        assert(!include_le(d, s[0]));
        lemma_insert_sorted_at(d, s.drop_first(), j - 1);
        assert(s.drop_first().take(j - 1) =~= s.take(j).drop_first());
        assert(s.drop_first().skip(j - 1) =~= s.skip(j));
        assert(insert_sorted(d, s) == seq![s[0]] + insert_sorted(d, s.drop_first()));
        assert(seq![s[0]] + (s.drop_first().take(j - 1) + seq![d] + s.drop_first().skip(j - 1))
            =~= s.take(j) + seq![d] + s.skip(j));
    }
}

/// Sorted in the emission order.
pub open spec fn sorted_deps(s: Seq<IncludeModel>) -> bool {
    forall|i: int, j: int| 0 <= i < j < s.len() ==> include_le(s[i], s[j])
}

/// What an insertion contains, and how long it is.
pub proof fn lemma_insert_sorted_contains(d: IncludeModel, s: Seq<IncludeModel>)
    ensures
        forall|x: IncludeModel| #![trigger insert_sorted(d, s).contains(x)]
            insert_sorted(d, s).contains(x) <==> s.contains(x) || x == d,
        insert_sorted(d, s).len() == s.len() + 1,
    decreases s.len(),
{
    let r = insert_sorted(d, s);
    if s.len() == 0 {
        assert(r[0] == d);
        assert forall|x: IncludeModel| r.contains(x) implies s.contains(x) || x == d by {
            let k = choose|k: int| 0 <= k < r.len() && r[k] == x;
        }
    } else if include_le(d, s[0]) {
        assert forall|x: IncludeModel| r.contains(x) implies s.contains(x) || x == d by {
            let k = choose|k: int| 0 <= k < r.len() && r[k] == x;
            if k > 0 {
                assert(s[k - 1] == x);
            }
        }
        assert forall|x: IncludeModel| s.contains(x) || x == d implies r.contains(x) by {
            if s.contains(x) {
                let k = choose|k: int| 0 <= k < s.len() && s[k] == x;
                assert(r[k + 1] == x);
            } else {
                assert(r[0] == d);
            }
        }
    } else {
        lemma_insert_sorted_contains(d, s.drop_first());
        let tail = insert_sorted(d, s.drop_first());
        assert forall|x: IncludeModel| r.contains(x) implies s.contains(x) || x == d by {
            let k = choose|k: int| 0 <= k < r.len() && r[k] == x;
            if k == 0 {
                assert(s[0] == x);
            } else {
                assert(tail[k - 1] == x);
                assert(tail.contains(x));
                if x != d {
                    assert(s.drop_first().contains(x));
                    let m = choose|m: int|
                        0 <= m < s.drop_first().len() && s.drop_first()[m] == x;
                    assert(s[m + 1] == x);
                }
            }
        }
        assert forall|x: IncludeModel| s.contains(x) || x == d implies r.contains(x) by {
            if s.contains(x) {
                let k = choose|k: int| 0 <= k < s.len() && s[k] == x;
                if k == 0 {
                    assert(r[0] == x);
                } else {
                    assert(s.drop_first()[k - 1] == x);
                    assert(s.drop_first().contains(x));
                    assert(tail.contains(x));
                    let m = choose|m: int| 0 <= m < tail.len() && tail[m] == x;
                    assert(r[m + 1] == x);
                }
            } else {
                assert(x == d);
                assert(insert_sorted(d, s.drop_first()).contains(d));
                let m = choose|m: int| 0 <= m < tail.len() && tail[m] == d;
                assert(r[m + 1] == d);
            }
        }
    }
}

/// Inserting into a sorted run keeps it sorted.
pub proof fn lemma_insert_sorted_sorted(d: IncludeModel, s: Seq<IncludeModel>)
    requires
        sorted_deps(s),
    ensures
        sorted_deps(insert_sorted(d, s)),
    decreases s.len(),
{
    let r = insert_sorted(d, s);
    if s.len() == 0 {
    } else if include_le(d, s[0]) {
        assert forall|i: int, j: int| 0 <= i < j < r.len() implies include_le(r[i], r[j]) by {
            if i == 0 {
                if j == 1 {
                    assert(r[j] == s[0]);
                } else {
                    assert(r[j] == s[j - 1]);
                    assert(include_le(s[0], s[j - 1]));
                    lemma_include_le_trans(d, s[0], s[j - 1]);
                }
            } else {
                assert(r[i] == s[i - 1]);
                assert(r[j] == s[j - 1]);
            }
        }
    } else {
        assert(sorted_deps(s.drop_first())) by {
            assert forall|i: int, j: int|
                0 <= i < j < s.drop_first().len() implies include_le(
                s.drop_first()[i],
                s.drop_first()[j],
            ) by {
                assert(s.drop_first()[i] == s[i + 1]);
                assert(s.drop_first()[j] == s[j + 1]);
            }
        }
        lemma_insert_sorted_sorted(d, s.drop_first());
        lemma_insert_sorted_contains(d, s.drop_first());
        let tail = insert_sorted(d, s.drop_first());
        lemma_include_le_total(d, s[0]);
        assert forall|i: int, j: int| 0 <= i < j < r.len() implies include_le(r[i], r[j]) by {
            if i == 0 {
                assert(r[0] == s[0]);
                assert(r[j] == tail[j - 1]);
                assert(tail.contains(tail[j - 1]));
                if tail[j - 1] == d {
                    assert(include_le(s[0], d));
                } else {
                    assert(s.drop_first().contains(tail[j - 1]));
                    let k = choose|k: int|
                        0 <= k < s.drop_first().len() && s.drop_first()[k] == tail[j - 1];
                    assert(s[k + 1] == tail[j - 1]);
                    assert(include_le(s[0], s[k + 1]));
                }
            } else {
                assert(r[i] == tail[i - 1]);
                assert(r[j] == tail[j - 1]);
            }
        }
    }
}

/// Sorting keeps the set of dependencies and their number, and emits them in
/// order.
pub proof fn lemma_sort_deps_props(s: Seq<IncludeModel>)
    ensures
        sorted_deps(sort_deps(s)),
        forall|x: IncludeModel| #![trigger sort_deps(s).contains(x)]
            sort_deps(s).contains(x) <==> s.contains(x),
        sort_deps(s).len() == s.len(),
    decreases s.len(),
{
    if s.len() == 0 {
    } else {
        lemma_sort_deps_props(s.drop_last());
        lemma_insert_sorted_sorted(s.last(), sort_deps(s.drop_last()));
        lemma_insert_sorted_contains(s.last(), sort_deps(s.drop_last()));
        assert forall|x: IncludeModel| sort_deps(s).contains(x) implies s.contains(x) by {
            if sort_deps(s.drop_last()).contains(x) {
                assert(s.drop_last().contains(x));
                let k = choose|k: int| 0 <= k < s.drop_last().len() && s.drop_last()[k] == x;
                assert(s[k] == x);
            } else {
                assert(x == s.last());
                assert(s[s.len() - 1] == x);
            }
        }
        assert(sort_deps(s) == insert_sorted(s.last(), sort_deps(s.drop_last())));
        assert forall|x: IncludeModel| s.contains(x) implies sort_deps(s).contains(x) by {
            let k = choose|k: int| 0 <= k < s.len() && s[k] == x;
            if k < s.len() - 1 {
                assert(s.drop_last()[k] == x);
                assert(s.drop_last().contains(x));
                assert(sort_deps(s.drop_last()).contains(x));
                assert(insert_sorted(s.last(), sort_deps(s.drop_last())).contains(x));
            } else {
                assert(x == s.last());
                assert(insert_sorted(s.last(), sort_deps(s.drop_last())).contains(x));
            }
        }
    }
}

/// Sorting a duplicate-free accumulation leaves it duplicate-free.
pub proof fn lemma_sort_deps_nodup(s: Seq<IncludeModel>)
    requires
        seq_nodup(s),
    ensures
        seq_nodup(sort_deps(s)),
    decreases s.len(),
{
    if s.len() > 0 {
        assert(seq_nodup(s.drop_last()));
        lemma_sort_deps_nodup(s.drop_last());
        lemma_sort_deps_props(s.drop_last());
        lemma_insert_sorted_contains(s.last(), sort_deps(s.drop_last()));
        let sorted = sort_deps(s.drop_last());
        let d = s.last();
        assert(!sorted.contains(d)) by {
            if sorted.contains(d) {
                assert(s.drop_last().contains(d));
                let k = choose|k: int| 0 <= k < s.drop_last().len() && s.drop_last()[k] == d;
                assert(s[k] == s[s.len() - 1]);
            }
        }
        lemma_insert_sorted_nodup(d, sorted);
    }
}

proof fn lemma_insert_sorted_nodup(d: IncludeModel, s: Seq<IncludeModel>)
    requires
        seq_nodup(s),
        !s.contains(d),
    ensures
        seq_nodup(insert_sorted(d, s)),
    decreases s.len(),
{
    let r = insert_sorted(d, s);
    if s.len() == 0 {
    } else if include_le(d, s[0]) {
        assert forall|i: int, j: int| 0 <= i < j < r.len() implies r[i] != r[j] by {
            if i == 0 {
                assert(r[j] == s[j - 1]);
                assert(s.contains(s[j - 1]));
            } else {
                assert(r[i] == s[i - 1]);
                assert(r[j] == s[j - 1]);
            }
        }
    } else {
        assert(seq_nodup(s.drop_first())) by {
            assert forall|i: int, j: int|
                0 <= i < j < s.drop_first().len() implies s.drop_first()[i] != s.drop_first()[j]
                by {
                assert(s.drop_first()[i] == s[i + 1]);
                assert(s.drop_first()[j] == s[j + 1]);
            }
        }
        assert(!s.drop_first().contains(d)) by {
            if s.drop_first().contains(d) {
                let k = choose|k: int| 0 <= k < s.drop_first().len() && s.drop_first()[k] == d;
                assert(s[k + 1] == d);
            }
        }
        lemma_insert_sorted_nodup(d, s.drop_first());
        let tail = insert_sorted(d, s.drop_first());
        lemma_insert_sorted_contains(d, s.drop_first());
        assert forall|i: int, j: int| 0 <= i < j < r.len() implies r[i] != r[j] by {
            if i == 0 {
                assert(r[j] == tail[j - 1]);
                assert(tail.contains(tail[j - 1]));
                if tail[j - 1] == d {
                } else {
                    assert(s.drop_first().contains(tail[j - 1]));
                    let k = choose|k: int|
                        0 <= k < s.drop_first().len() && s.drop_first()[k] == tail[j - 1];
                    assert(s[k + 1] == tail[j - 1]);
                }
            } else {
                assert(r[i] == tail[i - 1]);
                assert(r[j] == tail[j - 1]);
            }
        }
    }
}

/// Two sorted, duplicate-free runs over the same set are the same run:
/// the emitted dependency list is determined by the collected set alone.
pub proof fn lemma_sorted_nodup_unique(s: Seq<IncludeModel>, t: Seq<IncludeModel>)
    requires
        sorted_deps(s),
        sorted_deps(t),
        seq_nodup(s),
        seq_nodup(t),
        forall|x: IncludeModel| s.contains(x) <==> t.contains(x),
    ensures
        s == t,
    decreases s.len(),
{
    if s.len() == 0 {
        if t.len() > 0 {
            assert(t.contains(t[0]));
        }
        assert(s =~= t);
    } else {
        assert(s.contains(s[0]));
        assert(t.contains(s[0]));
        assert(t.len() > 0);
        assert(t.contains(t[0]));
        assert(s.contains(t[0]));
        let a = choose|a: int| 0 <= a < t.len() && t[a] == s[0];
        let b = choose|b: int| 0 <= b < s.len() && s[b] == t[0];
        assert(s[0] == t[0]) by {
            if a == 0 {
            } else if b == 0 {
            } else {
                assert(include_le(t[0], t[a]));
                assert(include_le(s[0], s[b]));
                lemma_include_le_antisym(s[0], t[0]);
            }
        }
        assert(sorted_deps(s.drop_first()) && seq_nodup(s.drop_first())) by {
            assert forall|i: int, j: int|
                0 <= i < j < s.drop_first().len() implies include_le(
                s.drop_first()[i],
                s.drop_first()[j],
            ) && s.drop_first()[i] != s.drop_first()[j] by {
                assert(s.drop_first()[i] == s[i + 1]);
                assert(s.drop_first()[j] == s[j + 1]);
            }
        }
        assert(sorted_deps(t.drop_first()) && seq_nodup(t.drop_first())) by {
            assert forall|i: int, j: int|
                0 <= i < j < t.drop_first().len() implies include_le(
                t.drop_first()[i],
                t.drop_first()[j],
            ) && t.drop_first()[i] != t.drop_first()[j] by {
                assert(t.drop_first()[i] == t[i + 1]);
                assert(t.drop_first()[j] == t[j + 1]);
            }
        }
        assert forall|x: IncludeModel|
            s.drop_first().contains(x) <==> t.drop_first().contains(x) by {
            if s.drop_first().contains(x) {
                let k = choose|k: int| 0 <= k < s.drop_first().len() && s.drop_first()[k] == x;
                assert(s[k + 1] == x);
                assert(s.contains(x));
                assert(x != s[0]);
                assert(t.contains(x));
                let m = choose|m: int| 0 <= m < t.len() && t[m] == x;
                assert(m > 0);
                assert(t.drop_first()[m - 1] == x);
            }
            if t.drop_first().contains(x) {
                let k = choose|k: int| 0 <= k < t.drop_first().len() && t.drop_first()[k] == x;
                assert(t[k + 1] == x);
                assert(t.contains(x));
                assert(x != t[0]);
                assert(s.contains(x));
                let m = choose|m: int| 0 <= m < s.len() && s[m] == x;
                assert(m > 0);
                assert(s.drop_first()[m - 1] == x);
            }
        }
        lemma_sorted_nodup_unique(s.drop_first(), t.drop_first());
        assert(s =~= seq![s[0]] + s.drop_first());
        assert(t =~= seq![t[0]] + t.drop_first());
    }
}

/// The dependency of one type, as a (possibly empty) run.
pub open spec fn type_dep(t: TypeModel) -> Seq<IncludeModel> {
    match t.dependency {
        Some(i) => seq![i],
        None => Seq::empty(),
    }
}

/// The dependency of an optional return type.
pub open spec fn opt_type_dep(t: Option<TypeModel>) -> Seq<IncludeModel> {
    match t {
        Some(ty) => type_dep(ty),
        None => Seq::empty(),
    }
}

/// The dependencies of an argument list, in order.
pub open spec fn args_deps(args: Seq<ArgModel>) -> Seq<IncludeModel>
    decreases args.len(),
{
    if args.len() == 0 {
        Seq::empty()
    } else {
        args_deps(args.drop_last()) + type_dep(args.last().1)
    }
}

/// Things that contribute header dependencies to the native artifact.
pub trait Dependent {
    /// The dependencies contributed, in the order they are encountered.
    spec fn spec_deps(&self) -> Seq<IncludeModel>;

    /// Accumulates the dependencies into `includes`.
    fn dependencies(&self, includes: &mut IncludeSet)
        ensures
            final(includes)@ == insert_deps(old(includes)@, self.spec_deps()),
    ;
}

/// Inserts the dependency of one type descriptor, if any.
fn insert_type_dep(includes: &mut IncludeSet, dep: &Option<Include>)
    ensures
        final(includes)@ == insert_deps(
            old(includes)@,
            match dep.deep_view() {
                Some(i) => seq![i],
                None => Seq::<IncludeModel>::empty(),
            },
        ),
{
    match dep {
        Some(i) => {
            includes.insert(i.dup());
            proof {
                let d = seq![i@];
                assert(d[0] == i@);
                assert(d.drop_first() =~= Seq::<IncludeModel>::empty());
                assert(insert_deps(insert_dep(old(includes)@, i@), d.drop_first())
                    == insert_dep(old(includes)@, i@));
                assert(insert_deps(old(includes)@, d) == insert_dep(old(includes)@, i@));
            }
        },
        None => {},
    }
}

/// Inserts the dependencies of an argument list.
fn insert_args_deps(includes: &mut IncludeSet, args: &Vec<(String, crate::typeref::TypeRef)>)
    ensures
        final(includes)@ == insert_deps(old(includes)@, args_deps(args.deep_view())),
{
    let ghost all = args.deep_view();
    let mut i: usize = 0;
    while i < args.len()
        invariant
            i <= args.len(),
            all == args.deep_view(),
            includes@ == insert_deps(old(includes)@, args_deps(all.take(i as int))),
        decreases args.len() - i,
    {
        insert_type_dep(includes, args[i].1.dependency());
        proof {
            assert(all.take(i + 1).drop_last() =~= all.take(i as int));
            assert(all.take(i + 1).last() == all[i as int]);
            lemma_insert_deps_append(
                old(includes)@,
                args_deps(all.take(i as int)),
                type_dep(all[i as int].1),
            );
        }
        i = i + 1;
    }
    proof {
        assert(all.take(args.len() as int) =~= all);
    }
}

impl Dependent for QObjectProp {
    open spec fn spec_deps(&self) -> Seq<IncludeModel> {
        type_dep(self@.type_ref)
    }

    fn dependencies(&self, includes: &mut IncludeSet) {
        insert_type_dep(includes, self.type_ref().dependency());
    }
}

impl Dependent for QObjectMethod {
    open spec fn spec_deps(&self) -> Seq<IncludeModel> {
        opt_type_dep(self@.rtype) + args_deps(self@.args)
    }

    fn dependencies(&self, includes: &mut IncludeSet) {
        match self.rtype_ref() {
            Some(rty) => insert_type_dep(includes, rty.dependency()),
            None => {},
        }
        insert_args_deps(includes, self.args_ref());
        proof {
            lemma_insert_deps_append(
                old(includes)@,
                opt_type_dep(self@.rtype),
                args_deps(self@.args),
            );
        }
    }
}

impl Dependent for QObjectSignal {
    open spec fn spec_deps(&self) -> Seq<IncludeModel> {
        args_deps(self@.args)
    }

    fn dependencies(&self, includes: &mut IncludeSet) {
        insert_args_deps(includes, self.args_ref());
    }
}

/// The dependencies of a run of properties.
pub open spec fn props_deps(props: Seq<crate::qobject::PropModel>) -> Seq<IncludeModel>
    decreases props.len(),
{
    if props.len() == 0 {
        Seq::empty()
    } else {
        props_deps(props.drop_last()) + type_dep(props.last().type_ref)
    }
}

/// The dependencies of a run of methods.
pub open spec fn methods_deps(ms: Seq<crate::qobject::MethodModel>) -> Seq<IncludeModel>
    decreases ms.len(),
{
    if ms.len() == 0 {
        Seq::empty()
    } else {
        methods_deps(ms.drop_last()) + opt_type_dep(ms.last().rtype) + args_deps(ms.last().args)
    }
}

/// The dependencies of a run of signals.
pub open spec fn signals_deps(ss: Seq<crate::qobject::SignalModel>) -> Seq<IncludeModel>
    decreases ss.len(),
{
    if ss.len() == 0 {
        Seq::empty()
    } else {
        signals_deps(ss.drop_last()) + args_deps(ss.last().args)
    }
}

/// Everything an object contributes: its members' types, its base class,
/// the forwarding-call utility header, and the registration header when the
/// object asks for dynamic registration.
pub open spec fn config_deps(c: crate::qobject::ConfigModel) -> Seq<IncludeModel> {
    props_deps(c.properties) + methods_deps(c.methods) + signals_deps(c.signals) + type_dep(
        c.base_class,
    ) + seq![IncludeModel::System("utility"@)] + if c.qml {
        seq![IncludeModel::System("QtQml"@)]
    } else {
        Seq::empty()
    }
}

impl Dependent for QObjectConfig {
    open spec fn spec_deps(&self) -> Seq<IncludeModel> {
        config_deps(self@)
    }

    fn dependencies(&self, includes: &mut IncludeSet) {
        let ghost c = self@;
        let ghost s0 = includes@;
        let props = self.properties_ref();
        let mut i: usize = 0;
        while i < props.len()
            invariant
                i <= props.len(),
                props.deep_view() == c.properties,
                includes@ == insert_deps(s0, props_deps(c.properties.take(i as int))),
            decreases props.len() - i,
        {
            props[i].dependencies(includes);
            proof {
                assert(c.properties.take(i + 1).drop_last() =~= c.properties.take(i as int));
                assert(c.properties.take(i + 1).last() == c.properties[i as int]);
                lemma_insert_deps_append(
                    s0,
                    props_deps(c.properties.take(i as int)),
                    type_dep(c.properties[i as int].type_ref),
                );
            }
            i = i + 1;
        }
        proof {
            assert(c.properties.take(props.len() as int) =~= c.properties);
        }
        let ghost s1 = insert_deps(s0, props_deps(c.properties));
        let methods = self.methods_ref();
        let mut i: usize = 0;
        while i < methods.len()
            invariant
                i <= methods.len(),
                methods.deep_view() == c.methods,
                includes@ == insert_deps(s1, methods_deps(c.methods.take(i as int))),
            decreases methods.len() - i,
        {
            methods[i].dependencies(includes);
            proof {
                assert(c.methods.take(i + 1).drop_last() =~= c.methods.take(i as int));
                assert(c.methods.take(i + 1).last() == c.methods[i as int]);
                assert(methods_deps(c.methods.take(i + 1)) =~= methods_deps(
                    c.methods.take(i as int),
                ) + (opt_type_dep(c.methods[i as int].rtype) + args_deps(
                    c.methods[i as int].args,
                )));
                lemma_insert_deps_append(
                    s1,
                    methods_deps(c.methods.take(i as int)),
                    opt_type_dep(c.methods[i as int].rtype) + args_deps(c.methods[i as int].args),
                );
            }
            i = i + 1;
        }
        proof {
            assert(c.methods.take(methods.len() as int) =~= c.methods);
        }
        let ghost s2 = insert_deps(s1, methods_deps(c.methods));
        let signals = self.signals_ref();
        let mut i: usize = 0;
        while i < signals.len()
            invariant
                i <= signals.len(),
                signals.deep_view() == c.signals,
                includes@ == insert_deps(s2, signals_deps(c.signals.take(i as int))),
            decreases signals.len() - i,
        {
            signals[i].dependencies(includes);
            proof {
                assert(c.signals.take(i + 1).drop_last() =~= c.signals.take(i as int));
                assert(c.signals.take(i + 1).last() == c.signals[i as int]);
                lemma_insert_deps_append(
                    s2,
                    signals_deps(c.signals.take(i as int)),
                    args_deps(c.signals[i as int].args),
                );
            }
            i = i + 1;
        }
        proof {
            assert(c.signals.take(signals.len() as int) =~= c.signals);
        }
        let ghost s3 = insert_deps(s2, signals_deps(c.signals));
        insert_type_dep(includes, self.base_class_ref().dependency());
        let ghost s4 = insert_deps(s3, type_dep(c.base_class));
        includes.insert(Include::System(String::from_str("utility")));
        let ghost s5 = insert_deps(s4, seq![IncludeModel::System("utility"@)]);
        proof {
            let d = seq![IncludeModel::System("utility"@)];
            assert(d[0] == IncludeModel::System("utility"@));
            assert(d.drop_first() =~= Seq::<IncludeModel>::empty());
            assert(insert_deps(insert_dep(s4, IncludeModel::System("utility"@)), d.drop_first())
                == insert_dep(s4, IncludeModel::System("utility"@)));
            assert(s5 == insert_dep(s4, IncludeModel::System("utility"@)));
        }
        if self.qml_flag() {
            includes.insert(Include::System(String::from_str("QtQml")));
            proof {
                let d = seq![IncludeModel::System("QtQml"@)];
                assert(d[0] == IncludeModel::System("QtQml"@));
                assert(d.drop_first() =~= Seq::<IncludeModel>::empty());
                assert(insert_deps(insert_dep(s5, IncludeModel::System("QtQml"@)), d.drop_first())
                    == insert_dep(s5, IncludeModel::System("QtQml"@)));
                assert(includes@ == insert_deps(s5, d));
            }
        }
        proof {
            lemma_insert_deps_append(s0, props_deps(c.properties), methods_deps(c.methods));
            lemma_insert_deps_append(
                s0,
                props_deps(c.properties) + methods_deps(c.methods),
                signals_deps(c.signals),
            );
            lemma_insert_deps_append(
                s0,
                props_deps(c.properties) + methods_deps(c.methods) + signals_deps(c.signals),
                type_dep(c.base_class),
            );
            lemma_insert_deps_append(
                s0,
                props_deps(c.properties) + methods_deps(c.methods) + signals_deps(c.signals)
                    + type_dep(c.base_class),
                seq![IncludeModel::System("utility"@)],
            );
            if c.qml {
                lemma_insert_deps_append(
                    s0,
                    props_deps(c.properties) + methods_deps(c.methods) + signals_deps(c.signals)
                        + type_dep(c.base_class) + seq![IncludeModel::System("utility"@)],
                    seq![IncludeModel::System("QtQml"@)],
                );
            } else {
                assert(config_deps(c) =~= props_deps(c.properties) + methods_deps(c.methods)
                    + signals_deps(c.signals) + type_dep(c.base_class) + seq![
                    IncludeModel::System("utility"@),
                ]);
            }
            assert(includes@ == insert_deps(s0, config_deps(c)));
        }
    }
}

} // verus!

verus! {

/// The collector's emission is canonical: whatever order dependencies were
/// encountered in, the emitted run is duplicate-free, sorted, and holds
/// exactly the collected headers. Together with
/// [`lemma_sorted_nodup_unique`], the emitted run is determined by the
/// collected set alone, so repeated runs over the same object agree.
pub proof fn lemma_collector_emission_canonical(deps: Seq<IncludeModel>)
    ensures
        sorted_deps(sort_deps(insert_deps(Seq::empty(), deps))),
        seq_nodup(sort_deps(insert_deps(Seq::empty(), deps))),
        forall|x: IncludeModel| #![trigger sort_deps(insert_deps(Seq::empty(), deps)).contains(x)]
            sort_deps(insert_deps(Seq::empty(), deps)).contains(x) <==> deps.contains(x),
{
    let collected = insert_deps(Seq::empty(), deps);
    lemma_insert_deps_nodup(Seq::empty(), deps);
    lemma_sort_deps_props(collected);
    lemma_sort_deps_nodup(collected);
    assert forall|x: IncludeModel| sort_deps(collected).contains(x) implies deps.contains(x) by {
        assert(collected.contains(x));
    }
    assert forall|x: IncludeModel| deps.contains(x) implies sort_deps(collected).contains(x) by {
        assert(collected.contains(x));
    }
}

} // verus!
