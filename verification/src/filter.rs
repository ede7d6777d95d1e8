//! Tri-state filters: the per-key `Include | Exclude | Ignore` classification
//! and the map from filter keys (tag or repository names) to their state.

use vstd::prelude::*;
use vstd::pervasive::VecAdditionalExecFns;
use crate::text::str_eq;

verus! {

/// Tri-state classification of a filter key (a tag or a repository name).
/// `Ignore` is the default: the key has no effect on the visible list.
#[derive(Clone, Copy, Debug, PartialEq, Eq, Structural)]
pub enum FilterState {
    Include,
    Exclude,
    Ignore,
}

impl Default for FilterState {
    fn default() -> (r: Self)
        ensures
            r == FilterState::Ignore,
    {
        FilterState::Ignore
    }
}

/// One step forward through the cycle `Ignore -> Include -> Exclude -> Ignore`.
pub open spec fn spec_cycle_forward(s: FilterState) -> FilterState {
    match s {
        FilterState::Ignore => FilterState::Include,
        FilterState::Include => FilterState::Exclude,
        FilterState::Exclude => FilterState::Ignore,
    }
}

/// One step backward through the cycle; inverse of `spec_cycle_forward`.
pub open spec fn spec_cycle_backward(s: FilterState) -> FilterState {
    match s {
        FilterState::Ignore => FilterState::Exclude,
        FilterState::Exclude => FilterState::Include,
        FilterState::Include => FilterState::Ignore,
    }
}

impl FilterState {
    pub fn cycle_forward(self) -> (r: Self)
        ensures
            r == spec_cycle_forward(self),
    {
        match self {
            FilterState::Ignore => FilterState::Include,
            FilterState::Include => FilterState::Exclude,
            FilterState::Exclude => FilterState::Ignore,
        }
    }

    pub fn cycle_backward(self) -> (r: Self)
        ensures
            r == spec_cycle_backward(self),
    {
        match self {
            FilterState::Ignore => FilterState::Exclude,
            FilterState::Exclude => FilterState::Include,
            FilterState::Include => FilterState::Ignore,
        }
    }
}

/// The tri-state cycle is a bijection of period three: three forward steps
/// return to the start, and a forward step and a backward step, in either
/// order, cancel.
pub proof fn lemma_cycle_period_three(s: FilterState)
    ensures
        spec_cycle_forward(spec_cycle_forward(spec_cycle_forward(s))) == s,
        spec_cycle_backward(spec_cycle_forward(s)) == s,
        spec_cycle_forward(spec_cycle_backward(s)) == s,
{
}

/// The abstract value of a `FilterMap`: its entries in insertion order.
pub type FilterEntries = Seq<(Seq<char>, FilterState)>;

/// Entry keys are pairwise distinct.
pub open spec fn fm_wf(m: FilterEntries) -> bool {
    forall|i: int, j: int| 0 <= i < j < m.len() ==> (#[trigger] m[i]).0 != (#[trigger] m[j]).0
}

/// The state of a key: that of its first entry, `Ignore` when absent.
pub open spec fn spec_state_of(m: FilterEntries, k: Seq<char>) -> FilterState
    decreases m.len(),
{
    if m.len() == 0 {
        FilterState::Ignore
    } else if m[0].0 == k {
        m[0].1
    } else {
        spec_state_of(m.skip(1), k)
    }
}

/// Some key is classified `Include`.
pub open spec fn spec_has_include(m: FilterEntries) -> bool {
    exists|k: Seq<char>| spec_state_of(m, k) == FilterState::Include
}

pub proof fn lemma_wf_skip(m: FilterEntries)
    requires
        fm_wf(m),
        m.len() > 0,
    ensures
        fm_wf(m.skip(1)),
{
    assert forall|i: int, j: int| 0 <= i < j < m.skip(1).len() implies (#[trigger] m.skip(1)[i]).0
        != (#[trigger] m.skip(1)[j]).0 by {
        assert(m.skip(1)[i] == m[i + 1]);
        assert(m.skip(1)[j] == m[j + 1]);
    }
}

/// With distinct keys, each entry gives its key's state.
pub proof fn lemma_state_of_entry(m: FilterEntries, i: int)
    requires
        fm_wf(m),
        0 <= i < m.len(),
    ensures
        spec_state_of(m, m[i].0) == m[i].1,
    decreases i,
{
    if i > 0 {
        lemma_wf_skip(m);
        assert(m[0].0 != m[i].0);
        lemma_state_of_entry(m.skip(1), i - 1);
        assert(m.skip(1)[i - 1] == m[i]);
    }
}

/// A state other than `Ignore` comes from some entry with that key.
pub proof fn lemma_state_of_cases(m: FilterEntries, k: Seq<char>)
    ensures
        spec_state_of(m, k) == FilterState::Ignore || exists|i: int|
            0 <= i < m.len() && (#[trigger] m[i]).0 == k && m[i].1 == spec_state_of(m, k),
    decreases m.len(),
{
    if m.len() == 0 {
    } else if m[0].0 == k {
        assert(m[0].0 == k && m[0].1 == spec_state_of(m, k));
    } else {
        lemma_state_of_cases(m.skip(1), k);
        if spec_state_of(m, k) != FilterState::Ignore {
            let i = choose|i: int|
                0 <= i < m.skip(1).len() && (#[trigger] m.skip(1)[i]).0 == k && m.skip(1)[i].1
                    == spec_state_of(m.skip(1), k);
            assert(m[i + 1] == m.skip(1)[i]);
            assert(m[i + 1].0 == k && m[i + 1].1 == spec_state_of(m, k));
        }
    }
}

/// A key with no entry is `Ignore`.
pub proof fn lemma_state_of_absent(m: FilterEntries, k: Seq<char>)
    requires
        forall|j: int| 0 <= j < m.len() ==> (#[trigger] m[j]).0 != k,
    ensures
        spec_state_of(m, k) == FilterState::Ignore,
    decreases m.len(),
{
    if m.len() > 0 {
        lemma_state_of_absent(m.skip(1), k);
    }
}

proof fn lemma_state_of_first(m: FilterEntries, i: int, k: Seq<char>)
    requires
        0 <= i < m.len(),
        m[i].0 == k,
        forall|j: int| 0 <= j < i ==> (#[trigger] m[j]).0 != k,
    ensures
        spec_state_of(m, k) == m[i].1,
    decreases i,
{
    if i > 0 {
        lemma_state_of_first(m.skip(1), i - 1, k);
        assert(m.skip(1)[i - 1] == m[i]);
    }
}

proof fn lemma_state_of_update_same_key(m: FilterEntries, i: int, st: FilterState, k: Seq<char>)
    requires
        0 <= i < m.len(),
        k != m[i].0,
    ensures
        spec_state_of(m.update(i, (m[i].0, st)), k) == spec_state_of(m, k),
    decreases i,
{
    let m2 = m.update(i, (m[i].0, st));
    if i == 0 {
        assert(m2[0].0 == m[i].0);
        assert(m2.skip(1) =~= m.skip(1));
    } else {
        assert(m2[0] == m[0]);
        if m[0].0 != k {
            assert(m2.skip(1) =~= m.skip(1).update(i - 1, (m.skip(1)[i - 1].0, st)));
            lemma_state_of_update_same_key(m.skip(1), i - 1, st, k);
        }
    }
}

#[verifier::rlimit(50)]
proof fn lemma_state_of_push(m: FilterEntries, e: (Seq<char>, FilterState), k: Seq<char>)
    ensures
        spec_state_of(m.push(e), k) == if exists|j: int| 0 <= j < m.len() && (#[trigger] m[j]).0
            == k {
            spec_state_of(m, k)
        } else if e.0 == k {
            e.1
        } else {
            FilterState::Ignore
        },
    decreases m.len(),
{
    if m.len() == 0 {
        assert(m.push(e).len() == 1);
        assert(m.push(e)[0] == e);
        assert(!(exists|j: int| 0 <= j < m.len() && (#[trigger] m[j]).0 == k));
        if e.0 == k {
            assert(spec_state_of(m.push(e), k) == e.1);
        } else {
            assert(m.push(e).skip(1) =~= Seq::<(Seq<char>, FilterState)>::empty());
            assert(spec_state_of(m.push(e), k) == spec_state_of(m.push(e).skip(1), k));
            assert(spec_state_of(m.push(e).skip(1), k) == FilterState::Ignore);
        }
    } else {
        assert(m.push(e)[0] == m[0]);
        if m[0].0 == k {
            assert(0 <= 0 < m.len() && m[0].0 == k);
        } else {
            assert(m.push(e).skip(1) =~= m.skip(1).push(e));
            lemma_state_of_push(m.skip(1), e, k);
            if exists|j: int| 0 <= j < m.skip(1).len() && (#[trigger] m.skip(1)[j]).0 == k {
                let j = choose|j: int|
                    0 <= j < m.skip(1).len() && (#[trigger] m.skip(1)[j]).0 == k;
                assert(m[j + 1] == m.skip(1)[j]);
                assert(0 <= j + 1 < m.len() && m[j + 1].0 == k);
            } else {
                assert forall|j: int| 0 <= j < m.len() implies (#[trigger] m[j]).0 != k by {
                    if j > 0 {
                        assert(m.skip(1)[j - 1] == m[j]);
                    }
                }
            }
        }
    }
}

/// A tri-state map from filter keys to their state, scoped to one filter
/// session; keys never repeat.
pub struct FilterMap {
    pub entries: Vec<(String, FilterState)>,
}

impl View for FilterMap {
    type V = FilterEntries;

    open spec fn view(&self) -> FilterEntries {
        Seq::new(self.entries@.len(), |i: int| (self.entries@[i].0@, self.entries@[i].1))
    }
}

impl FilterMap {
    pub open spec fn wf(&self) -> bool {
        fm_wf(self@)
    }

    pub fn new() -> (r: Self)
        ensures
            r@ =~= Seq::<(Seq<char>, FilterState)>::empty(),
            r.wf(),
    {
        FilterMap { entries: Vec::new() }
    }

    /// The state of a key; `Ignore` when the key has no entry.
    pub fn get(&self, key: &str) -> (r: FilterState)
        ensures
            r == spec_state_of(self@, key@),
    {
        let mut i: usize = 0;
        while i < self.entries.len()
            invariant
                i <= self.entries.len(),
                self@.len() == self.entries@.len(),
                forall|j: int| 0 <= j < i ==> (#[trigger] self@[j]).0 != key@,
            decreases self.entries.len() - i,
        {
            if str_eq(self.entries[i].0.as_str(), key) {
                assert(self@[i as int].0 == key@);
                proof {
                    lemma_state_of_first(self@, i as int, key@);
                }
                return self.entries[i].1;
            }
            assert(self@[i as int].0 != key@);
            i = i + 1;
        }
        proof {
            lemma_state_of_absent(self@, key@);
        }
        FilterState::Ignore
    }

    /// Sets the state of a key, adding an entry if the key has none; no
    /// other key's state changes.
    pub fn set(&mut self, key: &str, st: FilterState)
        requires
            old(self).wf(),
        ensures
            final(self).wf(),
            spec_state_of(final(self)@, key@) == st,
            forall|k: Seq<char>| k != key@ ==> spec_state_of(final(self)@, k) == spec_state_of(
                old(self)@,
                k,
            ),
    {
        let ghost m0 = old(self)@;
        let mut i: usize = 0;
        while i < self.entries.len()
            invariant
                m0 == old(self)@,
                self@ == m0,
                fm_wf(m0),
                i <= self.entries.len(),
                self@.len() == self.entries@.len(),
                forall|j: int| 0 <= j < i ==> (#[trigger] self@[j]).0 != key@,
            decreases self.entries.len() - i,
        {
            if str_eq(self.entries[i].0.as_str(), key) {
                assert(self@[i as int].0 == key@);
                self.entries.set(i, (String::from_str(key), st));
                proof {
                    assert(self@ =~= m0.update(i as int, (key@, st)));
                    assert(m0[i as int].0 == key@);
                    assert((key@, st) == (m0[i as int].0, st));
                    assert(self@ == m0.update(i as int, (m0[i as int].0, st)));
                    lemma_state_of_first(self@, i as int, key@);
                    assert forall|k: Seq<char>| k != key@ implies spec_state_of(self@, k)
                        == spec_state_of(m0, k) by {
                        lemma_state_of_update_same_key(m0, i as int, st, k);
                        assert(spec_state_of(m0.update(i as int, (m0[i as int].0, st)), k)
                            == spec_state_of(m0, k));
                    }
                    assert forall|a: int, b: int| 0 <= a < b < self@.len() implies (
                    #[trigger] self@[a]).0 != (#[trigger] self@[b]).0 by {
                        assert(m0[a].0 == self@[a].0);
                        assert(m0[b].0 == self@[b].0);
                    }
                }
                return ;
            }
            assert(self@[i as int].0 != key@);
            i = i + 1;
        }
        self.entries.push((String::from_str(key), st));
        proof {
            assert(self@ =~= m0.push((key@, st)));
            lemma_state_of_push(m0, (key@, st), key@);
            assert forall|k: Seq<char>| k != key@ implies spec_state_of(self@, k)
                == spec_state_of(m0, k) by {
                lemma_state_of_push(m0, (key@, st), k);
                if !(exists|j: int| 0 <= j < m0.len() && (#[trigger] m0[j]).0 == k) {
                    lemma_state_of_absent(m0, k);
                }
            }
            assert forall|a: int, b: int| 0 <= a < b < self@.len() implies (#[trigger] self@[a]).0
                != (#[trigger] self@[b]).0 by {
                if b < m0.len() {
                    assert(self@[a] == m0[a]);
                    assert(self@[b] == m0[b]);
                } else {
                    assert(self@[a] == m0[a]);
                    assert(self@[b].0 == key@);
                }
            }
        }
    }

    /// Whether any key at all is classified `Include`.
    pub fn any_include(&self) -> (r: bool)
        requires
            self.wf(),
        ensures
            r == spec_has_include(self@),
    {
        let mut i: usize = 0;
        while i < self.entries.len()
            invariant
                i <= self.entries.len(),
                self@.len() == self.entries@.len(),
                fm_wf(self@),
                forall|j: int| 0 <= j < i ==> (#[trigger] self@[j]).1 != FilterState::Include,
            decreases self.entries.len() - i,
        {
            if matches!(self.entries[i].1, FilterState::Include) {
                proof {
                    lemma_state_of_entry(self@, i as int);
                    assert(spec_state_of(self@, self@[i as int].0) == FilterState::Include);
                }
                return true;
            }
            assert(self@[i as int].1 != FilterState::Include);
            i = i + 1;
        }
        proof {
            assert forall|k: Seq<char>| spec_state_of(self@, k) != FilterState::Include by {
                lemma_state_of_cases(self@, k);
            }
        }
        false
    }
}

} // verus!
