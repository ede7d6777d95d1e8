//! The visible-list comparator and a verified stable sort: `Name` ascending,
//! every other key descending, ties kept in input order.

use vstd::prelude::*;
use vstd::multiset::Multiset;
use crate::pkg::{Package, PackageV, SortKey};
use crate::text::{lex_leq, lemma_lex_leq_total, str_leq};

verus! {

/// A missing popularity score counts as the lowest possible value.
pub open spec fn spec_pop(p: PackageV) -> u64 {
    match p.popularity {
        Some(v) => v,
        None => 0u64,
    }
}

/// Whether `a` may stand before `b` under the sort key: ascending by name,
/// descending by size, dates and popularity.
pub open spec fn spec_leq(key: SortKey, a: PackageV, b: PackageV) -> bool {
    match key {
        SortKey::Name => lex_leq(a.name, b.name),
        SortKey::Size => a.size_kib >= b.size_kib,
        SortKey::InstallDate => a.install_date >= b.install_date,
        SortKey::UpdateDate => a.build_date >= b.build_date,
        SortKey::Popularity => spec_pop(a) >= spec_pop(b),
    }
}

pub proof fn lemma_leq_total(key: SortKey, a: PackageV, b: PackageV)
    ensures
        spec_leq(key, a, b) || spec_leq(key, b, a),
{
    if key is Name {
        lemma_lex_leq_total(a.name, b.name);
    }
}

/// Decides `spec_leq` on two packages.
pub fn pkg_leq(a: &Package, b: &Package, key: SortKey) -> (r: bool)
    ensures
        r == spec_leq(key, a@, b@),
{
    match key {
        SortKey::Name => str_leq(a.name.as_str(), b.name.as_str()),
        SortKey::Size => a.size_kib >= b.size_kib,
        SortKey::InstallDate => a.install_date >= b.install_date,
        SortKey::UpdateDate => a.build_date >= b.build_date,
        SortKey::Popularity => {
            let pa: u64 = match a.popularity {
                Some(v) => v,
                None => 0u64,
            };
            let pb: u64 = match b.popularity {
                Some(v) => v,
                None => 0u64,
            };
            pa >= pb
        },
    }
}

/// Insertion of `p` into `s` from the rear: `p` never passes an element it
/// compares equal to, which is what keeps the sort stable.
pub open spec fn spec_insert_sorted(key: SortKey, s: Seq<PackageV>, p: PackageV) -> Seq<PackageV>
    decreases s.len(),
{
    if s.len() == 0 {
        seq![p]
    } else if spec_leq(key, s.last(), p) {
        s.push(p)
    } else {
        spec_insert_sorted(key, s.drop_last(), p).push(s.last())
    }
}

/// The stable insertion sort of `s` under the key.
pub open spec fn spec_sort(key: SortKey, s: Seq<PackageV>) -> Seq<PackageV>
    decreases s.len(),
{
    if s.len() == 0 {
        Seq::<PackageV>::empty()
    } else {
        spec_insert_sorted(key, spec_sort(key, s.drop_last()), s.last())
    }
}

/// Neighbours stand in order.
pub open spec fn spec_sorted(key: SortKey, s: Seq<PackageV>) -> bool {
    forall|i: int| 0 <= i < s.len() - 1 ==> spec_leq(key, #[trigger] s[i], s[i + 1])
}

proof fn lemma_insert_sorted_last(key: SortKey, s: Seq<PackageV>, p: PackageV)
    ensures
        spec_insert_sorted(key, s, p).len() == s.len() + 1,
        spec_insert_sorted(key, s, p).last() == p || (s.len() > 0 && spec_insert_sorted(
            key,
            s,
            p,
        ).last() == s.last()),
    decreases s.len(),
{
    if s.len() > 0 && !spec_leq(key, s.last(), p) {
        lemma_insert_sorted_last(key, s.drop_last(), p);
    }
}

proof fn lemma_insert_sorted_sorted(key: SortKey, s: Seq<PackageV>, p: PackageV)
    requires
        spec_sorted(key, s),
    ensures
        spec_sorted(key, spec_insert_sorted(key, s, p)),
    decreases s.len(),
{
    if s.len() == 0 {
    } else if spec_leq(key, s.last(), p) {
        let r = s.push(p);
        assert forall|i: int| 0 <= i < r.len() - 1 implies spec_leq(key, #[trigger] r[i], r[i + 1]) by {
            if i < s.len() - 1 {
                assert(spec_leq(key, s[i], s[i + 1]));
            }
        }
    } else {
        let s0 = s.drop_last();
        assert forall|i: int| 0 <= i < s0.len() - 1 implies spec_leq(key, #[trigger] s0[i], s0[i + 1]) by {
            assert(spec_leq(key, s[i], s[i + 1]));
        }
        lemma_insert_sorted_sorted(key, s0, p);
        lemma_insert_sorted_last(key, s0, p);
        let q = spec_insert_sorted(key, s0, p);
        let r = q.push(s.last());
        // the junction: the last element of q is either p or s0's last
        assert(q.len() > 0);
        if q.last() == p {
            lemma_leq_total(key, s.last(), p);
            assert(spec_leq(key, p, s.last()));
        } else {
            assert(s0.len() > 0 && q.last() == s0.last());
            assert(spec_leq(key, s[s.len() - 2], s[s.len() - 1]));
        }
        assert forall|i: int| 0 <= i < r.len() - 1 implies spec_leq(key, #[trigger] r[i], r[i + 1]) by {
            if i < q.len() - 1 {
                assert(spec_leq(key, q[i], q[i + 1]));
            }
        }
    }
}

proof fn lemma_insert_sorted_multiset(key: SortKey, s: Seq<PackageV>, p: PackageV)
    ensures
        spec_insert_sorted(key, s, p).to_multiset() == s.to_multiset().insert(p),
    decreases s.len(),
{
    broadcast use vstd::seq_lib::group_to_multiset_ensures;

    if s.len() == 0 {
        assert(seq![p] =~= Seq::<PackageV>::empty().push(p));
        assert(Seq::<PackageV>::empty().to_multiset() =~= Multiset::<PackageV>::empty());
        assert(seq![p].to_multiset() =~= s.to_multiset().insert(p));
    } else if spec_leq(key, s.last(), p) {
        assert(s.push(p).to_multiset() =~= s.to_multiset().insert(p));
    } else {
        let s0 = s.drop_last();
        lemma_insert_sorted_multiset(key, s0, p);
        let q = spec_insert_sorted(key, s0, p);
        assert(q.push(s.last()).to_multiset() =~= q.to_multiset().insert(s.last()));
        assert(s0.push(s.last()) =~= s);
        assert(s.to_multiset() =~= s0.to_multiset().insert(s.last()));
        assert(q.to_multiset().insert(s.last()) =~= s0.to_multiset().insert(p).insert(s.last()));
        assert(s0.to_multiset().insert(p).insert(s.last()) =~= s0.to_multiset().insert(
            s.last(),
        ).insert(p));
    }
}

/// What the sort keeps invariant: the multiset of records.
pub proof fn lemma_sort_multiset(key: SortKey, s: Seq<PackageV>)
    ensures
        spec_sort(key, s).to_multiset() == s.to_multiset(),
        spec_sort(key, s).len() == s.len(),
    decreases s.len(),
{
    broadcast use vstd::seq_lib::group_to_multiset_ensures;

    if s.len() == 0 {
    } else {
        let s0 = s.drop_last();
        lemma_sort_multiset(key, s0);
        lemma_insert_sorted_multiset(key, spec_sort(key, s0), s.last());
        lemma_insert_sorted_last(key, spec_sort(key, s0), s.last());
        assert(s0.push(s.last()) =~= s);
        assert(s.to_multiset() =~= s0.to_multiset().insert(s.last()));
        assert(spec_sort(key, s).to_multiset() =~= s0.to_multiset().insert(s.last()));
    }
}

/// The sort output is ordered under its key.
pub proof fn lemma_sort_sorted(key: SortKey, s: Seq<PackageV>)
    ensures
        spec_sorted(key, spec_sort(key, s)),
    decreases s.len(),
{
    if s.len() > 0 {
        lemma_sort_sorted(key, s.drop_last());
        lemma_insert_sorted_sorted(key, spec_sort(key, s.drop_last()), s.last());
    }
}

/// The sort output holds exactly the records of its input.
pub proof fn lemma_sort_contains(key: SortKey, s: Seq<PackageV>, x: PackageV)
    ensures
        spec_sort(key, s).contains(x) <==> s.contains(x),
{
    broadcast use vstd::seq_lib::group_to_multiset_ensures;

    lemma_sort_multiset(key, s);
    assert(spec_sort(key, s).contains(x) <==> spec_sort(key, s).to_multiset().count(x) > 0);
    assert(s.contains(x) <==> s.to_multiset().count(x) > 0);
}

fn find_insert_pos(out: &Vec<Package>, p: &Package, key: SortKey) -> (j: usize)
    ensures
        j <= out.len(),
        forall|m: int| j <= m < out.deep_view().len() ==> !spec_leq(
            key,
            #[trigger] out.deep_view()[m],
            p@,
        ),
        j > 0 ==> spec_leq(key, out.deep_view()[j - 1], p@),
{
    let mut j: usize = out.len();
    while j > 0
        invariant
            j <= out.len(),
            out.deep_view().len() == out.len(),
            forall|m: int| j <= m < out.deep_view().len() ==> !spec_leq(
                key,
                #[trigger] out.deep_view()[m],
                p@,
            ),
        decreases j,
    {
        if pkg_leq(&out[j - 1], p, key) {
            assert(out.deep_view()[j - 1] == out@[j - 1]@);
            return j;
        }
        assert(out.deep_view()[j - 1] == out@[j - 1]@);
        j = j - 1;
    }
    0
}

proof fn lemma_insert_sorted_at(key: SortKey, s: Seq<PackageV>, p: PackageV, j: int)
    requires
        0 <= j <= s.len(),
        forall|m: int| j <= m < s.len() ==> !spec_leq(key, #[trigger] s[m], p),
        j > 0 ==> spec_leq(key, s[j - 1], p),
    ensures
        spec_insert_sorted(key, s, p) == s.insert(j, p),
    decreases s.len(),
{
    if s.len() == 0 {
        assert(s.insert(0, p) =~= seq![p]);
    } else if j == s.len() {
        assert(spec_leq(key, s.last(), p));
        assert(s.insert(j, p) =~= s.push(p));
    } else {
        assert(!spec_leq(key, s.last(), p));
        let s0 = s.drop_last();
        assert(forall|m: int| j <= m < s0.len() ==> !spec_leq(key, #[trigger] s0[m], p));
        if j > 0 {
            assert(s0[j - 1] == s[j - 1]);
        }
        lemma_insert_sorted_at(key, s0, p, j);
        assert(s0.insert(j, p).push(s.last()) =~= s.insert(j, p));
    }
}

fn insert_sorted(out: &mut Vec<Package>, p: Package, key: SortKey)
    ensures
        final(out).deep_view() == spec_insert_sorted(key, old(out).deep_view(), p@),
{
    let ghost s = old(out).deep_view();
    let j = find_insert_pos(out, &p, key);
    proof {
        lemma_insert_sorted_at(key, s, p@, j as int);
    }
    out.insert(j, p);
    proof {
        assert(out.deep_view() =~= s.insert(j as int, p@));
    }
}

/// Sorts the list by the key: stable, ordered as `spec_sort` says.
pub fn sort_packages(packages: &mut Vec<Package>, sort_key: SortKey)
    ensures
        final(packages).deep_view() == spec_sort(sort_key, old(packages).deep_view()),
        spec_sorted(sort_key, final(packages).deep_view()),
{
    let ghost s = old(packages).deep_view();
    let mut out: Vec<Package> = Vec::new();
    proof {
        assert(out.deep_view() =~= spec_sort(sort_key, s.take(0)));
    }
    let mut i: usize = 0;
    while i < packages.len()
        invariant
            s == packages.deep_view(),
            packages@ == old(packages)@,
            s.len() == packages.len(),
            i <= packages.len(),
            out.deep_view() == spec_sort(sort_key, s.take(i as int)),
        decreases packages.len() - i,
    {
        let p = packages[i].clone();
        insert_sorted(&mut out, p, sort_key);
        proof {
            assert(s.take(i + 1).drop_last() =~= s.take(i as int));
            assert(s.take(i + 1).last() == s[i as int]);
            assert(p@ == s[i as int]);
        }
        i = i + 1;
    }
    proof {
        assert(s.take(s.len() as int) =~= s);
        lemma_sort_sorted(sort_key, s);
    }
    *packages = out;
}

} // verus!
