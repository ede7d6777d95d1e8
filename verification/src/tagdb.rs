//! The tag store: the map from package names to their user-assigned tags.
//! Every tag list is kept strictly sorted; persistence of the store to disk
//! is the surrounding program's business.

use vstd::prelude::*;
use vstd::pervasive::VecAdditionalExecFns;
use crate::error::AppError;
use crate::text::{
    insert_unique_sorted, lemma_filter_all_true, lemma_filter_step, lemma_insert_contains,
    lemma_filter_sorted, neq_pred, str_eq, str_sorted, string_eq, vec_contains_string,
};

verus! {

/// The abstract value of a `TagDb`: package name to tag list, in insertion
/// order.
pub type TagEntries = Seq<(Seq<char>, Seq<Seq<char>>)>;

/// Package names are pairwise distinct and every tag list is strictly
/// sorted.
pub open spec fn tdb_wf(m: TagEntries) -> bool {
    &&& forall|i: int, j: int| 0 <= i < j < m.len() ==> (#[trigger] m[i]).0 != (#[trigger] m[j]).0
    &&& forall|i: int| 0 <= i < m.len() ==> str_sorted((#[trigger] m[i]).1)
}

/// The tags of a package: those of its first entry, none when absent.
pub open spec fn spec_tags_of(m: TagEntries, pkg: Seq<char>) -> Seq<Seq<char>>
    decreases m.len(),
{
    if m.len() == 0 {
        Seq::<Seq<char>>::empty()
    } else if m[0].0 == pkg {
        m[0].1
    } else {
        spec_tags_of(m.skip(1), pkg)
    }
}

proof fn lemma_tags_of_first(m: TagEntries, i: int, pkg: Seq<char>)
    requires
        0 <= i < m.len(),
        m[i].0 == pkg,
        forall|j: int| 0 <= j < i ==> (#[trigger] m[j]).0 != pkg,
    ensures
        spec_tags_of(m, pkg) == m[i].1,
    decreases i,
{
    if i > 0 {
        lemma_tags_of_first(m.skip(1), i - 1, pkg);
        assert(m.skip(1)[i - 1] == m[i]);
    }
}

proof fn lemma_tags_of_absent(m: TagEntries, pkg: Seq<char>)
    requires
        forall|j: int| 0 <= j < m.len() ==> (#[trigger] m[j]).0 != pkg,
    ensures
        spec_tags_of(m, pkg) == Seq::<Seq<char>>::empty(),
    decreases m.len(),
{
    if m.len() > 0 {
        lemma_tags_of_absent(m.skip(1), pkg);
    }
}

proof fn lemma_tags_of_update_same_key(m: TagEntries, i: int, tags: Seq<Seq<char>>, k: Seq<char>)
    requires
        0 <= i < m.len(),
        k != m[i].0,
    ensures
        spec_tags_of(m.update(i, (m[i].0, tags)), k) == spec_tags_of(m, k),
    decreases i,
{
    let m2 = m.update(i, (m[i].0, tags));
    if i == 0 {
        assert(m2[0].0 == m[i].0);
        assert(m2.skip(1) =~= m.skip(1));
    } else {
        assert(m2[0] == m[0]);
        if m[0].0 != k {
            assert(m2.skip(1) =~= m.skip(1).update(i - 1, (m.skip(1)[i - 1].0, tags)));
            lemma_tags_of_update_same_key(m.skip(1), i - 1, tags, k);
        }
    }
}

proof fn lemma_tags_of_push_other(m: TagEntries, e: (Seq<char>, Seq<Seq<char>>), k: Seq<char>)
    requires
        e.0 != k,
    ensures
        spec_tags_of(m.push(e), k) == spec_tags_of(m, k),
    decreases m.len(),
{
    if m.len() == 0 {
        assert(m.push(e)[0] == e);
        assert(m.push(e).skip(1) =~= Seq::<(Seq<char>, Seq<Seq<char>>)>::empty());
        assert(spec_tags_of(m.push(e), k) == spec_tags_of(m.push(e).skip(1), k));
        assert(spec_tags_of(m.push(e).skip(1), k) =~= Seq::<Seq<char>>::empty());
        assert(spec_tags_of(m, k) =~= Seq::<Seq<char>>::empty());
    } else {
        assert(m.push(e)[0] == m[0]);
        if m[0].0 != k {
            assert(m.push(e).skip(1) =~= m.skip(1).push(e));
            lemma_tags_of_push_other(m.skip(1), e, k);
        }
    }
}

proof fn lemma_tags_of_push_new(m: TagEntries, e: (Seq<char>, Seq<Seq<char>>))
    requires
        forall|j: int| 0 <= j < m.len() ==> (#[trigger] m[j]).0 != e.0,
    ensures
        spec_tags_of(m.push(e), e.0) == e.1,
    decreases m.len(),
{
    if m.len() == 0 {
        assert(m.push(e)[0] == e);
    } else {
        assert(m.push(e)[0] == m[0]);
        assert(m.push(e).skip(1) =~= m.skip(1).push(e));
        lemma_tags_of_push_new(m.skip(1), e);
    }
}

/// The in-memory tag store.
pub struct TagDb {
    pub entries: Vec<(String, Vec<String>)>,
}

impl View for TagDb {
    type V = TagEntries;

    open spec fn view(&self) -> TagEntries {
        Seq::new(
            self.entries@.len(),
            |i: int| (self.entries@[i].0@, self.entries@[i].1.deep_view()),
        )
    }
}

impl Clone for TagDb {
    fn clone(&self) -> (r: Self)
        ensures
            r@ == self@,
    {
        let mut entries: Vec<(String, Vec<String>)> = Vec::new();
        let mut i: usize = 0;
        while i < self.entries.len()
            invariant
                i <= self.entries.len(),
                self@.len() == self.entries@.len(),
                entries@.len() == i,
                forall|j: int|
                    0 <= j < i ==> (entries@[j].0@, entries@[j].1.deep_view()) == #[trigger] self@[j],
            decreases self.entries.len() - i,
        {
            let name = self.entries[i].0.clone();
            let tags = self.entries[i].1.clone();
            proof {
                assert(tags.deep_view() =~= self.entries@[i as int].1.deep_view());
            }
            entries.push((name, tags));
            i = i + 1;
        }
        let r = TagDb { entries };
        proof {
            assert(r@ =~= self@);
        }
        r
    }
}

impl TagDb {
    pub open spec fn wf(&self) -> bool {
        tdb_wf(self@)
    }

    pub fn new() -> (r: Self)
        ensures
            r@ =~= Seq::<(Seq<char>, Seq<Seq<char>>)>::empty(),
            r.wf(),
    {
        TagDb { entries: Vec::new() }
    }

    fn find_entry(&self, package_name: &str) -> (r: Option<usize>)
        ensures
            match r {
                Some(i) => i < self@.len() && self@[i as int].0 == package_name@ && forall|j: int|
                    0 <= j < i ==> (#[trigger] self@[j]).0 != package_name@,
                None => forall|j: int| 0 <= j < self@.len() ==> (#[trigger] self@[j]).0
                    != package_name@,
            },
    {
        let mut i: usize = 0;
        while i < self.entries.len()
            invariant
                i <= self.entries.len(),
                self@.len() == self.entries@.len(),
                forall|j: int| 0 <= j < i ==> (#[trigger] self@[j]).0 != package_name@,
            decreases self.entries.len() - i,
        {
            if str_eq(self.entries[i].0.as_str(), package_name) {
                assert(self@[i as int].0 == package_name@);
                return Some(i);
            }
            assert(self@[i as int].0 != package_name@);
            i = i + 1;
        }
        None
    }

    /// The tags of a package, in their stored (sorted) order.
    pub fn tags_of(&self, package_name: &str) -> (r: Vec<String>)
        ensures
            r.deep_view() == spec_tags_of(self@, package_name@),
    {
        match self.find_entry(package_name) {
            Some(i) => {
                proof {
                    lemma_tags_of_first(self@, i as int, package_name@);
                }
                let r = self.entries[i].1.clone();
                proof {
                    assert(r.deep_view() =~= self.entries@[i as int].1.deep_view());
                }
                r
            },
            None => {
                proof {
                    lemma_tags_of_absent(self@, package_name@);
                }
                Vec::new()
            },
        }
    }
}

/// Adds a tag to a package's sorted tag set; adding a tag it already has
/// changes nothing. Returns the report message.
pub fn add_tag(db: &mut TagDb, package_name: &str, tag: &str) -> (r: String)
    requires
        old(db).wf(),
    ensures
        final(db).wf(),
        spec_tags_of(old(db)@, package_name@).contains(tag@) ==> spec_tags_of(
            final(db)@,
            package_name@,
        ) == spec_tags_of(old(db)@, package_name@),
        !spec_tags_of(old(db)@, package_name@).contains(tag@) ==> exists|j: int|
            0 <= j <= spec_tags_of(old(db)@, package_name@).len() && spec_tags_of(
                final(db)@,
                package_name@,
            ) == spec_tags_of(old(db)@, package_name@).insert(j, tag@),
        forall|k: Seq<char>|
            spec_tags_of(final(db)@, package_name@).contains(k) <==> (spec_tags_of(
                old(db)@,
                package_name@,
            ).contains(k) || k == tag@),
        forall|p: Seq<char>| p != package_name@ ==> spec_tags_of(final(db)@, p) == spec_tags_of(
            old(db)@,
            p,
        ),
        r@ == "Added tag '"@ + tag@ + "' to '"@ + package_name@ + "'"@,
{
    let ghost m0 = old(db)@;
    match db.find_entry(package_name) {
        Some(i) => {
            proof {
                lemma_tags_of_first(m0, i as int, package_name@);
            }
            let mut tags = db.entries[i].1.clone();
            proof {
                assert(tags.deep_view() =~= db.entries@[i as int].1.deep_view());
            }
            insert_unique_sorted(&mut tags, tag);
            db.entries.set(i, (String::from_str(package_name), tags));
            proof {
                assert(db@ =~= m0.update(i as int, (package_name@, tags.deep_view())));
                assert((package_name@, tags.deep_view()) == (
                    m0[i as int].0,
                    tags.deep_view(),
                ));
                lemma_tags_of_first(db@, i as int, package_name@);
                assert(spec_tags_of(db@, package_name@) == tags.deep_view());
                assert forall|k: Seq<char>| #![all_triggers] spec_tags_of(
                    db@,
                    package_name@,
                ).contains(k) <==> (spec_tags_of(m0, package_name@).contains(k) || k == tag@) by {
                    assert(tags.deep_view().contains(k) <==> (m0[i as int].1.contains(k) || k
                        == tag@));
                }
                assert forall|p: Seq<char>| p != package_name@ implies spec_tags_of(db@, p)
                    == spec_tags_of(m0, p) by {
                    lemma_tags_of_update_same_key(m0, i as int, tags.deep_view(), p);
                }
                assert forall|a: int, b: int| 0 <= a < b < db@.len() implies (
                #[trigger] db@[a]).0 != (#[trigger] db@[b]).0 by {
                    assert(m0[a].0 == db@[a].0);
                    assert(m0[b].0 == db@[b].0);
                }
                assert forall|a: int| 0 <= a < db@.len() implies str_sorted(
                    (#[trigger] db@[a]).1,
                ) by {
                    if a != i {
                        assert(db@[a] == m0[a]);
                    }
                }
            }
        },
        None => {
            proof {
                lemma_tags_of_absent(m0, package_name@);
            }
            let mut tags: Vec<String> = Vec::new();
            tags.push(String::from_str(tag));
            db.entries.push((String::from_str(package_name), tags));
            proof {
                assert(tags.deep_view() =~= seq![tag@]);
                assert(db@ =~= m0.push((package_name@, tags.deep_view())));
                lemma_tags_of_push_new(m0, (package_name@, tags.deep_view()));
                assert(spec_tags_of(db@, package_name@) == tags.deep_view());
                assert(tags.deep_view() =~= Seq::<Seq<char>>::empty().insert(0, tag@));
                assert forall|k: Seq<char>| #![all_triggers] spec_tags_of(
                    db@,
                    package_name@,
                ).contains(k) <==> (spec_tags_of(m0, package_name@).contains(k) || k == tag@) by {
                    if k == tag@ {
                        assert(tags.deep_view()[0] == tag@);
                        assert(tags.deep_view().contains(k));
                    }
                    if tags.deep_view().contains(k) {
                        let w = choose|w: int|
                            0 <= w < tags.deep_view().len() && tags.deep_view()[w] == k;
                        assert(k == tag@);
                    }
                }
                assert forall|p: Seq<char>| p != package_name@ implies spec_tags_of(db@, p)
                    == spec_tags_of(m0, p) by {
                    lemma_tags_of_push_other(m0, (package_name@, tags.deep_view()), p);
                }
                assert forall|a: int, b: int| 0 <= a < b < db@.len() implies (
                #[trigger] db@[a]).0 != (#[trigger] db@[b]).0 by {
                    if b < m0.len() {
                        assert(db@[a] == m0[a]);
                        assert(db@[b] == m0[b]);
                    } else {
                        assert(db@[a] == m0[a]);
                        assert(db@[b].0 == package_name@);
                    }
                }
                assert forall|a: int| 0 <= a < db@.len() implies str_sorted(
                    (#[trigger] db@[a]).1,
                ) by {
                    if a < m0.len() {
                        assert(db@[a] == m0[a]);
                    } else {
                        assert(db@[a].1 =~= seq![tag@]);
                    }
                }
            }
        },
    }
    let mut msg = String::from_str("Added tag '");
    msg.append(tag);
    msg.append("' to '");
    msg.append(package_name);
    msg.append("'");
    msg
}

/// Removes a tag from a package. Succeeds exactly when the package carries
/// the tag; on failure the store is unchanged.
pub fn remove_tag(db: &mut TagDb, package_name: &str, tag: &str) -> (r: Result<String, AppError>)
    requires
        old(db).wf(),
    ensures
        final(db).wf(),
        r is Ok <==> spec_tags_of(old(db)@, package_name@).contains(tag@),
        r matches Ok(m) ==> spec_tags_of(final(db)@, package_name@) == spec_tags_of(
            old(db)@,
            package_name@,
        ).filter(neq_pred(tag@)) && m@ == "Removed tag '"@ + tag@ + "' from '"@
            + package_name@ + "'"@,
        forall|p: Seq<char>| p != package_name@ ==> spec_tags_of(final(db)@, p) == spec_tags_of(
            old(db)@,
            p,
        ),
        r matches Err(e) ==> (final(db)@ == old(db)@ && (e matches AppError::InvalidInput(m) && m@
            == "Tag '"@ + tag@ + "' not found for package '"@ + package_name@ + "'."@)),
{
    let ghost m0 = old(db)@;
    let found = db.find_entry(package_name);
    let present = match found {
        Some(i) => {
            proof {
                lemma_tags_of_first(m0, i as int, package_name@);
            }
            vec_contains_string(&db.entries[i].1, tag)
        },
        None => {
            proof {
                lemma_tags_of_absent(m0, package_name@);
            }
            false
        },
    };
    if !present {
        let mut msg = String::from_str("Tag '");
        msg.append(tag);
        msg.append("' not found for package '");
        msg.append(package_name);
        msg.append("'.");
        return Err(AppError::InvalidInput(msg));
    }
    let i = match found {
        Some(i) => i,
        None => {
            proof {
                assert(false);
            }
            0
        },
    };
    let ghost told = m0[i as int].1;
    let ghost pred = neq_pred(tag@);
    let mut kept: Vec<String> = Vec::new();
    proof {
        assert(told.take(0).filter(pred) =~= Seq::<Seq<char>>::empty());
        reveal(Seq::filter);
    }
    let n = db.entries[i].1.len();
    let mut j: usize = 0;
    while j < n
        invariant
            db@ == m0,
            0 <= i < db.entries.len(),
            db@[i as int].1 == told,
            n == db.entries@[i as int].1.len(),
            told.len() == n,
            j <= n,
            kept.deep_view() == told.take(j as int).filter(pred),
            pred == neq_pred(tag@),
        decreases n - j,
    {
        proof {
            lemma_filter_step(told, pred, j as int);
            assert(told[j as int] == db.entries@[i as int].1@[j as int]@);
        }
        if !str_eq(db.entries[i].1[j].as_str(), tag) {
            kept.push(db.entries[i].1[j].clone());
            proof {
                assert(kept.deep_view() =~= told.take(j + 1).filter(pred));
            }
        }
        j = j + 1;
    }
    proof {
        assert(told.take(told.len() as int) =~= told);
    }
    db.entries.set(i, (String::from_str(package_name), kept));
    proof {
        assert(db@ =~= m0.update(i as int, (package_name@, told.filter(pred))));
        assert((package_name@, told.filter(pred)) == (m0[i as int].0, told.filter(pred)));
        lemma_tags_of_first(db@, i as int, package_name@);
        assert(spec_tags_of(db@, package_name@) == told.filter(pred));
        assert forall|p: Seq<char>| p != package_name@ implies spec_tags_of(db@, p)
            == spec_tags_of(m0, p) by {
            lemma_tags_of_update_same_key(m0, i as int, told.filter(pred), p);
        }
        assert forall|a: int, b: int| 0 <= a < b < db@.len() implies (#[trigger] db@[a]).0 != (
        #[trigger] db@[b]).0 by {
            assert(m0[a].0 == db@[a].0);
            assert(m0[b].0 == db@[b].0);
        }
        assert forall|a: int| 0 <= a < db@.len() implies str_sorted((#[trigger] db@[a]).1) by {
            if a != i {
                assert(db@[a] == m0[a]);
            } else {
                lemma_filter_sorted(told, pred);
            }
        }
    }
    let mut msg = String::from_str("Removed tag '");
    msg.append(tag);
    msg.append("' from '");
    msg.append(package_name);
    msg.append("'");
    Ok(msg)
}

/// Every tag known to the store, strictly sorted.
pub fn get_all_tags(db: &TagDb) -> (r: Vec<String>)
    ensures
        str_sorted(r.deep_view()),
        forall|k: Seq<char>|
            r.deep_view().contains(k) <==> exists|i: int|
                0 <= i < db@.len() && (#[trigger] db@[i]).1.contains(k),
{
    let mut out: Vec<String> = Vec::new();
    let mut i: usize = 0;
    while i < db.entries.len()
        invariant
            i <= db.entries.len(),
            db@.len() == db.entries@.len(),
            str_sorted(out.deep_view()),
            forall|k: Seq<char>|
                out.deep_view().contains(k) <==> exists|a: int|
                    0 <= a < i && (#[trigger] db@[a]).1.contains(k),
        decreases db.entries.len() - i,
    {
        let ghost tags = db@[i as int].1;
        let n = db.entries[i].1.len();
        let mut j: usize = 0;
        while j < n
            invariant
                0 <= i < db.entries.len(),
                db@.len() == db.entries@.len(),
                n == db.entries@[i as int].1.len(),
                db@[i as int].1 == tags,
                tags.len() == n,
                j <= n,
                str_sorted(out.deep_view()),
                forall|k: Seq<char>|
                    out.deep_view().contains(k) <==> (exists|a: int|
                        0 <= a < i && (#[trigger] db@[a]).1.contains(k)) || tags.take(
                        j as int,
                    ).contains(k),
            decreases n - j,
        {
            insert_unique_sorted(&mut out, db.entries[i].1[j].as_str());
            proof {
                assert(tags[j as int] == db.entries@[i as int].1@[j as int]@);
                assert(tags.take(j + 1) =~= tags.take(j as int).insert(j as int, tags[j as int]));
                assert forall|k: Seq<char>| #![all_triggers] tags.take(j + 1).contains(k) <==> (
                tags.take(j as int).contains(k) || k == tags[j as int]) by {
                    lemma_insert_contains(tags.take(j as int), j as int, tags[j as int], k);
                }
            }
            j = j + 1;
        }
        proof {
            assert(tags.take(tags.len() as int) =~= tags);
            assert forall|k: Seq<char>| #![all_triggers] out.deep_view().contains(k) <==> exists|
                a: int,
            | 0 <= a < i + 1 && (#[trigger] db@[a]).1.contains(k) by {
                if out.deep_view().contains(k) {
                    if tags.contains(k) {
                        assert(db@[i as int].1.contains(k));
                    }
                }
            }
        }
        i = i + 1;
    }
    out
}

/// Adding a tag a package does not carry and then removing it restores the
/// tag list exactly, wherever the insertion placed it.
#[verifier::rlimit(50)]
pub proof fn lemma_tag_round_trip(tags: Seq<Seq<char>>, t: Seq<char>, j: int)
    requires
        !tags.contains(t),
        0 <= j <= tags.len(),
    ensures
        tags.insert(j, t).filter(neq_pred(t)) == tags,
{
    let pred = neq_pred(t);
    let s2 = tags.insert(j, t);
    assert(s2 =~= tags.take(j) + (seq![t] + tags.skip(j)));
    Seq::filter_distributes_over_add(tags.take(j), seq![t] + tags.skip(j), pred);
    Seq::filter_distributes_over_add(seq![t], tags.skip(j), pred);
    assert(seq![t].filter(pred) =~= Seq::<Seq<char>>::empty()) by {
        reveal_with_fuel(Seq::filter, 2);
        assert(seq![t].drop_last() =~= Seq::<Seq<char>>::empty());
        assert(!pred(t));
    }
    lemma_filter_all_true(tags.take(j), pred);
    lemma_filter_all_true(tags.skip(j), pred);
    assert(tags.take(j).filter(pred) + (seq![t].filter(pred) + tags.skip(j).filter(pred))
        =~= tags.take(j) + tags.skip(j));
    assert(tags.take(j) + tags.skip(j) =~= tags);
}

} // verus!
