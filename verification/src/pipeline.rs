//! The filter/sort/search pipeline: a pure function from a catalog, the two
//! tri-state filter maps, the show mode, the orphan names, the search text
//! and the sort key to the ordered visible list.

use vstd::prelude::*;
use crate::filter::{
    FilterEntries, FilterMap, FilterState, lemma_state_of_cases, spec_has_include, spec_state_of,
};
use crate::fuzzy::{fuzzy_hit, fuzzy_match};
use crate::pkg::{Package, PackageV, Repository, ShowMode, SortKey};
use crate::sort::{lemma_sort_contains, sort_packages, spec_sort, spec_sorted};
use crate::text::{lemma_filter_all_true, lemma_filter_step, seq_eq_ci, str_eq_ci, vec_contains_string};

verus! {

/// Some entry marks a tag of the package `Include` (exact key match).
pub open spec fn spec_tag_included(tags: Seq<Seq<char>>, tf: FilterEntries) -> bool {
    exists|i: int|
        0 <= i < tf.len() && (#[trigger] tf[i]).1 == FilterState::Include && tags.contains(
            tf[i].0,
        )
}

/// Some entry marks a tag of the package `Exclude` (exact key match).
pub open spec fn spec_tag_excluded(tags: Seq<Seq<char>>, tf: FilterEntries) -> bool {
    exists|i: int|
        0 <= i < tf.len() && (#[trigger] tf[i]).1 == FilterState::Exclude && tags.contains(
            tf[i].0,
        )
}

/// Some entry marks the repository name `Include`, up to ASCII case.
pub open spec fn spec_repo_included(rf: FilterEntries, name: Seq<char>) -> bool {
    exists|i: int|
        0 <= i < rf.len() && (#[trigger] rf[i]).1 == FilterState::Include && seq_eq_ci(
            rf[i].0,
            name,
        )
}

/// Some entry marks the repository name `Exclude`, up to ASCII case.
pub open spec fn spec_repo_excluded(rf: FilterEntries, name: Seq<char>) -> bool {
    exists|i: int|
        0 <= i < rf.len() && (#[trigger] rf[i]).1 == FilterState::Exclude && seq_eq_ci(
            rf[i].0,
            name,
        )
}

/// The show-mode predicate. `AllAvailable` has no install-reason or orphan
/// semantics, so everything passes, as under `AllInstalled`.
pub open spec fn spec_show_ok(p: PackageV, mode: ShowMode, orphans: Seq<Seq<char>>) -> bool {
    match mode {
        ShowMode::AllInstalled => true,
        ShowMode::ExplicitlyInstalled => p.is_explicit,
        ShowMode::Dependencies => !p.is_explicit,
        ShowMode::Orphans => orphans.contains(p.name),
        ShowMode::AllAvailable => true,
    }
}

/// The whole filter predicate, search text aside: tag inclusion (only when
/// some tag is `Include` at all), tag exclusion, the same two steps for the
/// repository, then the show-mode predicate.
pub open spec fn spec_keeps_base(
    p: PackageV,
    tf: FilterEntries,
    rf: FilterEntries,
    mode: ShowMode,
    orphans: Seq<Seq<char>>,
) -> bool {
    &&& (!spec_has_include(tf) || spec_tag_included(p.tags, tf))
    &&& !spec_tag_excluded(p.tags, tf)
    &&& (!spec_has_include(rf) || spec_repo_included(rf, p.repository.spec_name()))
    &&& !spec_repo_excluded(rf, p.repository.spec_name())
    &&& spec_show_ok(p, mode, orphans)
}

/// A package passes the search: no search text, or its name is a fuzzy hit.
pub open spec fn spec_search_ok(p: PackageV, search: Seq<char>) -> bool {
    search.len() == 0 || fuzzy_hit(p.name, search)
}

/// The ordered visible list: the source filtered by `spec_keeps_base`, then
/// by the search, then stably sorted under the key.
pub open spec fn spec_visible(
    source: Seq<PackageV>,
    tf: FilterEntries,
    rf: FilterEntries,
    mode: ShowMode,
    orphans: Seq<Seq<char>>,
    search: Seq<char>,
    key: SortKey,
) -> Seq<PackageV> {
    spec_sort(
        key,
        source.filter(|p: PackageV| spec_keeps_base(p, tf, rf, mode, orphans)).filter(
            |p: PackageV| spec_search_ok(p, search),
        ),
    )
}

fn tag_included_exec(tags: &Vec<String>, tf: &FilterMap) -> (r: bool)
    ensures
        r == spec_tag_included(tags.deep_view(), tf@),
{
    let mut i: usize = 0;
    while i < tf.entries.len()
        invariant
            i <= tf.entries.len(),
            tf@.len() == tf.entries@.len(),
            forall|j: int|
                0 <= j < i ==> !((#[trigger] tf@[j]).1 == FilterState::Include
                    && tags.deep_view().contains(tf@[j].0)),
        decreases tf.entries.len() - i,
    {
        if matches!(tf.entries[i].1, FilterState::Include) {
            if vec_contains_string(tags, tf.entries[i].0.as_str()) {
                assert(tf@[i as int].1 == FilterState::Include && tags.deep_view().contains(
                    tf@[i as int].0,
                ));
                return true;
            }
        }
        assert(!(tf@[i as int].1 == FilterState::Include && tags.deep_view().contains(
            tf@[i as int].0,
        )));
        i = i + 1;
    }
    false
}

fn tag_excluded_exec(tags: &Vec<String>, tf: &FilterMap) -> (r: bool)
    ensures
        r == spec_tag_excluded(tags.deep_view(), tf@),
{
    let mut i: usize = 0;
    while i < tf.entries.len()
        invariant
            i <= tf.entries.len(),
            tf@.len() == tf.entries@.len(),
            forall|j: int|
                0 <= j < i ==> !((#[trigger] tf@[j]).1 == FilterState::Exclude
                    && tags.deep_view().contains(tf@[j].0)),
        decreases tf.entries.len() - i,
    {
        if matches!(tf.entries[i].1, FilterState::Exclude) {
            if vec_contains_string(tags, tf.entries[i].0.as_str()) {
                assert(tf@[i as int].1 == FilterState::Exclude && tags.deep_view().contains(
                    tf@[i as int].0,
                ));
                return true;
            }
        }
        assert(!(tf@[i as int].1 == FilterState::Exclude && tags.deep_view().contains(
            tf@[i as int].0,
        )));
        i = i + 1;
    }
    false
}

fn repo_marked_exec(rf: &FilterMap, name: &str, want: FilterState) -> (r: bool)
    ensures
        want == FilterState::Include ==> r == spec_repo_included(rf@, name@),
        want == FilterState::Exclude ==> r == spec_repo_excluded(rf@, name@),
{
    let mut i: usize = 0;
    while i < rf.entries.len()
        invariant
            i <= rf.entries.len(),
            rf@.len() == rf.entries@.len(),
            forall|j: int|
                0 <= j < i ==> !((#[trigger] rf@[j]).1 == want && seq_eq_ci(rf@[j].0, name@)),
        decreases rf.entries.len() - i,
    {
        if rf.entries[i].1 == want {
            if str_eq_ci(rf.entries[i].0.as_str(), name) {
                assert(rf@[i as int].1 == want && seq_eq_ci(rf@[i as int].0, name@));
                return true;
            }
        }
        assert(!(rf@[i as int].1 == want && seq_eq_ci(rf@[i as int].0, name@)));
        i = i + 1;
    }
    false
}

fn show_ok_exec(p: &Package, mode: ShowMode, orphans: &Vec<String>) -> (r: bool)
    ensures
        r == spec_show_ok(p@, mode, orphans.deep_view()),
{
    match mode {
        ShowMode::AllInstalled => true,
        ShowMode::ExplicitlyInstalled => p.is_explicit,
        ShowMode::Dependencies => !p.is_explicit,
        ShowMode::Orphans => vec_contains_string(orphans, p.name.as_str()),
        ShowMode::AllAvailable => true,
    }
}

fn keeps_base_exec(
    p: &Package,
    tf: &FilterMap,
    rf: &FilterMap,
    has_tag_inc: bool,
    has_repo_inc: bool,
    mode: ShowMode,
    orphans: &Vec<String>,
) -> (r: bool)
    requires
        has_tag_inc == spec_has_include(tf@),
        has_repo_inc == spec_has_include(rf@),
    ensures
        r == spec_keeps_base(p@, tf@, rf@, mode, orphans.deep_view()),
{
    if has_tag_inc && !tag_included_exec(&p.tags, tf) {
        return false;
    }
    if tag_excluded_exec(&p.tags, tf) {
        return false;
    }
    let repo_name = p.repository.name();
    if has_repo_inc && !repo_marked_exec(rf, repo_name.as_str(), FilterState::Include) {
        return false;
    }
    if repo_marked_exec(rf, repo_name.as_str(), FilterState::Exclude) {
        return false;
    }
    show_ok_exec(p, mode, orphans)
}

/// Applies the tag, repository and show-mode filters to a catalog, keeping
/// input order. The search text and the sort are not its business.
pub fn filter_packages(
    packages: &Vec<Package>,
    tag_filters: &FilterMap,
    repo_filters: &FilterMap,
    show_mode: ShowMode,
    orphan_names: &Vec<String>,
) -> (r: Vec<Package>)
    requires
        tag_filters.wf(),
        repo_filters.wf(),
    ensures
        r.deep_view() == packages.deep_view().filter(
            |p: PackageV|
                spec_keeps_base(
                    p,
                    tag_filters@,
                    repo_filters@,
                    show_mode,
                    orphan_names.deep_view(),
                ),
        ),
{
    let ghost pred = |p: PackageV|
        spec_keeps_base(p, tag_filters@, repo_filters@, show_mode, orphan_names.deep_view());
    let has_tag_inc = tag_filters.any_include();
    let has_repo_inc = repo_filters.any_include();
    let mut out: Vec<Package> = Vec::new();
    proof {
        assert(packages.deep_view().take(0).filter(pred) =~= Seq::<PackageV>::empty());
        reveal(Seq::filter);
    }
    let mut i: usize = 0;
    while i < packages.len()
        invariant
            i <= packages.len(),
            packages.deep_view().len() == packages.len(),
            tag_filters.wf(),
            repo_filters.wf(),
            has_tag_inc == spec_has_include(tag_filters@),
            has_repo_inc == spec_has_include(repo_filters@),
            out.deep_view() == packages.deep_view().take(i as int).filter(pred),
            pred == (|p: PackageV|
                spec_keeps_base(
                    p,
                    tag_filters@,
                    repo_filters@,
                    show_mode,
                    orphan_names.deep_view(),
                )),
        decreases packages.len() - i,
    {
        let keep = keeps_base_exec(
            &packages[i],
            tag_filters,
            repo_filters,
            has_tag_inc,
            has_repo_inc,
            show_mode,
            orphan_names,
        );
        proof {
            lemma_filter_step(packages.deep_view(), pred, i as int);
            assert(packages.deep_view()[i as int] == packages@[i as int]@);
        }
        if keep {
            out.push(packages[i].clone());
            proof {
                assert(out.deep_view() =~= packages.deep_view().take(i + 1).filter(pred));
            }
        }
        i = i + 1;
    }
    proof {
        assert(packages.deep_view().take(packages.deep_view().len() as int)
            =~= packages.deep_view());
    }
    out
}

/// The whole pipeline of the visible list. The result is exactly
/// `spec_visible` of the inputs: filtered, searched, and stably sorted.
pub fn compute_visible(
    source: &Vec<Package>,
    tag_filters: &FilterMap,
    repo_filters: &FilterMap,
    show_mode: ShowMode,
    orphan_names: &Vec<String>,
    search_text: &str,
    sort_key: SortKey,
) -> (r: Vec<Package>)
    requires
        tag_filters.wf(),
        repo_filters.wf(),
    ensures
        r.deep_view() == spec_visible(
            source.deep_view(),
            tag_filters@,
            repo_filters@,
            show_mode,
            orphan_names.deep_view(),
            search_text@,
            sort_key,
        ),
        spec_sorted(sort_key, r.deep_view()),
{
    let ghost spred = |p: PackageV| spec_search_ok(p, search_text@);
    let mut kept = filter_packages(source, tag_filters, repo_filters, show_mode, orphan_names);
    let ghost base = kept.deep_view();
    if !search_text.is_empty() {
        let mut searched: Vec<Package> = Vec::new();
        proof {
            assert(base.take(0).filter(spred) =~= Seq::<PackageV>::empty());
            reveal(Seq::filter);
        }
        let mut i: usize = 0;
        while i < kept.len()
            invariant
                i <= kept.len(),
                base == kept.deep_view(),
                base.len() == kept.len(),
                search_text@.len() > 0,
                searched.deep_view() == base.take(i as int).filter(spred),
                spred == (|p: PackageV| spec_search_ok(p, search_text@)),
            decreases kept.len() - i,
        {
            let hit = fuzzy_match(kept[i].name.as_str(), search_text);
            proof {
                lemma_filter_step(base, spred, i as int);
                assert(base[i as int] == kept@[i as int]@);
            }
            if hit.is_some() {
                searched.push(kept[i].clone());
                proof {
                    assert(searched.deep_view() =~= base.take(i + 1).filter(spred));
                }
            }
            i = i + 1;
        }
        proof {
            assert(base.take(base.len() as int) =~= base);
        }
        kept = searched;
    } else {
        proof {
            lemma_filter_all_true(base, spred);
        }
    }
    sort_packages(&mut kept, sort_key);
    kept
}

/// The repository names occurring in a catalog, strictly sorted, each
/// once.
pub fn get_all_repos(packages: &Vec<Package>) -> (r: Vec<String>)
    ensures
        crate::text::str_sorted(r.deep_view()),
        forall|k: Seq<char>|
            r.deep_view().contains(k) <==> exists|i: int|
                0 <= i < packages.deep_view().len() && (#[trigger] packages.deep_view()[i]).repository.spec_name()
                    == k,
{
    let mut out: Vec<String> = Vec::new();
    let mut i: usize = 0;
    while i < packages.len()
        invariant
            i <= packages.len(),
            packages.deep_view().len() == packages.len(),
            crate::text::str_sorted(out.deep_view()),
            forall|k: Seq<char>|
                out.deep_view().contains(k) <==> exists|a: int|
                    0 <= a < i && (#[trigger] packages.deep_view()[a]).repository.spec_name() == k,
        decreases packages.len() - i,
    {
        let name = packages[i].repository.name();
        proof {
            assert(packages.deep_view()[i as int] == packages@[i as int]@);
        }
        crate::text::insert_unique_sorted(&mut out, name.as_str());
        proof {
            assert forall|k: Seq<char>| #![all_triggers] out.deep_view().contains(k) <==> exists|
                a: int,
            | 0 <= a < i + 1 && (#[trigger] packages.deep_view()[a]).repository.spec_name()
                == k by {
                if out.deep_view().contains(k) {
                    if k == name@ {
                        assert(packages.deep_view()[i as int].repository.spec_name() == k);
                    }
                }
            }
        }
        i = i + 1;
    }
    out
}

/// Every entry of the visible list passed the filters and the search, and
/// is a record of the source catalog.
pub proof fn lemma_visible_member(
    source: Seq<PackageV>,
    tf: FilterEntries,
    rf: FilterEntries,
    mode: ShowMode,
    orphans: Seq<Seq<char>>,
    search: Seq<char>,
    key: SortKey,
    i: int,
)
    requires
        0 <= i < spec_visible(source, tf, rf, mode, orphans, search, key).len(),
    ensures
        spec_keeps_base(spec_visible(source, tf, rf, mode, orphans, search, key)[i], tf, rf, mode, orphans),
        spec_search_ok(spec_visible(source, tf, rf, mode, orphans, search, key)[i], search),
        source.contains(spec_visible(source, tf, rf, mode, orphans, search, key)[i]),
{
    broadcast use vstd::prelude::Seq::lemma_filter_pred, vstd::prelude::Seq::lemma_filter_contains_rev;

    let bpred = |p: PackageV| spec_keeps_base(p, tf, rf, mode, orphans);
    let spred = |p: PackageV| spec_search_ok(p, search);
    let f1 = source.filter(bpred);
    let f2 = f1.filter(spred);
    let vis = spec_visible(source, tf, rf, mode, orphans, search, key);
    let x = vis[i];
    assert(vis.contains(x));
    lemma_sort_contains(key, f2, x);
    assert(f2.contains(x));
    let i2 = choose|i2: int| 0 <= i2 < f2.len() && f2[i2] == x;
    assert(spred(f2[i2]));
    assert(f1.contains(x));
    let i1 = choose|i1: int| 0 <= i1 < f1.len() && f1[i1] == x;
    assert(bpred(f1[i1]));
    assert(source.contains(x));
}

/// The pipeline is a pure function: identical inputs give the identical
/// ordered list.
pub proof fn lemma_visible_deterministic(
    source1: Seq<PackageV>,
    source2: Seq<PackageV>,
    tf1: FilterEntries,
    tf2: FilterEntries,
    rf1: FilterEntries,
    rf2: FilterEntries,
    mode1: ShowMode,
    mode2: ShowMode,
    orphans1: Seq<Seq<char>>,
    orphans2: Seq<Seq<char>>,
    search1: Seq<char>,
    search2: Seq<char>,
    key1: SortKey,
    key2: SortKey,
)
    requires
        source1 == source2,
        tf1 == tf2,
        rf1 == rf2,
        mode1 == mode2,
        orphans1 == orphans2,
        search1 == search2,
        key1 == key2,
    ensures
        spec_visible(source1, tf1, rf1, mode1, orphans1, search1, key1) == spec_visible(
            source2,
            tf2,
            rf2,
            mode2,
            orphans2,
            search2,
            key2,
        ),
{
}

/// Tag-filter invariant: when a tag is `Exclude`, no visible package
/// carries it, whatever `Include` entries exist besides.
pub proof fn lemma_exclude_tag_absent(
    source: Seq<PackageV>,
    tf: FilterEntries,
    rf: FilterEntries,
    mode: ShowMode,
    orphans: Seq<Seq<char>>,
    search: Seq<char>,
    key: SortKey,
    t: Seq<char>,
    i: int,
)
    requires
        spec_state_of(tf, t) == FilterState::Exclude,
        0 <= i < spec_visible(source, tf, rf, mode, orphans, search, key).len(),
    ensures
        !spec_visible(source, tf, rf, mode, orphans, search, key)[i].tags.contains(t),
{
    let vis = spec_visible(source, tf, rf, mode, orphans, search, key);
    lemma_visible_member(source, tf, rf, mode, orphans, search, key, i);
    lemma_state_of_cases(tf, t);
    let e = choose|e: int|
        0 <= e < tf.len() && (#[trigger] tf[e]).0 == t && tf[e].1 == spec_state_of(tf, t);
    if vis[i].tags.contains(t) {
        assert(tf[e].1 == FilterState::Exclude && vis[i].tags.contains(tf[e].0));
        assert(spec_tag_excluded(vis[i].tags, tf));
    }
}

/// Show-mode invariant: under `ExplicitlyInstalled` every visible package
/// is explicit, under `Dependencies` none is, under `Orphans` every visible
/// name is an orphan name.
pub proof fn lemma_show_mode_invariant(
    source: Seq<PackageV>,
    tf: FilterEntries,
    rf: FilterEntries,
    mode: ShowMode,
    orphans: Seq<Seq<char>>,
    search: Seq<char>,
    key: SortKey,
    i: int,
)
    requires
        0 <= i < spec_visible(source, tf, rf, mode, orphans, search, key).len(),
    ensures
        mode == ShowMode::ExplicitlyInstalled ==> spec_visible(
            source, tf, rf, mode, orphans, search, key,
        )[i].is_explicit,
        mode == ShowMode::Dependencies ==> !spec_visible(
            source, tf, rf, mode, orphans, search, key,
        )[i].is_explicit,
        mode == ShowMode::Orphans ==> orphans.contains(
            spec_visible(source, tf, rf, mode, orphans, search, key)[i].name,
        ),
{
    lemma_visible_member(source, tf, rf, mode, orphans, search, key, i);
}

} // verus!
