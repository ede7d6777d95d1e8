use pacdash::filter::{FilterMap, FilterState};
use pacdash::pipeline::{compute_visible, filter_packages, get_all_repos};
use pacdash::pkg::{Package, Repository, ShowMode, SortKey};
use pacdash::sort::sort_packages;

fn pkg(name: &str, explicit: bool, tags: &[&str]) -> Package {
    Package {
        name: name.to_string(),
        version: "1.0".to_string(),
        description: String::new(),
        repository: Repository::Core,
        install_date: 0,
        build_date: 0,
        size_kib: 0,
        is_explicit: explicit,
        tags: tags.iter().map(|t| t.to_string()).collect(),
        popularity: None,
        num_votes: None,
    }
}

fn names(v: &[Package]) -> Vec<String> {
    v.iter().map(|p| p.name.clone()).collect()
}

#[test]
fn dependencies_mode_with_tag_filters() {
    // catalog: vim (explicit, no tags), glibc (dependency, tagged core)
    let catalog = vec![pkg("vim", true, &[]), pkg("glibc", false, &["core"])];
    let mut tf = FilterMap::new();
    let rf = FilterMap::new();
    let orphans: Vec<String> = Vec::new();

    let visible = compute_visible(
        &catalog,
        &tf,
        &rf,
        ShowMode::Dependencies,
        &orphans,
        "",
        SortKey::Name,
    );
    assert_eq!(names(&visible), vec!["glibc".to_string()]);

    tf.set("core", FilterState::Include);
    let visible = compute_visible(
        &catalog,
        &tf,
        &rf,
        ShowMode::Dependencies,
        &orphans,
        "",
        SortKey::Name,
    );
    assert_eq!(names(&visible), vec!["glibc".to_string()]);

    tf.set("core", FilterState::Exclude);
    let visible = compute_visible(
        &catalog,
        &tf,
        &rf,
        ShowMode::Dependencies,
        &orphans,
        "",
        SortKey::Name,
    );
    assert!(visible.is_empty());
}

#[test]
fn exclude_beats_include() {
    let catalog = vec![pkg("a", true, &["x", "y"]), pkg("b", true, &["x"])];
    let mut tf = FilterMap::new();
    tf.set("x", FilterState::Include);
    tf.set("y", FilterState::Exclude);
    let rf = FilterMap::new();
    let visible = filter_packages(&catalog, &tf, &rf, ShowMode::AllInstalled, &Vec::new());
    assert_eq!(names(&visible), vec!["b".to_string()]);
}

#[test]
fn include_set_restricts() {
    let catalog = vec![pkg("a", true, &["x"]), pkg("b", true, &[])];
    let mut tf = FilterMap::new();
    tf.set("x", FilterState::Include);
    let rf = FilterMap::new();
    let visible = filter_packages(&catalog, &tf, &rf, ShowMode::AllInstalled, &Vec::new());
    assert_eq!(names(&visible), vec!["a".to_string()]);
}

#[test]
fn repo_filter_is_case_insensitive() {
    let mut core = pkg("a", true, &[]);
    core.repository = Repository::Core;
    let mut aur = pkg("b", true, &[]);
    aur.repository = Repository::AUR;
    let catalog = vec![core, aur];
    let tf = FilterMap::new();
    let mut rf = FilterMap::new();
    rf.set("CORE", FilterState::Include);
    let visible = filter_packages(&catalog, &tf, &rf, ShowMode::AllInstalled, &Vec::new());
    assert_eq!(names(&visible), vec!["a".to_string()]);
    rf.set("CORE", FilterState::Exclude);
    let visible = filter_packages(&catalog, &tf, &rf, ShowMode::AllInstalled, &Vec::new());
    assert_eq!(names(&visible), vec!["b".to_string()]);
}

#[test]
fn explicit_and_orphan_modes() {
    let catalog = vec![pkg("vim", true, &[]), pkg("glibc", false, &[]), pkg("left", false, &[])];
    let tf = FilterMap::new();
    let rf = FilterMap::new();
    let orphans = vec!["left".to_string()];
    let visible = filter_packages(&catalog, &tf, &rf, ShowMode::ExplicitlyInstalled, &orphans);
    assert_eq!(names(&visible), vec!["vim".to_string()]);
    let visible = filter_packages(&catalog, &tf, &rf, ShowMode::Orphans, &orphans);
    assert_eq!(names(&visible), vec!["left".to_string()]);
    let visible = filter_packages(&catalog, &tf, &rf, ShowMode::AllInstalled, &orphans);
    assert_eq!(visible.len(), 3);
}

#[test]
fn search_keeps_fuzzy_hits_only() {
    let catalog = vec![pkg("vim", true, &[]), pkg("glibc", true, &[])];
    let tf = FilterMap::new();
    let rf = FilterMap::new();
    let visible = compute_visible(
        &catalog,
        &tf,
        &rf,
        ShowMode::AllInstalled,
        &Vec::new(),
        "vm",
        SortKey::Name,
    );
    assert_eq!(names(&visible), vec!["vim".to_string()]);
    let visible = compute_visible(
        &catalog,
        &tf,
        &rf,
        ShowMode::AllInstalled,
        &Vec::new(),
        "zzz",
        SortKey::Name,
    );
    assert!(visible.is_empty());
}

#[test]
fn sort_by_name_ascending() {
    let mut v = vec![pkg("pacman", true, &[]), pkg("bash", true, &[]), pkg("vim", true, &[])];
    sort_packages(&mut v, SortKey::Name);
    assert_eq!(
        names(&v),
        vec!["bash".to_string(), "pacman".to_string(), "vim".to_string()]
    );
}

#[test]
fn sort_by_size_descending() {
    let mut a = pkg("a", true, &[]);
    a.size_kib = 10;
    let mut b = pkg("b", true, &[]);
    b.size_kib = 30;
    let mut c = pkg("c", true, &[]);
    c.size_kib = 20;
    let mut v = vec![a, b, c];
    sort_packages(&mut v, SortKey::Size);
    assert_eq!(names(&v), vec!["b".to_string(), "c".to_string(), "a".to_string()]);
}

#[test]
fn sort_by_dates_descending() {
    let mut a = pkg("a", true, &[]);
    a.install_date = 100;
    a.build_date = 5;
    let mut b = pkg("b", true, &[]);
    b.install_date = 300;
    b.build_date = 9;
    let mut c = pkg("c", true, &[]);
    c.install_date = 200;
    c.build_date = 7;
    let mut v = vec![a.clone(), b.clone(), c.clone()];
    sort_packages(&mut v, SortKey::InstallDate);
    assert_eq!(names(&v), vec!["b".to_string(), "c".to_string(), "a".to_string()]);
    let mut v = vec![a, b, c];
    sort_packages(&mut v, SortKey::UpdateDate);
    assert_eq!(names(&v), vec!["b".to_string(), "c".to_string(), "a".to_string()]);
}

#[test]
fn sort_by_popularity_missing_is_lowest() {
    let mut a = pkg("a", true, &[]);
    a.popularity = None;
    let mut b = pkg("b", true, &[]);
    b.popularity = Some(250);
    let mut c = pkg("c", true, &[]);
    c.popularity = Some(100);
    let mut v = vec![a, b, c];
    sort_packages(&mut v, SortKey::Popularity);
    assert_eq!(names(&v), vec!["b".to_string(), "c".to_string(), "a".to_string()]);
}

#[test]
fn sort_is_stable_on_ties() {
    let mut a = pkg("first", true, &[]);
    a.size_kib = 7;
    let mut b = pkg("second", true, &[]);
    b.size_kib = 7;
    let mut c = pkg("third", true, &[]);
    c.size_kib = 7;
    let mut v = vec![a, b, c];
    sort_packages(&mut v, SortKey::Size);
    assert_eq!(
        names(&v),
        vec!["first".to_string(), "second".to_string(), "third".to_string()]
    );
}

#[test]
fn pipeline_is_deterministic() {
    let catalog = vec![pkg("vim", true, &["editor"]), pkg("glibc", false, &["core"])];
    let mut tf = FilterMap::new();
    tf.set("core", FilterState::Include);
    let rf = FilterMap::new();
    let first = compute_visible(
        &catalog,
        &tf,
        &rf,
        ShowMode::AllInstalled,
        &Vec::new(),
        "",
        SortKey::Name,
    );
    let second = compute_visible(
        &catalog,
        &tf,
        &rf,
        ShowMode::AllInstalled,
        &Vec::new(),
        "",
        SortKey::Name,
    );
    assert_eq!(names(&first), names(&second));
}

#[test]
fn all_available_skips_install_predicates() {
    // the available list has no install-reason semantics: everything stays
    let catalog = vec![pkg("x", false, &[]), pkg("y", true, &[])];
    let tf = FilterMap::new();
    let rf = FilterMap::new();
    let visible = filter_packages(&catalog, &tf, &rf, ShowMode::AllAvailable, &Vec::new());
    assert_eq!(visible.len(), 2);
}

#[test]
fn repos_are_listed_sorted_and_unique() {
    let mut a = pkg("a", true, &[]);
    a.repository = Repository::Extra;
    let mut b = pkg("b", true, &[]);
    b.repository = Repository::Core;
    let mut c = pkg("c", true, &[]);
    c.repository = Repository::Extra;
    let repos = get_all_repos(&vec![a, b, c]);
    assert_eq!(repos, vec!["Core".to_string(), "Extra".to_string()]);
}

#[test]
fn tristate_cycle_has_period_three() {
    for s in [FilterState::Ignore, FilterState::Include, FilterState::Exclude] {
        assert_eq!(s.cycle_forward().cycle_forward().cycle_forward(), s);
        assert_eq!(s.cycle_forward().cycle_backward(), s);
        assert_eq!(s.cycle_backward().cycle_forward(), s);
    }
    assert_eq!(FilterState::Ignore.cycle_forward(), FilterState::Include);
    assert_eq!(FilterState::Include.cycle_forward(), FilterState::Exclude);
    assert_eq!(FilterState::Exclude.cycle_forward(), FilterState::Ignore);
}

#[test]
fn filter_map_get_set_and_any_include() {
    let mut fm = FilterMap::new();
    assert_eq!(fm.get("x"), FilterState::Ignore);
    assert!(!fm.any_include());
    fm.set("x", FilterState::Exclude);
    assert_eq!(fm.get("x"), FilterState::Exclude);
    assert!(!fm.any_include());
    fm.set("y", FilterState::Include);
    assert_eq!(fm.get("y"), FilterState::Include);
    assert_eq!(fm.get("x"), FilterState::Exclude);
    assert!(fm.any_include());
    fm.set("y", FilterState::Ignore);
    assert!(!fm.any_include());
}

#[test]
fn repository_from_name() {
    assert_eq!(Repository::from_name("core"), Repository::Core);
    assert_eq!(Repository::from_name("Extra"), Repository::Extra);
    assert_eq!(Repository::from_name("MULTILIB"), Repository::Multilib);
    assert_eq!(Repository::from_name("community"), Repository::Community);
    assert_eq!(Repository::from_name("aur"), Repository::AUR);
    assert_eq!(Repository::from_name("local"), Repository::AUR);
    assert_eq!(Repository::from_name("whatever"), Repository::AUR);
}

#[test]
fn mode_and_key_names() {
    assert_eq!(ShowMode::AllAvailable.name(), "All Available");
    assert_eq!(ShowMode::AllInstalled.name(), "All Installed");
    assert_eq!(SortKey::InstallDate.label(), "Installed Date");
    assert_eq!(Repository::Core.name(), "Core");
}

#[test]
fn sort_key_names_parse_case_insensitively() {
    assert_eq!(SortKey::from_name("name").unwrap(), SortKey::Name);
    assert_eq!(SortKey::from_name("Size").unwrap(), SortKey::Size);
    assert_eq!(SortKey::from_name("INSTALLED").unwrap(), SortKey::InstallDate);
    assert_eq!(SortKey::from_name("updated").unwrap(), SortKey::UpdateDate);
    assert_eq!(SortKey::from_name("popularity").unwrap(), SortKey::Popularity);
    let err = SortKey::from_name("nope").unwrap_err();
    let pacdash::error::AppError::InvalidInput(m) = err;
    assert_eq!(m, "Invalid sort key: nope");
}
