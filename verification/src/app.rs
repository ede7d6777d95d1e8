//! The application: the shared state, the input-mode router, the action
//! and hotkey dispatcher, and the key handlers that coordinate the whole
//! engine.

use vstd::prelude::*;
use vstd::string::StrSliceExecFns;
use crate::config::{Action, ActionTypeV, ActionV, Config, ConfigKey};
use crate::filter::FilterState;
use crate::fuzzy::spec_fuzzy_filter;
use crate::keys::{Area, Key, KeyPress, MouseInput, MouseKind};
use crate::log::{MessageType, OutputLog};
use crate::modal::{
    ActionModalFocus, ActionModalState, FilterFocus, FilterModalState, InputMode, ShowModeState,
    SortState, TagModalFocus, TagModalState, spec_wrap_next,
};
use crate::pipeline::{compute_visible, spec_visible};
use crate::pkg::{Package, PackageV, ShowMode, SortKey};
use crate::sort::spec_sorted;
use crate::tagdb::{TagDb, add_tag, get_all_tags, remove_tag, spec_tags_of, tdb_wf};
use crate::text::{
    find_word_start, insert_char, insert_unique_sorted, join_spec, join_with, pop_char, push_char,
    remove_char, retain_not_equal, spec_word_start, str_eq, str_sorted, trim_spec, trim_str,
    vec_contains_string,
};

verus! {

/// The core data: the two catalogs, the visible list derived from them,
/// and the known tag, repository and orphan names.
pub struct AppState {
    pub packages: Vec<Package>,
    pub available_packages: Vec<Package>,
    pub filtered_packages: Vec<Package>,
    pub all_tags: Vec<String>,
    pub all_repos: Vec<String>,
    pub orphan_package_names: Vec<String>,
}

/// What one background load hands over, as a single bundle.
pub struct LoadedData {
    pub packages: Vec<Package>,
    pub available_packages: Vec<Package>,
    pub all_repos: Vec<String>,
    pub orphan_package_names: Vec<String>,
}

/// The handler of `Normal` mode; it keeps no state of its own.
#[derive(Clone, Copy)]
pub struct NormalState;

/// The handler of `Searching` mode; the buffer it edits lives on the
/// application.
#[derive(Clone, Copy)]
pub struct SearchState;

/// A tag-store change staged by the tag modal and not yet persisted: the
/// candidate store, what changed, and the message to log once the
/// surrounding program confirms the write.
pub struct PendingTagChange {
    pub db: TagDb,
    pub package_name: String,
    pub tag: String,
    pub adding: bool,
    pub message: String,
}

/// The whole application: data, modal states, log, configuration, and the
/// input-mode router's mode.
pub struct App {
    pub state: AppState,
    pub selected_package: Option<usize>,
    pub input_mode: InputMode,
    pub output: OutputLog,
    pub action_state: ActionModalState,
    pub command_to_run: Option<Vec<String>>,
    pub config: Config,
    pub output_log_area: Area,
    pub package_list_area: Area,
    pub search_input: String,
    pub search_cursor_position: usize,
    pub sort_state: SortState,
    pub filter_state: FilterModalState,
    pub tag_state: TagModalState,
    pub normal_state: NormalState,
    pub search_state: SearchState,
    pub show_mode_state: ShowModeState,
    pub tag_db: TagDb,
    /// A tag change staged by the tag modal's Enter commit: a candidate
    /// store for the surrounding program to persist. The live store,
    /// catalog and tag set only change when `finish_tag_commit` adopts
    /// the candidate after a confirmed write; a failed write discards it.
    pub pending_tag_change: Option<PendingTagChange>,
    pub is_loading: bool,
}

impl App {
    /// Validity carried through every handler: the filter maps and the tag
    /// store keep their invariants, the search cursor stays inside the
    /// buffer, and installed packages keep their tag lists sorted.
    pub open spec fn wf(&self) -> bool {
        &&& self.filter_state.wf()
        &&& self.tag_db.wf()
        &&& self.search_cursor_position <= self.search_input@.len()
        &&& forall|i: int|
            0 <= i < self.state.packages.deep_view().len() ==> str_sorted(
                (#[trigger] self.state.packages.deep_view()[i]).tags,
            )
        &&& (match self.pending_tag_change {
            Some(p) => tdb_wf(p.db@),
            None => true,
        })
    }

    /// The catalog the show mode selects as the pipeline's base list.
    pub open spec fn spec_source(&self) -> Seq<PackageV> {
        if self.show_mode_state.active_show_mode == ShowMode::AllAvailable {
            self.state.available_packages.deep_view()
        } else {
            self.state.packages.deep_view()
        }
    }

    /// The derived-list invariant: the visible list is exactly the
    /// pipeline of the current inputs, never hand-edited.
    pub open spec fn visible_ok(&self) -> bool {
        self.state.filtered_packages.deep_view() == spec_visible(
            self.spec_source(),
            self.filter_state.tag_filters@,
            self.filter_state.repo_filters@,
            self.show_mode_state.active_show_mode,
            self.state.orphan_package_names.deep_view(),
            self.search_input@,
            self.sort_state.active_sort_key,
        )
    }

    /// The name of the selected visible package, if the cursor is on one.
    pub open spec fn spec_selected_name(&self) -> Option<Seq<char>> {
        match self.selected_package {
            Some(i) => if i < self.state.filtered_packages.deep_view().len() {
                Some(self.state.filtered_packages.deep_view()[i as int].name)
            } else {
                None
            },
            None => None,
        }
    }

    /// The tag list of the selected visible package; empty without one.
    pub open spec fn spec_selected_tags(&self) -> Seq<Seq<char>> {
        match self.selected_package {
            Some(i) => if i < self.state.filtered_packages.deep_view().len() {
                self.state.filtered_packages.deep_view()[i as int].tags
            } else {
                Seq::empty()
            },
            None => Seq::empty(),
        }
    }
}

/// The log grew by exactly one message with this text and severity; the
/// viewport snapped to it.
pub open spec fn spec_log_gained(
    pre: OutputLog,
    post: OutputLog,
    text: Seq<char>,
    ty: MessageType,
) -> bool {
    &&& post.messages@.len() == pre.messages@.len() + 1
    &&& post.messages@.last().text@ == text
    &&& post.messages@.last().msg_type == ty
    &&& post.messages@.take(pre.messages@.len() as int) == pre.messages@
    &&& post.window_height == pre.window_height
}

/// What one pipeline re-run does: the visible list becomes exactly the
/// pipeline of the current inputs, sorted, with the package cursor rewound;
/// nothing else moves.
pub open spec fn spec_apply_rel(pre: App, post: App) -> bool {
    &&& post.visible_ok()
    &&& post == (App {
        state: post.state,
        selected_package: post.selected_package,
        ..pre
    })
    &&& post.state == (AppState { filtered_packages: post.state.filtered_packages, ..pre.state })
    &&& post.selected_package == if post.state.filtered_packages@.len() == 0 {
        None::<usize>
    } else {
        Some(0usize)
    }
    &&& spec_sorted(post.sort_state.active_sort_key, post.state.filtered_packages.deep_view())
}

impl App {
    /// Rebuilds the visible list through the pipeline and rewinds the
    /// package cursor: index 0 when anything is visible, none otherwise.
    pub fn apply_filters(&mut self)
        requires
            old(self).wf(),
        ensures
            final(self).wf(),
            spec_apply_rel(*old(self), *final(self)),
    {
        let visible = if matches!(self.show_mode_state.active_show_mode, ShowMode::AllAvailable) {
            compute_visible(
                &self.state.available_packages,
                &self.filter_state.tag_filters,
                &self.filter_state.repo_filters,
                self.show_mode_state.active_show_mode,
                &self.state.orphan_package_names,
                self.search_input.as_str(),
                self.sort_state.active_sort_key,
            )
        } else {
            compute_visible(
                &self.state.packages,
                &self.filter_state.tag_filters,
                &self.filter_state.repo_filters,
                self.show_mode_state.active_show_mode,
                &self.state.orphan_package_names,
                self.search_input.as_str(),
                self.sort_state.active_sort_key,
            )
        };
        self.state.filtered_packages = visible;
        self.selected_package = if self.state.filtered_packages.len() == 0 {
            None
        } else {
            Some(0)
        };
        proof {
            assert(self.state.filtered_packages.deep_view().len()
                == self.state.filtered_packages@.len());
        }
    }

    /// Moves the package cursor up, wrapping to the bottom.
    pub fn select_previous_package(&mut self)
        ensures
            *final(self) == (App { selected_package: final(self).selected_package, ..*old(self) }),
            final(self).selected_package == (match old(self).selected_package {
                Some(i) => if i == 0 {
                    if old(self).state.filtered_packages@.len() == 0 {
                        Some(0usize)
                    } else {
                        Some((old(self).state.filtered_packages@.len() - 1) as usize)
                    }
                } else {
                    Some((i - 1) as usize)
                },
                None => Some(0usize),
            }),
    {
        let i: usize = match self.selected_package {
            Some(i) => if i == 0 {
                if self.state.filtered_packages.len() == 0 {
                    0
                } else {
                    self.state.filtered_packages.len() - 1
                }
            } else {
                i - 1
            },
            None => 0,
        };
        self.selected_package = Some(i);
    }

    /// Moves the package cursor down, wrapping to the top.
    pub fn select_next_package(&mut self)
        ensures
            *final(self) == (App { selected_package: final(self).selected_package, ..*old(self) }),
            final(self).selected_package == (match old(self).selected_package {
                Some(i) => if old(self).state.filtered_packages@.len() == 0 || i >= old(self).state.filtered_packages@.len() - 1 {
                    Some(0usize)
                } else {
                    Some((i + 1) as usize)
                },
                None => Some(0usize),
            }),
    {
        let i: usize = match self.selected_package {
            Some(i) => if self.state.filtered_packages.len() == 0 || i
                >= self.state.filtered_packages.len() - 1 {
                0
            } else {
                i + 1
            },
            None => 0,
        };
        self.selected_package = Some(i);
    }

    /// Recomputes the known tag set from the tag store and reseeds the tag
    /// modal's list with it.
    pub fn reload_tags(&mut self)
        requires
            old(self).wf(),
        ensures
            final(self).wf(),
            *final(self) == (App {
                state: final(self).state,
                tag_state: final(self).tag_state,
                ..*old(self)
            }),
            final(self).state == (AppState { all_tags: final(self).state.all_tags, ..old(self).state }),
            str_sorted(final(self).state.all_tags.deep_view()),
            forall|k: Seq<char>|
                final(self).state.all_tags.deep_view().contains(k) <==> exists|i: int|
                    0 <= i < old(self).tag_db@.len() && (#[trigger] old(self).tag_db@[i]).1.contains(
                        k,
                    ),
            final(self).tag_state.input == old(self).tag_state.input,
            final(self).tag_state.focus == old(self).tag_state.focus,
            final(self).tag_state.filtered_tags.deep_view() == if old(self).tag_state.input@.len()
                == 0 {
                final(self).state.all_tags.deep_view()
            } else {
                spec_fuzzy_filter(
                    final(self).state.all_tags.deep_view(),
                    old(self).tag_state.input@,
                )
            },
    {
        let tags = get_all_tags(&self.tag_db);
        self.state.all_tags = tags;
        self.tag_state.update_filtered_tags(&self.state.all_tags);
    }
}

/// Whether a hotkey press lands on this action: the character and shift
/// flag match and the action is a `Command`; `Local` actions never fire
/// from raw hotkeys.
pub open spec fn spec_hotkey_match(a: ActionV, c: char, shift: bool) -> bool {
    a.key.key == c && a.key.shift == shift && a.action_type is Command
}

/// The first action a hotkey press lands on.
pub open spec fn spec_first_hotkey(actions: Seq<ActionV>, c: char, shift: bool) -> Option<int>
    decreases actions.len(),
{
    if actions.len() == 0 {
        None
    } else if spec_hotkey_match(actions[0], c, shift) {
        Some(0)
    } else {
        match spec_first_hotkey(actions.skip(1), c, shift) {
            Some(i) => Some(i + 1),
            None => None,
        }
    }
}

proof fn lemma_first_hotkey_found(actions: Seq<ActionV>, c: char, shift: bool, i: int)
    requires
        0 <= i < actions.len(),
        spec_hotkey_match(actions[i], c, shift),
        forall|j: int| 0 <= j < i ==> !spec_hotkey_match(#[trigger] actions[j], c, shift),
    ensures
        spec_first_hotkey(actions, c, shift) == Some(i),
    decreases i,
{
    if i > 0 {
        lemma_first_hotkey_found(actions.skip(1), c, shift, i - 1);
        assert(actions.skip(1)[i - 1] == actions[i]);
    }
}

proof fn lemma_first_hotkey_none(actions: Seq<ActionV>, c: char, shift: bool)
    requires
        forall|j: int| 0 <= j < actions.len() ==> !spec_hotkey_match(#[trigger] actions[j], c, shift),
    ensures
        spec_first_hotkey(actions, c, shift) is None,
    decreases actions.len(),
{
    if actions.len() > 0 {
        lemma_first_hotkey_none(actions.skip(1), c, shift);
    }
}

/// Finds the first configured action whose hotkey the press lands on.
fn find_hotkey_action(config: &Config, c: char, shift: bool) -> (r: Option<usize>)
    ensures
        match r {
            Some(i) => i < config.actions@.len() && spec_first_hotkey(
                config.actions.deep_view(),
                c,
                shift,
            ) == Some(i as int),
            None => spec_first_hotkey(config.actions.deep_view(), c, shift) is None,
        },
{
    let mut i: usize = 0;
    while i < config.actions.len()
        invariant
            i <= config.actions.len(),
            config.actions.deep_view().len() == config.actions.len(),
            forall|j: int|
                0 <= j < i ==> !spec_hotkey_match(
                    #[trigger] config.actions.deep_view()[j],
                    c,
                    shift,
                ),
        decreases config.actions.len() - i,
    {
        proof {
            assert(config.actions.deep_view()[i as int] == config.actions@[i as int]@);
        }
        let a = &config.actions[i];
        if a.key.key == c && a.key.shift == shift && matches!(a.action_type, ActionType::Command {
            ..
        }) {
            proof {
                lemma_first_hotkey_found(config.actions.deep_view(), c, shift, i as int);
            }
            return Some(i);
        }
        i = i + 1;
    }
    proof {
        lemma_first_hotkey_none(config.actions.deep_view(), c, shift);
    }
    None
}

/// How invoking a `Command` action relates the application before and
/// after: rejection with a warning when the show mode is outside the
/// whitelist or inside the blacklist, rejection with an error when a
/// package is required but none selected, otherwise the templated command
/// is scheduled and the outer loop told to suspend. The selected
/// package's name is substituted for the placeholder whenever a package
/// is selected; the placeholder stays literal only when none is.
pub open spec fn spec_execute_effect(pre: App, post: App, a: ActionV, r: bool) -> bool {
    match a.action_type {
        ActionTypeV::Local => !r && post == pre,
        ActionTypeV::Command { command, requires_package, show_mode_whitelist, show_mode_blacklist } => {
            let mode_name = pre.show_mode_state.active_show_mode.spec_name();
            if show_mode_whitelist.len() > 0 && !show_mode_whitelist.contains(mode_name) {
                &&& !r
                &&& post == (App {
                    input_mode: InputMode::Normal,
                    output: post.output,
                    ..pre
                })
                &&& spec_log_gained(
                    pre.output,
                    post.output,
                    "Action '"@ + a.name + "' can only be run in modes: "@ + join_spec(
                        show_mode_whitelist,
                        ", "@,
                    ),
                    MessageType::Warning,
                )
            } else if show_mode_blacklist.contains(mode_name) {
                &&& !r
                &&& post == (App {
                    input_mode: InputMode::Normal,
                    output: post.output,
                    ..pre
                })
                &&& spec_log_gained(
                    pre.output,
                    post.output,
                    "Action '"@ + a.name + "' cannot be run in mode: "@ + mode_name,
                    MessageType::Warning,
                )
            } else if requires_package && pre.spec_selected_name() is None {
                &&& !r
                &&& post == (App {
                    input_mode: InputMode::Normal,
                    output: post.output,
                    ..pre
                })
                &&& spec_log_gained(
                    pre.output,
                    post.output,
                    "Action '"@ + a.name + "' requires a selected package."@,
                    MessageType::Error,
                )
            } else {
                let pn = pre.spec_selected_name();
                &&& r
                &&& post == (App { command_to_run: post.command_to_run, ..pre })
                &&& (post.command_to_run matches Some(cmd) && cmd.deep_view().len()
                    == command.len() && (forall|i: int|
                    0 <= i < command.len() ==> #[trigger] cmd.deep_view()[i]
                        == crate::config::spec_template_part(command[i], pn)))
            }
        },
    }
}

use crate::config::ActionType;

/// How updating the selected package's in-memory tag list relates the
/// catalog before and after: only the first package of that name changes,
/// and only its tag list.
pub open spec fn spec_pkgs_tag_update(
    pre: Seq<PackageV>,
    post: Seq<PackageV>,
    pname: Seq<char>,
    t: Seq<char>,
    adding: bool,
) -> bool {
    &&& post.len() == pre.len()
    &&& forall|j: int|
        0 <= j < pre.len() && (#[trigger] pre[j]).name != pname ==> #[trigger] post[j] == pre[j]
    &&& forall|j: int|
        0 <= j < pre.len() && (#[trigger] pre[j]).name == pname && (exists|j2: int|
            0 <= j2 < j && (#[trigger] pre[j2]).name == pname) ==> #[trigger] post[j] == pre[j]
    &&& forall|j: int|
        0 <= j < pre.len() && (#[trigger] pre[j]).name == pname && (forall|j2: int|
            0 <= j2 < j ==> (#[trigger] pre[j2]).name != pname) ==> {
            &&& #[trigger] post[j] == (PackageV { tags: post[j].tags, ..pre[j] })
            &&& (adding ==> {
                &&& (pre[j].tags.contains(t) ==> post[j].tags == pre[j].tags)
                &&& (!pre[j].tags.contains(t) ==> exists|k: int|
                    0 <= k <= pre[j].tags.len() && post[j].tags == pre[j].tags.insert(k, t))
            })
            &&& (!adding ==> post[j].tags == pre[j].tags.filter(crate::text::neq_pred(t)))
        }
}

impl App {
    /// Invokes a configured action: enforces the show-mode whitelist and
    /// blacklist and the required selection, then schedules the templated
    /// command; `Local` actions are not its business.
    pub fn execute_config_action(&mut self, action: &Action) -> (r: bool)
        requires
            old(self).wf(),
        ensures
            final(self).wf(),
            spec_execute_effect(*old(self), *final(self), action@, r),
    {
        let (command_template, requires_package, wl, bl) = match &action.action_type {
            ActionType::Command {
                command,
                requires_package,
                show_mode_whitelist,
                show_mode_blacklist,
            } => (command, *requires_package, show_mode_whitelist, show_mode_blacklist),
            ActionType::Local => {
                return false;
            },
        };
        let mode_name = self.show_mode_state.active_show_mode.name();
        if wl.len() > 0 && !vec_contains_string(wl, mode_name.as_str()) {
            let mut msg = String::from_str("Action '");
            msg.append(action.name.as_str());
            msg.append("' can only be run in modes: ");
            let joined = join_with(wl, ", ");
            msg.append(joined.as_str());
            self.output.warn(msg);
            self.input_mode = InputMode::Normal;
            return false;
        }
        if vec_contains_string(bl, mode_name.as_str()) {
            let mut msg = String::from_str("Action '");
            msg.append(action.name.as_str());
            msg.append("' cannot be run in mode: ");
            msg.append(mode_name.as_str());
            self.output.warn(msg);
            self.input_mode = InputMode::Normal;
            return false;
        }
        let mut package_name: Option<String> = None;
        match self.selected_package {
            Some(idx) => {
                if idx < self.state.filtered_packages.len() {
                    package_name = Some(self.state.filtered_packages[idx].name.clone());
                }
            },
            None => {},
        }
        if requires_package && package_name.is_none() {
            let mut msg = String::from_str("Action '");
            msg.append(action.name.as_str());
            msg.append("' requires a selected package.");
            self.output.error(msg);
            self.input_mode = InputMode::Normal;
            return false;
        }
        let resolved = match &package_name {
            Some(p) => crate::config::template_command(command_template, Some(p.as_str())),
            None => crate::config::template_command(command_template, None),
        };
        match resolved {
            Ok(cmd) => {
                self.command_to_run = Some(cmd);
            },
            Err(_) => {
                self.command_to_run = Some(Vec::new());
                proof {
                    assert(false);
                }
            },
        }
        true
    }

    /// A fresh application around a loaded (or defaulted) configuration
    /// and the tag store; the catalogs stay empty until the first load
    /// arrives.
    pub fn new(config_result: Result<Config, String>, tag_db: TagDb) -> (r: App)
        requires
            tag_db.wf(),
        ensures
            r.wf(),
            r.visible_ok(),
            r.input_mode == InputMode::Normal,
            r.is_loading,
            r.command_to_run is None,
            r.pending_tag_change is None,
            r.tag_db == tag_db,
            r.state.packages@.len() == 0,
            r.state.available_packages@.len() == 0,
            r.state.filtered_packages@.len() == 0,
            r.state.all_repos@.len() == 0,
            r.state.orphan_package_names@.len() == 0,
            str_sorted(r.state.all_tags.deep_view()),
            forall|k: Seq<char>|
                r.state.all_tags.deep_view().contains(k) <==> exists|i: int|
                    0 <= i < tag_db@.len() && (#[trigger] tag_db@[i]).1.contains(k),
            r.selected_package is None,
            r.search_input@.len() == 0,
            r.search_cursor_position == 0,
            r.sort_state.active_sort_key == SortKey::Name,
            r.show_mode_state.active_show_mode == ShowMode::AllInstalled,
            config_result matches Ok(cfg) ==> r.config == cfg && r.output.messages@.len() == 1
                && r.output.messages@.last().text@ == "Successfully loaded config."@
                && r.output.messages@.last().msg_type == MessageType::Info,
            config_result matches Err(e) ==> r.config.actions.deep_view()
                == crate::config::spec_default_actions() && r.output.messages@.len() == 2
                && r.output.messages@[0].text@ == "Config Error: "@ + e@
                && r.output.messages@[0].msg_type == MessageType::Error
                && r.output.messages@[1].text@ == "Using default config."@
                && r.output.messages@[1].msg_type == MessageType::Warning,
    {
        let mut log = OutputLog::new();
        let config = match config_result {
            Ok(cfg) => {
                log.info(String::from_str("Successfully loaded config."));
                cfg
            },
            Err(e) => {
                let mut msg = String::from_str("Config Error: ");
                msg.append(e.as_str());
                log.error(msg);
                log.warn(String::from_str("Using default config."));
                Config::default()
            },
        };
        let all_tags = get_all_tags(&tag_db);
        let empty_repos: Vec<String> = Vec::new();
        let filter_state = FilterModalState::new(&all_tags, &empty_repos);
        let tag_state = TagModalState::new(&all_tags);
        let state = AppState {
            packages: Vec::new(),
            available_packages: Vec::new(),
            filtered_packages: Vec::new(),
            all_tags,
            all_repos: Vec::new(),
            orphan_package_names: Vec::new(),
        };
        let r = App {
            state,
            selected_package: None,
            input_mode: InputMode::Normal,
            output: log,
            action_state: ActionModalState::new(),
            command_to_run: None,
            config,
            output_log_area: Area::empty(),
            package_list_area: Area::empty(),
            search_input: String::new(),
            search_cursor_position: 0,
            sort_state: SortState::new(),
            filter_state,
            tag_state,
            normal_state: NormalState,
            search_state: SearchState,
            show_mode_state: ShowModeState::new(),
            tag_db,
            pending_tag_change: None,
            is_loading: true,
        };
        proof {
            lemma_visible_empty(
                r.filter_state.tag_filters@,
                r.filter_state.repo_filters@,
                r.show_mode_state.active_show_mode,
                r.state.orphan_package_names.deep_view(),
                r.search_input@,
                r.sort_state.active_sort_key,
            );
            assert(r.state.packages.deep_view() =~= Seq::<PackageV>::empty());
            assert(r.state.filtered_packages.deep_view() =~= Seq::<PackageV>::empty());
        }
        r
    }

    /// Swaps in a freshly loaded catalog bundle: the catalogs are replaced
    /// wholesale, the modal seed data is rebuilt, and the pipeline runs
    /// once.
    pub fn on_data_loaded(&mut self, data: LoadedData)
        requires
            old(self).wf(),
            forall|i: int|
                0 <= i < data.packages.deep_view().len() ==> str_sorted(
                    (#[trigger] data.packages.deep_view()[i]).tags,
                ),
        ensures
            final(self).wf(),
            final(self).visible_ok(),
            !final(self).is_loading,
            final(self).state.packages == data.packages,
            final(self).state.available_packages == data.available_packages,
            final(self).state.all_repos == data.all_repos,
            final(self).state.orphan_package_names == data.orphan_package_names,
            str_sorted(final(self).state.all_tags.deep_view()),
            forall|k: Seq<char>|
                final(self).state.all_tags.deep_view().contains(k) <==> exists|i: int|
                    0 <= i < old(self).tag_db@.len() && (#[trigger] old(self).tag_db@[i]).1.contains(
                        k,
                    ),
            final(self).filter_state.tag_filters@ =~= Seq::<(Seq<char>, FilterState)>::empty(),
            final(self).filter_state.repo_filters@ =~= Seq::<(Seq<char>, FilterState)>::empty(),
            final(self).selected_package == if final(self).state.filtered_packages@.len() == 0 {
                None::<usize>
            } else {
                Some(0usize)
            },
            *final(self) == (App {
                state: final(self).state,
                selected_package: final(self).selected_package,
                filter_state: final(self).filter_state,
                tag_state: final(self).tag_state,
                is_loading: false,
                ..*old(self)
            }),
    {
        self.state.packages = data.packages;
        self.state.available_packages = data.available_packages;
        self.state.all_repos = data.all_repos;
        self.state.orphan_package_names = data.orphan_package_names;
        let tags = get_all_tags(&self.tag_db);
        self.state.all_tags = tags;
        self.filter_state = FilterModalState::new(&self.state.all_tags, &self.state.all_repos);
        self.tag_state = TagModalState::new(&self.state.all_tags);
        self.is_loading = false;
        self.apply_filters();
    }

    /// The tag list of the selected visible package, as owned strings.
    fn selected_tags_vec(&self) -> (r: Vec<String>)
        ensures
            r.deep_view() == self.spec_selected_tags(),
    {
        match self.selected_package {
            Some(idx) => {
                if idx < self.state.filtered_packages.len() {
                    let r = self.state.filtered_packages[idx].tags.clone();
                    proof {
                        assert(r.deep_view() =~= self.state.filtered_packages@[idx as int].tags.deep_view());
                        assert(self.state.filtered_packages.deep_view()[idx as int]
                            == self.state.filtered_packages@[idx as int]@);
                    }
                    r
                } else {
                    let r: Vec<String> = Vec::new();
                    proof {
                        assert(r.deep_view() =~= Seq::<Seq<char>>::empty());
                    }
                    r
                }
            },
            None => {
                let r: Vec<String> = Vec::new();
                proof {
                    assert(r.deep_view() =~= Seq::<Seq<char>>::empty());
                }
                r
            },
        }
    }

    /// Updates the in-memory copy of the named installed package after a
    /// tag-store change: its tag list gains or loses the tag.
    fn update_package_tags(&mut self, pkg_name: &str, tag: &str, adding: bool)
        requires
            old(self).wf(),
        ensures
            final(self).wf(),
            *final(self) == (App { state: final(self).state, ..*old(self) }),
            final(self).state == (AppState { packages: final(self).state.packages, ..old(self).state }),
            spec_pkgs_tag_update(
                old(self).state.packages.deep_view(),
                final(self).state.packages.deep_view(),
                pkg_name@,
                tag@,
                adding,
            ),
    {
        let ghost pre = self.state.packages.deep_view();
        let mut j: usize = 0;
        while j < self.state.packages.len()
            invariant
                *self == *old(self),
                old(self).wf(),
                pre == self.state.packages.deep_view(),
                j <= self.state.packages.len(),
                pre.len() == self.state.packages.len(),
                forall|j2: int| 0 <= j2 < j ==> (#[trigger] pre[j2]).name != pkg_name@,
            decreases self.state.packages.len() - j,
        {
            proof {
                assert(pre[j as int] == self.state.packages@[j as int]@);
                assert(str_sorted(pre[j as int].tags));
            }
            if str_eq(self.state.packages[j].name.as_str(), pkg_name) {
                let mut pkg = self.state.packages[j].clone();
                assert(pkg@.tags == pre[j as int].tags);
                if adding {
                    insert_unique_sorted(&mut pkg.tags, tag);
                } else {
                    pkg.tags = retain_not_equal(&pkg.tags, tag);
                    proof {
                        crate::text::lemma_filter_sorted(
                            pre[j as int].tags,
                            crate::text::neq_pred(tag@),
                        );
                    }
                }
                let ghost pkgv = pkg@;
                self.state.packages.set(j, pkg);
                proof {
                    let post = self.state.packages.deep_view();
                    assert(post =~= pre.update(j as int, pkgv));
                    assert(post[j as int] == (PackageV { tags: post[j as int].tags, ..pre[j as int] }));
                    assert forall|i: int|
                        0 <= i < self.state.packages.deep_view().len() implies str_sorted(
                        (#[trigger] self.state.packages.deep_view()[i]).tags,
                    ) by {
                        if i != j {
                            assert(post[i] == pre[i]);
                        }
                    }
                }
                return ;
            }
            j = j + 1;
        }
    }

    /// Opens the tag modal for adding: list seeded with every known tag,
    /// input cleared, focus on the input.
    fn enter_tagging(&mut self)
        ensures
            *final(self) == (App {
                input_mode: InputMode::Tagging,
                tag_state: final(self).tag_state,
                ..*old(self)
            }),
            final(self).tag_state.input@.len() == 0,
            final(self).tag_state.filtered_tags.deep_view() == old(self).state.all_tags.deep_view(),
            final(self).tag_state.selection == Some(0usize),
            final(self).tag_state.focus == TagModalFocus::Input,
    {
        self.input_mode = InputMode::Tagging;
        self.tag_state.input = String::new();
        self.tag_state.update_filtered_tags(&self.state.all_tags);
        self.tag_state.selection = Some(0);
        self.tag_state.focus = TagModalFocus::Input;
    }

    /// Opens the tag modal for removing when the selected package has tags
    /// to remove, and warns otherwise.
    fn enter_untagging(&mut self)
        ensures
            spec_enter_untagging_effect(*old(self), *final(self)),
    {
        let package_tags = self.selected_tags_vec();
        if package_tags.len() > 0 {
            self.input_mode = InputMode::Untagging;
            self.tag_state.input = String::new();
            self.tag_state.update_filtered_tags(&package_tags);
            self.tag_state.selection = Some(0);
            self.tag_state.focus = TagModalFocus::Input;
            proof {
                assert(package_tags.deep_view().len() == package_tags@.len());
            }
        } else {
            self.output.warn(String::from_str("Selected package has no tags to remove."));
            self.input_mode = InputMode::Normal;
            proof {
                assert(package_tags.deep_view().len() == package_tags@.len());
            }
        }
    }
}

/// How opening the remove-tag modal relates the application before and
/// after: seeded with the selected package's tags when it has any, a
/// warning otherwise.
pub open spec fn spec_enter_untagging_effect(pre: App, post: App) -> bool {
    if pre.spec_selected_tags().len() > 0 {
        &&& post == (App {
            input_mode: InputMode::Untagging,
            tag_state: post.tag_state,
            ..pre
        })
        &&& post.tag_state.input@.len() == 0
        &&& post.tag_state.filtered_tags.deep_view() == pre.spec_selected_tags()
        &&& post.tag_state.selection == Some(0usize)
        &&& post.tag_state.focus == TagModalFocus::Input
    } else {
        &&& post == (App { input_mode: InputMode::Normal, output: post.output, ..pre })
        &&& spec_log_gained(
            pre.output,
            post.output,
            "Selected package has no tags to remove."@,
            MessageType::Warning,
        )
    }
}

impl SortState {
    /// What one key in the sort modal does to the application: the
    /// relation its handler and the router both promise.
    pub open spec fn spec_key_effect(pre: App, post: App, key: KeyPress) -> bool {
        &&& (post == (App {
                sort_state: post.sort_state,
                input_mode: post.input_mode,
                ..pre
            }))
        &&& (post.sort_state.options == pre.sort_state.options)
        &&& ((key.code == Key::Up || key.code == Key::Char('k')) ==> post.input_mode == pre.input_mode && post.sort_state.active_sort_key == pre.sort_state.active_sort_key && post.sort_state.selection == Some(
                (match pre.sort_state.selection {
                    Some(i) => if i == 0 {
                        if pre.sort_state.options@.len() == 0 {
                            0int
                        } else {
                            pre.sort_state.options@.len() - 1
                        }
                    } else {
                        i - 1
                    },
                    None => 0int,
                }) as usize,
            ))
        &&& ((key.code == Key::Down || key.code == Key::Char('j')) ==> post.input_mode == pre.input_mode && post.sort_state.active_sort_key == pre.sort_state.active_sort_key && post.sort_state.selection == Some(
                spec_wrap_next(
                    pre.sort_state.selection,
                    pre.sort_state.options@.len() as int,
                ) as usize,
            ))
        &&& (key.code == Key::Enter ==> post.input_mode == InputMode::Normal && post.sort_state.selection == pre.sort_state.selection && post.sort_state.active_sort_key == (match pre.sort_state.selection {
                Some(i) => if i < pre.sort_state.options@.len() {
                    pre.sort_state.options@[i as int]
                } else {
                    pre.sort_state.active_sort_key
                },
                None => pre.sort_state.active_sort_key,
            }))
        &&& ((key.code == Key::Esc || key.code == Key::Char('q')) ==> post.input_mode
                == InputMode::Normal && post.sort_state == pre.sort_state)
        &&& (!(key.code == Key::Up || key.code == Key::Char('k') || key.code == Key::Down
                || key.code == Key::Char('j') || key.code == Key::Enter || key.code == Key::Esc
                || key.code == Key::Char('q')) ==> post == pre)
    }

    /// One key in the sort modal: navigate the fixed list, commit with
    /// Enter, leave with Esc or `q`.
    pub fn handle_key_event(app: &mut App, key: KeyPress) -> (r: bool)
        requires
            old(app).wf(),
        ensures
            !r,
            final(app).wf(),
            Self::spec_key_effect(*old(app), *final(app), key),
    {
        match key.code {
            Key::Up | Key::Char('k') => app.sort_state.select_previous(),
            Key::Down | Key::Char('j') => app.sort_state.select_next(),
            Key::Enter => {
                match app.sort_state.selection {
                    Some(sel) => {
                        if sel < app.sort_state.options.len() {
                            app.sort_state.active_sort_key = app.sort_state.options[sel];
                        }
                    },
                    None => {},
                }
                app.input_mode = InputMode::Normal;
            },
            Key::Esc | Key::Char('q') => {
                app.input_mode = InputMode::Normal;
            },
            _ => {},
        }
        false
    }
}

impl ShowModeState {
    /// What one key in the show-mode modal does to the application: the
    /// relation its handler and the router both promise.
    pub open spec fn spec_key_effect(pre: App, post: App, key: KeyPress) -> bool {
        &&& (post == (App {
                show_mode_state: post.show_mode_state,
                input_mode: post.input_mode,
                ..pre
            }))
        &&& (post.show_mode_state.options == pre.show_mode_state.options)
        &&& ((key.code == Key::Up || key.code == Key::Char('k')) ==> post.input_mode == pre.input_mode && post.show_mode_state.active_show_mode == pre.show_mode_state.active_show_mode && post.show_mode_state.selection == Some(
                (match pre.show_mode_state.selection {
                    Some(i) => if i == 0 {
                        if pre.show_mode_state.options@.len() == 0 {
                            0int
                        } else {
                            pre.show_mode_state.options@.len() - 1
                        }
                    } else {
                        i - 1
                    },
                    None => 0int,
                }) as usize,
            ))
        &&& ((key.code == Key::Down || key.code == Key::Char('j')) ==> post.input_mode == pre.input_mode && post.show_mode_state.active_show_mode == pre.show_mode_state.active_show_mode && post.show_mode_state.selection == Some(
                spec_wrap_next(
                    pre.show_mode_state.selection,
                    pre.show_mode_state.options@.len() as int,
                ) as usize,
            ))
        &&& (key.code == Key::Enter ==> post.input_mode == InputMode::Normal && post.show_mode_state.selection == pre.show_mode_state.selection && post.show_mode_state.active_show_mode == (match pre.show_mode_state.selection {
                Some(i) => if i < pre.show_mode_state.options@.len() {
                    pre.show_mode_state.options@[i as int]
                } else {
                    pre.show_mode_state.active_show_mode
                },
                None => pre.show_mode_state.active_show_mode,
            }))
        &&& ((key.code == Key::Esc || key.code == Key::Char('q')) ==> post.input_mode
                == InputMode::Normal && post.show_mode_state == pre.show_mode_state)
        &&& (!(key.code == Key::Up || key.code == Key::Char('k') || key.code == Key::Down
                || key.code == Key::Char('j') || key.code == Key::Enter || key.code == Key::Esc
                || key.code == Key::Char('q')) ==> post == pre)
    }

    /// One key in the show-mode modal: navigate the fixed list, commit
    /// with Enter, leave with Esc or `q`.
    pub fn handle_key_event(app: &mut App, key: KeyPress) -> (r: bool)
        requires
            old(app).wf(),
        ensures
            !r,
            final(app).wf(),
            Self::spec_key_effect(*old(app), *final(app), key),
    {
        match key.code {
            Key::Up | Key::Char('k') => app.show_mode_state.select_previous(),
            Key::Down | Key::Char('j') => app.show_mode_state.select_next(),
            Key::Enter => {
                match app.show_mode_state.selection {
                    Some(sel) => {
                        if sel < app.show_mode_state.options.len() {
                            app.show_mode_state.active_show_mode = app.show_mode_state.options[sel];
                        }
                    },
                    None => {},
                }
                app.input_mode = InputMode::Normal;
            },
            Key::Esc | Key::Char('q') => {
                app.input_mode = InputMode::Normal;
            },
            _ => {},
        }
        false
    }
}

impl SearchState {
    /// What one key while searching does to the application: the
    /// relation its handler and the router both promise.
    pub open spec fn spec_key_effect(pre: App, post: App, key: KeyPress) -> bool {
        &&& (post == (App {
                search_input: post.search_input,
                search_cursor_position: post.search_cursor_position,
                state: post.state,
                selected_package: post.selected_package,
                input_mode: post.input_mode,
                ..pre
            }))
        &&& (post.state == (AppState {
                filtered_packages: post.state.filtered_packages,
                ..pre.state
            }))
        &&& ((key.ctrl && (key.code == Key::Char('w') || key.code == Key::Backspace)) ==> {
                let k = spec_word_start(
                    pre.search_input@,
                    pre.search_cursor_position as int,
                );
                &&& post.search_input@ == pre.search_input@.take(k) + pre.search_input@.skip(pre.search_cursor_position as int)
                &&& post.search_cursor_position == k
                &&& post.visible_ok()
                &&& post.input_mode == pre.input_mode
            })
        &&& (!(key.ctrl && (key.code == Key::Char('w') || key.code == Key::Backspace)) ==> {
                &&& (key.code matches Key::Char(c) ==> (if pre.search_input@.len() < usize::MAX {
                    &&& post.search_input@ == pre.search_input@.insert(pre.search_cursor_position as int, c)
                    &&& post.search_cursor_position == pre.search_cursor_position + 1
                    &&& post.visible_ok()
                    &&& post.input_mode == pre.input_mode
                } else {
                    post == pre
                }))
                &&& (key.code == Key::Backspace ==> (if pre.search_cursor_position > 0 {
                    &&& post.search_input@ == pre.search_input@.remove(
                        pre.search_cursor_position - 1,
                    )
                    &&& post.search_cursor_position == pre.search_cursor_position - 1
                    &&& post.visible_ok()
                    &&& post.input_mode == pre.input_mode
                } else {
                    post == pre
                }))
                &&& (key.code == Key::Left ==> post == (App {
                    search_cursor_position: if pre.search_cursor_position > 0 {
                        (pre.search_cursor_position - 1) as usize
                    } else {
                        0usize
                    },
                    ..pre
                }))
                &&& (key.code == Key::Right ==> post == (App {
                    search_cursor_position: if pre.search_cursor_position < pre.search_input@.len() {
                        (pre.search_cursor_position + 1) as usize
                    } else {
                        pre.search_cursor_position
                    },
                    ..pre
                }))
                &&& (key.code == Key::Enter ==> post == (App {
                    input_mode: InputMode::Normal,
                    ..pre
                }))
                &&& (key.code == Key::Esc ==> post.search_input@.len() == 0 && post.search_cursor_position == 0 && post.visible_ok() && post.input_mode
                    == InputMode::Normal)
                &&& (!(key.code matches Key::Char(_) || key.code == Key::Backspace || key.code
                    == Key::Left || key.code == Key::Right || key.code == Key::Enter || key.code
                    == Key::Esc) ==> post == pre)
            })
    }

    /// One key while searching: every edit of the search text re-runs the
    /// pipeline at once; Enter keeps the text and returns to `Normal`,
    /// Esc clears it first.
    pub fn handle_key_event(app: &mut App, key: KeyPress) -> (r: bool)
        requires
            old(app).wf(),
        ensures
            !r,
            final(app).wf(),
            Self::spec_key_effect(*old(app), *final(app), key),
    {
        if key.ctrl && (matches!(key.code, Key::Char('w')) || matches!(key.code, Key::Backspace)) {
            let cursor = app.search_cursor_position;
            let len = app.search_input.as_str().unicode_len();
            let k = find_word_start(app.search_input.as_str(), cursor);
            let mut s2 = String::from_str(app.search_input.as_str().substring_char(0, k));
            s2.append(app.search_input.as_str().substring_char(cursor, len));
            proof {
                assert(s2@ =~= app.search_input@.take(k as int) + app.search_input@.skip(
                    cursor as int,
                ));
            }
            app.search_input = s2;
            app.search_cursor_position = k;
            app.apply_filters();
            return false;
        }
        match key.code {
            Key::Char(c) => {
                let len = app.search_input.as_str().unicode_len();
                if len < usize::MAX {
                    insert_char(&mut app.search_input, app.search_cursor_position, c);
                    app.search_cursor_position = app.search_cursor_position + 1;
                    app.apply_filters();
                }
            },
            Key::Backspace => {
                if app.search_cursor_position > 0 {
                    app.search_cursor_position = app.search_cursor_position - 1;
                    remove_char(&mut app.search_input, app.search_cursor_position);
                    app.apply_filters();
                }
            },
            Key::Left => {
                if app.search_cursor_position > 0 {
                    app.search_cursor_position = app.search_cursor_position - 1;
                }
            },
            Key::Right => {
                if app.search_cursor_position < app.search_input.as_str().unicode_len() {
                    app.search_cursor_position = app.search_cursor_position + 1;
                }
            },
            Key::Enter => {
                app.input_mode = InputMode::Normal;
            },
            Key::Esc => {
                app.search_input = String::new();
                app.search_cursor_position = 0;
                app.apply_filters();
                app.input_mode = InputMode::Normal;
            },
            _ => {},
        }
        false
    }
}

impl App {
    /// A mouse scroll: inside the package list it moves the package
    /// cursor, inside the log it scrolls the log; outside `Normal` mode it
    /// does nothing.
    pub fn handle_mouse(&mut self, m: MouseInput)
        ensures
            old(self).input_mode != InputMode::Normal ==> *final(self) == *old(self),
            old(self).input_mode == InputMode::Normal ==> {
                let in_pkg = old(self).package_list_area.spec_contains(m.row, m.column);
                let in_log = old(self).output_log_area.spec_contains(m.row, m.column);
                &&& *final(self) == (App {
                    selected_package: final(self).selected_package,
                    output: final(self).output,
                    ..*old(self)
                })
                &&& ((in_pkg && m.kind == MouseKind::ScrollUp) ==> final(self).selected_package
                    == (match old(self).selected_package {
                    Some(i) => if i == 0 {
                        if old(self).state.filtered_packages@.len() == 0 {
                            Some(0usize)
                        } else {
                            Some((old(self).state.filtered_packages@.len() - 1) as usize)
                        }
                    } else {
                        Some((i - 1) as usize)
                    },
                    None => Some(0usize),
                }))
                &&& ((in_pkg && m.kind == MouseKind::ScrollDown) ==> final(self).selected_package
                    == (match old(self).selected_package {
                    Some(i) => if old(self).state.filtered_packages@.len() == 0 || i >= old(self).state.filtered_packages@.len() - 1 {
                        Some(0usize)
                    } else {
                        Some((i + 1) as usize)
                    },
                    None => Some(0usize),
                }))
                &&& (!(in_pkg && (m.kind == MouseKind::ScrollUp || m.kind == MouseKind::ScrollDown))
                    ==> final(self).selected_package == old(self).selected_package)
                &&& (in_log ==> final(self).output.messages@ == old(self).output.messages@ && final(self).output.window_height == old(self).output.window_height)
                &&& ((in_log && m.kind == MouseKind::ScrollUp) ==> final(self).output.scroll_position
                    == if old(self).output.scroll_position >= 1 {
                    old(self).output.scroll_position - 1
                } else {
                    0int
                })
                &&& ((in_log && m.kind == MouseKind::ScrollDown) ==> final(self).output.scroll_position == if old(self).output.scroll_position + 1 <= old(self).output.spec_max_scroll() {
                    old(self).output.scroll_position + 1
                } else {
                    old(self).output.spec_max_scroll()
                })
                &&& (!(in_log && (m.kind == MouseKind::ScrollUp || m.kind == MouseKind::ScrollDown))
                    ==> final(self).output == old(self).output)
            },
    {
        if !matches!(self.input_mode, InputMode::Normal) {
            return ;
        }
        if self.package_list_area.contains(m.row, m.column) {
            match m.kind {
                MouseKind::ScrollUp => self.select_previous_package(),
                MouseKind::ScrollDown => self.select_next_package(),
                MouseKind::Other => {},
            }
        }
        if self.output_log_area.contains(m.row, m.column) {
            match m.kind {
                MouseKind::ScrollUp => self.output.scroll_up(1),
                MouseKind::ScrollDown => self.output.scroll_down(1),
                MouseKind::Other => {},
            }
        }
    }
}

/// How the tag modal's Enter commit relates the application before and
/// after: with a selected package and non-blank trimmed input, a
/// candidate store carrying the change is staged for the surrounding
/// program to persist, while the live store, catalog and tag set stay at
/// their last good value until `finish_tag_commit` adopts the candidate.
/// Removing a tag the package does not carry fails on the spot, and a
/// blank input or missing selection changes nothing.
pub open spec fn spec_tag_commit_effect(pre: App, post: App) -> bool {
    let adding = pre.input_mode == InputMode::Tagging;
    let t = trim_spec(pre.tag_state.input@);
    let untouched = {
        &&& post.tag_db == pre.tag_db
        &&& post.state.packages == pre.state.packages
        &&& post.state.all_tags == pre.state.all_tags
    };
    let nochange = {
        &&& untouched
        &&& post.output == pre.output
        &&& post.pending_tag_change == pre.pending_tag_change
    };
    match pre.spec_selected_name() {
        None => nochange,
        Some(pname) => if t.len() == 0 {
            nochange
        } else if adding {
            let told = spec_tags_of(pre.tag_db@, pname);
            &&& untouched
            &&& post.output == pre.output
            &&& (match post.pending_tag_change {
                Some(p) => {
                    &&& p.package_name@ == pname
                    &&& p.tag@ == t
                    &&& p.adding == true
                    &&& p.message@ == "Added tag '"@ + t + "' to '"@ + pname + "'"@
                    &&& tdb_wf(p.db@)
                    &&& (told.contains(t) ==> spec_tags_of(p.db@, pname) == told)
                    &&& (!told.contains(t) ==> exists|k: int|
                        0 <= k <= told.len() && spec_tags_of(p.db@, pname) == told.insert(k, t))
                    &&& forall|q: Seq<char>| q != pname ==> spec_tags_of(p.db@, q) == spec_tags_of(
                        pre.tag_db@,
                        q,
                    )
                },
                None => false,
            })
        } else if spec_tags_of(pre.tag_db@, pname).contains(t) {
            &&& untouched
            &&& post.output == pre.output
            &&& (match post.pending_tag_change {
                Some(p) => {
                    &&& p.package_name@ == pname
                    &&& p.tag@ == t
                    &&& p.adding == false
                    &&& p.message@ == "Removed tag '"@ + t + "' from '"@ + pname + "'"@
                    &&& tdb_wf(p.db@)
                    &&& spec_tags_of(p.db@, pname) == spec_tags_of(pre.tag_db@, pname).filter(
                        crate::text::neq_pred(t),
                    )
                    &&& forall|q: Seq<char>| q != pname ==> spec_tags_of(p.db@, q) == spec_tags_of(
                        pre.tag_db@,
                        q,
                    )
                },
                None => false,
            })
        } else {
            &&& untouched
            &&& post.pending_tag_change == pre.pending_tag_change
            &&& spec_log_gained(
                pre.output,
                post.output,
                "Error: "@ + "Invalid user input: "@ + "Tag '"@ + t + "' not found for package '"@
                    + pname + "'."@,
                MessageType::Error,
            )
        },
    }
}

impl TagModalState {
    /// What one key in the tag modal does to the application: the
    /// relation its handler and the router both promise.
    pub open spec fn spec_key_effect(pre: App, post: App, key: KeyPress) -> bool {
        &&& (key.code == Key::Enter ==> {
                &&& spec_tag_commit_effect(pre, post)
                &&& post.input_mode == InputMode::Normal
                &&& post.tag_state.input@.len() == 0
                &&& post.tag_state.selection is None
                &&& post.tag_state.focus == TagModalFocus::Input
                &&& post.tag_state.filtered_tags.deep_view() == post.state.all_tags.deep_view()
                &&& post == (App {
                    output: post.output,
                    tag_state: post.tag_state,
                    input_mode: post.input_mode,
                    pending_tag_change: post.pending_tag_change,
                    ..pre
                })
            })
        &&& ((key.code == Key::Esc || (pre.tag_state.focus == TagModalFocus::List && key.code
                == Key::Char('q'))) ==> {
                &&& post.input_mode == InputMode::Normal
                &&& post.tag_state.input@.len() == 0
                &&& post.tag_state.selection is None
                &&& post.tag_state.focus == TagModalFocus::Input
                &&& post.tag_state.filtered_tags.deep_view() == pre.state.all_tags.deep_view()
                &&& post == (App {
                    tag_state: post.tag_state,
                    input_mode: post.input_mode,
                    ..pre
                })
            })
        &&& ((key.code != Key::Enter && key.code != Key::Esc && pre.tag_state.focus
                == TagModalFocus::Input) ==> {
                &&& post == (App { tag_state: post.tag_state, ..pre })
                &&& (key.code matches Key::Char(c) ==> post.tag_state.input@ == pre.tag_state.input@.push(c) && post.tag_state.focus == TagModalFocus::Input
                    && post.tag_state.filtered_tags.deep_view() == spec_fuzzy_filter(
                    (if pre.input_mode == InputMode::Untagging {
                        pre.spec_selected_tags()
                    } else {
                        pre.state.all_tags.deep_view()
                    }),
                    pre.tag_state.input@.push(c),
                ))
                &&& (key.code == Key::Backspace ==> {
                    let ni = if pre.tag_state.input@.len() == 0 {
                        pre.tag_state.input@
                    } else {
                        pre.tag_state.input@.drop_last()
                    };
                    let src = if pre.input_mode == InputMode::Untagging {
                        pre.spec_selected_tags()
                    } else {
                        pre.state.all_tags.deep_view()
                    };
                    &&& post.tag_state.input@ == ni
                    &&& post.tag_state.focus == TagModalFocus::Input
                    &&& post.tag_state.filtered_tags.deep_view() == (if ni.len() == 0 {
                        src
                    } else {
                        spec_fuzzy_filter(src, ni)
                    })
                })
                &&& (key.code == Key::Tab ==> post == (App {
                    tag_state: TagModalState {
                        focus: TagModalFocus::List,
                        ..pre.tag_state
                    },
                    ..pre
                }))
                &&& (!(key.code matches Key::Char(_) || key.code == Key::Backspace || key.code
                    == Key::Tab) ==> post == pre)
            })
        &&& ((key.code != Key::Enter && key.code != Key::Esc && key.code != Key::Char('q') && pre.tag_state.focus == TagModalFocus::List) ==> {
                &&& post == (App { tag_state: post.tag_state, ..pre })
                &&& ((key.code == Key::Up || key.code == Key::Char('k') || key.code == Key::Down
                    || key.code == Key::Char('j')) ==> post.tag_state.filtered_tags == pre.tag_state.filtered_tags && post.tag_state.focus == TagModalFocus::List)
                &&& (key.code == Key::Tab ==> post == (App {
                    tag_state: TagModalState {
                        focus: TagModalFocus::Input,
                        ..pre.tag_state
                    },
                    ..pre
                }))
                &&& (!(key.code == Key::Up || key.code == Key::Char('k') || key.code == Key::Down
                    || key.code == Key::Char('j') || key.code == Key::Tab) ==> post == pre)
            })
    }

    /// One key in the tag modal: Enter commits the tag change, Esc (and
    /// `q` while the list has focus) leaves, anything else edits the
    /// input or moves the cursor.
    pub fn handle_key_event(app: &mut App, key: KeyPress) -> (r: bool)
        requires
            old(app).wf(),
        ensures
            !r,
            final(app).wf(),
            Self::spec_key_effect(*old(app), *final(app), key),
    {
        match key.code {
            Key::Enter => {
                let adding = matches!(app.input_mode, InputMode::Tagging);
                let sel_name: Option<String> = match app.selected_package {
                    Some(idx) => {
                        if idx < app.state.filtered_packages.len() {
                            proof {
                                assert(app.state.filtered_packages.deep_view()[idx as int]
                                    == app.state.filtered_packages@[idx as int]@);
                            }
                            Some(app.state.filtered_packages[idx].name.clone())
                        } else {
                            None
                        }
                    },
                    None => None,
                };
                match sel_name {
                    Some(pkg_name) => {
                        let tag_trim = trim_str(app.tag_state.input.as_str());
                        if tag_trim.as_str().unicode_len() > 0 {
                            if adding {
                                let mut candidate = app.tag_db.clone();
                                let msg = add_tag(
                                    &mut candidate,
                                    pkg_name.as_str(),
                                    tag_trim.as_str(),
                                );
                                app.pending_tag_change = Some(PendingTagChange {
                                    db: candidate,
                                    package_name: pkg_name,
                                    tag: tag_trim,
                                    adding: true,
                                    message: msg,
                                });
                            } else {
                                let mut candidate = app.tag_db.clone();
                                let res = remove_tag(
                                    &mut candidate,
                                    pkg_name.as_str(),
                                    tag_trim.as_str(),
                                );
                                match res {
                                    Ok(msg) => {
                                        app.pending_tag_change = Some(PendingTagChange {
                                            db: candidate,
                                            package_name: pkg_name,
                                            tag: tag_trim,
                                            adding: false,
                                            message: msg,
                                        });
                                    },
                                    Err(e) => {
                                        let mut msg = String::from_str("Error: ");
                                        let detail = e.message();
                                        msg.append(detail.as_str());
                                        proof {
                                            assert(msg@ =~= "Error: "@ + "Invalid user input: "@
                                                + "Tag '"@ + tag_trim@
                                                + "' not found for package '"@ + pkg_name@
                                                + "'."@);
                                        }
                                        app.output.error(msg);
                                    },
                                }
                            }
                        }
                    },
                    None => {},
                }
                app.tag_state.input = String::new();
                app.tag_state.update_filtered_tags(&app.state.all_tags);
                app.input_mode = InputMode::Normal;
                app.tag_state.selection = None;
                app.tag_state.focus = TagModalFocus::Input;
            },
            Key::Esc => {
                app.tag_state.input = String::new();
                app.tag_state.update_filtered_tags(&app.state.all_tags);
                app.input_mode = InputMode::Normal;
                app.tag_state.selection = None;
                app.tag_state.focus = TagModalFocus::Input;
            },
            _ => {
                match app.tag_state.focus {
                    TagModalFocus::Input => {
                        match key.code {
                            Key::Char(c) => {
                                push_char(&mut app.tag_state.input, c);
                                if matches!(app.input_mode, InputMode::Untagging) {
                                    let package_tags = app.selected_tags_vec();
                                    app.tag_state.update_filtered_tags(&package_tags);
                                } else {
                                    let all_tags = app.state.all_tags.clone();
                                    proof {
                                        assert(all_tags.deep_view()
                                            =~= app.state.all_tags.deep_view());
                                    }
                                    app.tag_state.update_filtered_tags(&all_tags);
                                }
                            },
                            Key::Backspace => {
                                pop_char(&mut app.tag_state.input);
                                if matches!(app.input_mode, InputMode::Untagging) {
                                    let package_tags = app.selected_tags_vec();
                                    app.tag_state.update_filtered_tags(&package_tags);
                                } else {
                                    let all_tags = app.state.all_tags.clone();
                                    proof {
                                        assert(all_tags.deep_view()
                                            =~= app.state.all_tags.deep_view());
                                    }
                                    app.tag_state.update_filtered_tags(&all_tags);
                                }
                            },
                            Key::Tab => {
                                app.tag_state.focus = TagModalFocus::List;
                            },
                            _ => {},
                        }
                    },
                    TagModalFocus::List => {
                        match key.code {
                            Key::Char('q') => {
                                app.tag_state.input = String::new();
                                app.tag_state.update_filtered_tags(&app.state.all_tags);
                                app.input_mode = InputMode::Normal;
                                app.tag_state.selection = None;
                                app.tag_state.focus = TagModalFocus::Input;
                            },
                            Key::Up | Key::Char('k') => app.tag_state.select_previous_tag(),
                            Key::Down | Key::Char('j') => app.tag_state.select_next_tag(),
                            Key::Tab => {
                                app.tag_state.focus = TagModalFocus::Input;
                            },
                            _ => {},
                        }
                    },
                }
            },
        }
        false
    }
}

impl FilterModalState {
    /// What one key in the filter modal does to the application: the
    /// relation its handler and the router both promise.
    pub open spec fn spec_key_effect(pre: App, post: App, key: KeyPress) -> bool {
        &&& (post == (App {
                filter_state: post.filter_state,
                input_mode: post.input_mode,
                state: post.state,
                selected_package: post.selected_package,
                ..pre
            }))
        &&& (post.state == (AppState {
                filtered_packages: post.state.filtered_packages,
                ..pre.state
            }))
        &&& ((key.code == Key::Esc || (pre.filter_state.focus != FilterFocus::Search
                && key.code == Key::Char('q'))) ==> {
                &&& post.input_mode == InputMode::Normal
                &&& post.filter_state == pre.filter_state
                &&& post.visible_ok()
            })
        &&& ((pre.filter_state.focus == FilterFocus::Search && key.code != Key::Esc) ==> {
                &&& post.input_mode == pre.input_mode
                &&& post.state == pre.state
                &&& post.selected_package == pre.selected_package
                &&& post.filter_state.tag_filters == pre.filter_state.tag_filters
                &&& post.filter_state.repo_filters == pre.filter_state.repo_filters
                &&& (key.code matches Key::Char(c) ==> (if pre.filter_state.input@.len()
                    < usize::MAX {
                    &&& post.filter_state.input@ == pre.filter_state.input@.insert(
                        pre.filter_state.cursor_position as int,
                        c,
                    )
                    &&& post.filter_state.cursor_position == pre.filter_state.cursor_position + 1
                    &&& post.filter_state.focus == FilterFocus::Search
                    &&& post.filter_state.filtered_tags.deep_view() == spec_fuzzy_filter(
                        pre.state.all_tags.deep_view(),
                        post.filter_state.input@,
                    )
                    &&& post.filter_state.filtered_repos.deep_view() == spec_fuzzy_filter(
                        pre.state.all_repos.deep_view(),
                        post.filter_state.input@,
                    )
                } else {
                    post == pre
                }))
                &&& (key.code == Key::Backspace ==> (if pre.filter_state.cursor_position > 0 {
                    &&& post.filter_state.input@ == pre.filter_state.input@.remove(
                        pre.filter_state.cursor_position - 1,
                    )
                    &&& post.filter_state.cursor_position == pre.filter_state.cursor_position - 1
                    &&& post.filter_state.focus == FilterFocus::Search
                } else {
                    post == pre
                }))
                &&& (key.code == Key::Left ==> post == (App {
                    filter_state: FilterModalState {
                        cursor_position: if pre.filter_state.cursor_position > 0 {
                            (pre.filter_state.cursor_position - 1) as usize
                        } else {
                            0usize
                        },
                        ..pre.filter_state
                    },
                    ..pre
                }))
                &&& (key.code == Key::Right ==> post == (App {
                    filter_state: FilterModalState {
                        cursor_position: if pre.filter_state.cursor_position < pre.filter_state.input@.len() {
                            (pre.filter_state.cursor_position + 1) as usize
                        } else {
                            pre.filter_state.cursor_position
                        },
                        ..pre.filter_state
                    },
                    ..pre
                }))
                &&& (key.code == Key::Tab ==> post == (App {
                    filter_state: FilterModalState {
                        focus: FilterFocus::Tags,
                        ..pre.filter_state
                    },
                    ..pre
                }))
                &&& (!(key.code matches Key::Char(_) || key.code == Key::Backspace || key.code
                    == Key::Left || key.code == Key::Right || key.code == Key::Tab) ==> post
                    == pre)
            })
        &&& ((pre.filter_state.focus != FilterFocus::Search && key.code != Key::Esc && key.code
                != Key::Char('q')) ==> {
                &&& post.input_mode == pre.input_mode
                &&& post.state == pre.state
                &&& post.selected_package == pre.selected_package
                &&& ((key.code == Key::Char('l') || key.code == Key::Right || key.code
                    == Key::Enter) ==> FilterModalState::spec_cycle_rel(
                    pre.filter_state,
                    post.filter_state,
                    true,
                ))
                &&& ((key.code == Key::Char('h') || key.code == Key::Left)
                    ==> FilterModalState::spec_cycle_rel(
                    pre.filter_state,
                    post.filter_state,
                    false,
                ))
                &&& (key.code == Key::Tab ==> post == (App {
                    filter_state: FilterModalState {
                        focus: if pre.filter_state.focus == FilterFocus::Tags {
                            FilterFocus::Repos
                        } else {
                            FilterFocus::Search
                        },
                        ..pre.filter_state
                    },
                    ..pre
                }))
                &&& ((key.code == Key::Char('j') || key.code == Key::Down || key.code
                    == Key::Char('k') || key.code == Key::Up) ==> post.filter_state.tag_filters == pre.filter_state.tag_filters && post.filter_state.repo_filters == pre.filter_state.repo_filters && post.filter_state.input == pre.filter_state.input && post.filter_state.focus == pre.filter_state.focus)
                &&& (!(key.code == Key::Char('l') || key.code == Key::Right || key.code
                    == Key::Enter || key.code == Key::Char('h') || key.code == Key::Left
                    || key.code == Key::Tab || key.code == Key::Char('j') || key.code == Key::Down
                    || key.code == Key::Char('k') || key.code == Key::Up) ==> post == pre)
            })
    }

    /// One key in the filter modal: the search box narrows both lists,
    /// Tab cycles the focus, the arrow keys move a list cursor, Enter and
    /// the horizontal arrows cycle the tri-state under it, and Esc (or
    /// `q` on a list) re-runs the pipeline and leaves.
    pub fn handle_key_event(app: &mut App, key: KeyPress) -> (r: bool)
        requires
            old(app).wf(),
        ensures
            !r,
            final(app).wf(),
            Self::spec_key_effect(*old(app), *final(app), key),
    {
        match app.filter_state.focus {
            FilterFocus::Search => {
                match key.code {
                    Key::Char(c) => {
                        let len = app.filter_state.input.as_str().unicode_len();
                        if len < usize::MAX {
                            let cursor = app.filter_state.cursor_position;
                            insert_char(&mut app.filter_state.input, cursor, c);
                            app.filter_state.cursor_position = cursor + 1;
                            let all_tags = app.state.all_tags.clone();
                            let all_repos = app.state.all_repos.clone();
                            proof {
                                assert(all_tags.deep_view() =~= app.state.all_tags.deep_view());
                                assert(all_repos.deep_view() =~= app.state.all_repos.deep_view());
                            }
                            app.filter_state.update_filtered_options(&all_tags, &all_repos);
                        }
                    },
                    Key::Backspace => {
                        if app.filter_state.cursor_position > 0 {
                            let cursor = app.filter_state.cursor_position - 1;
                            app.filter_state.cursor_position = cursor;
                            remove_char(&mut app.filter_state.input, cursor);
                            let all_tags = app.state.all_tags.clone();
                            let all_repos = app.state.all_repos.clone();
                            proof {
                                assert(all_tags.deep_view() =~= app.state.all_tags.deep_view());
                                assert(all_repos.deep_view() =~= app.state.all_repos.deep_view());
                            }
                            app.filter_state.update_filtered_options(&all_tags, &all_repos);
                        }
                    },
                    Key::Left => {
                        if app.filter_state.cursor_position > 0 {
                            app.filter_state.cursor_position = app.filter_state.cursor_position - 1;
                        }
                    },
                    Key::Right => {
                        if app.filter_state.cursor_position
                            < app.filter_state.input.as_str().unicode_len() {
                            app.filter_state.cursor_position = app.filter_state.cursor_position + 1;
                        }
                    },
                    Key::Tab => {
                        app.filter_state.focus = FilterFocus::Tags;
                    },
                    Key::Esc => {
                        app.apply_filters();
                        app.input_mode = InputMode::Normal;
                    },
                    _ => {},
                }
            },
            FilterFocus::Tags | FilterFocus::Repos => {
                match key.code {
                    Key::Char('q') | Key::Esc => {
                        app.apply_filters();
                        app.input_mode = InputMode::Normal;
                    },
                    Key::Char('j') | Key::Down => {
                        if matches!(app.filter_state.focus, FilterFocus::Tags) {
                            let n = app.filter_state.filtered_tags.len();
                            let i: usize = match app.filter_state.tag_selection {
                                Some(i) => if n == 0 || i >= n - 1 {
                                    0
                                } else {
                                    i + 1
                                },
                                None => 0,
                            };
                            app.filter_state.tag_selection = Some(i);
                        } else {
                            let n = app.filter_state.filtered_repos.len();
                            let i: usize = match app.filter_state.repo_selection {
                                Some(i) => if n == 0 || i >= n - 1 {
                                    0
                                } else {
                                    i + 1
                                },
                                None => 0,
                            };
                            app.filter_state.repo_selection = Some(i);
                        }
                    },
                    Key::Char('k') | Key::Up => {
                        if matches!(app.filter_state.focus, FilterFocus::Tags) {
                            let n = app.filter_state.filtered_tags.len();
                            let i: usize = match app.filter_state.tag_selection {
                                Some(i) => if i == 0 {
                                    if n == 0 {
                                        0
                                    } else {
                                        n - 1
                                    }
                                } else {
                                    i - 1
                                },
                                None => 0,
                            };
                            app.filter_state.tag_selection = Some(i);
                        } else {
                            let n = app.filter_state.filtered_repos.len();
                            let i: usize = match app.filter_state.repo_selection {
                                Some(i) => if i == 0 {
                                    if n == 0 {
                                        0
                                    } else {
                                        n - 1
                                    }
                                } else {
                                    i - 1
                                },
                                None => 0,
                            };
                            app.filter_state.repo_selection = Some(i);
                        }
                    },
                    Key::Char('l') | Key::Right | Key::Enter => {
                        app.filter_state.cycle_filter_state(true);
                    },
                    Key::Char('h') | Key::Left => {
                        app.filter_state.cycle_filter_state(false);
                    },
                    Key::Tab => {
                        app.filter_state.focus = if matches!(
                            app.filter_state.focus,
                            FilterFocus::Tags,
                        ) {
                            FilterFocus::Repos
                        } else {
                            FilterFocus::Search
                        };
                    },
                    _ => {},
                }
            },
        }
        false
    }
}

/// How confirming the action under the cursor relates the application
/// before and after: the two built-in actions open the tag modal, a
/// `Command` action goes through the dispatcher, and without a valid
/// cursor the modal just closes.
pub open spec fn spec_on_enter_effect(pre: App, post: App, r: bool) -> bool {
    match pre.action_state.selection {
        Some(idx) => if idx < pre.action_state.filtered_options.deep_view().len() {
            let a = pre.action_state.filtered_options.deep_view()[idx as int];
            match a.action_type {
                ActionTypeV::Local => if a.name == "Add Tag"@ {
                    &&& !r
                    &&& post == (App {
                        input_mode: InputMode::Tagging,
                        tag_state: post.tag_state,
                        ..pre
                    })
                    &&& post.tag_state.input@.len() == 0
                    &&& post.tag_state.filtered_tags.deep_view() == pre.state.all_tags.deep_view()
                    &&& post.tag_state.selection == Some(0usize)
                    &&& post.tag_state.focus == TagModalFocus::Input
                } else if a.name == "Remove Tag"@ {
                    !r && spec_enter_untagging_effect(pre, post)
                } else {
                    !r && post == (App { input_mode: InputMode::Normal, ..pre })
                },
                ActionTypeV::Command { .. } => spec_execute_effect(pre, post, a, r),
            }
        } else {
            !r && post == (App { input_mode: InputMode::Normal, ..pre })
        },
        None => !r && post == (App { input_mode: InputMode::Normal, ..pre }),
    }
}

impl ActionModalState {
    fn on_enter(app: &mut App) -> (r: bool)
        requires
            old(app).wf(),
        ensures
            final(app).wf(),
            spec_on_enter_effect(*old(app), *final(app), r),
    {
        match app.action_state.selection {
            Some(idx) => {
                if idx < app.action_state.filtered_options.len() {
                    let action = app.action_state.filtered_options[idx].clone();
                    proof {
                        assert(action@
                            == app.action_state.filtered_options.deep_view()[idx as int]);
                    }
                    match &action.action_type {
                        ActionType::Local => {
                            if str_eq(action.name.as_str(), "Add Tag") {
                                app.enter_tagging();
                                false
                            } else if str_eq(action.name.as_str(), "Remove Tag") {
                                app.enter_untagging();
                                false
                            } else {
                                app.input_mode = InputMode::Normal;
                                false
                            }
                        },
                        ActionType::Command { .. } => app.execute_config_action(&action),
                    }
                } else {
                    app.input_mode = InputMode::Normal;
                    false
                }
            },
            None => {
                app.input_mode = InputMode::Normal;
                false
            },
        }
    }

    /// What one key in the action modal does to the application: the
    /// relation its handler and the router both promise.
    pub open spec fn spec_key_effect(pre: App, post: App, key: KeyPress, r: bool) -> bool {
        &&& (pre.action_state.focus == ActionModalFocus::Input ==> {
                &&& ((key.ctrl && (key.code == Key::Char('w') || key.code == Key::Char('h')))
                    ==> {
                    &&& !r
                    &&& post == (App {
                        action_state: post.action_state,
                        ..pre
                    })
                    &&& post.action_state.input@ == pre.action_state.input@.take(
                        spec_word_start(
                            pre.action_state.input@,
                            pre.action_state.input@.len() as int,
                        ),
                    )
                    &&& post.action_state.all_actions == pre.action_state.all_actions
                    &&& post.action_state.focus == ActionModalFocus::Input
                    &&& post.action_state.filtered_options.deep_view() == (if post.action_state.input@.len() == 0 {
                        pre.action_state.all_actions.deep_view()
                    } else {
                        pre.action_state.all_actions.deep_view().filter(
                            |a: ActionV| crate::fuzzy::fuzzy_hit(a.name, post.action_state.input@),
                        )
                    })
                })
                &&& (!(key.ctrl && (key.code == Key::Char('w') || key.code == Key::Char('h')))
                    ==> {
                    &&& (key.code matches Key::Char(c) ==> !r && post == (App {
                        action_state: post.action_state,
                        ..pre
                    }) && post.action_state.input@ == pre.action_state.input@.push(c)
                        && post.action_state.all_actions == pre.action_state.all_actions
                        && post.action_state.focus == ActionModalFocus::Input
                        && post.action_state.filtered_options.deep_view() == pre.action_state.all_actions.deep_view().filter(
                        |a: ActionV| crate::fuzzy::fuzzy_hit(a.name, pre.action_state.input@.push(c)),
                    ))
                    &&& (key.code == Key::Backspace ==> !r && post == (App {
                        action_state: post.action_state,
                        ..pre
                    }) && post.action_state.input@ == (if pre.action_state.input@.len() == 0 {
                        pre.action_state.input@
                    } else {
                        pre.action_state.input@.drop_last()
                    }) && post.action_state.all_actions == pre.action_state.all_actions
                        && post.action_state.focus == ActionModalFocus::Input
                        && post.action_state.filtered_options.deep_view() == (if post.action_state.input@.len() == 0 {
                        pre.action_state.all_actions.deep_view()
                    } else {
                        pre.action_state.all_actions.deep_view().filter(
                            |a: ActionV| crate::fuzzy::fuzzy_hit(a.name, post.action_state.input@),
                        )
                    }))
                    &&& ((key.code == Key::Tab || key.code == Key::Down) ==> !r && post == (
                    App {
                        action_state: ActionModalState {
                            focus: ActionModalFocus::List,
                            selection: Some(0usize),
                            ..pre.action_state
                        },
                        ..pre
                    }))
                    &&& (key.code == Key::Enter ==> (if pre.action_state.filtered_options@.len() == 1 {
                        spec_on_enter_effect(
                            App {
                                action_state: ActionModalState {
                                    selection: Some(0usize),
                                    ..pre.action_state
                                },
                                ..pre
                            },
                            post,
                            r,
                        )
                    } else {
                        !r && post == (App {
                            action_state: ActionModalState {
                                focus: ActionModalFocus::List,
                                selection: Some(0usize),
                                ..pre.action_state
                            },
                            ..pre
                        })
                    }))
                    &&& (key.code == Key::Esc ==> !r && post == (App {
                        input_mode: InputMode::Normal,
                        ..pre
                    }))
                    &&& (!(key.code matches Key::Char(_) || key.code == Key::Backspace || key.code
                        == Key::Tab || key.code == Key::Down || key.code == Key::Enter || key.code
                        == Key::Esc) ==> !r && post == pre)
                })
            })
        &&& (pre.action_state.focus == ActionModalFocus::List ==> {
                &&& ((key.code == Key::Up || key.code == Key::Char('k')) ==> !r && post == (
                App { action_state: post.action_state, ..pre }) && post.action_state.input == pre.action_state.input && post.action_state.filtered_options == pre.action_state.filtered_options && post.action_state.focus == ActionModalFocus::List)
                &&& ((key.code == Key::Down || key.code == Key::Char('j')) ==> !r && post
                    == (App { action_state: post.action_state, ..pre }) && post.action_state.input == pre.action_state.input && post.action_state.filtered_options == pre.action_state.filtered_options && post.action_state.focus == ActionModalFocus::List)
                &&& (key.code == Key::Tab ==> !r && post == (App {
                    action_state: ActionModalState {
                        focus: ActionModalFocus::Input,
                        ..pre.action_state
                    },
                    ..pre
                }))
                &&& (key.code == Key::Enter ==> spec_on_enter_effect(pre, post, r))
                &&& ((key.code == Key::Esc || key.code == Key::Char('q')) ==> !r && post
                    == (App { input_mode: InputMode::Normal, ..pre }))
                &&& (!(key.code == Key::Up || key.code == Key::Char('k') || key.code == Key::Down
                    || key.code == Key::Char('j') || key.code == Key::Tab || key.code == Key::Enter
                    || key.code == Key::Esc || key.code == Key::Char('q')) ==> !r && post
                    == pre)
            })
    }

    /// One key in the action modal: the input narrows the list; Enter
    /// confirms, directly from the input when exactly one option is left;
    /// Esc (and `q` on the list) closes.
    pub fn handle_key_event(app: &mut App, key: KeyPress) -> (r: bool)
        requires
            old(app).wf(),
        ensures
            final(app).wf(),
            Self::spec_key_effect(*old(app), *final(app), key, r),
    {
        match app.action_state.focus {
            ActionModalFocus::Input => {
                if key.ctrl && (matches!(key.code, Key::Char('w')) || matches!(
                    key.code,
                    Key::Char('h'),
                )) {
                    crate::modal::delete_word_backward(&mut app.action_state.input);
                    app.action_state.update_filtered_options();
                    return false;
                }
                match key.code {
                    Key::Char(c) => {
                        push_char(&mut app.action_state.input, c);
                        app.action_state.update_filtered_options();
                    },
                    Key::Backspace => {
                        pop_char(&mut app.action_state.input);
                        app.action_state.update_filtered_options();
                    },
                    Key::Tab | Key::Down => {
                        app.action_state.focus = ActionModalFocus::List;
                        app.action_state.selection = Some(0);
                    },
                    Key::Enter => {
                        if app.action_state.filtered_options.len() == 1 {
                            app.action_state.selection = Some(0);
                            if ActionModalState::on_enter(app) {
                                return true;
                            }
                        } else {
                            app.action_state.focus = ActionModalFocus::List;
                            app.action_state.selection = Some(0);
                        }
                    },
                    Key::Esc => {
                        app.input_mode = InputMode::Normal;
                    },
                    _ => {},
                }
            },
            ActionModalFocus::List => {
                match key.code {
                    Key::Up | Key::Char('k') => app.action_state.select_previous(),
                    Key::Down | Key::Char('j') => app.action_state.select_next(),
                    Key::Tab => {
                        app.action_state.focus = ActionModalFocus::Input;
                    },
                    Key::Enter => {
                        if ActionModalState::on_enter(app) {
                            return true;
                        }
                    },
                    Key::Esc | Key::Char('q') => {
                        app.input_mode = InputMode::Normal;
                    },
                    _ => {},
                }
            },
        }
        false
    }
}

impl NormalState {
    /// What one key in `Normal` mode does to the application: the
    /// relation its handler and the router both promise.
    pub open spec fn spec_key_effect(pre: App, post: App, key: KeyPress, r: bool) -> bool {
        &&& (({
                let hk = match key.code {
                    Key::Char(c) => spec_first_hotkey(pre.config.actions.deep_view(), c, key.shift),
                    _ => None,
                };
                &&& (hk matches Some(i) ==> spec_execute_effect(
                    pre,
                    post,
                    pre.config.actions.deep_view()[i],
                    r,
                ))
                &&& (hk is None ==> {
                    &&& (key.code == Key::Char('q') ==> r && post == pre)
                    &&& (key.code == Key::Char('k') ==> !r && post == (App {
                        selected_package: post.selected_package,
                        ..pre
                    }) && post.selected_package == (match pre.selected_package {
                        Some(i) => if i == 0 {
                            if pre.state.filtered_packages@.len() == 0 {
                                Some(0usize)
                            } else {
                                Some((pre.state.filtered_packages@.len() - 1) as usize)
                            }
                        } else {
                            Some((i - 1) as usize)
                        },
                        None => Some(0usize),
                    }))
                    &&& (key.code == Key::Char('j') ==> !r && post == (App {
                        selected_package: post.selected_package,
                        ..pre
                    }) && post.selected_package == (match pre.selected_package {
                        Some(i) => if pre.state.filtered_packages@.len() == 0 || i >= pre.state.filtered_packages@.len() - 1 {
                            Some(0usize)
                        } else {
                            Some((i + 1) as usize)
                        },
                        None => Some(0usize),
                    }))
                    &&& (key.code == Key::Up ==> !r && post == (App {
                        output: post.output,
                        ..pre
                    }) && post.output.messages@ == pre.output.messages@ && post.output.scroll_position == (if pre.output.scroll_position >= 1 {
                        pre.output.scroll_position - 1
                    } else {
                        0int
                    }))
                    &&& (key.code == Key::Down ==> !r && post == (App {
                        output: post.output,
                        ..pre
                    }) && post.output.messages@ == pre.output.messages@ && post.output.scroll_position == (if pre.output.scroll_position + 1 <= pre.output.spec_max_scroll() {
                        pre.output.scroll_position + 1
                    } else {
                        pre.output.spec_max_scroll()
                    }))
                    &&& (key.code == Key::Char('s') ==> !r && post == (App {
                        input_mode: InputMode::Sorting,
                        sort_state: SortState {
                            selection: Some(0usize),
                            ..pre.sort_state
                        },
                        ..pre
                    }))
                    &&& (key.code == Key::Char('v') ==> !r && post == (App {
                        input_mode: InputMode::Showing,
                        show_mode_state: post.show_mode_state,
                        ..pre
                    }) && ShowModeState::spec_select_active_rel(
                        pre.show_mode_state,
                        post.show_mode_state,
                    ))
                    &&& (key.code == Key::Char('f') ==> !r && post == (App {
                        input_mode: InputMode::Filtering,
                        filter_state: post.filter_state,
                        ..pre
                    }) && post.filter_state.input@.len() == 0 && post.filter_state.cursor_position == 0 && post.filter_state.focus
                        == FilterFocus::Search && post.filter_state.tag_filters == pre.filter_state.tag_filters && post.filter_state.repo_filters == pre.filter_state.repo_filters && post.filter_state.filtered_tags.deep_view()
                        == pre.state.all_tags.deep_view() && post.filter_state.filtered_repos.deep_view() == pre.state.all_repos.deep_view())
                    &&& (key.code == Key::Char('/') ==> !r && post == (App {
                        input_mode: InputMode::Searching,
                        search_cursor_position: post.search_cursor_position,
                        ..pre
                    }) && post.search_cursor_position == pre.search_input@.len())
                    &&& (key.code == Key::Char('a') ==> !r && post == (App {
                        input_mode: InputMode::Tagging,
                        tag_state: post.tag_state,
                        ..pre
                    }) && post.tag_state.input@.len() == 0 && post.tag_state.filtered_tags.deep_view() == pre.state.all_tags.deep_view()
                        && post.tag_state.selection == Some(0usize) && post.tag_state.focus == TagModalFocus::Input)
                    &&& (key.code == Key::Char('d') ==> !r && spec_enter_untagging_effect(
                        pre,
                        post,
                    ))
                    &&& (key.code == Key::Char('?') ==> !r && post == (App {
                        input_mode: InputMode::Action,
                        action_state: post.action_state,
                        ..pre
                    }) && post.action_state.input@.len() == 0 && post.action_state.all_actions.deep_view() == pre.config.actions.deep_view()
                        + seq![
                        ActionV {
                            name: "Add Tag"@,
                            key: ConfigKey { key: 'a', shift: false },
                            action_type: ActionTypeV::Local,
                        },
                        ActionV {
                            name: "Remove Tag"@,
                            key: ConfigKey { key: 'd', shift: false },
                            action_type: ActionTypeV::Local,
                        },
                    ] && post.action_state.filtered_options.deep_view() == post.action_state.all_actions.deep_view() && post.action_state.selection
                        == Some(0usize) && post.action_state.focus == ActionModalFocus::Input)
                    &&& (!(key.code == Key::Char('q') || key.code == Key::Char('k') || key.code
                        == Key::Char('j') || key.code == Key::Up || key.code == Key::Down
                        || key.code == Key::Char('s') || key.code == Key::Char('v') || key.code
                        == Key::Char('f') || key.code == Key::Char('/') || key.code == Key::Char(
                        'a',
                    ) || key.code == Key::Char('d') || key.code == Key::Char('?')) ==> !r && post == pre)
                })
            }))
    }

    /// One key in `Normal` mode: a configured hotkey dispatches its
    /// action first; otherwise `q` quits, `j`/`k` move the package
    /// cursor, the arrows scroll the log, and the remaining bindings open
    /// their modals.
    pub fn handle_key_event(app: &mut App, key: KeyPress) -> (r: bool)
        requires
            old(app).wf(),
        ensures
            final(app).wf(),
            Self::spec_key_effect(*old(app), *final(app), key, r),
    {
        match key.code {
            Key::Char(c) => {
                match find_hotkey_action(&app.config, c, key.shift) {
                    Some(i) => {
                        let action = app.config.actions[i].clone();
                        proof {
                            assert(action@ == app.config.actions.deep_view()[i as int]);
                        }
                        return app.execute_config_action(&action);
                    },
                    None => {},
                }
            },
            _ => {},
        }
        match key.code {
            Key::Char('q') => {
                return true;
            },
            Key::Char('k') => app.select_previous_package(),
            Key::Char('j') => app.select_next_package(),
            Key::Up => app.output.scroll_up(1),
            Key::Down => app.output.scroll_down(1),
            Key::Char('s') => {
                app.input_mode = InputMode::Sorting;
                app.sort_state.selection = Some(0);
            },
            Key::Char('v') => {
                app.input_mode = InputMode::Showing;
                app.show_mode_state.select_active();
            },
            Key::Char('f') => {
                app.input_mode = InputMode::Filtering;
                app.filter_state.input = String::new();
                app.filter_state.cursor_position = 0;
                app.filter_state.focus = FilterFocus::Search;
                let all_tags = app.state.all_tags.clone();
                let all_repos = app.state.all_repos.clone();
                proof {
                    assert(all_tags.deep_view() =~= app.state.all_tags.deep_view());
                    assert(all_repos.deep_view() =~= app.state.all_repos.deep_view());
                }
                app.filter_state.update_filtered_options(&all_tags, &all_repos);
            },
            Key::Char('/') => {
                app.input_mode = InputMode::Searching;
                app.search_cursor_position = app.search_input.as_str().unicode_len();
            },
            Key::Char('a') => {
                app.enter_tagging();
            },
            Key::Char('d') => {
                app.enter_untagging();
            },
            Key::Char('?') => {
                app.input_mode = InputMode::Action;
                app.action_state.input = String::new();
                app.action_state.load_actions_from_config(&app.config);
                app.action_state.selection = Some(0);
                app.action_state.focus = ActionModalFocus::Input;
            },
            _ => {},
        }
        false
    }
}

/// How adopting a persisted candidate relates the application before and
/// after the swap (the pipeline re-run follows separately): the staged
/// store becomes the live one, the in-memory package and the known tag
/// set follow, and the staged message is logged.
pub open spec fn spec_adopt_rel(pre: App, mid: App) -> bool {
    match pre.pending_tag_change {
        Some(p) => {
            &&& mid == (App {
                tag_db: mid.tag_db,
                state: mid.state,
                output: mid.output,
                pending_tag_change: None,
                ..pre
            })
            &&& mid.state == (AppState {
                packages: mid.state.packages,
                all_tags: mid.state.all_tags,
                ..pre.state
            })
            &&& mid.tag_db == p.db
            &&& spec_pkgs_tag_update(
                pre.state.packages.deep_view(),
                mid.state.packages.deep_view(),
                p.package_name@,
                p.tag@,
                p.adding,
            )
            &&& str_sorted(mid.state.all_tags.deep_view())
            &&& (forall|k: Seq<char>|
                mid.state.all_tags.deep_view().contains(k) <==> exists|i: int|
                    0 <= i < mid.tag_db@.len() && (#[trigger] mid.tag_db@[i]).1.contains(k))
            &&& spec_log_gained(pre.output, mid.output, p.message@, MessageType::Info)
        },
        None => false,
    }
}

impl App {
    /// Completes a staged tag commit once the surrounding program has
    /// tried to persist the candidate store: a confirmed write adopts the
    /// change and re-runs the pipeline; a failed write (its report text
    /// passed in) discards the candidate, leaving the store, catalog and
    /// tag set at their last good value, and logs the failure.
    pub fn finish_tag_commit(&mut self, save_error: Option<String>)
        requires
            old(self).wf(),
        ensures
            final(self).wf(),
            old(self).pending_tag_change is None ==> *final(self) == *old(self),
            old(self).pending_tag_change is Some ==> match save_error {
                None => exists|mid: App|
                    (#[trigger] spec_adopt_rel(*old(self), mid)) && spec_apply_rel(
                        mid,
                        *final(self),
                    ),
                Some(e) => {
                    &&& *final(self) == (App {
                        pending_tag_change: None,
                        output: final(self).output,
                        ..*old(self)
                    })
                    &&& spec_log_gained(
                        old(self).output,
                        final(self).output,
                        "Error: failed to save tags: "@ + e@,
                        MessageType::Error,
                    )
                },
            },
    {
        let pending = self.pending_tag_change.take();
        match pending {
            None => {},
            Some(p) => {
                match save_error {
                    None => {
                        self.tag_db = p.db;
                        self.update_package_tags(
                            p.package_name.as_str(),
                            p.tag.as_str(),
                            p.adding,
                        );
                        let tags = get_all_tags(&self.tag_db);
                        self.state.all_tags = tags;
                        self.output.info(p.message);
                        let ghost mid = *self;
                        self.apply_filters();
                        proof {
                            assert(spec_adopt_rel(*old(self), mid) && spec_apply_rel(mid, *self));
                        }
                    },
                    Some(e) => {
                        let mut msg = String::from_str("Error: failed to save tags: ");
                        msg.append(e.as_str());
                        self.output.error(msg);
                    },
                }
            },
        }
    }
}

/// What follows a modal handler in the router: the pipeline re-ran when
/// the handler returned to `Normal`, and nothing more happened otherwise.
pub open spec fn spec_after_modal(mid: App, post: App) -> bool {
    if mid.input_mode == InputMode::Normal {
        spec_apply_rel(mid, post)
    } else {
        post == mid
    }
}

impl App {
    /// The input-mode router: hands the key to the active mode's handler,
    /// and re-runs the pipeline when a modal that can have changed
    /// filter, sort, show-mode or tag state returns to `Normal`. Each
    /// mode's clause below ties the outcome to that handler's relation.
    pub fn handle_key(&mut self, key: KeyPress) -> (r: bool)
        requires
            old(self).wf(),
        ensures
            final(self).wf(),
            r ==> final(self).command_to_run is Some || old(self).input_mode == InputMode::Normal,
            (old(self).visible_ok() && final(self).input_mode == InputMode::Normal) ==> final(self).visible_ok(),
            old(self).input_mode == InputMode::Normal ==> NormalState::spec_key_effect(
                *old(self),
                *final(self),
                key,
                r,
            ),
            old(self).input_mode == InputMode::Searching ==> !r && SearchState::spec_key_effect(
                *old(self),
                *final(self),
                key,
            ),
            (old(self).input_mode == InputMode::Tagging || old(self).input_mode
                == InputMode::Untagging) ==> !r && exists|mid: App|
                (#[trigger] TagModalState::spec_key_effect(*old(self), mid, key))
                    && spec_after_modal(mid, *final(self)),
            old(self).input_mode == InputMode::Sorting ==> !r && exists|mid: App|
                (#[trigger] SortState::spec_key_effect(*old(self), mid, key)) && spec_after_modal(
                    mid,
                    *final(self),
                ),
            old(self).input_mode == InputMode::Filtering ==> !r && exists|mid: App|
                (#[trigger] FilterModalState::spec_key_effect(*old(self), mid, key))
                    && spec_after_modal(mid, *final(self)),
            old(self).input_mode == InputMode::Showing ==> !r && exists|mid: App|
                (#[trigger] ShowModeState::spec_key_effect(*old(self), mid, key))
                    && spec_after_modal(mid, *final(self)),
            old(self).input_mode == InputMode::Action ==> exists|mid: App|
                (#[trigger] ActionModalState::spec_key_effect(*old(self), mid, key, r))
                    && spec_after_modal(mid, *final(self)),
    {
        match self.input_mode {
            InputMode::Normal => NormalState::handle_key_event(self, key),
            InputMode::Tagging | InputMode::Untagging => {
                let quit = TagModalState::handle_key_event(self, key);
                let ghost mid = *self;
                if matches!(self.input_mode, InputMode::Normal) {
                    self.apply_filters();
                }
                proof {
                    assert(TagModalState::spec_key_effect(*old(self), mid, key)
                        && spec_after_modal(mid, *self));
                }
                quit
            },
            InputMode::Sorting => {
                let quit = SortState::handle_key_event(self, key);
                let ghost mid = *self;
                if matches!(self.input_mode, InputMode::Normal) {
                    self.apply_filters();
                }
                proof {
                    assert(SortState::spec_key_effect(*old(self), mid, key)
                        && spec_after_modal(mid, *self));
                }
                quit
            },
            InputMode::Filtering => {
                let quit = FilterModalState::handle_key_event(self, key);
                let ghost mid = *self;
                if matches!(self.input_mode, InputMode::Normal) {
                    self.apply_filters();
                }
                proof {
                    assert(FilterModalState::spec_key_effect(*old(self), mid, key)
                        && spec_after_modal(mid, *self));
                }
                quit
            },
            InputMode::Searching => SearchState::handle_key_event(self, key),
            InputMode::Showing => {
                let quit = ShowModeState::handle_key_event(self, key);
                let ghost mid = *self;
                if matches!(self.input_mode, InputMode::Normal) {
                    self.apply_filters();
                }
                proof {
                    assert(ShowModeState::spec_key_effect(*old(self), mid, key)
                        && spec_after_modal(mid, *self));
                }
                quit
            },
            InputMode::Action => {
                let quit = ActionModalState::handle_key_event(self, key);
                let ghost mid = *self;
                if matches!(self.input_mode, InputMode::Normal) {
                    self.apply_filters();
                }
                proof {
                    assert(ActionModalState::spec_key_effect(*old(self), mid, key, quit)
                        && spec_after_modal(mid, *self));
                }
                quit
            },
        }
    }
}

/// The pipeline of nothing is nothing: with an empty catalog the visible
/// list is empty whatever the filters say.
proof fn lemma_visible_empty(
    tf: crate::filter::FilterEntries,
    rf: crate::filter::FilterEntries,
    mode: ShowMode,
    orphans: Seq<Seq<char>>,
    search: Seq<char>,
    key: SortKey,
)
    ensures
        spec_visible(Seq::<PackageV>::empty(), tf, rf, mode, orphans, search, key) =~= Seq::<
            PackageV,
        >::empty(),
{
    reveal(Seq::filter);
    let e = Seq::<PackageV>::empty();
    assert(e.filter(|p: PackageV| crate::pipeline::spec_keeps_base(p, tf, rf, mode, orphans))
        =~= e);
    assert(e.filter(|p: PackageV| crate::pipeline::spec_search_ok(p, search)) =~= e);
    assert(crate::sort::spec_sort(key, e) =~= e);
}

} // verus!
