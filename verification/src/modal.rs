//! The modal sub-state machines: tagging, sorting, show mode, filtering
//! and the action launcher. Each owns an input buffer, a fuzzy-filtered
//! option list, a cursor and a focus; key handling that touches the whole
//! application lives with the application state.

use vstd::prelude::*;
use crate::config::{Action, ActionTypeV, ActionV, Config, ConfigKey};
use crate::filter::{FilterMap, FilterState, spec_cycle_backward, spec_cycle_forward, spec_state_of};
use crate::fuzzy::{fuzzy_hit, fuzzy_match, fuzzy_filter, spec_fuzzy_filter};
use crate::pkg::{ShowMode, SortKey};
use crate::text::{find_word_start, lemma_filter_step, spec_word_start};
use vstd::string::StrSliceExecFns;

verus! {

/// Which handler receives the next event; exactly one is ever active.
#[derive(Clone, Copy, Debug, PartialEq, Eq, Structural)]
pub enum InputMode {
    Normal,
    Tagging,
    Untagging,
    Sorting,
    Filtering,
    Searching,
    Showing,
    Action,
}

#[derive(Clone, Copy, Debug, PartialEq, Eq, Structural)]
pub enum ActionModalFocus {
    Input,
    List,
}

#[derive(Clone, Copy, Debug, PartialEq, Eq, Structural)]
pub enum FilterFocus {
    Search,
    Tags,
    Repos,
}

#[derive(Clone, Copy, Debug, PartialEq, Eq, Structural)]
pub enum TagModalFocus {
    Input,
    List,
}

/// The position a wrapping cursor moves to on "previous".
pub open spec fn spec_wrap_previous(sel: Option<usize>, len: int) -> int {
    match sel {
        Some(i) => if i == 0 {
            len - 1
        } else {
            i - 1
        },
        None => 0,
    }
}

/// The position a wrapping cursor moves to on "next".
pub open spec fn spec_wrap_next(sel: Option<usize>, len: int) -> int {
    match sel {
        Some(i) => if i + 1 >= len {
            0
        } else {
            i + 1
        },
        None => 0,
    }
}

/// The tag modal: adding a tag to, or removing one from, the selected
/// package.
pub struct TagModalState {
    pub input: String,
    pub filtered_tags: Vec<String>,
    pub selection: Option<usize>,
    pub focus: TagModalFocus,
}

impl TagModalState {
    pub fn new(all_tags: &Vec<String>) -> (r: Self)
        ensures
            r.input@.len() == 0,
            r.filtered_tags.deep_view() == all_tags.deep_view(),
            r.selection is None,
            r.focus == TagModalFocus::Input,
    {
        let filtered = all_tags.clone();
        proof {
            assert(filtered.deep_view() =~= all_tags.deep_view());
        }
        TagModalState {
            input: String::new(),
            filtered_tags: filtered,
            selection: None,
            focus: TagModalFocus::Input,
        }
    }

    /// Re-runs the fuzzy filter of the source list against the input and
    /// rewinds the cursor.
    pub fn update_filtered_tags(&mut self, source_tags: &Vec<String>)
        ensures
            final(self).input == old(self).input,
            final(self).focus == old(self).focus,
            final(self).filtered_tags.deep_view() == if old(self).input@.len() == 0 {
                source_tags.deep_view()
            } else {
                spec_fuzzy_filter(source_tags.deep_view(), old(self).input@)
            },
            final(self).selection == if final(self).filtered_tags@.len() == 0 {
                None::<usize>
            } else {
                Some(0usize)
            },
    {
        if self.input.as_str().unicode_len() == 0 {
            let filtered = source_tags.clone();
            proof {
                assert(filtered.deep_view() =~= source_tags.deep_view());
            }
            self.filtered_tags = filtered;
        } else {
            self.filtered_tags = fuzzy_filter(source_tags, self.input.as_str());
        }
        self.selection = if self.filtered_tags.len() == 0 {
            None
        } else {
            Some(0)
        };
        proof {
            assert(self.filtered_tags.deep_view().len() == self.filtered_tags@.len());
        }
    }

    /// Moves the cursor up with wrap-around and copies the tag under it
    /// into the input.
    pub fn select_previous_tag(&mut self)
        ensures
            final(self).filtered_tags == old(self).filtered_tags,
            final(self).focus == old(self).focus,
            old(self).filtered_tags@.len() == 0 ==> *final(self) == *old(self),
            old(self).filtered_tags@.len() > 0 ==> {
                let i = spec_wrap_previous(old(self).selection, old(self).filtered_tags@.len() as int);
                &&& final(self).selection == Some(i as usize)
                &&& (i < old(self).filtered_tags@.len() ==> final(self).input
                    == old(self).filtered_tags@[i])
                &&& (i >= old(self).filtered_tags@.len() ==> final(self).input == old(self).input)
            },
    {
        if self.filtered_tags.len() == 0 {
            return ;
        }
        let i: usize = match self.selection {
            Some(i) => if i == 0 {
                self.filtered_tags.len() - 1
            } else {
                i - 1
            },
            None => 0,
        };
        self.selection = Some(i);
        if i < self.filtered_tags.len() {
            self.input = self.filtered_tags[i].clone();
        }
    }

    /// Moves the cursor down with wrap-around and copies the tag under it
    /// into the input.
    pub fn select_next_tag(&mut self)
        ensures
            final(self).filtered_tags == old(self).filtered_tags,
            final(self).focus == old(self).focus,
            old(self).filtered_tags@.len() == 0 ==> *final(self) == *old(self),
            old(self).filtered_tags@.len() > 0 ==> {
                let i = spec_wrap_next(old(self).selection, old(self).filtered_tags@.len() as int);
                &&& final(self).selection == Some(i as usize)
                &&& (i < old(self).filtered_tags@.len() ==> final(self).input
                    == old(self).filtered_tags@[i])
                &&& (i >= old(self).filtered_tags@.len() ==> final(self).input == old(self).input)
            },
    {
        if self.filtered_tags.len() == 0 {
            return ;
        }
        let i: usize = match self.selection {
            Some(i) => if i >= self.filtered_tags.len() - 1 {
                0
            } else {
                i + 1
            },
            None => 0,
        };
        self.selection = Some(i);
        if i < self.filtered_tags.len() {
            self.input = self.filtered_tags[i].clone();
        }
    }
}

/// The sort picker: a fixed list of sort keys.
pub struct SortState {
    pub options: Vec<SortKey>,
    pub selection: Option<usize>,
    pub active_sort_key: SortKey,
}

impl SortState {
    pub fn new() -> (r: Self)
        ensures
            r.options@ == seq![
                SortKey::Name,
                SortKey::Size,
                SortKey::InstallDate,
                SortKey::UpdateDate,
                SortKey::Popularity,
            ],
            r.selection is None,
            r.active_sort_key == SortKey::Name,
    {
        let mut options: Vec<SortKey> = Vec::new();
        options.push(SortKey::Name);
        options.push(SortKey::Size);
        options.push(SortKey::InstallDate);
        options.push(SortKey::UpdateDate);
        options.push(SortKey::Popularity);
        proof {
            assert(options@ =~= seq![
                SortKey::Name,
                SortKey::Size,
                SortKey::InstallDate,
                SortKey::UpdateDate,
                SortKey::Popularity,
            ]);
        }
        SortState { options, selection: None, active_sort_key: SortKey::Name }
    }

    pub fn select_previous(&mut self)
        ensures
            final(self).options == old(self).options,
            final(self).active_sort_key == old(self).active_sort_key,
            final(self).selection == Some(
                (match old(self).selection {
                    Some(i) => if i == 0 {
                        if old(self).options@.len() == 0 {
                            0int
                        } else {
                            old(self).options@.len() - 1
                        }
                    } else {
                        i - 1
                    },
                    None => 0int,
                }) as usize,
            ),
    {
        let i: usize = match self.selection {
            Some(i) => if i == 0 {
                if self.options.len() == 0 {
                    0
                } else {
                    self.options.len() - 1
                }
            } else {
                i - 1
            },
            None => 0,
        };
        self.selection = Some(i);
    }

    pub fn select_next(&mut self)
        ensures
            final(self).options == old(self).options,
            final(self).active_sort_key == old(self).active_sort_key,
            final(self).selection == Some(
                spec_wrap_next(old(self).selection, old(self).options@.len() as int) as usize,
            ),
    {
        let i: usize = match self.selection {
            Some(i) => if self.options.len() == 0 || i >= self.options.len() - 1 {
                0
            } else {
                i + 1
            },
            None => 0,
        };
        self.selection = Some(i);
    }
}

impl Default for SortState {
    fn default() -> (r: Self)
        ensures
            r.active_sort_key == SortKey::Name,
            r.selection is None,
    {
        SortState::new()
    }
}

/// The show-mode picker: a fixed list of show modes.
pub struct ShowModeState {
    pub options: Vec<ShowMode>,
    pub selection: Option<usize>,
    pub active_show_mode: ShowMode,
}

impl ShowModeState {
    pub fn new() -> (r: Self)
        ensures
            r.options@ == seq![
                ShowMode::AllInstalled,
                ShowMode::ExplicitlyInstalled,
                ShowMode::Dependencies,
                ShowMode::Orphans,
                ShowMode::AllAvailable,
            ],
            r.selection is None,
            r.active_show_mode == ShowMode::AllInstalled,
    {
        let mut options: Vec<ShowMode> = Vec::new();
        options.push(ShowMode::AllInstalled);
        options.push(ShowMode::ExplicitlyInstalled);
        options.push(ShowMode::Dependencies);
        options.push(ShowMode::Orphans);
        options.push(ShowMode::AllAvailable);
        proof {
            assert(options@ =~= seq![
                ShowMode::AllInstalled,
                ShowMode::ExplicitlyInstalled,
                ShowMode::Dependencies,
                ShowMode::Orphans,
                ShowMode::AllAvailable,
            ]);
        }
        ShowModeState { options, selection: None, active_show_mode: ShowMode::AllInstalled }
    }

    pub fn select_previous(&mut self)
        ensures
            final(self).options == old(self).options,
            final(self).active_show_mode == old(self).active_show_mode,
            final(self).selection == Some(
                (match old(self).selection {
                    Some(i) => if i == 0 {
                        if old(self).options@.len() == 0 {
                            0int
                        } else {
                            old(self).options@.len() - 1
                        }
                    } else {
                        i - 1
                    },
                    None => 0int,
                }) as usize,
            ),
    {
        let i: usize = match self.selection {
            Some(i) => if i == 0 {
                if self.options.len() == 0 {
                    0
                } else {
                    self.options.len() - 1
                }
            } else {
                i - 1
            },
            None => 0,
        };
        self.selection = Some(i);
    }

    pub fn select_next(&mut self)
        ensures
            final(self).options == old(self).options,
            final(self).active_show_mode == old(self).active_show_mode,
            final(self).selection == Some(
                spec_wrap_next(old(self).selection, old(self).options@.len() as int) as usize,
            ),
    {
        let i: usize = match self.selection {
            Some(i) => if self.options.len() == 0 || i >= self.options.len() - 1 {
                0
            } else {
                i + 1
            },
            None => 0,
        };
        self.selection = Some(i);
    }

    /// Where the cursor lands when the picker opens: on an occurrence of
    /// the active mode when the options hold one, at the top otherwise.
    pub open spec fn spec_select_active_rel(pre: ShowModeState, post: ShowModeState) -> bool {
        &&& post.options == pre.options
        &&& post.active_show_mode == pre.active_show_mode
        &&& if exists|i: int|
            0 <= i < pre.options@.len() && (#[trigger] pre.options@[i]) == pre.active_show_mode {
            post.selection matches Some(i) && i < pre.options@.len() && pre.options@[i as int]
                == pre.active_show_mode
        } else {
            post.selection == Some(0usize)
        }
    }

    /// Puts the cursor on the active show mode, or on the first option
    /// when the active mode is not listed.
    pub fn select_active(&mut self)
        ensures
            Self::spec_select_active_rel(*old(self), *final(self)),
    {
        let mut i: usize = 0;
        while i < self.options.len()
            invariant
                *self == *old(self),
                i <= self.options.len(),
                forall|j: int| 0 <= j < i ==> self.options@[j] != self.active_show_mode,
            decreases self.options.len() - i,
        {
            if self.options[i] == self.active_show_mode {
                self.selection = Some(i);
                assert(self.options@[i as int] == self.active_show_mode);
                return ;
            }
            i = i + 1;
        }
        self.selection = Some(0);
        proof {
            assert(!(exists|j: int|
                0 <= j < self.options@.len() && (#[trigger] self.options@[j])
                    == self.active_show_mode));
        }
    }
}

impl Default for ShowModeState {
    fn default() -> (r: Self)
        ensures
            r.active_show_mode == ShowMode::AllInstalled,
            r.selection is None,
    {
        ShowModeState::new()
    }
}

/// The filter modal: one search box over two parallel lists (tags and
/// repositories) whose entries cycle through the tri-state filter.
pub struct FilterModalState {
    pub input: String,
    pub cursor_position: usize,
    pub focus: FilterFocus,
    pub tag_filters: FilterMap,
    pub repo_filters: FilterMap,
    pub filtered_tags: Vec<String>,
    pub filtered_repos: Vec<String>,
    pub tag_selection: Option<usize>,
    pub repo_selection: Option<usize>,
}

impl FilterModalState {
    pub open spec fn wf(&self) -> bool {
        &&& self.tag_filters.wf()
        &&& self.repo_filters.wf()
        &&& self.cursor_position <= self.input@.len()
    }

    pub fn new(all_tags: &Vec<String>, all_repos: &Vec<String>) -> (r: Self)
        ensures
            r.input@.len() == 0,
            r.cursor_position == 0,
            r.focus == FilterFocus::Search,
            r.tag_filters@ =~= Seq::<(Seq<char>, FilterState)>::empty(),
            r.repo_filters@ =~= Seq::<(Seq<char>, FilterState)>::empty(),
            r.filtered_tags.deep_view() == all_tags.deep_view(),
            r.filtered_repos.deep_view() == all_repos.deep_view(),
            r.tag_selection is None,
            r.repo_selection is None,
            r.wf(),
    {
        let ftags = all_tags.clone();
        let frepos = all_repos.clone();
        proof {
            assert(ftags.deep_view() =~= all_tags.deep_view());
            assert(frepos.deep_view() =~= all_repos.deep_view());
        }
        FilterModalState {
            input: String::new(),
            cursor_position: 0,
            focus: FilterFocus::Search,
            tag_filters: FilterMap::new(),
            repo_filters: FilterMap::new(),
            filtered_tags: ftags,
            filtered_repos: frepos,
            tag_selection: None,
            repo_selection: None,
        }
    }

    /// Re-runs the fuzzy filter of both lists against the input and
    /// rewinds both cursors.
    pub fn update_filtered_options(&mut self, all_tags: &Vec<String>, all_repos: &Vec<String>)
        ensures
            final(self).input == old(self).input,
            final(self).cursor_position == old(self).cursor_position,
            final(self).focus == old(self).focus,
            final(self).tag_filters == old(self).tag_filters,
            final(self).repo_filters == old(self).repo_filters,
            final(self).filtered_tags.deep_view() == if old(self).input@.len() == 0 {
                all_tags.deep_view()
            } else {
                spec_fuzzy_filter(all_tags.deep_view(), old(self).input@)
            },
            final(self).filtered_repos.deep_view() == if old(self).input@.len() == 0 {
                all_repos.deep_view()
            } else {
                spec_fuzzy_filter(all_repos.deep_view(), old(self).input@)
            },
            final(self).tag_selection == if final(self).filtered_tags@.len() == 0 {
                None::<usize>
            } else {
                Some(0usize)
            },
            final(self).repo_selection == if final(self).filtered_repos@.len() == 0 {
                None::<usize>
            } else {
                Some(0usize)
            },
    {
        if self.input.as_str().unicode_len() == 0 {
            let ftags = all_tags.clone();
            let frepos = all_repos.clone();
            proof {
                assert(ftags.deep_view() =~= all_tags.deep_view());
                assert(frepos.deep_view() =~= all_repos.deep_view());
            }
            self.filtered_tags = ftags;
            self.filtered_repos = frepos;
        } else {
            self.filtered_tags = fuzzy_filter(all_tags, self.input.as_str());
            self.filtered_repos = fuzzy_filter(all_repos, self.input.as_str());
        }
        self.tag_selection = if self.filtered_tags.len() == 0 {
            None
        } else {
            Some(0)
        };
        self.repo_selection = if self.filtered_repos.len() == 0 {
            None
        } else {
            Some(0)
        };
        proof {
            assert(self.filtered_tags.deep_view().len() == self.filtered_tags@.len());
            assert(self.filtered_repos.deep_view().len() == self.filtered_repos@.len());
        }
    }

    /// How one cycle step relates the modal before and after: the key
    /// under the cursor of the focused list advanced, nothing else.
    pub open spec fn spec_cycle_rel(pre: Self, post: Self, forward: bool) -> bool {
        &&& post.input == pre.input
        &&& post.cursor_position == pre.cursor_position
        &&& post.focus == pre.focus
        &&& post.filtered_tags == pre.filtered_tags
        &&& post.filtered_repos == pre.filtered_repos
        &&& post.tag_selection == pre.tag_selection
        &&& post.repo_selection == pre.repo_selection
        &&& (pre.focus == FilterFocus::Search ==> post == pre)
        &&& (pre.focus == FilterFocus::Tags ==> post.repo_filters == pre.repo_filters)
        &&& (pre.focus == FilterFocus::Repos ==> post.tag_filters == pre.tag_filters)
        &&& (pre.focus == FilterFocus::Tags ==> (match pre.tag_selection {
            Some(sel) => if sel < pre.filtered_tags@.len() {
                let key = pre.filtered_tags.deep_view()[sel as int];
                let st0 = spec_state_of(pre.tag_filters@, key);
                &&& spec_state_of(post.tag_filters@, key) == (if forward {
                    spec_cycle_forward(st0)
                } else {
                    spec_cycle_backward(st0)
                })
                &&& forall|k: Seq<char>| k != key ==> spec_state_of(post.tag_filters@, k)
                    == spec_state_of(pre.tag_filters@, k)
            } else {
                post.tag_filters == pre.tag_filters
            },
            None => post.tag_filters == pre.tag_filters,
        }))
        &&& (pre.focus == FilterFocus::Repos ==> (match pre.repo_selection {
            Some(sel) => if sel < pre.filtered_repos@.len() {
                let key = pre.filtered_repos.deep_view()[sel as int];
                let st0 = spec_state_of(pre.repo_filters@, key);
                &&& spec_state_of(post.repo_filters@, key) == (if forward {
                    spec_cycle_forward(st0)
                } else {
                    spec_cycle_backward(st0)
                })
                &&& forall|k: Seq<char>| k != key ==> spec_state_of(post.repo_filters@, k)
                    == spec_state_of(pre.repo_filters@, k)
            } else {
                post.repo_filters == pre.repo_filters
            },
            None => post.repo_filters == pre.repo_filters,
        }))
    }

    /// Advances the tri-state of the key under the cursor of the focused
    /// list, forward or backward; no other key's state changes.
    pub fn cycle_filter_state(&mut self, forward: bool)
        requires
            old(self).wf(),
        ensures
            final(self).wf(),
            Self::spec_cycle_rel(*old(self), *final(self), forward),
    {
        match self.focus {
            FilterFocus::Search => {},
            FilterFocus::Tags => {
                match self.tag_selection {
                    Some(sel) => {
                        if sel < self.filtered_tags.len() {
                            let key = self.filtered_tags[sel].clone();
                            proof {
                                assert(key@ == self.filtered_tags.deep_view()[sel as int]);
                            }
                            let current = self.tag_filters.get(key.as_str());
                            let next = if forward {
                                current.cycle_forward()
                            } else {
                                current.cycle_backward()
                            };
                            self.tag_filters.set(key.as_str(), next);
                        }
                    },
                    None => {},
                }
            },
            FilterFocus::Repos => {
                match self.repo_selection {
                    Some(sel) => {
                        if sel < self.filtered_repos.len() {
                            let key = self.filtered_repos[sel].clone();
                            proof {
                                assert(key@ == self.filtered_repos.deep_view()[sel as int]);
                            }
                            let current = self.repo_filters.get(key.as_str());
                            let next = if forward {
                                current.cycle_forward()
                            } else {
                                current.cycle_backward()
                            };
                            self.repo_filters.set(key.as_str(), next);
                        }
                    },
                    None => {},
                }
            },
        }
    }
}

/// The action launcher: a fuzzy-searchable list over every loaded action.
pub struct ActionModalState {
    pub input: String,
    pub all_actions: Vec<Action>,
    pub filtered_options: Vec<Action>,
    pub selection: Option<usize>,
    pub focus: ActionModalFocus,
}

impl ActionModalState {
    pub fn new() -> (r: Self)
        ensures
            r.input@.len() == 0,
            r.all_actions@.len() == 0,
            r.filtered_options@.len() == 0,
            r.selection is None,
            r.focus == ActionModalFocus::Input,
    {
        ActionModalState {
            input: String::new(),
            all_actions: Vec::new(),
            filtered_options: Vec::new(),
            selection: None,
            focus: ActionModalFocus::Input,
        }
    }

    /// Loads the configured actions plus the two built-in `Local` actions,
    /// and filters them against the current input.
    pub fn load_actions_from_config(&mut self, config: &Config)
        ensures
            final(self).input == old(self).input,
            final(self).focus == old(self).focus,
            final(self).all_actions.deep_view() == config.actions.deep_view() + seq![
                ActionV {
                    name: "Add Tag"@,
                    key: ConfigKey { key: 'a', shift: false },
                    action_type: ActionTypeV::Local,
                },
                ActionV {
                    name: "Remove Tag"@,
                    key: ConfigKey { key: 'd', shift: false },
                    action_type: ActionTypeV::Local,
                },
            ],
            final(self).filtered_options.deep_view() == if old(self).input@.len() == 0 {
                final(self).all_actions.deep_view()
            } else {
                final(self).all_actions.deep_view().filter(
                    |a: ActionV| fuzzy_hit(a.name, old(self).input@),
                )
            },
            final(self).selection == if final(self).filtered_options@.len() == 0 {
                None::<usize>
            } else {
                Some(0usize)
            },
    {
        let mut actions = config.actions.clone();
        proof {
            assert(actions.deep_view() =~= config.actions.deep_view());
        }
        actions.push(Action::new_local("Add Tag", 'a', false));
        actions.push(Action::new_local("Remove Tag", 'd', false));
        proof {
            assert(actions.deep_view() =~= config.actions.deep_view() + seq![
                ActionV {
                    name: "Add Tag"@,
                    key: ConfigKey { key: 'a', shift: false },
                    action_type: ActionTypeV::Local,
                },
                ActionV {
                    name: "Remove Tag"@,
                    key: ConfigKey { key: 'd', shift: false },
                    action_type: ActionTypeV::Local,
                },
            ]);
        }
        self.all_actions = actions;
        self.update_filtered_options();
    }

    /// Re-runs the fuzzy filter of the action list against the input and
    /// rewinds the cursor.
    pub fn update_filtered_options(&mut self)
        ensures
            final(self).input == old(self).input,
            final(self).focus == old(self).focus,
            final(self).all_actions == old(self).all_actions,
            final(self).filtered_options.deep_view() == if old(self).input@.len() == 0 {
                old(self).all_actions.deep_view()
            } else {
                old(self).all_actions.deep_view().filter(
                    |a: ActionV| fuzzy_hit(a.name, old(self).input@),
                )
            },
            final(self).selection == if final(self).filtered_options@.len() == 0 {
                None::<usize>
            } else {
                Some(0usize)
            },
    {
        if self.input.as_str().unicode_len() == 0 {
            let filtered = self.all_actions.clone();
            proof {
                assert(filtered.deep_view() =~= self.all_actions.deep_view());
            }
            self.filtered_options = filtered;
        } else {
            let ghost pred = |a: ActionV| fuzzy_hit(a.name, self.input@);
            let mut out: Vec<Action> = Vec::new();
            proof {
                assert(self.all_actions.deep_view().take(0).filter(pred) =~= Seq::<
                    ActionV,
                >::empty());
                reveal(Seq::filter);
            }
            let mut i: usize = 0;
            while i < self.all_actions.len()
                invariant
                    i <= self.all_actions.len(),
                    self.all_actions.deep_view().len() == self.all_actions.len(),
                    self.input@.len() > 0,
                    out.deep_view() == self.all_actions.deep_view().take(i as int).filter(pred),
                    pred == (|a: ActionV| fuzzy_hit(a.name, self.input@)),
                decreases self.all_actions.len() - i,
            {
                let hit = fuzzy_match(self.all_actions[i].name.as_str(), self.input.as_str());
                proof {
                    lemma_filter_step(self.all_actions.deep_view(), pred, i as int);
                    assert(self.all_actions.deep_view()[i as int] == self.all_actions@[i as int]@);
                }
                if hit.is_some() {
                    out.push(self.all_actions[i].clone());
                    proof {
                        assert(out.deep_view() =~= self.all_actions.deep_view().take(
                            i + 1,
                        ).filter(pred));
                    }
                }
                i = i + 1;
            }
            proof {
                assert(self.all_actions.deep_view().take(self.all_actions.deep_view().len() as int)
                    =~= self.all_actions.deep_view());
            }
            self.filtered_options = out;
        }
        self.selection = if self.filtered_options.len() == 0 {
            None
        } else {
            Some(0)
        };
        proof {
            assert(self.filtered_options.deep_view().len() == self.filtered_options@.len());
        }
    }

    /// Moves the cursor up with wrap-around.
    pub fn select_previous(&mut self)
        ensures
            final(self).input == old(self).input,
            final(self).focus == old(self).focus,
            final(self).all_actions == old(self).all_actions,
            final(self).filtered_options == old(self).filtered_options,
            old(self).filtered_options@.len() == 0 ==> *final(self) == *old(self),
            old(self).filtered_options@.len() > 0 ==> final(self).selection == Some(
                spec_wrap_previous(
                    old(self).selection,
                    old(self).filtered_options@.len() as int,
                ) as usize,
            ),
    {
        if self.filtered_options.len() == 0 {
            return ;
        }
        let i: usize = match self.selection {
            Some(i) => if i == 0 {
                self.filtered_options.len() - 1
            } else {
                i - 1
            },
            None => 0,
        };
        self.selection = Some(i);
    }

    /// Moves the cursor down with wrap-around.
    pub fn select_next(&mut self)
        ensures
            final(self).input == old(self).input,
            final(self).focus == old(self).focus,
            final(self).all_actions == old(self).all_actions,
            final(self).filtered_options == old(self).filtered_options,
            old(self).filtered_options@.len() == 0 ==> *final(self) == *old(self),
            old(self).filtered_options@.len() > 0 ==> final(self).selection == Some(
                spec_wrap_next(old(self).selection, old(self).filtered_options@.len() as int) as usize,
            ),
    {
        if self.filtered_options.len() == 0 {
            return ;
        }
        let i: usize = match self.selection {
            Some(i) => if i >= self.filtered_options.len() - 1 {
                0
            } else {
                i + 1
            },
            None => 0,
        };
        self.selection = Some(i);
    }
}

impl Default for ActionModalState {
    fn default() -> (r: Self)
        ensures
            r.input@.len() == 0,
            r.all_actions@.len() == 0,
            r.filtered_options@.len() == 0,
            r.selection is None,
            r.focus == ActionModalFocus::Input,
    {
        ActionModalState::new()
    }
}

/// Deletes the word before the end of the buffer: trailing whitespace and
/// then everything back to the previous space.
pub fn delete_word_backward(text: &mut String)
    ensures
        final(text)@ == old(text)@.take(spec_word_start(old(text)@, old(text)@.len() as int)),
{
    let len = text.as_str().unicode_len();
    if len == 0 {
        proof {
            assert(old(text)@.take(spec_word_start(old(text)@, 0)) =~= old(text)@);
        }
        return ;
    }
    let k = find_word_start(text.as_str(), len);
    let cut = String::from_str(text.as_str().substring_char(0, k));
    proof {
        assert(cut@ =~= text@.take(k as int));
    }
    *text = cut;
}

} // verus!
