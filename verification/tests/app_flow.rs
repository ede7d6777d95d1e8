use pacdash::app::{App, LoadedData};
use pacdash::config::{Action, ActionType, Config, ConfigKey};
use pacdash::filter::FilterState;
use pacdash::keys::{Area, Key, KeyPress, MouseInput, MouseKind};
use pacdash::log::MessageType;
use pacdash::modal::{
    ActionModalState, FilterFocus, FilterModalState, InputMode, ShowModeState, SortState,
    TagModalFocus, TagModalState,
};
use pacdash::pkg::{Package, Repository, ShowMode, SortKey};
use pacdash::tagdb::TagDb;

fn pkg(name: &str, explicit: bool, tags: &[&str]) -> Package {
    Package {
        name: name.to_string(),
        version: "1.0".to_string(),
        description: String::new(),
        repository: Repository::Core,
        install_date: 0,
        build_date: 0,
        size_kib: 0,
        is_explicit: explicit,
        tags: tags.iter().map(|t| t.to_string()).collect(),
        popularity: None,
        num_votes: None,
    }
}

fn fresh_app(config: Config) -> App {
    App::new(Ok(config), TagDb::new())
}

fn load(app: &mut App, packages: Vec<Package>) {
    let data = LoadedData {
        packages,
        available_packages: Vec::new(),
        all_repos: Vec::new(),
        orphan_package_names: Vec::new(),
    };
    app.on_data_loaded(data);
}

fn press(code: Key) -> KeyPress {
    KeyPress { code, shift: false, ctrl: false }
}

#[test]
fn action_requiring_package_without_selection_is_rejected() {
    let action = Action {
        name: "Inspect".to_string(),
        key: ConfigKey { key: 'x', shift: false },
        action_type: ActionType::Command {
            command: vec!["inspect".to_string(), "{package}".to_string()],
            requires_package: true,
            show_mode_whitelist: vec![],
            show_mode_blacklist: vec![],
        },
    };
    let mut app = fresh_app(Config { actions: vec![action.clone()] });
    load(&mut app, Vec::new());
    let before = app.output.messages.len();
    assert!(app.selected_package.is_none());
    let dispatched = app.execute_config_action(&action);
    assert!(!dispatched);
    assert_eq!(app.output.messages.len(), before + 1);
    let last = app.output.messages.last().unwrap();
    assert_eq!(last.msg_type, MessageType::Error);
    assert_eq!(last.text, "Action 'Inspect' requires a selected package.");
    assert_eq!(app.input_mode, InputMode::Normal);
    assert!(app.command_to_run.is_none());
}

#[test]
fn whitelisted_hotkey_outside_its_mode_warns() {
    let action = Action {
        name: "Sync".to_string(),
        key: ConfigKey { key: 'S', shift: true },
        action_type: ActionType::Command {
            command: vec!["sync".to_string()],
            requires_package: false,
            show_mode_whitelist: vec!["All Installed".to_string()],
            show_mode_blacklist: vec![],
        },
    };
    let mut app = fresh_app(Config { actions: vec![action] });
    load(&mut app, vec![pkg("vim", true, &[])]);
    app.show_mode_state.active_show_mode = ShowMode::AllAvailable;
    app.apply_filters();
    let before = app.output.messages.len();
    let quit = app.handle_key(KeyPress { code: Key::Char('S'), shift: true, ctrl: false });
    assert!(!quit);
    assert_eq!(app.output.messages.len(), before + 1);
    let last = app.output.messages.last().unwrap();
    assert_eq!(last.msg_type, MessageType::Warning);
    assert_eq!(last.text, "Action 'Sync' can only be run in modes: All Installed");
    assert_eq!(app.input_mode, InputMode::Normal);
    assert!(app.command_to_run.is_none());
}

#[test]
fn blacklisted_action_warns_with_mode_name() {
    let action = Action {
        name: "Purge".to_string(),
        key: ConfigKey { key: 'P', shift: true },
        action_type: ActionType::Command {
            command: vec!["purge".to_string()],
            requires_package: false,
            show_mode_whitelist: vec![],
            show_mode_blacklist: vec!["All Available".to_string()],
        },
    };
    let mut app = fresh_app(Config { actions: vec![action.clone()] });
    load(&mut app, Vec::new());
    app.show_mode_state.active_show_mode = ShowMode::AllAvailable;
    let dispatched = app.execute_config_action(&action);
    assert!(!dispatched);
    let last = app.output.messages.last().unwrap();
    assert_eq!(last.msg_type, MessageType::Warning);
    assert_eq!(last.text, "Action 'Purge' cannot be run in mode: All Available");
}

#[test]
fn accepted_hotkey_schedules_the_templated_command() {
    let action = Action {
        name: "Install".to_string(),
        key: ConfigKey { key: 'i', shift: false },
        action_type: ActionType::Command {
            command: vec!["pacman".to_string(), "-S".to_string(), "{package}".to_string()],
            requires_package: true,
            show_mode_whitelist: vec![],
            show_mode_blacklist: vec![],
        },
    };
    let mut app = fresh_app(Config { actions: vec![action] });
    load(&mut app, vec![pkg("vim", true, &[])]);
    assert_eq!(app.selected_package, Some(0));
    let quit = app.handle_key(press(Key::Char('i')));
    assert!(quit);
    assert_eq!(
        app.command_to_run,
        Some(vec!["pacman".to_string(), "-S".to_string(), "vim".to_string()])
    );
}

#[test]
fn placeholder_substituted_even_without_requirement() {
    // an action that does not require a package still gets the selected name
    let action = Action {
        name: "Info".to_string(),
        key: ConfigKey { key: 'n', shift: false },
        action_type: ActionType::Command {
            command: vec!["pacman".to_string(), "-Qi".to_string(), "{package}".to_string()],
            requires_package: false,
            show_mode_whitelist: vec![],
            show_mode_blacklist: vec![],
        },
    };
    let mut app = fresh_app(Config { actions: vec![action.clone()] });
    load(&mut app, vec![pkg("vim", true, &[])]);
    assert_eq!(app.selected_package, Some(0));
    assert!(app.execute_config_action(&action));
    assert_eq!(
        app.command_to_run,
        Some(vec!["pacman".to_string(), "-Qi".to_string(), "vim".to_string()])
    );
    // with nothing selected the placeholder stays literal
    let mut app = fresh_app(Config { actions: vec![action.clone()] });
    load(&mut app, Vec::new());
    assert!(app.execute_config_action(&action));
    assert_eq!(
        app.command_to_run,
        Some(vec!["pacman".to_string(), "-Qi".to_string(), "{package}".to_string()])
    );
}

#[test]
fn quit_key_leaves_normal_mode() {
    let mut app = fresh_app(Config { actions: vec![] });
    load(&mut app, Vec::new());
    assert!(app.handle_key(press(Key::Char('q'))));
}

#[test]
fn navigation_wraps_around_the_visible_list() {
    let mut app = fresh_app(Config { actions: vec![] });
    load(&mut app, vec![pkg("a", true, &[]), pkg("b", true, &[]), pkg("c", true, &[])]);
    assert_eq!(app.selected_package, Some(0));
    app.handle_key(press(Key::Char('j')));
    assert_eq!(app.selected_package, Some(1));
    app.handle_key(press(Key::Char('j')));
    app.handle_key(press(Key::Char('j')));
    assert_eq!(app.selected_package, Some(0));
    app.handle_key(press(Key::Char('k')));
    assert_eq!(app.selected_package, Some(2));
}

#[test]
fn sort_modal_commits_the_picked_key() {
    let mut app = fresh_app(Config { actions: vec![] });
    load(&mut app, Vec::new());
    app.handle_key(press(Key::Char('s')));
    assert_eq!(app.input_mode, InputMode::Sorting);
    assert_eq!(app.sort_state.selection, Some(0));
    app.handle_key(press(Key::Char('j')));
    assert_eq!(app.sort_state.selection, Some(1));
    app.handle_key(press(Key::Enter));
    assert_eq!(app.input_mode, InputMode::Normal);
    assert_eq!(app.sort_state.active_sort_key, SortKey::Size);
}

#[test]
fn show_mode_modal_commits_the_picked_mode() {
    let mut app = fresh_app(Config { actions: vec![] });
    load(&mut app, vec![pkg("vim", true, &[]), pkg("glibc", false, &[])]);
    app.handle_key(press(Key::Char('v')));
    assert_eq!(app.input_mode, InputMode::Showing);
    app.handle_key(press(Key::Char('j')));
    app.handle_key(press(Key::Char('j')));
    app.handle_key(press(Key::Enter));
    assert_eq!(app.input_mode, InputMode::Normal);
    assert_eq!(app.show_mode_state.active_show_mode, ShowMode::Dependencies);
    let visible: Vec<String> =
        app.state.filtered_packages.iter().map(|p| p.name.clone()).collect();
    assert_eq!(visible, vec!["glibc".to_string()]);
}

#[test]
fn search_narrows_as_typed_and_esc_restores() {
    let mut app = fresh_app(Config { actions: vec![] });
    load(&mut app, vec![pkg("vim", true, &[]), pkg("glibc", true, &[])]);
    app.handle_key(press(Key::Char('/')));
    assert_eq!(app.input_mode, InputMode::Searching);
    app.handle_key(press(Key::Char('v')));
    app.handle_key(press(Key::Char('m')));
    let visible: Vec<String> =
        app.state.filtered_packages.iter().map(|p| p.name.clone()).collect();
    assert_eq!(visible, vec!["vim".to_string()]);
    app.handle_key(press(Key::Esc));
    assert_eq!(app.input_mode, InputMode::Normal);
    assert_eq!(app.search_input, "");
    assert_eq!(app.state.filtered_packages.len(), 2);
}

#[test]
fn tag_commit_updates_package_and_known_tags() {
    let mut app = fresh_app(Config { actions: vec![] });
    load(&mut app, vec![pkg("vim", true, &[])]);
    app.handle_key(press(Key::Char('a')));
    assert_eq!(app.input_mode, InputMode::Tagging);
    for c in "editor".chars() {
        app.handle_key(press(Key::Char(c)));
    }
    app.handle_key(press(Key::Enter));
    assert_eq!(app.input_mode, InputMode::Normal);
    // the change is only staged until the write is confirmed
    assert!(app.pending_tag_change.is_some());
    assert!(app.state.packages[0].tags.is_empty());
    app.finish_tag_commit(None);
    assert!(app.pending_tag_change.is_none());
    assert_eq!(app.state.packages[0].tags, vec!["editor".to_string()]);
    assert_eq!(app.state.all_tags, vec!["editor".to_string()]);
    assert_eq!(
        app.output.messages.last().unwrap().text,
        "Added tag 'editor' to 'vim'"
    );
}

#[test]
fn failed_save_discards_the_staged_change() {
    let mut app = fresh_app(Config { actions: vec![] });
    load(&mut app, vec![pkg("vim", true, &[])]);
    app.handle_key(press(Key::Char('a')));
    for c in "editor".chars() {
        app.handle_key(press(Key::Char(c)));
    }
    app.handle_key(press(Key::Enter));
    assert!(app.pending_tag_change.is_some());
    app.finish_tag_commit(Some("disk full".to_string()));
    // state stays at its last good value; only the failure is logged
    assert!(app.pending_tag_change.is_none());
    assert!(app.state.packages[0].tags.is_empty());
    assert!(app.state.all_tags.is_empty());
    assert!(app.tag_db.tags_of("vim").is_empty());
    let last = app.output.messages.last().unwrap();
    assert_eq!(last.msg_type, MessageType::Error);
    assert_eq!(last.text, "Error: failed to save tags: disk full");
}

#[test]
fn untag_commit_removes_the_tag_again() {
    let mut app = fresh_app(Config { actions: vec![] });
    load(&mut app, vec![pkg("vim", true, &[])]);
    app.handle_key(press(Key::Char('a')));
    for c in "foo".chars() {
        app.handle_key(press(Key::Char(c)));
    }
    app.handle_key(press(Key::Enter));
    app.finish_tag_commit(None);
    assert_eq!(app.state.packages[0].tags, vec!["foo".to_string()]);
    // remove it again through the untag modal
    app.handle_key(press(Key::Char('d')));
    assert_eq!(app.input_mode, InputMode::Untagging);
    for c in "foo".chars() {
        app.handle_key(press(Key::Char(c)));
    }
    app.handle_key(press(Key::Enter));
    app.finish_tag_commit(None);
    assert_eq!(app.input_mode, InputMode::Normal);
    assert!(app.state.packages[0].tags.is_empty());
    assert_eq!(
        app.output.messages.last().unwrap().text,
        "Removed tag 'foo' from 'vim'"
    );
}

#[test]
fn untag_without_tags_warns() {
    let mut app = fresh_app(Config { actions: vec![] });
    load(&mut app, vec![pkg("vim", true, &[])]);
    let before = app.output.messages.len();
    app.handle_key(press(Key::Char('d')));
    assert_eq!(app.input_mode, InputMode::Normal);
    assert_eq!(app.output.messages.len(), before + 1);
    assert_eq!(
        app.output.messages.last().unwrap().text,
        "Selected package has no tags to remove."
    );
    assert_eq!(app.output.messages.last().unwrap().msg_type, MessageType::Warning);
}

#[test]
fn blank_tag_commit_is_a_no_op() {
    let mut app = fresh_app(Config { actions: vec![] });
    load(&mut app, vec![pkg("vim", true, &[])]);
    app.handle_key(press(Key::Char('a')));
    app.handle_key(press(Key::Char(' ')));
    let before_len = app.output.messages.len();
    app.handle_key(press(Key::Enter));
    assert_eq!(app.input_mode, InputMode::Normal);
    assert!(app.pending_tag_change.is_none());
    assert!(app.state.packages[0].tags.is_empty());
    assert_eq!(app.output.messages.len(), before_len);
}

#[test]
fn filter_modal_cycles_the_selected_tag() {
    let mut app = fresh_app(Config { actions: vec![] });
    let mut with_tags = pkg("vim", true, &["editor"]);
    with_tags.tags = vec!["editor".to_string()];
    // seed the known tags through the store so the modal lists them
    pacdash::tagdb::add_tag(&mut app.tag_db, "vim", "editor");
    load(&mut app, vec![with_tags, pkg("glibc", false, &[])]);
    assert_eq!(app.state.all_tags, vec!["editor".to_string()]);
    app.handle_key(press(Key::Char('f')));
    assert_eq!(app.input_mode, InputMode::Filtering);
    app.handle_key(press(Key::Tab));
    assert_eq!(app.filter_state.focus, FilterFocus::Tags);
    app.handle_key(press(Key::Enter));
    assert_eq!(app.filter_state.tag_filters.get("editor"), FilterState::Include);
    app.handle_key(press(Key::Esc));
    assert_eq!(app.input_mode, InputMode::Normal);
    let visible: Vec<String> =
        app.state.filtered_packages.iter().map(|p| p.name.clone()).collect();
    assert_eq!(visible, vec!["vim".to_string()]);
}

#[test]
fn filter_state_persists_across_modal_sessions() {
    let mut app = fresh_app(Config { actions: vec![] });
    pacdash::tagdb::add_tag(&mut app.tag_db, "vim", "editor");
    load(&mut app, vec![pkg("vim", true, &["editor"])]);
    app.handle_key(press(Key::Char('f')));
    app.handle_key(press(Key::Tab));
    app.handle_key(press(Key::Enter));
    app.handle_key(press(Key::Esc));
    // reopening the modal keeps the map
    app.handle_key(press(Key::Char('f')));
    assert_eq!(app.filter_state.tag_filters.get("editor"), FilterState::Include);
    app.handle_key(press(Key::Esc));
}

#[test]
fn action_modal_runs_a_single_match_from_the_input() {
    let action = Action {
        name: "Refresh".to_string(),
        key: ConfigKey { key: 'r', shift: false },
        action_type: ActionType::Command {
            command: vec!["refresh".to_string()],
            requires_package: false,
            show_mode_whitelist: vec![],
            show_mode_blacklist: vec![],
        },
    };
    let mut app = fresh_app(Config { actions: vec![action] });
    load(&mut app, Vec::new());
    app.handle_key(press(Key::Char('?')));
    assert_eq!(app.input_mode, InputMode::Action);
    assert_eq!(app.action_state.all_actions.len(), 3);
    for c in "Refresh".chars() {
        app.handle_key(press(Key::Char(c)));
    }
    assert_eq!(app.action_state.filtered_options.len(), 1);
    let quit = app.handle_key(press(Key::Enter));
    assert!(quit);
    assert_eq!(app.command_to_run, Some(vec!["refresh".to_string()]));
}

#[test]
fn action_modal_opens_tagging_through_local_action() {
    let mut app = fresh_app(Config { actions: vec![] });
    load(&mut app, vec![pkg("vim", true, &[])]);
    app.handle_key(press(Key::Char('?')));
    for c in "Add".chars() {
        app.handle_key(press(Key::Char(c)));
    }
    assert_eq!(app.action_state.filtered_options.len(), 1);
    let quit = app.handle_key(press(Key::Enter));
    assert!(!quit);
    assert_eq!(app.input_mode, InputMode::Tagging);
}

#[test]
fn modal_states_seed_and_navigate() {
    let tags = vec!["a".to_string(), "b".to_string(), "c".to_string()];
    let mut tm = TagModalState::new(&tags);
    assert_eq!(tm.filtered_tags, tags);
    tm.selection = Some(0);
    tm.select_next_tag();
    assert_eq!(tm.selection, Some(1));
    assert_eq!(tm.input, "b");
    tm.select_previous_tag();
    tm.select_previous_tag();
    assert_eq!(tm.selection, Some(2));
    assert_eq!(tm.input, "c");
    tm.focus = TagModalFocus::List;

    let mut ss = SortState::new();
    assert_eq!(ss.options.len(), 5);
    ss.select_next();
    assert_eq!(ss.selection, Some(0));
    ss.select_previous();
    assert_eq!(ss.selection, Some(4));

    let mut sm = ShowModeState::new();
    sm.active_show_mode = ShowMode::Orphans;
    sm.select_active();
    assert_eq!(sm.selection, Some(3));
    // an active mode missing from the options parks the cursor at the top
    sm.options = vec![ShowMode::AllInstalled, ShowMode::AllAvailable];
    sm.select_active();
    assert_eq!(sm.selection, Some(0));

    let mut am = ActionModalState::new();
    let cfg = Config { actions: vec![] };
    am.load_actions_from_config(&cfg);
    assert_eq!(am.all_actions.len(), 2);
    assert_eq!(am.filtered_options.len(), 2);
    assert_eq!(am.selection, Some(0));

    let mut fm = FilterModalState::new(&tags, &Vec::new());
    assert_eq!(fm.filtered_tags, tags);
    assert!(fm.filtered_repos.is_empty());
    fm.update_filtered_options(&tags, &Vec::new());
    assert_eq!(fm.tag_selection, Some(0));
    assert_eq!(fm.repo_selection, None);
}

#[test]
fn word_deletion_in_buffers() {
    let mut s = "hello brave world".to_string();
    pacdash::modal::delete_word_backward(&mut s);
    assert_eq!(s, "hello brave ");
    pacdash::modal::delete_word_backward(&mut s);
    assert_eq!(s, "hello ");
    let mut s = "word   ".to_string();
    pacdash::modal::delete_word_backward(&mut s);
    assert_eq!(s, "");
}

#[test]
fn search_word_delete_respects_the_cursor() {
    let mut app = fresh_app(Config { actions: vec![] });
    load(&mut app, vec![pkg("vim", true, &[])]);
    app.handle_key(press(Key::Char('/')));
    for c in "one two".chars() {
        app.handle_key(press(Key::Char(c)));
    }
    app.handle_key(KeyPress { code: Key::Char('w'), shift: false, ctrl: true });
    assert_eq!(app.search_input, "one ");
    assert_eq!(app.search_cursor_position, 4);
}

#[test]
fn config_failure_falls_back_to_defaults() {
    let app = App::new(Err("no such file".to_string()), TagDb::new());
    assert_eq!(app.config.actions.len(), 5);
    assert_eq!(app.output.messages.len(), 2);
    assert_eq!(app.output.messages[0].msg_type, MessageType::Error);
    assert_eq!(app.output.messages[0].text, "Config Error: no such file");
    assert_eq!(app.output.messages[1].msg_type, MessageType::Warning);
    assert_eq!(app.output.messages[1].text, "Using default config.");
}

#[test]
fn mouse_scroll_moves_the_package_cursor() {
    let mut app = fresh_app(Config { actions: vec![] });
    load(&mut app, vec![pkg("a", true, &[]), pkg("b", true, &[])]);
    app.package_list_area = Area { x: 0, y: 0, width: 10, height: 10 };
    app.output_log_area = Area { x: 20, y: 20, width: 5, height: 5 };
    app.handle_mouse(MouseInput { kind: MouseKind::ScrollDown, row: 1, column: 1 });
    assert_eq!(app.selected_package, Some(1));
    app.handle_mouse(MouseInput { kind: MouseKind::ScrollUp, row: 1, column: 1 });
    assert_eq!(app.selected_package, Some(0));
    // outside both areas nothing moves
    app.handle_mouse(MouseInput { kind: MouseKind::ScrollDown, row: 15, column: 15 });
    assert_eq!(app.selected_package, Some(0));
}
