use pacdash::config::{ActionType, Config, Action, template_command};
use pacdash::error::AppError;
use pacdash::log::{MessageType, OutputLog};
use pacdash::tagdb::{TagDb, add_tag, get_all_tags, remove_tag};
use pacdash::text::{insert_unique_sorted, str_leq, str_lt, trim_str};

#[test]
fn tag_add_then_remove_round_trip() {
    let mut db = TagDb::new();
    add_tag(&mut db, "vim", "editor");
    add_tag(&mut db, "vim", "classic");
    let before = db.tags_of("vim");
    let msg = add_tag(&mut db, "vim", "foo");
    assert_eq!(msg, "Added tag 'foo' to 'vim'");
    assert_eq!(
        db.tags_of("vim"),
        vec!["classic".to_string(), "editor".to_string(), "foo".to_string()]
    );
    let msg = remove_tag(&mut db, "vim", "foo").unwrap();
    assert_eq!(msg, "Removed tag 'foo' from 'vim'");
    assert_eq!(db.tags_of("vim"), before);
}

#[test]
fn adding_twice_changes_nothing() {
    let mut db = TagDb::new();
    add_tag(&mut db, "vim", "editor");
    let before = db.tags_of("vim");
    add_tag(&mut db, "vim", "editor");
    assert_eq!(db.tags_of("vim"), before);
}

#[test]
fn remove_missing_tag_fails_and_keeps_state() {
    let mut db = TagDb::new();
    add_tag(&mut db, "vim", "editor");
    let err = remove_tag(&mut db, "vim", "nope").unwrap_err();
    let AppError::InvalidInput(m) = err;
    assert_eq!(m, "Tag 'nope' not found for package 'vim'.");
    assert_eq!(db.tags_of("vim"), vec!["editor".to_string()]);
    let err = remove_tag(&mut db, "ghost", "editor").unwrap_err();
    assert!(matches!(err, AppError::InvalidInput(_)));
}

#[test]
fn error_messages_carry_their_prefix() {
    let e = AppError::InvalidInput("bad".to_string());
    assert_eq!(e.message(), "Invalid user input: bad");
}

#[test]
fn all_tags_are_sorted_union() {
    let mut db = TagDb::new();
    add_tag(&mut db, "vim", "editor");
    add_tag(&mut db, "emacs", "editor");
    add_tag(&mut db, "gcc", "toolchain");
    add_tag(&mut db, "vim", "classic");
    assert_eq!(
        get_all_tags(&db),
        vec!["classic".to_string(), "editor".to_string(), "toolchain".to_string()]
    );
}

#[test]
fn default_config_holds_the_builtin_actions() {
    let cfg = Config::default();
    let names: Vec<String> = cfg.actions.iter().map(|a| a.name.clone()).collect();
    assert_eq!(
        names,
        vec![
            "System Upgrade (pacman)".to_string(),
            "System Upgrade (yay)".to_string(),
            "Install Package".to_string(),
            "Uninstall Package".to_string(),
            "Remove Orphan Packages".to_string(),
        ]
    );
    match &cfg.actions[2].action_type {
        ActionType::Command { command, requires_package, show_mode_whitelist, .. } => {
            assert_eq!(command.last().unwrap(), "{package}");
            assert!(*requires_package);
            assert_eq!(show_mode_whitelist, &vec!["All Available".to_string()]);
        },
        ActionType::Local => panic!("install action must be a command"),
    }
    assert_eq!(cfg.actions[0].key.key, 'S');
    assert!(cfg.actions[0].key.shift);
}

#[test]
fn new_local_actions_have_no_command() {
    let a = Action::new_local("Add Tag", 'a', false);
    assert_eq!(a.name, "Add Tag");
    assert_eq!(a.key.key, 'a');
    assert!(!a.key.shift);
    assert!(matches!(a.action_type, ActionType::Local));
}

#[test]
fn template_substitutes_the_placeholder() {
    let template = vec!["sudo".to_string(), "pacman".to_string(), "-S".to_string(),
        "{package}".to_string()];
    let out = template_command(&template, Some("vim")).unwrap();
    assert_eq!(
        out,
        vec!["sudo".to_string(), "pacman".to_string(), "-S".to_string(), "vim".to_string()]
    );
    let out = template_command(&template, None).unwrap();
    assert_eq!(out[3], "{package}");
    assert_eq!(out[0], "sudo");
}

#[test]
fn log_appends_snap_to_bottom() {
    let mut log = OutputLog::new();
    log.set_window_height(4);
    for i in 0..5 {
        log.info(format!("line {}", i));
    }
    assert_eq!(log.messages.len(), 5);
    // window height 2 (borders removed), so the last window starts at 3
    assert_eq!(log.scroll_position, 3);
    assert_eq!(log.messages.last().unwrap().msg_type, MessageType::Info);
    log.warn("careful".to_string());
    assert_eq!(log.messages.last().unwrap().msg_type, MessageType::Warning);
    assert_eq!(log.messages.last().unwrap().text, "careful");
    log.error("broken".to_string());
    assert_eq!(log.messages.last().unwrap().msg_type, MessageType::Error);
}

#[test]
fn log_scrolling_is_clamped() {
    let mut log = OutputLog::new();
    log.set_window_height(3);
    for i in 0..6 {
        log.info(format!("m{}", i));
    }
    // window height 1; max scroll 5
    assert_eq!(log.scroll_position, 5);
    log.scroll_down(10);
    assert_eq!(log.scroll_position, 5);
    log.scroll_up(2);
    assert_eq!(log.scroll_position, 3);
    log.scroll_up(100);
    assert_eq!(log.scroll_position, 0);
    log.scroll_to_bottom();
    assert_eq!(log.scroll_position, 5);
}

#[test]
fn log_clear_empties_everything() {
    let mut log = OutputLog::new();
    log.info("a".to_string());
    log.info("b".to_string());
    log.clear();
    assert!(log.messages.is_empty());
    assert_eq!(log.scroll_position, 0);
}

#[test]
fn trim_and_order_helpers() {
    assert_eq!(trim_str("  hello "), "hello");
    assert_eq!(trim_str("\t x\n"), "x");
    assert_eq!(trim_str("   "), "");
    assert!(str_leq("abc", "abd"));
    assert!(str_leq("abc", "abc"));
    assert!(!str_leq("b", "ab"));
    assert!(str_lt("ab", "abc"));
    assert!(!str_lt("abc", "abc"));
}

#[test]
fn sorted_insert_keeps_order_and_uniqueness() {
    let mut v: Vec<String> = Vec::new();
    insert_unique_sorted(&mut v, "pear");
    insert_unique_sorted(&mut v, "apple");
    insert_unique_sorted(&mut v, "plum");
    insert_unique_sorted(&mut v, "apple");
    assert_eq!(v, vec!["apple".to_string(), "pear".to_string(), "plum".to_string()]);
}
