//! Actions and their hotkeys: the configurable `Command` actions, the two
//! built-in `Local` actions, the default action set, and command
//! templating. Reading the configuration file is the surrounding
//! program's business; it hands a ready `Config` in.

use vstd::prelude::*;
use crate::error::AppError;
use crate::text::str_eq;

verus! {

/// A hotkey: a character plus a shift flag.
#[derive(Clone, Copy, Debug, PartialEq, Eq, Hash, Structural)]
pub struct ConfigKey {
    pub key: char,
    pub shift: bool,
}

/// The abstract value of an `ActionType`.
pub ghost enum ActionTypeV {
    Command {
        command: Seq<Seq<char>>,
        requires_package: bool,
        show_mode_whitelist: Seq<Seq<char>>,
        show_mode_blacklist: Seq<Seq<char>>,
    },
    Local,
}

/// What invoking an action does: run a shell command out of process, or
/// trigger a built-in behaviour.
#[derive(Debug)]
pub enum ActionType {
    Command {
        command: Vec<String>,
        requires_package: bool,
        show_mode_whitelist: Vec<String>,
        show_mode_blacklist: Vec<String>,
    },
    Local,
}

impl View for ActionType {
    type V = ActionTypeV;

    open spec fn view(&self) -> ActionTypeV {
        match self {
            ActionType::Command { command, requires_package, show_mode_whitelist, show_mode_blacklist } => ActionTypeV::Command {
                command: command.deep_view(),
                requires_package: *requires_package,
                show_mode_whitelist: show_mode_whitelist.deep_view(),
                show_mode_blacklist: show_mode_blacklist.deep_view(),
            },
            ActionType::Local => ActionTypeV::Local,
        }
    }
}

impl DeepView for ActionType {
    type V = ActionTypeV;

    open spec fn deep_view(&self) -> ActionTypeV {
        self.view()
    }
}

impl Clone for ActionType {
    fn clone(&self) -> (r: Self)
        ensures
            r@ == self@,
    {
        match self {
            ActionType::Command { command, requires_package, show_mode_whitelist, show_mode_blacklist } => {
                let r = ActionType::Command {
                    command: command.clone(),
                    requires_package: *requires_package,
                    show_mode_whitelist: show_mode_whitelist.clone(),
                    show_mode_blacklist: show_mode_blacklist.clone(),
                };
                proof {
                    match &r {
                        ActionType::Command {
                            command: c2,
                            show_mode_whitelist: w2,
                            show_mode_blacklist: b2,
                            ..
                        } => {
                            assert(c2.deep_view() =~= command.deep_view());
                            assert(w2.deep_view() =~= show_mode_whitelist.deep_view());
                            assert(b2.deep_view() =~= show_mode_blacklist.deep_view());
                        },
                        ActionType::Local => {},
                    }
                }
                r
            },
            ActionType::Local => ActionType::Local,
        }
    }
}

/// The abstract value of an `Action`.
pub ghost struct ActionV {
    pub name: Seq<char>,
    pub key: ConfigKey,
    pub action_type: ActionTypeV,
}

/// One action: its display name, its hotkey, and what it does.
#[derive(Debug)]
pub struct Action {
    pub name: String,
    pub key: ConfigKey,
    pub action_type: ActionType,
}

impl View for Action {
    type V = ActionV;

    open spec fn view(&self) -> ActionV {
        ActionV { name: self.name@, key: self.key, action_type: self.action_type@ }
    }
}

impl DeepView for Action {
    type V = ActionV;

    open spec fn deep_view(&self) -> ActionV {
        self.view()
    }
}

impl Clone for Action {
    fn clone(&self) -> (r: Self)
        ensures
            r@ == self@,
    {
        Action { name: self.name.clone(), key: self.key, action_type: self.action_type.clone() }
    }
}

impl Action {
    /// A built-in action, reachable only through the action modal or its
    /// dedicated key, never through a raw hotkey.
    pub fn new_local(name: &str, key: char, shift: bool) -> (r: Self)
        ensures
            r@ == (ActionV {
                name: name@,
                key: ConfigKey { key, shift },
                action_type: ActionTypeV::Local,
            }),
    {
        Action {
            name: String::from_str(name),
            key: ConfigKey { key, shift },
            action_type: ActionType::Local,
        }
    }
}

/// What the placeholder token resolves to: the selected package's name, or
/// itself when there is none to substitute.
pub open spec fn spec_template_part(part: Seq<char>, package_name: Option<Seq<char>>) -> Seq<
    char,
> {
    if part == "{package}"@ {
        match package_name {
            Some(p) => p,
            None => part,
        }
    } else {
        part
    }
}

/// Replaces the placeholder token in a command template with the selected
/// package's name, part for part.
pub fn template_command(command_template: &Vec<String>, package_name: Option<&str>) -> (r: Result<
    Vec<String>,
    AppError,
>)
    ensures
        r is Ok,
        r matches Ok(out) ==> out.deep_view().len() == command_template.deep_view().len()
            && forall|i: int|
            0 <= i < out.deep_view().len() ==> #[trigger] out.deep_view()[i]
                == spec_template_part(
                command_template.deep_view()[i],
                match package_name {
                    Some(p) => Some(p@),
                    None => None,
                },
            ),
{
    let ghost pn: Option<Seq<char>> = match package_name {
        Some(p) => Some(p@),
        None => None,
    };
    let mut out: Vec<String> = Vec::new();
    let mut i: usize = 0;
    while i < command_template.len()
        invariant
            i <= command_template.len(),
            command_template.deep_view().len() == command_template.len(),
            out.deep_view().len() == i,
            pn == (match package_name {
                Some(p) => Some(p@),
                None => None::<Seq<char>>,
            }),
            forall|j: int|
                0 <= j < i ==> #[trigger] out.deep_view()[j] == spec_template_part(
                    command_template.deep_view()[j],
                    pn,
                ),
        decreases command_template.len() - i,
    {
        let ghost prev = out.deep_view();
        let part = &command_template[i];
        assert(command_template.deep_view()[i as int] == part@);
        if str_eq(part.as_str(), "{package}") {
            match package_name {
                Some(p) => out.push(String::from_str(p)),
                None => out.push(part.clone()),
            }
        } else {
            out.push(part.clone());
        }
        proof {
            assert(out.deep_view() =~= prev.push(
                spec_template_part(command_template.deep_view()[i as int], pn),
            ));
        }
        i = i + 1;
    }
    Ok(out)
}

/// The loaded configuration: the `Command` actions available this session.
#[derive(Debug)]
pub struct Config {
    pub actions: Vec<Action>,
}

impl Clone for Config {
    fn clone(&self) -> (r: Self)
        ensures
            r.actions.deep_view() == self.actions.deep_view(),
    {
        let r = Config { actions: self.actions.clone() };
        proof {
            assert(r.actions.deep_view() =~= self.actions.deep_view());
        }
        r
    }
}

/// The built-in action set used whenever no configuration can be read:
/// two system upgrades, install, uninstall, and orphan removal.
pub open spec fn spec_default_actions() -> Seq<ActionV> {
    seq![
        ActionV {
            name: "System Upgrade (pacman)"@,
            key: ConfigKey { key: 'S', shift: true },
            action_type: ActionTypeV::Command {
                command: seq!["sudo"@, "pacman"@, "-Syu"@],
                requires_package: false,
                show_mode_whitelist: Seq::empty(),
                show_mode_blacklist: Seq::empty(),
            },
        },
        ActionV {
            name: "System Upgrade (yay)"@,
            key: ConfigKey { key: 'Y', shift: true },
            action_type: ActionTypeV::Command {
                command: seq!["yay"@, "-Syu"@],
                requires_package: false,
                show_mode_whitelist: Seq::empty(),
                show_mode_blacklist: Seq::empty(),
            },
        },
        ActionV {
            name: "Install Package"@,
            key: ConfigKey { key: 'i', shift: false },
            action_type: ActionTypeV::Command {
                command: seq!["sudo"@, "pacman"@, "-S"@, "{package}"@],
                requires_package: true,
                show_mode_whitelist: seq!["All Available"@],
                show_mode_blacklist: Seq::empty(),
            },
        },
        ActionV {
            name: "Uninstall Package"@,
            key: ConfigKey { key: 'u', shift: false },
            action_type: ActionTypeV::Command {
                command: seq!["sudo"@, "pacman"@, "-Rns"@, "{package}"@],
                requires_package: true,
                show_mode_whitelist: Seq::empty(),
                show_mode_blacklist: seq!["All Available"@],
            },
        },
        ActionV {
            name: "Remove Orphan Packages"@,
            key: ConfigKey { key: 'o', shift: false },
            action_type: ActionTypeV::Command {
                command: seq!["sudo"@, "sh"@, "-c"@, "pacman -Rns $(pacman -Qdtq)"@],
                requires_package: false,
                show_mode_whitelist: Seq::empty(),
                show_mode_blacklist: Seq::empty(),
            },
        },
    ]
}

fn command_action(
    name: &str,
    key: char,
    shift: bool,
    command: Vec<String>,
    requires_package: bool,
    show_mode_whitelist: Vec<String>,
    show_mode_blacklist: Vec<String>,
) -> (r: Action)
    ensures
        r@ == (ActionV {
            name: name@,
            key: ConfigKey { key, shift },
            action_type: ActionTypeV::Command {
                command: command.deep_view(),
                requires_package,
                show_mode_whitelist: show_mode_whitelist.deep_view(),
                show_mode_blacklist: show_mode_blacklist.deep_view(),
            },
        }),
{
    Action {
        name: String::from_str(name),
        key: ConfigKey { key, shift },
        action_type: ActionType::Command {
            command,
            requires_package,
            show_mode_whitelist,
            show_mode_blacklist,
        },
    }
}

fn empty_sv() -> (r: Vec<String>)
    ensures
        r.deep_view() == Seq::<Seq<char>>::empty(),
{
    let r: Vec<String> = Vec::new();
    proof {
        assert(r.deep_view() =~= Seq::<Seq<char>>::empty());
    }
    r
}

fn push_s(v: &mut Vec<String>, s: &str)
    ensures
        final(v).deep_view() == old(v).deep_view().push(s@),
{
    v.push(String::from_str(s));
    proof {
        assert(v.deep_view() =~= old(v).deep_view().push(s@));
    }
}

impl Default for Config {
    /// The default configuration: exactly `spec_default_actions`.
    fn default() -> (r: Self)
        ensures
            r.actions.deep_view() == spec_default_actions(),
    {
        let mut actions: Vec<Action> = Vec::new();
        let mut upgrade_cmd: Vec<String> = Vec::new();
        push_s(&mut upgrade_cmd, "sudo");
        push_s(&mut upgrade_cmd, "pacman");
        push_s(&mut upgrade_cmd, "-Syu");
        proof {
            assert(upgrade_cmd.deep_view() =~= seq!["sudo"@, "pacman"@, "-Syu"@]);
        }
        actions.push(
            command_action(
                "System Upgrade (pacman)",
                'S',
                true,
                upgrade_cmd,
                false,
                empty_sv(),
                empty_sv(),
            ),
        );
        let mut yay_cmd: Vec<String> = Vec::new();
        push_s(&mut yay_cmd, "yay");
        push_s(&mut yay_cmd, "-Syu");
        proof {
            assert(yay_cmd.deep_view() =~= seq!["yay"@, "-Syu"@]);
        }
        actions.push(
            command_action("System Upgrade (yay)", 'Y', true, yay_cmd, false, empty_sv(), empty_sv()),
        );
        let mut install_cmd: Vec<String> = Vec::new();
        push_s(&mut install_cmd, "sudo");
        push_s(&mut install_cmd, "pacman");
        push_s(&mut install_cmd, "-S");
        push_s(&mut install_cmd, "{package}");
        let mut install_wl: Vec<String> = Vec::new();
        push_s(&mut install_wl, "All Available");
        proof {
            assert(install_cmd.deep_view() =~= seq!["sudo"@, "pacman"@, "-S"@, "{package}"@]);
            assert(install_wl.deep_view() =~= seq!["All Available"@]);
        }
        actions.push(
            command_action("Install Package", 'i', false, install_cmd, true, install_wl, empty_sv()),
        );
        let mut uninstall_cmd: Vec<String> = Vec::new();
        push_s(&mut uninstall_cmd, "sudo");
        push_s(&mut uninstall_cmd, "pacman");
        push_s(&mut uninstall_cmd, "-Rns");
        push_s(&mut uninstall_cmd, "{package}");
        let mut uninstall_bl: Vec<String> = Vec::new();
        push_s(&mut uninstall_bl, "All Available");
        proof {
            assert(uninstall_cmd.deep_view() =~= seq!["sudo"@, "pacman"@, "-Rns"@, "{package}"@]);
            assert(uninstall_bl.deep_view() =~= seq!["All Available"@]);
        }
        actions.push(
            command_action(
                "Uninstall Package",
                'u',
                false,
                uninstall_cmd,
                true,
                empty_sv(),
                uninstall_bl,
            ),
        );
        let mut orphan_cmd: Vec<String> = Vec::new();
        push_s(&mut orphan_cmd, "sudo");
        push_s(&mut orphan_cmd, "sh");
        push_s(&mut orphan_cmd, "-c");
        push_s(&mut orphan_cmd, "pacman -Rns $(pacman -Qdtq)");
        proof {
            assert(orphan_cmd.deep_view() =~= seq![
                "sudo"@,
                "sh"@,
                "-c"@,
                "pacman -Rns $(pacman -Qdtq)"@,
            ]);
        }
        actions.push(
            command_action(
                "Remove Orphan Packages",
                'o',
                false,
                orphan_cmd,
                false,
                empty_sv(),
                empty_sv(),
            ),
        );
        proof {
            assert(actions.deep_view() =~= spec_default_actions());
        }
        Config { actions }
    }
}

} // verus!
