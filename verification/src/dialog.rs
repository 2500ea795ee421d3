//! Modal dialogs: their state, their keyboard navigation, and the deferred
//! operations they carry until the user confirms.
use vstd::prelude::*;
use crate::action::{Action, Side};
use crate::effect::Effect;
use crate::names::string_views;
use crate::paths::{join_path, joined};
use crate::text::{pop_char, push_char, split_whitespace, trim, trimmed, words};

verus! {

// --- Context menu ---

#[derive(Debug, Clone, PartialEq, Eq)]
pub enum MenuAction {
    OpenWithOs(String),
    RunCodeHere(String),
    /// Opens an arguments dialog, then runs the file.
    RequestExecute(String),
    ExtractHere { archives: Vec<String>, dest: String },
    MountDevice { device: String },
    UnmountDevice { device: String },
    Chown { paths: Vec<String>, current_owner: String, reload_sides: Vec<Side> },
    SetTheme(String),
    CdTo(String),
    GitPush { follow_tags: bool },
}

/// A menu action with its strings taken as character sequences.
pub enum MenuActionView {
    OpenWithOs(Seq<char>),
    RunCodeHere(Seq<char>),
    RequestExecute(Seq<char>),
    ExtractHere { archives: Seq<Seq<char>>, dest: Seq<char> },
    MountDevice { device: Seq<char> },
    UnmountDevice { device: Seq<char> },
    Chown { paths: Seq<Seq<char>>, current_owner: Seq<char>, reload_sides: Seq<Side> },
    SetTheme(Seq<char>),
    CdTo(Seq<char>),
    GitPush { follow_tags: bool },
}

impl View for MenuAction {
    type V = MenuActionView;

    open spec fn view(&self) -> MenuActionView {
        match self {
            MenuAction::OpenWithOs(p) => MenuActionView::OpenWithOs(p@),
            MenuAction::RunCodeHere(p) => MenuActionView::RunCodeHere(p@),
            MenuAction::RequestExecute(p) => MenuActionView::RequestExecute(p@),
            MenuAction::ExtractHere { archives, dest } => MenuActionView::ExtractHere {
                archives: string_views(archives@),
                dest: dest@,
            },
            MenuAction::MountDevice { device } => MenuActionView::MountDevice { device: device@ },
            MenuAction::UnmountDevice { device } => MenuActionView::UnmountDevice {
                device: device@,
            },
            MenuAction::Chown { paths, current_owner, reload_sides } => MenuActionView::Chown {
                paths: string_views(paths@),
                current_owner: current_owner@,
                reload_sides: reload_sides@,
            },
            MenuAction::SetTheme(id) => MenuActionView::SetTheme(id@),
            MenuAction::CdTo(p) => MenuActionView::CdTo(p@),
            MenuAction::GitPush { follow_tags } => MenuActionView::GitPush {
                follow_tags: *follow_tags,
            },
        }
    }
}

#[derive(Debug, Clone, PartialEq, Eq)]
pub struct MenuItem {
    pub label: String,
    pub action: MenuAction,
}

/// A menu item with its label as characters.
pub struct MenuItemView {
    pub label: Seq<char>,
    pub action: MenuActionView,
}

impl View for MenuItem {
    type V = MenuItemView;

    open spec fn view(&self) -> MenuItemView {
        MenuItemView { label: self.label@, action: self.action@ }
    }
}

/// The views of a list of menu items.
pub open spec fn item_views(items: Seq<MenuItem>) -> Seq<MenuItemView> {
    items.map_values(|i: MenuItem| i@)
}

impl MenuItem {
    pub fn new(label: String, action: MenuAction) -> (r: MenuItem)
        ensures
            r.label == label,
            r.action == action,
    {
        MenuItem { label, action }
    }
}

// --- Deferred operations ---

/// An operation a dialog carries until the user confirms it.
#[derive(Debug, PartialEq, Eq)]
pub enum DeferredOp {
    Delete { paths: Vec<String>, active: Side },
    Copy { sources: Vec<String>, active: Side },
    Move { sources: Vec<String>, active: Side },
    Mkdir { base: String, active: Side },
    OpenInNano { base: String },
    Execute { path: String },
    Chown { paths: Vec<String>, reload_sides: Vec<Side> },
    GitCreateBranch { git_root: String },
}

/// The effect confirming `op` with the text `input` has; `None` when the
/// input leaves nothing to do.
pub open spec fn op_effect(op: DeferredOp, op_id: u64, input: Seq<char>, r: Option<Effect>) -> bool {
    match op {
        DeferredOp::Delete { paths, active } => r == Some(
            Effect::DeletePaths { paths, active, op_id },
        ),
        DeferredOp::Copy { sources, active } => r matches Some(
            Effect::CopyPaths { sources: s, dest, active: a, op_id: id },
        ) && s == sources && dest@ == input && a == active && id == op_id,
        DeferredOp::Move { sources, active } => r matches Some(
            Effect::MovePaths { sources: s, dest, active: a, op_id: id },
        ) && s == sources && dest@ == input && a == active && id == op_id,
        DeferredOp::Mkdir { base, active } => r matches Some(Effect::MakeDir { path, active: a })
            && path@ == joined(base@, trimmed(input)) && a == active,
        DeferredOp::OpenInNano { base } => if input.len() == 0 {
            r is None
        } else {
            r matches Some(Effect::Send(Action::ExecuteFile { cmd, args, reload })) && cmd@
                == "nano"@ && args@.len() == 1 && args@[0]@ == joined(base@, input)
                && reload@.len() == 0
        },
        DeferredOp::Execute { path } => r matches Some(
            Effect::Send(Action::ExecuteFile { cmd, args, reload }),
        ) && cmd@ == path@ && args@.map_values(|w: String| w@) == words(input) && reload@.len()
            == 0,
        DeferredOp::Chown { paths, reload_sides } => if input.len() == 0 {
            r is None
        } else {
            r matches Some(Effect::Chown { paths: p, new_owner, reload_sides: rs }) && p == paths
                && new_owner@ == input && rs == reload_sides
        },
        DeferredOp::GitCreateBranch { git_root } => if trimmed(input).len() == 0 {
            r is None
        } else {
            r matches Some(Effect::GitCreateBranch { git_root: g, name }) && g == git_root
                && name@ == trimmed(input)
        },
    }
}

impl DeferredOp {
    /// Whether the app stays in git mode after confirming.
    pub fn stays_in_git_mode(&self) -> (r: bool)
        ensures
            r == (*self is GitCreateBranch),
    {
        match self {
            DeferredOp::GitCreateBranch { .. } => true,
            _ => false,
        }
    }

    /// What confirming the operation with `input` (the dialog's text, empty
    /// for a confirmation) asks the host to do.
    pub fn execute(self, op_id: u64, input: String) -> (r: Option<Effect>)
        ensures
            op_effect(self, op_id, input@, r),
    {
        match self {
            DeferredOp::Delete { paths, active } => Some(
                Effect::DeletePaths { paths, active, op_id },
            ),
            DeferredOp::Copy { sources, active } => Some(
                Effect::CopyPaths { sources, dest: input, active, op_id },
            ),
            DeferredOp::Move { sources, active } => Some(
                Effect::MovePaths { sources, dest: input, active, op_id },
            ),
            DeferredOp::Mkdir { base, active } => {
                let name = trim(input.as_str());
                Some(Effect::MakeDir { path: join_path(base.as_str(), name.as_str()), active })
            },
            DeferredOp::OpenInNano { base } => {
                if input.as_str().is_empty() {
                    None
                } else {
                    let path = join_path(base.as_str(), input.as_str());
                    let mut args: Vec<String> = Vec::new();
                    args.push(path);
                    Some(
                        Effect::Send(
                            Action::ExecuteFile {
                                cmd: "nano".to_owned(),
                                args,
                                reload: Vec::new(),
                            },
                        ),
                    )
                }
            },
            DeferredOp::Execute { path } => {
                let args = split_whitespace(input.as_str());
                Some(Effect::Send(Action::ExecuteFile { cmd: path, args, reload: Vec::new() }))
            },
            DeferredOp::Chown { paths, reload_sides } => {
                if input.as_str().is_empty() {
                    None
                } else {
                    Some(Effect::Chown { paths, new_owner: input, reload_sides })
                }
            },
            DeferredOp::GitCreateBranch { git_root } => {
                let name = trim(input.as_str());
                if name.as_str().is_empty() {
                    None
                } else {
                    Some(Effect::GitCreateBranch { git_root, name })
                }
            },
        }
    }
}

/// The arguments of the `sudo` command that changes owners: `chown`, `-R`
/// when a directory is among the paths, the new owner, then the paths.
pub open spec fn chown_args(new_owner: Seq<char>, paths: Seq<Seq<char>>, recursive: bool) -> Seq<
    Seq<char>,
> {
    let head = if recursive {
        seq!["chown"@, "-R"@]
    } else {
        seq!["chown"@]
    };
    head.push(new_owner) + paths
}

/// The command that changes the owner of `paths` (through `sudo`).
pub fn chown_command(new_owner: String, paths: &Vec<String>, any_dir: bool, reload: Vec<Side>) -> (r:
    Action)
    ensures
        r matches Action::ExecuteFile { cmd, args, reload: rl } && cmd@ == "sudo"@
            && args@.map_values(|a: String| a@) == chown_args(
            new_owner@,
            paths@.map_values(|p: String| p@),
            any_dir,
        ) && rl == reload,
{
    let mut args: Vec<String> = Vec::new();
    args.push("chown".to_owned());
    if any_dir {
        args.push("-R".to_owned());
    }
    args.push(new_owner);
    let ghost head = args@.map_values(|a: String| a@);
    let mut i: usize = 0;
    while i < paths.len()
        invariant
            i <= paths@.len(),
            args@.map_values(|a: String| a@) == head + paths@.take(i as int).map_values(
                |p: String| p@,
            ),
        decreases paths.len() - i,
    {
        let ghost a0 = args@.map_values(|a: String| a@);
        args.push(paths[i].clone());
        proof {
            assert(args@.map_values(|a: String| a@) =~= a0.push(paths@[i as int]@));
            assert(paths@.take(i + 1).map_values(|p: String| p@) =~= paths@.take(i as int).map_values(
                |p: String| p@,
            ).push(paths@[i as int]@));
        }
        i = i + 1;
    }
    assert(paths@.take(paths.len() as int) =~= paths@);
    Action::ExecuteFile { cmd: "sudo".to_owned(), args, reload }
}

// --- Dialog state ---

#[derive(Debug, PartialEq, Eq)]
pub enum DialogState {
    Confirm { title: String, message: String, op: DeferredOp },
    Input { title: String, prompt: String, value: String, op: DeferredOp },
    ContextMenu { title: String, items: Vec<MenuItem>, selected: usize },
    QuickCd {
        input: String,
        /// sorted directory names in the current parent
        matches: Vec<String>,
        selected: usize,
        /// the active panel's path when the dialog opened
        base_path: String,
    },
    ErrorList { title: String, errors: Vec<String>, scroll: usize },
}

impl DialogState {
    pub fn confirm(title: &str, message: &str, op: DeferredOp) -> (r: DialogState)
        ensures
            r matches DialogState::Confirm { title: t, message: m, op: o } && t@ == title@ && m@
                == message@ && o == op,
    {
        DialogState::Confirm { title: title.to_owned(), message: message.to_owned(), op }
    }

    pub fn input(title: &str, prompt: &str, default: &str, op: DeferredOp) -> (r: DialogState)
        ensures
            r matches DialogState::Input { title: t, prompt: p, value: v, op: o } && t@ == title@
                && p@ == prompt@ && v@ == default@ && o == op,
    {
        DialogState::Input {
            title: title.to_owned(),
            prompt: prompt.to_owned(),
            value: default.to_owned(),
            op,
        }
    }

    pub fn context_menu(title: &str, items: Vec<MenuItem>) -> (r: DialogState)
        ensures
            r matches DialogState::ContextMenu { title: t, items: i, selected } && t@ == title@
                && i == items && selected == 0,
    {
        DialogState::ContextMenu { title: title.to_owned(), items, selected: 0 }
    }

    pub fn error_list(title: &str, errors: Vec<String>) -> (r: DialogState)
        ensures
            r matches DialogState::ErrorList { title: t, errors: e, scroll } && t@ == title@ && e
                == errors && scroll == 0,
    {
        DialogState::ErrorList { title: title.to_owned(), errors, scroll: 0 }
    }

    /// Types `c` into an input dialog; other dialogs ignore it.
    pub fn push_char(&mut self, c: char)
        ensures
            dialog_push_char(*old(self), *final(self), c),
    {
        if let DialogState::Input { value, .. } = self {
            push_char(value, c);
        }
    }

    /// Deletes the last character of an input dialog; other dialogs ignore it.
    pub fn pop_char(&mut self)
        ensures
            dialog_pop_char(*old(self), *final(self)),
    {
        if let DialogState::Input { value, .. } = self {
            pop_char(value);
        }
    }

    /// Moves the selection (or the error scroll) up, not past the first.
    pub fn nav_up(&mut self)
        ensures
            dialog_nav_up(*old(self), *final(self)),
    {
        match self {
            DialogState::ContextMenu { selected, .. } => {
                if *selected > 0 {
                    *selected = *selected - 1;
                }
            },
            DialogState::QuickCd { selected, .. } => {
                if *selected > 0 {
                    *selected = *selected - 1;
                }
            },
            DialogState::ErrorList { scroll, .. } => {
                if *scroll > 0 {
                    *scroll = *scroll - 1;
                }
            },
            _ => {},
        }
    }

    /// Moves the selection (or the error scroll) down, not past the last.
    pub fn nav_down(&mut self)
        ensures
            dialog_nav_down(*old(self), *final(self)),
    {
        match self {
            DialogState::ContextMenu { selected, items, .. } => {
                if *selected < items.len() && *selected + 1 < items.len() {
                    *selected = *selected + 1;
                }
            },
            DialogState::QuickCd { selected, matches, .. } => {
                if *selected < matches.len() && *selected + 1 < matches.len() {
                    *selected = *selected + 1;
                }
            },
            DialogState::ErrorList { scroll, errors, .. } => {
                if *scroll < errors.len() && *scroll + 1 < errors.len() {
                    *scroll = *scroll + 1;
                }
            },
            _ => {},
        }
    }

    pub fn is_quick_cd(&self) -> (r: bool)
        ensures
            r == (*self is QuickCd),
    {
        match self {
            DialogState::QuickCd { .. } => true,
            _ => false,
        }
    }
}

/// What `DialogState::push_char` does.
pub open spec fn dialog_push_char(p: DialogState, q: DialogState, c: char) -> bool {
    &&& (match p {
            DialogState::Input { title, prompt, value, op } => q matches DialogState::Input {
                title: t,
                prompt: p,
                value: v,
                op: o,
            } && t == title && p == prompt && o == op && v@ == value@.push(c),
            _ => q == p,
        })
}

/// What `DialogState::pop_char` does.
pub open spec fn dialog_pop_char(p: DialogState, q: DialogState) -> bool {
    &&& (match p {
            DialogState::Input { title, prompt, value, op } => q matches DialogState::Input {
                title: t,
                prompt: p,
                value: v,
                op: o,
            } && t == title && p == prompt && o == op && v@ == (if value@.len() > 0 {
                value@.drop_last()
            } else {
                value@
            }),
            _ => q == p,
        })
}

/// What `DialogState::nav_up` does.
pub open spec fn dialog_nav_up(p: DialogState, q: DialogState) -> bool {
    &&& (match p {
            DialogState::ContextMenu { title, items, selected } => q
                == (DialogState::ContextMenu {
                title,
                items,
                selected: if selected > 0 {
                    (selected - 1) as usize
                } else {
                    selected
                },
            }),
            DialogState::QuickCd { input, matches, selected, base_path } => q
                == (DialogState::QuickCd {
                input,
                matches,
                selected: if selected > 0 {
                    (selected - 1) as usize
                } else {
                    selected
                },
                base_path,
            }),
            DialogState::ErrorList { title, errors, scroll } => q
                == (DialogState::ErrorList {
                title,
                errors,
                scroll: if scroll > 0 {
                    (scroll - 1) as usize
                } else {
                    scroll
                },
            }),
            _ => q == p,
        })
}

/// What `DialogState::nav_down` does.
pub open spec fn dialog_nav_down(p: DialogState, q: DialogState) -> bool {
    &&& (match p {
            DialogState::ContextMenu { title, items, selected } => q
                == (DialogState::ContextMenu {
                title,
                items,
                selected: if selected + 1 < items@.len() {
                    (selected + 1) as usize
                } else {
                    selected
                },
            }),
            DialogState::QuickCd { input, matches, selected, base_path } => q
                == (DialogState::QuickCd {
                input,
                matches,
                selected: if selected + 1 < matches@.len() {
                    (selected + 1) as usize
                } else {
                    selected
                },
                base_path,
            }),
            DialogState::ErrorList { title, errors, scroll } => q
                == (DialogState::ErrorList {
                title,
                errors,
                scroll: if scroll + 1 < errors@.len() {
                    (scroll + 1) as usize
                } else {
                    scroll
                },
            }),
            _ => q == p,
        })
}

} // verus!
