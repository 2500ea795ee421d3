//! Keys, the key map, and which action a key press asks for in each mode.
use vstd::prelude::*;
use crate::action::Action;

verus! {

#[derive(Debug, Clone, Copy, PartialEq, Eq, Structural)]
pub enum KeyCode {
    Char(char),
    F(u8),
    Enter,
    Esc,
    Up,
    Down,
    Left,
    Right,
    PageUp,
    PageDown,
    Home,
    End,
    Tab,
    BackTab,
    Backspace,
    Insert,
    Delete,
    Other,
}

/// A key press: the key and the modifiers held.
#[derive(Debug, Clone, Copy, PartialEq, Eq, Structural)]
pub struct Key {
    pub code: KeyCode,
    pub ctrl: bool,
    pub alt: bool,
    pub shift: bool,
}

/// The actions a key sequence can be bound to.
#[derive(Debug, Clone, Copy, PartialEq, Eq, Structural)]
pub enum Command {
    Quit,
    Suspend,
    Help,
    NavUp,
    NavDown,
    NavPageUp,
    NavPageDown,
    NavTop,
    NavBottom,
    NavEnter,
    NavParent,
    SwitchPanel,
    SyncPanelDir,
    ToggleMark,
    ToggleMarkAll,
    Copy,
    Move,
    Mkdir,
    Delete,
    ContextMenu,
    View,
    CalcSizes,
    CycleSortMode,
    InvertSort,
    QuickCd,
    RecentDirs,
    SelectTheme,
}

pub open spec fn command_action_spec(c: Command) -> Action {
    match c {
        Command::Quit => Action::Quit,
        Command::Suspend => Action::Suspend,
        Command::Help => Action::Help,
        Command::NavUp => Action::NavUp,
        Command::NavDown => Action::NavDown,
        Command::NavPageUp => Action::NavPageUp,
        Command::NavPageDown => Action::NavPageDown,
        Command::NavTop => Action::NavTop,
        Command::NavBottom => Action::NavBottom,
        Command::NavEnter => Action::NavEnter,
        Command::NavParent => Action::NavParent,
        Command::SwitchPanel => Action::SwitchPanel,
        Command::SyncPanelDir => Action::SyncPanelDir,
        Command::ToggleMark => Action::ToggleMark,
        Command::ToggleMarkAll => Action::ToggleMarkAll,
        Command::Copy => Action::Copy,
        Command::Move => Action::Move,
        Command::Mkdir => Action::Mkdir,
        Command::Delete => Action::Delete,
        Command::ContextMenu => Action::ContextMenu,
        Command::View => Action::View,
        Command::CalcSizes => Action::CalcSizes,
        Command::CycleSortMode => Action::CycleSortMode,
        Command::InvertSort => Action::InvertSort,
        Command::QuickCd => Action::QuickCd,
        Command::RecentDirs => Action::RecentDirs,
        Command::SelectTheme => Action::SelectTheme,
    }
}

/// The action a command stands for.
pub fn command_action(c: Command) -> (r: Action)
    ensures
        r == command_action_spec(c),
{
    match c {
        Command::Quit => Action::Quit,
        Command::Suspend => Action::Suspend,
        Command::Help => Action::Help,
        Command::NavUp => Action::NavUp,
        Command::NavDown => Action::NavDown,
        Command::NavPageUp => Action::NavPageUp,
        Command::NavPageDown => Action::NavPageDown,
        Command::NavTop => Action::NavTop,
        Command::NavBottom => Action::NavBottom,
        Command::NavEnter => Action::NavEnter,
        Command::NavParent => Action::NavParent,
        Command::SwitchPanel => Action::SwitchPanel,
        Command::SyncPanelDir => Action::SyncPanelDir,
        Command::ToggleMark => Action::ToggleMark,
        Command::ToggleMarkAll => Action::ToggleMarkAll,
        Command::Copy => Action::Copy,
        Command::Move => Action::Move,
        Command::Mkdir => Action::Mkdir,
        Command::Delete => Action::Delete,
        Command::ContextMenu => Action::ContextMenu,
        Command::View => Action::View,
        Command::CalcSizes => Action::CalcSizes,
        Command::CycleSortMode => Action::CycleSortMode,
        Command::InvertSort => Action::InvertSort,
        Command::QuickCd => Action::QuickCd,
        Command::RecentDirs => Action::RecentDirs,
        Command::SelectTheme => Action::SelectTheme,
    }
}

/// One binding: a key sequence and the command it runs.
pub struct Binding {
    pub keys: Vec<Key>,
    pub command: Command,
}

/// The key bindings of normal mode.
pub struct KeyMap {
    pub bindings: Vec<Binding>,
}

impl KeyMap {
    pub open spec fn table(&self) -> Seq<(Seq<Key>, Command)> {
        self.bindings@.map_values(|b: Binding| (b.keys@, b.command))
    }
}

/// The command bound to exactly the sequence `keys`: the first binding that
/// matches.
pub open spec fn lookup(table: Seq<(Seq<Key>, Command)>, keys: Seq<Key>) -> Option<Command>
    decreases table.len(),
{
    if table.len() == 0 {
        None
    } else if table[0].0 == keys {
        Some(table[0].1)
    } else {
        lookup(table.drop_first(), keys)
    }
}

fn same_keys(a: &Vec<Key>, b: &Vec<Key>) -> (r: bool)
    ensures
        r == (a@ == b@),
{
    if a.len() != b.len() {
        return false;
    }
    let mut i: usize = 0;
    while i < a.len()
        invariant
            a@.len() == b@.len(),
            i <= a@.len(),
            forall|j: int| 0 <= j < i ==> a@[j] == b@[j],
        decreases a.len() - i,
    {
        if a[i] != b[i] {
            return false;
        }
        i = i + 1;
    }
    assert(a@ =~= b@);
    true
}

impl KeyMap {
    /// The command bound to the sequence `keys`.
    pub fn get(&self, keys: &Vec<Key>) -> (r: Option<Command>)
        ensures
            r == lookup(self.table(), keys@),
    {
        let ghost t = self.table();
        let mut i: usize = 0;
        assert(t.skip(0) =~= t);
        while i < self.bindings.len()
            invariant
                i <= self.bindings@.len(),
                t == self.table(),
                lookup(t, keys@) == lookup(t.skip(i as int), keys@),
            decreases self.bindings.len() - i,
        {
            let b = &self.bindings[i];
            proof {
                assert(t.skip(i as int)[0] == (b.keys@, b.command));
                assert(t.skip(i as int).drop_first() =~= t.skip(i + 1));
            }
            if same_keys(&b.keys, keys) {
                return Some(b.command);
            }
            i = i + 1;
        }
        assert(t.skip(i as int).len() == 0);
        None
    }
}

pub open spec fn plain(code: KeyCode) -> Key {
    Key { code, ctrl: false, alt: false, shift: false }
}

pub open spec fn shifted(code: KeyCode) -> Key {
    Key { code, ctrl: false, alt: false, shift: true }
}

fn key(code: KeyCode, shift: bool) -> (r: Key)
    ensures
        r == (Key { code, ctrl: false, alt: false, shift }),
{
    Key { code, ctrl: false, alt: false, shift }
}

fn bind(keys: &mut Vec<Binding>, k: Key, command: Command)
    ensures
        final(keys)@.len() == old(keys)@.len() + 1,
        forall|i: int| 0 <= i < old(keys)@.len() ==> final(keys)@[i] == old(keys)@[i],
        final(keys)@.last().keys@ == seq![k],
        final(keys)@.last().command == command,
{
    let mut ks: Vec<Key> = Vec::new();
    ks.push(k);
    keys.push(Binding { keys: ks, command });
}

/// The bindings of the default configuration, one key each.
pub open spec fn default_table() -> Seq<(Seq<Key>, Command)> {
    seq![
        (seq![plain(KeyCode::Up)], Command::NavUp),
        (seq![plain(KeyCode::Char('k'))], Command::NavUp),
        (seq![plain(KeyCode::Down)], Command::NavDown),
        (seq![plain(KeyCode::Char('j'))], Command::NavDown),
        (seq![plain(KeyCode::PageUp)], Command::NavPageUp),
        (seq![plain(KeyCode::PageDown)], Command::NavPageDown),
        (seq![plain(KeyCode::Home)], Command::NavTop),
        (seq![plain(KeyCode::End)], Command::NavBottom),
        (seq![plain(KeyCode::Enter)], Command::NavEnter),
        (seq![plain(KeyCode::Right)], Command::NavEnter),
        (seq![plain(KeyCode::Backspace)], Command::NavParent),
        (seq![plain(KeyCode::Left)], Command::NavParent),
        (seq![plain(KeyCode::Tab)], Command::SwitchPanel),
        (seq![shifted(KeyCode::BackTab)], Command::SyncPanelDir),
        (seq![plain(KeyCode::Char(' '))], Command::ToggleMark),
        (seq![plain(KeyCode::Insert)], Command::ToggleMark),
        (seq![plain(KeyCode::Char('*'))], Command::ToggleMarkAll),
        (seq![plain(KeyCode::F(1))], Command::QuickCd),
        (seq![shifted(KeyCode::F(1))], Command::RecentDirs),
        (seq![plain(KeyCode::F(2))], Command::ContextMenu),
        (seq![plain(KeyCode::F(3))], Command::View),
        (seq![plain(KeyCode::F(4))], Command::CalcSizes),
        (seq![plain(KeyCode::F(5))], Command::Copy),
        (seq![plain(KeyCode::F(6))], Command::Move),
        (seq![plain(KeyCode::F(7))], Command::Mkdir),
        (seq![plain(KeyCode::F(8))], Command::Delete),
        (seq![plain(KeyCode::F(9))], Command::CycleSortMode),
        (seq![shifted(KeyCode::F(9))], Command::InvertSort),
        (seq![plain(KeyCode::F(10))], Command::Quit),
        (seq![plain(KeyCode::Char('q'))], Command::Quit),
        (seq![plain(KeyCode::F(11))], Command::SelectTheme),
        (seq![Key { code: KeyCode::Char('z'), ctrl: true, alt: false, shift: false }], Command::Suspend),
    ]
}

/// The key map of the default configuration.
pub fn default_keymap() -> (r: KeyMap)
    ensures
        r.table() == default_table(),
{
    let mut b: Vec<Binding> = Vec::new();
    bind(&mut b, key(KeyCode::Up, false), Command::NavUp);
    bind(&mut b, key(KeyCode::Char('k'), false), Command::NavUp);
    bind(&mut b, key(KeyCode::Down, false), Command::NavDown);
    bind(&mut b, key(KeyCode::Char('j'), false), Command::NavDown);
    bind(&mut b, key(KeyCode::PageUp, false), Command::NavPageUp);
    bind(&mut b, key(KeyCode::PageDown, false), Command::NavPageDown);
    bind(&mut b, key(KeyCode::Home, false), Command::NavTop);
    bind(&mut b, key(KeyCode::End, false), Command::NavBottom);
    bind(&mut b, key(KeyCode::Enter, false), Command::NavEnter);
    bind(&mut b, key(KeyCode::Right, false), Command::NavEnter);
    bind(&mut b, key(KeyCode::Backspace, false), Command::NavParent);
    bind(&mut b, key(KeyCode::Left, false), Command::NavParent);
    bind(&mut b, key(KeyCode::Tab, false), Command::SwitchPanel);
    bind(&mut b, key(KeyCode::BackTab, true), Command::SyncPanelDir);
    bind(&mut b, key(KeyCode::Char(' '), false), Command::ToggleMark);
    bind(&mut b, key(KeyCode::Insert, false), Command::ToggleMark);
    bind(&mut b, key(KeyCode::Char('*'), false), Command::ToggleMarkAll);
    bind(&mut b, key(KeyCode::F(1), false), Command::QuickCd);
    bind(&mut b, key(KeyCode::F(1), true), Command::RecentDirs);
    bind(&mut b, key(KeyCode::F(2), false), Command::ContextMenu);
    bind(&mut b, key(KeyCode::F(3), false), Command::View);
    bind(&mut b, key(KeyCode::F(4), false), Command::CalcSizes);
    bind(&mut b, key(KeyCode::F(5), false), Command::Copy);
    bind(&mut b, key(KeyCode::F(6), false), Command::Move);
    bind(&mut b, key(KeyCode::F(7), false), Command::Mkdir);
    bind(&mut b, key(KeyCode::F(8), false), Command::Delete);
    bind(&mut b, key(KeyCode::F(9), false), Command::CycleSortMode);
    bind(&mut b, key(KeyCode::F(9), true), Command::InvertSort);
    bind(&mut b, key(KeyCode::F(10), false), Command::Quit);
    bind(&mut b, key(KeyCode::Char('q'), false), Command::Quit);
    bind(&mut b, key(KeyCode::F(11), false), Command::SelectTheme);
    bind(&mut b, Key { code: KeyCode::Char('z'), ctrl: true, alt: false, shift: false }, Command::Suspend);
    let r = KeyMap { bindings: b };
    assert(r.table() =~= default_table());
    r
}

/// What a key press leads to.
#[derive(Debug, PartialEq, Eq)]
pub enum KeyOutcome {
    /// Send this action to the event loop.
    Send(Action),
    /// Hand the key to the commit-message editor.
    EditCommit,
    /// Nothing happens.
    Ignore,
}

pub open spec fn no_ctrl_alt(k: Key) -> bool {
    !k.ctrl && !k.alt
}

/// Keys in a dialog: Enter confirms, Esc cancels, arrows move; the quick-cd
/// dialog completes with Tab and filters on typed text; a confirmation also
/// takes `y`/`n`; input dialogs edit their text.
pub open spec fn dialog_key(is_quick_cd: bool, is_confirm: bool, k: Key) -> KeyOutcome {
    match k.code {
        KeyCode::Enter => KeyOutcome::Send(Action::DialogConfirm),
        KeyCode::Esc => KeyOutcome::Send(Action::DialogCancel),
        KeyCode::Up => KeyOutcome::Send(Action::DialogNavUp),
        KeyCode::Down => KeyOutcome::Send(Action::DialogNavDown),
        KeyCode::Tab => if is_quick_cd {
            KeyOutcome::Send(Action::QuickCdComplete)
        } else {
            KeyOutcome::Ignore
        },
        KeyCode::Backspace => if is_quick_cd {
            KeyOutcome::Send(Action::QuickCdBackspace)
        } else {
            KeyOutcome::Send(Action::DialogInputBackspace)
        },
        KeyCode::Char(c) => if is_quick_cd && no_ctrl_alt(k) {
            KeyOutcome::Send(Action::QuickCdChar(c))
        } else if is_confirm && (c == 'y' || c == 'Y') {
            KeyOutcome::Send(Action::DialogConfirm)
        } else if is_confirm && (c == 'n' || c == 'N') {
            KeyOutcome::Send(Action::DialogCancel)
        } else if no_ctrl_alt(k) {
            KeyOutcome::Send(Action::DialogInputChar(c))
        } else {
            KeyOutcome::Ignore
        },
        _ => KeyOutcome::Ignore,
    }
}

pub fn dialog_key_outcome(is_quick_cd: bool, is_confirm: bool, k: Key) -> (r: KeyOutcome)
    ensures
        r == dialog_key(is_quick_cd, is_confirm, k),
{
    match k.code {
        KeyCode::Enter => KeyOutcome::Send(Action::DialogConfirm),
        KeyCode::Esc => KeyOutcome::Send(Action::DialogCancel),
        KeyCode::Up => KeyOutcome::Send(Action::DialogNavUp),
        KeyCode::Down => KeyOutcome::Send(Action::DialogNavDown),
        KeyCode::Tab => if is_quick_cd {
            KeyOutcome::Send(Action::QuickCdComplete)
        } else {
            KeyOutcome::Ignore
        },
        KeyCode::Backspace => if is_quick_cd {
            KeyOutcome::Send(Action::QuickCdBackspace)
        } else {
            KeyOutcome::Send(Action::DialogInputBackspace)
        },
        KeyCode::Char(c) => if is_quick_cd && !k.ctrl && !k.alt {
            KeyOutcome::Send(Action::QuickCdChar(c))
        } else if is_confirm && (c == 'y' || c == 'Y') {
            KeyOutcome::Send(Action::DialogConfirm)
        } else if is_confirm && (c == 'n' || c == 'N') {
            KeyOutcome::Send(Action::DialogCancel)
        } else if !k.ctrl && !k.alt {
            KeyOutcome::Send(Action::DialogInputChar(c))
        } else {
            KeyOutcome::Ignore
        },
        _ => KeyOutcome::Ignore,
    }
}

/// Keys while the commit message is edited: Esc cancels, Ctrl+Enter or
/// Alt+Enter commits, every other key edits the message.
pub open spec fn commit_key(k: Key) -> KeyOutcome {
    match k.code {
        KeyCode::Esc => KeyOutcome::Send(Action::GitCommitCancel),
        KeyCode::Enter => if k.ctrl || k.alt {
            KeyOutcome::Send(Action::GitCommitSubmit)
        } else {
            KeyOutcome::EditCommit
        },
        _ => KeyOutcome::EditCommit,
    }
}

pub fn commit_key_outcome(k: Key) -> (r: KeyOutcome)
    ensures
        r == commit_key(k),
{
    match k.code {
        KeyCode::Esc => KeyOutcome::Send(Action::GitCommitCancel),
        KeyCode::Enter => if k.ctrl || k.alt {
            KeyOutcome::Send(Action::GitCommitSubmit)
        } else {
            KeyOutcome::EditCommit
        },
        _ => KeyOutcome::EditCommit,
    }
}

/// Keys in the branch picker.
pub open spec fn branch_key(k: Key) -> KeyOutcome {
    match k.code {
        KeyCode::Esc => KeyOutcome::Send(Action::ExitGitMode),
        KeyCode::Up => KeyOutcome::Send(Action::GitBranchNavUp),
        KeyCode::Down => KeyOutcome::Send(Action::GitBranchNavDown),
        KeyCode::Enter => KeyOutcome::Send(Action::GitBranchConfirm),
        KeyCode::Char(c) => if c == 'k' {
            KeyOutcome::Send(Action::GitBranchNavUp)
        } else if c == 'j' {
            KeyOutcome::Send(Action::GitBranchNavDown)
        } else if c == 'n' {
            KeyOutcome::Send(Action::GitNewBranch)
        } else {
            KeyOutcome::Ignore
        },
        _ => KeyOutcome::Ignore,
    }
}

pub fn branch_key_outcome(k: Key) -> (r: KeyOutcome)
    ensures
        r == branch_key(k),
{
    match k.code {
        KeyCode::Esc => KeyOutcome::Send(Action::ExitGitMode),
        KeyCode::Up => KeyOutcome::Send(Action::GitBranchNavUp),
        KeyCode::Down => KeyOutcome::Send(Action::GitBranchNavDown),
        KeyCode::Enter => KeyOutcome::Send(Action::GitBranchConfirm),
        KeyCode::Char(c) => if c == 'k' {
            KeyOutcome::Send(Action::GitBranchNavUp)
        } else if c == 'j' {
            KeyOutcome::Send(Action::GitBranchNavDown)
        } else if c == 'n' {
            KeyOutcome::Send(Action::GitNewBranch)
        } else {
            KeyOutcome::Ignore
        },
        _ => KeyOutcome::Ignore,
    }
}

/// Keys in git mode.
pub open spec fn git_key(k: Key) -> KeyOutcome {
    match k.code {
        KeyCode::Esc => KeyOutcome::Send(Action::ExitGitMode),
        KeyCode::Up => KeyOutcome::Send(Action::GitNavUp),
        KeyCode::Down => KeyOutcome::Send(Action::GitNavDown),
        KeyCode::Tab => KeyOutcome::Send(Action::GitSwitchPane),
        KeyCode::Insert => KeyOutcome::Send(Action::GitToggleMark),
        KeyCode::F(n) => if n == 1 {
            KeyOutcome::Send(Action::GitStage)
        } else if n == 2 {
            KeyOutcome::Send(Action::GitUnstage)
        } else if n == 3 {
            KeyOutcome::Send(Action::GitCommit)
        } else if n == 4 {
            KeyOutcome::Send(Action::GitPush)
        } else if n == 5 {
            KeyOutcome::Send(Action::GitPull)
        } else if n == 6 {
            KeyOutcome::Send(Action::GitListBranches)
        } else if n == 7 {
            KeyOutcome::Send(Action::GitAddAllAndCommit)
        } else {
            KeyOutcome::Ignore
        },
        KeyCode::Char(c) => if c == 'q' {
            KeyOutcome::Send(Action::ExitGitMode)
        } else if c == 'k' {
            KeyOutcome::Send(Action::GitNavUp)
        } else if c == 'j' {
            KeyOutcome::Send(Action::GitNavDown)
        } else if c == ' ' {
            KeyOutcome::Send(Action::GitToggleMark)
        } else if c == 'a' {
            KeyOutcome::Send(Action::GitStage)
        } else if c == 'u' {
            KeyOutcome::Send(Action::GitUnstage)
        } else if c == 'c' {
            KeyOutcome::Send(Action::GitCommit)
        } else if c == 'p' {
            KeyOutcome::Send(Action::GitPush)
        } else if c == 'P' {
            KeyOutcome::Send(Action::GitPull)
        } else if c == 'b' {
            KeyOutcome::Send(Action::GitListBranches)
        } else if c == 'A' {
            KeyOutcome::Send(Action::GitAddAllAndCommit)
        } else if c == 'n' {
            KeyOutcome::Send(Action::GitNewBranch)
        } else if c == 'r' {
            KeyOutcome::Send(Action::GitReload)
        } else {
            KeyOutcome::Ignore
        },
        _ => KeyOutcome::Ignore,
    }
}

pub fn git_key_outcome(k: Key) -> (r: KeyOutcome)
    ensures
        r == git_key(k),
{
    match k.code {
        KeyCode::Esc => KeyOutcome::Send(Action::ExitGitMode),
        KeyCode::Up => KeyOutcome::Send(Action::GitNavUp),
        KeyCode::Down => KeyOutcome::Send(Action::GitNavDown),
        KeyCode::Tab => KeyOutcome::Send(Action::GitSwitchPane),
        KeyCode::Insert => KeyOutcome::Send(Action::GitToggleMark),
        KeyCode::F(n) => if n == 1 {
            KeyOutcome::Send(Action::GitStage)
        } else if n == 2 {
            KeyOutcome::Send(Action::GitUnstage)
        } else if n == 3 {
            KeyOutcome::Send(Action::GitCommit)
        } else if n == 4 {
            KeyOutcome::Send(Action::GitPush)
        } else if n == 5 {
            KeyOutcome::Send(Action::GitPull)
        } else if n == 6 {
            KeyOutcome::Send(Action::GitListBranches)
        } else if n == 7 {
            KeyOutcome::Send(Action::GitAddAllAndCommit)
        } else {
            KeyOutcome::Ignore
        },
        KeyCode::Char(c) => if c == 'q' {
            KeyOutcome::Send(Action::ExitGitMode)
        } else if c == 'k' {
            KeyOutcome::Send(Action::GitNavUp)
        } else if c == 'j' {
            KeyOutcome::Send(Action::GitNavDown)
        } else if c == ' ' {
            KeyOutcome::Send(Action::GitToggleMark)
        } else if c == 'a' {
            KeyOutcome::Send(Action::GitStage)
        } else if c == 'u' {
            KeyOutcome::Send(Action::GitUnstage)
        } else if c == 'c' {
            KeyOutcome::Send(Action::GitCommit)
        } else if c == 'p' {
            KeyOutcome::Send(Action::GitPush)
        } else if c == 'P' {
            KeyOutcome::Send(Action::GitPull)
        } else if c == 'b' {
            KeyOutcome::Send(Action::GitListBranches)
        } else if c == 'A' {
            KeyOutcome::Send(Action::GitAddAllAndCommit)
        } else if c == 'n' {
            KeyOutcome::Send(Action::GitNewBranch)
        } else if c == 'r' {
            KeyOutcome::Send(Action::GitReload)
        } else {
            KeyOutcome::Ignore
        },
        _ => KeyOutcome::Ignore,
    }
}

/// An unbound single key in normal mode: typed text goes to the filter,
/// Backspace shortens it, Esc clears it.
pub open spec fn filter_key(k: Key) -> KeyOutcome {
    match k.code {
        KeyCode::Char(c) => if no_ctrl_alt(k) {
            KeyOutcome::Send(Action::FilterChar(c))
        } else {
            KeyOutcome::Ignore
        },
        KeyCode::Backspace => KeyOutcome::Send(Action::FilterBackspace),
        KeyCode::Esc => KeyOutcome::Send(Action::FilterClear),
        _ => KeyOutcome::Ignore,
    }
}

pub fn filter_key_outcome(k: Key) -> (r: KeyOutcome)
    ensures
        r == filter_key(k),
{
    match k.code {
        KeyCode::Char(c) => if !k.ctrl && !k.alt {
            KeyOutcome::Send(Action::FilterChar(c))
        } else {
            KeyOutcome::Ignore
        },
        KeyCode::Backspace => KeyOutcome::Send(Action::FilterBackspace),
        KeyCode::Esc => KeyOutcome::Send(Action::FilterClear),
        _ => KeyOutcome::Ignore,
    }
}

/// Ctrl+G, with no other modifier.
pub open spec fn is_ctrl_g(k: Key) -> bool {
    k.ctrl && !k.alt && !k.shift && k.code == KeyCode::Char('g')
}

/// Normal mode, given the pending keys of this tick: a key bound on its own
/// runs its command and clears the pending keys; otherwise it is added to
/// them, and runs the command bound to the whole sequence if there is one;
/// a single unbound key edits the filter.
pub open spec fn normal_key(table: Seq<(Seq<Key>, Command)>, pending: Seq<Key>, k: Key) -> (
    KeyOutcome,
    Seq<Key>,
) {
    match lookup(table, seq![k]) {
        Some(c) => (KeyOutcome::Send(command_action_spec(c)), Seq::empty()),
        None => match lookup(table, pending.push(k)) {
            Some(c) => (KeyOutcome::Send(command_action_spec(c)), Seq::empty()),
            None => if pending.push(k).len() == 1 {
                (filter_key(k), pending.push(k))
            } else {
                (KeyOutcome::Ignore, pending.push(k))
            },
        },
    }
}

/// Normal-mode handling of `k`; `pending` holds the keys pressed since the
/// last tick.
pub fn normal_key_outcome(keymap: &KeyMap, pending: &mut Vec<Key>, k: Key) -> (r: KeyOutcome)
    ensures
        (r, final(pending)@) == normal_key(keymap.table(), old(pending)@, k),
{
    let mut single: Vec<Key> = Vec::new();
    single.push(k);
    assert(single@ =~= seq![k]);
    match keymap.get(&single) {
        Some(c) => {
            pending.clear();
            assert(pending@ =~= Seq::<Key>::empty());
            KeyOutcome::Send(command_action(c))
        },
        None => {
            pending.push(k);
            match keymap.get(pending) {
                Some(c) => {
                    pending.clear();
                    assert(pending@ =~= Seq::<Key>::empty());
                    KeyOutcome::Send(command_action(c))
                },
                None => {
                    if pending.len() == 1 {
                        filter_key_outcome(k)
                    } else {
                        KeyOutcome::Ignore
                    }
                },
            }
        },
    }
}

} // verus!
