//! The state of the whole application and how each action changes it.
//! The host feeds key presses to `on_key` and actions to `update`, and
//! carries out the effects that come back.
use vstd::prelude::*;
use crate::action::{Action, BranchInfo, EntryInfo, GitEntry, Side};
use crate::context_menu::{
    builtin_menu_items, dev_views, menu_items_of, name_or_empty, DeviceProvider, MenuCtx,
    MenuCtxView, RemovableDev,
};
use crate::dialog::{
    dialog_nav_down, dialog_nav_up, dialog_pop_char, dialog_push_char, item_views, op_effect, DeferredOp, DialogState, MenuAction, MenuActionView, MenuItem,
    MenuItemView,
};
use crate::quick_cd::{
    completed_input, destination, filter_sort_dir_names, parse_input, quick_cd_complete,
    quick_cd_destination, quick_cd_parse_input, sorted_by_lowercase, dir_matches,
};
use crate::recent_dirs::pushed;
use crate::text::{pop_char, push_char, trimmed, join_with, trim};
use crate::paths::{file_name_of, join_path, joined, norm_path, normalize_path};
use crate::text::{concat_str, decimal, decimal_string, dotdot, is_dotdot};
use crate::effect::Effect;
use crate::git_view::{
    GitView, git_nav_down, git_nav_up, git_on_status_loaded, git_switch_pane, git_toggle_mark,
    staging_list, worktree_list,
};
use crate::keys::{
    branch_key, branch_key_outcome, commit_key, commit_key_outcome, default_keymap, default_table,
    dialog_key, dialog_key_outcome, git_key, git_key_outcome, is_ctrl_g, normal_key,
    normal_key_outcome, Key, KeyCode, KeyMap, KeyOutcome,
};
use crate::names::{SizeMap, string_views};
use crate::panel::{
    panel_enter_effect, panel_parent_effect, Panel, panel_clear_filter, panel_on_dir_loaded, panel_on_dir_size_result,
    panel_on_git_info_loaded, panel_start_size_calc, panel_cycle_sort_mode, panel_invert_sort, panel_nav_bottom,
    panel_nav_down, panel_nav_page_down, panel_nav_page_up, panel_nav_top, panel_nav_up,
    panel_pop_filter_char, panel_push_filter_char, panel_toggle_mark, panel_toggle_mark_all,
    SortMode, SortOrder, targets_of,
};
use crate::git_data::{keyed_precedes, sorted_permutation, sorted_positions};

verus! {

#[derive(Debug, Clone, Copy, PartialEq, Eq, Structural)]
pub enum Mode {
    Normal,
    Dialog,
    Git,
    GitCommit,
    GitBranch,
}

/// A long-running operation shown in the progress overlay.
#[derive(Debug)]
pub struct OpProgress {
    pub id: u64,
    pub label: String,
    pub done: u64,
    pub total: u64,
}

pub struct AppState {
    pub left: Panel,
    pub right: Panel,
    pub active: Side,
    pub dialog: Option<DialogState>,
    pub mode: Mode,
    pub last_error: Option<String>,
    /// Recursively computed directory sizes, by full path; dropped after
    /// any operation that changes files.
    pub dir_size_cache: SizeMap,
    /// A command to run with the terminal handed over: program, arguments,
    /// and the panels to reload afterwards.
    pub pending_command: Option<(String, Vec<String>, Vec<Side>)>,
    pub git_view: Option<GitView>,
    /// The commit-message editor is shown.
    pub commit_editor_open: bool,
    pub branch_list: Vec<BranchInfo>,
    pub branch_cursor: usize,
    /// A watcher reports changes in the repository.
    pub git_watching: bool,
    pub recent_dirs: Vec<String>,
    pub ops: Vec<OpProgress>,
    pub next_op_id: u64,
    pub should_quit: bool,
    pub should_suspend: bool,
    pub keymap: KeyMap,
    /// Keys pressed since the last tick that did not yet make a binding.
    pub pending_keys: Vec<Key>,
    /// The id of the colour theme in use.
    pub theme: String,
    /// The home directory, which `~` stands for.
    pub home: String,
}

pub open spec fn panel_at(s: AppState, side: Side) -> Panel {
    match side {
        Side::Left => s.left,
        Side::Right => s.right,
    }
}

pub open spec fn with_panel(s: AppState, side: Side, p: Panel) -> AppState {
    match side {
        Side::Left => AppState { left: p, ..s },
        Side::Right => AppState { right: p, ..s },
    }
}

/// The state changed only in the active panel, which relates to the old one by `rel`.
pub open spec fn active_panel_step(s: AppState, t: AppState, rel: spec_fn(Panel, Panel) -> bool) -> bool {
    &&& t == with_panel(s, s.active, panel_at(t, s.active))
    &&& rel(panel_at(s, s.active), panel_at(t, s.active))
}

impl AppState {
    /// Both panels have a valid view and sit on their own side.
    pub open spec fn inv(&self) -> bool {
        &&& self.left.wf()
        &&& self.right.wf()
        &&& self.left.side == Side::Left
        &&& self.right.side == Side::Right
    }

    /// The state at start-up: both panels on `cwd`, the left one active.
    pub fn new(cwd: String, home: String, theme: String, recent_dirs: Vec<String>) -> (r: AppState)
        ensures
            r.inv(),
            r.left.path == cwd,
            r.right.path == cwd,
            r.left.entries@.len() == 0 && r.right.entries@.len() == 0,
            r.left.is_active && !r.right.is_active,
            r.active == Side::Left,
            r.dialog is None,
            r.mode == Mode::Normal,
            r.last_error is None,
            r.dir_size_cache@ == Map::<Seq<char>, u64>::empty(),
            r.pending_command is None,
            r.git_view is None,
            !r.commit_editor_open,
            r.branch_list@.len() == 0,
            r.branch_cursor == 0,
            !r.git_watching,
            r.recent_dirs == recent_dirs,
            r.ops@.len() == 0,
            r.next_op_id == 0,
            !r.should_quit && !r.should_suspend,
            r.keymap.table() == default_table(),
            r.pending_keys@.len() == 0,
            r.theme == theme,
            r.home == home,
    {
        let mut left = Panel::new(Side::Left, cwd.clone());
        let right = Panel::new(Side::Right, cwd);
        left.is_active = true;
        AppState {
            left,
            right,
            active: Side::Left,
            dialog: None,
            mode: Mode::Normal,
            last_error: None,
            dir_size_cache: SizeMap::new(),
            pending_command: None,
            git_view: None,
            commit_editor_open: false,
            branch_list: Vec::new(),
            branch_cursor: 0,
            git_watching: false,
            recent_dirs,
            ops: Vec::new(),
            next_op_id: 0,
            should_quit: false,
            should_suspend: false,
            keymap: default_keymap(),
            pending_keys: Vec::new(),
            theme,
            home,
        }
    }

    /// The first listing of both panels.
    pub fn start(&self) -> (r: Vec<Effect>)
        ensures
            r@ == seq![
                Effect::LoadDir { path: self.left.path, side: self.left.side },
                Effect::LoadDir { path: self.right.path, side: self.right.side },
            ],
    {
        let mut v: Vec<Effect> = Vec::new();
        v.push(self.left.reload());
        v.push(self.right.reload());
        assert(v@ =~= seq![
            Effect::LoadDir { path: self.left.path, side: self.left.side },
            Effect::LoadDir { path: self.right.path, side: self.right.side },
        ]);
        v
    }

    pub fn get_panel(&self, side: Side) -> (r: &Panel)
        ensures
            *r == panel_at(*self, side),
    {
        match side {
            Side::Left => &self.left,
            Side::Right => &self.right,
        }
    }

    pub fn active_panel(&self) -> (r: &Panel)
        ensures
            *r == panel_at(*self, self.active),
    {
        self.get_panel(self.active)
    }

    fn get_panel_mut(&mut self, side: Side) -> (r: &mut Panel)
        ensures
            *r == panel_at(*old(self), side),
            *final(self) == with_panel(*old(self), side, *final(r)),
    {
        match side {
            Side::Left => &mut self.left,
            Side::Right => &mut self.right,
        }
    }

    // --- Panels ---

    pub fn nav_up(&mut self)
        requires
            old(self).inv(),
        ensures
            final(self).inv(),
            did_nav_up(*old(self), *final(self)),
    {
        let side = self.active;
        self.get_panel_mut(side).nav_up();
    }

    /// Moves down; a cursor already at the largest index stays.
    pub fn nav_down(&mut self)
        requires
            old(self).inv(),
        ensures
            final(self).inv(),
            did_nav_down(*old(self), *final(self)),
    {
        let side = self.active;
        let p = self.get_panel_mut(side);
        if p.cursor < usize::MAX {
            p.nav_down();
        }
    }

    pub fn nav_page_up(&mut self, page: usize)
        requires
            old(self).inv(),
        ensures
            final(self).inv(),
            did_nav_page_up(*old(self), *final(self), page),
    {
        let side = self.active;
        self.get_panel_mut(side).nav_page_up(page);
    }

    /// Moves down a page; where the sum would not fit in `usize` nothing moves.
    pub fn nav_page_down(&mut self, page: usize)
        requires
            old(self).inv(),
        ensures
            final(self).inv(),
            did_nav_page_down(*old(self), *final(self), page),
    {
        let side = self.active;
        let p = self.get_panel_mut(side);
        if p.cursor <= usize::MAX - page {
            p.nav_page_down(page);
        }
    }

    pub fn nav_top(&mut self)
        requires
            old(self).inv(),
        ensures
            final(self).inv(),
            did_nav_top(*old(self), *final(self)),
    {
        let side = self.active;
        self.get_panel_mut(side).nav_top();
    }

    pub fn nav_bottom(&mut self)
        requires
            old(self).inv(),
        ensures
            final(self).inv(),
            did_nav_bottom(*old(self), *final(self)),
    {
        let side = self.active;
        self.get_panel_mut(side).nav_bottom();
    }

    /// Makes the other panel active.
    pub fn switch_panel(&mut self)
        requires
            old(self).inv(),
        ensures
            final(self).inv(),
            did_switch_panel(*old(self), *final(self)),
    {
        self.active = self.active.other();
        self.left.is_active = self.active == Side::Left;
        self.right.is_active = self.active == Side::Right;
    }

    /// Typing a character that is not bound: clears the error line and
    /// narrows the active panel's filter.
    pub fn filter_char(&mut self, c: char)
        requires
            old(self).inv(),
        ensures
            final(self).inv(),
            did_filter_char(*old(self), *final(self), c),
    {
        self.last_error = None;
        let side = self.active;
        self.get_panel_mut(side).push_filter_char(c);
    }

    pub fn filter_backspace(&mut self)
        requires
            old(self).inv(),
        ensures
            final(self).inv(),
            did_filter_backspace(*old(self), *final(self)),
    {
        let side = self.active;
        self.get_panel_mut(side).pop_filter_char();
    }

    pub fn filter_clear(&mut self)
        requires
            old(self).inv(),
        ensures
            final(self).inv(),
            did_filter_clear(*old(self), *final(self)),
    {
        let side = self.active;
        self.get_panel_mut(side).clear_filter();
    }

    /// Toggles the mark under the cursor (a cursor at the largest index
    /// leaves everything as it is).
    pub fn toggle_mark(&mut self)
        requires
            old(self).inv(),
        ensures
            final(self).inv(),
            did_toggle_mark(*old(self), *final(self)),
    {
        let side = self.active;
        let p = self.get_panel_mut(side);
        p.toggle_mark();
    }

    pub fn toggle_mark_all(&mut self)
        requires
            old(self).inv(),
        ensures
            final(self).inv(),
            did_toggle_mark_all(*old(self), *final(self)),
    {
        let side = self.active;
        self.get_panel_mut(side).toggle_mark_all();
    }

    pub fn cycle_sort_mode(&mut self)
        requires
            old(self).inv(),
        ensures
            final(self).inv(),
            did_cycle_sort_mode(*old(self), *final(self)),
    {
        let side = self.active;
        self.get_panel_mut(side).cycle_sort_mode();
    }

    pub fn invert_sort(&mut self)
        requires
            old(self).inv(),
        ensures
            final(self).inv(),
            did_invert_sort(*old(self), *final(self)),
    {
        let side = self.active;
        self.get_panel_mut(side).invert_sort();
    }
}


// --- Dialogs ---

/// How a dialog names the files an operation acts on: the file name of a
/// single one, else their number.
pub open spec fn target_label_of(sources: Seq<Seq<char>>) -> Seq<char> {
    if sources.len() == 1 {
        name_or_empty(sources[0])
    } else {
        decimal(sources.len()) + " files"@
    }
}

fn name_or_empty_of(p: &str) -> (r: String)
    ensures
        r@ == name_or_empty(p@),
{
    match file_name_of(p) {
        Some(n) => n,
        None => String::new(),
    }
}

pub fn target_label(sources: &Vec<String>) -> (r: String)
    ensures
        r@ == target_label_of(string_views(sources@)),
{
    if sources.len() == 1 {
        name_or_empty_of(sources[0].as_str())
    } else {
        concat_str(decimal_string(sources.len() as u64).as_str(), " files")
    }
}

/// The state with `d` open as the dialog.
pub open spec fn with_dialog(s: AppState, d: DialogState) -> AppState {
    AppState { dialog: Some(d), mode: Mode::Dialog, ..s }
}

/// The copy or move dialog: asks where to, starting from the other panel's directory.
pub open spec fn transfer_dialog_opened(s: AppState, t: AppState, is_move: bool) -> bool {
    let srcs = targets_of(panel_at(s, s.active));
    if srcs.len() == 0 {
        t == s
    } else {
        &&& t == with_dialog(s, t.dialog->0)
        &&& t.dialog matches Some(DialogState::Input { title, prompt, value, op })
        &&& title@ == (if is_move { "Move"@ } else { "Copy"@ })
        &&& prompt@ == (if is_move { "Move "@ } else { "Copy "@ }) + target_label_of(srcs) + " to:"@
        &&& value@ == panel_at(s, s.active.opposite()).path@
        &&& if is_move {
            op matches DeferredOp::Move { sources, active } && string_views(sources@) == srcs
                && active == s.active
        } else {
            op matches DeferredOp::Copy { sources, active } && string_views(sources@) == srcs
                && active == s.active
        }
    }
}

pub open spec fn delete_message(srcs: Seq<Seq<char>>) -> Seq<char> {
    if srcs.len() == 1 {
        "Delete '"@ + name_or_empty(srcs[0]) + "'?"@
    } else {
        "Delete "@ + decimal(srcs.len()) + " items?"@
    }
}

/// The name the nano dialog starts with: the cursor entry when it is a file.
pub open spec fn nano_prefill(p: Panel) -> Seq<char> {
    match p.cursor_entry_spec() {
        Some(e) => if !e.is_dir && e.name@ != dotdot() {
            e.name@
        } else {
            Seq::empty()
        },
        None => Seq::empty(),
    }
}

/// The menu of recent directories: each one, labelled with itself.
pub open spec fn recent_items(dirs: Seq<Seq<char>>) -> Seq<MenuItemView> {
    dirs.map_values(|d: Seq<char>| MenuItemView { label: d, action: MenuActionView::CdTo(d) })
}

/// A theme's menu label: its display name, with a check mark on the theme in use.
pub open spec fn theme_label(id: Seq<char>, display: Seq<char>, current: Seq<char>) -> Seq<char> {
    if id == current {
        display + " ✓"@
    } else {
        display
    }
}

/// The theme menu: the themes ordered by display name (ties in listed order).
pub open spec fn theme_items_ok(themes: Seq<(Seq<char>, Seq<char>)>, current: Seq<char>, items: Seq<MenuItemView>) -> bool {
    exists|p: Seq<usize>|
        #[trigger] sorted_permutation(p, themes.len(), display_order(themes)) && items
            == p.map_values(
            |k: usize|
                MenuItemView {
                    label: theme_label(themes[k as int].0, themes[k as int].1, current),
                    action: MenuActionView::SetTheme(themes[k as int].0),
                },
        )
}

pub open spec fn display_order(themes: Seq<(Seq<char>, Seq<char>)>) -> spec_fn(int, int) -> bool {
    |i: int, j: int|
        keyed_precedes(
            themes.map_values(|t: (Seq<char>, Seq<char>)| t.1),
            Seq::new(themes.len(), |k: int| false),
            i,
            j,
        )
}

/// The built-in themes of opaline 0.4.2, as (id, display name) pairs, in the
/// order its build script writes them: one per theme file under
/// `src/builtins/`, sorted by file name, the id being the file name with `-`
/// for `_`, the display name the `name` of its `[meta]` section.
pub open spec fn builtin_themes() -> Seq<(Seq<char>, Seq<char>)> {
    seq![
        ("ayu-dark"@, "Ayu Dark"@),
        ("ayu-light"@, "Ayu Light"@),
        ("ayu-mirage"@, "Ayu Mirage"@),
        ("catppuccin-frappe"@, "Catppuccin Frappé"@),
        ("catppuccin-latte"@, "Catppuccin Latte"@),
        ("catppuccin-macchiato"@, "Catppuccin Macchiato"@),
        ("catppuccin-mocha"@, "Catppuccin Mocha"@),
        ("dracula"@, "Dracula"@),
        ("everforest-dark"@, "Everforest Dark"@),
        ("everforest-light"@, "Everforest Light"@),
        ("flexoki-dark"@, "Flexoki Dark"@),
        ("flexoki-light"@, "Flexoki Light"@),
        ("github-dark-dimmed"@, "GitHub Dark Dimmed"@),
        ("github-light"@, "GitHub Light"@),
        ("gruvbox-dark"@, "Gruvbox Dark"@),
        ("gruvbox-light"@, "Gruvbox Light"@),
        ("kanagawa-dragon"@, "Kanagawa Dragon"@),
        ("kanagawa-lotus"@, "Kanagawa Lotus"@),
        ("kanagawa-wave"@, "Kanagawa Wave"@),
        ("light-owl"@, "Light Owl"@),
        ("monokai-pro"@, "Monokai Pro"@),
        ("night-owl"@, "Night Owl"@),
        ("nord"@, "Nord"@),
        ("one-dark"@, "One Dark"@),
        ("one-light"@, "One Light"@),
        ("palenight"@, "Palenight"@),
        ("rose-pine"@, "Rose Pine"@),
        ("rose-pine-dawn"@, "Rose Pine Dawn"@),
        ("rose-pine-moon"@, "Rose Pine Moon"@),
        ("silkcircuit-dawn"@, "SilkCircuit Dawn"@),
        ("silkcircuit-glow"@, "SilkCircuit Glow"@),
        ("silkcircuit-neon"@, "SilkCircuit Neon"@),
        ("silkcircuit-soft"@, "SilkCircuit Soft"@),
        ("silkcircuit-vibrant"@, "SilkCircuit Vibrant"@),
        ("solarized-dark"@, "Solarized Dark"@),
        ("solarized-light"@, "Solarized Light"@),
        ("tokyo-night"@, "Tokyo Night"@),
        ("tokyo-night-moon"@, "Tokyo Night Moon"@),
        ("tokyo-night-storm"@, "Tokyo Night Storm"@),
    ]
}

/// The names of opaline's built-in themes, as (id, display name) pairs
/// (`opaline::builtins::builtin_names`, which returns the table its build
/// script generates: `builtin_themes`).
#[verifier::external_body]
fn builtin_theme_names() -> (r: Vec<(String, String)>)
    ensures
        pair_views(r@) == builtin_themes(),
{
    opaline::builtins::builtin_names().iter().map(|(id, display)| (id.to_string(), display.to_string())).collect()
}

/// The ids opaline loads a theme for: a built-in theme's id, or `default`
/// (its alias for `silkcircuit-neon`).
pub open spec fn names_theme(id: Seq<char>) -> bool {
    id == "default"@ || exists|k: int| 0 <= k < builtin_themes().len() && #[trigger] builtin_themes()[k].0 == id
}

/// Whether opaline has a theme under `id`.
fn is_theme_id(id: &str) -> (r: bool)
    ensures
        r == names_theme(id@),
{
    if crate::text::str_eq(id, "default") {
        return true;
    }
    let names = builtin_theme_names();
    let mut i: usize = 0;
    while i < names.len()
        invariant
            i <= names@.len(),
            pair_views(names@) == builtin_themes(),
            id@ != "default"@,
            forall|k: int| 0 <= k < i ==> #[trigger] builtin_themes()[k].0 != id@,
        decreases names.len() - i,
    {
        assert(builtin_themes()[i as int].0 == names@[i as int].0@);
        if crate::text::str_eq(names[i].0.as_str(), id) {
            return true;
        }
        i = i + 1;
    }
    false
}

pub open spec fn pair_views(v: Seq<(String, String)>) -> Seq<(Seq<char>, Seq<char>)> {
    v.map_values(|p: (String, String)| (p.0@, p.1@))
}

/// A copy of an entry.
pub fn clone_entry(e: &EntryInfo) -> (r: EntryInfo)
    ensures
        r == *e,
{
    EntryInfo {
        name: e.name.clone(),
        is_dir: e.is_dir,
        is_symlink: e.is_symlink,
        size: e.size,
        modified: e.modified,
        nlink: e.nlink,
        owner: e.owner.clone(),
    }
}

/// A copy of a list of strings.
pub fn clone_strings(v: &Vec<String>) -> (r: Vec<String>)
    ensures
        r@ == v@,
{
    let mut out: Vec<String> = Vec::new();
    let mut i: usize = 0;
    while i < v.len()
        invariant
            i <= v@.len(),
            out@ == v@.take(i as int),
        decreases v.len() - i,
    {
        out.push(v[i].clone());
        assert(out@ =~= v@.take(i + 1));
        i = i + 1;
    }
    assert(v@.take(v@.len() as int) =~= v@);
    out
}

impl AppState {
    pub fn open_dialog(&mut self, state: DialogState)
        requires
            old(self).inv(),
        ensures
            final(self).inv(),
            *final(self) == with_dialog(*old(self), state),
    {
        self.dialog = Some(state);
        self.mode = Mode::Dialog;
    }

    fn open_transfer_dialog(&mut self, is_move: bool)
        requires
            old(self).inv(),
        ensures
            final(self).inv(),
            transfer_dialog_opened(*old(self), *final(self), is_move),
    {
        let sources = self.active_panel().effective_targets();
        if sources.len() == 0 {
            return;
        }
        let dest = self.get_panel(self.active.other()).path.clone();
        let label = target_label(&sources);
        let active = self.active;
        let prompt = concat_str(
            concat_str(if is_move { "Move " } else { "Copy " }, label.as_str()).as_str(),
            " to:",
        );
        let op = if is_move {
            DeferredOp::Move { sources, active }
        } else {
            DeferredOp::Copy { sources, active }
        };
        let d = DialogState::input(if is_move { "Move" } else { "Copy" }, prompt.as_str(), dest.as_str(), op);
        self.open_dialog(d);
    }

    /// F5: asks where to copy the targets.
    pub fn open_copy_dialog(&mut self)
        requires
            old(self).inv(),
        ensures
            final(self).inv(),
            transfer_dialog_opened(*old(self), *final(self), false),
    {
        self.open_transfer_dialog(false);
    }

    /// F6: asks where to move the targets.
    pub fn open_move_dialog(&mut self)
        requires
            old(self).inv(),
        ensures
            final(self).inv(),
            transfer_dialog_opened(*old(self), *final(self), true),
    {
        self.open_transfer_dialog(true);
    }

    /// F7: asks for the name of a new directory in the active panel.
    pub fn open_mkdir_dialog(&mut self)
        requires
            old(self).inv(),
        ensures
            final(self).inv(),
            did_open_mkdir_dialog(*old(self), *final(self)),
    {
        let base = self.active_panel().path.clone();
        let active = self.active;
        let d = DialogState::input("Make Directory", "New directory name:", "", DeferredOp::Mkdir { base, active });
        proof {
            reveal_strlit("");
        }
        self.open_dialog(d);
    }

    /// F8: asks to confirm deleting the targets.
    pub fn open_delete_dialog(&mut self)
        requires
            old(self).inv(),
        ensures
            final(self).inv(),
            did_open_delete_dialog(*old(self), *final(self)),
    {
        let sources = self.active_panel().effective_targets();
        if sources.len() == 0 {
            return;
        }
        let msg = if sources.len() == 1 {
            concat_str(concat_str("Delete '", name_or_empty_of(sources[0].as_str()).as_str()).as_str(), "'?")
        } else {
            concat_str(concat_str("Delete ", decimal_string(sources.len() as u64).as_str()).as_str(), " items?")
        };
        let active = self.active;
        let d = DialogState::confirm("Delete", msg.as_str(), DeferredOp::Delete { paths: sources, active });
        self.open_dialog(d);
    }

    /// F3: asks which file of the active panel to open in nano, starting
    /// with the file under the cursor.
    pub fn open_nano_dialog(&mut self)
        requires
            old(self).inv(),
        ensures
            final(self).inv(),
            did_open_nano_dialog(*old(self), *final(self)),
    {
        let base = self.active_panel().path.clone();
        let prefill = match self.active_panel().current_entry() {
            Some(e) => if !e.is_dir && !is_dotdot(e.name.as_str()) {
                e.name.clone()
            } else {
                String::new()
            },
            None => String::new(),
        };
        let prompt = concat_str(concat_str("File in ", base.as_str()).as_str(), ":");
        let d = DialogState::input("Open in Nano", prompt.as_str(), prefill.as_str(), DeferredOp::OpenInNano { base });
        self.open_dialog(d);
    }

    /// Shift+F1: the recent directories as a menu, or an error line when
    /// there are none.
    pub fn open_recent_dirs_menu(&mut self)
        requires
            old(self).inv(),
        ensures
            final(self).inv(),
            did_open_recent_dirs_menu(*old(self), *final(self)),
    {
        if self.recent_dirs.len() == 0 {
            self.last_error = Some("No recent directories — use F1 to navigate first".to_owned());
            return;
        }
        let mut items: Vec<MenuItem> = Vec::new();
        let mut i: usize = 0;
        let ghost dirs = string_views(self.recent_dirs@);
        while i < self.recent_dirs.len()
            invariant
                i <= self.recent_dirs@.len(),
                dirs == string_views(self.recent_dirs@),
                item_views(items@) == recent_items(dirs.take(i as int)),
            decreases self.recent_dirs.len() - i,
        {
            let p = &self.recent_dirs[i];
            let ghost before = item_views(items@);
            items.push(MenuItem::new(p.clone(), MenuAction::CdTo(p.clone())));
            proof {
                assert(item_views(items@) =~= before.push(
                    MenuItemView { label: dirs[i as int], action: MenuActionView::CdTo(dirs[i as int]) },
                ));
                assert(dirs.take(i + 1) =~= dirs.take(i as int).push(dirs[i as int]));
                assert(recent_items(dirs.take(i + 1)) =~= recent_items(dirs.take(i as int)).push(
                    MenuItemView { label: dirs[i as int], action: MenuActionView::CdTo(dirs[i as int]) },
                ));
            }
            i = i + 1;
        }
        assert(dirs.take(dirs.len() as int) =~= dirs);
        let d = DialogState::context_menu("Recent Directories", items);
        self.open_dialog(d);
    }

    /// F11: the theme menu, from the themes opaline has built in.
    pub fn open_theme_selector(&mut self)
        requires
            old(self).inv(),
        ensures
            final(self).inv(),
            theme_menu_shown(*old(self), *final(self), builtin_themes()),
    {
        let names = builtin_theme_names();
        self.show_theme_menu(names);
    }

    /// The theme menu for the given (id, display name) pairs.
    pub fn show_theme_menu(&mut self, themes: Vec<(String, String)>)
        requires
            old(self).inv(),
        ensures
            final(self).inv(),
            theme_menu_shown(*old(self), *final(self), pair_views(themes@)),
    {
        let ghost tv = pair_views(themes@);
        let mut keys: Vec<Vec<char>> = Vec::new();
        let mut first: Vec<bool> = Vec::new();
        let mut j: usize = 0;
        while j < themes.len()
            invariant
                j <= themes@.len(),
                tv == pair_views(themes@),
                keys@.len() == j,
                first@.len() == j,
                forall|q: int| 0 <= q < j ==> #[trigger] keys@[q]@ == tv[q].1,
                forall|q: int| 0 <= q < j ==> !#[trigger] first@[q],
            decreases themes.len() - j,
        {
            keys.push(crate::text::chars_of(themes[j].1.as_str()));
            first.push(false);
            j = j + 1;
        }
        proof {
            assert(keys@.map_values(|v: Vec<char>| v@) =~= tv.map_values(|t: (Seq<char>, Seq<char>)| t.1));
            assert(first@ =~= Seq::new(tv.len(), |k: int| false));
        }
        let p = sorted_positions(keys, first);
        let ghost want = p@.map_values(
            |k: usize|
                MenuItemView {
                    label: theme_label(tv[k as int].0, tv[k as int].1, self.theme@),
                    action: MenuActionView::SetTheme(tv[k as int].0),
                },
        );
        let mut items: Vec<MenuItem> = Vec::new();
        let mut k: usize = 0;
        while k < p.len()
            invariant
                k <= p@.len(),
                p@.len() == tv.len(),
                tv == pair_views(themes@),
                forall|q: int| 0 <= q < p@.len() ==> #[trigger] p@[q] < tv.len(),
                want == p@.map_values(
                    |k: usize|
                        MenuItemView {
                            label: theme_label(tv[k as int].0, tv[k as int].1, self.theme@),
                            action: MenuActionView::SetTheme(tv[k as int].0),
                        },
                ),
                item_views(items@) == want.take(k as int),
            decreases p.len() - k,
        {
            let (id, display) = (&themes[p[k]].0, &themes[p[k]].1);
            let current = crate::text::str_eq(id.as_str(), self.theme.as_str());
            let label = if current {
                concat_str(display.as_str(), " ✓")
            } else {
                display.clone()
            };
            let ghost before = item_views(items@);
            items.push(MenuItem::new(label, MenuAction::SetTheme(id.clone())));
            proof {
                let x = p@[k as int];
                assert(tv[x as int] == (themes@[x as int].0@, themes@[x as int].1@));
                assert(want[k as int] == MenuItemView {
                    label: theme_label(tv[x as int].0, tv[x as int].1, self.theme@),
                    action: MenuActionView::SetTheme(tv[x as int].0),
                });
                assert(item_views(items@) =~= before.push(want[k as int]));
                assert(want.take(k + 1) =~= want.take(k as int).push(want[k as int]));
            }
            k = k + 1;
        }
        assert(want.take(p@.len() as int) =~= want);
        proof {
            assert(sorted_permutation(p@, tv.len(), display_order(tv)));
        }
        let d = DialogState::context_menu("Select Theme", items);
        self.open_dialog(d);
    }
}

/// The theme menu for `themes` is open, with every other part of the state as before.
pub open spec fn theme_menu_shown(s: AppState, t: AppState, themes: Seq<(Seq<char>, Seq<char>)>) -> bool {
    &&& t == with_dialog(s, t.dialog->0)
    &&& t.dialog matches Some(DialogState::ContextMenu { title, items, selected }) && title@
        == "Select Theme"@ && selected == 0 && theme_items_ok(themes, s.theme@, item_views(items@))
}


// --- Confirming dialogs ---

/// The effects of running `op` with `input` as operation `id`.
pub open spec fn op_effects(op: DeferredOp, id: u64, input: Seq<char>, es: Seq<Effect>) -> bool {
    &&& es.len() <= 1
    &&& op_effect(op, id, input, if es.len() == 0 { None } else { Some(es[0]) })
}

/// The prompt of the change-owner dialog.
pub open spec fn chown_prompt(n: nat, owner: Seq<char>) -> Seq<char> {
    "New owner for "@ + decimal(n) + " item(s)\n(current: "@ + owner
        + ")\nFormat: user  or  user:group"@
}

/// What choosing a context-menu action does.
pub open spec fn menu_action_done(s: AppState, a: MenuAction, t: AppState, es: Seq<Effect>) -> bool {
    match a {
        MenuAction::OpenWithOs(path) => t == s && es == seq![Effect::OpenWithOs { path }],
        MenuAction::RunCodeHere(dir) => t == s && es == seq![Effect::RunCodeHere { dir }],
        MenuAction::RequestExecute(path) => {
            &&& es.len() == 0
            &&& t == with_dialog(s, t.dialog->0)
            &&& t.dialog matches Some(DialogState::Input { title, prompt, value, op }) && title@
                == "Execute"@ && prompt@ == "Arguments for "@ + name_or_empty(path@) + ":"@
                && value@.len() == 0 && op == (DeferredOp::Execute { path })
        },
        MenuAction::ExtractHere { archives, dest } => {
            &&& t == AppState { next_op_id: (s.next_op_id + 1) as u64, ..s }
            &&& es == seq![
                Effect::ExtractArchives { archives, dest, active: s.active, op_id: s.next_op_id },
            ]
        },
        MenuAction::MountDevice { device } => t == s && es == seq![Effect::MountDevice { device }],
        MenuAction::UnmountDevice { device } => t == s && es == seq![
            Effect::UnmountDevice { device },
        ],
        MenuAction::CdTo(path) => t == s && es == seq![Effect::LoadDir { path, side: s.active }],
        MenuAction::SetTheme(id) => if names_theme(id@) {
            t == (AppState { theme: id, ..s }) && es == seq![Effect::ApplyTheme { id }]
        } else {
            t == s && es.len() == 0
        },
        MenuAction::Chown { paths, current_owner, reload_sides } => {
            &&& es.len() == 0
            &&& t == with_dialog(s, t.dialog->0)
            &&& t.dialog matches Some(DialogState::Input { title, prompt, value, op }) && title@
                == "Change Owner"@ && prompt@ == chown_prompt(paths@.len(), current_owner@)
                && value@ == current_owner@ && op == (DeferredOp::Chown { paths, reload_sides })
        },
        MenuAction::GitPush { .. } => t == s && es.len() == 0,
    }
}

/// What Enter does in each dialog; the dialog closes first.
pub open spec fn dialog_confirmed(s: AppState, t: AppState, es: Seq<Effect>) -> bool {
    match s.dialog {
        None => t == s && es.len() == 0,
        Some(DialogState::Confirm { op, .. }) => {
            &&& t == AppState {
                dialog: None,
                mode: Mode::Normal,
                last_error: None,
                next_op_id: (s.next_op_id + 1) as u64,
                ..s
            }
            &&& op_effects(op, s.next_op_id, Seq::empty(), es)
        },
        Some(DialogState::Input { value, op, .. }) => {
            &&& t == AppState {
                dialog: None,
                mode: if op is GitCreateBranch {
                    Mode::Git
                } else {
                    Mode::Normal
                },
                last_error: None,
                next_op_id: (s.next_op_id + 1) as u64,
                ..s
            }
            &&& op_effects(op, s.next_op_id, value@, es)
        },
        Some(DialogState::ContextMenu { items, selected, .. }) => {
            let closed = AppState { dialog: None, mode: Mode::Normal, ..s };
            if selected < items@.len() {
                menu_action_done(closed, items@[selected as int].action, t, es)
            } else {
                t == closed && es.len() == 0
            }
        },
        Some(DialogState::QuickCd { input, matches, selected, base_path }) => {
            let dest = destination(
                input@,
                string_views(matches@),
                selected as nat,
                base_path@,
                s.home@,
            );
            &&& t == AppState {
                dialog: None,
                mode: Mode::Normal,
                recent_dirs: t.recent_dirs,
                ..s
            }
            &&& string_views(t.recent_dirs@) == pushed(string_views(s.recent_dirs@), dest)
            &&& es.len() == 2
            &&& es[0] matches Effect::SaveRecentDirs { dirs } && dirs@ == t.recent_dirs@
            &&& es[1] matches Effect::LoadDir { path, side } && path@ == dest && side == s.active
        },
        Some(DialogState::ErrorList { .. }) => t == AppState {
            dialog: None,
            mode: Mode::Normal,
            ..s
        } && es.len() == 0,
    }
}

/// After the quick-cd text changed: the selection goes back to the top and
/// the directory the text points into is listed again.
pub open spec fn quick_cd_refreshed(s: AppState, t: AppState, es: Seq<Effect>) -> bool {
    match s.dialog {
        Some(DialogState::QuickCd { input, matches, selected, base_path }) => {
            let (parent, filter) = parse_input(input@, base_path@, s.home@);
            &&& t == AppState {
                dialog: Some(DialogState::QuickCd { input, matches, selected: 0, base_path }),
                ..s
            }
            &&& es.len() == 1
            &&& es[0] matches Effect::ListQuickCdDirs { parent: p, filter: f } && p@ == parent
                && f@ == filter
        },
        _ => t == s && es.len() == 0,
    }
}

/// The quick-cd dialog after its text became `text`: the selection is back
/// at the top and the directory the text points into is listed again.
pub open spec fn quick_cd_after_edit(s: AppState, t: AppState, es: Seq<Effect>, text: Seq<char>) -> bool {
    match s.dialog {
        Some(DialogState::QuickCd { input, matches, selected, base_path }) => {
            let (parent, filter) = parse_input(text, base_path@, s.home@);
            &&& t == AppState {
                dialog: Some(
                    DialogState::QuickCd {
                        input: t.dialog->0->QuickCd_input,
                        matches,
                        selected: 0,
                        base_path,
                    },
                ),
                ..s
            }
            &&& t.dialog->0->QuickCd_input@ == text
            &&& es.len() == 1
            &&& es[0] matches Effect::ListQuickCdDirs { parent: p, filter: f } && p@ == parent
                && f@ == filter
        },
        _ => false,
    }
}

/// The quick-cd text after typing `c`: a `~` on an empty text becomes the
/// home directory and a `/`.
pub open spec fn quick_cd_typed(input: Seq<char>, c: char, home: Seq<char>) -> Seq<char> {
    if input.len() == 0 && c == '~' {
        home + "/"@
    } else {
        input.push(c)
    }
}

impl AppState {
    fn next_id(&mut self) -> (r: u64)
        requires
            old(self).inv(),
            old(self).next_op_id < u64::MAX,
        ensures
            final(self).inv(),
            r == old(self).next_op_id,
            *final(self) == (AppState { next_op_id: (old(self).next_op_id + 1) as u64, ..*old(self) }),
    {
        let id = self.next_op_id;
        self.next_op_id = self.next_op_id + 1;
        id
    }

    /// Runs a confirmed operation under a fresh id.
    fn execute_op(&mut self, op: DeferredOp, input: String) -> (r: Vec<Effect>)
        requires
            old(self).inv(),
            old(self).next_op_id < u64::MAX,
        ensures
            final(self).inv(),
            *final(self) == (AppState { next_op_id: (old(self).next_op_id + 1) as u64, ..*old(self) }),
            op_effects(op, old(self).next_op_id, input@, r@),
    {
        let id = self.next_id();
        let mut v: Vec<Effect> = Vec::new();
        match op.execute(id, input) {
            Some(e) => v.push(e),
            None => {},
        }
        v
    }

    /// Carries out a context-menu action.
    pub fn execute_menu_action(&mut self, action: MenuAction) -> (r: Vec<Effect>)
        requires
            old(self).inv(),
            old(self).next_op_id < u64::MAX,
        ensures
            final(self).inv(),
            menu_action_done(*old(self), action, *final(self), r@),
    {
        let mut v: Vec<Effect> = Vec::new();
        match action {
            MenuAction::OpenWithOs(path) => v.push(Effect::OpenWithOs { path }),
            MenuAction::RunCodeHere(dir) => v.push(Effect::RunCodeHere { dir }),
            MenuAction::RequestExecute(path) => {
                let prompt = concat_str(
                    concat_str("Arguments for ", name_or_empty_of(path.as_str()).as_str()).as_str(),
                    ":",
                );
                proof {
                    reveal_strlit("");
                }
                let d = DialogState::input("Execute", prompt.as_str(), "", DeferredOp::Execute { path });
                self.open_dialog(d);
            },
            MenuAction::ExtractHere { archives, dest } => {
                let id = self.next_id();
                v.push(Effect::ExtractArchives { archives, dest, active: self.active, op_id: id });
            },
            MenuAction::MountDevice { device } => v.push(Effect::MountDevice { device }),
            MenuAction::UnmountDevice { device } => v.push(Effect::UnmountDevice { device }),
            MenuAction::CdTo(path) => v.push(Effect::LoadDir { path, side: self.active }),
            MenuAction::SetTheme(id) => {
                if is_theme_id(id.as_str()) {
                    self.theme = id.clone();
                    v.push(Effect::ApplyTheme { id });
                }
            },
            MenuAction::Chown { paths, current_owner, reload_sides } => {
                let n = decimal_string(paths.len() as u64);
                let prompt = concat_str(
                    concat_str(
                        concat_str(
                            concat_str("New owner for ", n.as_str()).as_str(),
                            " item(s)\n(current: ",
                        ).as_str(),
                        current_owner.as_str(),
                    ).as_str(),
                    ")\nFormat: user  or  user:group",
                );
                let d = DialogState::input(
                    "Change Owner",
                    prompt.as_str(),
                    current_owner.as_str(),
                    DeferredOp::Chown { paths, reload_sides },
                );
                self.open_dialog(d);
            },
            MenuAction::GitPush { .. } => {},
        }
        v
    }

    /// Enter in a dialog.
    pub fn dialog_confirm(&mut self) -> (r: Vec<Effect>)
        requires
            old(self).inv(),
            old(self).next_op_id < u64::MAX,
        ensures
            final(self).inv(),
            dialog_confirmed(*old(self), *final(self), r@),
    {
        let d = self.dialog.take();
        match d {
            None => Vec::new(),
            Some(DialogState::Confirm { op, .. }) => {
                self.mode = Mode::Normal;
                self.last_error = None;
                self.execute_op(op, String::new())
            },
            Some(DialogState::Input { value, op, .. }) => {
                self.last_error = None;
                self.mode = if op.stays_in_git_mode() {
                    Mode::Git
                } else {
                    Mode::Normal
                };
                self.execute_op(op, value)
            },
            Some(DialogState::ContextMenu { items, selected, .. }) => {
                self.mode = Mode::Normal;
                let mut items = items;
                if selected < items.len() {
                    let item = items.remove(selected);
                    self.execute_menu_action(item.action)
                } else {
                    Vec::new()
                }
            },
            Some(DialogState::QuickCd { input, matches, selected, base_path }) => {
                self.mode = Mode::Normal;
                let dest = quick_cd_destination(
                    input.as_str(),
                    &matches,
                    selected,
                    base_path.as_str(),
                    self.home.as_str(),
                );
                let mut dirs = clone_strings(&self.recent_dirs);
                crate::recent_dirs::push(&mut dirs, dest.clone());
                self.recent_dirs = dirs;
                let mut v: Vec<Effect> = Vec::new();
                v.push(Effect::SaveRecentDirs { dirs: clone_strings(&self.recent_dirs) });
                v.push(Effect::LoadDir { path: dest, side: self.active });
                v
            },
            Some(DialogState::ErrorList { .. }) => {
                self.mode = Mode::Normal;
                Vec::new()
            },
        }
    }

    /// Esc in a dialog: closes it.
    pub fn dialog_cancel(&mut self)
        requires
            old(self).inv(),
        ensures
            final(self).inv(),
            did_dialog_cancel(*old(self), *final(self)),
    {
        self.dialog = None;
        self.mode = Mode::Normal;
    }

    // --- Quick cd ---

    /// F1: the quick-cd dialog on the active panel's directory, listing all
    /// of its sub-directories.
    pub fn open_quick_cd_dialog(&mut self) -> (r: Vec<Effect>)
        requires
            old(self).inv(),
        ensures
            final(self).inv(),
            did_open_quick_cd_dialog(*old(self), *final(self), r@),
    {
        let base = self.active_panel().path.clone();
        let mut v: Vec<Effect> = Vec::new();
        v.push(Effect::ListQuickCdDirs { parent: base.clone(), filter: String::new() });
        let d = DialogState::QuickCd {
            input: String::new(),
            matches: Vec::new(),
            selected: 0,
            base_path: base,
        };
        self.open_dialog(d);
        v
    }

    fn refresh_quick_cd(&mut self) -> (r: Vec<Effect>)
        requires
            old(self).inv(),
        ensures
            final(self).inv(),
            quick_cd_refreshed(*old(self), *final(self), r@),
    {
        let d = self.dialog.take();
        let mut v: Vec<Effect> = Vec::new();
        match d {
            Some(DialogState::QuickCd { input, matches, selected, base_path }) => {
                let (parent, filter) = quick_cd_parse_input(
                    input.as_str(),
                    base_path.as_str(),
                    self.home.as_str(),
                );
                v.push(Effect::ListQuickCdDirs { parent, filter });
                self.dialog = Some(DialogState::QuickCd { input, matches, selected: 0, base_path });
            },
            other => {
                self.dialog = other;
            },
        }
        v
    }

    /// Typing in the quick-cd dialog.
    pub fn quick_cd_char(&mut self, c: char) -> (r: Vec<Effect>)
        requires
            old(self).inv(),
        ensures
            final(self).inv(),
            did_quick_cd_char(*old(self), *final(self), c, r@),
    {
        let d = self.dialog.take();
        match d {
            Some(DialogState::QuickCd { input, matches, selected, base_path }) => {
                let mut input = input;
                if input.as_str().is_empty() && c == '~' {
                    input = concat_str(self.home.as_str(), "/");
                } else {
                    push_char(&mut input, c);
                }
                self.dialog = Some(DialogState::QuickCd { input, matches, selected, base_path });
                let r = self.refresh_quick_cd();
                r
            },
            other => {
                self.dialog = other;
                Vec::new()
            },
        }
    }
}


/// The text without its last character (an empty text stays empty).
pub open spec fn backspaced(text: Seq<char>) -> Seq<char> {
    if text.len() > 0 {
        text.drop_last()
    } else {
        text
    }
}

/// The effect-free part of a commit message: the editor's lines joined by newlines.
pub open spec fn commit_message(lines: Seq<Seq<char>>) -> Seq<char> {
    join_with(lines, '\n')
}

impl AppState {
    /// Backspace in the quick-cd dialog.
    pub fn quick_cd_backspace(&mut self) -> (r: Vec<Effect>)
        requires
            old(self).inv(),
        ensures
            final(self).inv(),
            did_quick_cd_backspace(*old(self), *final(self), r@),
    {
        let ghost s0 = *self;
        let d = self.dialog.take();
        match d {
            Some(DialogState::QuickCd { input, matches, selected, base_path }) => {
                let ghost text = input@;
                let mut input = input;
                pop_char(&mut input);
                self.dialog = Some(DialogState::QuickCd { input, matches, selected, base_path });
                let ghost u = *self;
                let r = self.refresh_quick_cd();
                assert(quick_cd_refreshed(u, *self, r@));
                r
            },
            other => {
                self.dialog = other;
                Vec::new()
            },
        }
    }

    /// Tab in the quick-cd dialog: completes the selected match and lists
    /// inside it.
    pub fn quick_cd_complete(&mut self) -> (r: Vec<Effect>)
        requires
            old(self).inv(),
        ensures
            final(self).inv(),
            did_quick_cd_complete(*old(self), *final(self), r@),
    {
        let ghost s0 = *self;
        let d = self.dialog.take();
        match d {
            Some(DialogState::QuickCd { input, matches, selected, base_path }) => {
                match quick_cd_complete(input.as_str(), &matches, selected) {
                    Some(new_input) => {
                        let ghost text = new_input@;
                        self.dialog = Some(
                            DialogState::QuickCd { input: new_input, matches, selected, base_path },
                        );
                        let ghost u = *self;
                        let r = self.refresh_quick_cd();
                        assert(quick_cd_refreshed(u, *self, r@));
                        r
                    },
                    None => {
                        self.dialog = Some(DialogState::QuickCd { input, matches, selected, base_path });
                        Vec::new()
                    },
                }
            },
            other => {
                self.dialog = other;
                Vec::new()
            },
        }
    }

    /// Takes in the sub-directories the host listed for the quick-cd
    /// dialog: those passing `filter`, sorted case-insensitively, become the
    /// matches, and the selection goes back to the top.
    pub fn set_quick_cd_matches(&mut self, listed: Vec<String>, filter: &str)
        requires
            old(self).inv(),
        ensures
            final(self).inv(),
            match old(self).dialog {
                Some(DialogState::QuickCd { input, matches, selected, base_path }) => {
                    &&& *final(self) == (AppState {
                        dialog: Some(
                            DialogState::QuickCd {
                                input,
                                matches: final(self).dialog->0->QuickCd_matches,
                                selected: 0,
                                base_path,
                            },
                        ),
                        ..*old(self)
                    })
                    &&& sorted_by_lowercase(
                        string_views(listed@).filter(dir_matches(filter@)),
                        string_views(final(self).dialog->0->QuickCd_matches@),
                    )
                },
                _ => *final(self) == *old(self),
            },
    {
        let d = self.dialog.take();
        match d {
            Some(DialogState::QuickCd { input, matches, selected, base_path }) => {
                let m = filter_sort_dir_names(&listed, filter);
                self.dialog = Some(DialogState::QuickCd { input, matches: m, selected: 0, base_path });
            },
            other => {
                self.dialog = other;
            },
        }
    }

    // --- Context menu ---

    /// F2: asks the host to look at the cursor entry, unless there is none
    /// or it is `..`.
    pub fn request_context_menu(&self) -> (r: Vec<Effect>)
        requires
            self.inv(),
        ensures
            did_request_context_menu(*self, r@),
    {
        let p = self.active_panel();
        let mut v: Vec<Effect> = Vec::new();
        match p.current_entry() {
            Some(e) => {
                if !is_dotdot(e.name.as_str()) {
                    v.push(
                        Effect::PrepareContextMenu {
                            entry_path: join_path(p.path.as_str(), e.name.as_str()),
                        },
                    );
                }
            },
            None => {},
        }
        v
    }

    /// Opens the context menu for the cursor entry: what every provider
    /// offers, given whether the entry is executable and the removable
    /// devices the host found.
    pub fn open_context_menu(&mut self, entry_is_executable: bool, devices: Vec<RemovableDev>)
        requires
            old(self).inv(),
        ensures
            final(self).inv(),
            ({
                let p = panel_at(*old(self), old(self).active);
                match p.cursor_entry_spec() {
                    Some(e) => if e.name@ == dotdot() {
                        *final(self) == *old(self)
                    } else {
                        let ctx = MenuCtxView {
                            entry: e,
                            entry_path: joined(p.path@, e.name@),
                            panel_dir: p.path@,
                            other_dir: panel_at(*old(self), old(self).active.opposite()).path@,
                            active_side: old(self).active,
                            effective_targets: targets_of(p),
                            entry_is_executable,
                        };
                        &&& *final(self) == with_dialog(*old(self), final(self).dialog->0)
                        &&& final(self).dialog matches Some(DialogState::ContextMenu { title, items, selected })
                            && title@ == "Actions: "@ + e.name@ && selected == 0
                            && item_views(items@) == menu_items_of(ctx, dev_views(devices@))
                    },
                    None => *final(self) == *old(self),
                }
            }),
    {
        let ctx = {
            let p = self.active_panel();
            let entry = match p.current_entry() {
                Some(e) => clone_entry(e),
                None => {
                    return;
                },
            };
            if is_dotdot(entry.name.as_str()) {
                return;
            }
            MenuCtx {
                entry_path: join_path(p.path.as_str(), entry.name.as_str()),
                panel_dir: p.path.clone(),
                other_dir: self.get_panel(self.active.other()).path.clone(),
                effective_targets: p.effective_targets(),
                active_side: self.active,
                entry,
                entry_is_executable,
            }
        };
        let title = concat_str("Actions: ", ctx.entry.name.as_str());
        let provider = DeviceProvider { devices };
        let items = builtin_menu_items(&ctx, &provider);
        let d = DialogState::context_menu(title.as_str(), items);
        self.open_dialog(d);
    }

    // --- Git mode ---

    /// Ctrl+G: asks the host for the repository of the active panel's directory.
    pub fn request_git_mode(&self) -> (r: Vec<Effect>)
        ensures
            did_request_git_mode(*self, r@),
    {
        let mut v: Vec<Effect> = Vec::new();
        v.push(Effect::FindGitRoot { path: self.active_panel().path.clone() });
        assert(v@ =~= seq![Effect::FindGitRoot { path: panel_at(*self, self.active).path }]);
        v
    }

    /// Enters git mode on the repository the host found (nothing happens
    /// outside a repository): the view starts on the panel's branch, the
    /// status is read and the repository watched.
    pub fn on_git_root_found(&mut self, git_root: Option<String>) -> (r: Vec<Effect>)
        requires
            old(self).inv(),
        ensures
            final(self).inv(),
            match git_root {
                None => *final(self) == *old(self) && r@.len() == 0,
                Some(root) => {
                    &&& final(self).git_view matches Some(gv) && gv.git_root == root
                        && gv.branch@ == (match panel_at(*old(self), old(self).active).git_branch {
                        Some(b) => b@,
                        None => Seq::empty(),
                    }) && gv.entries@.len() == 0 && gv.left_cursor == 0 && gv.right_cursor == 0
                        && gv.left_marked@.is_empty() && gv.right_marked@.is_empty()
                    &&& *final(self) == (AppState {
                        git_view: final(self).git_view,
                        mode: Mode::Git,
                        last_error: None,
                        git_watching: true,
                        ..*old(self)
                    })
                    &&& r@ == seq![
                        Effect::LoadGitStatus { git_root: root },
                        Effect::StartGitWatcher { git_root: root },
                    ]
                },
            },
    {
        match git_root {
            None => Vec::new(),
            Some(root) => {
                let branch = match &self.active_panel().git_branch {
                    Some(b) => b.clone(),
                    None => String::new(),
                };
                let gv = GitView::new(root.clone(), branch);
                let mut v: Vec<Effect> = Vec::new();
                v.push(Effect::LoadGitStatus { git_root: root.clone() });
                v.push(Effect::StartGitWatcher { git_root: root });
                self.git_view = Some(gv);
                self.mode = Mode::Git;
                self.last_error = None;
                self.git_watching = true;
                proof {
                    reveal_strlit("");
                }
                v
            },
        }
    }

    /// Leaves git mode: stops watching, drops the view and reloads both panels.
    pub fn exit_git_mode(&mut self) -> (r: Vec<Effect>)
        requires
            old(self).inv(),
        ensures
            final(self).inv(),
            did_exit_git_mode(*old(self), *final(self), r@),
    {
        let mut v: Vec<Effect> = Vec::new();
        if self.git_watching {
            v.push(Effect::StopGitWatcher);
        }
        self.git_watching = false;
        self.mode = Mode::Normal;
        self.git_view = None;
        v.push(self.left.reload());
        v.push(self.right.reload());
        v
    }

    /// Stages the marked (or cursor) working-tree paths.
    pub fn git_stage(&self) -> (r: Vec<Effect>)
        ensures
            did_git_stage(*self, r@),
    {
        let mut v: Vec<Effect> = Vec::new();
        match &self.git_view {
            None => {},
            Some(gv) => {
                let targets = gv.stage_targets();
                if targets.len() > 0 {
                    v.push(Effect::GitStage { git_root: gv.git_root.clone(), paths: targets });
                }
            },
        }
        v
    }

    /// Unstages the marked (or cursor) staged paths.
    pub fn git_unstage(&self) -> (r: Vec<Effect>)
        ensures
            did_git_unstage(*self, r@),
    {
        let mut v: Vec<Effect> = Vec::new();
        match &self.git_view {
            None => {},
            Some(gv) => {
                let targets = gv.unstage_targets();
                if targets.len() > 0 {
                    v.push(Effect::GitUnstage { git_root: gv.git_root.clone(), paths: targets });
                }
            },
        }
        v
    }

    /// Shows the commit-message editor.
    pub fn open_commit_editor(&mut self) -> (r: Vec<Effect>)
        requires
            old(self).inv(),
        ensures
            final(self).inv(),
            did_open_commit_editor(*old(self), *final(self), r@),
    {
        self.commit_editor_open = true;
        self.mode = Mode::GitCommit;
        let mut v: Vec<Effect> = Vec::new();
        v.push(Effect::OpenCommitEditor);
        assert(v@ =~= seq![Effect::OpenCommitEditor]);
        v
    }

    /// F3 in git mode: the commit editor, or an error line when nothing is staged.
    pub fn git_commit(&mut self) -> (r: Vec<Effect>)
        requires
            old(self).inv(),
        ensures
            final(self).inv(),
            did_git_commit(*old(self), *final(self), r@),
    {
        let staged = match &self.git_view {
            None => {
                return Vec::new();
            },
            Some(gv) => gv.has_staged(),
        };
        if !staged {
            self.last_error = Some("Nothing staged to commit".to_owned());
            return Vec::new();
        }
        self.open_commit_editor()
    }

    /// Commits with the editor's lines as the message; an empty (blank)
    /// message is refused with an error line.  Either way the editor closes.
    pub fn submit_git_commit(&mut self, lines: Vec<String>) -> (r: Vec<Effect>)
        requires
            old(self).inv(),
        ensures
            final(self).inv(),
            if !old(self).commit_editor_open {
                *final(self) == *old(self) && r@.len() == 0
            } else {
                let msg = commit_message(string_views(lines@));
                let closed = AppState { commit_editor_open: false, mode: Mode::Git, ..*old(self) };
                if trimmed(msg).len() == 0 {
                    &&& *final(self) == (AppState { last_error: final(self).last_error, ..closed })
                    &&& final(self).last_error matches Some(m) && m@ == "Commit message is empty"@
                    &&& r@ == seq![Effect::CloseCommitEditor]
                } else {
                    &&& *final(self) == closed
                    &&& match old(self).git_view {
                        None => r@ == seq![Effect::CloseCommitEditor],
                        Some(gv) => r@.len() == 2 && r@[0] == Effect::CloseCommitEditor
                            && (r@[1] matches Effect::GitCommit { git_root, message }
                            && git_root == gv.git_root && message@ == msg),
                    }
                }
            },
    {
        if !self.commit_editor_open {
            return Vec::new();
        }
        self.commit_editor_open = false;
        self.mode = Mode::Git;
        let mut v: Vec<Effect> = Vec::new();
        v.push(Effect::CloseCommitEditor);
        let msg = join_lines(&lines);
        if trim(msg.as_str()).as_str().is_empty() {
            self.last_error = Some("Commit message is empty".to_owned());
            assert(v@ =~= seq![Effect::CloseCommitEditor]);
            return v;
        }
        match &self.git_view {
            None => {},
            Some(gv) => {
                v.push(Effect::GitCommit { git_root: gv.git_root.clone(), message: msg });
            },
        }
        proof {
            if old(self).git_view is None {
                assert(v@ =~= seq![Effect::CloseCommitEditor]);
            }
        }
        v
    }

    /// Esc in the commit editor.
    pub fn cancel_git_commit(&mut self) -> (r: Vec<Effect>)
        requires
            old(self).inv(),
        ensures
            final(self).inv(),
            did_cancel_git_commit(*old(self), *final(self), r@),
    {
        self.commit_editor_open = false;
        self.mode = Mode::Git;
        let mut v: Vec<Effect> = Vec::new();
        v.push(Effect::CloseCommitEditor);
        assert(v@ =~= seq![Effect::CloseCommitEditor]);
        v
    }
}

/// The lines joined with newlines.
fn join_lines(lines: &Vec<String>) -> (r: String)
    ensures
        r@ == join_with(string_views(lines@), '\n'),
{
    let mut parts: Vec<Vec<char>> = Vec::new();
    let mut i: usize = 0;
    while i < lines.len()
        invariant
            i <= lines@.len(),
            parts@.map_values(|v: Vec<char>| v@) == string_views(lines@).take(i as int),
        decreases lines.len() - i,
    {
        let ghost before = parts@.map_values(|v: Vec<char>| v@);
        parts.push(crate::text::chars_of(lines[i].as_str()));
        assert(parts@.map_values(|v: Vec<char>| v@) =~= before.push(lines@[i as int]@));
        assert(string_views(lines@).take(i + 1) =~= string_views(lines@).take(i as int).push(
            lines@[i as int]@,
        ));
        i = i + 1;
    }
    assert(string_views(lines@).take(lines@.len() as int) =~= string_views(lines@));
    let joined = crate::text::join_chars(&parts, '\n');
    crate::text::string_from_chars(&joined)
}


/// Where the progress of operation `id` stands in `ops`, if it is there.
pub open spec fn op_index(ops: Seq<OpProgress>, id: u64) -> int
    decreases ops.len(),
{
    if ops.len() == 0 {
        -1
    } else if ops[0].id == id {
        0
    } else {
        let k = op_index(ops.drop_first(), id);
        if k < 0 {
            -1
        } else {
            k + 1
        }
    }
}

proof fn lemma_op_index(ops: Seq<OpProgress>, id: u64)
    ensures
        -1 <= op_index(ops, id) < ops.len(),
        op_index(ops, id) >= 0 ==> ops[op_index(ops, id)].id == id,
        op_index(ops, id) >= 0 ==> forall|j: int| 0 <= j < op_index(ops, id) ==> ops[j].id != id,
        op_index(ops, id) < 0 ==> forall|j: int| 0 <= j < ops.len() ==> ops[j].id != id,
    decreases ops.len(),
{
    if ops.len() > 0 && ops[0].id != id {
        lemma_op_index(ops.drop_first(), id);
        assert forall|j: int| 1 <= j < ops.len() implies ops[j] == ops.drop_first()[j - 1] by {}
    }
}

/// The operations without `id`, in order.
pub open spec fn ops_without(ops: Seq<OpProgress>, id: u64) -> Seq<OpProgress> {
    ops.filter(|o: OpProgress| o.id != id)
}

/// The position of the current branch among `branches`, or 0.
pub open spec fn current_branch_index(branches: Seq<BranchInfo>) -> nat
    decreases branches.len(),
{
    if branches.len() == 0 {
        0
    } else if branches[0].is_current {
        0
    } else if exists|j: int| 0 <= j < branches.len() && #[trigger] branches[j].is_current {
        current_branch_index(branches.drop_first()) + 1
    } else {
        0
    }
}

/// The first position at which `pred` holds, scanning from the front.
pub open spec fn first_current(branches: Seq<BranchInfo>, k: int) -> bool {
    &&& 0 <= k < branches.len()
    &&& branches[k].is_current
    &&& forall|j: int| 0 <= j < k ==> !(#[trigger] branches[j]).is_current
}

impl AppState {
    /// Allocates an operation id and asks for a push (or pull) of the
    /// current branch, showing its progress from the start.
    pub fn git_transfer(&mut self, is_pull: bool) -> (r: Vec<Effect>)
        requires
            old(self).inv(),
            old(self).next_op_id < u64::MAX,
        ensures
            final(self).inv(),
            did_git_transfer(*old(self), *final(self), is_pull, r@),
    {
        let root = match &self.git_view {
            None => {
                return Vec::new();
            },
            Some(gv) => gv.git_root.clone(),
        };
        let id = self.next_id();
        let mut v: Vec<Effect> = Vec::new();
        let label = if is_pull {
            "Pulling…".to_owned()
        } else {
            "Pushing…".to_owned()
        };
        v.push(Effect::Send(Action::Progress { id, label, done: 0, total: 0 }));
        if is_pull {
            v.push(Effect::GitPull { git_root: root, op_id: id });
        } else {
            v.push(Effect::GitPush { git_root: root, op_id: id });
        }
        v
    }

    /// Asks for the branches of the repository.
    pub fn git_list_branches(&self) -> (r: Vec<Effect>)
        ensures
            did_git_list_branches(*self, r@),
    {
        let mut v: Vec<Effect> = Vec::new();
        match &self.git_view {
            None => {},
            Some(gv) => {
                v.push(Effect::LoadGitBranches { git_root: gv.git_root.clone() });
                assert(v@ =~= seq![Effect::LoadGitBranches { git_root: gv.git_root }]);
            },
        }
        v
    }

    /// Asks for the status of the repository again.
    pub fn git_reload(&self) -> (r: Vec<Effect>)
        ensures
            did_git_reload(*self, r@),
    {
        let mut v: Vec<Effect> = Vec::new();
        match &self.git_view {
            None => {},
            Some(gv) => {
                v.push(Effect::LoadGitStatus { git_root: gv.git_root.clone() });
                assert(v@ =~= seq![Effect::LoadGitStatus { git_root: gv.git_root }]);
            },
        }
        v
    }

    /// Stages everything (`git add -A`), then the commit editor opens.
    pub fn git_add_all(&self) -> (r: Vec<Effect>)
        ensures
            did_git_add_all(*self, r@),
    {
        let mut v: Vec<Effect> = Vec::new();
        match &self.git_view {
            None => {},
            Some(gv) => {
                v.push(Effect::GitAddAll { git_root: gv.git_root.clone() });
                assert(v@ =~= seq![Effect::GitAddAll { git_root: gv.git_root }]);
            },
        }
        v
    }

    /// Asks for the name of a new branch (closing the branch picker).
    pub fn open_new_branch_dialog(&mut self)
        requires
            old(self).inv(),
        ensures
            final(self).inv(),
            did_open_new_branch_dialog(*old(self), *final(self)),
    {
        let root = match &self.git_view {
            None => {
                return;
            },
            Some(gv) => gv.git_root.clone(),
        };
        self.branch_list.clear();
        proof {
            reveal_strlit("");
        }
        let d = DialogState::input("New Branch", "Branch name:", "", DeferredOp::GitCreateBranch { git_root: root });
        self.open_dialog(d);
    }

    /// Takes in the branches: the picker opens on the current branch.
    pub fn on_branches_loaded(&mut self, branches: Vec<BranchInfo>)
        requires
            old(self).inv(),
        ensures
            final(self).inv(),
            did_on_branches_loaded(*old(self), *final(self), branches),
    {
        let mut k: usize = 0;
        while k < branches.len() && !branches[k].is_current
            invariant
                k <= branches@.len(),
                forall|j: int| 0 <= j < k ==> !(#[trigger] branches@[j]).is_current,
            decreases branches.len() - k,
        {
            k = k + 1;
        }
        let found = k < branches.len();
        self.branch_cursor = if found {
            k
        } else {
            0
        };
        self.branch_list = branches;
        self.mode = Mode::GitBranch;
    }

    pub fn branch_nav_up(&mut self)
        requires
            old(self).inv(),
        ensures
            final(self).inv(),
            did_branch_nav_up(*old(self), *final(self)),
    {
        self.branch_cursor = if self.branch_cursor > 0 {
            self.branch_cursor - 1
        } else {
            0
        };
    }

    /// Moves the picker down, not past the last branch.
    pub fn branch_nav_down(&mut self)
        requires
            old(self).inv(),
        ensures
            final(self).inv(),
            did_branch_nav_down(*old(self), *final(self)),
    {
        if self.branch_cursor == usize::MAX {
            return;
        }
        let max = if self.branch_list.len() > 0 {
            self.branch_list.len() - 1
        } else {
            0
        };
        let c = self.branch_cursor + 1;
        self.branch_cursor = if c <= max {
            c
        } else {
            max
        };
    }

    /// Enter in the picker: checks out the selected branch and closes the picker.
    pub fn git_checkout_selected(&mut self) -> (r: Vec<Effect>)
        requires
            old(self).inv(),
        ensures
            final(self).inv(),
            did_git_checkout_selected(*old(self), *final(self), r@),
    {
        if self.branch_cursor >= self.branch_list.len() {
            return Vec::new();
        }
        let root = match &self.git_view {
            None => {
                return Vec::new();
            },
            Some(gv) => gv.git_root.clone(),
        };
        let info = self.branch_list.remove(self.branch_cursor);
        self.mode = Mode::Git;
        self.branch_list.clear();
        let mut v: Vec<Effect> = Vec::new();
        v.push(Effect::GitCheckout { git_root: root, branch: info });
        v
    }

    /// Records the progress of operation `id`: updates it where it is
    /// listed, else lists it last.
    pub fn on_progress(&mut self, id: u64, label: String, done: u64, total: u64)
        requires
            old(self).inv(),
        ensures
            final(self).inv(),
            did_on_progress(*old(self), *final(self), id, label, done, total),
    {
        proof {
            lemma_op_index(self.ops@, id);
        }
        let mut k: usize = 0;
        while k < self.ops.len() && self.ops[k].id != id
            invariant
                k <= self.ops@.len(),
                forall|j: int| 0 <= j < k ==> (#[trigger] self.ops@[j]).id != id,
            decreases self.ops.len() - k,
        {
            k = k + 1;
        }
        let ghost k0 = op_index(self.ops@, id);
        if k < self.ops.len() {
            assert(k == k0) by {
                if k0 < k as int {
                } else if k0 > k as int {
                } else {
                }
            }
            let old_op = self.ops.remove(k);
            let updated = OpProgress { id: old_op.id, label: old_op.label, done, total };
            self.ops.insert(k, updated);
        } else {
            self.ops.push(OpProgress { id, label, done, total });
        }
    }

    /// Removes operation `id` from the overlay.
    pub fn on_progress_done(&mut self, id: u64)
        requires
            old(self).inv(),
        ensures
            final(self).inv(),
            did_on_progress_done(*old(self), *final(self), id),
    {
        let mut old_ops: Vec<OpProgress> = Vec::new();
        std::mem::swap(&mut old_ops, &mut self.ops);
        let ghost all = old_ops@;
        let mut kept: Vec<OpProgress> = Vec::new();
        let mut i: usize = 0;
        let len = old_ops.len();
        let mut rest = old_ops;
        let ghost pred = |o: OpProgress| o.id != id;
        while rest.len() > 0
            invariant
                rest@.len() + i == len,
                len == all.len(),
                rest@ == all.skip(i as int),
                kept@ == all.take(i as int).filter(pred),
                pred == (|o: OpProgress| o.id != id),
            decreases rest.len(),
        {
            let o = rest.remove(0);
            proof {
                assert(all.take(i + 1) =~= all.take(i as int).push(all[i as int]));
                all.take(i as int).lemma_filter_push(all[i as int], pred);
                assert(rest@ =~= all.skip(i + 1));
            }
            if o.id != id {
                kept.push(o);
            }
            i = i + 1;
        }
        assert(all.take(len as int) =~= all);
        self.ops = kept;
    }
}

/// The largest index of a list of `n`, 0 when it is empty.
pub open spec fn last_or_zero(n: nat) -> nat {
    if n > 0 {
        (n - 1) as nat
    } else {
        0
    }
}

/// What `AppState::nav_up` does.
pub open spec fn did_nav_up(p: AppState, q: AppState) -> bool {
    &&& (active_panel_step(p, q, |p: Panel, q: Panel| panel_nav_up(p, q)))
}

/// What `AppState::nav_down` does.
pub open spec fn did_nav_down(p: AppState, q: AppState) -> bool {
    &&& (if panel_at(p, p.active).cursor < usize::MAX {
            active_panel_step(p, q, |p: Panel, q: Panel| panel_nav_down(p, q))
        } else {
            q == p
        })
}

/// What `AppState::nav_top` does.
pub open spec fn did_nav_top(p: AppState, q: AppState) -> bool {
    &&& (active_panel_step(p, q, |p: Panel, q: Panel| panel_nav_top(p, q)))
}

/// What `AppState::nav_bottom` does.
pub open spec fn did_nav_bottom(p: AppState, q: AppState) -> bool {
    &&& (active_panel_step(p, q, |p: Panel, q: Panel| panel_nav_bottom(p, q)))
}

/// What `AppState::switch_panel` does.
pub open spec fn did_switch_panel(p: AppState, q: AppState) -> bool {
    &&& (q.active == p.active.opposite())
    &&& (q.left.is_active == (q.active == Side::Left))
    &&& (q.right.is_active == (q.active == Side::Right))
    &&& (q == (AppState {
            active: q.active,
            left: Panel { is_active: q.left.is_active, ..p.left },
            right: Panel { is_active: q.right.is_active, ..p.right },
            ..p
        }))
}

/// What `AppState::filter_backspace` does.
pub open spec fn did_filter_backspace(p: AppState, q: AppState) -> bool {
    &&& (active_panel_step(p, q, |p: Panel, q: Panel| panel_pop_filter_char(p, q)))
}

/// What `AppState::filter_clear` does.
pub open spec fn did_filter_clear(p: AppState, q: AppState) -> bool {
    &&& (active_panel_step(p, q, |p: Panel, q: Panel| panel_clear_filter(p, q)))
}

/// What `AppState::toggle_mark` does.
pub open spec fn did_toggle_mark(p: AppState, q: AppState) -> bool {
    &&& (active_panel_step(p, q, |p: Panel, q: Panel| panel_toggle_mark(p, q)))
}

/// What `AppState::toggle_mark_all` does.
pub open spec fn did_toggle_mark_all(p: AppState, q: AppState) -> bool {
    &&& (active_panel_step(p, q, |p: Panel, q: Panel| panel_toggle_mark_all(p, q)))
}

/// What `AppState::cycle_sort_mode` does.
pub open spec fn did_cycle_sort_mode(p: AppState, q: AppState) -> bool {
    &&& (active_panel_step(p, q, |p: Panel, q: Panel| panel_cycle_sort_mode(p, q)))
}

/// What `AppState::invert_sort` does.
pub open spec fn did_invert_sort(p: AppState, q: AppState) -> bool {
    &&& (active_panel_step(p, q, |p: Panel, q: Panel| panel_invert_sort(p, q)))
}

/// What `AppState::open_mkdir_dialog` does.
pub open spec fn did_open_mkdir_dialog(p: AppState, q: AppState) -> bool {
    &&& (q == with_dialog(p, q.dialog->0))
    &&& (q.dialog matches Some(DialogState::Input { title, prompt, value, op })
            && title@ == "Make Directory"@ && prompt@ == "New directory name:"@ && value@.len()
            == 0 && op == (DeferredOp::Mkdir {
            base: panel_at(p, p.active).path,
            active: p.active,
        }))
}

/// What `AppState::open_delete_dialog` does.
pub open spec fn did_open_delete_dialog(p: AppState, q: AppState) -> bool {
    &&& (({
            let srcs = targets_of(panel_at(p, p.active));
            if srcs.len() == 0 {
                q == p
            } else {
                &&& q == with_dialog(p, q.dialog->0)
                &&& q.dialog matches Some(DialogState::Confirm { title, message, op })
                    && title@ == "Delete"@ && message@ == delete_message(srcs)
                    && (op matches DeferredOp::Delete { paths, active } && string_views(paths@)
                    == srcs && active == p.active)
            }
        }))
}

/// What `AppState::open_nano_dialog` does.
pub open spec fn did_open_nano_dialog(p: AppState, q: AppState) -> bool {
    &&& (q == with_dialog(p, q.dialog->0))
    &&& (q.dialog matches Some(DialogState::Input { title, prompt, value, op })
            && title@ == "Open in Nano"@ && prompt@ == "File in "@ + panel_at(
            p,
            p.active,
        ).path@ + ":"@ && value@ == nano_prefill(panel_at(p, p.active))
            && op == (DeferredOp::OpenInNano {
            base: panel_at(p, p.active).path,
        }))
}

/// What `AppState::open_recent_dirs_menu` does.
pub open spec fn did_open_recent_dirs_menu(p: AppState, q: AppState) -> bool {
    &&& (if p.recent_dirs@.len() == 0 {
            &&& q == (AppState { last_error: q.last_error, ..p })
            &&& q.last_error matches Some(m) && m@
                == "No recent directories — use F1 to navigate first"@
        } else {
            &&& q == with_dialog(p, q.dialog->0)
            &&& q.dialog matches Some(DialogState::ContextMenu { title, items, selected })
                && title@ == "Recent Directories"@ && selected == 0 && item_views(items@)
                == recent_items(string_views(p.recent_dirs@))
        })
}

/// What `AppState::dialog_cancel` does.
pub open spec fn did_dialog_cancel(p: AppState, q: AppState) -> bool {
    &&& (q == (AppState { dialog: None, mode: Mode::Normal, ..p }))
}

/// What `AppState::open_new_branch_dialog` does.
pub open spec fn did_open_new_branch_dialog(p: AppState, q: AppState) -> bool {
    &&& (match p.git_view {
            None => q == p,
            Some(gv) => {
                &&& q == with_dialog(
                    AppState { branch_list: q.branch_list, ..p },
                    q.dialog->0,
                )
                &&& q.branch_list@.len() == 0
                &&& q.dialog matches Some(DialogState::Input { title, prompt, value, op })
                    && title@ == "New Branch"@ && prompt@ == "Branch name:"@ && value@.len() == 0
                    && op == (DeferredOp::GitCreateBranch { git_root: gv.git_root })
            },
        })
}

/// What `AppState::branch_nav_up` does.
pub open spec fn did_branch_nav_up(p: AppState, q: AppState) -> bool {
    &&& (q == (AppState {
            branch_cursor: if p.branch_cursor > 0 {
                (p.branch_cursor - 1) as usize
            } else {
                0
            },
            ..p
        }))
}

/// What `AppState::branch_nav_down` does.
pub open spec fn did_branch_nav_down(p: AppState, q: AppState) -> bool {
    &&& (p.branch_cursor < usize::MAX ==> q == (AppState {
            branch_cursor: if p.branch_cursor + 1 <= last_or_zero(p.branch_list@.len()) {
                (p.branch_cursor + 1) as usize
            } else {
                last_or_zero(p.branch_list@.len()) as usize
            },
            ..p
        }))
    &&& (p.branch_cursor == usize::MAX ==> q == p)
}

/// What `AppState::nav_page_up` does.
pub open spec fn did_nav_page_up(p: AppState, q: AppState, page: usize) -> bool {
    &&& (active_panel_step(
            p,
            q,
            |p: Panel, q: Panel| panel_nav_page_up(p, q, page),
        ))
}

/// What `AppState::nav_page_down` does.
pub open spec fn did_nav_page_down(p: AppState, q: AppState, page: usize) -> bool {
    &&& (if panel_at(p, p.active).cursor + page <= usize::MAX {
            active_panel_step(
                p,
                q,
                |p: Panel, q: Panel| panel_nav_page_down(p, q, page),
            )
        } else {
            q == p
        })
}

/// What `AppState::filter_char` does.
pub open spec fn did_filter_char(p: AppState, q: AppState, c: char) -> bool {
    &&& (q.last_error is None)
    &&& (active_panel_step(
            AppState { last_error: None, ..p },
            q,
            |p: Panel, q: Panel| panel_push_filter_char(p, q, c),
        ))
}

/// What `AppState::on_branches_loaded` does.
pub open spec fn did_on_branches_loaded(p: AppState, q: AppState, branches: Vec<BranchInfo>) -> bool {
    &&& (q == (AppState {
            branch_list: branches,
            branch_cursor: q.branch_cursor,
            mode: Mode::GitBranch,
            ..p
        }))
    &&& (first_current(branches@, q.branch_cursor as int) || (q.branch_cursor
            == 0 && forall|j: int| 0 <= j < branches@.len() ==> !(#[trigger] branches@[j]).is_current))
}

/// What `AppState::on_progress` does.
pub open spec fn did_on_progress(p: AppState, q: AppState, id: u64, label: String, done: u64, total: u64) -> bool {
    &&& (({
            let k = op_index(p.ops@, id);
            &&& q == (AppState { ops: q.ops, ..p })
            &&& if k >= 0 {
                q.ops@ =~= p.ops@.update(
                    k,
                    OpProgress { done, total, ..p.ops@[k] },
                )
            } else {
                q.ops@ =~= p.ops@.push(OpProgress { id, label, done, total })
            }
        }))
}

/// What `AppState::on_progress_done` does.
pub open spec fn did_on_progress_done(p: AppState, q: AppState, id: u64) -> bool {
    &&& (q == (AppState { ops: q.ops, ..p }))
    &&& (q.ops@ == ops_without(p.ops@, id))
}

/// What `AppState::open_quick_cd_dialog` does.
pub open spec fn did_open_quick_cd_dialog(p: AppState, q: AppState, es: Seq<Effect>) -> bool {
    &&& (({
            let base = panel_at(p, p.active).path;
            &&& q == with_dialog(p, q.dialog->0)
            &&& q.dialog matches Some(DialogState::QuickCd { input, matches, selected, base_path })
                && input@.len() == 0 && matches@.len() == 0 && selected == 0 && base_path == base
            &&& es.len() == 1
            &&& es[0] matches Effect::ListQuickCdDirs { parent, filter } && parent == base
                && filter@.len() == 0
        }))
}

/// What `AppState::quick_cd_backspace` does.
pub open spec fn did_quick_cd_backspace(p: AppState, q: AppState, es: Seq<Effect>) -> bool {
    &&& (match p.dialog {
            Some(DialogState::QuickCd { input, .. }) => quick_cd_after_edit(
                p,
                q,
                es,
                backspaced(input@),
            ),
            _ => q == p && es.len() == 0,
        })
}

/// What `AppState::quick_cd_complete` does.
pub open spec fn did_quick_cd_complete(p: AppState, q: AppState, es: Seq<Effect>) -> bool {
    &&& (match p.dialog {
            Some(DialogState::QuickCd { input, matches, selected, .. }) => match completed_input(
                input@,
                string_views(matches@),
                selected as nat,
            ) {
                Some(text) => quick_cd_after_edit(p, q, es, text),
                None => q == p && es.len() == 0,
            },
            _ => q == p && es.len() == 0,
        })
}

/// What `AppState::exit_git_mode` does.
pub open spec fn did_exit_git_mode(p: AppState, q: AppState, es: Seq<Effect>) -> bool {
    &&& (q == (AppState {
            git_view: None,
            mode: Mode::Normal,
            git_watching: false,
            ..p
        }))
    &&& (es =~= (if p.git_watching {
            seq![Effect::StopGitWatcher]
        } else {
            Seq::empty()
        }) + seq![
            Effect::LoadDir { path: p.left.path, side: p.left.side },
            Effect::LoadDir { path: p.right.path, side: p.right.side },
        ])
}

/// What `AppState::open_commit_editor` does.
pub open spec fn did_open_commit_editor(p: AppState, q: AppState, es: Seq<Effect>) -> bool {
    &&& (q == (AppState {
            commit_editor_open: true,
            mode: Mode::GitCommit,
            ..p
        }))
    &&& (es == seq![Effect::OpenCommitEditor])
}

/// What `AppState::git_commit` does.
pub open spec fn did_git_commit(p: AppState, q: AppState, es: Seq<Effect>) -> bool {
    &&& (match p.git_view {
            None => q == p && es.len() == 0,
            Some(gv) => if staging_list(gv.entries@).len() == 0 {
                &&& q == (AppState { last_error: q.last_error, ..p })
                &&& q.last_error matches Some(m) && m@ == "Nothing staged to commit"@
                &&& es.len() == 0
            } else {
                &&& q == (AppState {
                    commit_editor_open: true,
                    mode: Mode::GitCommit,
                    ..p
                })
                &&& es == seq![Effect::OpenCommitEditor]
            },
        })
}

/// What `AppState::cancel_git_commit` does.
pub open spec fn did_cancel_git_commit(p: AppState, q: AppState, es: Seq<Effect>) -> bool {
    &&& (q == (AppState { commit_editor_open: false, mode: Mode::Git, ..p }))
    &&& (es == seq![Effect::CloseCommitEditor])
}

/// What `AppState::git_checkout_selected` does.
pub open spec fn did_git_checkout_selected(p: AppState, q: AppState, es: Seq<Effect>) -> bool {
    &&& (if p.branch_cursor < p.branch_list@.len() && p.git_view is Some {
            &&& q == (AppState {
                mode: Mode::Git,
                branch_list: q.branch_list,
                ..p
            })
            &&& q.branch_list@.len() == 0
            &&& es == seq![
                Effect::GitCheckout {
                    git_root: p.git_view->0.git_root,
                    branch: p.branch_list@[p.branch_cursor as int],
                },
            ]
        } else {
            q == p && es.len() == 0
        })
}

/// What `AppState::quick_cd_char` does.
pub open spec fn did_quick_cd_char(p: AppState, q: AppState, c: char, es: Seq<Effect>) -> bool {
    &&& (match p.dialog {
            Some(DialogState::QuickCd { input, .. }) => quick_cd_after_edit(
                p,
                q,
                es,
                quick_cd_typed(input@, c, p.home@),
            ),
            _ => q == p && es.len() == 0,
        })
}

/// What `AppState::git_transfer` does.
pub open spec fn did_git_transfer(p: AppState, q: AppState, is_pull: bool, es: Seq<Effect>) -> bool {
    &&& (match p.git_view {
            None => q == p && es.len() == 0,
            Some(gv) => {
                let id = p.next_op_id;
                &&& q == (AppState { next_op_id: (id + 1) as u64, ..p })
                &&& es.len() == 2
                &&& es[0] matches Effect::Send(Action::Progress { id: i, label, done, total })
                    && i == id && label@ == (if is_pull { "Pulling…"@ } else { "Pushing…"@ })
                    && done == 0 && total == 0
                &&& if is_pull {
                    es[1] == Effect::GitPull { git_root: gv.git_root, op_id: id }
                } else {
                    es[1] == Effect::GitPush { git_root: gv.git_root, op_id: id }
                }
            },
        })
}

/// What `AppState::request_context_menu` does.
pub open spec fn did_request_context_menu(p: AppState, es: Seq<Effect>) -> bool {
    &&& (match panel_at(p, p.active).cursor_entry_spec() {
            Some(e) => if e.name@ == dotdot() {
                es.len() == 0
            } else {
                es.len() == 1 && (es[0] matches Effect::PrepareContextMenu { entry_path }
                    && entry_path@ == joined(panel_at(p, p.active).path@, e.name@))
            },
            None => es.len() == 0,
        })
}

/// What `AppState::request_git_mode` does.
pub open spec fn did_request_git_mode(p: AppState, es: Seq<Effect>) -> bool {
    &&& (es == seq![Effect::FindGitRoot { path: panel_at(p, p.active).path }])
}

/// What `AppState::git_stage` does.
pub open spec fn did_git_stage(p: AppState, es: Seq<Effect>) -> bool {
    &&& (match p.git_view {
            None => es.len() == 0,
            Some(gv) => {
                let targets = if gv.left_marked.seq().len() > 0 {
                    gv.left_marked.seq()
                } else if gv.left_cursor < worktree_list(gv.entries@).len() {
                    seq![worktree_list(gv.entries@)[gv.left_cursor as int].path@]
                } else {
                    Seq::empty()
                };
                if targets.len() == 0 {
                    es.len() == 0
                } else {
                    es.len() == 1 && (es[0] matches Effect::GitStage { git_root, paths }
                        && git_root == gv.git_root && string_views(paths@) == targets)
                }
            },
        })
}

/// What `AppState::git_unstage` does.
pub open spec fn did_git_unstage(p: AppState, es: Seq<Effect>) -> bool {
    &&& (match p.git_view {
            None => es.len() == 0,
            Some(gv) => {
                let targets = if gv.right_marked.seq().len() > 0 {
                    gv.right_marked.seq()
                } else if gv.right_cursor < staging_list(gv.entries@).len() {
                    seq![staging_list(gv.entries@)[gv.right_cursor as int].path@]
                } else {
                    Seq::empty()
                };
                if targets.len() == 0 {
                    es.len() == 0
                } else {
                    es.len() == 1 && (es[0] matches Effect::GitUnstage { git_root, paths }
                        && git_root == gv.git_root && string_views(paths@) == targets)
                }
            },
        })
}

/// What `AppState::git_list_branches` does.
pub open spec fn did_git_list_branches(p: AppState, es: Seq<Effect>) -> bool {
    &&& (match p.git_view {
            None => es.len() == 0,
            Some(gv) => es == seq![Effect::LoadGitBranches { git_root: gv.git_root }],
        })
}

/// What `AppState::git_reload` does.
pub open spec fn did_git_reload(p: AppState, es: Seq<Effect>) -> bool {
    &&& (match p.git_view {
            None => es.len() == 0,
            Some(gv) => es == seq![Effect::LoadGitStatus { git_root: gv.git_root }],
        })
}

/// What `AppState::git_add_all` does.
pub open spec fn did_git_add_all(p: AppState, es: Seq<Effect>) -> bool {
    &&& (match p.git_view {
            None => es.len() == 0,
            Some(gv) => es == seq![Effect::GitAddAll { git_root: gv.git_root }],
        })
}


/// The effects as a list: none or one.
pub open spec fn opt_effects(r: Option<Effect>) -> Seq<Effect> {
    match r {
        Some(e) => seq![e],
        None => Seq::empty(),
    }
}

fn opt_vec(r: Option<Effect>) -> (v: Vec<Effect>)
    ensures
        v@ == opt_effects(r),
{
    let mut v: Vec<Effect> = Vec::new();
    match r {
        Some(e) => v.push(e),
        None => {},
    }
    assert(v@ =~= opt_effects(r));
    v
}

/// One reload per side, in order.
pub open spec fn reload_effects(s: AppState, sides: Seq<Side>) -> Seq<Effect> {
    sides.map_values(
        |side: Side| Effect::LoadDir { path: panel_at(s, side).path, side: panel_at(s, side).side },
    )
}

/// What `AppState::nav_enter` does.
pub open spec fn did_nav_enter(p: AppState, es: Seq<Effect>) -> bool {
    exists|r: Option<Effect>| panel_enter_effect(panel_at(p, p.active), r) && #[trigger] opt_effects(r) == es
}

/// What `AppState::nav_parent` does.
pub open spec fn did_nav_parent(p: AppState, es: Seq<Effect>) -> bool {
    exists|r: Option<Effect>| panel_parent_effect(panel_at(p, p.active), r) && #[trigger] opt_effects(r) == es
}

impl AppState {
    /// Enter on the active panel.
    pub fn nav_enter(&self) -> (r: Vec<Effect>)
        requires
            self.inv(),
        ensures
            did_nav_enter(*self, r@),
    {
        let e = self.active_panel().nav_enter();
        let v = opt_vec(e);
        assert(panel_enter_effect(panel_at(*self, self.active), e) && opt_effects(e) == v@);
        v
    }

    /// Backspace (or Left) on the active panel.
    pub fn nav_parent(&self) -> (r: Vec<Effect>)
        ensures
            did_nav_parent(*self, r@),
    {
        let e = self.active_panel().nav_parent();
        let v = opt_vec(e);
        assert(panel_parent_effect(panel_at(*self, self.active), e) && opt_effects(e) == v@);
        v
    }

    /// Shift+Tab: the other panel goes to the active panel's directory.
    pub fn sync_panel_dir(&self) -> (r: Vec<Effect>)
        ensures
            r@ == seq![
                Effect::LoadDir { path: panel_at(*self, self.active).path, side: self.active.opposite() },
            ],
    {
        let mut v: Vec<Effect> = Vec::new();
        v.push(Panel::load_dir(self.active_panel().path.clone(), self.active.other()));
        assert(v@ =~= seq![
            Effect::LoadDir { path: panel_at(*self, self.active).path, side: self.active.opposite() },
        ]);
        v
    }

    /// F4: sizes the active panel's directories, taking what the session
    /// cache already knows.
    pub fn calc_sizes(&mut self) -> (r: Vec<Effect>)
        requires
            old(self).inv(),
        ensures
            final(self).inv(),
            did_calc_sizes(*old(self), *final(self), r),
    {
        let mut cache = SizeMap::new();
        std::mem::swap(&mut cache, &mut self.dir_size_cache);
        let side = self.active;
        let r = self.get_panel_mut(side).start_size_calc(&cache);
        self.dir_size_cache = cache;
        r
    }

    /// A computed directory size: kept in the session cache under its full
    /// path written from its components, and shown by the panel still on
    /// that directory.
    pub fn on_dir_size_result(&mut self, side: Side, panel_path: String, name: String, size: u64)
        requires
            old(self).inv(),
        ensures
            final(self).inv(),
            did_on_dir_size_result(*old(self), *final(self), side, panel_path, name, size),
    {
        let full = join_path(panel_path.as_str(), name.as_str());
        let key = normalize_path(full.as_str());
        self.dir_size_cache.insert(key, size);
        self.get_panel_mut(side).on_dir_size_result(panel_path.as_str(), name, size);
    }

    /// A listed directory arrives for the panel on `side`.
    pub fn on_dir_loaded(&mut self, side: Side, path: String, entries: Vec<EntryInfo>) -> (r: Vec<Effect>)
        requires
            old(self).inv(),
        ensures
            final(self).inv(),
            did_on_dir_loaded(*old(self), *final(self), side, path, entries, r@),
    {
        let e = self.get_panel_mut(side).on_dir_loaded(path, entries);
        let mut v: Vec<Effect> = Vec::new();
        v.push(e);
        assert(seq![e] == v@);
        v
    }

    /// The git state of a directory arrives for the panel on `side`.
    pub fn on_git_info_loaded(&mut self, side: Side, path: String, branch: Option<String>, is_dirty: bool)
        requires
            old(self).inv(),
        ensures
            final(self).inv(),
            did_on_git_info_loaded(*old(self), *final(self), side, path, branch, is_dirty),
    {
        self.get_panel_mut(side).on_git_info_loaded(path.as_str(), branch, is_dirty);
    }

    /// An operation changed files: the size cache is dropped and the given
    /// panels are listed again.
    pub fn on_op_completed(&mut self, sides: Vec<Side>) -> (r: Vec<Effect>)
        requires
            old(self).inv(),
        ensures
            final(self).inv(),
            did_on_op_completed(*old(self), *final(self), sides, r@),
    {
        self.dir_size_cache.clear();
        let mut v: Vec<Effect> = Vec::new();
        let mut i: usize = 0;
        while i < sides.len()
            invariant
                i <= sides@.len(),
                v@ == reload_effects(*self, sides@.take(i as int)),
            decreases sides.len() - i,
        {
            v.push(self.get_panel(sides[i]).reload());
            assert(sides@.take(i + 1) =~= sides@.take(i as int).push(sides@[i as int]));
            assert(v@ =~= reload_effects(*self, sides@.take(i + 1)));
            i = i + 1;
        }
        assert(sides@.take(sides@.len() as int) =~= sides@);
        v
    }

    /// Errors from a batch operation, shown in a list.
    pub fn on_op_errors(&mut self, errors: Vec<String>)
        requires
            old(self).inv(),
        ensures
            final(self).inv(),
            did_on_op_errors(*old(self), *final(self), errors),
    {
        let title = concat_str(decimal_string(errors.len() as u64).as_str(), " error(s)");
        let d = DialogState::error_list(title.as_str(), errors);
        self.open_dialog(d);
    }

    /// The git status arrives.
    pub fn on_git_status_loaded(&mut self, branch: String, entries: Vec<GitEntry>)
        requires
            old(self).inv(),
        ensures
            final(self).inv(),
            did_on_git_status_loaded(*old(self), *final(self), branch, entries),
    {
        let mut gv = None;
        std::mem::swap(&mut gv, &mut self.git_view);
        match gv {
            Some(mut g) => {
                g.on_status_loaded(branch, entries);
                self.git_view = Some(g);
            },
            None => {},
        }
    }

    /// Moves in the active git pane.
    pub fn git_nav(&mut self, down: bool)
        requires
            old(self).inv(),
        ensures
            final(self).inv(),
            did_git_nav(*old(self), *final(self), down),
    {
        let mut gv = None;
        std::mem::swap(&mut gv, &mut self.git_view);
        match gv {
            Some(mut g) => {
                if down {
                    if g.active_cursor() < usize::MAX {
                        g.nav_down();
                    }
                } else {
                    g.nav_up();
                }
                self.git_view = Some(g);
            },
            None => {},
        }
    }

    /// Tab in git mode.
    pub fn git_switch_pane(&mut self)
        requires
            old(self).inv(),
        ensures
            final(self).inv(),
            did_git_switch_pane(*old(self), *final(self)),
    {
        let mut gv = None;
        std::mem::swap(&mut gv, &mut self.git_view);
        match gv {
            Some(mut g) => {
                g.switch_pane();
                self.git_view = Some(g);
            },
            None => {},
        }
    }

    /// Space in git mode.
    pub fn git_toggle_mark(&mut self)
        requires
            old(self).inv(),
        ensures
            final(self).inv(),
            did_git_toggle_mark(*old(self), *final(self)),
    {
        let mut gv = None;
        std::mem::swap(&mut gv, &mut self.git_view);
        match gv {
            Some(mut g) => {
                g.toggle_mark();
                self.git_view = Some(g);
            },
            None => {},
        }
    }
}


impl AppState {
    /// Arrow keys and typing in the open dialog.
    pub fn dialog_key_action(&mut self, kind: DialogEdit)
        requires
            old(self).inv(),
        ensures
            final(self).inv(),
            did_dialog_key_action(*old(self), *final(self), kind),
    {
        let d = self.dialog.take();
        match d {
            Some(mut d) => {
                match kind {
                    DialogEdit::Up => d.nav_up(),
                    DialogEdit::Down => d.nav_down(),
                    DialogEdit::Char(c) => d.push_char(c),
                    DialogEdit::Backspace => d.pop_char(),
                }
                self.dialog = Some(d);
            },
            None => {},
        }
    }

    /// The error line.
    pub fn show_error(&mut self, msg: String)
        requires
            old(self).inv(),
        ensures
            final(self).inv(),
            *final(self) == (AppState { last_error: Some(msg), ..*old(self) }),
    {
        self.last_error = Some(msg);
    }

    /// Deletes paths (an operation under a fresh id).
    pub fn execute_delete(&mut self, paths: Vec<String>) -> (r: Vec<Effect>)
        requires
            old(self).inv(),
            old(self).next_op_id < u64::MAX,
        ensures
            final(self).inv(),
            did_execute_delete(*old(self), *final(self), paths, r@),
    {
        let id = self.next_id();
        let mut v: Vec<Effect> = Vec::new();
        v.push(Effect::DeletePaths { paths, active: self.active, op_id: id });
        v
    }

    /// Copies or moves sources into `dest` (an operation under a fresh id).
    pub fn execute_transfer(&mut self, sources: Vec<String>, dest: String, is_move: bool) -> (r: Vec<Effect>)
        requires
            old(self).inv(),
            old(self).next_op_id < u64::MAX,
        ensures
            final(self).inv(),
            did_execute_transfer(*old(self), *final(self), sources, dest, is_move, r@),
    {
        let id = self.next_id();
        let mut v: Vec<Effect> = Vec::new();
        if is_move {
            v.push(Effect::MovePaths { sources, dest, active: self.active, op_id: id });
        } else {
            v.push(Effect::CopyPaths { sources, dest, active: self.active, op_id: id });
        }
        v
    }

    /// Creates `name` inside `base`.
    pub fn execute_mkdir(&self, base: String, name: String) -> (r: Vec<Effect>)
        ensures
            did_execute_mkdir(*self, base, name, r@),
    {
        let mut v: Vec<Effect> = Vec::new();
        v.push(Effect::MakeDir { path: join_path(base.as_str(), name.as_str()), active: self.active });
        v
    }

    /// Runs a command with the terminal handed over.
    pub fn execute_file(&mut self, cmd: String, args: Vec<String>, reload: Vec<Side>)
        requires
            old(self).inv(),
        ensures
            final(self).inv(),
            *final(self) == (AppState { pending_command: Some((cmd, args, reload)), ..*old(self) }),
    {
        self.pending_command = Some((cmd, args, reload));
    }
}

/// An edit of the open dialog.
#[derive(Debug, Clone, Copy, PartialEq, Eq, Structural)]
pub enum DialogEdit {
    Up,
    Down,
    Char(char),
    Backspace,
}

/// What `AppState::calc_sizes` does.
pub open spec fn did_calc_sizes(p: AppState, q: AppState, es: Vec<Effect>) -> bool {
    &&& (q == with_panel(p, p.active, panel_at(q, p.active)))
    &&& (panel_start_size_calc(
            panel_at(p, p.active),
            panel_at(q, p.active),
            p.dir_size_cache,
            es,
        ))
}

/// What `AppState::on_dir_size_result` does.
pub open spec fn did_on_dir_size_result(p: AppState, q: AppState, side: Side, panel_path: String, name: String, size: u64) -> bool {
    &&& (q.dir_size_cache@ =~= p.dir_size_cache@.insert(
            norm_path(joined(panel_path@, name@)),
            size,
        ))
    &&& (q == with_panel(
            AppState { dir_size_cache: q.dir_size_cache, ..p },
            side,
            panel_at(q, side),
        ))
    &&& (panel_on_dir_size_result(
            panel_at(p, side),
            panel_at(q, side),
            panel_path@,
            name,
            size,
        ))
}

/// What `AppState::on_dir_loaded` does.
pub open spec fn did_on_dir_loaded(p: AppState, q: AppState, side: Side, path: String, entries: Vec<EntryInfo>, es: Seq<Effect>) -> bool {
    &&& (q == with_panel(p, side, panel_at(q, side)))
    &&& (exists|e: Effect|
            panel_on_dir_loaded(panel_at(p, side), panel_at(q, side), path, entries, e)
                && #[trigger] seq![e] == es)
}

/// What `AppState::on_git_info_loaded` does.
pub open spec fn did_on_git_info_loaded(p: AppState, q: AppState, side: Side, path: String, branch: Option<String>, is_dirty: bool) -> bool {
    &&& (q == with_panel(p, side, panel_at(q, side)))
    &&& (panel_on_git_info_loaded(
            panel_at(p, side),
            panel_at(q, side),
            path@,
            branch,
            is_dirty,
        ))
}

/// What `AppState::on_op_completed` does.
pub open spec fn did_on_op_completed(p: AppState, q: AppState, sides: Vec<Side>, es: Seq<Effect>) -> bool {
    &&& (q == (AppState { dir_size_cache: q.dir_size_cache, ..p }))
    &&& (q.dir_size_cache@ =~= Map::<Seq<char>, u64>::empty())
    &&& (es =~= reload_effects(p, sides@))
}

/// What `AppState::on_op_errors` does.
pub open spec fn did_on_op_errors(p: AppState, q: AppState, errors: Vec<String>) -> bool {
    &&& (q == with_dialog(p, q.dialog->0))
    &&& (q.dialog matches Some(DialogState::ErrorList { title, errors: e, scroll })
            && title@ == decimal(errors@.len()) + " error(s)"@ && e == errors && scroll == 0)
}

/// What `AppState::on_git_status_loaded` does.
pub open spec fn did_on_git_status_loaded(p: AppState, q: AppState, branch: String, entries: Vec<GitEntry>) -> bool {
    &&& (match p.git_view {
            None => q == p,
            Some(gv) => {
                &&& q == (AppState { git_view: q.git_view, ..p })
                &&& q.git_view matches Some(g2) && git_on_status_loaded(gv, g2, branch, entries)
            },
        })
}

/// What `AppState::git_nav` does.
pub open spec fn did_git_nav(p: AppState, q: AppState, down: bool) -> bool {
    &&& (match p.git_view {
            None => q == p,
            Some(gv) => if down && !(gv.active_cursor_spec() < usize::MAX) {
                q == p
            } else {
                &&& q == (AppState { git_view: q.git_view, ..p })
                &&& q.git_view matches Some(g2) && (if down {
                    git_nav_down(gv, g2)
                } else {
                    git_nav_up(gv, g2)
                })
            },
        })
}

/// What `AppState::git_switch_pane` does.
pub open spec fn did_git_switch_pane(p: AppState, q: AppState) -> bool {
    &&& (match p.git_view {
            None => q == p,
            Some(gv) => {
                &&& q == (AppState { git_view: q.git_view, ..p })
                &&& q.git_view matches Some(g2) && git_switch_pane(gv, g2)
            },
        })
}

/// What `AppState::git_toggle_mark` does.
pub open spec fn did_git_toggle_mark(p: AppState, q: AppState) -> bool {
    &&& (match p.git_view {
            None => q == p,
            Some(gv) => {
                &&& q == (AppState { git_view: q.git_view, ..p })
                &&& q.git_view matches Some(g2) && git_toggle_mark(gv, g2)
            },
        })
}

/// What `AppState::dialog_key_action` does.
pub open spec fn did_dialog_key_action(p: AppState, q: AppState, kind: DialogEdit) -> bool {
    &&& (match p.dialog {
            None => q == p,
            Some(d) => {
                &&& q == (AppState { dialog: q.dialog, ..p })
                &&& q.dialog matches Some(d2) && match kind {
                    DialogEdit::Up => dialog_nav_up(d, d2),
                    DialogEdit::Down => dialog_nav_down(d, d2),
                    DialogEdit::Char(c) => dialog_push_char(d, d2, c),
                    DialogEdit::Backspace => dialog_pop_char(d, d2),
                }
            },
        })
}

/// What `AppState::execute_delete` does.
pub open spec fn did_execute_delete(p: AppState, q: AppState, paths: Vec<String>, es: Seq<Effect>) -> bool {
    &&& (q == (AppState { next_op_id: (p.next_op_id + 1) as u64, ..p }))
    &&& (es == seq![
            Effect::DeletePaths { paths, active: p.active, op_id: p.next_op_id },
        ])
}

/// What `AppState::execute_transfer` does.
pub open spec fn did_execute_transfer(p: AppState, q: AppState, sources: Vec<String>, dest: String, is_move: bool, es: Seq<Effect>) -> bool {
    &&& (q == (AppState { next_op_id: (p.next_op_id + 1) as u64, ..p }))
    &&& (es == seq![
            if is_move {
                Effect::MovePaths {
                    sources,
                    dest,
                    active: p.active,
                    op_id: p.next_op_id,
                }
            } else {
                Effect::CopyPaths {
                    sources,
                    dest,
                    active: p.active,
                    op_id: p.next_op_id,
                }
            },
        ])
}

/// What `AppState::execute_mkdir` does.
pub open spec fn did_execute_mkdir(p: AppState, base: String, name: String, es: Seq<Effect>) -> bool {
    &&& (es.len() == 1)
    &&& (es[0] matches Effect::MakeDir { path, active } && path@ == joined(base@, name@) && active
            == p.active)
}


// --- The event loop's step ---

/// What handling `action` does to the state and which effects it asks for;
/// `page` is the height of a panel page.
pub open spec fn step(s: AppState, action: Action, page: usize, t: AppState, es: Seq<Effect>) -> bool {
    match action {
        Action::Tick => t == AppState { pending_keys: t.pending_keys, ..s } && t.pending_keys@.len()
            == 0 && es.len() == 0,
        Action::Quit => t == AppState { should_quit: true, ..s } && es.len() == 0,
        Action::Suspend => t == AppState { should_suspend: true, ..s } && es.len() == 0,
        Action::Resume => t == AppState { should_suspend: false, ..s } && es.len() == 0,
        Action::ClearScreen => t == s && es == seq![Effect::ClearScreen],
        Action::Resize(w, h) => t == s && es == seq![Effect::Resize { width: w, height: h }],
        Action::Render => t == s && es == seq![Effect::Render],
        Action::Error(m) => t == AppState { last_error: Some(m), ..s } && es.len() == 0,
        Action::OpError(m) => t == AppState { last_error: Some(m), ..s } && es.len() == 0,
        Action::OpErrors(errors) => did_on_op_errors(s, t, errors) && es.len() == 0,
        Action::NavUp => did_nav_up(s, t) && es.len() == 0,
        Action::NavDown => did_nav_down(s, t) && es.len() == 0,
        Action::NavPageUp => did_nav_page_up(s, t, page) && es.len() == 0,
        Action::NavPageDown => did_nav_page_down(s, t, page) && es.len() == 0,
        Action::NavTop => did_nav_top(s, t) && es.len() == 0,
        Action::NavBottom => did_nav_bottom(s, t) && es.len() == 0,
        Action::NavEnter => t == s && did_nav_enter(s, es),
        Action::NavParent => t == s && did_nav_parent(s, es),
        Action::SwitchPanel => did_switch_panel(s, t) && es.len() == 0,
        Action::SyncPanelDir => t == s && es == seq![
            Effect::LoadDir { path: panel_at(s, s.active).path, side: s.active.opposite() },
        ],
        Action::FilterChar(c) => did_filter_char(s, t, c) && es.len() == 0,
        Action::FilterBackspace => did_filter_backspace(s, t) && es.len() == 0,
        Action::FilterClear => did_filter_clear(s, t) && es.len() == 0,
        Action::ToggleMark => did_toggle_mark(s, t) && es.len() == 0,
        Action::ToggleMarkAll => did_toggle_mark_all(s, t) && es.len() == 0,
        Action::QuickCd => did_open_quick_cd_dialog(s, t, es),
        Action::QuickCdChar(c) => did_quick_cd_char(s, t, c, es),
        Action::QuickCdBackspace => did_quick_cd_backspace(s, t, es),
        Action::QuickCdComplete => did_quick_cd_complete(s, t, es),
        Action::Copy => transfer_dialog_opened(s, t, false) && es.len() == 0,
        Action::Move => transfer_dialog_opened(s, t, true) && es.len() == 0,
        Action::Mkdir => did_open_mkdir_dialog(s, t) && es.len() == 0,
        Action::Delete => did_open_delete_dialog(s, t) && es.len() == 0,
        Action::View => did_open_nano_dialog(s, t) && es.len() == 0,
        Action::CalcSizes => exists|v: Vec<Effect>| #[trigger] did_calc_sizes(s, t, v) && v@ == es,
        Action::CycleSortMode => did_cycle_sort_mode(s, t) && es.len() == 0,
        Action::InvertSort => did_invert_sort(s, t) && es.len() == 0,
        Action::ContextMenu => t == s && did_request_context_menu(s, es),
        Action::DirSizeResult { side, panel_path, name, size } => did_on_dir_size_result(
            s,
            t,
            side,
            panel_path,
            name,
            size,
        ) && es.len() == 0,
        Action::DirLoaded { side, path, entries } => did_on_dir_loaded(s, t, side, path, entries, es),
        Action::GitInfoLoaded { side, path, branch, is_dirty } => did_on_git_info_loaded(
            s,
            t,
            side,
            path,
            branch,
            is_dirty,
        ) && es.len() == 0,
        Action::ExecuteDelete(paths) => did_execute_delete(s, t, paths, es),
        Action::ExecuteCopy { sources, dest } => did_execute_transfer(s, t, sources, dest, false, es),
        Action::ExecuteMove { sources, dest } => did_execute_transfer(s, t, sources, dest, true, es),
        Action::ExecuteMkdir { base, name } => t == s && did_execute_mkdir(s, base, name, es),
        Action::ExecuteFile { cmd, args, reload } => t == AppState {
            pending_command: Some((cmd, args, reload)),
            ..s
        } && es.len() == 0,
        Action::OpCompleted(sides) => did_on_op_completed(s, t, sides, es),
        Action::DialogConfirm => dialog_confirmed(s, t, es),
        Action::DialogCancel => did_dialog_cancel(s, t) && es.len() == 0,
        Action::DialogNavUp => did_dialog_key_action(s, t, DialogEdit::Up) && es.len() == 0,
        Action::DialogNavDown => did_dialog_key_action(s, t, DialogEdit::Down) && es.len() == 0,
        Action::DialogInputChar(c) => did_dialog_key_action(s, t, DialogEdit::Char(c)) && es.len()
            == 0,
        Action::DialogInputBackspace => did_dialog_key_action(s, t, DialogEdit::Backspace)
            && es.len() == 0,
        Action::SelectTheme => theme_menu_shown(s, t, builtin_themes()) && es.len() == 0,
        Action::RecentDirs => did_open_recent_dirs_menu(s, t) && es.len() == 0,
        Action::EnterGitMode => t == s && did_request_git_mode(s, es),
        Action::ExitGitMode => did_exit_git_mode(s, t, es),
        Action::GitNavUp => did_git_nav(s, t, false) && es.len() == 0,
        Action::GitNavDown => did_git_nav(s, t, true) && es.len() == 0,
        Action::GitSwitchPane => did_git_switch_pane(s, t) && es.len() == 0,
        Action::GitToggleMark => did_git_toggle_mark(s, t) && es.len() == 0,
        Action::GitAddAllAndCommit => t == s && did_git_add_all(s, es),
        Action::GitAddAllDone => did_open_commit_editor(s, t, es),
        Action::GitStage => t == s && did_git_stage(s, es),
        Action::GitUnstage => t == s && did_git_unstage(s, es),
        Action::GitCommit => did_git_commit(s, t, es),
        Action::GitCommitSubmit => t == s && es == (if s.commit_editor_open {
            seq![Effect::CollectCommitMessage]
        } else {
            Seq::empty()
        }),
        Action::GitCommitCancel => did_cancel_git_commit(s, t, es),
        Action::GitPush => did_git_transfer(s, t, false, es),
        Action::GitPull => did_git_transfer(s, t, true, es),
        Action::GitReload => t == s && did_git_reload(s, es),
        Action::GitOpCompleted => t == s && did_git_reload(s, es),
        Action::GitListBranches => t == s && did_git_list_branches(s, es),
        Action::GitNewBranch => did_open_new_branch_dialog(s, t) && es.len() == 0,
        Action::GitBranchNavUp => did_branch_nav_up(s, t) && es.len() == 0,
        Action::GitBranchNavDown => did_branch_nav_down(s, t) && es.len() == 0,
        Action::GitBranchConfirm => did_git_checkout_selected(s, t, es),
        Action::GitBranchesLoaded { branches } => did_on_branches_loaded(s, t, branches) && es.len()
            == 0,
        Action::GitStatusLoaded { git_root, branch, entries } => did_on_git_status_loaded(
            s,
            t,
            branch,
            entries,
        ) && es.len() == 0,
        Action::Progress { id, label, done, total } => did_on_progress(s, t, id, label, done, total)
            && es.len() == 0,
        Action::ProgressDone(id) => did_on_progress_done(s, t, id) && es.len() == 0,
        Action::Help => t == s && es.len() == 0,
    }
}

impl AppState {
    /// Handles one action from the event loop; `page` is the height of a
    /// panel page.  Returns what the host has to do.
    #[verifier::rlimit(60)]
    pub fn update(&mut self, action: Action, page: usize) -> (r: Vec<Effect>)
        requires
            old(self).inv(),
            old(self).next_op_id < u64::MAX,
        ensures
            step(*old(self), action, page, *final(self), r@),
            final(self).inv(),
    {
        match action {
            Action::Tick => {
                self.pending_keys.clear();
                Vec::new()
            },
            Action::Quit => {
                self.should_quit = true;
                Vec::new()
            },
            Action::Suspend => {
                self.should_suspend = true;
                Vec::new()
            },
            Action::Resume => {
                self.should_suspend = false;
                Vec::new()
            },
            Action::ClearScreen => {
                let mut v: Vec<Effect> = Vec::new();
                v.push(Effect::ClearScreen);
                assert(v@ =~= seq![Effect::ClearScreen]);
                v
            },
            Action::Resize(w, h) => {
                let mut v: Vec<Effect> = Vec::new();
                v.push(Effect::Resize { width: w, height: h });
                assert(v@ =~= seq![Effect::Resize { width: w, height: h }]);
                v
            },
            Action::Render => {
                let mut v: Vec<Effect> = Vec::new();
                v.push(Effect::Render);
                assert(v@ =~= seq![Effect::Render]);
                v
            },
            Action::Error(m) => {
                self.show_error(m);
                Vec::new()
            },
            Action::OpError(m) => {
                self.show_error(m);
                Vec::new()
            },
            Action::OpErrors(errors) => {
                self.on_op_errors(errors);
                Vec::new()
            },
            Action::NavUp => {
                self.nav_up();
                Vec::new()
            },
            Action::NavDown => {
                self.nav_down();
                Vec::new()
            },
            Action::NavPageUp => {
                self.nav_page_up(page);
                Vec::new()
            },
            Action::NavPageDown => {
                self.nav_page_down(page);
                Vec::new()
            },
            Action::NavTop => {
                self.nav_top();
                Vec::new()
            },
            Action::NavBottom => {
                self.nav_bottom();
                Vec::new()
            },
            Action::NavEnter => self.nav_enter(),
            Action::NavParent => self.nav_parent(),
            Action::SwitchPanel => {
                self.switch_panel();
                Vec::new()
            },
            Action::SyncPanelDir => self.sync_panel_dir(),
            Action::FilterChar(c) => {
                self.filter_char(c);
                Vec::new()
            },
            Action::FilterBackspace => {
                self.filter_backspace();
                Vec::new()
            },
            Action::FilterClear => {
                self.filter_clear();
                Vec::new()
            },
            Action::ToggleMark => {
                self.toggle_mark();
                Vec::new()
            },
            Action::ToggleMarkAll => {
                self.toggle_mark_all();
                Vec::new()
            },
            Action::QuickCd => self.open_quick_cd_dialog(),
            Action::QuickCdChar(c) => self.quick_cd_char(c),
            Action::QuickCdBackspace => self.quick_cd_backspace(),
            Action::QuickCdComplete => self.quick_cd_complete(),
            Action::Copy => {
                self.open_copy_dialog();
                Vec::new()
            },
            Action::Move => {
                self.open_move_dialog();
                Vec::new()
            },
            Action::Mkdir => {
                self.open_mkdir_dialog();
                Vec::new()
            },
            Action::Delete => {
                self.open_delete_dialog();
                Vec::new()
            },
            Action::View => {
                self.open_nano_dialog();
                Vec::new()
            },
            Action::CalcSizes => self.calc_sizes(),
            Action::CycleSortMode => {
                self.cycle_sort_mode();
                Vec::new()
            },
            Action::InvertSort => {
                self.invert_sort();
                Vec::new()
            },
            Action::ContextMenu => self.request_context_menu(),
            Action::DirSizeResult { side, panel_path, name, size } => {
                self.on_dir_size_result(side, panel_path, name, size);
                Vec::new()
            },
            Action::DirLoaded { side, path, entries } => self.on_dir_loaded(side, path, entries),
            Action::GitInfoLoaded { side, path, branch, is_dirty } => {
                self.on_git_info_loaded(side, path, branch, is_dirty);
                Vec::new()
            },
            Action::ExecuteDelete(paths) => self.execute_delete(paths),
            Action::ExecuteCopy { sources, dest } => self.execute_transfer(sources, dest, false),
            Action::ExecuteMove { sources, dest } => self.execute_transfer(sources, dest, true),
            Action::ExecuteMkdir { base, name } => self.execute_mkdir(base, name),
            Action::ExecuteFile { cmd, args, reload } => {
                self.execute_file(cmd, args, reload);
                Vec::new()
            },
            Action::OpCompleted(sides) => self.on_op_completed(sides),
            Action::DialogConfirm => self.dialog_confirm(),
            Action::DialogCancel => {
                self.dialog_cancel();
                Vec::new()
            },
            Action::DialogNavUp => {
                self.dialog_key_action(DialogEdit::Up);
                Vec::new()
            },
            Action::DialogNavDown => {
                self.dialog_key_action(DialogEdit::Down);
                Vec::new()
            },
            Action::DialogInputChar(c) => {
                self.dialog_key_action(DialogEdit::Char(c));
                Vec::new()
            },
            Action::DialogInputBackspace => {
                self.dialog_key_action(DialogEdit::Backspace);
                Vec::new()
            },
            Action::SelectTheme => {
                self.open_theme_selector();
                Vec::new()
            },
            Action::RecentDirs => {
                self.open_recent_dirs_menu();
                Vec::new()
            },
            Action::EnterGitMode => self.request_git_mode(),
            Action::ExitGitMode => self.exit_git_mode(),
            Action::GitNavUp => {
                self.git_nav(false);
                Vec::new()
            },
            Action::GitNavDown => {
                self.git_nav(true);
                Vec::new()
            },
            Action::GitSwitchPane => {
                self.git_switch_pane();
                Vec::new()
            },
            Action::GitToggleMark => {
                self.git_toggle_mark();
                Vec::new()
            },
            Action::GitAddAllAndCommit => self.git_add_all(),
            Action::GitAddAllDone => self.open_commit_editor(),
            Action::GitStage => self.git_stage(),
            Action::GitUnstage => self.git_unstage(),
            Action::GitCommit => self.git_commit(),
            Action::GitCommitSubmit => {
                let mut v: Vec<Effect> = Vec::new();
                if self.commit_editor_open {
                    v.push(Effect::CollectCommitMessage);
                    assert(v@ =~= seq![Effect::CollectCommitMessage]);
                }
                v
            },
            Action::GitCommitCancel => self.cancel_git_commit(),
            Action::GitPush => self.git_transfer(false),
            Action::GitPull => self.git_transfer(true),
            Action::GitReload => self.git_reload(),
            Action::GitOpCompleted => self.git_reload(),
            Action::GitListBranches => self.git_list_branches(),
            Action::GitNewBranch => {
                self.open_new_branch_dialog();
                Vec::new()
            },
            Action::GitBranchNavUp => {
                self.branch_nav_up();
                Vec::new()
            },
            Action::GitBranchNavDown => {
                self.branch_nav_down();
                Vec::new()
            },
            Action::GitBranchConfirm => self.git_checkout_selected(),
            Action::GitBranchesLoaded { branches } => {
                self.on_branches_loaded(branches);
                Vec::new()
            },
            Action::GitStatusLoaded { git_root, branch, entries } => {
                self.on_git_status_loaded(branch, entries);
                Vec::new()
            },
            Action::Progress { id, label, done, total } => {
                self.on_progress(id, label, done, total);
                Vec::new()
            },
            Action::ProgressDone(id) => {
                self.on_progress_done(id);
                Vec::new()
            },
            Action::Help => Vec::new(),
        }
    }
}


/// What a key press does, given the mode: dialogs, the commit editor, the
/// branch picker and git mode have keys of their own; in normal mode Ctrl+G
/// enters git mode inside a repository, and other keys go through the key map.
pub open spec fn key_step(s: AppState, k: Key, t: AppState, r: KeyOutcome) -> bool {
    if s.mode == Mode::Dialog {
        t == s && r == dialog_key(
            s.dialog matches Some(DialogState::QuickCd { .. }),
            s.dialog matches Some(DialogState::Confirm { .. }),
            k,
        )
    } else if s.mode == Mode::GitCommit {
        t == s && r == commit_key(k)
    } else if s.mode == Mode::GitBranch {
        t == s && r == branch_key(k)
    } else if s.mode == Mode::Git {
        t == s && r == git_key(k)
    } else if is_ctrl_g(k) {
        t == s && r == (if panel_at(s, s.active).git_branch is Some {
            KeyOutcome::Send(Action::EnterGitMode)
        } else {
            KeyOutcome::Ignore
        })
    } else {
        &&& t == AppState { pending_keys: t.pending_keys, ..s }
        &&& (r, t.pending_keys@) == normal_key(s.keymap.table(), s.pending_keys@, k)
    }
}

impl AppState {
    /// Decides what a key press asks for.
    pub fn on_key(&mut self, k: Key) -> (r: KeyOutcome)
        ensures
            key_step(*old(self), k, *final(self), r),
    {
        if self.mode == Mode::Dialog {
            let is_qcd = match &self.dialog {
                Some(d) => d.is_quick_cd(),
                None => false,
            };
            let is_confirm = match &self.dialog {
                Some(DialogState::Confirm { .. }) => true,
                _ => false,
            };
            return dialog_key_outcome(is_qcd, is_confirm, k);
        }
        if self.mode == Mode::GitCommit {
            return commit_key_outcome(k);
        }
        if self.mode == Mode::GitBranch {
            return branch_key_outcome(k);
        }
        if self.mode == Mode::Git {
            return git_key_outcome(k);
        }
        if k.ctrl && !k.alt && !k.shift && k.code == KeyCode::Char('g') {
            return if self.active_panel().git_branch.is_some() {
                KeyOutcome::Send(Action::EnterGitMode)
            } else {
                KeyOutcome::Ignore
            };
        }
        normal_key_outcome(&self.keymap, &mut self.pending_keys, k)
    }
}

} // verus!
