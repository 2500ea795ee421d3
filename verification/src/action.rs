//! The data that flows between the panels, the git view and the event loop.
use vstd::prelude::*;

verus! {

// --- Git status types ---

#[derive(Debug, Clone, Copy, PartialEq, Eq, Structural)]
pub enum GitIndexStatus {
    Added,
    Modified,
    Deleted,
    Renamed,
    Copied,
}

#[derive(Debug, Clone, Copy, PartialEq, Eq, Structural)]
pub enum GitWorktreeStatus {
    Modified,
    Deleted,
    Untracked,
}

#[derive(Debug, Clone, PartialEq, Eq)]
pub struct GitEntry {
    pub path: String,
    pub index: Option<GitIndexStatus>,
    pub worktree: Option<GitWorktreeStatus>,
}

#[derive(Debug, Clone, Copy, PartialEq, Eq, Hash, Structural)]
pub enum Side {
    Left,
    Right,
}

impl Side {
    pub open spec fn opposite(self) -> Side {
        match self {
            Side::Left => Side::Right,
            Side::Right => Side::Left,
        }
    }

    /// The other panel.
    pub fn other(self) -> (r: Self)
        ensures
            r == self.opposite(),
            r != self,
    {
        match self {
            Side::Left => Side::Right,
            Side::Right => Side::Left,
        }
    }
}

/// `other` is an involution: the other side of the other side is the side itself.
pub proof fn law_other_involution(s: Side)
    ensures
        s.opposite().opposite() == s,
        s.opposite() != s,
{
}

#[derive(Debug, Clone, PartialEq, Eq)]
pub struct EntryInfo {
    pub name: String,
    pub is_dir: bool,
    pub is_symlink: bool,
    pub size: u64,
    /// Modification time in unix seconds.
    pub modified: u64,
    /// Hard link count. > 1 means multiple directory entries share this inode.
    pub nlink: u32,
    /// Owner username (empty for non-Unix or unresolvable UIDs).
    pub owner: String,
}

#[derive(Debug, Clone, PartialEq, Eq)]
pub struct BranchInfo {
    /// Short display name (e.g. "main" or "feature/foo").
    pub name: String,
    /// Whether a local branch with this name exists.
    pub is_local: bool,
    /// Whether this is the currently checked-out branch.
    pub is_current: bool,
    /// For remote-only branches: the canonical remote ref (e.g. "origin/foo").
    pub remote_ref: Option<String>,
}

#[derive(Debug, Clone, PartialEq, Eq)]
pub enum Action {
    Tick,
    Render,
    Resize(u16, u16),
    Suspend,
    Resume,
    Quit,
    ClearScreen,
    Error(String),
    Help,
    // Navigation
    NavUp,
    NavDown,
    NavPageUp,
    NavPageDown,
    NavTop,
    NavBottom,
    NavEnter,
    NavParent,
    SwitchPanel,
    /// Shift+Tab: sync the other panel to the active panel's directory.
    SyncPanelDir,
    // Marking
    ToggleMark,
    ToggleMarkAll,
    // Operations (function keys)
    Copy,
    Move,
    Mkdir,
    Delete,
    /// F2
    ContextMenu,
    /// F3: open in nano
    View,
    /// F4: recursive directory sizes
    CalcSizes,
    /// F9: cycle Name, Size, Modified
    CycleSortMode,
    /// Shift+F9: flip ascending / descending
    InvertSort,
    // Quick CD (F1)
    QuickCd,
    QuickCdChar(char),
    QuickCdBackspace,
    /// Tab: complete the selected match into the input
    QuickCdComplete,
    // Filter (unbound printable keys in Normal mode)
    FilterChar(char),
    FilterBackspace,
    FilterClear,
    // Dialog navigation
    DialogNavUp,
    DialogNavDown,
    // Async completions
    DirLoaded { side: Side, path: String, entries: Vec<EntryInfo> },
    ExecuteDelete(Vec<String>),
    ExecuteCopy { sources: Vec<String>, dest: String },
    ExecuteMove { sources: Vec<String>, dest: String },
    ExecuteMkdir { base: String, name: String },
    ExecuteFile {
        cmd: String,
        args: Vec<String>,
        /// Panels to reload after the command exits.
        reload: Vec<Side>,
    },
    DirSizeResult {
        side: Side,
        /// guards against stale results after navigation
        panel_path: String,
        name: String,
        size: u64,
    },
    GitInfoLoaded {
        side: Side,
        path: String,
        /// None = not a git repository
        branch: Option<String>,
        is_dirty: bool,
    },
    OpCompleted(Vec<Side>),
    OpError(String),
    OpErrors(Vec<String>),
    // Dialog lifecycle
    DialogInputChar(char),
    DialogInputBackspace,
    DialogConfirm,
    DialogCancel,
    /// F11
    SelectTheme,
    /// Shift+F1
    RecentDirs,
    // Git mode
    EnterGitMode,
    ExitGitMode,
    GitNavUp,
    GitNavDown,
    GitSwitchPane,
    GitToggleMark,
    GitStage,
    GitUnstage,
    GitCommit,
    GitCommitSubmit,
    GitCommitCancel,
    GitPush,
    GitPull,
    GitReload,
    GitListBranches,
    GitNewBranch,
    GitBranchNavUp,
    GitBranchNavDown,
    GitBranchConfirm,
    GitAddAllAndCommit,
    GitAddAllDone,
    GitStatusLoaded { git_root: String, branch: String, entries: Vec<GitEntry> },
    GitBranchesLoaded { branches: Vec<BranchInfo> },
    GitOpCompleted,
    // Progress of long-running operations
    Progress { id: u64, label: String, done: u64, total: u64 },
    ProgressDone(u64),
}

} // verus!
