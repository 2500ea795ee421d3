//! Work that the library asks its host to carry out: reading directories,
//! touching the filesystem, running programs, talking to git, redrawing.
//! The host performs each effect and reports back through an `Action`.
use vstd::prelude::*;
use crate::action::{Action, BranchInfo, Side};

verus! {

#[derive(Debug, Clone, PartialEq, Eq)]
pub enum Effect {
    /// List a directory and answer with `Action::DirLoaded`.
    LoadDir { path: String, side: Side },
    /// Look up the git branch of a directory and answer with `Action::GitInfoLoaded`.
    LoadGitInfo { path: String, side: Side },
    /// Open a file or directory with the desktop's default handler.
    OpenWithOs { path: String },
    /// Start the code editor in a directory.
    RunCodeHere { dir: String },
    /// Compute the recursive size of a directory; answer with `Action::DirSizeResult`.
    ComputeDirSize { side: Side, panel_path: String, name: String, path: String },
    /// Clear the terminal.
    ClearScreen,
    /// Resize the terminal area and redraw.
    Resize { width: u16, height: u16 },
    /// Redraw the screen.
    Render,
    /// Delete paths recursively, then answer with `OpCompleted([active])` or `OpError`.
    DeletePaths { paths: Vec<String>, active: Side, op_id: u64 },
    /// Copy sources into a directory.
    CopyPaths { sources: Vec<String>, dest: String, active: Side, op_id: u64 },
    /// Move sources into a directory.
    MovePaths { sources: Vec<String>, dest: String, active: Side, op_id: u64 },
    /// Create one directory.
    MakeDir { path: String, active: Side },
    /// Extract archives into a directory.
    ExtractArchives { archives: Vec<String>, dest: String, active: Side, op_id: u64 },
    /// Mount a removable block device.
    MountDevice { device: String },
    /// Unmount a removable block device.
    UnmountDevice { device: String },
    /// Change the owner of paths (the host decides on `-R` by looking at them).
    Chown { paths: Vec<String>, new_owner: String, reload_sides: Vec<Side> },
    /// Persist the recent-directory list.
    SaveRecentDirs { dirs: Vec<String> },
    /// Switch the colour theme.
    ApplyTheme { id: String },
    /// List the sub-directories of `parent` whose names contain `filter`, and
    /// hand them to `AppState::set_quick_cd_matches`.
    ListQuickCdDirs { parent: String, filter: String },
    /// Read the git status of a repository; answer with `Action::GitStatusLoaded`.
    LoadGitStatus { git_root: String },
    /// Read the branches of a repository; answer with `Action::GitBranchesLoaded`.
    LoadGitBranches { git_root: String },
    /// Watch a repository for changes and send `Action::GitReload`.
    StartGitWatcher { git_root: String },
    StopGitWatcher,
    GitStage { git_root: String, paths: Vec<String> },
    GitUnstage { git_root: String, paths: Vec<String> },
    GitAddAll { git_root: String },
    GitCommit { git_root: String, message: String },
    GitPush { git_root: String, op_id: u64 },
    GitPull { git_root: String, op_id: u64 },
    GitCheckout { git_root: String, branch: BranchInfo },
    GitCreateBranch { git_root: String, name: String },
    /// Find the work tree of the git repository that holds `path`, and hand
    /// it to `AppState::on_git_root_found`.
    FindGitRoot { path: String },
    /// Look at the cursor entry on disk (is it executable?) and list the
    /// removable devices, then call `AppState::open_context_menu`.
    PrepareContextMenu { entry_path: String },
    /// Read the commit message from the editor and hand its lines to
    /// `AppState::submit_git_commit`.
    CollectCommitMessage,
    /// Show the commit-message editor.
    OpenCommitEditor,
    /// Hide the commit-message editor.
    CloseCommitEditor,
    /// Feed an action back into the event loop.
    Send(Action),
}

} // verus!
