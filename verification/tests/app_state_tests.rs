use crabmander::action::{Action, BranchInfo, EntryInfo, GitEntry, GitWorktreeStatus, Side};
use crabmander::app_state::{AppState, Mode};
use crabmander::dialog::{DeferredOp, DialogState, MenuAction};
use crabmander::effect::Effect;
use crabmander::keys::{Key, KeyCode, KeyOutcome};

fn entry(name: &str, is_dir: bool, size: u64) -> EntryInfo {
    EntryInfo {
        name: name.to_owned(),
        is_dir,
        is_symlink: false,
        size,
        modified: 0,
        nlink: 1,
        owner: "me".to_owned(),
    }
}

fn state() -> AppState {
    let mut s = AppState::new("/home/me".into(), "/home/me".into(), "default".into(), vec![]);
    let fx = s.update(
        Action::DirLoaded {
            side: Side::Left,
            path: "/home/me".into(),
            entries: vec![entry("..", true, 0), entry("docs", true, 0), entry("a.txt", false, 10)],
        },
        10,
    );
    assert_eq!(fx, vec![Effect::LoadGitInfo { path: "/home/me".into(), side: Side::Left }]);
    let _ = s.update(
        Action::DirLoaded {
            side: Side::Right,
            path: "/tmp".into(),
            entries: vec![entry("x", false, 1)],
        },
        10,
    );
    s
}

fn key(c: char) -> Key {
    Key { code: KeyCode::Char(c), ctrl: false, alt: false, shift: false }
}

fn plain(code: KeyCode) -> Key {
    Key { code, ctrl: false, alt: false, shift: false }
}

#[test]
fn start_lists_both_panels() {
    let s = AppState::new("/w".into(), "/h".into(), "t".into(), vec![]);
    assert_eq!(
        s.start(),
        vec![
            Effect::LoadDir { path: "/w".into(), side: Side::Left },
            Effect::LoadDir { path: "/w".into(), side: Side::Right },
        ]
    );
    assert!(s.left.is_active && !s.right.is_active);
}

#[test]
fn switch_panel_twice_comes_back() {
    let mut s = state();
    s.update(Action::SwitchPanel, 10);
    assert_eq!(s.active, Side::Right);
    assert!(s.right.is_active && !s.left.is_active);
    s.update(Action::SwitchPanel, 10);
    assert_eq!(s.active, Side::Left);
}

#[test]
fn enter_on_directory_loads_it() {
    let mut s = state();
    s.update(Action::NavDown, 10); // "docs" (".." first, then dirs)
    let fx = s.update(Action::NavEnter, 10);
    assert_eq!(fx, vec![Effect::LoadDir { path: "/home/me/docs".into(), side: Side::Left }]);
}

#[test]
fn enter_on_file_opens_it() {
    let mut s = state();
    s.update(Action::NavBottom, 10);
    let fx = s.update(Action::NavEnter, 10);
    assert_eq!(fx, vec![Effect::OpenWithOs { path: "/home/me/a.txt".into() }]);
}

#[test]
fn nav_parent_loads_parent() {
    let mut s = state();
    let fx = s.update(Action::NavParent, 10);
    assert_eq!(fx, vec![Effect::LoadDir { path: "/home".into(), side: Side::Left }]);
}

#[test]
fn sync_panel_dir_sends_other_panel_here() {
    let mut s = state();
    let fx = s.update(Action::SyncPanelDir, 10);
    assert_eq!(fx, vec![Effect::LoadDir { path: "/home/me".into(), side: Side::Right }]);
}

#[test]
fn copy_dialog_targets_other_panel() {
    let mut s = state();
    s.update(Action::NavBottom, 10);
    s.update(Action::Copy, 10);
    assert_eq!(s.mode, Mode::Dialog);
    match &s.dialog {
        Some(DialogState::Input { title, prompt, value, op }) => {
            assert_eq!(title, "Copy");
            assert_eq!(prompt, "Copy a.txt to:");
            assert_eq!(value, "/tmp");
            assert_eq!(
                op,
                &DeferredOp::Copy { sources: vec!["/home/me/a.txt".into()], active: Side::Left }
            );
        }
        other => panic!("unexpected dialog {other:?}"),
    }
    let fx = s.update(Action::DialogConfirm, 10);
    assert_eq!(
        fx,
        vec![Effect::CopyPaths {
            sources: vec!["/home/me/a.txt".into()],
            dest: "/tmp".into(),
            active: Side::Left,
            op_id: 0,
        }]
    );
    assert_eq!(s.mode, Mode::Normal);
    assert!(s.dialog.is_none());
    assert_eq!(s.next_op_id, 1);
}

#[test]
fn copy_on_dotdot_opens_nothing() {
    let mut s = state();
    s.update(Action::Copy, 10);
    assert!(s.dialog.is_none());
    assert_eq!(s.mode, Mode::Normal);
}

#[test]
fn delete_of_marked_files_asks_with_count() {
    let mut s = state();
    s.update(Action::ToggleMarkAll, 10);
    s.update(Action::Delete, 10);
    match &s.dialog {
        Some(DialogState::Confirm { title, message, .. }) => {
            assert_eq!(title, "Delete");
            assert_eq!(message, "Delete 2 items?");
        }
        other => panic!("unexpected dialog {other:?}"),
    }
    let fx = s.update(Action::DialogCancel, 10);
    assert!(fx.is_empty());
    assert!(s.dialog.is_none());
}

#[test]
fn delete_of_one_file_names_it() {
    let mut s = state();
    s.update(Action::NavBottom, 10);
    s.update(Action::Delete, 10);
    match &s.dialog {
        Some(DialogState::Confirm { message, .. }) => assert_eq!(message, "Delete 'a.txt'?"),
        other => panic!("unexpected dialog {other:?}"),
    }
}

#[test]
fn mkdir_dialog_trims_name() {
    let mut s = state();
    s.update(Action::Mkdir, 10);
    for c in "  new ".chars() {
        s.update(Action::DialogInputChar(c), 10);
    }
    let fx = s.update(Action::DialogConfirm, 10);
    assert_eq!(fx, vec![Effect::MakeDir { path: "/home/me/new".into(), active: Side::Left }]);
}

#[test]
fn nano_dialog_prefills_file_name() {
    let mut s = state();
    s.update(Action::NavBottom, 10);
    s.update(Action::View, 10);
    match &s.dialog {
        Some(DialogState::Input { prompt, value, .. }) => {
            assert_eq!(prompt, "File in /home/me:");
            assert_eq!(value, "a.txt");
        }
        other => panic!("unexpected dialog {other:?}"),
    }
    let fx = s.update(Action::DialogConfirm, 10);
    assert_eq!(
        fx,
        vec![Effect::Send(Action::ExecuteFile {
            cmd: "nano".into(),
            args: vec!["/home/me/a.txt".into()],
            reload: vec![],
        })]
    );
}

#[test]
fn recent_dirs_menu_without_dirs_is_an_error_line() {
    let mut s = state();
    s.update(Action::RecentDirs, 10);
    assert_eq!(
        s.last_error.as_deref(),
        Some("No recent directories — use F1 to navigate first")
    );
    assert!(s.dialog.is_none());
}

#[test]
fn quick_cd_round_trip() {
    let mut s = state();
    let fx = s.update(Action::QuickCd, 10);
    assert_eq!(fx, vec![Effect::ListQuickCdDirs { parent: "/home/me".into(), filter: "".into() }]);
    s.set_quick_cd_matches(vec!["zeta".into(), "Alpha".into(), "beta".into()], "");
    match &s.dialog {
        Some(DialogState::QuickCd { matches, .. }) => {
            assert_eq!(matches, &vec!["Alpha".to_owned(), "beta".to_owned(), "zeta".to_owned()])
        }
        other => panic!("unexpected dialog {other:?}"),
    }
    let fx = s.update(Action::QuickCdChar('b'), 10);
    assert_eq!(fx, vec![Effect::ListQuickCdDirs { parent: "/home/me".into(), filter: "b".into() }]);
    s.set_quick_cd_matches(vec!["zeta".into(), "Alpha".into(), "beta".into()], "b");
    let fx = s.update(Action::DialogConfirm, 10);
    assert_eq!(
        fx,
        vec![
            Effect::SaveRecentDirs { dirs: vec!["/home/me/beta".into()] },
            Effect::LoadDir { path: "/home/me/beta".into(), side: Side::Left },
        ]
    );
    assert_eq!(s.recent_dirs, vec!["/home/me/beta".to_owned()]);
}

#[test]
fn quick_cd_tilde_expands_home() {
    let mut s = state();
    s.update(Action::QuickCd, 10);
    let fx = s.update(Action::QuickCdChar('~'), 10);
    assert_eq!(fx, vec![Effect::ListQuickCdDirs { parent: "/home/me/".into(), filter: "".into() }]);
    match &s.dialog {
        Some(DialogState::QuickCd { input, .. }) => assert_eq!(input, "/home/me/"),
        other => panic!("unexpected dialog {other:?}"),
    }
}

#[test]
fn quick_cd_tab_completes_selection() {
    let mut s = state();
    s.update(Action::QuickCd, 10);
    for c in "/usr/lo".chars() {
        s.update(Action::QuickCdChar(c), 10);
    }
    s.set_quick_cd_matches(vec!["local".into(), "lib".into()], "lo");
    let fx = s.update(Action::QuickCdComplete, 10);
    assert_eq!(fx, vec![Effect::ListQuickCdDirs { parent: "/usr/local/".into(), filter: "".into() }]);
}

#[test]
fn op_completed_clears_cache_and_reloads() {
    let mut s = state();
    s.update(
        Action::DirSizeResult { side: Side::Left, panel_path: "/home/me".into(), name: "docs".into(), size: 7 },
        10,
    );
    assert_eq!(s.dir_size_cache.get("/home/me/docs"), Some(7));
    let fx = s.update(Action::OpCompleted(vec![Side::Right, Side::Left]), 10);
    assert_eq!(
        fx,
        vec![
            Effect::LoadDir { path: "/tmp".into(), side: Side::Right },
            Effect::LoadDir { path: "/home/me".into(), side: Side::Left },
        ]
    );
    assert!(s.dir_size_cache.is_empty());
}

#[test]
fn calc_sizes_uses_cache() {
    let mut s = state();
    s.update(
        Action::DirSizeResult { side: Side::Right, panel_path: "/home/me".into(), name: "docs".into(), size: 7 },
        10,
    );
    let fx = s.update(Action::CalcSizes, 10);
    assert!(fx.is_empty(), "the only directory is known already: {fx:?}");
    assert_eq!(s.left.dir_sizes.get("docs"), Some(7));
}

#[test]
fn calc_sizes_asks_for_unknown_dirs() {
    let mut s = state();
    let fx = s.update(Action::CalcSizes, 10);
    assert_eq!(
        fx,
        vec![Effect::ComputeDirSize {
            side: Side::Left,
            panel_path: "/home/me".into(),
            name: "docs".into(),
            path: "/home/me/docs".into(),
        }]
    );
}

#[test]
fn op_errors_open_error_list() {
    let mut s = state();
    s.update(Action::OpErrors(vec!["a".into(), "b".into()]), 10);
    match &s.dialog {
        Some(DialogState::ErrorList { title, errors, scroll }) => {
            assert_eq!(title, "2 error(s)");
            assert_eq!(errors.len(), 2);
            assert_eq!(*scroll, 0);
        }
        other => panic!("unexpected dialog {other:?}"),
    }
}

#[test]
fn progress_is_tracked_and_removed() {
    let mut s = state();
    s.update(Action::Progress { id: 3, label: "Copying…".into(), done: 0, total: 2 }, 10);
    s.update(Action::Progress { id: 3, label: "ignored".into(), done: 1, total: 2 }, 10);
    assert_eq!(s.ops.len(), 1);
    assert_eq!(s.ops[0].done, 1);
    assert_eq!(s.ops[0].label, "Copying…");
    s.update(Action::ProgressDone(3), 10);
    assert!(s.ops.is_empty());
}

#[test]
fn execute_file_is_pending() {
    let mut s = state();
    s.update(Action::ExecuteFile { cmd: "ls".into(), args: vec!["-l".into()], reload: vec![Side::Left] }, 10);
    assert_eq!(s.pending_command, Some(("ls".into(), vec!["-l".into()], vec![Side::Left])));
}

#[test]
fn git_mode_round_trip() {
    let mut s = state();
    let fx = s.update(Action::EnterGitMode, 10);
    assert_eq!(fx, vec![Effect::FindGitRoot { path: "/home/me".into() }]);
    let fx = s.on_git_root_found(Some("/home/me".into()));
    assert_eq!(
        fx,
        vec![
            Effect::LoadGitStatus { git_root: "/home/me".into() },
            Effect::StartGitWatcher { git_root: "/home/me".into() },
        ]
    );
    assert_eq!(s.mode, Mode::Git);
    s.update(
        Action::GitStatusLoaded {
            git_root: "/home/me".into(),
            branch: "main".into(),
            entries: vec![GitEntry { path: "a.rs".into(), index: None, worktree: Some(GitWorktreeStatus::Modified) }],
        },
        10,
    );
    let fx = s.update(Action::GitStage, 10);
    assert_eq!(fx, vec![Effect::GitStage { git_root: "/home/me".into(), paths: vec!["a.rs".into()] }]);
    let fx = s.update(Action::GitCommit, 10);
    assert!(fx.is_empty());
    assert_eq!(s.last_error.as_deref(), Some("Nothing staged to commit"));
    let fx = s.update(Action::ExitGitMode, 10);
    assert_eq!(
        fx,
        vec![
            Effect::StopGitWatcher,
            Effect::LoadDir { path: "/home/me".into(), side: Side::Left },
            Effect::LoadDir { path: "/tmp".into(), side: Side::Right },
        ]
    );
    assert_eq!(s.mode, Mode::Normal);
    assert!(s.git_view.is_none());
}

#[test]
fn git_root_not_found_changes_nothing() {
    let mut s = state();
    assert!(s.on_git_root_found(None).is_empty());
    assert_eq!(s.mode, Mode::Normal);
}

#[test]
fn commit_message_is_joined_and_checked() {
    let mut s = state();
    s.on_git_root_found(Some("/r".into()));
    s.update(Action::GitAddAllDone, 10);
    assert_eq!(s.mode, Mode::GitCommit);
    let fx = s.update(Action::GitCommitSubmit, 10);
    assert_eq!(fx, vec![Effect::CollectCommitMessage]);
    let fx = s.submit_git_commit(vec!["Fix".into(), "".into(), "body".into()]);
    assert_eq!(
        fx,
        vec![
            Effect::CloseCommitEditor,
            Effect::GitCommit { git_root: "/r".into(), message: "Fix\n\nbody".into() },
        ]
    );
    assert_eq!(s.mode, Mode::Git);
}

#[test]
fn blank_commit_message_is_refused() {
    let mut s = state();
    s.on_git_root_found(Some("/r".into()));
    s.update(Action::GitAddAllDone, 10);
    let fx = s.submit_git_commit(vec!["   ".into()]);
    assert_eq!(fx, vec![Effect::CloseCommitEditor]);
    assert_eq!(s.last_error.as_deref(), Some("Commit message is empty"));
}

#[test]
fn push_allocates_an_operation() {
    let mut s = state();
    s.on_git_root_found(Some("/r".into()));
    let fx = s.update(Action::GitPush, 10);
    assert_eq!(
        fx,
        vec![
            Effect::Send(Action::Progress { id: 0, label: "Pushing…".into(), done: 0, total: 0 }),
            Effect::GitPush { git_root: "/r".into(), op_id: 0 },
        ]
    );
    assert_eq!(s.next_op_id, 1);
}

#[test]
fn branch_picker_starts_on_current_and_checks_out() {
    let mut s = state();
    s.on_git_root_found(Some("/r".into()));
    let b = |name: &str, current: bool| BranchInfo {
        name: name.into(),
        is_local: true,
        is_current: current,
        remote_ref: None,
    };
    s.update(Action::GitBranchesLoaded { branches: vec![b("a", false), b("main", true), b("z", false)] }, 10);
    assert_eq!(s.mode, Mode::GitBranch);
    assert_eq!(s.branch_cursor, 1);
    s.update(Action::GitBranchNavDown, 10);
    s.update(Action::GitBranchNavDown, 10);
    assert_eq!(s.branch_cursor, 2);
    let fx = s.update(Action::GitBranchConfirm, 10);
    assert_eq!(fx, vec![Effect::GitCheckout { git_root: "/r".into(), branch: b("z", false) }]);
    assert_eq!(s.mode, Mode::Git);
    assert!(s.branch_list.is_empty());
}

#[test]
fn new_branch_dialog_stays_in_git_mode() {
    let mut s = state();
    s.on_git_root_found(Some("/r".into()));
    s.update(Action::GitNewBranch, 10);
    for c in " feat ".chars() {
        s.update(Action::DialogInputChar(c), 10);
    }
    let fx = s.update(Action::DialogConfirm, 10);
    assert_eq!(fx, vec![Effect::GitCreateBranch { git_root: "/r".into(), name: "feat".into() }]);
    assert_eq!(s.mode, Mode::Git);
}

#[test]
fn context_menu_lists_provider_items() {
    let mut s = state();
    s.update(Action::NavBottom, 10);
    let fx = s.update(Action::ContextMenu, 10);
    assert_eq!(fx, vec![Effect::PrepareContextMenu { entry_path: "/home/me/a.txt".into() }]);
    s.open_context_menu(false, vec![]);
    match &s.dialog {
        Some(DialogState::ContextMenu { title, items, selected }) => {
            assert_eq!(title, "Actions: a.txt");
            assert_eq!(*selected, 0);
            let labels: Vec<&str> = items.iter().map(|i| i.label.as_str()).collect();
            assert_eq!(labels, vec!["Open with OS (xdg-open)", "Run VS Code here", "Change owner… (now: me)"]);
        }
        other => panic!("unexpected dialog {other:?}"),
    }
    // The owner item opens the change-owner dialog.
    s.update(Action::DialogNavDown, 10);
    s.update(Action::DialogNavDown, 10);
    s.update(Action::DialogConfirm, 10);
    match &s.dialog {
        Some(DialogState::Input { title, prompt, value, .. }) => {
            assert_eq!(title, "Change Owner");
            assert_eq!(prompt, "New owner for 1 item(s)\n(current: me)\nFormat: user  or  user:group");
            assert_eq!(value, "me");
        }
        other => panic!("unexpected dialog {other:?}"),
    }
}

#[test]
fn menu_cd_loads_directory() {
    let mut s = state();
    let fx = s.execute_menu_action(MenuAction::CdTo("/etc".into()));
    assert_eq!(fx, vec![Effect::LoadDir { path: "/etc".into(), side: Side::Left }]);
}

#[test]
fn theme_menu_is_sorted_and_marks_current() {
    let mut s = state();
    s.show_theme_menu(vec![("b".into(), "Beta".into()), ("default".into(), "Alpha".into())]);
    match &s.dialog {
        Some(DialogState::ContextMenu { title, items, .. }) => {
            assert_eq!(title, "Select Theme");
            let labels: Vec<&str> = items.iter().map(|i| i.label.as_str()).collect();
            assert_eq!(labels, vec!["Alpha ✓", "Beta"]);
            assert_eq!(items[1].action, MenuAction::SetTheme("b".into()));
        }
        other => panic!("unexpected dialog {other:?}"),
    }
}

#[test]
fn keys_in_normal_mode() {
    let mut s = state();
    assert_eq!(s.on_key(plain(KeyCode::Down)), KeyOutcome::Send(Action::NavDown));
    assert_eq!(s.on_key(plain(KeyCode::F(5))), KeyOutcome::Send(Action::Copy));
    assert_eq!(s.on_key(key('x')), KeyOutcome::Send(Action::FilterChar('x')));
    // A second unbound key within the same tick is dropped.
    assert_eq!(s.on_key(key('y')), KeyOutcome::Ignore);
    s.update(Action::Tick, 10);
    assert_eq!(s.on_key(key('y')), KeyOutcome::Send(Action::FilterChar('y')));
    s.update(Action::Tick, 10);
    assert_eq!(s.on_key(plain(KeyCode::Esc)), KeyOutcome::Send(Action::FilterClear));
}

#[test]
fn ctrl_g_needs_a_repository() {
    let mut s = state();
    let ctrl_g = Key { code: KeyCode::Char('g'), ctrl: true, alt: false, shift: false };
    assert_eq!(s.on_key(ctrl_g), KeyOutcome::Ignore);
    s.update(
        Action::GitInfoLoaded { side: Side::Left, path: "/home/me".into(), branch: Some("main".into()), is_dirty: false },
        10,
    );
    assert_eq!(s.on_key(ctrl_g), KeyOutcome::Send(Action::EnterGitMode));
}

#[test]
fn keys_in_confirm_dialog() {
    let mut s = state();
    s.update(Action::NavBottom, 10);
    s.update(Action::Delete, 10);
    assert_eq!(s.on_key(key('y')), KeyOutcome::Send(Action::DialogConfirm));
    assert_eq!(s.on_key(key('N')), KeyOutcome::Send(Action::DialogCancel));
    assert_eq!(s.on_key(key('q')), KeyOutcome::Send(Action::DialogInputChar('q')));
}

#[test]
fn filter_char_clears_error_line() {
    let mut s = state();
    s.update(Action::Error("boom".into()), 10);
    assert_eq!(s.last_error.as_deref(), Some("boom"));
    s.update(Action::FilterChar('a'), 10);
    assert!(s.last_error.is_none());
    assert_eq!(s.left.filter, "a");
}

#[test]
fn theme_menu_lists_every_builtin_theme_and_marks_the_current_one() {
    let mut s = AppState::new("/w".into(), "/h".into(), "catppuccin-mocha".into(), vec![]);
    let _ = s.update(Action::SelectTheme, 10);
    match &s.dialog {
        Some(DialogState::ContextMenu { title, items, selected }) => {
            assert_eq!(title, "Select Theme");
            assert_eq!(*selected, 0);
            assert_eq!(items.len(), 39);
            assert_eq!(items[0].label, "Ayu Dark");
            assert!(items.iter().any(|i| i.label == "Catppuccin Mocha ✓"));
            assert!(items.iter().any(|i| i.action == MenuAction::SetTheme("nord".into())));
        }
        other => panic!("expected the theme menu, got {other:?}"),
    }
}

#[test]
fn choosing_a_theme_makes_it_current() {
    let mut s = AppState::new("/w".into(), "/h".into(), "catppuccin-mocha".into(), vec![]);
    let fx = s.execute_menu_action(MenuAction::SetTheme("nord".into()));
    assert_eq!(fx, vec![Effect::ApplyTheme { id: "nord".into() }]);
    assert_eq!(s.theme, "nord");
}

#[test]
fn size_cache_takes_spellings_of_one_path_as_one_key() {
    let mut s = state();
    s.update(
        Action::DirSizeResult { side: Side::Right, panel_path: "/home//me/".into(), name: "docs".into(), size: 9 },
        10,
    );
    assert_eq!(s.dir_size_cache.get("/home/me/docs"), Some(9));
    let fx = s.update(Action::CalcSizes, 10);
    assert!(fx.is_empty(), "the directory is known under another spelling: {fx:?}");
    assert_eq!(s.left.dir_sizes.get("docs"), Some(9));
}

#[test]
fn choosing_an_unknown_theme_changes_nothing() {
    let mut s = AppState::new("/w".into(), "/h".into(), "catppuccin-mocha".into(), vec![]);
    let fx = s.execute_menu_action(MenuAction::SetTheme("no-such-theme".into()));
    assert!(fx.is_empty());
    assert_eq!(s.theme, "catppuccin-mocha");
    let fx = s.execute_menu_action(MenuAction::SetTheme("default".into()));
    assert_eq!(fx, vec![Effect::ApplyTheme { id: "default".into() }]);
    assert_eq!(s.theme, "default");
}
