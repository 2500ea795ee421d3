use crabmander::action::{Action, BranchInfo, EntryInfo, GitIndexStatus, GitWorktreeStatus, Side};
use crabmander::batch::{
    both_sides, checkout_source, device_path, finish_batch, finish_delete, finish_mkdir,
    git_result, head_branch_name, item_error, joined_args, move_error, pull_step, push_refspec,
    PullStep,
};
use crabmander::context_menu::{
    builtin_menu_items, collect_removable, removable_devices, ArchiveProvider, ContextMenuProvider,
    DevNode, DeviceProvider, ExecuteProvider, MenuCtx, RemovableDev,
};
use crabmander::dialog::{chown_command, DeferredOp, MenuAction};
use crabmander::effect::Effect;
use crabmander::format::format_age_at;
use crabmander::paths::{file_name_of, join_path, normalize_path, paths_equal};
use crabmander::quick_cd::{
    filter_sort_dir_names, quick_cd_complete, quick_cd_destination, quick_cd_expand,
    quick_cd_parse_input,
};
use crabmander::render::{
    branch_label, centered_rect, display_name, git_suffix, header_labels, page_height,
    panel_title, progress_text, scroll_offset, size_cell, status_left_text, status_right_text,
    Area, SizeCell, StatusTotal,
};
use crabmander::panel::{SortMode, SortOrder};
use crabmander::text::{split_whitespace, trim};

fn entry(name: &str, is_dir: bool, size: u64) -> EntryInfo {
    EntryInfo { name: name.into(), is_dir, is_symlink: false, size, modified: 0, nlink: 1, owner: "root".into() }
}

fn ctx(entry: EntryInfo, targets: Vec<&str>) -> MenuCtx {
    MenuCtx {
        entry_path: join_path("/d", &entry.name),
        entry,
        panel_dir: "/d".into(),
        other_dir: "/o".into(),
        active_side: Side::Right,
        effective_targets: targets.into_iter().map(String::from).collect(),
        entry_is_executable: false,
    }
}

fn node(name: &str, kind: &str) -> DevNode {
    DevNode {
        hotplug_flag: None,
        hotplug_text: None,
        kind: Some(kind.into()),
        name: Some(name.into()),
        size: None,
        fstype: None,
        label: None,
        model: None,
        mountpoint: None,
        children: None,
    }
}

// --- format ---

#[test]
fn format_age_exact_columns() {
    assert_eq!(format_age_at(0, 5), "         ");
    assert_eq!(format_age_at(1000, 1000 + 120), "    2m ago");
    assert_eq!(format_age_at(1000, 1000 + 3 * 3600), "    3h ago");
    assert_eq!(format_age_at(1000, 1000 + 6 * 86400), "     6d ago");
    assert_eq!(format_age_at(1000, 1000 + 2 * 31_536_000), "     2y ago");
    // A time in the future counts as just now.
    assert_eq!(format_age_at(5000, 1000), "    0m ago");
}

// --- text and paths ---

#[test]
fn trim_and_split() {
    assert_eq!(trim("  a b \t"), "a b");
    assert_eq!(split_whitespace("  -l  -a x "), vec!["-l".to_owned(), "-a".into(), "x".into()]);
}

#[test]
fn join_and_file_names() {
    assert_eq!(join_path("/a", "b"), "/a/b");
    assert_eq!(join_path("/a/", "b"), "/a/b");
    assert_eq!(join_path("/a", "/b"), "/b");
    assert_eq!(file_name_of("/a/b.txt"), Some("b.txt".into()));
    assert_eq!(file_name_of("/a/b/"), Some("b".into()));
    assert_eq!(file_name_of("/a/.."), None);
    assert_eq!(file_name_of("/"), None);
}

// --- deferred operations ---

#[test]
fn deferred_ops_make_effects() {
    let op = DeferredOp::Move { sources: vec!["/a".into()], active: Side::Left };
    assert_eq!(
        op.execute(4, "/dest".into()),
        Some(Effect::MovePaths { sources: vec!["/a".into()], dest: "/dest".into(), active: Side::Left, op_id: 4 })
    );
    assert_eq!(DeferredOp::OpenInNano { base: "/b".into() }.execute(0, String::new()), None);
    assert_eq!(
        DeferredOp::Chown { paths: vec!["/a".into()], reload_sides: vec![Side::Left] }.execute(0, String::new()),
        None
    );
    assert_eq!(
        DeferredOp::Execute { path: "/bin/x".into() }.execute(0, " -v  y ".into()),
        Some(Effect::Send(Action::ExecuteFile { cmd: "/bin/x".into(), args: vec!["-v".into(), "y".into()], reload: vec![] }))
    );
    assert_eq!(DeferredOp::GitCreateBranch { git_root: "/r".into() }.execute(0, "   ".into()), None);
    assert!(DeferredOp::GitCreateBranch { git_root: "/r".into() }.stays_in_git_mode());
    assert!(!DeferredOp::Execute { path: "/x".into() }.stays_in_git_mode());
}

#[test]
fn chown_command_adds_recursion_for_directories() {
    let paths = vec!["/a".to_owned(), "/b".to_owned()];
    assert_eq!(
        chown_command("me:me".into(), &paths, true, vec![Side::Right]),
        Action::ExecuteFile {
            cmd: "sudo".into(),
            args: vec!["chown".into(), "-R".into(), "me:me".into(), "/a".into(), "/b".into()],
            reload: vec![Side::Right],
        }
    );
    assert_eq!(
        chown_command("me".into(), &paths, false, vec![]),
        Action::ExecuteFile {
            cmd: "sudo".into(),
            args: vec!["chown".into(), "me".into(), "/a".into(), "/b".into()],
            reload: vec![],
        }
    );
}

// --- context menu ---

#[test]
fn archive_provider_offers_extraction() {
    let c = ctx(entry("x.zip", false, 1), vec!["/d/x.zip", "/d/notes.txt"]);
    let items = ArchiveProvider.items(&c);
    assert_eq!(items.len(), 2);
    assert_eq!(items[0].label, "Extract x.zip here");
    assert_eq!(items[1].label, "Extract x.zip to → /o");
    assert_eq!(items[0].action, MenuAction::ExtractHere { archives: vec!["/d/x.zip".into()], dest: "/d".into() });
    let two = ctx(entry("x.zip", false, 1), vec!["/d/x.zip", "/d/y.TAR.GZ"]);
    assert_eq!(ArchiveProvider.items(&two)[0].label, "Extract 2 archives here");
    let none = ctx(entry("n.txt", false, 1), vec!["/d/n.txt"]);
    assert!(ArchiveProvider.items(&none).is_empty());
}

#[test]
fn execute_provider_needs_an_executable_file() {
    let mut c = ctx(entry("run.sh", false, 1), vec!["/d/run.sh"]);
    assert!(ExecuteProvider.items(&c).is_empty());
    c.entry_is_executable = true;
    let items = ExecuteProvider.items(&c);
    assert_eq!(items[0].label, "Execute…");
    assert_eq!(items[0].action, MenuAction::RequestExecute("/d/run.sh".into()));
}

#[test]
fn device_items_and_labels() {
    let mounted = RemovableDev {
        name: "sdb1".into(),
        size: Some("8G".into()),
        fstype: Some("vfat".into()),
        label: None,
        model: Some("Stick".into()),
        mountpoint: Some("/media/s".into()),
    };
    assert_eq!(mounted.human_label(), "8G, vfat, Stick");
    let bare = RemovableDev { name: "sdc".into(), size: None, fstype: Some("ext4".into()), label: None, model: None, mountpoint: None };
    assert_eq!(bare.human_label(), "ext4");
    let nothing = RemovableDev { name: "sdd".into(), size: None, fstype: None, label: None, model: None, mountpoint: None };
    assert_eq!(nothing.human_label(), "sdd");
    let p = DeviceProvider { devices: vec![mounted, bare, nothing] };
    let items = p.items(&ctx(entry("a", false, 0), vec!["/d/a"]));
    assert_eq!(items.len(), 2);
    assert_eq!(items[0].label, "Unmount sdb1 — 8G, vfat, Stick at /media/s");
    assert_eq!(items[0].action, MenuAction::UnmountDevice { device: "sdb1".into() });
    assert_eq!(items[1].label, "Mount sdc — ext4");
}

#[test]
fn removable_devices_walk_the_tree() {
    let mut disk = node("sdb", "disk");
    disk.hotplug_flag = Some(true);
    disk.model = Some("  Cruzer  ".into());
    let mut part = node("sdb1", "part");
    part.hotplug_text = Some("1".into());
    part.fstype = Some("".into());
    part.size = Some("4G".into());
    disk.children = Some(vec![part]);
    let mut fixed = node("sda", "disk");
    fixed.children = Some(vec![node("sda1", "part")]);
    let devs = removable_devices(&vec![disk, fixed]);
    assert_eq!(devs.len(), 1);
    assert_eq!(devs[0].name, "sdb1");
    assert_eq!(devs[0].model.as_deref(), Some("Cruzer"));
    assert_eq!(devs[0].fstype, None);
    assert_eq!(devs[0].size.as_deref(), Some("4G"));
    let mut out = Vec::new();
    let mut whole = node("sdc", "disk");
    whole.hotplug_flag = Some(true);
    whole.fstype = Some("exfat".into());
    collect_removable(&whole, &mut out, None);
    assert_eq!(out.len(), 1);
    assert_eq!(out[0].name, "sdc");
}

#[test]
fn builtin_items_come_in_provider_order() {
    let mut c = ctx(entry("t.tgz", false, 1), vec!["/d/t.tgz"]);
    c.entry_is_executable = true;
    let items = builtin_menu_items(&c, &DeviceProvider { devices: vec![] });
    let labels: Vec<&str> = items.iter().map(|i| i.label.as_str()).collect();
    assert_eq!(
        labels,
        vec![
            "Open with OS (xdg-open)",
            "Run VS Code here",
            "Extract t.tgz here",
            "Extract t.tgz to → /o",
            "Execute…",
            "Change owner… (now: root)",
        ]
    );
    assert_eq!(
        items[5].action,
        MenuAction::Chown { paths: vec!["/d/t.tgz".into()], current_owner: "root".into(), reload_sides: vec![Side::Right] }
    );
}

// --- quick cd ---

#[test]
fn quick_cd_parsing() {
    assert_eq!(quick_cd_expand("~/pro", "/home/u"), "/home/u/pro");
    assert_eq!(quick_cd_expand("a~", "/home/u"), "a~");
    assert_eq!(quick_cd_parse_input("doc", "/base", "/h"), ("/base".into(), "doc".into()));
    assert_eq!(quick_cd_parse_input("~/pro", "/base", "/h"), ("/h/".into(), "pro".into()));
    assert_eq!(quick_cd_parse_input("/usr/lo", "/base", "/h"), ("/usr/".into(), "lo".into()));
    assert_eq!(quick_cd_parse_input("sub/x", "/base", "/h"), ("/base/sub/".into(), "x".into()));
}

#[test]
fn quick_cd_destinations() {
    let m = vec!["one".to_owned(), "two".to_owned()];
    assert_eq!(quick_cd_destination("/usr/", &m, 1, "/b", "/h"), "/usr/two");
    assert_eq!(quick_cd_destination("/usr/", &m, 9, "/b", "/h"), "/usr/two");
    assert_eq!(quick_cd_destination("/opt/x", &vec![], 0, "/b", "/h"), "/opt/x");
    assert_eq!(quick_cd_destination("rel", &vec![], 0, "/b", "/h"), "/b/rel");
    assert_eq!(quick_cd_complete("/usr/lo", &m, 0), Some("/usr/one/".into()));
    assert_eq!(quick_cd_complete("lo", &m, 1), Some("two/".into()));
    assert_eq!(quick_cd_complete("lo", &m, 2), None);
}

#[test]
fn quick_cd_listing_filters_and_sorts() {
    let names = vec!["Docs".to_owned(), "bin".into(), "docker".into(), "Apps".into()];
    assert_eq!(filter_sort_dir_names(&names, "DOC"), vec!["docker".to_owned(), "Docs".into()]);
    assert_eq!(
        filter_sort_dir_names(&names, ""),
        vec!["Apps".to_owned(), "bin".into(), "docker".into(), "Docs".into()]
    );
}

// --- batch ---

#[test]
fn batch_endings() {
    assert_eq!(
        finish_batch(7, 1, vec!["e".into()], both_sides(Side::Left)),
        vec![
            Action::ProgressDone(7),
            Action::OpCompleted(vec![Side::Left, Side::Right]),
            Action::OpErrors(vec!["e".into()]),
        ]
    );
    assert_eq!(finish_batch(7, 0, vec![], vec![Side::Left]), vec![Action::ProgressDone(7)]);
    assert_eq!(
        finish_delete(1, Some("gone".into()), Side::Right),
        vec![Action::ProgressDone(1), Action::OpError("gone".into())]
    );
    assert_eq!(finish_delete(1, None, Side::Right), vec![Action::ProgressDone(1), Action::OpCompleted(vec![Side::Right])]);
    assert_eq!(finish_mkdir(None, Side::Left), Action::OpCompleted(vec![Side::Left]));
    assert_eq!(git_result(Ok(())), Action::GitOpCompleted);
    assert_eq!(git_result(Err("x".into())), Action::OpError("x".into()));
}

#[test]
fn batch_texts() {
    assert_eq!(item_error("/a", "denied"), "/a: denied");
    assert_eq!(move_error("/a", "x", true), "/a: cannot move across filesystems (use Copy then Delete)");
    assert_eq!(move_error("/a", "x", false), "/a: x");
    assert_eq!(push_refspec("dev"), "refs/heads/dev:refs/heads/dev");
    assert_eq!(device_path("sdb1"), "/dev/sdb1");
    assert_eq!(head_branch_name(None), "main");
    assert_eq!(joined_args(&vec!["a".into(), "b c".into()]), "a b c");
    let remote = BranchInfo { name: "f".into(), is_local: false, is_current: false, remote_ref: None };
    assert_eq!(checkout_source(&remote), "origin/f");
    assert_eq!(pull_step(false, true), PullStep::FastForward);
    assert_eq!(pull_step(false, false), PullStep::NeedsMerge);
}

// --- render ---

#[test]
fn panel_rendering_helpers() {
    assert_eq!(scroll_offset(5, 0, 3), 3);
    assert_eq!(scroll_offset(1, 4, 3), 1);
    assert_eq!(scroll_offset(4, 3, 3), 3);
    assert_eq!(git_suffix(&Some("main".into()), true), " [main*]");
    assert_eq!(panel_title("/home/user", &None, false, 30), " /home/user ");
    assert_eq!(panel_title("/home/tommie/projects", &Some("dev".into()), false, 20), " /h/t/projects [dev] ");
    assert_eq!(
        header_labels(SortMode::Size, SortOrder::Desc),
        ("Name".into(), "Size↓".into(), "Date".into(), "Owner".into())
    );
    assert_eq!(display_name(&entry("d", true, 0), true), "*d/");
    assert_eq!(display_name(&entry("..", true, 0), false), " ..");
    assert_eq!(size_cell(&entry("d", true, 0), None, true), SizeCell::Pending);
    assert_eq!(size_cell(&entry("f", false, 9), None, true), SizeCell::Bytes(9));
    assert_eq!(status_left_text(Some(&entry("f", false, 9))), " f  9 bytes");
    assert_eq!(status_right_text(StatusTotal::Total { bytes: 1, approx: true }, "1 B"), "~total 1 B ");
    assert_eq!(status_right_text(StatusTotal::Marked { count: 2, bytes: 1 }, "1 B"), "2 marked (1 B) ");
    assert_eq!(page_height(24), 19);
    assert_eq!(page_height(3), 1);
}

#[test]
fn popup_and_progress_helpers() {
    let r = centered_rect(60, 50, Area { x: 0, y: 0, width: 100, height: 40 });
    assert_eq!(r, Area { x: 20, y: 10, width: 60, height: 20 });
    assert_eq!(progress_text("Copying…", 1, 2, 30), format!("Copying…  50% {}{}", "█".repeat(6), "░".repeat(7)));
    assert_eq!(progress_text("Pushing…", 0, 0, 30), "Pushing…");
    let b = BranchInfo { name: "main".into(), is_local: true, is_current: true, remote_ref: None };
    assert_eq!(branch_label(&b), " > [local ] main");
    let _ = (GitIndexStatus::Added, GitWorktreeStatus::Untracked);
}

#[test]
fn listing_gets_a_parent_entry_below_the_root() {
    let raw = vec![entry("b.txt", false, 3), entry("Adir", true, 0), entry("a.txt", false, 1)];
    let listed = crabmander::listing::prepare_listing("/home/user", raw.clone());
    let names: Vec<&str> = listed.iter().map(|e| e.name.as_str()).collect();
    assert_eq!(names, vec!["..", "Adir", "a.txt", "b.txt"]);
    assert!(listed[0].is_dir);

    let at_root = crabmander::listing::prepare_listing("/", raw);
    let names: Vec<&str> = at_root.iter().map(|e| e.name.as_str()).collect();
    assert_eq!(names, vec!["Adir", "a.txt", "b.txt"]);
}

#[test]
fn function_bar_lists_the_keys_of_each_mode() {
    let normal = crabmander::render::function_keys(false);
    assert_eq!(normal.len(), 11);
    assert_eq!(normal[0], ("F1".to_string(), "QuickCD".to_string()));
    assert_eq!(normal[10], ("F11".to_string(), "Theme".to_string()));
    let git = crabmander::render::function_keys(true);
    assert_eq!(git.len(), 8);
    assert_eq!(git[5], ("Tab".to_string(), "Pane".to_string()));
    assert_eq!(git[7], ("Esc".to_string(), "Normal".to_string()));
}

#[test]
fn paths_compare_by_components() {
    assert!(paths_equal("/tmp/test/", "/tmp/test"));
    assert!(paths_equal("/tmp//test/./", "/tmp/test"));
    assert!(paths_equal("a/./b", "a/b"));
    assert!(!paths_equal("./a", "a"));
    assert!(!paths_equal("/a", "a"));
    assert!(!paths_equal("/a/b", "/a/c"));
    assert!(paths_equal(".", "./"));
}

#[test]
fn shown_branch_falls_back_to_head() {
    assert_eq!(crabmander::batch::shown_branch_name(None), "HEAD");
    assert_eq!(crabmander::batch::shown_branch_name(Some("dev".into())), "dev");
    assert_eq!(head_branch_name(None), "main");
}

#[test]
fn paths_are_written_from_their_components() {
    assert_eq!(normalize_path("/tmp//x/./a/"), "/tmp/x/a");
    assert_eq!(normalize_path("/tmp/x/a"), "/tmp/x/a");
    assert_eq!(normalize_path("./a//b"), "./a/b");
    assert_eq!(normalize_path("a/b/."), "a/b");
    assert_eq!(normalize_path("/"), "/");
    assert_ne!(normalize_path("./a"), normalize_path("a"));
}
