//! The F2 context menu: each provider looks at the entry under the cursor
//! and offers zero or more actions.
use vstd::prelude::*;
use crate::action::{EntryInfo, Side};
use crate::archive::{is_archive, is_archive_name};
use crate::dialog::{item_views, MenuAction, MenuActionView, MenuItem, MenuItemView};
use crate::names::string_views;
use crate::paths::{file_name, file_name_of};
use crate::text::{concat_str, decimal, decimal_string, trim, trimmed};

verus! {

/// Snapshot of panel state passed to each provider when building the menu.
pub struct MenuCtx {
    pub entry: EntryInfo,
    /// Path of the cursor entry (the panel directory joined with its name).
    pub entry_path: String,
    pub panel_dir: String,
    pub other_dir: String,
    pub active_side: Side,
    /// Marked files if any, otherwise just the cursor entry.
    pub effective_targets: Vec<String>,
    /// Whether the cursor entry is a regular file with an execute bit, as
    /// the host found it on disk.
    pub entry_is_executable: bool,
}

/// The snapshot with its strings taken as characters.
pub struct MenuCtxView {
    pub entry: EntryInfo,
    pub entry_path: Seq<char>,
    pub panel_dir: Seq<char>,
    pub other_dir: Seq<char>,
    pub active_side: Side,
    pub effective_targets: Seq<Seq<char>>,
    pub entry_is_executable: bool,
}

impl View for MenuCtx {
    type V = MenuCtxView;

    open spec fn view(&self) -> MenuCtxView {
        MenuCtxView {
            entry: self.entry,
            entry_path: self.entry_path@,
            panel_dir: self.panel_dir@,
            other_dir: self.other_dir@,
            active_side: self.active_side,
            effective_targets: string_views(self.effective_targets@),
            entry_is_executable: self.entry_is_executable,
        }
    }
}

/// Implement this to contribute items to the context menu.
pub trait ContextMenuProvider {
    fn items(&self, ctx: &MenuCtx) -> Vec<MenuItem>;
}

/// The file name of a path, or the empty text where it has none.
pub open spec fn name_or_empty(p: Seq<char>) -> Seq<char> {
    match file_name(p) {
        Some(n) => n,
        None => Seq::empty(),
    }
}

/// `file_name_of`, with the empty string where the path has no file name.
fn name_of(p: &str) -> (r: String)
    ensures
        r@ == name_or_empty(p@),
{
    match file_name_of(p) {
        Some(n) => n,
        None => String::new(),
    }
}

// --- Open with OS ---

/// Always offered: open with the desktop's handler, and start the editor
/// in the entry (a directory) or in the panel's directory.
pub struct OsOpenProvider;

pub open spec fn os_open_items(ctx: MenuCtxView) -> Seq<MenuItemView> {
    let code_dir = if ctx.entry.is_dir {
        ctx.entry_path
    } else {
        ctx.panel_dir
    };
    seq![
        MenuItemView {
            label: "Open with OS (xdg-open)"@,
            action: MenuActionView::OpenWithOs(ctx.entry_path),
        },
        MenuItemView { label: "Run VS Code here"@, action: MenuActionView::RunCodeHere(code_dir) },
    ]
}

impl ContextMenuProvider for OsOpenProvider {
    fn items(&self, ctx: &MenuCtx) -> (r: Vec<MenuItem>)
        ensures
            item_views(r@) == os_open_items(ctx@),
    {
        let code_dir = if ctx.entry.is_dir {
            ctx.entry_path.clone()
        } else {
            ctx.panel_dir.clone()
        };
        let mut v: Vec<MenuItem> = Vec::new();
        v.push(
            MenuItem::new(
                "Open with OS (xdg-open)".to_owned(),
                MenuAction::OpenWithOs(ctx.entry_path.clone()),
            ),
        );
        v.push(MenuItem::new("Run VS Code here".to_owned(), MenuAction::RunCodeHere(code_dir)));
        assert(item_views(v@) =~= os_open_items(ctx@));
        v
    }
}

// --- Archives ---

/// Offers to extract the archives among the targets here or into the other
/// panel's directory.
pub struct ArchiveProvider;

/// Whether a target's file name marks an archive.
pub open spec fn names_archive() -> spec_fn(Seq<char>) -> bool {
    |p: Seq<char>| is_archive_name(name_or_empty(p))
}

/// How the menu names the archives: the file name of a single one, else a count.
pub open spec fn archives_label(archives: Seq<Seq<char>>) -> Seq<char> {
    if archives.len() == 1 {
        name_or_empty(archives[0])
    } else {
        decimal(archives.len()) + " archives"@
    }
}

pub open spec fn archive_items(ctx: MenuCtxView) -> Seq<MenuItemView> {
    let archives = ctx.effective_targets.filter(names_archive());
    let label = archives_label(archives);
    if archives.len() == 0 {
        Seq::empty()
    } else {
        seq![
            MenuItemView {
                label: "Extract "@ + label + " here"@,
                action: MenuActionView::ExtractHere { archives, dest: ctx.panel_dir },
            },
            MenuItemView {
                label: "Extract "@ + label + " to → "@ + ctx.other_dir,
                action: MenuActionView::ExtractHere { archives, dest: ctx.other_dir },
            },
        ]
    }
}

/// The targets whose file names mark archives, in order.
fn archive_targets(targets: &Vec<String>) -> (r: Vec<String>)
    ensures
        string_views(r@) == string_views(targets@).filter(names_archive()),
{
    let ghost t = string_views(targets@);
    let mut out: Vec<String> = Vec::new();
    let mut i: usize = 0;
    while i < targets.len()
        invariant
            i <= targets@.len(),
            t == string_views(targets@),
            string_views(out@) == t.take(i as int).filter(names_archive()),
        decreases targets.len() - i,
    {
        let ghost before = string_views(out@);
        let name = name_of(targets[i].as_str());
        let keep = is_archive(name.as_str());
        if keep {
            out.push(targets[i].clone());
        }
        proof {
            assert(t.take(i + 1) =~= t.take(i as int).push(t[i as int]));
            t.take(i as int).lemma_filter_push(t[i as int], names_archive());
            if keep {
                assert(string_views(out@) =~= before.push(t[i as int]));
            } else {
                assert(string_views(out@) =~= before);
            }
        }
        i = i + 1;
    }
    assert(t.take(targets@.len() as int) =~= t);
    out
}

impl ContextMenuProvider for ArchiveProvider {
    fn items(&self, ctx: &MenuCtx) -> (r: Vec<MenuItem>)
        ensures
            item_views(r@) == archive_items(ctx@),
    {
        let archives = archive_targets(&ctx.effective_targets);
        let mut v: Vec<MenuItem> = Vec::new();
        if archives.len() == 0 {
            assert(item_views(v@) =~= archive_items(ctx@));
            return v;
        }
        let label = if archives.len() == 1 {
            name_of(archives[0].as_str())
        } else {
            concat_str(decimal_string(archives.len() as u64).as_str(), " archives")
        };
        let here = concat_str(concat_str("Extract ", label.as_str()).as_str(), " here");
        let there = concat_str(
            concat_str(concat_str("Extract ", label.as_str()).as_str(), " to → ").as_str(),
            ctx.other_dir.as_str(),
        );
        let copy = archives.clone();
        proof {
            assert(string_views(copy@) == string_views(archives@)) by {
                assert(string_views(copy@) =~= string_views(archives@));
            }
        }
        v.push(
            MenuItem::new(here, MenuAction::ExtractHere { archives: copy, dest: ctx.panel_dir.clone() }),
        );
        v.push(
            MenuItem::new(there, MenuAction::ExtractHere { archives, dest: ctx.other_dir.clone() }),
        );
        assert(item_views(v@) =~= archive_items(ctx@));
        v
    }
}

// --- Execute ---

/// Offers to run an executable file, asking for its arguments first.
pub struct ExecuteProvider;

pub open spec fn execute_items(ctx: MenuCtxView) -> Seq<MenuItemView> {
    if ctx.entry.is_dir || !ctx.entry_is_executable {
        Seq::empty()
    } else {
        seq![
            MenuItemView {
                label: "Execute…"@,
                action: MenuActionView::RequestExecute(ctx.entry_path),
            },
        ]
    }
}

impl ContextMenuProvider for ExecuteProvider {
    fn items(&self, ctx: &MenuCtx) -> (r: Vec<MenuItem>)
        ensures
            item_views(r@) == execute_items(ctx@),
    {
        let mut v: Vec<MenuItem> = Vec::new();
        if ctx.entry.is_dir || !ctx.entry_is_executable {
            assert(item_views(v@) =~= execute_items(ctx@));
            return v;
        }
        v.push(
            MenuItem::new("Execute…".to_owned(), MenuAction::RequestExecute(ctx.entry_path.clone())),
        );
        assert(item_views(v@) =~= execute_items(ctx@));
        v
    }
}

// --- Change owner ---

/// Offers to change the owner of the targets (through `sudo chown`).
pub struct ChownProvider;

pub open spec fn chown_items(ctx: MenuCtxView) -> Seq<MenuItemView> {
    seq![
        MenuItemView {
            label: "Change owner… (now: "@ + ctx.entry.owner@ + ")"@,
            action: MenuActionView::Chown {
                paths: ctx.effective_targets,
                current_owner: ctx.entry.owner@,
                reload_sides: seq![ctx.active_side],
            },
        },
    ]
}

/// A copy of a list of strings.
fn clone_strings(v: &Vec<String>) -> (r: Vec<String>)
    ensures
        string_views(r@) == string_views(v@),
{
    let mut out: Vec<String> = Vec::new();
    let mut i: usize = 0;
    while i < v.len()
        invariant
            i <= v@.len(),
            string_views(out@) == string_views(v@).take(i as int),
        decreases v.len() - i,
    {
        out.push(v[i].clone());
        assert(string_views(v@).take(i + 1) =~= string_views(v@).take(i as int).push(v@[i as int]@));
        assert(string_views(out@) =~= string_views(v@).take(i + 1));
        i = i + 1;
    }
    assert(string_views(v@).take(v@.len() as int) =~= string_views(v@));
    out
}

impl ContextMenuProvider for ChownProvider {
    fn items(&self, ctx: &MenuCtx) -> (r: Vec<MenuItem>)
        ensures
            item_views(r@) == chown_items(ctx@),
    {
        let label = concat_str(
            concat_str("Change owner… (now: ", ctx.entry.owner.as_str()).as_str(),
            ")",
        );
        let mut sides: Vec<Side> = Vec::new();
        sides.push(ctx.active_side);
        let mut v: Vec<MenuItem> = Vec::new();
        v.push(
            MenuItem::new(
                label,
                MenuAction::Chown {
                    paths: clone_strings(&ctx.effective_targets),
                    current_owner: ctx.entry.owner.clone(),
                    reload_sides: sides,
                },
            ),
        );
        assert(sides@ =~= seq![ctx.active_side]);
        assert(item_views(v@) =~= chown_items(ctx@));
        v
    }
}

// --- Removable devices ---

/// A removable block device as `lsblk` describes it.
#[derive(Debug, Clone, PartialEq, Eq)]
pub struct RemovableDev {
    pub name: String,
    pub size: Option<String>,
    pub fstype: Option<String>,
    pub label: Option<String>,
    pub model: Option<String>,
    pub mountpoint: Option<String>,
}

/// A device with its strings taken as characters.
pub struct DevView {
    pub name: Seq<char>,
    pub size: Option<Seq<char>>,
    pub fstype: Option<Seq<char>>,
    pub label: Option<Seq<char>>,
    pub model: Option<Seq<char>>,
    pub mountpoint: Option<Seq<char>>,
}

pub open spec fn opt_view(o: Option<String>) -> Option<Seq<char>> {
    match o {
        Some(s) => Some(s@),
        None => None,
    }
}

impl View for RemovableDev {
    type V = DevView;

    open spec fn view(&self) -> DevView {
        DevView {
            name: self.name@,
            size: opt_view(self.size),
            fstype: opt_view(self.fstype),
            label: opt_view(self.label),
            model: opt_view(self.model),
            mountpoint: opt_view(self.mountpoint),
        }
    }
}

pub open spec fn dev_views(v: Seq<RemovableDev>) -> Seq<DevView> {
    v.map_values(|d: RemovableDev| d@)
}

/// The present ones of a device's size, filesystem, label and model, in that order.
pub open spec fn label_parts(d: DevView) -> Seq<Seq<char>> {
    let a = match d.size {
        Some(s) => seq![s],
        None => Seq::empty(),
    };
    let b = match d.fstype {
        Some(s) => a.push(s),
        None => a,
    };
    let c = match d.label {
        Some(s) => b.push(s),
        None => b,
    };
    match d.model {
        Some(s) => c.push(s),
        None => c,
    }
}

/// The parts joined with `", "`.
pub open spec fn join_comma(parts: Seq<Seq<char>>) -> Seq<char>
    decreases parts.len(),
{
    if parts.len() == 0 {
        Seq::empty()
    } else if parts.len() == 1 {
        parts[0]
    } else {
        join_comma(parts.drop_last()) + ", "@ + parts.last()
    }
}

/// How the menu describes a device: its known details joined with commas,
/// or its name when none is known.
pub open spec fn human_label_of(d: DevView) -> Seq<char> {
    if label_parts(d).len() == 0 {
        d.name
    } else {
        join_comma(label_parts(d))
    }
}

impl RemovableDev {
    /// Size, filesystem, label and model, those that are known, joined with
    /// `", "`; the device name when none is.
    pub fn human_label(&self) -> (r: String)
        ensures
            r@ == human_label_of(self@),
    {
        let mut parts: Vec<&String> = Vec::new();
        if let Some(s) = &self.size {
            parts.push(s);
        }
        if let Some(fs) = &self.fstype {
            parts.push(fs);
        }
        if let Some(lbl) = &self.label {
            parts.push(lbl);
        }
        if let Some(model) = &self.model {
            parts.push(model);
        }
        let ghost ps = label_parts(self@);
        assert(parts@.map_values(|p: &String| p@) =~= ps);
        if parts.len() == 0 {
            return self.name.clone();
        }
        let mut out = parts[0].clone();
        let mut i: usize = 1;
        while i < parts.len()
            invariant
                1 <= i <= parts@.len(),
                parts@.map_values(|p: &String| p@) == ps,
                out@ == join_comma(ps.take(i as int)),
            decreases parts.len() - i,
        {
            proof {
                assert(ps.take(i + 1).drop_last() =~= ps.take(i as int));
                assert(ps.take(i + 1).last() == parts@[i as int]@);
            }
            out = concat_str(concat_str(out.as_str(), ", ").as_str(), parts[i].as_str());
            i = i + 1;
        }
        assert(ps.take(parts@.len() as int) =~= ps);
        out
    }
}

/// The menu entry for a device: unmount where it is mounted, mount where it
/// holds a filesystem, none otherwise.
pub open spec fn device_item(d: DevView) -> Option<MenuItemView> {
    match d.mountpoint {
        Some(mp) => Some(
            MenuItemView {
                label: "Unmount "@ + d.name + " — "@ + human_label_of(d) + " at "@ + mp,
                action: MenuActionView::UnmountDevice { device: d.name },
            },
        ),
        None => if d.fstype is Some {
            Some(
                MenuItemView {
                    label: "Mount "@ + d.name + " — "@ + human_label_of(d),
                    action: MenuActionView::MountDevice { device: d.name },
                },
            )
        } else {
            None
        },
    }
}

pub open spec fn device_items(devs: Seq<DevView>) -> Seq<MenuItemView>
    decreases devs.len(),
{
    if devs.len() == 0 {
        Seq::empty()
    } else {
        let rest = device_items(devs.drop_last());
        match device_item(devs.last()) {
            Some(it) => rest.push(it),
            None => rest,
        }
    }
}

/// Offers to mount or unmount the removable devices the host found.
pub struct DeviceProvider {
    pub devices: Vec<RemovableDev>,
}

impl ContextMenuProvider for DeviceProvider {
    fn items(&self, ctx: &MenuCtx) -> (r: Vec<MenuItem>)
        ensures
            item_views(r@) == device_items(dev_views(self.devices@)),
    {
        let ghost ds = dev_views(self.devices@);
        let mut v: Vec<MenuItem> = Vec::new();
        let mut i: usize = 0;
        while i < self.devices.len()
            invariant
                i <= self.devices@.len(),
                ds == dev_views(self.devices@),
                item_views(v@) == device_items(ds.take(i as int)),
            decreases self.devices.len() - i,
        {
            let dev = &self.devices[i];
            proof {
                assert(ds.take(i + 1).drop_last() =~= ds.take(i as int));
                assert(ds.take(i + 1).last() == dev@);
            }
            let ghost before = item_views(v@);
            match &dev.mountpoint {
                Some(mp) => {
                    let label = concat_str(
                        concat_str(
                            concat_str(
                                concat_str(concat_str("Unmount ", dev.name.as_str()).as_str(), " — ").as_str(),
                                dev.human_label().as_str(),
                            ).as_str(),
                            " at ",
                        ).as_str(),
                        mp.as_str(),
                    );
                    v.push(
                        MenuItem::new(label, MenuAction::UnmountDevice { device: dev.name.clone() }),
                    );
                    assert(item_views(v@) =~= before.push(device_item(dev@)->0));
                },
                None => {
                    if dev.fstype.is_some() {
                        let label = concat_str(
                            concat_str(concat_str("Mount ", dev.name.as_str()).as_str(), " — ").as_str(),
                            dev.human_label().as_str(),
                        );
                        v.push(
                            MenuItem::new(label, MenuAction::MountDevice { device: dev.name.clone() }),
                        );
                        assert(item_views(v@) =~= before.push(device_item(dev@)->0));
                    } else {
                        assert(item_views(v@) =~= before);
                    }
                },
            }
            i = i + 1;
        }
        assert(ds.take(self.devices@.len() as int) =~= ds);
        v
    }
}

/// The whole context menu: the providers' items in their display order
/// (open, archives, execute, owner, devices).
pub open spec fn menu_items_of(ctx: MenuCtxView, devices: Seq<DevView>) -> Seq<MenuItemView> {
    os_open_items(ctx) + archive_items(ctx) + execute_items(ctx) + chown_items(ctx)
        + device_items(devices)
}

/// The items every built-in provider offers for `ctx`, in display order.
pub fn builtin_menu_items(ctx: &MenuCtx, devices: &DeviceProvider) -> (r: Vec<MenuItem>)
    ensures
        item_views(r@) == menu_items_of(ctx@, dev_views(devices.devices@)),
{
    let mut all = OsOpenProvider.items(ctx);
    let mut a = ArchiveProvider.items(ctx);
    let mut e = ExecuteProvider.items(ctx);
    let mut c = ChownProvider.items(ctx);
    let mut d = devices.items(ctx);
    let ghost (v0, v1, v2, v3, v4) = (
        item_views(all@),
        item_views(a@),
        item_views(e@),
        item_views(c@),
        item_views(d@),
    );
    all.append(&mut a);
    all.append(&mut e);
    all.append(&mut c);
    all.append(&mut d);
    assert(item_views(all@) =~= v0 + v1 + v2 + v3 + v4);
    all
}

// --- lsblk output ---

/// One node of `lsblk -J` output, with the fields the menu reads, as they
/// appear in the JSON (a field is `None` where it is absent or not of the
/// expected JSON type).
#[derive(Debug)]
pub struct DevNode {
    /// `hotplug` when it is a JSON boolean.
    pub hotplug_flag: Option<bool>,
    /// `hotplug` when it is a JSON string.
    pub hotplug_text: Option<String>,
    /// `type`
    pub kind: Option<String>,
    pub name: Option<String>,
    pub size: Option<String>,
    pub fstype: Option<String>,
    pub label: Option<String>,
    pub model: Option<String>,
    pub mountpoint: Option<String>,
    /// `children` when it is a JSON array.
    pub children: Option<Vec<DevNode>>,
}

/// A present, non-empty string field.
pub open spec fn nonempty(o: Option<String>) -> Option<Seq<char>> {
    match o {
        Some(s) => if s@.len() > 0 {
            Some(s@)
        } else {
            None
        },
        None => None,
    }
}

pub open spec fn is_hotplug(n: DevNode) -> bool {
    (n.hotplug_flag == Some(true)) || (n.hotplug_text matches Some(t) && t@ == "1"@)
}

pub open spec fn kind_of_node(n: DevNode) -> Seq<char> {
    match n.kind {
        Some(k) => k@,
        None => Seq::empty(),
    }
}

/// The node's own model (trimmed, when not blank), else the one inherited.
pub open spec fn node_model(n: DevNode, parent_model: Option<Seq<char>>) -> Option<Seq<char>> {
    match n.model {
        Some(m) => if trimmed(m@).len() > 0 {
            Some(trimmed(m@))
        } else {
            parent_model
        },
        None => parent_model,
    }
}

/// Whether the node itself is listed: a hot-pluggable partition, or a
/// hot-pluggable disk that holds a filesystem directly.
pub open spec fn node_listed(n: DevNode) -> bool {
    is_hotplug(n) && (kind_of_node(n) == "part"@ || (kind_of_node(n) == "disk"@ && nonempty(
        n.fstype,
    ) is Some))
}

pub open spec fn node_dev(n: DevNode, parent_model: Option<Seq<char>>) -> DevView {
    DevView {
        name: match n.name {
            Some(s) => s@,
            None => Seq::empty(),
        },
        size: nonempty(n.size),
        fstype: nonempty(n.fstype),
        label: nonempty(n.label),
        model: node_model(n, parent_model),
        mountpoint: nonempty(n.mountpoint),
    }
}

/// The removable devices under a node: the node itself when listed,
/// otherwise those under its children, in order.
pub open spec fn removable_under(n: DevNode, parent_model: Option<Seq<char>>) -> Seq<DevView>
    decreases n, 1nat,
{
    if node_listed(n) {
        seq![node_dev(n, parent_model)]
    } else {
        match n.children {
            Some(cs) => removable_in(cs@, node_model(n, parent_model)),
            None => Seq::empty(),
        }
    }
}

pub open spec fn removable_in(nodes: Seq<DevNode>, parent_model: Option<Seq<char>>) -> Seq<DevView>
    decreases nodes, 0nat,
{
    if nodes.len() == 0 {
        Seq::empty()
    } else {
        removable_in(nodes.drop_last(), parent_model) + removable_under(nodes.last(), parent_model)
    }
}

fn eq_lit(s: &String, lit: &str) -> (r: bool)
    ensures
        r == (s@ == lit@),
{
    crate::text::str_eq(s.as_str(), lit)
}

fn nonempty_copy(o: &Option<String>) -> (r: Option<String>)
    ensures
        opt_view(r) == nonempty(*o),
{
    match o {
        Some(s) => if s.as_str().unicode_len() > 0 {
            Some(s.clone())
        } else {
            None
        },
        None => None,
    }
}

/// Collects the removable devices under `node` into `out`.
pub fn collect_removable(node: &DevNode, out: &mut Vec<RemovableDev>, parent_model: Option<String>)
    ensures
        dev_views(final(out)@) == dev_views(old(out)@) + removable_under(
            *node,
            opt_view(parent_model),
        ),
    decreases *node,
{
    let hotplug = match node.hotplug_flag {
        Some(b) => b,
        None => false,
    } || match &node.hotplug_text {
        Some(t) => eq_lit(t, "1"),
        None => false,
    };
    let kind: &str = match &node.kind {
        Some(k) => k.as_str(),
        None => "",
    };
    proof {
        reveal_strlit("");
        assert(kind@ == kind_of_node(*node));
    }
    let is_part = crate::text::str_eq(kind, "part");
    let is_disk = crate::text::str_eq(kind, "disk");
    let model: Option<String> = match &node.model {
        Some(m) => {
            let t = trim(m.as_str());
            if t.as_str().unicode_len() > 0 {
                Some(t)
            } else {
                parent_model
            }
        },
        None => parent_model,
    };
    let ghost pm = opt_view(parent_model);
    assert(opt_view(model) == node_model(*node, pm));
    if hotplug && (is_part || is_disk) {
        let fstype = nonempty_copy(&node.fstype);
        if fstype.is_some() || is_part {
            let ghost before = dev_views(out@);
            let dev = RemovableDev {
                name: match &node.name {
                    Some(s) => s.clone(),
                    None => String::new(),
                },
                size: nonempty_copy(&node.size),
                fstype,
                label: nonempty_copy(&node.label),
                model,
                mountpoint: nonempty_copy(&node.mountpoint),
            };
            out.push(dev);
            assert(dev_views(out@) =~= before + seq![node_dev(*node, pm)]);
            return;
        }
    }
    match &node.children {
        Some(children) => {
            let ghost cs = children@;
            let ghost before = dev_views(out@);
            let ghost mm = opt_view(model);
            let mut i: usize = 0;
            while i < children.len()
                invariant
                    i <= cs.len(),
                    cs == children@,
                    node.children == Some(*children),
                    mm == opt_view(model),
                    dev_views(out@) == before + removable_in(cs.take(i as int), mm),
                decreases children.len() - i,
            {
                proof {
                    assert(cs.take(i + 1).drop_last() =~= cs.take(i as int));
                    assert(cs.take(i + 1).last() == cs[i as int]);
                    assert(decreases_to!(*node => node.children));
                    assert(decreases_to!(node.children => node.children->0));
                    assert(decreases_to!(*children => children@));
                    assert(decreases_to!(children@ => children@[i as int]));
                    assert(decreases_to!(*node => children@[i as int]));
                }
                let m2 = match &model {
                    Some(m) => Some(m.clone()),
                    None => None,
                };
                collect_removable(&children[i], out, m2);
                proof {
                    assert(before + removable_in(cs.take(i + 1), mm) =~= before + removable_in(
                        cs.take(i as int),
                        mm,
                    ) + removable_under(cs[i as int], mm));
                }
                i = i + 1;
            }
            assert(cs.take(cs.len() as int) =~= cs);
        },
        None => {
            assert(dev_views(out@) =~= dev_views(out@) + Seq::<DevView>::empty());
        },
    }
}

/// The removable devices among the top-level block devices of `lsblk`; each
/// inherits its own trimmed model as the default for its partitions.
pub fn removable_devices(roots: &Vec<DevNode>) -> (r: Vec<RemovableDev>)
    ensures
        dev_views(r@) == roots_removable(roots@),
{
    let mut out: Vec<RemovableDev> = Vec::new();
    let mut i: usize = 0;
    while i < roots.len()
        invariant
            i <= roots@.len(),
            dev_views(out@) == roots_removable(roots@.take(i as int)),
        decreases roots.len() - i,
    {
        let pm = match &roots[i].model {
            Some(m) => Some(trim(m.as_str())),
            None => None,
        };
        collect_removable(&roots[i], &mut out, pm);
        proof {
            assert(roots@.take(i + 1).drop_last() =~= roots@.take(i as int));
        }
        i = i + 1;
    }
    assert(roots@.take(roots@.len() as int) =~= roots@);
    out
}

/// The model a top-level device passes down: its own, trimmed.
pub open spec fn root_model(n: DevNode) -> Option<Seq<char>> {
    match n.model {
        Some(m) => Some(trimmed(m@)),
        None => None,
    }
}

pub open spec fn roots_removable(roots: Seq<DevNode>) -> Seq<DevView>
    decreases roots.len(),
{
    if roots.len() == 0 {
        Seq::empty()
    } else {
        roots_removable(roots.drop_last()) + removable_under(roots.last(), root_model(roots.last()))
    }
}

} // verus!
