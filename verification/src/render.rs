//! What the screen shows, decided apart from drawing it: titles, labels,
//! column texts, scroll offsets, popup geometry and progress bars.
use vstd::prelude::*;
use crate::action::{BranchInfo, EntryInfo, GitIndexStatus, GitWorktreeStatus};
use crate::app_state::pair_views;
use crate::format::{byte_len, condense_path, condensed};
use crate::panel::{SortMode, SortOrder};
use crate::text::{concat_str, decimal, decimal_string, dotdot, is_dotdot, pad_left, pad_left_string, push_char};

verus! {

/// A rectangle of terminal cells.
#[derive(Debug, Clone, Copy, PartialEq, Eq, Structural)]
pub struct Area {
    pub x: u16,
    pub y: u16,
    pub width: u16,
    pub height: u16,
}

// --- Scrolling ---

/// The first visible row after scrolling just enough to show the cursor.
pub open spec fn scrolled(cursor: nat, offset: nat, visible: nat) -> nat {
    if cursor < offset {
        cursor
    } else if visible > 0 && cursor >= offset + visible {
        (cursor + 1 - visible) as nat
    } else {
        offset
    }
}

pub fn scroll_offset(cursor: usize, offset: usize, visible: usize) -> (r: usize)
    ensures
        r == scrolled(cursor as nat, offset as nat, visible as nat),
{
    if cursor < offset {
        cursor
    } else if visible > 0 && cursor - offset >= visible {
        cursor - visible + 1
    } else {
        offset
    }
}

/// After scrolling, the cursor's row is on screen whenever a row is.
pub proof fn law_scroll_shows_cursor(cursor: nat, offset: nat, visible: nat)
    requires
        visible > 0,
    ensures
        scrolled(cursor, offset, visible) <= cursor < scrolled(cursor, offset, visible) + visible,
        offset <= cursor < offset + visible ==> scrolled(cursor, offset, visible) == offset,
{
}

// --- Panel ---

/// ` [branch]`, with a `*` when the work tree is dirty; nothing outside git.
pub open spec fn git_suffix_text(branch: Option<Seq<char>>, dirty: bool) -> Seq<char> {
    match branch {
        Some(b) => if dirty {
            " ["@ + b + "*]"@
        } else {
            " ["@ + b + "]"@
        },
        None => Seq::empty(),
    }
}

pub fn git_suffix(branch: &Option<String>, dirty: bool) -> (r: String)
    ensures
        r@ == git_suffix_text(crate::git_data::opt_view(*branch), dirty),
{
    match branch {
        Some(b) => if dirty {
            concat_str(concat_str(" [", b.as_str()).as_str(), "*]")
        } else {
            concat_str(concat_str(" [", b.as_str()).as_str(), "]")
        },
        None => String::new(),
    }
}

/// Room for the path in a panel title `width` cells wide: the borders, two
/// spaces and the git suffix take the rest.
pub open spec fn path_budget(width: nat, suffix: Seq<char>) -> nat {
    if width >= 4 + byte_len(suffix) {
        (width - 4 - byte_len(suffix)) as nat
    } else {
        0
    }
}

/// The panel title: the path, shortened to fit, then the git suffix.
pub fn panel_title(path: &str, branch: &Option<String>, dirty: bool, width: u16) -> (r: String)
    ensures
        exists|c: Seq<char>|
            #[trigger] condensed(
                path@,
                path_budget(width as nat, git_suffix_text(crate::git_data::opt_view(*branch), dirty)),
                c,
            ) && r@ == " "@ + c + git_suffix_text(crate::git_data::opt_view(*branch), dirty) + " "@,
{
    let suffix = git_suffix(branch, dirty);
    let sl = suffix.as_str().as_bytes().len();
    let w = width as usize;
    let budget = if sl <= w && 4 <= w - sl {
        w - sl - 4
    } else {
        0
    };
    assert(budget == path_budget(width as nat, suffix@));
    let c = condense_path(path, budget);
    let t = concat_str(concat_str(concat_str(" ", c.as_str()).as_str(), suffix.as_str()).as_str(), " ");
    assert(condensed(path@, budget as nat, c@));
    t
}

/// A column header, with the sort arrow when it is the sort column.
pub open spec fn header_text(name: Seq<char>, active: bool, order: SortOrder) -> Seq<char> {
    if active {
        name + (if order == SortOrder::Asc {
            "↑"@
        } else {
            "↓"@
        })
    } else {
        name
    }
}

/// The four column headers: name, size, date (the sort column marked) and owner.
pub fn header_labels(mode: SortMode, order: SortOrder) -> (r: (String, String, String, String))
    ensures
        r.0@ == header_text("Name"@, mode == SortMode::Name, order),
        r.1@ == header_text("Size"@, mode == SortMode::Size, order),
        r.2@ == header_text("Date"@, mode == SortMode::Modified, order),
        r.3@ == "Owner"@,
{
    let arrow = match order {
        SortOrder::Asc => "↑",
        SortOrder::Desc => "↓",
    };
    let name = match mode {
        SortMode::Name => concat_str("Name", arrow),
        _ => "Name".to_owned(),
    };
    let size = match mode {
        SortMode::Size => concat_str("Size", arrow),
        _ => "Size".to_owned(),
    };
    let date = match mode {
        SortMode::Modified => concat_str("Date", arrow),
        _ => "Date".to_owned(),
    };
    (name, size, date, "Owner".to_owned())
}

/// The bar that shows the filter being typed.
pub fn filter_bar_text(filter: &str) -> (r: String)
    ensures
        r@ == " Filter: "@ + filter@ + "_"@,
{
    concat_str(concat_str(" Filter: ", filter).as_str(), "_")
}

/// The name column: a `*` for a mark, then the name, with `/` after a
/// directory (not `..`) and `@` after a symbolic link.
pub open spec fn display_name_text(e: EntryInfo, marked: bool) -> Seq<char> {
    let mark = if marked {
        "*"@
    } else {
        " "@
    };
    if e.is_dir && e.name@ != dotdot() {
        mark + e.name@ + "/"@
    } else if e.is_symlink {
        mark + e.name@ + "@"@
    } else {
        mark + e.name@
    }
}

pub fn display_name(e: &EntryInfo, marked: bool) -> (r: String)
    ensures
        r@ == display_name_text(*e, marked),
{
    let with_mark = concat_str(if marked {
        "*"
    } else {
        " "
    }, e.name.as_str());
    if e.is_dir && !is_dotdot(e.name.as_str()) {
        concat_str(with_mark.as_str(), "/")
    } else if e.is_symlink {
        concat_str(with_mark.as_str(), "@")
    } else {
        with_mark
    }
}

/// What the size column shows.
#[derive(Debug, Clone, Copy, PartialEq, Eq, Structural)]
pub enum SizeCell {
    /// A size in bytes, to be formatted.
    Bytes(u64),
    /// A directory whose size is still being computed.
    Pending,
    /// A directory.
    Dir,
}

/// A directory shows its computed size, or that it is pending while sizes
/// are computed, or just that it is a directory; a file shows its size.
pub open spec fn size_cell_of(e: EntryInfo, dir_size: Option<u64>, calculating: bool) -> SizeCell {
    if e.is_dir && e.name@ != dotdot() {
        match dir_size {
            Some(s) => SizeCell::Bytes(s),
            None => if calculating {
                SizeCell::Pending
            } else {
                SizeCell::Dir
            },
        }
    } else if e.is_dir {
        SizeCell::Dir
    } else {
        SizeCell::Bytes(e.size)
    }
}

pub fn size_cell(e: &EntryInfo, dir_size: Option<u64>, calculating: bool) -> (r: SizeCell)
    ensures
        r == size_cell_of(*e, dir_size, calculating),
{
    if e.is_dir && !is_dotdot(e.name.as_str()) {
        match dir_size {
            Some(s) => SizeCell::Bytes(s),
            None => if calculating {
                SizeCell::Pending
            } else {
                SizeCell::Dir
            },
        }
    } else if e.is_dir {
        SizeCell::Dir
    } else {
        SizeCell::Bytes(e.size)
    }
}

/// The text of a size cell that is not a byte count.
pub fn size_cell_text(c: SizeCell) -> (r: Option<String>)
    ensures
        match c {
            SizeCell::Bytes(_) => r is None,
            SizeCell::Pending => r matches Some(t) && t@ == "  ···  "@,
            SizeCell::Dir => r matches Some(t) && t@ == "<DIR>  "@,
        },
{
    match c {
        SizeCell::Bytes(_) => None,
        SizeCell::Pending => Some("  ···  ".to_owned()),
        SizeCell::Dir => Some("<DIR>  ".to_owned()),
    }
}

/// How a row is coloured.
#[derive(Debug, Clone, Copy, PartialEq, Eq, Structural)]
pub enum RowStyle {
    Marked,
    Dir,
    Symlink,
    Hardlink,
    Plain,
}

/// A mark wins, then a directory, a symbolic link, a file with more than one link.
pub open spec fn row_style_of(e: EntryInfo, marked: bool) -> RowStyle {
    if marked {
        RowStyle::Marked
    } else if e.is_dir {
        RowStyle::Dir
    } else if e.is_symlink {
        RowStyle::Symlink
    } else if e.nlink > 1 {
        RowStyle::Hardlink
    } else {
        RowStyle::Plain
    }
}

pub fn row_style(e: &EntryInfo, marked: bool) -> (r: RowStyle)
    ensures
        r == row_style_of(*e, marked),
{
    if marked {
        RowStyle::Marked
    } else if e.is_dir {
        RowStyle::Dir
    } else if e.is_symlink {
        RowStyle::Symlink
    } else if e.nlink > 1 {
        RowStyle::Hardlink
    } else {
        RowStyle::Plain
    }
}

/// How the cursor row is highlighted.
#[derive(Debug, Clone, Copy, PartialEq, Eq, Structural)]
pub enum CursorLook {
    /// Reversed, in the active panel.
    Active,
    /// Reversed and dimmed, in the other panel.
    Inactive,
    /// Not the cursor row.
    Off,
}

pub fn cursor_look(is_cursor: bool, is_active: bool) -> (r: CursorLook)
    ensures
        r == (if is_cursor && is_active {
            CursorLook::Active
        } else if is_cursor {
            CursorLook::Inactive
        } else {
            CursorLook::Off
        }),
{
    if is_cursor && is_active {
        CursorLook::Active
    } else if is_cursor {
        CursorLook::Inactive
    } else {
        CursorLook::Off
    }
}

// --- Status bar ---

/// The left of the status bar: the cursor entry, a directory marked as
/// such, a file with its size in bytes.
pub open spec fn status_left_of(e: Option<EntryInfo>) -> Seq<char> {
    match e {
        Some(e) => if e.is_dir {
            " "@ + e.name@ + " <DIR>"@
        } else {
            " "@ + e.name@ + "  "@ + decimal(e.size as nat) + " bytes"@
        },
        None => Seq::empty(),
    }
}

pub fn status_left_text(e: Option<&EntryInfo>) -> (r: String)
    ensures
        r@ == status_left_of(match e {
            Some(x) => Some(*x),
            None => None,
        }),
{
    match e {
        Some(e) => if e.is_dir {
            concat_str(concat_str(" ", e.name.as_str()).as_str(), " <DIR>")
        } else {
            concat_str(
                concat_str(
                    concat_str(concat_str(" ", e.name.as_str()).as_str(), "  ").as_str(),
                    decimal_string(e.size).as_str(),
                ).as_str(),
                " bytes",
            )
        },
        None => String::new(),
    }
}

/// The active filter, shown after the cursor entry.
pub fn status_filter_text(filter: &str) -> (r: String)
    ensures
        r@ == (if filter@.len() > 0 {
            " [filter: "@ + filter@ + "]"@
        } else {
            Seq::empty()
        }),
{
    if filter.is_empty() {
        String::new()
    } else {
        concat_str(concat_str(" [filter: ", filter).as_str(), "]")
    }
}

/// What the right of the status bar sums up.
#[derive(Debug, Clone, Copy, PartialEq, Eq, Structural)]
pub enum StatusTotal {
    /// `count` entries are marked, `bytes` in all.
    Marked { count: usize, bytes: u64 },
    /// The directory holds `bytes`; `approx` while sizes are still computed.
    Total { bytes: u64, approx: bool },
    Nothing,
}

/// The marks win over the directory total.
pub fn status_total(marked: Option<(usize, u64)>, total: Option<(u64, bool)>) -> (r: StatusTotal)
    ensures
        r == match marked {
            Some((count, bytes)) => StatusTotal::Marked { count, bytes },
            None => match total {
                Some((bytes, approx)) => StatusTotal::Total { bytes, approx },
                None => StatusTotal::Nothing,
            },
        },
{
    match marked {
        Some((count, bytes)) => StatusTotal::Marked { count, bytes },
        None => match total {
            Some((bytes, approx)) => StatusTotal::Total { bytes, approx },
            None => StatusTotal::Nothing,
        },
    }
}

/// The right of the status bar, with `size` the formatted byte count.
pub open spec fn status_right_of(t: StatusTotal, size: Seq<char>) -> Seq<char> {
    match t {
        StatusTotal::Marked { count, .. } => decimal(count as nat) + " marked ("@ + size + ") "@,
        StatusTotal::Total { approx, .. } => (if approx {
            "~"@
        } else {
            Seq::empty()
        }) + "total "@ + size + " "@,
        StatusTotal::Nothing => Seq::empty(),
    }
}

pub fn status_right_text(t: StatusTotal, size: &str) -> (r: String)
    ensures
        r@ == status_right_of(t, size@),
{
    match t {
        StatusTotal::Marked { count, .. } => concat_str(
            concat_str(
                concat_str(decimal_string(count as u64).as_str(), " marked (").as_str(),
                size,
            ).as_str(),
            ") ",
        ),
        StatusTotal::Total { approx, .. } => {
            let lead = if approx {
                "~total "
            } else {
                "total "
            };
            proof {
                reveal_strlit("~total ");
                reveal_strlit("~");
                reveal_strlit("total ");
                assert("~total "@ =~= "~"@ + "total "@);
                assert("total "@ =~= Seq::<char>::empty() + "total "@);
            }
            concat_str(concat_str(lead, size).as_str(), " ")
        },
        StatusTotal::Nothing => String::new(),
    }
}

/// The git status bar: the repository and the branch.
pub fn git_status_text(git_root: &str, branch: &str) -> (r: String)
    ensures
        r@ == " Git: "@ + git_root@ + "  ["@ + branch@ + "]"@,
{
    concat_str(
        concat_str(concat_str(concat_str(" Git: ", git_root).as_str(), "  [").as_str(), branch).as_str(),
        "]",
    )
}

// --- Git view ---

pub open spec fn worktree_char(s: GitWorktreeStatus) -> char {
    match s {
        GitWorktreeStatus::Modified => 'M',
        GitWorktreeStatus::Deleted => 'D',
        GitWorktreeStatus::Untracked => '?',
    }
}

pub fn worktree_status_char(s: GitWorktreeStatus) -> (r: char)
    ensures
        r == worktree_char(s),
{
    match s {
        GitWorktreeStatus::Modified => 'M',
        GitWorktreeStatus::Deleted => 'D',
        GitWorktreeStatus::Untracked => '?',
    }
}

pub open spec fn index_char(s: GitIndexStatus) -> char {
    match s {
        GitIndexStatus::Added => 'A',
        GitIndexStatus::Modified => 'M',
        GitIndexStatus::Deleted => 'D',
        GitIndexStatus::Renamed => 'R',
        GitIndexStatus::Copied => 'C',
    }
}

pub fn index_status_char(s: GitIndexStatus) -> (r: char)
    ensures
        r == index_char(s),
{
    match s {
        GitIndexStatus::Added => 'A',
        GitIndexStatus::Modified => 'M',
        GitIndexStatus::Deleted => 'D',
        GitIndexStatus::Renamed => 'R',
        GitIndexStatus::Copied => 'C',
    }
}

/// A row of a git pane: mark, status letter, path.
pub fn git_row_label(marked: bool, status: char, path: &str) -> (r: String)
    ensures
        r@ == " "@ + (if marked {
            "*"@
        } else {
            " "@
        }) + " "@ + seq![status] + " "@ + path@,
{
    let mut s = concat_str(" ", if marked {
        "*"
    } else {
        " "
    });
    let ghost head = s@;
    push_char(&mut s, ' ');
    push_char(&mut s, status);
    push_char(&mut s, ' ');
    assert(s@ =~= head + " "@ + seq![status] + " "@) by {
        reveal_strlit(" ");
    }
    let r = concat_str(s.as_str(), path);
    assert(r@ =~= " "@ + (if marked {
        "*"@
    } else {
        " "@
    }) + " "@ + seq![status] + " "@ + path@);
    r
}

/// The title of the working-tree pane.
pub fn worktree_title(branch: &str, count: usize) -> (r: String)
    ensures
        r@ == " Working Tree — "@ + branch@ + " ("@ + decimal(count as nat) + ") "@,
{
    concat_str(
        concat_str(
            concat_str(concat_str(" Working Tree — ", branch).as_str(), " (").as_str(),
            decimal_string(count as u64).as_str(),
        ).as_str(),
        ") ",
    )
}

// --- Branch picker ---

/// The first row shown of a list `height` rows tall so that the cursor is visible.
pub open spec fn list_offset(cursor: nat, height: nat) -> nat {
    if cursor < height {
        0
    } else {
        (cursor + 1 - height) as nat
    }
}

pub fn branch_list_offset(cursor: usize, height: usize) -> (r: usize)
    requires
        height > 0 || cursor < usize::MAX,
    ensures
        r == list_offset(cursor as nat, height as nat),
{
    if cursor < height {
        0
    } else if height > 0 {
        cursor - height + 1
    } else {
        cursor + 1
    }
}

/// A branch in the picker: `>` on the current one, whether it is local or
/// only remote, then its name.
pub fn branch_label(b: &BranchInfo) -> (r: String)
    ensures
        r@ == " "@ + (if b.is_current {
            ">"@
        } else {
            " "@
        }) + " ["@ + (if b.is_local {
            "local "@
        } else {
            "remote"@
        }) + "] "@ + b.name@,
{
    concat_str(
        concat_str(
            concat_str(
                concat_str(concat_str(" ", if b.is_current {
                    ">"
                } else {
                    " "
                }).as_str(), " [").as_str(),
                if b.is_local {
                    "local "
                } else {
                    "remote"
                },
            ).as_str(),
            "] ",
        ).as_str(),
        b.name.as_str(),
    )
}

// --- Progress overlay ---

/// `n` copies of `c`.
pub open spec fn repeated(c: char, n: nat) -> Seq<char> {
    Seq::new(n, |i: int| c)
}

fn repeat_char(c: char, n: usize) -> (r: String)
    ensures
        r@ == repeated(c, n as nat),
{
    let mut s = String::new();
    let mut i: usize = 0;
    while i < n
        invariant
            i <= n,
            s@ == repeated(c, i as nat),
        decreases n - i,
    {
        push_char(&mut s, c);
        assert(s@ =~= repeated(c, (i + 1) as nat));
        i = i + 1;
    }
    s
}

/// Room for the bar in a box `width` cells wide after the label, the
/// percentage and their spaces.
pub open spec fn progress_room(label: Seq<char>, width: nat) -> nat {
    if width >= byte_len(label) + 7 {
        (width - byte_len(label) - 7) as nat
    } else {
        0
    }
}

/// The line of one running operation in a box `width` cells wide: its
/// label, and when the total is known the percentage and a bar.
pub open spec fn progress_line(label: Seq<char>, done: u64, total: u64, width: nat) -> Seq<char> {
    if total == 0 {
        label
    } else {
        let room = progress_room(label, width);
        let filled = ((room * done) / (total as int)) as nat;
        let empty = if room >= filled {
            (room - filled) as nat
        } else {
            0
        };
        label + " "@ + pad_left(decimal(((done * 100) / (total as int)) as nat), 3) + "% "@ + repeated(
            '█',
            filled,
        ) + repeated('░', empty)
    }
}

pub fn progress_text(label: &str, done: u64, total: u64, width: u16) -> (r: String)
    requires
        byte_len(label@) + 7 <= u16::MAX,
        total > 0 ==> done * 100 <= u64::MAX,
        total > 0 ==> progress_room(label@, width as nat) * done <= u64::MAX,
        total > 0 ==> progress_room(label@, width as nat) * done / total as int <= usize::MAX,
    ensures
        r@ == progress_line(label@, done, total, width as nat),
{
    if total == 0 {
        return label.to_owned();
    }
    let ll = label.as_bytes().len();
    let w = width as usize;
    let room: usize = if ll <= w && 7 <= w - ll {
        w - ll - 7
    } else {
        0
    };
    assert(room == progress_room(label@, width as nat));
    let filled = ((room as u64) * done / total) as usize;
    let empty = if room >= filled {
        room - filled
    } else {
        0
    };
    let pct = decimal_string(done * 100 / total);
    concat_str(
        concat_str(
            concat_str(concat_str(label, " ").as_str(), pad_left_string(pct.as_str(), 3).as_str()).as_str(),
            "% ",
        ).as_str(),
        concat_str(repeat_char('█', filled).as_str(), repeat_char('░', empty).as_str()).as_str(),
    )
}

/// Where the progress box goes: the bottom-right corner, 44 cells wide (at
/// most the screen), two rows more than there are operations.
pub fn ops_overlay_area(area: Area, n: usize) -> (r: Option<Area>)
    requires
        n + 2 <= u16::MAX,
        area.x + area.width <= u16::MAX,
        area.y + area.height <= u16::MAX,
    ensures
        n == 0 ==> r is None,
        n > 0 ==> (r matches Some(a) && a.width == (if area.width < 44 {
            area.width
        } else {
            44
        }) && a.height == n + 2 && a.x == area.x + (if area.width >= a.width {
            area.width - a.width
        } else {
            0
        }) && a.y == area.y + (if area.height >= a.height {
            area.height - a.height
        } else {
            0
        })),
{
    if n == 0 {
        return None;
    }
    let width: u16 = if area.width < 44 {
        area.width
    } else {
        44
    };
    let height: u16 = (n + 2) as u16;
    let x = area.x + if area.width >= width {
        area.width - width
    } else {
        0
    };
    let y = area.y + if area.height >= height {
        area.height - height
    } else {
        0
    };
    Some(Area { x, y, width, height })
}

// --- Popups ---

/// A box `percent_x` by `percent_y` percent of `area`, centred in it.
pub fn centered_rect(percent_x: u16, percent_y: u16, area: Area) -> (r: Area)
    requires
        area.width * percent_x <= u16::MAX,
        area.height * percent_y <= u16::MAX,
        percent_x <= 100,
        percent_y <= 100,
        area.x + area.width <= u16::MAX,
        area.y + area.height <= u16::MAX,
    ensures
        r.width == area.width * percent_x / 100,
        r.height == area.height * percent_y / 100,
        r.x == area.x + (area.width - r.width) / 2,
        r.y == area.y + (area.height - r.height) / 2,
{
    let w = area.width * percent_x / 100;
    let h = area.height * percent_y / 100;
    assert(w <= area.width) by (nonlinear_arith)
        requires
            w == area.width * percent_x / 100,
            percent_x <= 100,
    ;
    assert(h <= area.height) by (nonlinear_arith)
        requires
            h == area.height * percent_y / 100,
            percent_y <= 100,
    ;
    let x = area.x + (area.width - w) / 2;
    let y = area.y + (area.height - h) / 2;
    Area { x, y, width: w, height: h }
}

/// A dialog box `width` by `height` cells, centred and cut to `area`.
pub fn dialog_rect(width: u16, height: u16, area: Area) -> (r: Area)
    requires
        area.x + area.width <= u16::MAX,
        area.y + area.height <= u16::MAX,
    ensures
        r.x == area.x + (if area.width >= width {
            area.width - width
        } else {
            0
        }) / 2,
        r.y == area.y + (if area.height >= height {
            area.height - height
        } else {
            0
        }) / 2,
        r.width == (if width < area.width {
            width
        } else {
            area.width
        }),
        r.height == (if height < area.height {
            height
        } else {
            area.height
        }),
{
    let x = area.x + (if area.width >= width {
        area.width - width
    } else {
        0
    }) / 2;
    let y = area.y + (if area.height >= height {
        area.height - height
    } else {
        0
    }) / 2;
    Area {
        x,
        y,
        width: if width < area.width {
            width
        } else {
            area.width
        },
        height: if height < area.height {
            height
        } else {
            area.height
        },
    }
}

/// `a` cut down to at most `cap`.
pub open spec fn at_most(a: int, cap: int) -> int {
    if a < cap {
        a
    } else {
        cap
    }
}

/// Rows the screen leaves for a dialog: two fewer than it has.
pub open spec fn screen_cap(screen_height: u16) -> int {
    if screen_height >= 2 {
        screen_height - 2
    } else {
        0
    }
}

/// The quick-cd box: six rows more than the matches, between 10 and 24,
/// and no taller than the screen allows.
pub fn quick_cd_height(matches: usize, screen_height: u16) -> (r: u16)
    requires
        matches + 6 <= u16::MAX,
    ensures
        r == at_most(
            if matches + 6 < 10 {
                10
            } else if matches + 6 > 24 {
                24
            } else {
                matches + 6
            },
            screen_cap(screen_height),
        ),
{
    let want = (matches + 6) as u16;
    let clamped: u16 = if want < 10 {
        10
    } else if want > 24 {
        24
    } else {
        want
    };
    let cap: u16 = if screen_height >= 2 {
        screen_height - 2
    } else {
        0
    };
    if clamped < cap {
        clamped
    } else {
        cap
    }
}

/// The context-menu box: four rows more than the items, no taller than the
/// screen allows.
pub fn menu_height(items: usize, screen_height: u16) -> (r: u16)
    requires
        items + 4 <= u16::MAX,
    ensures
        r == at_most(items + 4, screen_cap(screen_height)),
{
    let want = (items + 4) as u16;
    let cap: u16 = if screen_height >= 2 {
        screen_height - 2
    } else {
        0
    };
    if want < cap {
        want
    } else {
        cap
    }
}

/// The error-list box: fourteen rows, no taller than the screen allows.
pub fn error_list_height(screen_height: u16) -> (r: u16)
    ensures
        r == at_most(14, screen_cap(screen_height)),
{
    let cap: u16 = if screen_height >= 2 {
        screen_height - 2
    } else {
        0
    };
    if 14 < cap {
        14
    } else {
        cap
    }
}

/// The text of a confirmation: the message, then the two answers.
pub fn confirm_text(message: &str) -> (r: String)
    ensures
        r@ == "\n"@ + message@ + "\n\n[ Yes / Enter ]   [ No / Esc ]"@,
{
    concat_str(concat_str("\n", message).as_str(), "\n\n[ Yes / Enter ]   [ No / Esc ]")
}

/// A dialog's title, padded with a space on each side.
pub fn dialog_title(title: &str) -> (r: String)
    ensures
        r@ == " "@ + title@ + " "@,
{
    concat_str(concat_str(" ", title).as_str(), " ")
}

/// The hint under the error list: where the scroll stands when the errors
/// do not fit, then how to close.
pub fn error_list_hint(scroll: usize, errors: usize, rows: usize) -> (r: String)
    requires
        scroll < usize::MAX,
    ensures
        r@ == (if errors > rows {
            "↑↓ scroll ("@ + decimal((scroll + 1) as nat) + "/"@ + decimal(errors as nat) + ")   "@
        } else {
            Seq::empty()
        }) + "[ Enter / Esc ] Close"@,
{
    if errors > rows {
        let head = concat_str(
            concat_str(
                concat_str(
                    concat_str("↑↓ scroll (", decimal_string((scroll + 1) as u64).as_str()).as_str(),
                    "/",
                ).as_str(),
                decimal_string(errors as u64).as_str(),
            ).as_str(),
            ")   ",
        );
        concat_str(head.as_str(), "[ Enter / Esc ] Close")
    } else {
        let r = "[ Enter / Esc ] Close".to_owned();
        assert(r@ =~= Seq::<char>::empty() + "[ Enter / Esc ] Close"@);
        r
    }
}

/// Rows of a panel page: the screen less five for the borders, the header
/// and the two bars, at least one.
pub fn page_height(screen_height: u16) -> (r: usize)
    ensures
        r == (if screen_height > 6 {
            screen_height - 5
        } else {
            1
        }),
{
    if screen_height > 6 {
        (screen_height - 5) as usize
    } else {
        1
    }
}

/// The function-key bar of git mode: key names and what they do.
pub open spec fn git_function_keys() -> Seq<(Seq<char>, Seq<char>)> {
    seq![
        ("F1"@, "Stage"@),
        ("F2"@, "Unstage"@),
        ("F3"@, "Commit"@),
        ("F4"@, "Push"@),
        ("F5"@, "Pull"@),
        ("Tab"@, "Pane"@),
        ("Spc"@, "Mark"@),
        ("Esc"@, "Normal"@),
    ]
}

/// The function-key bar of the file panels.
pub open spec fn normal_function_keys() -> Seq<(Seq<char>, Seq<char>)> {
    seq![
        ("F1"@, "QuickCD"@),
        ("F2"@, "Menu"@),
        ("F3"@, "Nano"@),
        ("F4"@, "Sizes"@),
        ("F5"@, "Copy"@),
        ("F6"@, "Move"@),
        ("F7"@, "MkDir"@),
        ("F8"@, "Delete"@),
        ("F9"@, "Sort"@),
        ("F10"@, "Quit"@),
        ("F11"@, "Theme"@),
    ]
}

fn key_pair(key: &str, label: &str) -> (r: (String, String))
    ensures
        r.0@ == key@,
        r.1@ == label@,
{
    (key.to_owned(), label.to_owned())
}

/// The function-key bar: key names and what they do, for normal or git mode.
pub fn function_keys(git_mode: bool) -> (r: Vec<(String, String)>)
    ensures
        pair_views(r@) == (if git_mode {
            git_function_keys()
        } else {
            normal_function_keys()
        }),
{
    let mut v: Vec<(String, String)> = Vec::new();
    if git_mode {
        v.push(key_pair("F1", "Stage"));
        v.push(key_pair("F2", "Unstage"));
        v.push(key_pair("F3", "Commit"));
        v.push(key_pair("F4", "Push"));
        v.push(key_pair("F5", "Pull"));
        v.push(key_pair("Tab", "Pane"));
        v.push(key_pair("Spc", "Mark"));
        v.push(key_pair("Esc", "Normal"));
        assert(pair_views(v@) =~= git_function_keys());
    } else {
        v.push(key_pair("F1", "QuickCD"));
        v.push(key_pair("F2", "Menu"));
        v.push(key_pair("F3", "Nano"));
        v.push(key_pair("F4", "Sizes"));
        v.push(key_pair("F5", "Copy"));
        v.push(key_pair("F6", "Move"));
        v.push(key_pair("F7", "MkDir"));
        v.push(key_pair("F8", "Delete"));
        v.push(key_pair("F9", "Sort"));
        v.push(key_pair("F10", "Quit"));
        v.push(key_pair("F11", "Theme"));
        assert(pair_views(v@) =~= normal_function_keys());
    }
    v
}

} // verus!
