//! Properties that relate several operations: what one call undoes of
//! another, and what repeating a call gives.
use vstd::prelude::*;
use crate::action::Side;
use crate::app_state::{did_switch_panel, AppState};
use crate::dialog::{dialog_nav_down, dialog_nav_up, DialogState};
use crate::format::{byte_len, condensed, condensed_candidate, cut_parts, path_parts};
use crate::action::EntryInfo;
use crate::archive::is_archive_name;
use crate::panel::{
    entry_order, size_key, visible, SortMode, SortOrder,
    clamp_cursor, law_view_is_determined, markable_names, panel_cycle_sort_mode,
    panel_invert_sort, panel_pop_filter_char, panel_push_filter_char, panel_toggle_mark_all, Panel,
};
use crate::quick_cd::{completed_input, expand_home, last_index_of, parse_input};
use crate::text::{contains_seq, lex_order, lowercase};

verus! {

/// Backspace right after typing a filter character gives back the filter
/// and the list that were there before.
pub proof fn law_filter_backspace_undoes_typing(p: Panel, q: Panel, r: Panel, c: char)
    requires
        p.view_is_current(),
        panel_push_filter_char(p, q, c),
        panel_pop_filter_char(q, r),
    ensures
        r.filter@ == p.filter@,
        r.view_indices@ == p.view_indices@,
        r.entries == p.entries,
        r.marked == p.marked,
        r.cursor == clamp_cursor(q.cursor as nat, r.view_indices@.len()),
{
    assert(p.filter@.push(c).drop_last() =~= p.filter@);
    law_view_is_determined(
        r.view_indices@,
        p.view_indices@,
        p.entries@,
        p.filter@,
        p.dir_sizes@,
        p.sort_mode,
        p.sort_order,
    );
}

/// Inverting the sort order twice gives back the order and the list.
pub proof fn law_invert_twice_restores_view(p: Panel, q: Panel, r: Panel)
    requires
        p.view_is_current(),
        panel_invert_sort(p, q),
        panel_invert_sort(q, r),
    ensures
        r.sort_order == p.sort_order,
        r.view_indices@ == p.view_indices@,
{
    crate::panel::law_invert_sort_involution(p.sort_order);
    law_view_is_determined(
        r.view_indices@,
        p.view_indices@,
        p.entries@,
        p.filter@,
        p.dir_sizes@,
        p.sort_mode,
        p.sort_order,
    );
}

/// Cycling the sort column three times (name, size, date) gives back the
/// column and the list.
pub proof fn law_cycle_thrice_restores_view(p: Panel, q: Panel, r: Panel, s: Panel)
    requires
        p.view_is_current(),
        panel_cycle_sort_mode(p, q),
        panel_cycle_sort_mode(q, r),
        panel_cycle_sort_mode(r, s),
    ensures
        s.sort_mode == p.sort_mode,
        s.view_indices@ == p.view_indices@,
{
    crate::panel::law_sort_mode_cycle(p.sort_mode);
    law_view_is_determined(
        s.view_indices@,
        p.view_indices@,
        p.entries@,
        p.filter@,
        p.dir_sizes@,
        p.sort_mode,
        p.sort_order,
    );
}

/// `*` twice, starting with not everything marked, leaves nothing marked
/// (the entries' names being distinct, as in a directory).
pub proof fn law_toggle_all_twice_clears(p: Panel, q: Panel, r: Panel)
    requires
        markable_names(p.entries@).no_duplicates(),
        p.marked@.len() != markable_names(p.entries@).len(),
        panel_toggle_mark_all(p, q),
        panel_toggle_mark_all(q, r),
    ensures
        q.marked@ == markable_names(p.entries@).to_set(),
        r.marked@ == Set::<Seq<char>>::empty(),
{
    markable_names(p.entries@).unique_seq_to_set();
}

/// Switching panels twice comes back to the same state (when the active
/// flags agree with the active side, as they always do).
pub proof fn law_switch_panel_twice(s: AppState, t: AppState, u: AppState)
    requires
        s.left.is_active == (s.active == Side::Left),
        s.right.is_active == (s.active == Side::Right),
        did_switch_panel(s, t),
        did_switch_panel(t, u),
    ensures
        u == s,
{
}

/// In a menu, moving down and back up returns to the same item, unless the
/// selection was already on the last one.
pub proof fn law_menu_down_up(d: DialogState, e: DialogState, f: DialogState)
    requires
        d matches DialogState::ContextMenu { items, selected, .. } && selected + 1 < items@.len()
            && selected + 1 <= usize::MAX,
        dialog_nav_down(d, e),
        dialog_nav_up(e, f),
    ensures
        f == d,
{
    if let DialogState::ContextMenu { title, items, selected } = d {
        assert(e == DialogState::ContextMenu { title, items, selected: (selected + 1) as usize });
        assert(f == DialogState::ContextMenu { title, items, selected });
    }
}

/// A path that does not fit is shortened from the left: the result is one
/// of the shortened forms, and its last component is the path's own.
pub proof fn law_condense_keeps_last_component(path: Seq<char>, max: nat, r: Seq<char>)
    requires
        condensed(path, max, r),
        byte_len(path) > max,
    ensures
        exists|k: int|
            0 <= k < path_parts(path).len() && #[trigger] condensed_candidate(path, k) == r,
        forall|k: int|
            0 <= k < path_parts(path).len() ==> #[trigger] cut_parts(path_parts(path), k).last()
                == path_parts(path).last(),
{
    crate::text::lemma_split_on_nonempty(
        if crate::format::has_root(path) {
            path.drop_first()
        } else {
            path
        },
        '/',
    );
    let n = path_parts(path).len();
    if exists|k: int|
        1 <= k < n && r == condensed_candidate(path, k) && byte_len(r) <= max && forall|j: int|
            1 <= j < k ==> byte_len(#[trigger] condensed_candidate(path, j)) > max {
        let k = choose|k: int|
            1 <= k < n && r == condensed_candidate(path, k) && byte_len(r) <= max && forall|j: int|
                1 <= j < k ==> byte_len(#[trigger] condensed_candidate(path, j)) > max;
        assert(condensed_candidate(path, k) == r);
    } else {
        assert(condensed_candidate(path, n - 1) == r);
    }
}

/// Tab in quick cd drills into the chosen directory: the completed text
/// leaves no filter, so all its sub-directories are listed.
pub proof fn law_complete_lists_whole_directory(
    input: Seq<char>,
    matches: Seq<Seq<char>>,
    selected: nat,
    base: Seq<char>,
    home: Seq<char>,
)
    requires
        completed_input(input, matches, selected) is Some,
    ensures
        parse_input(completed_input(input, matches, selected)->0, base, home).1.len() == 0,
{
    reveal_strlit("/");
    let t = completed_input(input, matches, selected)->0;
    let e = expand_home(t, home);
    assert(t.len() > 0 && t.last() == '/');
    assert(e.len() > 0 && e.last() == '/') by {
        if t[0] == '~' {
            assert(e == home + t.drop_first());
            assert(t.drop_first().len() > 0);
            assert(e.last() == t.drop_first().last());
        }
    }
    assert(last_index_of(e, '/') == e.len() - 1);
    assert(e.skip(e.len() as int) =~= Seq::<char>::empty());
}

/// Descending is ascending reversed: by name or date two entries compare
/// the other way round; by size two known sizes compare the other way round,
/// a known size comes before an unknown one in both directions, and two
/// unknown sizes compare by name in both.
pub proof fn law_descending_reverses_ascending(a: EntryInfo, b: EntryInfo, sizes: Map<Seq<char>, u64>)
    ensures
        entry_order(a, b, sizes, SortMode::Name, SortOrder::Desc) == entry_order(
            a,
            b,
            sizes,
            SortMode::Name,
            SortOrder::Asc,
        ).flip(),
        entry_order(a, b, sizes, SortMode::Modified, SortOrder::Desc) == entry_order(
            a,
            b,
            sizes,
            SortMode::Modified,
            SortOrder::Asc,
        ).flip(),
        (size_key(a, sizes) is Some && size_key(b, sizes) is Some) ==> entry_order(
            a,
            b,
            sizes,
            SortMode::Size,
            SortOrder::Desc,
        ) == entry_order(a, b, sizes, SortMode::Size, SortOrder::Asc).flip(),
        (size_key(a, sizes) is Some && size_key(b, sizes) is None) ==> (entry_order(
            a,
            b,
            sizes,
            SortMode::Size,
            SortOrder::Desc,
        ) == crate::text::Order::Less && entry_order(a, b, sizes, SortMode::Size, SortOrder::Asc)
            == crate::text::Order::Less),
        (size_key(a, sizes) is None && size_key(b, sizes) is Some) ==> (entry_order(
            a,
            b,
            sizes,
            SortMode::Size,
            SortOrder::Desc,
        ) == crate::text::Order::Greater && entry_order(a, b, sizes, SortMode::Size, SortOrder::Asc)
            == crate::text::Order::Greater),
        (size_key(a, sizes) is None && size_key(b, sizes) is None) ==> (entry_order(
            a,
            b,
            sizes,
            SortMode::Size,
            SortOrder::Desc,
        ) == lex_order(lowercase(a.name@), lowercase(b.name@)) && entry_order(
            a,
            b,
            sizes,
            SortMode::Size,
            SortOrder::Asc,
        ) == lex_order(lowercase(a.name@), lowercase(b.name@))),
{
}

/// The archive test does not change when the name is lowercased first,
/// wherever lowercasing the name a second time changes nothing (which
/// `str::to_lowercase` does not promise for every string).
pub proof fn law_archive_test_ignores_case(name: Seq<char>)
    requires
        lowercase(lowercase(name)) == lowercase(name),
    ensures
        is_archive_name(name) == is_archive_name(lowercase(name)),
{
}

/// Backspace in the filter only widens the list: every entry listed before
/// is still listed, and once the filter is empty every entry is listed. This
/// holds where the lowercased shorter filter is a prefix of the lowercased
/// longer one; lowercasing is not always so (a Greek capital sigma lowers to
/// a final sigma at the end of a word and to a middle one inside it), and
/// there the law fails.
pub proof fn law_filter_backspace_widens(p: Panel, q: Panel)
    requires
        p.view_is_current(),
        panel_pop_filter_char(p, q),
        p.filter@.len() > 0 ==> lowercase(p.filter@.drop_last()).is_prefix_of(lowercase(p.filter@)),
    ensures
        forall|i: usize| #[trigger] p.view_indices@.contains(i) ==> q.view_indices@.contains(i),
        q.filter@.len() == 0 ==> forall|i: usize|
            i < q.entries@.len() ==> #[trigger] q.view_indices@.contains(i),
{
    assert forall|i: usize| #[trigger] p.view_indices@.contains(i) implies q.view_indices@.contains(
        i,
    ) by {
        let e = p.entries@[i as int];
        assert(i < p.entries@.len() && visible(e, p.filter@));
        if q.filter@.len() > 0 && e.name@ != crate::text::dotdot() {
            let h = lowercase(e.name@);
            let long = lowercase(p.filter@);
            let short = lowercase(q.filter@);
            assert(contains_seq(h, long));
            let k = choose|k: int|
                0 <= k && k + long.len() <= h.len() && #[trigger] h.subrange(k, k + long.len())
                    == long;
            assert(h.subrange(k, k + short.len()) =~= short) by {
                assert forall|m: int| 0 <= m < short.len() implies h.subrange(k, k + short.len())[m]
                    == short[m] by {
                    assert(short[m] == long.subrange(0, short.len() as int)[m]);
                    assert(long[m] == h.subrange(k, k + long.len())[m]);
                }
            }
            assert(contains_seq(h, short));
        }
        assert(visible(q.entries@[i as int], q.filter@));
    }
}

/// Enter in quick cd goes to the highlighted match: the typed directory
/// joined with `matches[selected]`. Two different highlighted names (neither
/// starting with `/`) lead to two different places.
pub proof fn law_enter_goes_to_highlighted_match(
    input: Seq<char>,
    matches: Seq<Seq<char>>,
    selected: nat,
    other: nat,
    base: Seq<char>,
    home: Seq<char>,
)
    requires
        selected < matches.len(),
    ensures
        crate::quick_cd::destination(input, matches, selected, base, home) == crate::paths::joined(
            parse_input(input, base, home).0,
            matches[selected as int],
        ),
        (other < matches.len() && matches[selected as int] != matches[other as int] && !(
        matches[selected as int].len() > 0 && matches[selected as int][0] == '/') && !(
        matches[other as int].len() > 0 && matches[other as int][0] == '/')) ==> crate::quick_cd::destination(
            input,
            matches,
            selected,
            base,
            home,
        ) != crate::quick_cd::destination(input, matches, other, base, home),
{
    let parent = parse_input(input, base, home).0;
    if other < matches.len() && matches[selected as int] != matches[other as int] && !(
    matches[selected as int].len() > 0 && matches[selected as int][0] == '/') && !(
    matches[other as int].len() > 0 && matches[other as int][0] == '/') {
        let x = matches[selected as int];
        let y = matches[other as int];
        let lead = if parent.len() == 0 || parent.last() == '/' {
            parent
        } else {
            parent.push('/')
        };
        assert(crate::paths::joined(parent, x) == lead + x);
        assert(crate::paths::joined(parent, y) == lead + y);
        if lead + x == lead + y {
            assert(x =~= (lead + x).subrange(lead.len() as int, (lead + x).len() as int));
            assert(y =~= (lead + y).subrange(lead.len() as int, (lead + y).len() as int));
        }
    }
}

/// The staged status of a path is read from the index flags alone, and
/// the working-tree status from the working-tree flags alone: an edit that
/// is not staged never makes a path staged.
pub proof fn law_status_sides_are_independent(f: crate::git_data::StatusFlags, g: crate::git_data::StatusFlags)
    ensures
        (f.index_new == g.index_new && f.index_modified == g.index_modified && f.index_typechange
            == g.index_typechange && f.index_deleted == g.index_deleted && f.index_renamed
            == g.index_renamed) ==> crate::git_data::index_status_of(f)
            == crate::git_data::index_status_of(g),
        (f.wt_new == g.wt_new && f.wt_modified == g.wt_modified && f.wt_typechange
            == g.wt_typechange && f.wt_deleted == g.wt_deleted)
            ==> crate::git_data::worktree_status_of(f) == crate::git_data::worktree_status_of(g),
        (!f.index_new && !f.index_modified && !f.index_typechange && !f.index_deleted
            && !f.index_renamed) ==> crate::git_data::index_status_of(f) is None,
        (!f.wt_new && !f.wt_modified && !f.wt_typechange && !f.wt_deleted)
            ==> crate::git_data::worktree_status_of(f) is None,
        (!f.index_new && !f.index_modified && !f.index_typechange && !f.index_deleted
            && !f.index_renamed && !f.wt_new && (f.wt_modified || f.wt_typechange))
            ==> crate::git_data::index_status_of(f) is None && crate::git_data::worktree_status_of(f)
            == Some(crate::action::GitWorktreeStatus::Modified),
        (f.index_new || f.index_modified || f.index_typechange || f.index_deleted
            || f.index_renamed) ==> crate::git_data::index_status_of(f) is Some,
        (f.wt_new || f.wt_modified || f.wt_typechange || f.wt_deleted)
            ==> crate::git_data::worktree_status_of(f) is Some,
{
}

/// A key sequence finds the command of the first binding that holds it.
proof fn lemma_lookup_index(t: Seq<(Seq<crate::keys::Key>, crate::keys::Command)>, k: Seq<crate::keys::Key>, i: int)
    requires
        0 <= i < t.len(),
        t[i].0 == k,
        forall|j: int| 0 <= j < i ==> #[trigger] t[j].0 != k,
    ensures
        crate::keys::lookup(t, k) == Some(t[i].1),
    decreases i,
{
    if i > 0 {
        let d = t.drop_first();
        assert forall|j: int| 0 <= j < i - 1 implies #[trigger] d[j].0 != k by {
            assert(d[j] == t[j + 1]);
        }
        lemma_lookup_index(d, k, i - 1);
    }
}

/// Function key `n` (shifted or not) is the binding at position `i` of the
/// default table, and no earlier binding holds it.
proof fn lemma_function_key(n: u8, i: int, shift: bool)
    requires
        0 <= i < crate::keys::default_table().len(),
        crate::keys::default_table()[i].0 == seq![crate::keys::Key { code: crate::keys::KeyCode::F(n), ctrl: false, alt: false, shift }],
        forall|j: int| 0 <= j < i ==> (#[trigger] crate::keys::default_table()[j].0)[0] != (crate::keys::Key { code: crate::keys::KeyCode::F(n), ctrl: false, alt: false, shift }),
    ensures
        crate::keys::lookup(
            crate::keys::default_table(),
            seq![crate::keys::Key { code: crate::keys::KeyCode::F(n), ctrl: false, alt: false, shift }],
        ) == Some(crate::keys::default_table()[i].1),
{
    let t = crate::keys::default_table();
    let k = seq![crate::keys::Key { code: crate::keys::KeyCode::F(n), ctrl: false, alt: false, shift }];
    assert forall|j: int| 0 <= j < i implies #[trigger] t[j].0 != k by {
        if t[j].0 == k {
            assert(t[j].0[0] == k[0]);
        }
    }
    lemma_lookup_index(t, k, i);
}

/// The function keys of the default key map run what the function bar
/// names: F1 quick cd, F2 menu, F3 nano, F4 sizes, F5 copy, F6 move, F7
/// mkdir, F8 delete, F9 sort, F10 quit, F11 theme (Shift+F1 the recent
/// directories, Shift+F9 the reversed sort); and no two of F1 to F11 run the
/// same command.
pub proof fn law_default_function_keys()
    ensures
        crate::keys::lookup(crate::keys::default_table(), seq![crate::keys::plain(crate::keys::KeyCode::F(1))])
            == Some(crate::keys::Command::QuickCd),
        crate::keys::lookup(crate::keys::default_table(), seq![crate::keys::plain(crate::keys::KeyCode::F(2))])
            == Some(crate::keys::Command::ContextMenu),
        crate::keys::lookup(crate::keys::default_table(), seq![crate::keys::plain(crate::keys::KeyCode::F(3))])
            == Some(crate::keys::Command::View),
        crate::keys::lookup(crate::keys::default_table(), seq![crate::keys::plain(crate::keys::KeyCode::F(4))])
            == Some(crate::keys::Command::CalcSizes),
        crate::keys::lookup(crate::keys::default_table(), seq![crate::keys::plain(crate::keys::KeyCode::F(5))])
            == Some(crate::keys::Command::Copy),
        crate::keys::lookup(crate::keys::default_table(), seq![crate::keys::plain(crate::keys::KeyCode::F(6))])
            == Some(crate::keys::Command::Move),
        crate::keys::lookup(crate::keys::default_table(), seq![crate::keys::plain(crate::keys::KeyCode::F(7))])
            == Some(crate::keys::Command::Mkdir),
        crate::keys::lookup(crate::keys::default_table(), seq![crate::keys::plain(crate::keys::KeyCode::F(8))])
            == Some(crate::keys::Command::Delete),
        crate::keys::lookup(crate::keys::default_table(), seq![crate::keys::plain(crate::keys::KeyCode::F(9))])
            == Some(crate::keys::Command::CycleSortMode),
        crate::keys::lookup(crate::keys::default_table(), seq![crate::keys::plain(crate::keys::KeyCode::F(10))])
            == Some(crate::keys::Command::Quit),
        crate::keys::lookup(crate::keys::default_table(), seq![crate::keys::plain(crate::keys::KeyCode::F(11))])
            == Some(crate::keys::Command::SelectTheme),
        crate::keys::lookup(crate::keys::default_table(), seq![crate::keys::shifted(crate::keys::KeyCode::F(1))])
            == Some(crate::keys::Command::RecentDirs),
        crate::keys::lookup(crate::keys::default_table(), seq![crate::keys::shifted(crate::keys::KeyCode::F(9))])
            == Some(crate::keys::Command::InvertSort),
        forall|n: u8, m: u8|
            1 <= n <= 11 && 1 <= m <= 11 && n != m ==> #[trigger] crate::keys::lookup(
                crate::keys::default_table(),
                seq![crate::keys::plain(crate::keys::KeyCode::F(n))],
            ) != #[trigger] crate::keys::lookup(
                crate::keys::default_table(),
                seq![crate::keys::plain(crate::keys::KeyCode::F(m))],
            ),
{
    let t = crate::keys::default_table();
    lemma_function_key(1, 17, false);
    lemma_function_key(2, 19, false);
    lemma_function_key(3, 20, false);
    lemma_function_key(4, 21, false);
    lemma_function_key(5, 22, false);
    lemma_function_key(6, 23, false);
    lemma_function_key(7, 24, false);
    lemma_function_key(8, 25, false);
    lemma_function_key(9, 26, false);
    lemma_function_key(10, 28, false);
    lemma_function_key(11, 30, false);
    lemma_function_key(1, 18, true);
    lemma_function_key(9, 27, true);
}

/// The files' total counts each file by its size and no directory: one
/// file counts its size, one directory nothing, and the total of two lists
/// is the sum of their totals.
pub proof fn law_file_total_counts_files(e: EntryInfo, a: Seq<EntryInfo>, b: Seq<EntryInfo>)
    ensures
        crate::panel::file_size_total(seq![e]) == (if e.is_dir {
            0
        } else {
            e.size as int
        }),
        crate::panel::file_size_total(a + b) == crate::panel::file_size_total(a)
            + crate::panel::file_size_total(b),
    decreases b.len(),
{
    assert(seq![e].drop_last() =~= Seq::<EntryInfo>::empty());
    assert(seq![e].last() == e);
    assert(crate::panel::file_size_total(Seq::<EntryInfo>::empty()) == 0);
    assert(crate::panel::file_size_total(seq![e]) == crate::panel::file_size_total(
        seq![e].drop_last(),
    ) + if seq![e].last().is_dir {
        0
    } else {
        seq![e].last().size as int
    });
    if b.len() > 0 {
        law_file_total_counts_files(e, a, b.drop_last());
        assert((a + b).drop_last() =~= a + b.drop_last());
        assert((a + b).last() == b.last());
    } else {
        assert(a + b =~= a);
    }
}

/// Page Up moves the cursor up by one page when there is room, and to the
/// top otherwise; nothing else in the panel changes.
pub proof fn law_page_up_moves_one_page(p: Panel, q: Panel, page: usize)
    requires
        crate::panel::panel_nav_page_up(p, q, page),
    ensures
        p.cursor >= page ==> q.cursor == p.cursor - page,
        p.cursor < page ==> q.cursor == 0,
        q.cursor <= p.cursor,
        q.entries == p.entries && q.view_indices == p.view_indices && q.path == p.path,
{
}

} // verus!
