//! One file panel: its entries, the filtered and sorted view of them, the
//! cursor, the marks, and the directory sizes computed on request.
use vstd::prelude::*;
use crate::action::{EntryInfo, Side};
use crate::effect::Effect;
use crate::names::{
    lemma_push_contains, lemma_push_distinct, lemma_push_to_set, string_views, sum_values, NameSet,
    SizeMap,
};
use crate::paths::{join_path, joined, norm_path, normalize_path, parent_of, parent_path, paths_equal, same_path};
use crate::sort::{lemma_sorted_unique, sort_indices, strict_total_on, IndexOrder};
use crate::text::{
    compare_chars, contains_chars, pop_char, push_char, str_eq, contains_seq, dotdot, int_order, is_dotdot,
    lemma_lex_order_equal, lemma_lex_order_flip, lemma_lex_order_trans, lex_order, lower_chars,
    lowercase, u64_order, Order,
};

verus! {

#[derive(Debug, Clone, Copy, PartialEq, Eq, Structural)]
pub enum SortMode {
    Name,
    Size,
    Modified,
}

#[derive(Debug, Clone, Copy, PartialEq, Eq, Structural)]
pub enum SortOrder {
    Asc,
    Desc,
}

// --- The view order ---

/// `..` first, then directories, then files.
pub open spec fn entry_rank(e: EntryInfo) -> int {
    if e.name@ == dotdot() {
        0
    } else if e.is_dir {
        1
    } else {
        2
    }
}

/// The size an entry sorts by: a file's own size, a directory's computed
/// size when there is one.
pub open spec fn size_key(e: EntryInfo, sizes: Map<Seq<char>, u64>) -> Option<u64> {
    if e.is_dir {
        if sizes.contains_key(e.name@) {
            Some(sizes[e.name@])
        } else {
            None
        }
    } else {
        Some(e.size)
    }
}

pub open spec fn directed(c: Order, order: SortOrder) -> Order {
    if order == SortOrder::Desc {
        c.flip()
    } else {
        c
    }
}

/// How two entries of the same group compare under a sort mode and order.
/// By size, entries whose size is unknown come last in either order, by name.
pub open spec fn entry_order(
    a: EntryInfo,
    b: EntryInfo,
    sizes: Map<Seq<char>, u64>,
    mode: SortMode,
    order: SortOrder,
) -> Order {
    match mode {
        SortMode::Name => directed(lex_order(lowercase(a.name@), lowercase(b.name@)), order),
        SortMode::Size => match (size_key(a, sizes), size_key(b, sizes)) {
            (Some(x), Some(y)) => directed(int_order(x as int, y as int), order),
            (Some(_), None) => Order::Less,
            (None, Some(_)) => Order::Greater,
            (None, None) => lex_order(lowercase(a.name@), lowercase(b.name@)),
        },
        SortMode::Modified => directed(int_order(a.modified as int, b.modified as int), order),
    }
}

/// Entry `i` is listed before entry `j`: by group, then by the sort mode,
/// then (the sort being stable) by position.
pub open spec fn view_precedes(
    entries: Seq<EntryInfo>,
    sizes: Map<Seq<char>, u64>,
    mode: SortMode,
    order: SortOrder,
    i: int,
    j: int,
) -> bool {
    let a = entries[i];
    let b = entries[j];
    ||| entry_rank(a) < entry_rank(b)
    ||| entry_rank(a) == entry_rank(b) && entry_rank(a) != 0 && entry_order(
        a,
        b,
        sizes,
        mode,
        order,
    ) == Order::Less
    ||| entry_rank(a) == entry_rank(b) && (entry_rank(a) == 0 || entry_order(a, b, sizes, mode, order)
        == Order::Equal) && i < j
}

/// The entry passes the filter: `..` always does, and so does every entry
/// while the filter is empty; otherwise the lowercase name must contain the
/// lowercase filter.
pub open spec fn visible(e: EntryInfo, filter: Seq<char>) -> bool {
    filter.len() == 0 || e.name@ == dotdot() || contains_seq(lowercase(e.name@), lowercase(filter))
}

/// `view` lists exactly the visible entries, each once, in view order.
pub open spec fn is_view_of(
    view: Seq<usize>,
    entries: Seq<EntryInfo>,
    filter: Seq<char>,
    sizes: Map<Seq<char>, u64>,
    mode: SortMode,
    order: SortOrder,
) -> bool {
    &&& forall|k: int| 0 <= k < view.len() ==> #[trigger] view[k] < entries.len()
    &&& view.no_duplicates()
    &&& forall|i: usize|
        view.contains(i) <==> (i < entries.len() && visible(entries[i as int], filter))
    &&& forall|a: int, b: int|
        0 <= a < b < view.len() ==> #[trigger] view_precedes(
            entries,
            sizes,
            mode,
            order,
            view[a] as int,
            view[b] as int,
        )
}

pub proof fn lemma_entry_order_flip(
    a: EntryInfo,
    b: EntryInfo,
    sizes: Map<Seq<char>, u64>,
    mode: SortMode,
    order: SortOrder,
)
    ensures
        entry_order(b, a, sizes, mode, order) == entry_order(a, b, sizes, mode, order).flip(),
{
    lemma_lex_order_flip(lowercase(a.name@), lowercase(b.name@));
}

pub proof fn lemma_entry_order_trans(
    a: EntryInfo,
    b: EntryInfo,
    c: EntryInfo,
    sizes: Map<Seq<char>, u64>,
    mode: SortMode,
    order: SortOrder,
)
    requires
        entry_order(a, b, sizes, mode, order) != Order::Greater,
        entry_order(b, c, sizes, mode, order) != Order::Greater,
    ensures
        entry_order(a, c, sizes, mode, order) != Order::Greater,
        entry_order(a, b, sizes, mode, order) == Order::Less || entry_order(
            b,
            c,
            sizes,
            mode,
            order,
        ) == Order::Less ==> entry_order(a, c, sizes, mode, order) == Order::Less,
{
    let la = lowercase(a.name@);
    let lb = lowercase(b.name@);
    let lc = lowercase(c.name@);
    lemma_lex_order_flip(la, lb);
    lemma_lex_order_flip(lb, lc);
    lemma_lex_order_flip(la, lc);
    lemma_lex_order_equal(la, lb);
    lemma_lex_order_equal(lb, lc);
    lemma_lex_order_equal(la, lc);
    if lex_order(la, lb) != Order::Greater && lex_order(lb, lc) != Order::Greater {
        if lex_order(la, lb) == Order::Less || lex_order(lb, lc) == Order::Less {
            lemma_lex_order_trans(la, lb, lc, Order::Less);
        }
    }
    if lex_order(la, lb) != Order::Less && lex_order(lb, lc) != Order::Less {
        if lex_order(la, lb) == Order::Greater || lex_order(lb, lc) == Order::Greater {
            lemma_lex_order_trans(la, lb, lc, Order::Greater);
        }
    }
}

/// The view order is a strict total order on the entries.
pub proof fn lemma_view_order(
    entries: Seq<EntryInfo>,
    sizes: Map<Seq<char>, u64>,
    mode: SortMode,
    order: SortOrder,
    i: int,
    j: int,
    k: int,
)
    requires
        0 <= i < entries.len(),
        0 <= j < entries.len(),
        0 <= k < entries.len(),
    ensures
        !view_precedes(entries, sizes, mode, order, i, i),
        i != j ==> (view_precedes(entries, sizes, mode, order, i, j) || view_precedes(
            entries,
            sizes,
            mode,
            order,
            j,
            i,
        )),
        view_precedes(entries, sizes, mode, order, i, j) && view_precedes(
            entries,
            sizes,
            mode,
            order,
            j,
            k,
        ) ==> view_precedes(entries, sizes, mode, order, i, k),
{
    let a = entries[i];
    let b = entries[j];
    let c = entries[k];
    lemma_entry_order_flip(a, a, sizes, mode, order);
    lemma_entry_order_flip(a, b, sizes, mode, order);
    if entry_order(a, b, sizes, mode, order) != Order::Greater && entry_order(
        b,
        c,
        sizes,
        mode,
        order,
    ) != Order::Greater {
        lemma_entry_order_trans(a, b, c, sizes, mode, order);
    }
}

/// Two lists that both satisfy `is_view_of` for the same panel state are
/// the same list: the view is determined by the entries, the filter, the
/// directory sizes and the sort settings.
pub proof fn law_view_is_determined(
    v: Seq<usize>,
    w: Seq<usize>,
    entries: Seq<EntryInfo>,
    filter: Seq<char>,
    sizes: Map<Seq<char>, u64>,
    mode: SortMode,
    order: SortOrder,
)
    requires
        is_view_of(v, entries, filter, sizes, mode, order),
        is_view_of(w, entries, filter, sizes, mode, order),
    ensures
        v == w,
{
    let prec = |i: int, j: int| view_precedes(entries, sizes, mode, order, i, j);
    let dom = |i: int| 0 <= i < entries.len();
    assert(strict_total_on(prec, dom)) by {
        assert forall|i: int, j: int, k: int| dom(i) && dom(j) && dom(k) implies {
            &&& !prec(i, i)
            &&& (i != j ==> (#[trigger] prec(i, j) || prec(j, i)))
            &&& (prec(i, j) && #[trigger] prec(j, k) ==> prec(i, k))
        } by {
            lemma_view_order(entries, sizes, mode, order, i, j, k);
        }
    }
    v.unique_seq_to_set();
    w.unique_seq_to_set();
    assert(v.to_set() =~= w.to_set()) by {
        assert forall|x: usize| v.to_set().contains(x) <==> w.to_set().contains(x) by {
            assert(v.to_set().contains(x) == v.contains(x));
            assert(w.to_set().contains(x) == w.contains(x));
        }
    }
    lemma_sorted_unique(prec, dom, v, w);
}

/// The sort keys of each entry, computed once per rebuild.
struct EntryKeys {
    entries: Ghost<Seq<EntryInfo>>,
    sizes: Ghost<Map<Seq<char>, u64>>,
    lower: Vec<Vec<char>>,
    rank: Vec<u8>,
    size_keys: Vec<Option<u64>>,
    modified: Vec<u64>,
    mode: SortMode,
    order: SortOrder,
}

impl EntryKeys {
    spec fn keys_ok(&self) -> bool {
        &&& self.lower@.len() == self.entries@.len()
        &&& self.rank@.len() == self.entries@.len()
        &&& self.size_keys@.len() == self.entries@.len()
        &&& self.modified@.len() == self.entries@.len()
        &&& forall|i: int|
            0 <= i < self.entries@.len() ==> (#[trigger] self.lower@[i])@ == lowercase(
                self.entries@[i].name@,
            )
        &&& forall|i: int|
            0 <= i < self.entries@.len() ==> #[trigger] self.rank@[i] as int == entry_rank(
                self.entries@[i],
            )
        &&& forall|i: int|
            0 <= i < self.entries@.len() ==> #[trigger] self.size_keys@[i] == size_key(
                self.entries@[i],
                self.sizes@,
            )
        &&& forall|i: int|
            0 <= i < self.entries@.len() ==> #[trigger] self.modified@[i]
                == self.entries@[i].modified
    }

    fn new(entries: &Vec<EntryInfo>, sizes: &SizeMap, mode: SortMode, order: SortOrder) -> (r:
        EntryKeys)
        ensures
            r.keys_ok(),
            r.entries@ == entries@,
            r.sizes@ == sizes@,
            r.mode == mode,
            r.order == order,
    {
        let mut lower: Vec<Vec<char>> = Vec::new();
        let mut rank: Vec<u8> = Vec::new();
        let mut size_keys: Vec<Option<u64>> = Vec::new();
        let mut modified: Vec<u64> = Vec::new();
        let mut i: usize = 0;
        while i < entries.len()
            invariant
                i <= entries.len(),
                lower@.len() == i,
                rank@.len() == i,
                size_keys@.len() == i,
                modified@.len() == i,
                forall|k: int|
                    0 <= k < i ==> (#[trigger] lower@[k])@ == lowercase(entries@[k].name@),
                forall|k: int| 0 <= k < i ==> #[trigger] rank@[k] as int == entry_rank(entries@[k]),
                forall|k: int|
                    0 <= k < i ==> #[trigger] size_keys@[k] == size_key(entries@[k], sizes@),
                forall|k: int| 0 <= k < i ==> #[trigger] modified@[k] == entries@[k].modified,
            decreases entries.len() - i,
        {
            let e = &entries[i];
            lower.push(lower_chars(e.name.as_str()));
            let r: u8 = if is_dotdot(e.name.as_str()) {
                0
            } else if e.is_dir {
                1
            } else {
                2
            };
            rank.push(r);
            let sk = if e.is_dir {
                sizes.get(e.name.as_str())
            } else {
                Some(e.size)
            };
            size_keys.push(sk);
            modified.push(e.modified);
            i = i + 1;
        }
        EntryKeys {
            entries: Ghost(entries@),
            sizes: Ghost(sizes@),
            lower,
            rank,
            size_keys,
            modified,
            mode,
            order,
        }
    }

    fn entry_order_exec(&self, i: usize, j: usize) -> (r: Order)
        requires
            self.keys_ok(),
            i < self.entries@.len(),
            j < self.entries@.len(),
        ensures
            r == entry_order(
                self.entries@[i as int],
                self.entries@[j as int],
                self.sizes@,
                self.mode,
                self.order,
            ),
    {
        let c = match self.mode {
            SortMode::Name => compare_chars(&self.lower[i], &self.lower[j]),
            SortMode::Size => match (self.size_keys[i], self.size_keys[j]) {
                (Some(x), Some(y)) => u64_order(x, y),
                (Some(_), None) => {
                    return Order::Less;
                },
                (None, Some(_)) => {
                    return Order::Greater;
                },
                (None, None) => {
                    return compare_chars(&self.lower[i], &self.lower[j]);
                },
            },
            SortMode::Modified => u64_order(self.modified[i], self.modified[j]),
        };
        match self.order {
            SortOrder::Desc => c.reverse(),
            SortOrder::Asc => c,
        }
    }
}

impl IndexOrder for EntryKeys {
    closed spec fn in_domain(&self, i: int) -> bool {
        self.keys_ok() && 0 <= i < self.entries@.len()
    }

    closed spec fn precedes(&self, i: int, j: int) -> bool {
        view_precedes(self.entries@, self.sizes@, self.mode, self.order, i, j)
    }

    fn precedes_exec(&self, i: usize, j: usize) -> (r: bool) {
        let ri = self.rank[i];
        let rj = self.rank[j];
        if ri < rj {
            true
        } else if ri > rj {
            false
        } else if ri == 0 {
            i < j
        } else {
            match self.entry_order_exec(i, j) {
                Order::Less => true,
                Order::Equal => i < j,
                Order::Greater => false,
            }
        }
    }

    proof fn lemma_strict_total(&self, i: int, j: int, k: int) {
        lemma_view_order(self.entries@, self.sizes@, self.mode, self.order, i, j, k);
    }
}

/// The view of `entries` under the given filter and sort settings.
pub fn compute_view(
    entries: &Vec<EntryInfo>,
    filter: &str,
    sizes: &SizeMap,
    mode: SortMode,
    order: SortOrder,
) -> (r: Vec<usize>)
    ensures
        is_view_of(r@, entries@, filter@, sizes@, mode, order),
{
    let lf = lower_chars(filter);
    let filter_empty = filter.is_empty();
    let mut vis: Vec<usize> = Vec::new();
    let mut i: usize = 0;
    while i < entries.len()
        invariant
            i <= entries.len(),
            lf@ == lowercase(filter@),
            filter_empty == (filter@.len() == 0),
            vis@.no_duplicates(),
            forall|k: int| 0 <= k < vis@.len() ==> #[trigger] vis@[k] < i,
            forall|x: usize| vis@.contains(x) <==> (x < i && visible(entries@[x as int], filter@)),
        decreases entries.len() - i,
    {
        let e = &entries[i];
        let keep = filter_empty || is_dotdot(e.name.as_str()) || contains_chars(
            &lower_chars(e.name.as_str()),
            &lf,
        );
        assert(keep == visible(entries@[i as int], filter@));
        let ghost v0 = vis@;
        if keep {
            vis.push(i);
            proof {
                lemma_push_contains(v0, i);
                assert(!v0.contains(i)) by {
                    if v0.contains(i) {
                        let k = choose|k: int| 0 <= k < v0.len() && v0[k] == i;
                        assert(v0[k] < i);
                    }
                }
                lemma_push_distinct(v0, i);
            }
        }
        proof {
            assert forall|x: usize|
                vis@.contains(x) <==> (x < i + 1 && visible(entries@[x as int], filter@)) by {
                if keep {
                    lemma_push_contains(v0, i);
                    assert(vis@ == v0.push(i));
                    if x == i {
                        assert(vis@[vis@.len() - 1] == i);
                    }
                } else {
                    assert(vis@ == v0);
                }
                assert(v0.contains(x) <==> (x < i && visible(entries@[x as int], filter@)));
            }
        }
        i = i + 1;
    }
    let keys = EntryKeys::new(entries, sizes, mode, order);
    let r = sort_indices(&keys, &vis);
    proof {
        assert forall|k: int| 0 <= k < r@.len() implies #[trigger] r@[k] < entries@.len() by {
            assert(keys.in_domain(r@[k] as int));
        }
        assert forall|a: int, b: int| 0 <= a < b < r@.len() implies #[trigger] view_precedes(
            entries@,
            sizes@,
            mode,
            order,
            r@[a] as int,
            r@[b] as int,
        ) by {
            assert(keys.precedes(r@[a] as int, r@[b] as int));
        }
    }
    r
}

// --- The panel ---

pub struct Panel {
    pub side: Side,
    pub path: String,
    pub entries: Vec<EntryInfo>,
    /// Indices into `entries` that pass the current filter, in view order.
    pub view_indices: Vec<usize>,
    /// Cursor position within `view_indices`.
    pub cursor: usize,
    /// Scroll offset within `view_indices`.
    pub offset: usize,
    pub marked: NameSet,
    pub is_active: bool,
    pub loading: bool,
    pub filter: String,
    /// Computed recursive sizes for directories, keyed by entry name.
    pub dir_sizes: SizeMap,
    pub sizes_calculating: bool,
    pub sizes_pending: usize,
    pub sort_mode: SortMode,
    pub sort_order: SortOrder,
    /// Current branch name; `None` when not inside a git repository.
    pub git_branch: Option<String>,
    pub git_dirty: bool,
}

/// The largest valid cursor for a view of `len` entries (0 when empty).
pub open spec fn last_index(len: nat) -> nat {
    if len == 0 {
        0
    } else {
        (len - 1) as nat
    }
}

/// `c` clamped into a view of `len` entries.
pub open spec fn clamp_cursor(c: nat, len: nat) -> nat {
    if c <= last_index(len) {
        c
    } else {
        last_index(len)
    }
}

/// Sum of the sizes of the entries whose names are in `names`.
pub open spec fn marked_size(entries: Seq<EntryInfo>, names: Set<Seq<char>>) -> int
    decreases entries.len(),
{
    if entries.len() == 0 {
        0
    } else {
        marked_size(entries.drop_last(), names) + if names.contains(entries.last().name@) {
            entries.last().size as int
        } else {
            0
        }
    }
}

/// Sum of the sizes of the entries that are not directories.
pub open spec fn file_size_total(entries: Seq<EntryInfo>) -> int
    decreases entries.len(),
{
    if entries.len() == 0 {
        0
    } else {
        file_size_total(entries.drop_last()) + if entries.last().is_dir {
            0
        } else {
            entries.last().size as int
        }
    }
}

/// The names of all entries except `..`, in order.
pub open spec fn markable_names(entries: Seq<EntryInfo>) -> Seq<Seq<char>>
    decreases entries.len(),
{
    if entries.len() == 0 {
        Seq::empty()
    } else if entries.last().name@ == dotdot() {
        markable_names(entries.drop_last())
    } else {
        markable_names(entries.drop_last()).push(entries.last().name@)
    }
}

impl Panel {
    /// The view indices point into the entries.
    pub open spec fn wf(&self) -> bool {
        forall|k: int| 0 <= k < self.view_indices@.len() ==> #[trigger] self.view_indices@[k]
            < self.entries@.len()
    }

    /// The view is the one the entries, filter, sizes and sort settings determine.
    pub open spec fn view_is_current(&self) -> bool {
        is_view_of(
            self.view_indices@,
            self.entries@,
            self.filter@,
            self.dir_sizes@,
            self.sort_mode,
            self.sort_order,
        )
    }

    /// The entry under the cursor.
    pub open spec fn cursor_entry_spec(&self) -> Option<EntryInfo> {
        if self.cursor < self.view_indices@.len() {
            Some(self.entries@[self.view_indices@[self.cursor as int] as int])
        } else {
            None
        }
    }

    pub fn new(side: Side, path: String) -> (r: Panel)
        ensures
            r.side == side,
            r.path == path,
            r.entries@.len() == 0,
            r.view_indices@.len() == 0,
            r.cursor == 0,
            r.offset == 0,
            r.marked@ == Set::<Seq<char>>::empty(),
            !r.is_active,
            !r.loading,
            r.filter@.len() == 0,
            r.dir_sizes@ == Map::<Seq<char>, u64>::empty(),
            !r.sizes_calculating,
            r.sizes_pending == 0,
            r.sort_mode == SortMode::Name,
            r.sort_order == SortOrder::Asc,
            r.git_branch is None,
            !r.git_dirty,
            r.wf(),
            r.view_is_current(),
    {
        let r = Panel {
            side,
            path,
            entries: Vec::new(),
            view_indices: Vec::new(),
            cursor: 0,
            offset: 0,
            marked: NameSet::new(),
            is_active: false,
            loading: false,
            filter: String::new(),
            dir_sizes: SizeMap::new(),
            sizes_calculating: false,
            sizes_pending: 0,
            sort_mode: SortMode::Name,
            sort_order: SortOrder::Asc,
            git_branch: None,
            git_dirty: false,
        };
        proof {
            assert forall|i: usize|
                r.view_indices@.contains(i) <==> (i < r.entries@.len() && visible(
                    r.entries@[i as int],
                    r.filter@,
                )) by {}
        }
        r
    }

    /// Asks for this panel's directory to be listed again.
    pub fn reload(&self) -> (r: Effect)
        ensures
            r == (Effect::LoadDir { path: self.path, side: self.side }),
    {
        Effect::LoadDir { path: self.path.clone(), side: self.side }
    }

    /// Asks for `path` to be listed into the panel on `side`.
    pub fn load_dir(path: String, side: Side) -> (r: Effect)
        ensures
            r == (Effect::LoadDir { path, side }),
    {
        Effect::LoadDir { path, side }
    }

    /// Asks for the git branch of `path`.
    pub fn load_git_info(path: String, side: Side) -> (r: Effect)
        ensures
            r == (Effect::LoadGitInfo { path, side }),
    {
        Effect::LoadGitInfo { path, side }
    }

    /// Recomputes the view from the entries, the filter, the sizes and the
    /// sort settings, and clamps the cursor into it.
    pub fn rebuild_view(&mut self)
        ensures
            final(self).view_is_current(),
            final(self).wf(),
            final(self).cursor == clamp_cursor(
                old(self).cursor as nat,
                final(self).view_indices@.len(),
            ),
            *final(self) == (Panel {
                view_indices: final(self).view_indices,
                cursor: final(self).cursor,
                ..*old(self)
            }),
    {
        let v = compute_view(
            &self.entries,
            self.filter.as_str(),
            &self.dir_sizes,
            self.sort_mode,
            self.sort_order,
        );
        let max = if v.len() > 0 {
            v.len() - 1
        } else {
            0
        };
        self.view_indices = v;
        if self.cursor > max {
            self.cursor = max;
        }
    }

    /// The entry under the cursor.
    pub fn current_entry(&self) -> (r: Option<&EntryInfo>)
        requires
            self.wf(),
        ensures
            r matches Some(e) ==> self.cursor_entry_spec() == Some(*e),
            r is None ==> self.cursor_entry_spec() is None,
    {
        if self.cursor < self.view_indices.len() {
            Some(&self.entries[self.view_indices[self.cursor]])
        } else {
            None
        }
    }

    /// Same as `current_entry`.
    pub fn cursor_entry(&self) -> (r: Option<&EntryInfo>)
        requires
            self.wf(),
        ensures
            r matches Some(e) ==> self.cursor_entry_spec() == Some(*e),
            r is None ==> self.cursor_entry_spec() is None,
    {
        self.current_entry()
    }

    // --- Navigation (all on the view) ---

    pub fn nav_up(&mut self)
        ensures
            panel_nav_up(*old(self), *final(self)),
    {
        if self.cursor > 0 {
            self.cursor = self.cursor - 1;
        }
    }

    pub fn nav_down(&mut self)
        requires
            old(self).cursor < usize::MAX,
        ensures
            panel_nav_down(*old(self), *final(self)),
    {
        if self.cursor + 1 < self.view_indices.len() {
            self.cursor = self.cursor + 1;
        }
    }

    pub fn nav_page_up(&mut self, page: usize)
        ensures
            panel_nav_page_up(*old(self), *final(self), page),
    {
        self.cursor = if self.cursor >= page {
            self.cursor - page
        } else {
            0
        };
    }

    pub fn nav_page_down(&mut self, page: usize)
        requires
            old(self).cursor + page <= usize::MAX,
        ensures
            panel_nav_page_down(*old(self), *final(self), page),
    {
        let max = if self.view_indices.len() > 0 {
            self.view_indices.len() - 1
        } else {
            0
        };
        let c = self.cursor + page;
        self.cursor = if c <= max {
            c
        } else {
            max
        };
    }

    pub fn nav_top(&mut self)
        ensures
            panel_nav_top(*old(self), *final(self)),
    {
        self.cursor = 0;
    }

    pub fn nav_bottom(&mut self)
        ensures
            panel_nav_bottom(*old(self), *final(self)),
    {
        self.cursor = if self.view_indices.len() > 0 {
            self.view_indices.len() - 1
        } else {
            0
        };
    }

    /// What Enter does on the cursor entry: `..` goes to the parent, a
    /// directory is entered, a file is opened with the desktop handler.
    pub fn nav_enter(&self) -> (r: Option<Effect>)
        requires
            self.wf(),
        ensures
            panel_enter_effect(*self, r),
    {
        match self.current_entry() {
            None => None,
            Some(entry) => {
                if is_dotdot(entry.name.as_str()) {
                    self.nav_parent()
                } else if entry.is_dir {
                    Some(
                        Effect::LoadDir {
                            path: join_path(self.path.as_str(), entry.name.as_str()),
                            side: self.side,
                        },
                    )
                } else {
                    Some(
                        Effect::OpenWithOs {
                            path: join_path(self.path.as_str(), entry.name.as_str()),
                        },
                    )
                }
            },
        }
    }

    /// Asks for the parent directory, if there is one.
    pub fn nav_parent(&self) -> (r: Option<Effect>)
        ensures
            panel_parent_effect(*self, r),
    {
        match parent_path(self.path.as_str()) {
            Some(p) => Some(Effect::LoadDir { path: p, side: self.side }),
            None => None,
        }
    }

    // --- Filter ---

    /// Appends `c` to the filter and keeps the cursor on the same entry when
    /// it is still visible (on the first entry otherwise).
    pub fn push_filter_char(&mut self, c: char)
        requires
            old(self).wf(),
        ensures
            panel_push_filter_char(*old(self), *final(self), c),
    {
        push_char(&mut self.filter, c);
        let prev_name = match self.current_entry() {
            Some(e) => Some(e.name.clone()),
            None => None,
        };
        self.rebuild_view();
        if let Some(name) = prev_name {
            self.cursor = match position_of_name(&self.view_indices, &self.entries, name.as_str()) {
                Some(k) => k,
                None => 0,
            };
        }
    }

    /// Removes the last filter character.
    pub fn pop_filter_char(&mut self)
        ensures
            panel_pop_filter_char(*old(self), *final(self)),
    {
        pop_char(&mut self.filter);
        self.rebuild_view();
    }

    /// Empties the filter.
    pub fn clear_filter(&mut self)
        ensures
            panel_clear_filter(*old(self), *final(self)),
    {
        self.filter = String::new();
        self.rebuild_view();
    }

    // --- Marking ---

    /// Toggles the mark on the cursor entry and moves down; `..` is never
    /// marked (the cursor still moves past it).
    pub fn toggle_mark(&mut self)
        requires
            old(self).wf(),
        ensures
            panel_toggle_mark(*old(self), *final(self)),
    {
        let name = match self.current_entry() {
            None => {
                return ;
            },
            Some(entry) => entry.name.clone(),
        };
        // The cursor is on an entry of the view, so one more still fits.
        let n = self.view_indices.len();
        assert(self.cursor < n);
        if is_dotdot(name.as_str()) {
            self.nav_down();
            return ;
        }
        if self.marked.contains(name.as_str()) {
            self.marked.remove(name.as_str());
        } else {
            self.marked.insert(name);
        }
        self.nav_down();
    }

    /// Marks every entry except `..`, or clears the marks when as many names
    /// are marked as there are such entries.
    pub fn toggle_mark_all(&mut self)
        ensures
            panel_toggle_mark_all(*old(self), *final(self)),
    {
        let mut all: Vec<String> = Vec::new();
        let mut i: usize = 0;
        while i < self.entries.len()
            invariant
                i <= self.entries@.len(),
                string_views(all@) == markable_names(self.entries@.take(i as int)),
            decreases self.entries.len() - i,
        {
            proof {
                assert(self.entries@.take(i + 1).drop_last() =~= self.entries@.take(i as int));
            }
            if !is_dotdot(self.entries[i].name.as_str()) {
                let ghost a0 = all@;
                all.push(self.entries[i].name.clone());
                proof {
                    assert(string_views(all@) =~= string_views(a0).push(self.entries@[i as int].name@));
                }
            }
            i = i + 1;
        }
        assert(self.entries@.take(self.entries.len() as int) =~= self.entries@);
        if self.marked.len() == all.len() {
            self.marked.clear();
        } else {
            let mut set = NameSet::new();
            let mut j: usize = 0;
            while j < all.len()
                invariant
                    j <= all@.len(),
                    set@ == string_views(all@).take(j as int).to_set(),
                decreases all.len() - j,
            {
                set.insert(all[j].clone());
                proof {
                    assert(string_views(all@).take(j + 1) =~= string_views(all@).take(j as int).push(
                        all@[j as int]@,
                    ));
                    lemma_push_to_set(string_views(all@).take(j as int), all@[j as int]@);
                }
                j = j + 1;
            }
            assert(string_views(all@).take(all.len() as int) =~= string_views(all@));
            self.marked = set;
        }
    }

    // --- Queries ---

    /// The paths an operation acts on: the marked names if there are any,
    /// otherwise the cursor entry unless it is `..`.
    pub fn effective_targets(&self) -> (r: Vec<String>)
        requires
            self.wf(),
        ensures
            string_views(r@) == targets_of(*self),
    {
        if !self.marked.is_empty() {
            let names = self.marked.to_vec();
            let mut r: Vec<String> = Vec::new();
            let mut i: usize = 0;
            while i < names.len()
                invariant
                    i <= names@.len(),
                    string_views(names@) == self.marked.seq(),
                    string_views(r@) == self.marked.seq().take(i as int).map_values(
                        |n: Seq<char>| joined(self.path@, n),
                    ),
                decreases names.len() - i,
            {
                let ghost r0 = r@;
                r.push(join_path(self.path.as_str(), names[i].as_str()));
                proof {
                    assert(string_views(r@) =~= string_views(r0).push(
                        joined(self.path@, names@[i as int]@),
                    ));
                    assert(self.marked.seq().take(i + 1) =~= self.marked.seq().take(i as int).push(
                        names@[i as int]@,
                    ));
                    assert(self.marked.seq().take(i + 1).map_values(
                        |n: Seq<char>| joined(self.path@, n),
                    ) =~= self.marked.seq().take(i as int).map_values(
                        |n: Seq<char>| joined(self.path@, n),
                    ).push(joined(self.path@, names@[i as int]@)));
                }
                i = i + 1;
            }
            assert(self.marked.seq().take(names.len() as int) =~= self.marked.seq());
            r
        } else {
            let mut r: Vec<String> = Vec::new();
            match self.current_entry() {
                Some(entry) => {
                    if !is_dotdot(entry.name.as_str()) {
                        r.push(join_path(self.path.as_str(), entry.name.as_str()));
                    }
                },
                None => {},
            }
            assert(string_views(r@) =~= (match self.cursor_entry_spec() {
                Some(e) => if e.name@ != dotdot() {
                    seq![joined(self.path@, e.name@)]
                } else {
                    Seq::empty()
                },
                None => Seq::empty(),
            }));
            r
        }
    }

    /// The number of marked names and the total size of the marked entries,
    /// or `None` when nothing is marked.
    pub fn marked_summary(&self) -> (r: Option<(usize, u64)>)
        requires
            marked_size(self.entries@, self.marked@) <= u64::MAX,
        ensures
            r == (if self.marked@.len() == 0 {
                None
            } else {
                Some((self.marked@.len() as usize, marked_size(self.entries@, self.marked@) as u64))
            }),
    {
        if self.marked.is_empty() {
            assert(self.marked@.len() == 0);
            return None;
        }
        let mut total: u64 = 0;
        let mut i: usize = 0;
        while i < self.entries.len()
            invariant
                i <= self.entries@.len(),
                marked_size(self.entries@, self.marked@) <= u64::MAX,
                total == marked_size(self.entries@.take(i as int), self.marked@),
            decreases self.entries.len() - i,
        {
            proof {
                assert(self.entries@.take(i + 1).drop_last() =~= self.entries@.take(i as int));
                lemma_marked_size_prefix(self.entries@, self.marked@, i + 1);
            }
            if self.marked.contains(self.entries[i].name.as_str()) {
                total = total + self.entries[i].size;
            }
            i = i + 1;
        }
        assert(self.entries@.take(self.entries.len() as int) =~= self.entries@);
        Some((self.marked.len(), total))
    }

    // --- Sorting ---

    /// Name, then Size, then Modified, then Name again.
    pub fn cycle_sort_mode(&mut self)
        ensures
            panel_cycle_sort_mode(*old(self), *final(self)),
    {
        self.sort_mode = match self.sort_mode {
            SortMode::Name => SortMode::Size,
            SortMode::Size => SortMode::Modified,
            SortMode::Modified => SortMode::Name,
        };
        self.rebuild_view();
    }

    /// Flips between ascending and descending.
    pub fn invert_sort(&mut self)
        ensures
            panel_invert_sort(*old(self), *final(self)),
    {
        self.sort_order = match self.sort_order {
            SortOrder::Asc => SortOrder::Desc,
            SortOrder::Desc => SortOrder::Asc,
        };
        self.rebuild_view();
    }

    // --- Loading ---

    /// Takes in a freshly listed directory.  A new path resets the filter,
    /// the marks, the sizes and the git state; a reload of the same path
    /// keeps the marks of names that still exist.  The cursor follows the
    /// entry it was on.  Asks for the git state of the directory.
    pub fn on_dir_loaded(&mut self, path: String, entries: Vec<EntryInfo>) -> (r: Effect)
        requires
            old(self).wf(),
        ensures
            panel_on_dir_loaded(*old(self), *final(self), path, entries, r),
    {
        let prev_name = match self.current_entry() {
            Some(e) => Some(e.name.clone()),
            None => None,
        };
        let path_changed = !paths_equal(path.as_str(), self.path.as_str());
        self.path = path;
        self.entries = entries;
        if path_changed {
            self.filter = String::new();
            self.marked.clear();
            self.dir_sizes.clear();
            self.sizes_calculating = false;
            self.sizes_pending = 0;
            self.git_branch = None;
            self.git_dirty = false;
        } else {
            let mut existing: Vec<String> = Vec::new();
            let mut i: usize = 0;
            while i < self.entries.len()
                invariant
                    i <= self.entries@.len(),
                    string_views(existing@) == entry_names(self.entries@).take(i as int),
                decreases self.entries.len() - i,
            {
                let ghost e0 = existing@;
                existing.push(self.entries[i].name.clone());
                proof {
                    assert(string_views(existing@) =~= string_views(e0).push(self.entries@[i as int].name@));
                    assert(entry_names(self.entries@).take(i + 1) =~= entry_names(self.entries@).take(
                        i as int,
                    ).push(self.entries@[i as int].name@));
                }
                i = i + 1;
            }
            assert(entry_names(self.entries@).take(self.entries.len() as int) =~= entry_names(
                self.entries@,
            ));
            self.marked.retain_among(&existing);
        }
        self.rebuild_view();
        match prev_name {
            Some(name) => {
                self.cursor = match position_of_name(&self.view_indices, &self.entries, name.as_str()) {
                    Some(k) => k,
                    None => 0,
                };
            },
            None => {
                self.cursor = 0;
            },
        }
        self.loading = false;
        Effect::LoadGitInfo { path: self.path.clone(), side: self.side }
    }

    // --- Directory sizes ---

    /// Starts a size calculation: sorts by size, largest first; applies the
    /// sizes `cache` already knows (keyed by full path) and asks for the
    /// others to be computed.
    pub fn start_size_calc(&mut self, cache: &SizeMap) -> (r: Vec<Effect>)
        ensures
            panel_start_size_calc(*old(self), *final(self), *cache, r),
    {
        let mut hits = SizeMap::new();
        let mut to_compute: Vec<String> = Vec::new();
        let mut i: usize = 0;
        while i < self.entries.len()
            invariant
                i <= self.entries@.len(),
                hits@ == cache_hits(self.entries@.take(i as int), self.path@, cache@),
                string_views(to_compute@) == cache_misses(
                    self.entries@.take(i as int),
                    self.path@,
                    cache@,
                ),
            decreases self.entries.len() - i,
        {
            proof {
                assert(self.entries@.take(i + 1).drop_last() =~= self.entries@.take(i as int));
            }
            let e = &self.entries[i];
            if e.is_dir && !is_dotdot(e.name.as_str()) {
                let full = join_path(self.path.as_str(), e.name.as_str());
                let key = normalize_path(full.as_str());
                match cache.get(key.as_str()) {
                    Some(cached) => {
                        hits.insert(e.name.clone(), cached);
                    },
                    None => {
                        let ghost t0 = to_compute@;
                        to_compute.push(e.name.clone());
                        proof {
                            assert(string_views(to_compute@) =~= string_views(t0).push(e.name@));
                        }
                    },
                }
            }
            i = i + 1;
        }
        assert(self.entries@.take(self.entries.len() as int) =~= self.entries@);
        self.dir_sizes = hits;
        self.sizes_calculating = true;
        self.sort_mode = SortMode::Size;
        self.sort_order = SortOrder::Desc;
        self.sizes_pending = to_compute.len();
        self.rebuild_view();
        let mut effects: Vec<Effect> = Vec::new();
        if to_compute.len() == 0 {
            self.sizes_calculating = false;
            return effects;
        }
        let mut j: usize = 0;
        while j < to_compute.len()
            invariant
                j <= to_compute@.len(),
                effects@.len() == j,
                forall|k: int|
                    0 <= k < j ==> is_size_request(
                        #[trigger] effects@[k],
                        self.side,
                        self.path@,
                        string_views(to_compute@)[k],
                    ),
            decreases to_compute.len() - j,
        {
            let name = to_compute[j].clone();
            let full = join_path(self.path.as_str(), name.as_str());
            effects.push(
                Effect::ComputeDirSize {
                    side: self.side,
                    panel_path: self.path.clone(),
                    name,
                    path: full,
                },
            );
            j = j + 1;
        }
        effects
    }

    /// Records a computed directory size; results for another directory are
    /// stale and ignored.
    pub fn on_dir_size_result(&mut self, panel_path: &str, name: String, size: u64)
        ensures
            panel_on_dir_size_result(*old(self), *final(self), panel_path@, name, size),
    {
        if !paths_equal(panel_path, self.path.as_str()) {
            return ;
        }
        self.dir_sizes.insert(name, size);
        self.sizes_pending = if self.sizes_pending > 0 {
            self.sizes_pending - 1
        } else {
            0
        };
        if self.sizes_pending == 0 {
            self.sizes_calculating = false;
        }
        self.rebuild_view();
    }

    /// Total known size (all files plus the computed directory sizes) and
    /// whether it is still growing; `None` when no calculation has run.
    pub fn size_summary(&self) -> (r: Option<(u64, bool)>)
        requires
            file_size_total(self.entries@) + sum_values(self.dir_sizes.pairs()) <= u64::MAX,
        ensures
            r == (if !self.sizes_calculating && self.dir_sizes@ == Map::<Seq<char>, u64>::empty() {
                None
            } else {
                Some(
                    (
                        (file_size_total(self.entries@) + sum_values(self.dir_sizes.pairs())) as u64,
                        self.sizes_calculating,
                    ),
                )
            }),
    {
        if !self.sizes_calculating && self.dir_sizes.is_empty() {
            return None;
        }
        let mut files: u64 = 0;
        let mut i: usize = 0;
        proof {
            lemma_file_total_prefix(self.entries@, 0);
            lemma_sum_values_nonneg(self.dir_sizes.pairs());
        }
        while i < self.entries.len()
            invariant
                i <= self.entries@.len(),
                file_size_total(self.entries@) + sum_values(self.dir_sizes.pairs()) <= u64::MAX,
                0 <= sum_values(self.dir_sizes.pairs()),
                files == file_size_total(self.entries@.take(i as int)),
            decreases self.entries.len() - i,
        {
            proof {
                assert(self.entries@.take(i + 1).drop_last() =~= self.entries@.take(i as int));
                lemma_file_total_prefix(self.entries@, i + 1);
            }
            if !self.entries[i].is_dir {
                files = files + self.entries[i].size;
            }
            i = i + 1;
        }
        assert(self.entries@.take(self.entries.len() as int) =~= self.entries@);
        let dirs = match self.dir_sizes.total() {
            Some(t) => t,
            None => 0,
        };
        Some((files + dirs, self.sizes_calculating))
    }

    // --- Git indicator ---

    /// Records the git state of the panel's directory; results for another
    /// directory are stale and ignored.
    pub fn on_git_info_loaded(&mut self, path: &str, branch: Option<String>, is_dirty: bool)
        ensures
            panel_on_git_info_loaded(*old(self), *final(self), path@, branch, is_dirty),
    {
        if !paths_equal(path, self.path.as_str()) {
            return ;
        }
        self.git_branch = branch;
        self.git_dirty = is_dirty;
    }
}

/// The names of the entries, in order.
pub open spec fn entry_names(entries: Seq<EntryInfo>) -> Seq<Seq<char>> {
    entries.map_values(|e: EntryInfo| e.name@)
}

/// Directory sizes known in advance: for each directory entry (not `..`)
/// whose full path the cache holds (keyed by the path's written-out
/// components, so that spellings of one path share a key), its cached size.
pub open spec fn cache_hits(entries: Seq<EntryInfo>, path: Seq<char>, cache: Map<Seq<char>, u64>) -> Map<
    Seq<char>,
    u64,
>
    decreases entries.len(),
{
    if entries.len() == 0 {
        Map::empty()
    } else {
        let m = cache_hits(entries.drop_last(), path, cache);
        let e = entries.last();
        if e.is_dir && e.name@ != dotdot() && cache.contains_key(norm_path(joined(path, e.name@))) {
            m.insert(e.name@, cache[norm_path(joined(path, e.name@))])
        } else {
            m
        }
    }
}

/// The names of the directory entries (not `..`) whose size must be computed.
pub open spec fn cache_misses(entries: Seq<EntryInfo>, path: Seq<char>, cache: Map<Seq<char>, u64>) -> Seq<
    Seq<char>,
>
    decreases entries.len(),
{
    if entries.len() == 0 {
        Seq::empty()
    } else {
        let m = cache_misses(entries.drop_last(), path, cache);
        let e = entries.last();
        if e.is_dir && e.name@ != dotdot() && !cache.contains_key(norm_path(joined(path, e.name@))) {
            m.push(e.name@)
        } else {
            m
        }
    }
}

/// `e` asks for the size of the directory `name` in the panel at `path`.
pub open spec fn is_size_request(e: Effect, side: Side, path: Seq<char>, name: Seq<char>) -> bool {
    e matches Effect::ComputeDirSize { side: s, panel_path: pp, name: n, path: p } && s == side
        && pp@ == path && n@ == name && p@ == joined(path, name)
}

proof fn lemma_file_total_prefix(entries: Seq<EntryInfo>, n: int)
    requires
        0 <= n <= entries.len(),
    ensures
        0 <= file_size_total(entries.take(n)) <= file_size_total(entries),
    decreases entries.len(),
{
    if n < entries.len() {
        lemma_file_total_prefix(entries.drop_last(), n);
        assert(entries.drop_last().take(n) =~= entries.take(n));
    } else {
        assert(entries.take(n) =~= entries);
        lemma_file_total_nonneg(entries);
    }
}

proof fn lemma_file_total_nonneg(entries: Seq<EntryInfo>)
    ensures
        0 <= file_size_total(entries),
    decreases entries.len(),
{
    if entries.len() > 0 {
        lemma_file_total_nonneg(entries.drop_last());
    }
}

proof fn lemma_sum_values_nonneg(p: Seq<(Seq<char>, u64)>)
    ensures
        0 <= sum_values(p),
    decreases p.len(),
{
    if p.len() > 0 {
        lemma_sum_values_nonneg(p.drop_last());
    }
}

/// The mode after `m` in the cycle Name, Size, Modified.
pub open spec fn next_sort_mode(m: SortMode) -> SortMode {
    match m {
        SortMode::Name => SortMode::Size,
        SortMode::Size => SortMode::Modified,
        SortMode::Modified => SortMode::Name,
    }
}

pub open spec fn flipped_order(o: SortOrder) -> SortOrder {
    match o {
        SortOrder::Asc => SortOrder::Desc,
        SortOrder::Desc => SortOrder::Asc,
    }
}

/// Cycling the sort mode three times comes back to the start.
pub proof fn law_sort_mode_cycle(m: SortMode)
    ensures
        next_sort_mode(next_sort_mode(next_sort_mode(m))) == m,
        next_sort_mode(m) != m,
{
}

/// Inverting the sort order twice comes back to the start.
pub proof fn law_invert_sort_involution(o: SortOrder)
    ensures
        flipped_order(flipped_order(o)) == o,
        flipped_order(o) != o,
{
}

/// `c` is where the cursor lands when it follows the entry called `name`:
/// the first view position showing that name, or 0 when none does.
pub open spec fn cursor_on_name(view: Seq<usize>, entries: Seq<EntryInfo>, name: Seq<char>, c: int) -> bool {
    if exists|k: int| 0 <= k < view.len() && (#[trigger] entries[view[k] as int]).name@ == name {
        &&& 0 <= c < view.len()
        &&& entries[view[c] as int].name@ == name
        &&& forall|j: int| 0 <= j < c ==> (#[trigger] entries[view[j] as int]).name@ != name
    } else {
        c == 0
    }
}

/// The first view position that shows an entry called `name`.
pub fn position_of_name(view: &Vec<usize>, entries: &Vec<EntryInfo>, name: &str) -> (r: Option<usize>)
    requires
        forall|k: int| 0 <= k < view@.len() ==> #[trigger] view@[k] < entries@.len(),
    ensures
        r matches Some(c) ==> cursor_on_name(view@, entries@, name@, c as int),
        r is None ==> cursor_on_name(view@, entries@, name@, 0),
        r is None ==> forall|k: int| 0 <= k < view@.len() ==> (#[trigger] entries@[view@[k] as int]).name@ != name@,
{
    let mut k: usize = 0;
    while k < view.len()
        invariant
            k <= view@.len(),
            forall|q: int| 0 <= q < view@.len() ==> #[trigger] view@[q] < entries@.len(),
            forall|j: int| 0 <= j < k ==> (#[trigger] entries@[view@[j] as int]).name@ != name@,
        decreases view.len() - k,
    {
        if str_eq(entries[view[k]].name.as_str(), name) {
            return Some(k);
        }
        k = k + 1;
    }
    None
}

proof fn lemma_marked_size_prefix(entries: Seq<EntryInfo>, names: Set<Seq<char>>, n: int)
    requires
        0 <= n <= entries.len(),
    ensures
        marked_size(entries.take(n), names) <= marked_size(entries, names),
        0 <= marked_size(entries.take(n), names),
    decreases entries.len(),
{
    if n < entries.len() {
        lemma_marked_size_prefix(entries.drop_last(), names, n);
        assert(entries.drop_last().take(n) =~= entries.take(n));
    } else {
        assert(entries.take(n) =~= entries);
        lemma_marked_size_nonneg(entries, names);
    }
}

proof fn lemma_marked_size_nonneg(entries: Seq<EntryInfo>, names: Set<Seq<char>>)
    ensures
        0 <= marked_size(entries, names),
    decreases entries.len(),
{
    if entries.len() > 0 {
        lemma_marked_size_nonneg(entries.drop_last(), names);
    }
}

/// What `Panel::nav_up` does.
pub open spec fn panel_nav_up(p: Panel, q: Panel) -> bool {
    &&& (q == (Panel {
            cursor: if p.cursor > 0 {
                (p.cursor - 1) as usize
            } else {
                p.cursor
            },
            ..p
        }))
}

/// What `Panel::nav_down` does.
pub open spec fn panel_nav_down(p: Panel, q: Panel) -> bool {
    &&& (q == (Panel {
            cursor: if p.cursor + 1 < p.view_indices@.len() {
                (p.cursor + 1) as usize
            } else {
                p.cursor
            },
            ..p
        }))
}

/// What `Panel::nav_page_up` does.
pub open spec fn panel_nav_page_up(p: Panel, q: Panel, page: usize) -> bool {
    &&& (q == (Panel {
            cursor: if p.cursor >= page {
                (p.cursor - page) as usize
            } else {
                0
            },
            ..p
        }))
}

/// What `Panel::nav_page_down` does.
pub open spec fn panel_nav_page_down(p: Panel, q: Panel, page: usize) -> bool {
    &&& (q == (Panel {
            cursor: clamp_cursor(
                (p.cursor + page) as nat,
                p.view_indices@.len(),
            ) as usize,
            ..p
        }))
}

/// What `Panel::nav_top` does.
pub open spec fn panel_nav_top(p: Panel, q: Panel) -> bool {
    &&& (q == (Panel { cursor: 0, ..p }))
}

/// What `Panel::nav_bottom` does.
pub open spec fn panel_nav_bottom(p: Panel, q: Panel) -> bool {
    &&& (q == (Panel {
            cursor: last_index(p.view_indices@.len()) as usize,
            ..p
        }))
}

/// What `Panel::push_filter_char` does.
pub open spec fn panel_push_filter_char(p: Panel, q: Panel, c: char) -> bool {
    &&& (q.filter@ == p.filter@.push(c))
    &&& (q.view_is_current())
    &&& (q.wf())
    &&& (match p.cursor_entry_spec() {
            Some(e) => cursor_on_name(
                q.view_indices@,
                q.entries@,
                e.name@,
                q.cursor as int,
            ),
            None => q.cursor == clamp_cursor(
                p.cursor as nat,
                q.view_indices@.len(),
            ),
        })
    &&& (q == (Panel {
            filter: q.filter,
            view_indices: q.view_indices,
            cursor: q.cursor,
            ..p
        }))
}

/// What `Panel::pop_filter_char` does.
pub open spec fn panel_pop_filter_char(p: Panel, q: Panel) -> bool {
    &&& (q.filter@ == (if p.filter@.len() > 0 {
            p.filter@.drop_last()
        } else {
            p.filter@
        }))
    &&& (q.view_is_current())
    &&& (q.wf())
    &&& (q.cursor == clamp_cursor(
            p.cursor as nat,
            q.view_indices@.len(),
        ))
    &&& (q == (Panel {
            filter: q.filter,
            view_indices: q.view_indices,
            cursor: q.cursor,
            ..p
        }))
}

/// What `Panel::clear_filter` does.
pub open spec fn panel_clear_filter(p: Panel, q: Panel) -> bool {
    &&& (q.filter@.len() == 0)
    &&& (q.view_is_current())
    &&& (q.wf())
    &&& (q.cursor == clamp_cursor(
            p.cursor as nat,
            q.view_indices@.len(),
        ))
    &&& (q == (Panel {
            filter: q.filter,
            view_indices: q.view_indices,
            cursor: q.cursor,
            ..p
        }))
}

/// What `Panel::toggle_mark` does.
pub open spec fn panel_toggle_mark(p: Panel, q: Panel) -> bool {
    &&& (match p.cursor_entry_spec() {
            None => q == p,
            Some(e) => {
                &&& q.marked@ == (if e.name@ == dotdot() {
                    p.marked@
                } else if p.marked@.contains(e.name@) {
                    p.marked@.remove(e.name@)
                } else {
                    p.marked@.insert(e.name@)
                })
                &&& q.cursor == (if p.cursor + 1
                    < p.view_indices@.len() {
                    p.cursor + 1
                } else {
                    p.cursor as int
                })
                &&& q == (Panel {
                    marked: q.marked,
                    cursor: q.cursor,
                    ..p
                })
            },
        })
}

/// What `Panel::toggle_mark_all` does.
pub open spec fn panel_toggle_mark_all(p: Panel, q: Panel) -> bool {
    &&& (q.marked@ == (if p.marked@.len() == markable_names(
            p.entries@,
        ).len() {
            Set::<Seq<char>>::empty()
        } else {
            markable_names(p.entries@).to_set()
        }))
    &&& (q == (Panel { marked: q.marked, ..p }))
}

/// What `Panel::cycle_sort_mode` does.
pub open spec fn panel_cycle_sort_mode(p: Panel, q: Panel) -> bool {
    &&& (q.sort_mode == next_sort_mode(p.sort_mode))
    &&& (q.view_is_current())
    &&& (q.wf())
    &&& (q.cursor == clamp_cursor(
            p.cursor as nat,
            q.view_indices@.len(),
        ))
    &&& (q == (Panel {
            sort_mode: q.sort_mode,
            view_indices: q.view_indices,
            cursor: q.cursor,
            ..p
        }))
}

/// What `Panel::invert_sort` does.
pub open spec fn panel_invert_sort(p: Panel, q: Panel) -> bool {
    &&& (q.sort_order == flipped_order(p.sort_order))
    &&& (q.view_is_current())
    &&& (q.wf())
    &&& (q.cursor == clamp_cursor(
            p.cursor as nat,
            q.view_indices@.len(),
        ))
    &&& (q == (Panel {
            sort_order: q.sort_order,
            view_indices: q.view_indices,
            cursor: q.cursor,
            ..p
        }))
}

/// What `Panel::on_dir_loaded` does.
pub open spec fn panel_on_dir_loaded(p: Panel, q: Panel, path: String, entries: Vec<EntryInfo>, r: Effect) -> bool {
    &&& (q.path == path)
    &&& (q.entries == entries)
    &&& (!same_path(path@, p.path@) ==> {
            &&& q.filter@.len() == 0
            &&& q.marked@ == Set::<Seq<char>>::empty()
            &&& q.dir_sizes@ == Map::<Seq<char>, u64>::empty()
            &&& !q.sizes_calculating
            &&& q.sizes_pending == 0
            &&& q.git_branch is None
            &&& !q.git_dirty
        })
    &&& (same_path(path@, p.path@) ==> {
            &&& q.marked@ == p.marked@.filter(
                |n: Seq<char>| entry_names(entries@).contains(n),
            )
            &&& q.filter == p.filter
            &&& q.dir_sizes == p.dir_sizes
            &&& q.sizes_calculating == p.sizes_calculating
            &&& q.sizes_pending == p.sizes_pending
            &&& q.git_branch == p.git_branch
            &&& q.git_dirty == p.git_dirty
        })
    &&& (q.view_is_current())
    &&& (q.wf())
    &&& (match p.cursor_entry_spec() {
            Some(e) => cursor_on_name(
                q.view_indices@,
                q.entries@,
                e.name@,
                q.cursor as int,
            ),
            None => q.cursor == 0,
        })
    &&& (!q.loading)
    &&& (q.side == p.side)
    &&& (q.offset == p.offset)
    &&& (q.is_active == p.is_active)
    &&& (q.sort_mode == p.sort_mode)
    &&& (q.sort_order == p.sort_order)
    &&& (r == (Effect::LoadGitInfo { path: q.path, side: q.side }))
}

/// What `Panel::start_size_calc` does.
pub open spec fn panel_start_size_calc(p: Panel, q: Panel, cache: SizeMap, r: Vec<Effect>) -> bool {
    &&& (q.dir_sizes@ == cache_hits(p.entries@, p.path@, cache@))
    &&& (q.sizes_pending == cache_misses(
            p.entries@,
            p.path@,
            cache@,
        ).len())
    &&& (q.sizes_calculating == (cache_misses(
            p.entries@,
            p.path@,
            cache@,
        ).len() > 0))
    &&& (q.sort_mode == SortMode::Size)
    &&& (q.sort_order == SortOrder::Desc)
    &&& (q.view_is_current())
    &&& (q.wf())
    &&& (q.cursor == clamp_cursor(
            p.cursor as nat,
            q.view_indices@.len(),
        ))
    &&& (q == (Panel {
            dir_sizes: q.dir_sizes,
            sizes_pending: q.sizes_pending,
            sizes_calculating: q.sizes_calculating,
            sort_mode: q.sort_mode,
            sort_order: q.sort_order,
            view_indices: q.view_indices,
            cursor: q.cursor,
            ..p
        }))
    &&& (r@.len() == cache_misses(p.entries@, p.path@, cache@).len())
    &&& (forall|i: int|
            0 <= i < r@.len() ==> is_size_request(
                #[trigger] r@[i],
                p.side,
                p.path@,
                cache_misses(p.entries@, p.path@, cache@)[i],
            ))
}

/// What `Panel::on_dir_size_result` does.
pub open spec fn panel_on_dir_size_result(p: Panel, q: Panel, panel_path: Seq<char>, name: String, size: u64) -> bool {
    &&& (!same_path(panel_path, p.path@) ==> q == p)
    &&& (same_path(panel_path, p.path@) ==> {
            &&& q.dir_sizes@ == p.dir_sizes@.insert(name@, size)
            &&& q.sizes_pending == (if p.sizes_pending > 0 {
                p.sizes_pending - 1
            } else {
                0
            })
            &&& q.sizes_calculating == (p.sizes_calculating
                && q.sizes_pending != 0)
            &&& q.view_is_current()
            &&& q.wf()
            &&& q.cursor == clamp_cursor(
                p.cursor as nat,
                q.view_indices@.len(),
            )
            &&& q == (Panel {
                dir_sizes: q.dir_sizes,
                sizes_pending: q.sizes_pending,
                sizes_calculating: q.sizes_calculating,
                view_indices: q.view_indices,
                cursor: q.cursor,
                ..p
            })
        })
}

/// What `Panel::on_git_info_loaded` does.
pub open spec fn panel_on_git_info_loaded(p: Panel, q: Panel, path: Seq<char>, branch: Option<String>, is_dirty: bool) -> bool {
    &&& (if !same_path(path, p.path@) {
            q == p
        } else {
            q == (Panel { git_branch: branch, git_dirty: is_dirty, ..p })
        })
}

/// The paths an operation acts on: the marked names if there are any,
/// otherwise the cursor entry unless it is `..`.
pub open spec fn targets_of(p: Panel) -> Seq<Seq<char>> {
    if p.marked.seq().len() > 0 {
        p.marked.seq().map_values(|n: Seq<char>| joined(p.path@, n))
    } else {
        match p.cursor_entry_spec() {
            Some(e) => if e.name@ != dotdot() {
                seq![joined(p.path@, e.name@)]
            } else {
                Seq::empty()
            },
            None => Seq::empty(),
        }
    }
}

/// What `Panel::nav_enter` gives.
pub open spec fn panel_enter_effect(p: Panel, r: Option<Effect>) -> bool {
    &&& (match p.cursor_entry_spec() {
            None => r is None,
            Some(e) => if e.name@ == dotdot() {
                match parent_of(p.path@) {
                    Some(parent) => r matches Some(Effect::LoadDir { path, side }) && path@ == parent
                        && side == p.side,
                    None => r is None,
                }
            } else if e.is_dir {
                r matches Some(Effect::LoadDir { path, side }) && path@ == joined(
                    p.path@,
                    e.name@,
                ) && side == p.side
            } else {
                r matches Some(Effect::OpenWithOs { path }) && path@ == joined(
                    p.path@,
                    e.name@,
                )
            },
        })
}

/// What `Panel::nav_parent` gives.
pub open spec fn panel_parent_effect(p: Panel, r: Option<Effect>) -> bool {
    &&& (match parent_of(p.path@) {
            Some(parent) => r matches Some(Effect::LoadDir { path, side }) && path@ == parent && side
                == p.side,
            None => r is None,
        })
}

} // verus!
