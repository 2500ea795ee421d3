//! Turning repository data into the git view's lists: the status of a path,
//! and the branch list (local branches first, then remote-only ones).
use vstd::prelude::*;
use crate::action::{BranchInfo, GitEntry, GitIndexStatus, GitWorktreeStatus};
use crate::names::{lemma_push_contains, lemma_push_distinct, string_views};
use crate::sort::{sort_indices, sorted_with, IndexOrder};
use crate::text::{
    chars_of, compare_chars, ends_with_chars, ends_with_seq, lemma_lex_order_equal,
    lemma_lex_order_flip, lemma_lex_order_trans, lex_order, string_from_chars, Order,
};

verus! {

/// The status bits of one path, as plain flags.
#[derive(Debug, Clone, Copy, PartialEq, Eq, Structural)]
pub struct StatusFlags {
    pub index_new: bool,
    pub index_modified: bool,
    pub index_typechange: bool,
    pub index_deleted: bool,
    pub index_renamed: bool,
    pub wt_new: bool,
    pub wt_modified: bool,
    pub wt_typechange: bool,
    pub wt_deleted: bool,
}

pub open spec fn index_status_of(f: StatusFlags) -> Option<GitIndexStatus> {
    if f.index_new {
        Some(GitIndexStatus::Added)
    } else if f.index_modified || f.index_typechange {
        Some(GitIndexStatus::Modified)
    } else if f.index_deleted {
        Some(GitIndexStatus::Deleted)
    } else if f.index_renamed {
        Some(GitIndexStatus::Renamed)
    } else {
        None
    }
}

pub open spec fn worktree_status_of(f: StatusFlags) -> Option<GitWorktreeStatus> {
    if f.wt_new {
        Some(GitWorktreeStatus::Untracked)
    } else if f.wt_modified || f.wt_typechange {
        Some(GitWorktreeStatus::Modified)
    } else if f.wt_deleted {
        Some(GitWorktreeStatus::Deleted)
    } else {
        None
    }
}

/// The git-view entry for a path with the given status, or `None` when the
/// path has neither a staged nor a working-tree change.
pub fn classify_status(path: String, flags: &StatusFlags) -> (r: Option<GitEntry>)
    ensures
        (index_status_of(*flags) is None && worktree_status_of(*flags) is None) ==> r is None,
        (index_status_of(*flags) is Some || worktree_status_of(*flags) is Some) ==> r == Some(
            GitEntry {
                path,
                index: index_status_of(*flags),
                worktree: worktree_status_of(*flags),
            },
        ),
{
    let index = if flags.index_new {
        Some(GitIndexStatus::Added)
    } else if flags.index_modified || flags.index_typechange {
        Some(GitIndexStatus::Modified)
    } else if flags.index_deleted {
        Some(GitIndexStatus::Deleted)
    } else if flags.index_renamed {
        Some(GitIndexStatus::Renamed)
    } else {
        None
    };
    let worktree = if flags.wt_new {
        Some(GitWorktreeStatus::Untracked)
    } else if flags.wt_modified || flags.wt_typechange {
        Some(GitWorktreeStatus::Modified)
    } else if flags.wt_deleted {
        Some(GitWorktreeStatus::Deleted)
    } else {
        None
    };
    if index.is_some() || worktree.is_some() {
        Some(GitEntry { path, index, worktree })
    } else {
        None
    }
}

// --- Branch list ---

/// Items flagged `first` come first; then by name; then by position.
pub open spec fn keyed_precedes(names: Seq<Seq<char>>, first: Seq<bool>, i: int, j: int) -> bool {
    ||| first[i] && !first[j]
    ||| first[i] == first[j] && lex_order(names[i], names[j]) == Order::Less
    ||| first[i] == first[j] && lex_order(names[i], names[j]) == Order::Equal && i < j
}

/// `p` lists each of `0..n` once, sorted by `prec`.
pub open spec fn sorted_permutation(p: Seq<usize>, n: nat, prec: spec_fn(int, int) -> bool) -> bool {
    &&& p.len() == n
    &&& p.no_duplicates()
    &&& forall|k: int| 0 <= k < p.len() ==> #[trigger] p[k] < n
    &&& sorted_with(prec, p)
}

struct KeyedOrder {
    names: Vec<Vec<char>>,
    first: Vec<bool>,
}

impl KeyedOrder {
    spec fn name_views(&self) -> Seq<Seq<char>> {
        self.names@.map_values(|v: Vec<char>| v@)
    }
}

impl IndexOrder for KeyedOrder {
    closed spec fn in_domain(&self, i: int) -> bool {
        0 <= i < self.names@.len() && self.first@.len() == self.names@.len()
    }

    closed spec fn precedes(&self, i: int, j: int) -> bool {
        keyed_precedes(self.name_views(), self.first@, i, j)
    }

    fn precedes_exec(&self, i: usize, j: usize) -> (r: bool) {
        let fi = self.first[i];
        let fj = self.first[j];
        if fi && !fj {
            return true;
        }
        if fi != fj {
            return false;
        }
        match compare_chars(&self.names[i], &self.names[j]) {
            Order::Less => true,
            Order::Equal => i < j,
            Order::Greater => false,
        }
    }

    proof fn lemma_strict_total(&self, i: int, j: int, k: int) {
        let n = self.name_views();
        lemma_lex_order_flip(n[i], n[j]);
        lemma_lex_order_equal(n[i], n[j]);
        lemma_lex_order_equal(n[j], n[k]);
        lemma_lex_order_equal(n[i], n[k]);
        lemma_lex_order_equal(n[i], n[i]);
        if lex_order(n[i], n[j]) != Order::Greater && lex_order(n[j], n[k]) != Order::Greater {
            lemma_lex_order_trans(n[i], n[j], n[k], Order::Less);
        }
    }
}

pub fn sorted_positions(names: Vec<Vec<char>>, first: Vec<bool>) -> (r: Vec<usize>)
    requires
        first@.len() == names@.len(),
    ensures
        sorted_permutation(
            r@,
            names@.len(),
            |i: int, j: int| keyed_precedes(names@.map_values(|v: Vec<char>| v@), first@, i, j),
        ),
{
    let n = names.len();
    let o = KeyedOrder { names, first };
    let mut idx: Vec<usize> = Vec::new();
    let mut i: usize = 0;
    while i < n
        invariant
            i <= n,
            n == o.names@.len(),
            o.first@.len() == o.names@.len(),
            idx@.len() == i,
            forall|k: int| 0 <= k < i ==> #[trigger] idx@[k] == k,
        decreases n - i,
    {
        idx.push(i);
        i = i + 1;
    }
    proof {
        assert forall|k: int| 0 <= k < idx@.len() implies o.in_domain(#[trigger] idx@[k] as int) by {}
        assert forall|a: int, b: int| 0 <= a < idx@.len() && 0 <= b < idx@.len() && a != b implies idx@[a]
            != idx@[b] by {}
    }
    let r = sort_indices(&o, &idx);
    let ghost nv = o.names@.map_values(|v: Vec<char>| v@);
    proof {
        assert forall|k: int| 0 <= k < r@.len() implies #[trigger] r@[k] < n by {
            assert(o.in_domain(r@[k] as int));
        }
        assert forall|a: int, b: int| 0 <= a < b < r@.len() implies #[trigger] keyed_precedes(
            nv,
            o.first@,
            r@[a] as int,
            r@[b] as int,
        ) by {
            assert(o.precedes(r@[a] as int, r@[b] as int));
        }
    }
    r
}

/// The part of a remote branch name after the first `/`, or the whole name
/// when there is none (`"origin/foo"` gives `"foo"`).
pub open spec fn after_first_slash(s: Seq<char>) -> Seq<char>
    decreases s.len(),
{
    if s.len() == 0 {
        s
    } else if s[0] == '/' {
        s.drop_first()
    } else if !s.contains('/') {
        s
    } else {
        after_first_slash(s.drop_first())
    }
}

fn short_branch_name(s: &[char]) -> (r: Vec<char>)
    ensures
        r@ == after_first_slash(s@),
{
    let mut i: usize = 0;
    assert(s@.skip(0) =~= s@);
    while i < s.len() && s[i] != '/'
        invariant
            i <= s.len(),
            forall|k: int| 0 <= k < i ==> s@[k] != '/',
            s@.contains('/') ==> after_first_slash(s@) == after_first_slash(s@.skip(i as int)),
        decreases s.len() - i,
    {
        proof {
            assert(s@.skip(i as int)[0] == s@[i as int]);
            assert(s@.skip(i as int).drop_first() =~= s@.skip(i + 1));
            if s@.contains('/') {
                let w = choose|w: int| 0 <= w < s@.len() && s@[w] == '/';
                assert(w >= i);
                assert(s@.skip(i as int)[w - i] == '/');
                assert(s@.skip(i as int).contains('/'));
            }
        }
        i = i + 1;
    }
    if i == s.len() {
        assert(!s@.contains('/'));
        let mut r: Vec<char> = Vec::new();
        let mut j: usize = 0;
        while j < s.len()
            invariant
                j <= s.len(),
                r@ == s@.take(j as int),
            decreases s.len() - j,
        {
            r.push(s[j]);
            assert(s@.take(j + 1) =~= s@.take(j as int).push(s@[j as int]));
            j = j + 1;
        }
        assert(s@.take(s.len() as int) =~= s@);
        proof {
            lemma_no_slash_short(s@);
        }
        r
    } else {
        proof {
            assert(s@.skip(i as int)[0] == '/');
            assert(s@[i as int] == '/');
            assert(s@.contains('/'));
        }
        let mut r: Vec<char> = Vec::new();
        let mut j: usize = i + 1;
        while j < s.len()
            invariant
                i < s.len(),
                i + 1 <= j <= s.len(),
                r@ == s@.subrange(i + 1, j as int),
            decreases s.len() - j,
        {
            r.push(s[j]);
            assert(s@.subrange(i + 1, j + 1) =~= s@.subrange(i + 1, j as int).push(s@[j as int]));
            j = j + 1;
        }
        assert(s@.skip(i as int).drop_first() =~= s@.subrange(i + 1, s.len() as int));
        r
    }
}

proof fn lemma_no_slash_short(s: Seq<char>)
    requires
        !s.contains('/'),
    ensures
        after_first_slash(s) == s,
{
}

/// `/HEAD`
pub open spec fn head_suffix() -> Seq<char> {
    seq!['/', 'H', 'E', 'A', 'D']
}

/// The remote branch names that get an entry of their own: not the `HEAD`
/// pointer, and not shadowed by a local branch of the same short name.
pub open spec fn remote_candidates(locals: Seq<Seq<char>>, remotes: Seq<Seq<char>>) -> Seq<Seq<char>>
    decreases remotes.len(),
{
    if remotes.len() == 0 {
        Seq::empty()
    } else {
        let prev = remote_candidates(locals, remotes.drop_last());
        let full = remotes.last();
        if !ends_with_seq(full, head_suffix()) && !locals.contains(after_first_slash(full)) {
            prev.push(full)
        } else {
            prev
        }
    }
}

/// The local branch named `name` as listed.
pub open spec fn is_local_entry(b: BranchInfo, name: Seq<char>, current: Option<Seq<char>>) -> bool {
    &&& b.name@ == name
    &&& b.is_local
    &&& b.is_current == (current == Some(name))
    &&& b.remote_ref is None
}

/// The remote-only branch `full` as listed.
pub open spec fn is_remote_entry(b: BranchInfo, full: Seq<char>) -> bool {
    &&& b.name@ == after_first_slash(full)
    &&& !b.is_local
    &&& !b.is_current
    &&& b.remote_ref matches Some(rr) && rr@ == full
}

pub open spec fn current_flags(locals: Seq<Seq<char>>, current: Option<Seq<char>>) -> Seq<bool> {
    locals.map_values(|n: Seq<char>| current == Some(n))
}

pub open spec fn opt_view(o: Option<String>) -> Option<Seq<char>> {
    match o {
        Some(c) => Some(c@),
        None => None,
    }
}

/// `pl` sorts the local branches: the current one first, then by name.
pub open spec fn local_order_ok(pl: Seq<usize>, lv: Seq<Seq<char>>, cur: Option<Seq<char>>) -> bool {
    sorted_permutation(pl, lv.len(), |i: int, j: int| keyed_precedes(lv, current_flags(lv, cur), i, j))
}

/// `pr` sorts the remote candidates by short name.
pub open spec fn remote_order_ok(pr: Seq<usize>, rc: Seq<Seq<char>>) -> bool {
    sorted_permutation(
        pr,
        rc.len(),
        |i: int, j: int|
            keyed_precedes(
                rc.map_values(|f: Seq<char>| after_first_slash(f)),
                Seq::new(rc.len(), |x: int| false),
                i,
                j,
            ),
    )
}

/// The branch list: local branches (current first, then by name), then the
/// remote-only branches by short name.
pub fn assemble_branches(current: Option<String>, locals: Vec<String>, remotes: Vec<String>) -> (r:
    Vec<BranchInfo>)
    ensures
        ({
            let lv = string_views(locals@);
            let cur = opt_view(current);
            let rc = remote_candidates(lv, string_views(remotes@));
            &&& r@.len() == lv.len() + rc.len()
            &&& exists|pl: Seq<usize>|
                #[trigger] local_order_ok(pl, lv, cur) && forall|k: int|
                    0 <= k < lv.len() ==> is_local_entry(#[trigger] r@[k], lv[pl[k] as int], cur)
            &&& exists|pr: Seq<usize>|
                #[trigger] remote_order_ok(pr, rc) && forall|k: int|
                    0 <= k < rc.len() ==> is_remote_entry(#[trigger] r@[lv.len() + k], rc[pr[k] as int])
        }),
{
    let ghost lv = string_views(locals@);
    let ghost cur = opt_view(current);
    let cur_chars: Option<Vec<char>> = match &current {
        Some(c) => Some(chars_of(c.as_str())),
        None => None,
    };
    // local names and current flags
    let mut lnames: Vec<Vec<char>> = Vec::new();
    let mut lflags: Vec<bool> = Vec::new();
    let mut i: usize = 0;
    while i < locals.len()
        invariant
            i <= locals@.len(),
            lv == string_views(locals@),
            cur == opt_view(current),
            cur_chars matches Some(cc) ==> cur == Some(cc@),
            cur_chars is None ==> cur is None,
            lnames@.len() == i,
            lflags@.len() == i,
            forall|k: int| 0 <= k < i ==> (#[trigger] lnames@[k])@ == lv[k],
            forall|k: int| 0 <= k < i ==> #[trigger] lflags@[k] == (cur == Some(lv[k])),
        decreases locals.len() - i,
    {
        let nm = chars_of(locals[i].as_str());
        let flag = match &cur_chars {
            Some(cc) => {
                proof {
                    lemma_lex_order_equal(cc@, nm@);
                }
                match compare_chars(cc, &nm) {
                    Order::Equal => true,
                    _ => false,
                }
            },
            None => false,
        };
        lnames.push(nm);
        lflags.push(flag);
        i = i + 1;
    }
    proof {
        assert(lnames@.map_values(|v: Vec<char>| v@) =~= lv);
        assert(lflags@ =~= current_flags(lv, cur));
    }
    let pl = sorted_positions(lnames, lflags);
    let mut r: Vec<BranchInfo> = Vec::new();
    let mut k: usize = 0;
    while k < pl.len()
        invariant
            k <= pl@.len(),
            lv == string_views(locals@),
            local_order_ok(pl@, lv, cur),
            cur == opt_view(current),
            r@.len() == k,
            forall|q: int| 0 <= q < k ==> is_local_entry(#[trigger] r@[q], lv[pl@[q] as int], cur),
        decreases pl.len() - k,
    {
        let p = pl[k];
        r.push(
            BranchInfo {
                name: locals[p].clone(),
                is_local: true,
                is_current: match &current {
                    Some(c) => str_equal(c, &locals[p]),
                    None => false,
                },
                remote_ref: None,
            },
        );
        k = k + 1;
    }
    // remote candidates
    let mut cand_full: Vec<String> = Vec::new();
    let mut cand_short: Vec<Vec<char>> = Vec::new();
    let head: Vec<char> = vec!['/', 'H', 'E', 'A', 'D'];
    assert(head@ =~= head_suffix());
    let mut j: usize = 0;
    while j < remotes.len()
        invariant
            j <= remotes@.len(),
            lv == string_views(locals@),
            head@ == head_suffix(),
            string_views(cand_full@) == remote_candidates(lv, string_views(remotes@).take(j as int)),
            cand_short@.len() == cand_full@.len(),
            forall|q: int|
                0 <= q < cand_short@.len() ==> (#[trigger] cand_short@[q])@ == after_first_slash(
                    cand_full@[q]@,
                ),
        decreases remotes.len() - j,
    {
        proof {
            assert(string_views(remotes@).take(j + 1).drop_last() =~= string_views(remotes@).take(
                j as int,
            ));
        }
        let full = chars_of(remotes[j].as_str());
        if !ends_with_chars(&full, &head) {
            let short = short_branch_name(&full);
            let short_s = string_from_chars(&short);
            if !contains_string(&locals, &short_s) {
                let ghost c0 = cand_full@;
                cand_full.push(remotes[j].clone());
                cand_short.push(short);
                proof {
                    assert(string_views(cand_full@) =~= string_views(c0).push(remotes@[j as int]@));
                }
            }
        }
        j = j + 1;
    }
    assert(string_views(remotes@).take(remotes.len() as int) =~= string_views(remotes@));
    let ghost rc = string_views(cand_full@);
    let nc = cand_full.len();
    let mut falses: Vec<bool> = Vec::new();
    let mut q: usize = 0;
    while q < nc
        invariant
            q <= nc,
            falses@.len() == q,
            forall|t: int| 0 <= t < q ==> !(#[trigger] falses@[t]),
        decreases nc - q,
    {
        falses.push(false);
        q = q + 1;
    }
    proof {
        assert(cand_short@.map_values(|v: Vec<char>| v@) =~= rc.map_values(
            |f: Seq<char>| after_first_slash(f),
        ));
        assert(falses@ =~= Seq::new(rc.len(), |x: int| false));
    }
    let pr = sorted_positions(cand_short, falses);
    let mut t: usize = 0;
    let nl = r.len();
    while t < pr.len()
        invariant
            t <= pr@.len(),
            nl == lv.len(),
            local_order_ok(pl@, lv, cur),
            rc == string_views(cand_full@),
            remote_order_ok(pr@, rc),
            r@.len() == nl + t,
            forall|x: int| 0 <= x < nl ==> is_local_entry(#[trigger] r@[x], lv[pl@[x] as int], cur),
            forall|x: int|
                0 <= x < t ==> is_remote_entry(#[trigger] r@[nl + x], rc[pr@[x] as int]),
        decreases pr.len() - t,
    {
        let p = pr[t];
        let full = cand_full[p].clone();
        let short = short_branch_name(&chars_of(full.as_str()));
        r.push(
            BranchInfo {
                name: string_from_chars(&short),
                is_local: false,
                is_current: false,
                remote_ref: Some(full),
            },
        );
        t = t + 1;
    }
    r
}

fn str_equal(a: &String, b: &String) -> (r: bool)
    ensures
        r == (a@ == b@),
{
    crate::text::str_eq(a.as_str(), b.as_str())
}

fn contains_string(v: &Vec<String>, s: &String) -> (r: bool)
    ensures
        r == string_views(v@).contains(s@),
{
    let mut i: usize = 0;
    while i < v.len()
        invariant
            i <= v@.len(),
            forall|k: int| 0 <= k < i ==> v@[k]@ != s@,
        decreases v.len() - i,
    {
        if v[i] == *s {
            assert(string_views(v@)[i as int] == s@);
            return true;
        }
        i = i + 1;
    }
    false
}

} // verus!
