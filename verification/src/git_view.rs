//! Git mode: the working tree and staging lists side by side, their
//! cursors and marks, and the rules that turn repository data into them.
use vstd::prelude::*;
use crate::action::{BranchInfo, GitEntry, GitIndexStatus, GitWorktreeStatus};
use crate::names::{lemma_push_contains, lemma_push_distinct, string_views, NameSet};
use crate::sort::{sort_indices, IndexOrder};
use crate::text::{
    chars_of, ends_with_chars, ends_with_seq, lemma_lex_order_equal, lemma_lex_order_flip,
    lemma_lex_order_trans, lex_order, string_from_chars, str_eq, compare_chars, Order,
};

verus! {

#[derive(Debug, Clone, Copy, PartialEq, Eq, Structural)]
pub enum GitPane {
    Worktree,
    Staging,
}

/// The entries that have a working-tree change, in order.
pub open spec fn worktree_list(entries: Seq<GitEntry>) -> Seq<GitEntry>
    decreases entries.len(),
{
    if entries.len() == 0 {
        Seq::empty()
    } else if entries.last().worktree is Some {
        worktree_list(entries.drop_last()).push(entries.last())
    } else {
        worktree_list(entries.drop_last())
    }
}

/// The entries that have a staged change, in order.
pub open spec fn staging_list(entries: Seq<GitEntry>) -> Seq<GitEntry>
    decreases entries.len(),
{
    if entries.len() == 0 {
        Seq::empty()
    } else if entries.last().index is Some {
        staging_list(entries.drop_last()).push(entries.last())
    } else {
        staging_list(entries.drop_last())
    }
}

pub open spec fn entry_paths(entries: Seq<GitEntry>) -> Seq<Seq<char>> {
    entries.map_values(|e: GitEntry| e.path@)
}

/// `c` decremented, but not below 0.
pub open spec fn step_up(c: nat) -> nat {
    if c > 0 {
        (c - 1) as nat
    } else {
        0
    }
}

/// `c` incremented, but not past the last of `len` entries.
pub open spec fn step_down(c: nat, len: nat) -> nat {
    let max: nat = if len > 0 {
        (len - 1) as nat
    } else {
        0
    };
    if c + 1 <= max {
        c + 1
    } else {
        max
    }
}

/// `c` clamped to the last of `len` entries (0 when empty).
pub open spec fn clamp_to(c: nat, len: nat) -> nat {
    let max: nat = if len > 0 {
        (len - 1) as nat
    } else {
        0
    };
    if c <= max {
        c
    } else {
        max
    }
}

pub struct GitView {
    pub git_root: String,
    pub branch: String,
    pub entries: Vec<GitEntry>,
    pub active_pane: GitPane,
    pub left_cursor: usize,
    pub right_cursor: usize,
    pub left_offset: usize,
    pub right_offset: usize,
    pub left_marked: NameSet,
    pub right_marked: NameSet,
}

fn filtered_refs(entries: &Vec<GitEntry>, worktree: bool) -> (r: Vec<&GitEntry>)
    ensures
        r@.len() == (if worktree {
            worktree_list(entries@)
        } else {
            staging_list(entries@)
        }).len(),
        forall|i: int|
            0 <= i < r@.len() ==> *(#[trigger] r@[i]) == (if worktree {
                worktree_list(entries@)
            } else {
                staging_list(entries@)
            })[i],
{
    let mut r: Vec<&GitEntry> = Vec::new();
    let mut i: usize = 0;
    while i < entries.len()
        invariant
            i <= entries@.len(),
            r@.len() == (if worktree {
                worktree_list(entries@.take(i as int))
            } else {
                staging_list(entries@.take(i as int))
            }).len(),
            forall|k: int|
                0 <= k < r@.len() ==> *(#[trigger] r@[k]) == (if worktree {
                    worktree_list(entries@.take(i as int))
                } else {
                    staging_list(entries@.take(i as int))
                })[k],
        decreases entries.len() - i,
    {
        proof {
            assert(entries@.take(i + 1).drop_last() =~= entries@.take(i as int));
        }
        let e = &entries[i];
        let keep = if worktree {
            e.worktree.is_some()
        } else {
            e.index.is_some()
        };
        if keep {
            r.push(e);
        }
        i = i + 1;
    }
    assert(entries@.take(entries.len() as int) =~= entries@);
    r
}

impl GitView {
    pub fn new(git_root: String, branch: String) -> (r: GitView)
        ensures
            r.git_root == git_root,
            r.branch == branch,
            r.entries@.len() == 0,
            r.active_pane == GitPane::Worktree,
            r.left_cursor == 0,
            r.right_cursor == 0,
            r.left_offset == 0,
            r.right_offset == 0,
            r.left_marked@ == Set::<Seq<char>>::empty(),
            r.right_marked@ == Set::<Seq<char>>::empty(),
    {
        GitView {
            git_root,
            branch,
            entries: Vec::new(),
            active_pane: GitPane::Worktree,
            left_cursor: 0,
            right_cursor: 0,
            left_offset: 0,
            right_offset: 0,
            left_marked: NameSet::new(),
            right_marked: NameSet::new(),
        }
    }

    /// The entries with a working-tree change.
    pub fn worktree_entries(&self) -> (r: Vec<&GitEntry>)
        ensures
            r@.len() == worktree_list(self.entries@).len(),
            forall|i: int| 0 <= i < r@.len() ==> *(#[trigger] r@[i]) == worktree_list(self.entries@)[i],
    {
        filtered_refs(&self.entries, true)
    }

    /// The entries with a staged change.
    pub fn staging_entries(&self) -> (r: Vec<&GitEntry>)
        ensures
            r@.len() == staging_list(self.entries@).len(),
            forall|i: int| 0 <= i < r@.len() ==> *(#[trigger] r@[i]) == staging_list(self.entries@)[i],
    {
        filtered_refs(&self.entries, false)
    }

    /// Takes in a new status: clamps both cursors into their lists and drops
    /// the marks of paths no longer listed.
    pub fn on_status_loaded(&mut self, branch: String, entries: Vec<GitEntry>)
        ensures
            git_on_status_loaded(*old(self), *final(self), branch, entries),
    {
        self.branch = branch;
        self.entries = entries;
        let wt = self.worktree_entries();
        let st = self.staging_entries();
        let wt_max = if wt.len() > 0 {
            wt.len() - 1
        } else {
            0
        };
        let st_max = if st.len() > 0 {
            st.len() - 1
        } else {
            0
        };
        let wt_paths = paths_of(&wt);
        let st_paths = paths_of(&st);
        if self.left_cursor > wt_max {
            self.left_cursor = wt_max;
        }
        if self.right_cursor > st_max {
            self.right_cursor = st_max;
        }
        proof {
            assert(string_views(wt_paths@) =~= entry_paths(worktree_list(self.entries@)));
            assert(string_views(st_paths@) =~= entry_paths(staging_list(self.entries@)));
        }
        self.left_marked.retain_among(&wt_paths);
        self.right_marked.retain_among(&st_paths);
        proof {
            assert((|n: Seq<char>| string_views(wt_paths@).contains(n)) =~= (|p: Seq<char>|
                entry_paths(worktree_list(self.entries@)).contains(p)));
            assert((|n: Seq<char>| string_views(st_paths@).contains(n)) =~= (|p: Seq<char>|
                entry_paths(staging_list(self.entries@)).contains(p)));
        }
    }

    // --- Navigation ---

    pub fn nav_up(&mut self)
        ensures
            git_nav_up(*old(self), *final(self)),
    {
        match self.active_pane {
            GitPane::Worktree => {
                if self.left_cursor > 0 {
                    self.left_cursor = self.left_cursor - 1;
                }
            },
            GitPane::Staging => {
                if self.right_cursor > 0 {
                    self.right_cursor = self.right_cursor - 1;
                }
            },
        }
    }

    /// The cursor of the active list.
    pub open spec fn active_cursor_spec(&self) -> usize {
        match self.active_pane {
            GitPane::Worktree => self.left_cursor,
            GitPane::Staging => self.right_cursor,
        }
    }

    /// The cursor of the active list.
    pub fn active_cursor(&self) -> (r: usize)
        ensures
            r == self.active_cursor_spec(),
    {
        match self.active_pane {
            GitPane::Worktree => self.left_cursor,
            GitPane::Staging => self.right_cursor,
        }
    }

    pub fn nav_down(&mut self)
        requires
            old(self).active_cursor_spec() < usize::MAX,
        ensures
            git_nav_down(*old(self), *final(self)),
    {
        match self.active_pane {
            GitPane::Worktree => {
                let n = self.worktree_entries().len();
                let max = if n > 0 {
                    n - 1
                } else {
                    0
                };
                let c = self.left_cursor + 1;
                self.left_cursor = if c <= max {
                    c
                } else {
                    max
                };
            },
            GitPane::Staging => {
                let n = self.staging_entries().len();
                let max = if n > 0 {
                    n - 1
                } else {
                    0
                };
                let c = self.right_cursor + 1;
                self.right_cursor = if c <= max {
                    c
                } else {
                    max
                };
            },
        }
    }

    pub fn switch_pane(&mut self)
        ensures
            git_switch_pane(*old(self), *final(self)),
    {
        self.active_pane = match self.active_pane {
            GitPane::Worktree => GitPane::Staging,
            GitPane::Staging => GitPane::Worktree,
        };
    }

    /// Toggles the mark on the cursor entry of the active list and moves down.
    pub fn toggle_mark(&mut self)
        ensures
            git_toggle_mark(*old(self), *final(self)),
    {
        match self.active_pane {
            GitPane::Worktree => {
                let (path, n) = {
                    let entries = self.worktree_entries();
                    if self.left_cursor >= entries.len() {
                        return ;
                    }
                    (entries[self.left_cursor].path.clone(), entries.len())
                };
                let max = if n > 0 {
                    n - 1
                } else {
                    0
                };
                if !self.left_marked.remove(path.as_str()) {
                    self.left_marked.insert(path);
                }
                let c = self.left_cursor + 1;
                self.left_cursor = if c <= max {
                    c
                } else {
                    max
                };
            },
            GitPane::Staging => {
                let (path, n) = {
                    let entries = self.staging_entries();
                    if self.right_cursor >= entries.len() {
                        return ;
                    }
                    (entries[self.right_cursor].path.clone(), entries.len())
                };
                let max = if n > 0 {
                    n - 1
                } else {
                    0
                };
                if !self.right_marked.remove(path.as_str()) {
                    self.right_marked.insert(path);
                }
                let c = self.right_cursor + 1;
                self.right_cursor = if c <= max {
                    c
                } else {
                    max
                };
            },
        }
    }

    // --- Targets for operations ---

    /// Paths to stage: the marked working-tree paths if any, else the
    /// working-tree entry under the cursor.
    pub fn stage_targets(&self) -> (r: Vec<String>)
        ensures
            string_views(r@) == (if self.left_marked.seq().len() > 0 {
                self.left_marked.seq()
            } else if self.left_cursor < worktree_list(self.entries@).len() {
                seq![worktree_list(self.entries@)[self.left_cursor as int].path@]
            } else {
                Seq::empty()
            }),
    {
        if !self.left_marked.is_empty() {
            return self.left_marked.to_vec();
        }
        let entries = self.worktree_entries();
        let mut r: Vec<String> = Vec::new();
        if self.left_cursor < entries.len() {
            r.push(entries[self.left_cursor].path.clone());
        }
        assert(string_views(r@) =~= (if self.left_cursor < worktree_list(self.entries@).len() {
            seq![worktree_list(self.entries@)[self.left_cursor as int].path@]
        } else {
            Seq::empty()
        }));
        r
    }

    /// Paths to unstage: the marked staged paths if any, else the staged
    /// entry under the cursor.
    pub fn unstage_targets(&self) -> (r: Vec<String>)
        ensures
            string_views(r@) == (if self.right_marked.seq().len() > 0 {
                self.right_marked.seq()
            } else if self.right_cursor < staging_list(self.entries@).len() {
                seq![staging_list(self.entries@)[self.right_cursor as int].path@]
            } else {
                Seq::empty()
            }),
    {
        if !self.right_marked.is_empty() {
            return self.right_marked.to_vec();
        }
        let entries = self.staging_entries();
        let mut r: Vec<String> = Vec::new();
        if self.right_cursor < entries.len() {
            r.push(entries[self.right_cursor].path.clone());
        }
        assert(string_views(r@) =~= (if self.right_cursor < staging_list(self.entries@).len() {
            seq![staging_list(self.entries@)[self.right_cursor as int].path@]
        } else {
            Seq::empty()
        }));
        r
    }

    /// Something is staged.
    pub fn has_staged(&self) -> (r: bool)
        ensures
            r == (staging_list(self.entries@).len() > 0),
    {
        self.staging_entries().len() > 0
    }
}

pub open spec fn other_pane(p: GitPane) -> GitPane {
    match p {
        GitPane::Worktree => GitPane::Staging,
        GitPane::Staging => GitPane::Worktree,
    }
}

/// Switching panes twice comes back to the same pane.
pub proof fn law_switch_pane_involution(p: GitPane)
    ensures
        other_pane(other_pane(p)) == p,
        other_pane(p) != p,
{
}

fn paths_of(entries: &Vec<&GitEntry>) -> (r: Vec<String>)
    ensures
        string_views(r@) == entries@.map_values(|e: &GitEntry| e.path@),
{
    let mut r: Vec<String> = Vec::new();
    let mut i: usize = 0;
    while i < entries.len()
        invariant
            i <= entries@.len(),
            string_views(r@) == entries@.take(i as int).map_values(|e: &GitEntry| e.path@),
        decreases entries.len() - i,
    {
        let ghost r0 = r@;
        r.push(entries[i].path.clone());
        proof {
            assert(string_views(r@) =~= string_views(r0).push(entries@[i as int].path@));
            assert(entries@.take(i + 1).map_values(|e: &GitEntry| e.path@) =~= entries@.take(
                i as int,
            ).map_values(|e: &GitEntry| e.path@).push(entries@[i as int].path@));
        }
        i = i + 1;
    }
    assert(entries@.take(entries.len() as int) =~= entries@);
    r
}

/// What `GitView::on_status_loaded` does.
pub open spec fn git_on_status_loaded(p: GitView, q: GitView, branch: String, entries: Vec<GitEntry>) -> bool {
    &&& (q.branch == branch)
    &&& (q.entries == entries)
    &&& (q.left_cursor == clamp_to(
            p.left_cursor as nat,
            worktree_list(entries@).len(),
        ))
    &&& (q.right_cursor == clamp_to(
            p.right_cursor as nat,
            staging_list(entries@).len(),
        ))
    &&& (q.left_marked@ == p.left_marked@.filter(
            |p: Seq<char>| entry_paths(worktree_list(entries@)).contains(p),
        ))
    &&& (q.right_marked@ == p.right_marked@.filter(
            |p: Seq<char>| entry_paths(staging_list(entries@)).contains(p),
        ))
    &&& (q.git_root == p.git_root)
    &&& (q.active_pane == p.active_pane)
    &&& (q.left_offset == p.left_offset)
    &&& (q.right_offset == p.right_offset)
}

/// What `GitView::nav_up` does.
pub open spec fn git_nav_up(p: GitView, q: GitView) -> bool {
    &&& (q.left_cursor == (if p.active_pane == GitPane::Worktree {
            step_up(p.left_cursor as nat)
        } else {
            p.left_cursor as nat
        }))
    &&& (q.right_cursor == (if p.active_pane == GitPane::Staging {
            step_up(p.right_cursor as nat)
        } else {
            p.right_cursor as nat
        }))
    &&& (q == (GitView {
            left_cursor: q.left_cursor,
            right_cursor: q.right_cursor,
            ..p
        }))
}

/// What `GitView::nav_down` does.
pub open spec fn git_nav_down(p: GitView, q: GitView) -> bool {
    &&& (q.left_cursor == (if p.active_pane == GitPane::Worktree {
            step_down(p.left_cursor as nat, worktree_list(p.entries@).len())
        } else {
            p.left_cursor as nat
        }))
    &&& (q.right_cursor == (if p.active_pane == GitPane::Staging {
            step_down(p.right_cursor as nat, staging_list(p.entries@).len())
        } else {
            p.right_cursor as nat
        }))
    &&& (q == (GitView {
            left_cursor: q.left_cursor,
            right_cursor: q.right_cursor,
            ..p
        }))
}

/// What `GitView::switch_pane` does.
pub open spec fn git_switch_pane(p: GitView, q: GitView) -> bool {
    &&& (q.active_pane == other_pane(p.active_pane))
    &&& (q == (GitView { active_pane: q.active_pane, ..p }))
}

/// What `GitView::toggle_mark` does.
pub open spec fn git_toggle_mark(p: GitView, q: GitView) -> bool {
    &&& (p.active_pane == GitPane::Worktree ==> {
            let l = worktree_list(p.entries@);
            if p.left_cursor < l.len() {
                let path = l[p.left_cursor as int].path@;
                &&& q.left_marked@ =~= (if p.left_marked@.contains(path) {
                    p.left_marked@.remove(path)
                } else {
                    p.left_marked@.insert(path)
                })
                &&& q.left_cursor == step_down(p.left_cursor as nat, l.len())
                &&& q == (GitView {
                    left_marked: q.left_marked,
                    left_cursor: q.left_cursor,
                    ..p
                })
            } else {
                q == p
            }
        })
    &&& (p.active_pane == GitPane::Staging ==> {
            let l = staging_list(p.entries@);
            if p.right_cursor < l.len() {
                let path = l[p.right_cursor as int].path@;
                &&& q.right_marked@ =~= (if p.right_marked@.contains(path) {
                    p.right_marked@.remove(path)
                } else {
                    p.right_marked@.insert(path)
                })
                &&& q.right_cursor == step_down(p.right_cursor as nat, l.len())
                &&& q == (GitView {
                    right_marked: q.right_marked,
                    right_cursor: q.right_cursor,
                    ..p
                })
            } else {
                q == p
            }
        })
}

} // verus!
