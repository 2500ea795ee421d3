//! What the host reports while and after it works through a file operation
//! or a git command: progress, error texts, and the actions that close it.
use vstd::prelude::*;
use crate::action::{Action, BranchInfo, Side};
use crate::names::string_views;
use crate::text::{concat_str, join_with};

verus! {

/// The progress of operation `id`: `done` of `total` items.
pub fn progress(id: u64, label: &str, done: u64, total: u64) -> (r: Action)
    ensures
        r matches Action::Progress { id: i, label: l, done: d, total: t } && i == id && l@ == label@
            && d == done && t == total,
{
    Action::Progress { id, label: label.to_owned(), done, total }
}

/// `path: message`, how a failed item is reported.
pub open spec fn item_error_text(path: Seq<char>, message: Seq<char>) -> Seq<char> {
    path + ": "@ + message
}

pub fn item_error(path: &str, message: &str) -> (r: String)
    ensures
        r@ == item_error_text(path@, message@),
{
    concat_str(concat_str(path, ": ").as_str(), message)
}

/// How a failed move is reported: a rename across filesystems gets advice,
/// any other failure its own message.
pub open spec fn move_error_text(path: Seq<char>, message: Seq<char>, cross_device: bool) -> Seq<char> {
    if cross_device {
        path + ": cannot move across filesystems (use Copy then Delete)"@
    } else {
        item_error_text(path, message)
    }
}

pub fn move_error(path: &str, message: &str, cross_device: bool) -> (r: String)
    ensures
        r@ == move_error_text(path@, message@, cross_device),
{
    if cross_device {
        concat_str(path, ": cannot move across filesystems (use Copy then Delete)")
    } else {
        item_error(path, message)
    }
}

/// How a path without a file name is reported.
pub fn no_file_name_error(path: &str) -> (r: String)
    ensures
        r@ == "path has no file name: "@ + path@,
{
    concat_str("path has no file name: ", path)
}

/// The panels a copy, move or extraction changes: the active one, then the other.
pub fn both_sides(active: Side) -> (r: Vec<Side>)
    ensures
        r@ == seq![active, active.opposite()],
{
    let mut v: Vec<Side> = Vec::new();
    v.push(active);
    v.push(active.other());
    assert(v@ =~= seq![active, active.opposite()]);
    v
}

/// The actions that close a batch (copy, move, extraction) of operation
/// `id`: the overlay entry goes; the panels reload when anything succeeded;
/// the errors, if any, are listed.
pub open spec fn batch_end(id: u64, succeeded: nat, errors: Seq<String>, sides: Seq<Side>, r: Seq<Action>) -> bool {
    let completed = if succeeded > 0 {
        1int
    } else {
        0int
    };
    let failed = if errors.len() > 0 {
        1int
    } else {
        0int
    };
    &&& r.len() == 1 + completed + failed
    &&& r[0] == Action::ProgressDone(id)
    &&& (succeeded > 0 ==> (r[1] matches Action::OpCompleted(s) && s@ == sides))
    &&& (errors.len() > 0 ==> (r.last() matches Action::OpErrors(e) && e@ == errors))
}

pub fn finish_batch(id: u64, succeeded: usize, errors: Vec<String>, sides: Vec<Side>) -> (r: Vec<Action>)
    ensures
        batch_end(id, succeeded as nat, errors@, sides@, r@),
{
    let mut v: Vec<Action> = Vec::new();
    v.push(Action::ProgressDone(id));
    if succeeded > 0 {
        v.push(Action::OpCompleted(sides));
    }
    if errors.len() > 0 {
        v.push(Action::OpErrors(errors));
    }
    v
}

/// The actions that close a deletion of operation `id`: the overlay entry
/// goes, then the first error stops it, or the active panel reloads.
pub fn finish_delete(id: u64, error: Option<String>, active: Side) -> (r: Vec<Action>)
    ensures
        r@.len() == 2,
        r@[0] == Action::ProgressDone(id),
        match error {
            Some(e) => r@[1] == Action::OpError(e),
            None => r@[1] matches Action::OpCompleted(s) && s@ == seq![active],
        },
{
    let mut v: Vec<Action> = Vec::new();
    v.push(Action::ProgressDone(id));
    match error {
        Some(e) => v.push(Action::OpError(e)),
        None => {
            let mut s: Vec<Side> = Vec::new();
            s.push(active);
            assert(s@ =~= seq![active]);
            v.push(Action::OpCompleted(s));
        },
    }
    v
}

/// The action a finished mkdir sends.
pub fn finish_mkdir(error: Option<String>, active: Side) -> (r: Action)
    ensures
        match error {
            Some(e) => r == Action::OpError(e),
            None => r matches Action::OpCompleted(s) && s@ == seq![active],
        },
{
    match error {
        Some(e) => Action::OpError(e),
        None => {
            let mut s: Vec<Side> = Vec::new();
            s.push(active);
            assert(s@ =~= seq![active]);
            Action::OpCompleted(s)
        },
    }
}

/// The action a finished git command sends: the repository is read again,
/// or the error shown.
pub fn git_result(result: Result<(), String>) -> (r: Action)
    ensures
        match result {
            Ok(()) => r == Action::GitOpCompleted,
            Err(e) => r == Action::OpError(e),
        },
{
    match result {
        Ok(()) => Action::GitOpCompleted,
        Err(e) => Action::OpError(e),
    }
}

/// The action `git add -A` sends: on success the commit editor opens.
pub fn add_all_result(result: Result<(), String>) -> (r: Action)
    ensures
        match result {
            Ok(()) => r == Action::GitAddAllDone,
            Err(e) => r == Action::OpError(e),
        },
{
    match result {
        Ok(()) => Action::GitAddAllDone,
        Err(e) => Action::OpError(e),
    }
}

// --- Git names ---

/// `refs/heads/<name>`.
pub fn branch_ref(name: &str) -> (r: String)
    ensures
        r@ == "refs/heads/"@ + name@,
{
    concat_str("refs/heads/", name)
}

/// The refspec that pushes a branch to the branch of the same name.
pub fn push_refspec(branch: &str) -> (r: String)
    ensures
        r@ == "refs/heads/"@ + branch@ + ":refs/heads/"@ + branch@,
{
    concat_str(
        concat_str(concat_str("refs/heads/", branch).as_str(), ":refs/heads/").as_str(),
        branch,
    )
}

/// The upstream a new branch tracks: `origin/<name>`.
pub fn origin_branch(name: &str) -> (r: String)
    ensures
        r@ == "origin/"@ + name@,
{
    concat_str("origin/", name)
}

/// The remote branch a remote-only branch is checked out from.
pub fn checkout_source(info: &BranchInfo) -> (r: String)
    ensures
        match info.remote_ref {
            Some(rr) => r == rr,
            None => r@ == "origin/"@ + info.name@,
        },
{
    match &info.remote_ref {
        Some(rr) => rr.clone(),
        None => origin_branch(info.name.as_str()),
    }
}

/// The branch shown for a repository: the one HEAD names, `HEAD` when it
/// names none (a detached or unborn head).
pub fn shown_branch_name(shorthand: Option<String>) -> (r: String)
    ensures
        match shorthand {
            Some(b) => r == b,
            None => r@ == "HEAD"@,
        },
{
    match shorthand {
        Some(b) => b,
        None => "HEAD".to_owned(),
    }
}

/// The branch HEAD names, `main` when it names none.
pub fn head_branch_name(shorthand: Option<String>) -> (r: String)
    ensures
        match shorthand {
            Some(b) => r == b,
            None => r@ == "main"@,
        },
{
    match shorthand {
        Some(b) => b,
        None => "main".to_owned(),
    }
}

/// What a pull does after fetching.
#[derive(Debug, Clone, Copy, PartialEq, Eq, Structural)]
pub enum PullStep {
    /// Nothing to do.
    UpToDate,
    /// Move the branch to the fetched commit and check it out.
    FastForward,
    /// A merge would be needed, which is not supported.
    NeedsMerge,
}

/// Decides the pull from git's merge analysis.
pub fn pull_step(up_to_date: bool, fast_forward: bool) -> (r: PullStep)
    ensures
        r == (if up_to_date {
            PullStep::UpToDate
        } else if fast_forward {
            PullStep::FastForward
        } else {
            PullStep::NeedsMerge
        }),
{
    if up_to_date {
        PullStep::UpToDate
    } else if fast_forward {
        PullStep::FastForward
    } else {
        PullStep::NeedsMerge
    }
}

/// The error a pull that needs a merge reports.
pub fn needs_merge_message() -> (r: String)
    ensures
        r@ == "pull requires a merge commit — not supported here"@,
{
    "pull requires a merge commit — not supported here".to_owned()
}

/// The block device path `udisksctl` is given.
pub fn device_path(device: &str) -> (r: String)
    ensures
        r@ == "/dev/"@ + device@,
{
    concat_str("/dev/", device)
}

/// The arguments joined with spaces, as the host shows them before it runs
/// a command.
pub fn joined_args(words: &Vec<String>) -> (r: String)
    ensures
        r@ == join_with(string_views(words@), ' '),
{
    let mut out = String::new();
    let mut i: usize = 0;
    while i < words.len()
        invariant
            i <= words@.len(),
            out@ == join_with(string_views(words@).take(i as int), ' '),
        decreases words.len() - i,
    {
        proof {
            assert(string_views(words@).take(i + 1).drop_last() =~= string_views(words@).take(i as int));
        }
        if i > 0 {
            crate::text::push_char(&mut out, ' ');
        }
        out = concat_str(out.as_str(), words[i].as_str());
        i = i + 1;
    }
    assert(string_views(words@).take(words@.len() as int) =~= string_views(words@));
    out
}

} // verus!
