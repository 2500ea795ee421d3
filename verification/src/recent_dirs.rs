//! The list of recently visited directories: most recent first, no two
//! naming the same directory, at most `MAX` long, kept on disk as a JSON
//! array of strings.
use vstd::prelude::*;
use crate::names::{lemma_filter_facts, string_views};
use crate::paths::{paths_equal, same_path};

verus! {

/// How many directories the list keeps.
pub const MAX: usize = 10;

/// Whether a directory is another one than `dest` (paths compared by
/// components, as `Path` compares them).
pub open spec fn differs_from(dest: Seq<char>) -> spec_fn(Seq<char>) -> bool {
    |p: Seq<char>| !same_path(p, dest)
}

/// No two entries name the same directory.
pub open spec fn distinct_paths(dirs: Seq<Seq<char>>) -> bool {
    forall|i: int, j: int|
        0 <= i < dirs.len() && 0 <= j < dirs.len() && i != j ==> !same_path(
            #[trigger] dirs[i],
            #[trigger] dirs[j],
        )
}

/// `dirs` without any entry naming `dest`.
pub open spec fn without(dirs: Seq<Seq<char>>, dest: Seq<char>) -> Seq<Seq<char>> {
    dirs.filter(differs_from(dest))
}

/// The list after visiting `dest`: `dest` first, then the older entries
/// that name other directories, cut to `MAX` entries.
pub open spec fn pushed(dirs: Seq<Seq<char>>, dest: Seq<char>) -> Seq<Seq<char>> {
    let all = seq![dest] + without(dirs, dest);
    if all.len() > MAX {
        all.take(MAX as int)
    } else {
        all
    }
}

/// Insert `dest` at the front, deduplicate, trim to `MAX`.
pub fn push(dirs: &mut Vec<String>, dest: String)
    ensures
        string_views(final(dirs)@) == pushed(string_views(old(dirs)@), dest@),
{
    let ghost d = string_views(dirs@);
    let ghost dv = dest@;
    let mut out: Vec<String> = Vec::new();
    out.push(dest);
    let mut i: usize = 0;
    while i < dirs.len()
        invariant
            i <= dirs@.len(),
            d == string_views(dirs@),
            out@.len() >= 1,
            out@[0]@ == dv,
            string_views(out@) == seq![dv] + without(d.take(i as int), dv),
        decreases dirs.len() - i,
    {
        let ghost before = string_views(out@);
        let differs = !paths_equal(dirs[i].as_str(), out[0].as_str());
        if differs {
            out.push(dirs[i].clone());
        }
        proof {
            assert(d.take(i + 1) =~= d.take(i as int).push(d[i as int]));
            d.take(i as int).lemma_filter_push(d[i as int], differs_from(dv));
            if differs {
                assert(string_views(out@) =~= before.push(d[i as int]));
            } else {
                assert(string_views(out@) =~= before);
            }
        }
        i = i + 1;
    }
    proof {
        assert(d.take(dirs@.len() as int) =~= d);
    }
    let ghost full = string_views(out@);
    out.truncate(MAX);
    proof {
        if full.len() > MAX {
            assert(string_views(out@) =~= full.take(MAX as int));
        } else {
            assert(string_views(out@) =~= full);
        }
    }
    *dirs = out;
}

/// Visiting a directory puts it first, keeps no other entry naming it, and
/// never lets the list grow past `MAX`.
pub proof fn law_push_front(dirs: Seq<Seq<char>>, dest: Seq<char>)
    ensures
        pushed(dirs, dest).len() >= 1,
        pushed(dirs, dest)[0] == dest,
        pushed(dirs, dest).len() <= MAX,
        forall|i: int| 1 <= i < pushed(dirs, dest).len() ==> !same_path(pushed(dirs, dest)[i], dest),
{
    lemma_filter_facts(dirs, differs_from(dest));
    let w = without(dirs, dest);
    assert forall|i: int| 1 <= i < pushed(dirs, dest).len() implies !same_path(
        pushed(dirs, dest)[i],
        dest,
    ) by {
        assert(pushed(dirs, dest)[i] == w[i - 1]);
        assert(w.contains(w[i - 1]));
    }
}

/// A list in which no two entries name the same directory stays so, and
/// every directory in the new list is `dest` or was in the old one.
pub proof fn law_push_keeps_distinct(dirs: Seq<Seq<char>>, dest: Seq<char>)
    ensures
        distinct_paths(dirs) ==> distinct_paths(pushed(dirs, dest)),
        forall|p: Seq<char>| #[trigger] pushed(dirs, dest).contains(p) ==> p == dest || dirs.contains(p),
{
    lemma_filter_facts(dirs, differs_from(dest));
    let w = without(dirs, dest);
    let all = seq![dest] + w;
    assert forall|p: Seq<char>| #[trigger] pushed(dirs, dest).contains(p) implies p == dest
        || dirs.contains(p) by {
        let k = choose|k: int| 0 <= k < pushed(dirs, dest).len() && pushed(dirs, dest)[k] == p;
        assert(pushed(dirs, dest)[k] == all[k]);
        if k > 0 {
            assert(all[k] == w[k - 1]);
            assert(w.contains(w[k - 1]));
        }
    }
    if distinct_paths(dirs) {
        lemma_filter_keeps_distinct_paths(dirs, differs_from(dest));
        assert(distinct_paths(all)) by {
            assert forall|i: int, j: int| 0 <= i < all.len() && 0 <= j < all.len() && i != j implies !same_path(
                all[i],
                all[j],
            ) by {
                if i > 0 && j > 0 {
                    assert(all[i] == w[i - 1] && all[j] == w[j - 1]);
                } else if i == 0 {
                    assert(all[j] == w[j - 1]);
                    assert(w.contains(w[j - 1]));
                } else {
                    assert(all[i] == w[i - 1]);
                    assert(w.contains(w[i - 1]));
                }
            }
        }
        if all.len() > MAX {
            let t = all.take(MAX as int);
            assert forall|i: int, j: int| 0 <= i < t.len() && 0 <= j < t.len() && i != j implies !same_path(
                t[i],
                t[j],
            ) by {
                assert(t[i] == all[i] && t[j] == all[j]);
            }
        }
    }
}

/// Visiting the same directory twice in a row leaves the list as one visit did.
pub proof fn law_push_idempotent(dirs: Seq<Seq<char>>, dest: Seq<char>)
    ensures
        pushed(pushed(dirs, dest), dest) == pushed(dirs, dest),
{
    let once = pushed(dirs, dest);
    law_push_front(dirs, dest);
    let keep = differs_from(dest);
    let rest = once.drop_first();
    assert(once =~= seq![dest] + rest);
    assert(once.filter(keep) =~= rest) by {
        reveal(Seq::filter);
        lemma_filter_all_kept(rest, dest);
        assert((seq![dest] + rest).filter(keep) == seq![dest].filter(keep) + rest.filter(keep)) by {
            Seq::filter_distributes_over_add(seq![dest], rest, keep);
        }
        assert(seq![dest].drop_last() =~= Seq::<Seq<char>>::empty());
        assert(Seq::<Seq<char>>::empty().filter(keep) =~= Seq::<Seq<char>>::empty());
        assert(seq![dest].filter(keep) =~= Seq::<Seq<char>>::empty());
    }
    assert(without(once, dest) =~= rest);
    assert(seq![dest] + without(once, dest) =~= once);
}

/// Filtering keeps a list free of two entries naming the same directory.
proof fn lemma_filter_keeps_distinct_paths(s: Seq<Seq<char>>, pred: spec_fn(Seq<char>) -> bool)
    requires
        distinct_paths(s),
    ensures
        distinct_paths(s.filter(pred)),
    decreases s.len(),
{
    reveal(Seq::filter);
    if s.len() > 0 {
        let p = s.drop_last();
        assert forall|i: int, j: int| 0 <= i < p.len() && 0 <= j < p.len() && i != j implies !same_path(
            p[i],
            p[j],
        ) by {
            assert(p[i] == s[i] && p[j] == s[j]);
        }
        lemma_filter_keeps_distinct_paths(p, pred);
        lemma_filter_facts(p, pred);
        let f = p.filter(pred);
        if pred(s.last()) {
            let g = f.push(s.last());
            assert(s.filter(pred) == g);
            assert forall|i: int, j: int| 0 <= i < g.len() && 0 <= j < g.len() && i != j implies !same_path(
                g[i],
                g[j],
            ) by {
                if i < f.len() && j < f.len() {
                    assert(g[i] == f[i] && g[j] == f[j]);
                } else {
                    let k = if i < f.len() { i } else { j };
                    assert(g[k] == f[k]);
                    assert(f.contains(f[k]));
                    assert(p.contains(f[k]));
                    let m = choose|m: int| 0 <= m < p.len() && p[m] == f[k];
                    assert(s[m] == f[k] && s[s.len() - 1] == s.last());
                    assert(!same_path(s[m], s[s.len() - 1]));
                }
            }
        }
    }
}

/// A list none of whose entries names `dest` is kept whole by the filter.
proof fn lemma_filter_all_kept(s: Seq<Seq<char>>, dest: Seq<char>)
    requires
        forall|i: int| 0 <= i < s.len() ==> !same_path(s[i], dest),
    ensures
        s.filter(differs_from(dest)) == s,
    decreases s.len(),
{
    reveal(Seq::filter);
    if s.len() > 0 {
        lemma_filter_all_kept(s.drop_last(), dest);
        assert(s.drop_last().push(s.last()) =~= s);
    }
}

// --- On disk ---

/// The string list a JSON text holds, as `serde_json` reads it; `None`
/// where the text is not a JSON array of strings.
pub uninterp spec fn json_string_list(text: Seq<char>) -> Option<Seq<Seq<char>>>;

/// The JSON text `serde_json` writes for a list of strings.
pub uninterp spec fn json_of_strings(items: Seq<Seq<char>>) -> Seq<char>;

/// Calls `serde_json::from_str::<Vec<String>>`; its result is named by
/// `json_string_list`.
#[verifier::external_body]
fn parse_string_list(text: &str) -> (r: Option<Vec<String>>)
    ensures
        match r {
            Some(v) => json_string_list(text@) == Some(string_views(v@)),
            None => json_string_list(text@) is None,
        },
{
    serde_json::from_str::<Vec<String>>(text).ok()
}

/// Calls `serde_json::to_string` on a list of strings. The text is named by
/// `json_of_strings`, and reading it back gives the same list. serde_json
/// documents two ways to fail: a `Serialize` impl that decides to fail, or a
/// map with non-string keys. A `Vec<String>` is neither (its impl only
/// writes a sequence of strings into an in-memory buffer, which cannot fail),
/// so the result is always `Some`; the error arm only converts the type.
#[verifier::external_body]
fn write_string_list(items: &Vec<String>) -> (r: Option<String>)
    ensures
        r is Some,
        r matches Some(t) ==> t@ == json_of_strings(string_views(items@)) && json_string_list(t@)
            == Some(string_views(items@)),
{
    serde_json::to_string(items).ok()
}

/// The directories a saved text holds: the list when it reads as a JSON
/// array of strings, else none.
pub open spec fn loaded(text: Option<Seq<char>>) -> Seq<Seq<char>> {
    match text {
        Some(t) => match json_string_list(t) {
            Some(v) => v,
            None => Seq::empty(),
        },
        None => Seq::empty(),
    }
}

/// The list as saved in the data directory; `text` is the file's content,
/// `None` when it could not be read.
pub fn load(text: Option<String>) -> (r: Vec<String>)
    ensures
        string_views(r@) == loaded(opt_chars(text)),
{
    match text {
        Some(t) => dirs_or_empty(parse_string_list(t.as_str())),
        None => Vec::new(),
    }
}

/// The parsed list, or an empty one where the text did not parse.
pub fn dirs_or_empty(parsed: Option<Vec<String>>) -> (r: Vec<String>)
    ensures
        r@ == match parsed {
            Some(v) => v@,
            None => Seq::empty(),
        },
{
    match parsed {
        Some(v) => v,
        None => Vec::new(),
    }
}

pub open spec fn opt_chars(o: Option<String>) -> Option<Seq<char>> {
    match o {
        Some(s) => Some(s@),
        None => None,
    }
}

/// The text to write to the data directory for `dirs`: always produced, and
/// what `load` reads back from it is `dirs` again.
pub fn save(dirs: &Vec<String>) -> (r: Option<String>)
    ensures
        r matches Some(t) && t@ == json_of_strings(string_views(dirs@)) && loaded(Some(t@))
            == string_views(dirs@),
{
    write_string_list(dirs)
}

} // verus!
