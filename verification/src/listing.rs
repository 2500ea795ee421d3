//! A directory listing as the panels receive it: `..` first where there is
//! a parent, then directories, then files, each group by lowercase name.
use vstd::prelude::*;
use crate::action::EntryInfo;
use crate::app_state::clone_entry;
use crate::git_data::{keyed_precedes, sorted_permutation, sorted_positions};
use crate::paths::{parent_of, parent_path};
use crate::text::{dotdot, is_dotdot, lower_chars, lowercase};

verus! {

/// The key an entry sorts by after `..`: directories (`'0'`) before files
/// (`'1'`), then the lowercase name.
pub open spec fn listing_key(e: EntryInfo) -> Seq<char> {
    seq![if e.is_dir {
        '0'
    } else {
        '1'
    }] + lowercase(e.name@)
}

/// Position `i` of `entries` comes before position `j` in a listing.
pub open spec fn listing_order(entries: Seq<EntryInfo>) -> spec_fn(int, int) -> bool {
    |i: int, j: int|
        keyed_precedes(
            entries.map_values(|e: EntryInfo| listing_key(e)),
            entries.map_values(|e: EntryInfo| e.name@ == dotdot()),
            i,
            j,
        )
}

/// `r` is `entries` in listing order (ties keep their order).
pub open spec fn listed(entries: Seq<EntryInfo>, r: Seq<EntryInfo>) -> bool {
    exists|p: Seq<usize>|
        #[trigger] sorted_permutation(p, entries.len(), listing_order(entries)) && r == p.map_values(
            |k: usize| entries[k as int],
        )
}

/// The entry that stands for the parent directory: `..`, a directory of
/// size 0 with one link, no owner and no time.
pub open spec fn is_parent_entry(d: EntryInfo) -> bool {
    &&& d.name@ == dotdot()
    &&& d.is_dir
    &&& !d.is_symlink
    &&& d.size == 0
    &&& d.modified == 0
    &&& d.nlink == 1
    &&& d.owner@.len() == 0
}

fn parent_entry_exec() -> (r: EntryInfo)
    ensures
        is_parent_entry(r),
{
    let r = EntryInfo {
        name: "..".to_owned(),
        is_dir: true,
        is_symlink: false,
        size: 0,
        modified: 0,
        nlink: 1,
        owner: String::new(),
    };
    proof {
        reveal_strlit("..");
        assert(r.name@ =~= dotdot());
    }
    r
}

/// The listing of `path` from the entries read there: a `..` entry when
/// the path has a parent, then everything in listing order.
pub fn prepare_listing(path: &str, entries: Vec<EntryInfo>) -> (r: Vec<EntryInfo>)
    ensures
        parent_of(path@) is Some ==> exists|d: EntryInfo|
            is_parent_entry(d) && #[trigger] listed(entries@.push(d), r@),
        parent_of(path@) is None ==> listed(entries@, r@),
{
    let mut all = entries;
    if parent_path(path).is_some() {
        let d = parent_entry_exec();
        all.push(d);
        let r = sort_listing(&all);
        assert(listed(all@, r@));
        r
    } else {
        sort_listing(&all)
    }
}

/// The entries in listing order.
pub fn sort_listing(entries: &Vec<EntryInfo>) -> (r: Vec<EntryInfo>)
    ensures
        listed(entries@, r@),
{
    let ghost es = entries@;
    let mut keys: Vec<Vec<char>> = Vec::new();
    let mut first: Vec<bool> = Vec::new();
    let mut j: usize = 0;
    while j < entries.len()
        invariant
            j <= es.len(),
            es == entries@,
            keys@.len() == j,
            first@.len() == j,
            forall|q: int| 0 <= q < j ==> #[trigger] keys@[q]@ == listing_key(es[q]),
            forall|q: int| 0 <= q < j ==> #[trigger] first@[q] == (es[q].name@ == dotdot()),
        decreases entries.len() - j,
    {
        let e = &entries[j];
        let mut k: Vec<char> = Vec::new();
        k.push(if e.is_dir {
            '0'
        } else {
            '1'
        });
        let lower = lower_chars(e.name.as_str());
        let mut t: usize = 0;
        while t < lower.len()
            invariant
                t <= lower@.len(),
                k@ == seq![if e.is_dir {
                    '0'
                } else {
                    '1'
                }] + lower@.take(t as int),
            decreases lower.len() - t,
        {
            k.push(lower[t]);
            assert(lower@.take(t + 1) =~= lower@.take(t as int).push(lower@[t as int]));
            t = t + 1;
        }
        assert(lower@.take(lower@.len() as int) =~= lower@);
        keys.push(k);
        first.push(is_dotdot(e.name.as_str()));
        j = j + 1;
    }
    proof {
        assert(keys@.map_values(|v: Vec<char>| v@) =~= es.map_values(|e: EntryInfo| listing_key(e)));
        assert(first@ =~= es.map_values(|e: EntryInfo| e.name@ == dotdot()));
    }
    let p = sorted_positions(keys, first);
    let mut r: Vec<EntryInfo> = Vec::new();
    let mut k: usize = 0;
    while k < p.len()
        invariant
            k <= p@.len(),
            p@.len() == es.len(),
            es == entries@,
            forall|q: int| 0 <= q < p@.len() ==> #[trigger] p@[q] < es.len(),
            r@ == p@.take(k as int).map_values(|x: usize| es[x as int]),
        decreases p.len() - k,
    {
        r.push(clone_entry(&entries[p[k]]));
        assert(r@ =~= p@.take(k + 1).map_values(|x: usize| es[x as int]));
        k = k + 1;
    }
    assert(p@.take(p@.len() as int) =~= p@);
    proof {
        assert(sorted_permutation(p@, es.len(), listing_order(es)));
    }
    r
}

} // verus!
