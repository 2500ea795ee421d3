//! The quick-cd dialog: reading the typed path, listing the matching
//! sub-directories, completing a match, and where Enter goes.
use vstd::prelude::*;
use crate::git_data::{keyed_precedes, sorted_permutation, sorted_positions};
use crate::names::string_views;
use crate::paths::{join_path, joined};
use crate::text::{chars_of, concat_str, contains_chars, contains_seq, lower_chars, lowercase, string_from_chars};

verus! {

/// The position of the last `c` in `s`, or -1.
pub open spec fn last_index_of(s: Seq<char>, c: char) -> int
    decreases s.len(),
{
    if s.len() == 0 {
        -1
    } else if s.last() == c {
        s.len() - 1
    } else {
        last_index_of(s.drop_last(), c)
    }
}

proof fn lemma_last_index_of_range(s: Seq<char>, c: char)
    ensures
        -1 <= last_index_of(s, c) < s.len(),
        last_index_of(s, c) >= 0 ==> s[last_index_of(s, c)] == c,
    decreases s.len(),
{
    if s.len() > 0 && s.last() != c {
        lemma_last_index_of_range(s.drop_last(), c);
    }
}

fn rfind(s: &Vec<char>, c: char) -> (r: Option<usize>)
    ensures
        match r {
            Some(k) => k == last_index_of(s@, c),
            None => last_index_of(s@, c) == -1,
        },
{
    let mut k: usize = s.len();
    assert(s@.take(k as int) =~= s@);
    while k > 0
        invariant
            k <= s@.len(),
            last_index_of(s@, c) == last_index_of(s@.take(k as int), c),
        decreases k,
    {
        assert(s@.take(k as int).last() == s@[k - 1]);
        if s[k - 1] == c {
            return Some(k - 1);
        }
        assert(s@.take(k as int).drop_last() =~= s@.take(k - 1));
        k = k - 1;
    }
    None
}

/// A leading `~` stands for the home directory.
pub open spec fn expand_home(s: Seq<char>, home: Seq<char>) -> Seq<char> {
    if s.len() > 0 && s[0] == '~' {
        home + s.drop_first()
    } else {
        s
    }
}

pub fn quick_cd_expand(s: &str, home: &str) -> (r: String)
    ensures
        r@ == expand_home(s@, home@),
{
    let cs = chars_of(s);
    if cs.len() > 0 && cs[0] == '~' {
        let rest = string_from_chars(vstd::slice::slice_subrange(cs.as_slice(), 1, cs.len()));
        proof {
            assert(cs@.subrange(1, cs@.len() as int) =~= s@.drop_first());
        }
        concat_str(home, rest.as_str())
    } else {
        s.to_owned()
    }
}

/// The directory the typed text points into and the filter on its
/// sub-directories: the text is split after its last `/` (a relative
/// directory is taken from `base`); without a `/` the whole text filters
/// `base`.
pub open spec fn parse_input(input: Seq<char>, base: Seq<char>, home: Seq<char>) -> (
    Seq<char>,
    Seq<char>,
) {
    let e = expand_home(input, home);
    let k = last_index_of(e, '/');
    if k >= 0 {
        let dir = e.take(k + 1);
        (if dir[0] == '/' {
            dir
        } else {
            joined(base, dir)
        }, e.skip(k + 1))
    } else {
        (base, e)
    }
}

pub fn quick_cd_parse_input(input: &str, base: &str, home: &str) -> (r: (String, String))
    ensures
        (r.0@, r.1@) == parse_input(input@, base@, home@),
{
    let expanded = quick_cd_expand(input, home);
    let e = chars_of(expanded.as_str());
    proof {
        lemma_last_index_of_range(e@, '/');
    }
    match rfind(&e, '/') {
        Some(k) => {
            proof {
                lemma_last_index_of_range(e@, '/');
            }
            let n = e.len();
            assert(k < n);
            let end = k + 1;
            let dir = string_from_chars(vstd::slice::slice_subrange(e.as_slice(), 0, end));
            let filter = string_from_chars(vstd::slice::slice_subrange(e.as_slice(), end, e.len()));
            proof {
                assert(e@.subrange(0, k + 1) =~= e@.take(k + 1));
                assert(e@.subrange(k + 1, e@.len() as int) =~= e@.skip(k + 1));
            }
            let parent = if e[0] == '/' {
                dir
            } else {
                join_path(base, dir.as_str())
            };
            (parent, filter)
        },
        None => (base.to_owned(), expanded),
    }
}

/// Where Enter goes: the selected match inside the typed directory, or,
/// with no match, the typed text itself (relative to `base`).
pub open spec fn destination(
    input: Seq<char>,
    matches: Seq<Seq<char>>,
    selected: nat,
    base: Seq<char>,
    home: Seq<char>,
) -> Seq<char> {
    if matches.len() > 0 {
        let pick = if selected < matches.len() {
            selected as int
        } else {
            matches.len() - 1
        };
        joined(parse_input(input, base, home).0, matches[pick])
    } else {
        let e = expand_home(input, home);
        if e.len() > 0 && e[0] == '/' {
            e
        } else {
            joined(base, e)
        }
    }
}

pub fn quick_cd_destination(
    input: &str,
    matches: &Vec<String>,
    selected: usize,
    base: &str,
    home: &str,
) -> (r: String)
    ensures
        r@ == destination(input@, string_views(matches@), selected as nat, base@, home@),
{
    if matches.len() > 0 {
        let (parent, _) = quick_cd_parse_input(input, base, home);
        let pick = if selected < matches.len() {
            selected
        } else {
            matches.len() - 1
        };
        join_path(parent.as_str(), matches[pick].as_str())
    } else {
        let expanded = quick_cd_expand(input, home);
        let e = chars_of(expanded.as_str());
        if e.len() > 0 && e[0] == '/' {
            expanded
        } else {
            join_path(base, expanded.as_str())
        }
    }
}

/// Tab: the text up to its last `/`, then the selected match and `/`.
pub open spec fn completed_input(input: Seq<char>, matches: Seq<Seq<char>>, selected: nat) -> Option<
    Seq<char>,
> {
    if selected < matches.len() {
        Some(input.take(last_index_of(input, '/') + 1) + matches[selected as int] + "/"@)
    } else {
        None
    }
}

pub fn quick_cd_complete(input: &str, matches: &Vec<String>, selected: usize) -> (r: Option<String>)
    ensures
        match r {
            Some(s) => completed_input(input@, string_views(matches@), selected as nat) == Some(s@),
            None => completed_input(input@, string_views(matches@), selected as nat) is None,
        },
{
    if selected >= matches.len() {
        return None;
    }
    let cs = chars_of(input);
    proof {
        lemma_last_index_of_range(cs@, '/');
    }
    let prefix_len = match rfind(&cs, '/') {
        Some(k) => {
            assert(k < cs@.len());
            k + 1
        },
        None => 0,
    };
    let prefix = string_from_chars(vstd::slice::slice_subrange(cs.as_slice(), 0, prefix_len));
    assert(cs@.subrange(0, prefix_len as int) =~= cs@.take(prefix_len as int));
    let with_name = concat_str(prefix.as_str(), matches[selected].as_str());
    Some(concat_str(with_name.as_str(), "/"))
}

// --- Listing ---

/// A directory name passes the filter when the filter is empty or the
/// lowercase name contains the lowercase filter.
pub open spec fn dir_matches(filter: Seq<char>) -> spec_fn(Seq<char>) -> bool {
    |name: Seq<char>| filter.len() == 0 || contains_seq(lowercase(name), lowercase(filter))
}

/// Position `i` of `kept` comes before `j`: by lowercase name, then by position.
pub open spec fn lowercase_order(kept: Seq<Seq<char>>) -> spec_fn(int, int) -> bool {
    |i: int, j: int|
        keyed_precedes(
            kept.map_values(|n: Seq<char>| lowercase(n)),
            Seq::new(kept.len(), |k: int| false),
            i,
            j,
        )
}

/// The names in `kept`, ordered by their lowercase form, ties kept in order.
pub open spec fn sorted_by_lowercase(kept: Seq<Seq<char>>, r: Seq<Seq<char>>) -> bool {
    exists|p: Seq<usize>|
        #[trigger] sorted_permutation(p, kept.len(), lowercase_order(kept)) && r == p.map_values(
            |k: usize| kept[k as int],
        )
}

/// The sub-directory names (as listed from disk) that pass `filter`,
/// sorted case-insensitively.
pub fn filter_sort_dir_names(names: &Vec<String>, filter: &str) -> (r: Vec<String>)
    ensures
        sorted_by_lowercase(string_views(names@).filter(dir_matches(filter@)), string_views(r@)),
{
    let ghost all = string_views(names@);
    let lf = lower_chars(filter);
    let mut kept: Vec<String> = Vec::new();
    let mut i: usize = 0;
    while i < names.len()
        invariant
            i <= names@.len(),
            all == string_views(names@),
            lf@ == lowercase(filter@),
            string_views(kept@) == all.take(i as int).filter(dir_matches(filter@)),
        decreases names.len() - i,
    {
        let ghost before = string_views(kept@);
        let keep = if filter.is_empty() {
            true
        } else {
            let ln = lower_chars(names[i].as_str());
            contains_chars(&ln, &lf)
        };
        assert(keep == dir_matches(filter@)(all[i as int]));
        if keep {
            kept.push(names[i].clone());
        }
        proof {
            assert(all.take(i + 1) =~= all.take(i as int).push(all[i as int]));
            all.take(i as int).lemma_filter_push(all[i as int], dir_matches(filter@));
            if keep {
                assert(string_views(kept@) =~= before.push(all[i as int]));
            } else {
                assert(string_views(kept@) =~= before);
            }
        }
        i = i + 1;
    }
    assert(all.take(names@.len() as int) =~= all);
    let ghost kv = string_views(kept@);
    let mut keys: Vec<Vec<char>> = Vec::new();
    let mut first: Vec<bool> = Vec::new();
    let mut j: usize = 0;
    while j < kept.len()
        invariant
            j <= kept@.len(),
            kv == string_views(kept@),
            keys@.len() == j,
            first@.len() == j,
            forall|q: int| 0 <= q < j ==> #[trigger] keys@[q]@ == lowercase(kv[q]),
            forall|q: int| 0 <= q < j ==> !#[trigger] first@[q],
        decreases kept.len() - j,
    {
        keys.push(lower_chars(kept[j].as_str()));
        first.push(false);
        j = j + 1;
    }
    let ghost lk = keys@.map_values(|v: Vec<char>| v@);
    let ghost fl = first@;
    proof {
        assert(lk =~= kv.map_values(|n: Seq<char>| lowercase(n)));
        assert(fl =~= Seq::new(kv.len(), |k: int| false));
    }
    let p = sorted_positions(keys, first);
    let mut r: Vec<String> = Vec::new();
    let mut k: usize = 0;
    while k < p.len()
        invariant
            k <= p@.len(),
            p@.len() == kv.len(),
            kv == string_views(kept@),
            forall|q: int| 0 <= q < p@.len() ==> #[trigger] p@[q] < kv.len(),
            string_views(r@) == p@.take(k as int).map_values(|x: usize| kv[x as int]),
        decreases p.len() - k,
    {
        r.push(kept[p[k]].clone());
        assert(p@.take(k + 1).map_values(|x: usize| kv[x as int]) =~= p@.take(k as int).map_values(
            |x: usize| kv[x as int],
        ).push(kv[p@[k as int] as int]));
        assert(string_views(r@) =~= p@.take(k + 1).map_values(|x: usize| kv[x as int]));
        k = k + 1;
    }
    assert(p@.take(p@.len() as int) =~= p@);
    proof {
        assert(sorted_permutation(p@, kv.len(), lowercase_order(kv)));
    }
    r
}

} // verus!
