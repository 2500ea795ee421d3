//! Text shown in the panels: shortened paths and file ages.
use vstd::prelude::*;
use crate::text::{
    chars_of, decimal, decimal_string, join_chars, join_with, pad_left, pad_left_string, push_char,
    split_chars, split_on, spaces, string_from_chars, concat_str,
};

verus! {

/// The number of bytes `s` takes in UTF-8 (what `str::len` reports).
pub open spec fn byte_len(s: Seq<char>) -> nat {
    vstd::utf8::encode_utf8(s).len()
}

/// A component reduced to its first character.
pub open spec fn shortened(p: Seq<char>) -> Seq<char> {
    if p.len() > 0 {
        seq![p[0]]
    } else {
        p
    }
}

pub open spec fn has_root(path: Seq<char>) -> bool {
    path.len() > 0 && path[0] == '/'
}

/// The components of a path (after a leading `/`).
pub open spec fn path_parts(path: Seq<char>) -> Seq<Seq<char>> {
    split_on(if has_root(path) { path.drop_first() } else { path }, '/')
}

/// The parts with the first `k` reduced to their first character.
pub open spec fn cut_parts(parts: Seq<Seq<char>>, k: int) -> Seq<Seq<char>> {
    Seq::new(parts.len(), |i: int| if i < k { shortened(parts[i]) } else { parts[i] })
}

/// The path with its first `k` components reduced to their first character.
pub open spec fn condensed_candidate(path: Seq<char>, k: int) -> Seq<char> {
    let joined = join_with(cut_parts(path_parts(path), k), '/');
    if has_root(path) {
        seq!['/'] + joined
    } else {
        joined
    }
}

/// `path` shortened to fit in `max` bytes: unchanged when it fits;
/// otherwise the leftmost components are reduced to one character, one at a
/// time, until it fits; the last component is never shortened.
pub open spec fn condensed(path: Seq<char>, max: nat, r: Seq<char>) -> bool {
    let n = path_parts(path).len();
    if byte_len(path) <= max {
        r == path
    } else {
        ||| exists|k: int|
            1 <= k < n && r == condensed_candidate(path, k) && byte_len(r) <= max && forall|j: int|
                1 <= j < k ==> byte_len(#[trigger] condensed_candidate(path, j)) > max
        ||| r == condensed_candidate(path, if n >= 1 { n - 1 } else { 0 }) && forall|j: int|
            1 <= j < n ==> byte_len(#[trigger] condensed_candidate(path, j)) > max
    }
}

/// Shortens the leftmost components of `path` to their first character
/// until it fits in `max_chars` bytes: `/home/tommie/projects` becomes
/// `/h/t/projects` and so on.
pub fn condense_path(path: &str, max_chars: usize) -> (r: String)
    ensures
        condensed(path@, max_chars as nat, r@),
{
    if path.as_bytes().len() <= max_chars {
        return path.to_owned();
    }
    let cs = chars_of(path);
    let has_leading = cs.len() > 0 && cs[0] == '/';
    let mut stripped: Vec<char> = Vec::new();
    let start: usize = if has_leading {
        1
    } else {
        0
    };
    let mut i: usize = start;
    while i < cs.len()
        invariant
            start <= i <= cs@.len(),
            stripped@ == cs@.subrange(start as int, i as int),
        decreases cs.len() - i,
    {
        stripped.push(cs[i]);
        assert(cs@.subrange(start as int, i + 1) =~= cs@.subrange(start as int, i as int).push(
            cs@[i as int],
        ));
        i = i + 1;
    }
    proof {
        if has_leading {
            assert(stripped@ =~= path@.drop_first());
        } else {
            assert(stripped@ =~= path@);
        }
    }
    let mut parts = split_chars(&stripped, '/');
    let ghost orig = path_parts(path@);
    let n = parts.len();
    proof {
        crate::text::lemma_split_on_nonempty(stripped@, '/');
    }
    let last = if n >= 1 {
        n - 1
    } else {
        0
    };
    let mut k: usize = 0;
    while k < last
        invariant
            k <= last,
            orig == path_parts(path@),
            n == orig.len(),
            last == (if n >= 1 { n - 1 } else { 0 }),
            byte_len(path@) > max_chars,
            has_leading == has_root(path@),
            parts@.len() == n,
            forall|q: int|
                0 <= q < n ==> (#[trigger] parts@[q])@ == (if q < k {
                    shortened(orig[q])
                } else {
                    orig[q]
                }),
            forall|j: int|
                1 <= j <= k ==> byte_len(#[trigger] condensed_candidate(path@, j)) > max_chars,
        decreases last - k,
    {
        let p = &parts[k];
        let short: Vec<char> = if p.len() > 0 {
            let mut v: Vec<char> = Vec::new();
            v.push(p[0]);
            v
        } else {
            Vec::new()
        };
        proof {
            if p@.len() > 0 {
                assert(short@ =~= seq![p@[0]]);
            } else {
                assert(short@ =~= p@);
            }
        }
        parts.set(k, short);
        let cand = assemble(has_leading, &parts);
        proof {
            assert(parts@.map_values(|v: Vec<char>| v@) =~= cut_parts(orig, k + 1));
            assert(cand@ == condensed_candidate(path@, k + 1));
        }
        if cand.as_str().as_bytes().len() <= max_chars {
            proof {
                assert(byte_len(cand@) <= max_chars);
            }
            return cand;
        }
        k = k + 1;
    }
    let r = assemble(has_leading, &parts);
    proof {
        assert(parts@.map_values(|v: Vec<char>| v@) =~= cut_parts(orig, last as int));
    }
    r
}

/// `/` (when `leading`) followed by the parts joined with `/`.
fn assemble(leading: bool, parts: &Vec<Vec<char>>) -> (r: String)
    ensures
        r@ == (if leading {
            seq!['/'] + join_with(parts@.map_values(|v: Vec<char>| v@), '/')
        } else {
            join_with(parts@.map_values(|v: Vec<char>| v@), '/')
        }),
{
    let joined = join_chars(parts, '/');
    let mut all: Vec<char> = Vec::new();
    if leading {
        all.push('/');
    }
    let ghost pre = all@;
    let mut i: usize = 0;
    while i < joined.len()
        invariant
            i <= joined@.len(),
            all@ == pre + joined@.take(i as int),
        decreases joined.len() - i,
    {
        all.push(joined[i]);
        assert(joined@.take(i + 1) =~= joined@.take(i as int).push(joined@[i as int]));
        i = i + 1;
    }
    assert(joined@.take(joined.len() as int) =~= joined@);
    proof {
        if leading {
            assert(pre =~= seq!['/']);
        } else {
            assert(all@ =~= joined@);
        }
    }
    string_from_chars(&all)
}

/// How long ago `unix_secs` was at time `now`, right-aligned: minutes under
/// an hour, hours under a day, days under a year, then years; blank for an
/// unknown time (0).
pub open spec fn age_text(unix_secs: u64, now: u64) -> Seq<char> {
    let elapsed: int = if now >= unix_secs {
        now - unix_secs
    } else {
        0
    };
    if unix_secs == 0 {
        spaces(9)
    } else if elapsed < 3600 {
        pad_left(decimal((elapsed / 60) as nat), 5) + "m ago"@
    } else if elapsed < 86400 {
        pad_left(decimal((elapsed / 3600) as nat), 5) + "h ago"@
    } else if elapsed < 86400 * 365 {
        pad_left(decimal((elapsed / 86400) as nat), 6) + "d ago"@
    } else {
        pad_left(decimal((elapsed / 31536000int) as nat), 6) + "y ago"@
    }
}

/// The age column for a file modified at `unix_secs`, seen at time `now`.
pub fn format_age_at(unix_secs: u64, now: u64) -> (r: String)
    ensures
        r@ == age_text(unix_secs, now),
{
    if unix_secs == 0 {
        let mut s = String::new();
        let mut i: usize = 0;
        while i < 9
            invariant
                i <= 9,
                s@ == spaces(i as nat),
            decreases 9 - i,
        {
            push_char(&mut s, ' ');
            assert(s@ =~= spaces((i + 1) as nat));
            i = i + 1;
        }
        return s;
    }
    let elapsed: u64 = if now >= unix_secs {
        now - unix_secs
    } else {
        0
    };
    if elapsed < 3600 {
        concat_str(pad_left_string(decimal_string(elapsed / 60).as_str(), 5).as_str(), "m ago")
    } else if elapsed < 86400 {
        concat_str(pad_left_string(decimal_string(elapsed / 3600).as_str(), 5).as_str(), "h ago")
    } else if elapsed < 86400 * 365 {
        concat_str(pad_left_string(decimal_string(elapsed / 86400).as_str(), 6).as_str(), "d ago")
    } else {
        concat_str(
            pad_left_string(decimal_string(elapsed / (86400 * 365)).as_str(), 6).as_str(),
            "y ago",
        )
    }
}

} // verus!
