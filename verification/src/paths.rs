//! Unix path handling over strings: joining, the final component, the parent.
use vstd::prelude::*;
use crate::text::{chars_of, dotdot, join_chars, join_with, push_char, split_chars, split_on, string_from_chars};

verus! {

/// `base` joined with `name` as `Path::join` does on Unix: an absolute `name`
/// replaces `base`; otherwise a `/` is put between them unless `base` is
/// empty or already ends in one.
pub open spec fn joined(base: Seq<char>, name: Seq<char>) -> Seq<char> {
    if name.len() > 0 && name[0] == '/' {
        name
    } else if base.len() == 0 || base.last() == '/' {
        base + name
    } else {
        base.push('/') + name
    }
}

/// Joins `name` onto `base`.
pub fn join_path(base: &str, name: &str) -> (r: String)
    ensures
        r@ == joined(base@, name@),
{
    let b = chars_of(base);
    let n = chars_of(name);
    if n.len() > 0 && n[0] == '/' {
        return string_from_chars(&n);
    }
    let mut s = string_from_chars(&b);
    if !(b.len() == 0 || b[b.len() - 1] == '/') {
        push_char(&mut s, '/');
    }
    let mut i: usize = 0;
    let ghost pre = s@;
    while i < n.len()
        invariant
            i <= n.len(),
            s@ == pre + n@.take(i as int),
        decreases n.len() - i,
    {
        push_char(&mut s, n[i]);
        assert(n@.take(i + 1) =~= n@.take(i as int).push(n@[i as int]));
        i = i + 1;
    }
    assert(n@.take(n.len() as int) =~= n@);
    s
}

/// A path component that names something (not empty, not `.`).
pub open spec fn is_named_piece(p: Seq<char>) -> bool {
    p.len() > 0 && p != seq!['.']
}

/// The last piece that names something, scanning from the end.
pub open spec fn last_named(pieces: Seq<Seq<char>>) -> Option<Seq<char>>
    decreases pieces.len(),
{
    if pieces.len() == 0 {
        None
    } else if is_named_piece(pieces.last()) {
        Some(pieces.last())
    } else {
        last_named(pieces.drop_last())
    }
}

/// The final component of a path, as `Path::file_name` gives it on Unix:
/// the last component that is not empty or `.`, unless that is `..`.
pub open spec fn file_name(p: Seq<char>) -> Option<Seq<char>> {
    match last_named(split_on(p, '/')) {
        Some(c) => if c == dotdot() {
            None
        } else {
            Some(c)
        },
        None => None,
    }
}

/// The final component of `p`.
pub fn file_name_of(p: &str) -> (r: Option<String>)
    ensures
        r matches Some(s) ==> file_name(p@) == Some(s@),
        r is None ==> file_name(p@) is None,
{
    let cs = chars_of(p);
    let pieces = split_chars(&cs, '/');
    let ghost views = split_on(p@, '/');
    let mut k = pieces.len();
    assert(views.take(k as int) =~= views);
    while k > 0
        invariant
            k <= pieces.len(),
            views == split_on(p@, '/'),
            pieces@.len() == views.len(),
            forall|i: int| 0 <= i < pieces@.len() ==> #[trigger] pieces@[i]@ == views[i],
            last_named(views) == last_named(views.take(k as int)),
        decreases k,
    {
        let piece = &pieces[k - 1];
        proof {
            assert(views.take(k as int).last() == piece@);
            assert(views.take(k as int).drop_last() =~= views.take(k - 1));
        }
        let named = piece.len() > 0 && !(piece.len() == 1 && piece[0] == '.');
        proof {
            assert(seq!['.'].len() == 1);
            assert(seq!['.'][0] == '.');
            if piece.len() == 1 && piece[0] == '.' {
                assert(piece@ =~= seq!['.']);
            }
            assert(named == is_named_piece(piece@));
            if named {
                assert(last_named(views.take(k as int)) == Some(piece@));
            } else {
                assert(last_named(views.take(k as int)) == last_named(views.take(k - 1)));
            }
            assert(dotdot().len() == 2 && dotdot()[0] == '.' && dotdot()[1] == '.');
        }
        if named {
            let is_up = piece.len() == 2 && piece[0] == '.' && piece[1] == '.';
            proof {
                if is_up {
                    assert(piece@ =~= dotdot());
                }
                assert(is_up == (piece@ == dotdot()));
            }
            if is_up {
                return None;
            }
            return Some(string_from_chars(piece.as_slice()));
        }
        k = k - 1;
    }
    assert(views.take(0) =~= Seq::<Seq<char>>::empty());
    None
}

/// The pieces that name something, in order.
pub open spec fn named_pieces(pieces: Seq<Seq<char>>) -> Seq<Seq<char>>
    decreases pieces.len(),
{
    if pieces.len() == 0 {
        Seq::empty()
    } else if is_named_piece(pieces.last()) {
        named_pieces(pieces.drop_last()).push(pieces.last())
    } else {
        named_pieces(pieces.drop_last())
    }
}

/// The components of a Unix path as `Path::components` yields them: whether
/// it starts at the root, whether it starts with a `.` of its own (kept only
/// at the very beginning of a relative path), and the other components.
/// Repeated separators, a trailing separator and `.` elsewhere are not
/// components.
pub open spec fn path_components(p: Seq<char>) -> (bool, bool, Seq<Seq<char>>) {
    let root = p.len() > 0 && p[0] == '/';
    let cur = !root && split_on(p, '/')[0] == seq!['.'];
    (root, cur, named_pieces(split_on(p, '/')))
}

/// Two paths name the same place as `Path` compares them: by components.
pub open spec fn same_path(a: Seq<char>, b: Seq<char>) -> bool {
    path_components(a) == path_components(b)
}

pub open spec fn char_vec_views(v: Seq<Vec<char>>) -> Seq<Seq<char>> {
    v.map_values(|x: Vec<char>| x@)
}

fn is_named(piece: &Vec<char>) -> (r: bool)
    ensures
        r == is_named_piece(piece@),
{
    let r = piece.len() > 0 && !(piece.len() == 1 && piece[0] == '.');
    proof {
        assert(seq!['.'].len() == 1);
        assert(seq!['.'][0] == '.');
        if piece.len() == 1 && piece[0] == '.' {
            assert(piece@ =~= seq!['.']);
        }
    }
    r
}

/// The components of `p`.
fn path_key(p: &str) -> (r: (bool, bool, Vec<Vec<char>>))
    ensures
        r.0 == path_components(p@).0,
        r.1 == path_components(p@).1,
        char_vec_views(r.2@) == path_components(p@).2,
{
    let cs = chars_of(p);
    let pieces = split_chars(&cs, '/');
    let ghost views = split_on(p@, '/');
    proof {
        crate::text::lemma_split_on_nonempty(p@, '/');
    }
    let root = cs.len() > 0 && cs[0] == '/';
    let cur = !root && pieces[0].len() == 1 && pieces[0][0] == '.';
    proof {
        assert(pieces@[0]@ == views[0]);
        if !root && pieces[0].len() == 1 && pieces[0][0] == '.' {
            assert(pieces@[0]@ =~= seq!['.']);
        }
        assert(seq!['.'].len() == 1 && seq!['.'][0] == '.');
    }
    let mut out: Vec<Vec<char>> = Vec::new();
    let mut i: usize = 0;
    assert(views.take(0) =~= Seq::<Seq<char>>::empty());
    assert(char_vec_views(out@) =~= Seq::<Seq<char>>::empty());
    while i < pieces.len()
        invariant
            i <= pieces@.len(),
            views == split_on(p@, '/'),
            pieces@.len() == views.len(),
            forall|k: int| 0 <= k < pieces@.len() ==> #[trigger] pieces@[k]@ == views[k],
            char_vec_views(out@) == named_pieces(views.take(i as int)),
        decreases pieces.len() - i,
    {
        let ghost before = char_vec_views(out@);
        proof {
            assert(views.take(i + 1).drop_last() =~= views.take(i as int));
            assert(views.take(i + 1).last() == pieces@[i as int]@);
        }
        if is_named(&pieces[i]) {
            out.push(pieces[i].clone());
            assert(char_vec_views(out@) =~= before.push(pieces@[i as int]@));
        }
        i = i + 1;
    }
    assert(views.take(pieces.len() as int) =~= views);
    (root, cur, out)
}

fn chars_equal(a: &Vec<char>, b: &Vec<char>) -> (r: bool)
    ensures
        r == (a@ == b@),
{
    if a.len() != b.len() {
        return false;
    }
    let mut i: usize = 0;
    while i < a.len()
        invariant
            i <= a@.len(),
            a@.len() == b@.len(),
            forall|k: int| 0 <= k < i ==> a@[k] == b@[k],
        decreases a.len() - i,
    {
        if a[i] != b[i] {
            return false;
        }
        i = i + 1;
    }
    assert(a@ =~= b@);
    true
}

/// Whether `a` and `b` name the same place, comparing them by components as
/// `Path` does: `/tmp/x/` and `/tmp//x` are `/tmp/x`.
pub fn paths_equal(a: &str, b: &str) -> (r: bool)
    ensures
        r == same_path(a@, b@),
{
    let ka = path_key(a);
    let kb = path_key(b);
    let ghost va = char_vec_views(ka.2@);
    let ghost vb = char_vec_views(kb.2@);
    if ka.0 != kb.0 || ka.1 != kb.1 || ka.2.len() != kb.2.len() {
        proof {
            if ka.2.len() != kb.2.len() {
                assert(va.len() != vb.len());
            }
        }
        return false;
    }
    let mut i: usize = 0;
    while i < ka.2.len()
        invariant
            i <= ka.2@.len(),
            ka.2@.len() == kb.2@.len(),
            va == char_vec_views(ka.2@),
            vb == char_vec_views(kb.2@),
            va == path_components(a@).2,
            vb == path_components(b@).2,
            forall|k: int| 0 <= k < i ==> va[k] == vb[k],
        decreases ka.2.len() - i,
    {
        let same = chars_equal(&ka.2[i], &kb.2[i]);
        assert(va[i as int] == ka.2@[i as int]@ && vb[i as int] == kb.2@[i as int]@);
        if !same {
            assert(va[i as int] != vb[i as int]);
            assert(path_components(a@).2[i as int] != path_components(b@).2[i as int]);
            return false;
        }
        i = i + 1;
    }
    assert(va =~= vb);
    true
}

/// A path written from its components alone: `/` for a path from the root,
/// `./` for one that starts with its own `.`, then the other components
/// joined with `/`. Paths that `Path` takes as equal are written the same.
pub open spec fn norm_path(p: Seq<char>) -> Seq<char> {
    let c = path_components(p);
    (if c.0 {
        "/"@
    } else if c.1 {
        "./"@
    } else {
        Seq::empty()
    }) + join_with(c.2, '/')
}

/// Two paths that name the same place are written the same.
pub proof fn law_same_path_same_form(a: Seq<char>, b: Seq<char>)
    requires
        same_path(a, b),
    ensures
        norm_path(a) == norm_path(b),
{
}

/// `x` holds no `sep`.
pub open spec fn free_of(x: Seq<char>, sep: char) -> bool {
    forall|i: int| 0 <= i < x.len() ==> x[i] != sep
}

proof fn lemma_split_free(s: Seq<char>, sep: char)
    ensures
        forall|k: int| 0 <= k < split_on(s, sep).len() ==> free_of(#[trigger] split_on(s, sep)[k], sep),
    decreases s.len(),
{
    crate::text::lemma_split_on_nonempty(s, sep);
    if s.len() > 0 {
        lemma_split_free(s.drop_last(), sep);
        crate::text::lemma_split_on_nonempty(s.drop_last(), sep);
        let prev = split_on(s.drop_last(), sep);
        let cur = split_on(s, sep);
        assert forall|k: int| 0 <= k < cur.len() implies free_of(#[trigger] cur[k], sep) by {
            if s.last() == sep {
                if k < prev.len() {
                    assert(cur[k] == prev[k]);
                } else {
                    assert(cur[k] =~= Seq::<char>::empty());
                }
            } else if k == prev.len() - 1 {
                let x = prev.last().push(s.last());
                assert(cur[k] == x);
                assert(free_of(prev[k], sep));
                assert forall|i: int| 0 <= i < x.len() implies x[i] != sep by {
                    if i < prev.last().len() {
                        assert(x[i] == prev[k][i]);
                    }
                }
            } else {
                assert(cur[k] == prev[k]);
            }
        }
    }
}

proof fn lemma_named_free(pieces: Seq<Seq<char>>)
    requires
        forall|k: int| 0 <= k < pieces.len() ==> free_of(#[trigger] pieces[k], '/'),
    ensures
        forall|k: int|
            0 <= k < named_pieces(pieces).len() ==> free_of(#[trigger] named_pieces(pieces)[k], '/')
                && is_named_piece(named_pieces(pieces)[k]),
    decreases pieces.len(),
{
    if pieces.len() > 0 {
        let d = pieces.drop_last();
        assert forall|k: int| 0 <= k < d.len() implies free_of(#[trigger] d[k], '/') by {
            assert(d[k] == pieces[k]);
        }
        lemma_named_free(d);
        let n = named_pieces(pieces);
        let m = named_pieces(d);
        assert forall|k: int| 0 <= k < n.len() implies free_of(#[trigger] n[k], '/') && is_named_piece(
            n[k],
        ) by {
            if is_named_piece(pieces.last()) && k == m.len() {
                assert(n[k] == pieces[pieces.len() - 1]);
            } else {
                assert(n[k] == m[k]);
            }
        }
    }
}

proof fn lemma_split_append_free(s: Seq<char>, b: Seq<char>, sep: char)
    requires
        free_of(b, sep),
    ensures
        split_on(s, sep).len() >= 1,
        split_on(s + b, sep) == split_on(s, sep).update(
            split_on(s, sep).len() - 1,
            split_on(s, sep).last() + b,
        ),
    decreases b.len(),
{
    crate::text::lemma_split_on_nonempty(s, sep);
    let p = split_on(s, sep);
    if b.len() == 0 {
        assert(s + b =~= s);
        assert(p.last() + b =~= p.last());
        assert(p.update(p.len() - 1, p.last() + b) =~= p);
    } else {
        let b0 = b.drop_last();
        assert forall|i: int| 0 <= i < b0.len() implies b0[i] != sep by {
            assert(b0[i] == b[i]);
        }
        lemma_split_append_free(s, b0, sep);
        assert((s + b).drop_last() =~= s + b0);
        assert((s + b).last() == b[b.len() - 1]);
        let q = split_on(s + b0, sep);
        assert(q.len() == p.len());
        assert(q.last() == p.last() + b0);
        assert((p.last() + b0).push(b.last()) =~= p.last() + b);
        assert(split_on(s + b, sep) =~= p.update(p.len() - 1, p.last() + b));
    }
}

proof fn lemma_split_join(xs: Seq<Seq<char>>, sep: char)
    requires
        xs.len() >= 1,
        forall|k: int| 0 <= k < xs.len() ==> free_of(#[trigger] xs[k], sep),
    ensures
        split_on(join_with(xs, sep), sep) == xs,
    decreases xs.len(),
{
    if xs.len() == 1 {
        assert(free_of(xs[0], sep));
        lemma_split_append_free(Seq::empty(), xs[0], sep);
        assert(Seq::<char>::empty() + xs[0] =~= xs[0]);
        assert(split_on(Seq::<char>::empty(), sep) =~= seq![Seq::<char>::empty()]);
        assert(seq![Seq::<char>::empty()].update(0, Seq::<char>::empty() + xs[0]) =~= xs);
    } else {
        let d = xs.drop_last();
        assert forall|k: int| 0 <= k < d.len() implies free_of(#[trigger] d[k], sep) by {
            assert(d[k] == xs[k]);
        }
        lemma_split_join(d, sep);
        let a = join_with(d, sep);
        assert(free_of(xs[xs.len() - 1], sep));
        lemma_split_append_free(a.push(sep), xs.last(), sep);
        assert(a.push(sep).drop_last() =~= a);
        let sa = split_on(a.push(sep), sep);
        assert(sa == d.push(Seq::<char>::empty()));
        assert(Seq::<char>::empty() + xs.last() =~= xs.last());
        assert(sa.update(sa.len() - 1, sa.last() + xs.last()) =~= xs);
    }
}

/// The joined pieces start with the first piece, followed by `sep` when
/// more pieces come.
proof fn lemma_join_starts(xs: Seq<Seq<char>>, sep: char)
    requires
        xs.len() >= 1,
    ensures
        join_with(xs, sep).len() >= xs[0].len(),
        forall|i: int| 0 <= i < xs[0].len() ==> join_with(xs, sep)[i] == xs[0][i],
        xs.len() >= 2 ==> join_with(xs, sep).len() > xs[0].len() && join_with(xs, sep)[xs[0].len() as int]
            == sep,
    decreases xs.len(),
{
    if xs.len() >= 2 {
        let d = xs.drop_last();
        lemma_join_starts(d, sep);
        assert(d[0] == xs[0]);
        let a = join_with(d, sep);
        let j = a.push(sep) + xs.last();
        assert(join_with(xs, sep) == j);
        assert forall|i: int| 0 <= i < xs[0].len() implies j[i] == xs[0][i] by {
            assert(j[i] == a[i]);
        }
        if xs.len() == 2 {
            assert(a == xs[0]);
            assert(j[xs[0].len() as int] == sep);
        } else {
            assert(j[xs[0].len() as int] == a[xs[0].len() as int]);
        }
    }
}

/// The first character of the joined components, and the second when the
/// first is `.`: never `/`.
proof fn lemma_body_start(c: Seq<Seq<char>>)
    requires
        c.len() >= 1,
        forall|k: int| 0 <= k < c.len() ==> free_of(#[trigger] c[k], '/') && is_named_piece(c[k]),
    ensures
        join_with(c, '/').len() >= 1,
        join_with(c, '/')[0] != '/',
        join_with(c, '/')[0] == '.' && join_with(c, '/').len() >= 2 ==> join_with(c, '/')[1] != '/',
{
    lemma_join_starts(c, '/');
    assert(free_of(c[0], '/') && is_named_piece(c[0]));
    let j = join_with(c, '/');
    if j[0] == '.' && j.len() >= 2 {
        if c[0].len() == 1 {
            assert(c[0] =~= seq!['.']);
        }
        assert(j[1] == c[0][1]);
    }
}

/// Paths written the same name the same place: the written form keeps
/// apart every two paths that `Path` tells apart.
pub proof fn law_same_form_same_path(a: Seq<char>, b: Seq<char>)
    requires
        norm_path(a) == norm_path(b),
    ensures
        same_path(a, b),
{
    let ca = path_components(a);
    let cb = path_components(b);
    lemma_split_free(a, '/');
    lemma_split_free(b, '/');
    lemma_named_free(split_on(a, '/'));
    lemma_named_free(split_on(b, '/'));
    let ja = join_with(ca.2, '/');
    let jb = join_with(cb.2, '/');
    if ca.2.len() >= 1 {
        lemma_body_start(ca.2);
    } else {
        assert(ja =~= Seq::<char>::empty());
    }
    if cb.2.len() >= 1 {
        lemma_body_start(cb.2);
    } else {
        assert(jb =~= Seq::<char>::empty());
    }
    reveal_strlit("/");
    reveal_strlit("./");
    let la: Seq<char> = if ca.0 { "/"@ } else if ca.1 { "./"@ } else { Seq::empty() };
    let lb: Seq<char> = if cb.0 { "/"@ } else if cb.1 { "./"@ } else { Seq::empty() };
    let n = norm_path(a);
    assert(n == la + ja);
    assert(n == lb + jb);
    // The same lead on both sides.
    assert(la == lb) by {
        if la != lb {
            if ca.0 || cb.0 {
                // one starts at the root: its form starts with `/`, the other's does not
                assert(n[0] == '/');
                if !ca.0 {
                    assert(n[0] == (la + ja)[0]);
                    if ca.1 {
                        assert(n[0] == '.');
                    } else {
                        assert(n[0] == ja[0]);
                    }
                } else {
                    assert(n[0] == (lb + jb)[0]);
                    if cb.1 {
                        assert(n[0] == '.');
                    } else {
                        assert(n[0] == jb[0]);
                    }
                }
            } else {
                // one starts with `./`, the other with a component
                assert(n.len() >= 2 && n[0] == '.' && n[1] == '/');
                if ca.1 {
                    assert(n == jb);
                } else {
                    assert(n == ja);
                }
            }
        }
    }
    assert(ja =~= n.subrange(la.len() as int, n.len() as int));
    assert(jb =~= n.subrange(lb.len() as int, n.len() as int));
    assert(ca.2 == cb.2) by {
        if ca.2.len() >= 1 && cb.2.len() >= 1 {
            lemma_split_join(ca.2, '/');
            lemma_split_join(cb.2, '/');
        } else if ca.2.len() >= 1 {
            assert(ja.len() >= 1);
        } else if cb.2.len() >= 1 {
            assert(jb.len() >= 1);
        } else {
            assert(ca.2 =~= cb.2);
        }
    }
    assert(ca.0 == cb.0 && ca.1 == cb.1) by {
        assert(("/"@).len() == 1 && ("./"@).len() == 2);
        assert(("/"@)[0] == '/' && ("./"@)[0] == '.');
    }
}

/// `p` written from its components.
pub fn normalize_path(p: &str) -> (r: String)
    ensures
        r@ == norm_path(p@),
{
    let (root, cur, parts) = path_key(p);
    let body = join_chars(&parts, '/');
    proof {
        assert(parts@.map_values(|q: Vec<char>| q@) =~= char_vec_views(parts@));
    }
    let lead = if root {
        "/"
    } else if cur {
        "./"
    } else {
        ""
    };
    let mut out = chars_of(lead);
    let mut i: usize = 0;
    let ghost pre = out@;
    while i < body.len()
        invariant
            i <= body@.len(),
            out@ == pre + body@.take(i as int),
        decreases body.len() - i,
    {
        out.push(body[i]);
        assert(body@.take(i + 1) =~= body@.take(i as int).push(body@[i as int]));
        i = i + 1;
    }
    assert(body@.take(body.len() as int) =~= body@);
    proof {
        reveal_strlit("");
        assert(""@ =~= Seq::<char>::empty());
    }
    string_from_chars(out.as_slice())
}

/// Name for what `Path::parent` returns for a path: the path without its
/// final component, or `None` for a root or an empty path.
pub uninterp spec fn parent_of(p: Seq<char>) -> Option<Seq<char>>;

/// `Path::parent`.
#[verifier::external_body]
pub(crate) fn parent_path(p: &str) -> (r: Option<String>)
    ensures
        r matches Some(s) ==> parent_of(p@) == Some(s@),
        r is None ==> parent_of(p@) is None,
{
    std::path::Path::new(p).parent().map(|q| q.to_string_lossy().into_owned())
}

} // verus!
