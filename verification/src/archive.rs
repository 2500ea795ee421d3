//! Recognising archives by file name, and choosing how to unpack one.
use vstd::prelude::*;
use crate::text::{chars_of, ends_with_chars, ends_with_seq, lower_chars, lowercase, string_from_chars};

verus! {

/// The extensions that mark an archive, compared in lowercase.
pub open spec fn archive_exts() -> Seq<Seq<char>> {
    seq![
        ".zip"@,
        ".tar"@,
        ".tar.gz"@,
        ".tgz"@,
        ".tar.bz2"@,
        ".tbz2"@,
        ".tar.xz"@,
        ".txz"@,
        ".tar.zst"@,
        ".7z"@,
        ".rar"@,
        ".gz"@,
        ".bz2"@,
        ".xz"@,
        ".zst"@,
    ]
}

/// The lowercase name ends with one of the archive extensions.
pub open spec fn is_archive_name(name: Seq<char>) -> bool {
    exists|k: int| 0 <= k < archive_exts().len() && ends_with_seq(lowercase(name), #[trigger] archive_exts()[k])
}

fn archive_ext_list() -> (r: Vec<Vec<char>>)
    ensures
        r@.map_values(|v: Vec<char>| v@) == archive_exts(),
{
    let mut r: Vec<Vec<char>> = Vec::new();
    r.push(chars_of(".zip"));
    r.push(chars_of(".tar"));
    r.push(chars_of(".tar.gz"));
    r.push(chars_of(".tgz"));
    r.push(chars_of(".tar.bz2"));
    r.push(chars_of(".tbz2"));
    r.push(chars_of(".tar.xz"));
    r.push(chars_of(".txz"));
    r.push(chars_of(".tar.zst"));
    r.push(chars_of(".7z"));
    r.push(chars_of(".rar"));
    r.push(chars_of(".gz"));
    r.push(chars_of(".bz2"));
    r.push(chars_of(".xz"));
    r.push(chars_of(".zst"));
    assert(r@.map_values(|v: Vec<char>| v@) =~= archive_exts());
    r
}

/// Whether `name` looks like an archive (case-insensitively, by extension).
pub fn is_archive(name: &str) -> (r: bool)
    ensures
        r == is_archive_name(name@),
{
    let n = lower_chars(name);
    let exts = archive_ext_list();
    let mut k: usize = 0;
    while k < exts.len()
        invariant
            k <= exts@.len(),
            n@ == lowercase(name@),
            exts@.map_values(|v: Vec<char>| v@) == archive_exts(),
            forall|j: int| 0 <= j < k ==> !ends_with_seq(n@, #[trigger] archive_exts()[j]),
        decreases exts.len() - k,
    {
        assert(exts@[k as int]@ == archive_exts()[k as int]);
        if ends_with_chars(&n, &exts[k]) {
            return true;
        }
        k = k + 1;
    }
    false
}

/// How an archive is unpacked.
#[derive(Debug, Clone, PartialEq, Eq)]
pub enum ArchiveKind {
    Zip,
    TarGz,
    TarBz2,
    TarXz,
    TarZst,
    Tar,
    /// A single gzip-compressed file, unpacked to `stem`.
    Gz { stem: String },
    Bz2 { stem: String },
    Xz { stem: String },
    Zst { stem: String },
}

/// `s` without the suffix `suf` (which it ends with).
pub open spec fn strip_suffix(s: Seq<char>, suf: Seq<char>) -> Seq<char> {
    s.subrange(0, s.len() - suf.len())
}

/// The first matching rule on the lowercase file name decides the kind;
/// `None` for anything else.
pub open spec fn kind_of(lname: Seq<char>, r: Option<ArchiveKind>) -> bool {
    if ends_with_seq(lname, ".zip"@) {
        r == Some(ArchiveKind::Zip)
    } else if ends_with_seq(lname, ".tar.gz"@) || ends_with_seq(lname, ".tgz"@) {
        r == Some(ArchiveKind::TarGz)
    } else if ends_with_seq(lname, ".tar.bz2"@) || ends_with_seq(lname, ".tbz2"@) {
        r == Some(ArchiveKind::TarBz2)
    } else if ends_with_seq(lname, ".tar.xz"@) || ends_with_seq(lname, ".txz"@) {
        r == Some(ArchiveKind::TarXz)
    } else if ends_with_seq(lname, ".tar.zst"@) {
        r == Some(ArchiveKind::TarZst)
    } else if ends_with_seq(lname, ".tar"@) {
        r == Some(ArchiveKind::Tar)
    } else if ends_with_seq(lname, ".gz"@) {
        r matches Some(ArchiveKind::Gz { stem }) && stem@ == strip_suffix(lname, ".gz"@)
    } else if ends_with_seq(lname, ".bz2"@) {
        r matches Some(ArchiveKind::Bz2 { stem }) && stem@ == strip_suffix(lname, ".bz2"@)
    } else if ends_with_seq(lname, ".xz"@) {
        r matches Some(ArchiveKind::Xz { stem }) && stem@ == strip_suffix(lname, ".xz"@)
    } else if ends_with_seq(lname, ".zst"@) {
        r matches Some(ArchiveKind::Zst { stem }) && stem@ == strip_suffix(lname, ".zst"@)
    } else {
        r is None
    }
}

fn strip(s: &Vec<char>, n: usize) -> (r: String)
    requires
        n <= s@.len(),
    ensures
        r@ == s@.subrange(0, s@.len() - n),
{
    let mut out: Vec<char> = Vec::new();
    let m = s.len() - n;
    let mut i: usize = 0;
    while i < m
        invariant
            i <= m,
            m <= s@.len(),
            out@ == s@.subrange(0, i as int),
        decreases m - i,
    {
        out.push(s[i]);
        assert(s@.subrange(0, i + 1) =~= s@.subrange(0, i as int).push(s@[i as int]));
        i = i + 1;
    }
    string_from_chars(&out)
}

/// How to unpack the archive called `name` (its file name, any case).
pub fn archive_kind(name: &str) -> (r: Option<ArchiveKind>)
    ensures
        kind_of(lowercase(name@), r),
{
    let n = lower_chars(name);
    if ends_with_chars(&n, &chars_of(".zip")) {
        Some(ArchiveKind::Zip)
    } else if ends_with_chars(&n, &chars_of(".tar.gz")) || ends_with_chars(&n, &chars_of(".tgz")) {
        Some(ArchiveKind::TarGz)
    } else if ends_with_chars(&n, &chars_of(".tar.bz2")) || ends_with_chars(&n, &chars_of(".tbz2")) {
        Some(ArchiveKind::TarBz2)
    } else if ends_with_chars(&n, &chars_of(".tar.xz")) || ends_with_chars(&n, &chars_of(".txz")) {
        Some(ArchiveKind::TarXz)
    } else if ends_with_chars(&n, &chars_of(".tar.zst")) {
        Some(ArchiveKind::TarZst)
    } else if ends_with_chars(&n, &chars_of(".tar")) {
        Some(ArchiveKind::Tar)
    } else {
        let gz = chars_of(".gz");
        let bz2 = chars_of(".bz2");
        let xz = chars_of(".xz");
        let zst = chars_of(".zst");
        if ends_with_chars(&n, &gz) {
            Some(ArchiveKind::Gz { stem: strip(&n, gz.len()) })
        } else if ends_with_chars(&n, &bz2) {
            Some(ArchiveKind::Bz2 { stem: strip(&n, bz2.len()) })
        } else if ends_with_chars(&n, &xz) {
            Some(ArchiveKind::Xz { stem: strip(&n, xz.len()) })
        } else if ends_with_chars(&n, &zst) {
            Some(ArchiveKind::Zst { stem: strip(&n, zst.len()) })
        } else {
            None
        }
    }
}

} // verus!
