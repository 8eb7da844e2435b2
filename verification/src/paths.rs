//! File-name parts as `std::path::Path` reads them, and Unicode lowercase.
//!
//! The general rules of `Path` (component splitting and normalisation) are
//! std's; the functions here name its results.  For a bare file name (no
//! `/`, not empty, not `.` or `..`) std documents the exact rule, and the
//! contracts state it.
use vstd::prelude::*;

use crate::netguard::opt_view;
use crate::text::ascii_lower;

verus! {

/// What `Path::new(p).extension()` gives for the path `p`.
pub uninterp spec fn path_extension(p: Seq<char>) -> Option<Seq<char>>;

/// What `Path::new(p).file_stem()` gives for the path `p`.
pub uninterp spec fn path_file_stem(p: Seq<char>) -> Option<Seq<char>>;

/// What `str::to_lowercase` gives for `s`.
pub uninterp spec fn unicode_lowercase(s: Seq<char>) -> Seq<char>;

/// The parent of a path, as `Path::parent` gives it.
pub uninterp spec fn path_parent(p: Seq<char>) -> Option<Seq<char>>;

/// A path joined with another, as `Path::join` gives it.
pub uninterp spec fn path_join(base: Seq<char>, part: Seq<char>) -> Seq<char>;

/// Whether `p` begins with the whole components of `base`, as
/// `Path::starts_with` answers.
pub uninterp spec fn path_starts_with(p: Seq<char>, base: Seq<char>) -> bool;

/// A path with its extension set, as `Path::with_extension` gives it.
pub uninterp spec fn path_with_extension(p: Seq<char>, ext: Seq<char>) -> Seq<char>;

/// A single path component naming a file: not empty, no `/`, not `.` or `..`.
pub open spec fn is_bare_name(p: Seq<char>) -> bool {
    &&& p.len() > 0
    &&& !p.contains('/')
    &&& p != seq!['.']
    &&& p != seq!['.', '.']
}

/// Index of the last `.` in `s`, if any.
pub open spec fn last_dot(s: Seq<char>) -> Option<int>
    decreases s.len(),
{
    if s.len() == 0 {
        None
    } else if s.last() == '.' {
        Some(s.len() - 1)
    } else {
        last_dot(s.drop_last())
    }
}

/// The extension of a bare file name, as std documents it: `None` without an
/// embedded `.`, or when the only `.` starts the name; otherwise what
/// follows the last `.`.
pub open spec fn name_extension(name: Seq<char>) -> Option<Seq<char>> {
    match last_dot(name) {
        None => None,
        Some(i) => if i == 0 {
            None
        } else {
            Some(name.skip(i + 1))
        },
    }
}

/// The stem of a bare file name, as std documents it: the whole name
/// without an embedded `.` (or when the only `.` starts it); otherwise what
/// precedes the last `.`.
pub open spec fn name_stem(name: Seq<char>) -> Seq<char> {
    match last_dot(name) {
        None => name,
        Some(i) => if i == 0 {
            name
        } else {
            name.take(i)
        },
    }
}

/// The extension of a path.
///
/// Trusted: calls `Path::extension` (and `OsStr::to_str`, which cannot fail
/// on text that came from a `&str`).  Claims the result is the named one,
/// and, for a bare file name, the rule std's documentation gives.
#[verifier::external_body]
pub(crate) fn extension_of(path: &str) -> (r: Option<String>)
    ensures
        opt_view(r) == path_extension(path@),
        is_bare_name(path@) ==> opt_view(r) == name_extension(path@),
{
    std::path::Path::new(path).extension().and_then(|e| e.to_str()).map(|e| e.to_string())
}

/// The file stem of a path.
///
/// Trusted: calls `Path::file_stem`.  Claims the result is the named one,
/// and, for a bare file name, the rule std's documentation gives.
#[verifier::external_body]
pub(crate) fn file_stem_of(path: &str) -> (r: Option<String>)
    ensures
        opt_view(r) == path_file_stem(path@),
        is_bare_name(path@) ==> opt_view(r) == Some(name_stem(path@)),
{
    std::path::Path::new(path).file_stem().and_then(|e| e.to_str()).map(|e| e.to_string())
}

/// The Unicode lowercase form of a string.
///
/// Trusted: calls `str::to_lowercase`.  Claims the result is the named one,
/// and that on ASCII text it maps `A`–`Z` to `a`–`z` and keeps the rest.
#[verifier::external_body]
pub(crate) fn lowercase_of(s: &str) -> (r: String)
    ensures
        r@ == unicode_lowercase(s@),
        (forall|i: int| 0 <= i < s@.len() ==> (s@[i] as u32) < 128) ==> r@ == s@.map_values(
            |c: char| ascii_lower(c),
        ),
{
    s.to_lowercase()
}

/// The parent directory of a path.
///
/// Trusted: calls `Path::parent` (the result is text again, as it came
/// from a `&str`).  Claims the result is the named one.
#[verifier::external_body]
pub(crate) fn parent_of(path: &str) -> (r: Option<String>)
    ensures
        opt_view(r) == path_parent(path@),
{
    std::path::Path::new(path).parent().map(|p| p.to_string_lossy().to_string())
}

/// A path with its extension replaced (or added).
///
/// Trusted: calls `Path::with_extension`, which panics when the extension
/// holds a path separator (hence the `requires`).  Claims the result is the
/// named one.
#[verifier::external_body]
pub(crate) fn with_extension_of(path: &str, ext: &str) -> (r: String)
    requires
        !ext@.contains('/'),
    ensures
        r@ == path_with_extension(path@, ext@),
{
    std::path::Path::new(path).with_extension(ext).to_string_lossy().to_string()
}

/// `base` joined with `part`.
///
/// Trusted: calls `Path::join` (the result is text again, as both came from
/// a `&str`).  Claims the result is the named one and, as std documents for
/// `PathBuf::push` on Unix, that a relative `part` is appended to a
/// non-empty `base` after a `/`, unless `base` already ends with one.
#[verifier::external_body]
pub(crate) fn join_of(base: &str, part: &str) -> (r: String)
    ensures
        r@ == path_join(base@, part@),
        base@.len() > 0 && part@.len() > 0 && part@[0] != '/' ==> r@ == if base@.last() == '/' {
            base@ + part@
        } else {
            base@ + seq!['/'] + part@
        },
{
    std::path::Path::new(base).join(part).to_string_lossy().to_string()
}

/// Whether `path` lies under `base`, component by component.
///
/// Trusted: calls `Path::starts_with`.  Claims the answer is the named one.
#[verifier::external_body]
pub(crate) fn starts_with_path(path: &str, base: &str) -> (b: bool)
    ensures
        b == path_starts_with(path@, base@),
{
    std::path::Path::new(path).starts_with(base)
}

} // verus!
