//! The few operations of the standard library on paths and strings that the
//! player relies on, each behind a contract.

use vstd::prelude::*;

verus! {

/// The file stem that `std::path::Path::file_stem` finds in a path, if any:
/// the last component's name up to its last dot, by the path syntax of the
/// platform that the library is built for.
pub uninterp spec fn path_file_stem(path: Seq<char>) -> Option<Seq<char>>;

/// The extension that `std::path::Path::extension` finds in a path, if any:
/// what follows the last dot of the last component's name, by the path
/// syntax of the platform that the library is built for.
pub uninterp spec fn path_extension(path: Seq<char>) -> Option<Seq<char>>;

/// The lowercase form that `str::to_lowercase` gives a string.
pub uninterp spec fn str_lowercase(s: Seq<char>) -> Seq<char>;

/// The characters of an optional string.
pub open spec fn opt_chars(s: Option<String>) -> Option<Seq<char>> {
    match s {
        Some(s) => Some(s@),
        None => None,
    }
}

/// Calls `std::path::Path::file_stem` on `path`. Trusted: the result is the
/// stem that the standard library finds, as owned text; it is a function of
/// the path's characters alone. A stem cut from valid UTF-8 is valid UTF-8, so
/// the conversion back to text loses nothing.
#[verifier::external_body]
pub(crate) fn file_stem(path: &str) -> (stem: Option<String>)
    ensures
        opt_chars(stem) == path_file_stem(path@),
{
    let stem = std::path::Path::new(path).file_stem()?;
    Some(stem.to_str()?.to_owned())
}

/// Calls `std::path::Path::extension` on `path`. Trusted: the result is the
/// extension that the standard library finds, as owned text; it is a function
/// of the path's characters alone.
#[verifier::external_body]
pub(crate) fn extension(path: &str) -> (ext: Option<String>)
    ensures
        opt_chars(ext) == path_extension(path@),
{
    let ext = std::path::Path::new(path).extension()?;
    Some(ext.to_str()?.to_owned())
}

/// Calls `str::to_lowercase`. Trusted: the result is the lowercase form that
/// the standard library computes, a function of the characters alone.
#[verifier::external_body]
pub(crate) fn lowercase(s: &str) -> (lower: String)
    ensures
        lower@ == str_lowercase(s@),
{
    s.to_lowercase()
}

/// Compares two string slices with `==` of `str`. Trusted: the result says
/// whether both hold the same characters.
#[verifier::external_body]
pub(crate) fn str_eq(a: &str, b: &str) -> (same: bool)
    ensures
        same == (a@ == b@),
{
    a == b
}

} // verus!
