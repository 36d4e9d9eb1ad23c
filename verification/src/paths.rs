//! Path questions that are answered by the standard library's path parser.
//!
//! Paths are held as strings. How the standard library splits a path into
//! components, on the platform that the library is built for, is not restated
//! here: each answer is named, and the callers' contracts speak of these
//! names.

use std::path::Path;
use vstd::prelude::*;

verus! {

/// The path that `Path::join` builds from `base` and `tail`.
pub uninterp spec fn joined_path(base: Seq<char>, tail: Seq<char>) -> Seq<char>;

/// Whether `Path::starts_with` finds `base` to be a prefix of `path`, whole
/// components only.
pub uninterp spec fn path_is_under(path: Seq<char>, base: Seq<char>) -> bool;

/// The extension that `Path::extension` extracts from the file name of `path`.
pub uninterp spec fn path_extension(path: Seq<char>) -> Option<Seq<char>>;

/// Calls `Path::join`. Trusted: the result is the named join of the two
/// strings. Both parts are valid UTF-8, so the joined path is too and the
/// conversion back to a string loses nothing.
#[verifier::external_body]
pub(crate) fn join_path(base: &str, tail: &str) -> (joined: String)
    ensures
        joined@ == joined_path(base@, tail@),
{
    Path::new(base).join(tail).to_string_lossy().into_owned()
}

/// Calls `Path::starts_with`. Trusted: the result is the named prefix test.
#[verifier::external_body]
pub(crate) fn path_starts_with(path: &str, base: &str) -> (under: bool)
    ensures
        under == path_is_under(path@, base@),
{
    Path::new(path).starts_with(Path::new(base))
}

/// Calls `Path::extension`. Trusted: the result is the named extension. An
/// extension is a piece of the path string, hence valid UTF-8.
#[verifier::external_body]
pub(crate) fn extension_of(path: &str) -> (extension: Option<String>)
    ensures
        extension is Some <==> path_extension(path@) is Some,
        extension is Some ==> extension->Some_0@ == path_extension(path@)->Some_0,
{
    Path::new(path).extension().map(|found| found.to_string_lossy().into_owned())
}

/// Whether an extension belongs to the swap-file family: it begins with `sw`.
pub open spec fn is_swap_extension_spec(extension: Seq<char>) -> bool {
    extension.len() >= 2 && extension[0] == 's' && extension[1] == 'w'
}

/// Tells whether a file extension begins with `sw`.
pub fn is_swap_extension(extension: &str) -> (swap: bool)
    ensures
        swap == is_swap_extension_spec(extension@),
{
    if extension.unicode_len() < 2 {
        return false;
    }
    extension.get_char(0) == 's' && extension.get_char(1) == 'w'
}

} // verus!
