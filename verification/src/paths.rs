//! The three filesystem-path operations of the standard library that the
//! launcher relies on. Their bodies are not verified. A path is spoken of
//! by the text it holds.

use vstd::prelude::*;
use std::path::PathBuf;

verus! {

/// `std::path::PathBuf`, carried through as an opaque value.
#[verifier::external_type_specification]
#[verifier::external_body]
pub struct ExPathBuf(std::path::PathBuf);

/// The text that a path holds.
pub uninterp spec fn path_text(path: PathBuf) -> Seq<char>;

/// The text of the path that `Path::join` makes of a path with the text
/// `base` and the further component `name`, on the platform that the library
/// is built for.
pub uninterp spec fn joined_text(base: Seq<char>, name: Seq<char>) -> Seq<char>;

/// Calls `PathBuf::from` on a string slice. The path it makes holds that
/// very text.
#[verifier::external_body]
pub(crate) fn path_from(text: &str) -> (path: PathBuf)
    ensures
        path_text(path) == text@,
{
    PathBuf::from(text)
}

/// Calls `Path::join` to extend `base` by `name`. What the joined path holds
/// depends on the text of `base` and on `name` alone.
#[verifier::external_body]
pub(crate) fn path_join(base: &PathBuf, name: &str) -> (path: PathBuf)
    ensures
        path_text(path) == joined_text(path_text(*base), name@),
{
    base.join(name)
}

/// Calls `Path::is_file`, which asks the operating system whether the path
/// names a regular file. The answer depends on what is on disk when the call
/// is made, so nothing is claimed of it.
#[verifier::external_body]
pub(crate) fn path_is_file(path: &PathBuf) -> (found: bool) {
    path.is_file()
}

} // verus!
