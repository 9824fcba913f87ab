//! Path syntax, as `std::path` reads it on the platform that the library is
//! built for, on paths held as text.
//!
//! Every contract in this file is believed, not proved. Each names the result
//! of one function of `std::path`: what the function gives for a path is
//! fixed by the text of the path, and the library claims no more of it.

use vstd::prelude::*;
use crate::text::opt_text;

verus! {

/// The extension of a path, as `std::path::Path::extension` gives it: the
/// part of the file name after its last dot, where the file name has one that
/// is not its first character.
pub uninterp spec fn path_extension(path: Seq<char>) -> Option<Seq<char>>;

/// The file name of a path without its extension, as
/// `std::path::Path::file_stem` gives it.
pub uninterp spec fn path_file_stem(path: Seq<char>) -> Option<Seq<char>>;

/// The path without its last component, as `std::path::Path::parent` gives it.
pub uninterp spec fn path_parent(path: Seq<char>) -> Option<Seq<char>>;

/// Whether a path is absolute, as `std::path::Path::is_absolute` tells.
pub uninterp spec fn path_is_absolute(path: Seq<char>) -> bool;

/// A path followed by another, as `std::path::Path::join` gives it.
pub uninterp spec fn path_join(base: Seq<char>, path: Seq<char>) -> Seq<char>;

/// Calls `std::path::Path::extension` on the path. The contract only names the
/// result: the same path has the same extension.
#[verifier::external_body]
pub(crate) fn extension_of(path: &str) -> (ext: Option<String>)
    ensures
        opt_text(ext) == path_extension(path@),
{
    std::path::Path::new(path).extension().map(|e| e.to_string_lossy().into_owned())
}

/// Calls `std::path::Path::file_stem` on the path. The contract only names
/// the result.
#[verifier::external_body]
pub(crate) fn file_stem_of(path: &str) -> (stem: Option<String>)
    ensures
        opt_text(stem) == path_file_stem(path@),
{
    std::path::Path::new(path).file_stem().map(|e| e.to_string_lossy().into_owned())
}

/// Calls `std::path::Path::parent` on the path. The contract only names the
/// result.
#[verifier::external_body]
pub(crate) fn parent_of(path: &str) -> (parent: Option<String>)
    ensures
        opt_text(parent) == path_parent(path@),
{
    std::path::Path::new(path).parent().map(|p| p.to_string_lossy().into_owned())
}

/// Calls `std::path::Path::is_absolute` on the path. The contract only names
/// the result.
#[verifier::external_body]
pub(crate) fn is_absolute(path: &str) -> (absolute: bool)
    ensures
        absolute == path_is_absolute(path@),
{
    std::path::Path::new(path).is_absolute()
}

/// Calls `std::path::Path::join`. The contract only names the result.
#[verifier::external_body]
pub(crate) fn join(base: &str, path: &str) -> (joined: String)
    ensures
        joined@ == path_join(base@, path@),
{
    std::path::Path::new(base).join(path).to_string_lossy().into_owned()
}

} // verus!
