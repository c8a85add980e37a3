//! Filesystem paths. The library carries them as `std::path::PathBuf` and
//! speaks of them through the bytes they hold; joining and rendering are left
//! to the standard library, and nothing here is proved about either.

use std::path::PathBuf;
use vstd::prelude::*;

verus! {

#[verifier::external_type_specification]
#[verifier::external_body]
pub struct ExPathBuf(std::path::PathBuf);

/// The bytes that a path holds, in the platform's encoding of paths.
pub uninterp spec fn path_bytes(path: PathBuf) -> Seq<u8>;

/// The bytes of the path that `std::path::Path::join` returns for a base
/// path that holds `base` and a component written as `component`.
pub uninterp spec fn joined_path(base: Seq<u8>, component: Seq<char>) -> Seq<u8>;

/// The text that `std::path::Path::to_string_lossy` returns for a path that
/// holds `bytes`.
pub uninterp spec fn lossy_text(bytes: Seq<u8>) -> Seq<char>;

/// Calls `std::path::Path::join`, which adjoins the component to the base
/// path and leaves the base as it was. Assumed, not proved: what the new
/// path holds depends only on what the base holds and on the component. Which
/// bytes they are (the separator, a component that is itself absolute) is the
/// standard library's business and is not stated.
#[verifier::external_body]
pub(crate) fn join_path(base: &PathBuf, component: &str) -> (joined: PathBuf)
    ensures
        path_bytes(joined) == joined_path(path_bytes(*base), component@),
{
    base.join(component)
}

/// Calls `std::path::Path::to_string_lossy` and takes ownership of the text.
/// Assumed, not proved: the text depends only on what the path holds.
#[verifier::external_body]
pub(crate) fn display_path(path: &PathBuf) -> (text: String)
    ensures
        text@ == lossy_text(path_bytes(*path)),
{
    path.to_string_lossy().into_owned()
}

} // verus!
