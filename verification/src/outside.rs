//! The calls that leave this library, each with the contract that is taken on
//! trust. Nothing below is proved: a contract here says what the documentation or
//! the source of the called function shows, and no more.
use crate::atoms::text_of;
use vstd::prelude::*;

verus! {

/// A path of the file system.
#[verifier::external_type_specification]
#[verifier::external_body]
pub struct ExPathBuf(std::path::PathBuf);

/// Why the file system gave no answer.
#[verifier::external_type_specification]
#[verifier::external_body]
pub struct ExIoError(std::io::Error);

/// Why no executable was found.
#[verifier::external_type_specification]
#[verifier::external_body]
pub struct ExSearchError(which::Error);

/// What `std::path::Path::parent` returns for the path that `path` spells: the
/// path without its last component, or nothing where it ends in a root or is
/// empty. It reads the text of the path only, never the file system.
pub uninterp spec fn path_parent(path: Seq<char>) -> Option<Seq<char>>;

/// `std::path::Path::parent` on a path given as text. The contract gives the
/// result its name and claims nothing else of it.
#[verifier::external_body]
pub(crate) fn parent_directory(path: &str) -> (parent: Option<String>)
    ensures
        text_of(parent) == path_parent(path@),
{
    std::path::Path::new(path).parent().map(|directory| directory.to_string_lossy().into_owned())
}

/// `which::which`: looks for an executable called `name` along the search path
/// of the process. The outcome depends on the environment and on the file
/// system, so the contract promises nothing about it.
#[verifier::external_body]
pub(crate) fn find_executable(name: &str) -> (found: Result<std::path::PathBuf, which::Error>) {
    which::which(name)
}

/// `std::path::Path::canonicalize`: the absolute form of `location` with links
/// resolved; an error where nothing is there. The outcome depends on the file
/// system and on the directory the process runs in, so the contract promises
/// nothing about it.
#[verifier::external_body]
pub(crate) fn canonical_path(location: &str) -> (canonical: Result<
    std::path::PathBuf,
    std::io::Error,
>) {
    std::path::Path::new(location).canonicalize()
}

} // verus!
