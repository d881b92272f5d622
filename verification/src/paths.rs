//! File paths as text.
//!
//! Module identifiers and directories travel through the bundler as strings.
//! Taking a path apart and putting one together is left to the standard
//! library, whose answers get a name here.

use vstd::prelude::*;

verus! {

/// What `Path::parent` gives for `path`, as text: the path without its last
/// component, or `None` where `path` ends in a root or is empty.
pub uninterp spec fn path_parent(path: Seq<char>) -> Option<Seq<char>>;

/// What `Path::join` gives for `base` and `name`, as text.
pub uninterp spec fn path_join(base: Seq<char>, name: Seq<char>) -> Seq<char>;

/// `Path::parent` of `path`, as text.
#[verifier::external_body]
pub(crate) fn parent_directory(path: &String) -> (directory: Option<String>)
    ensures
        directory.deep_view() == path_parent(path@),
{
    std::path::Path::new(path).parent().map(|p| p.to_string_lossy().to_string())
}

/// `Path::join` of `base` and `name`, as text.
#[verifier::external_body]
pub(crate) fn join_path(base: &String, name: &str) -> (joined: String)
    ensures
        joined@ == path_join(base@, name@),
{
    std::path::Path::new(base).join(name).to_string_lossy().to_string()
}

} // verus!
