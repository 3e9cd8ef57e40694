//! What the library takes from the standard library's path handling. Nothing
//! here is proved: the contracts say what is relied on.

use vstd::prelude::*;

verus! {

/// The final component of the path `path` as `std::path::Path::file_name`
/// gives it, empty where the path has none.
pub uninterp spec fn final_component(path: Seq<char>) -> Seq<char>;

/// The path that `std::path::Path::join` makes of the path `root` and the
/// path `name` adjoined to it.
pub uninterp spec fn joined_path(root: Seq<char>, name: Seq<char>) -> Seq<char>;

/// Calls `std::path::Path::file_name` on `path` and hands back the component
/// as text, empty where there is none. Relied on: the result is a function of
/// the path's text alone.
#[verifier::external_body]
pub(crate) fn file_name(path: &str) -> (name: String)
    ensures
        name@ == final_component(path@),
{
    std::path::Path::new(path).file_name().unwrap_or_default().to_string_lossy().to_string()
}

/// Calls `std::path::Path::join` to adjoin `name` to `root` and hands back
/// the path as text. Relied on: the result is a function of the two texts
/// alone.
#[verifier::external_body]
pub(crate) fn join(root: &str, name: &str) -> (path: String)
    ensures
        path@ == joined_path(root@, name@),
{
    std::path::PathBuf::from(root).join(name).to_string_lossy().to_string()
}

} // verus!
