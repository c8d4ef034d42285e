//! File names as they are shown: relative to a base directory where possible.

use vstd::prelude::*;
use vstd::string::*;

verus! {

/// What `pathdiff::diff_paths` returns for the path `path` and the base
/// `base`: the way from the base to the path, where there is one.
pub uninterp spec fn relative_path(path: Seq<char>, base: Seq<char>) -> Option<Seq<char>>;

/// Calls `pathdiff::diff_paths` on the two texts taken as paths. The result,
/// written as text again, is the one that `relative_path` names: the function
/// reads nothing but its two arguments.
#[verifier::external_body]
fn diff_paths(path: &str, base: &str) -> (r: Option<String>)
    ensures
        r.deep_view() == relative_path(path@, base@),
{
    pathdiff::diff_paths(path, base).map(|p| p.to_string_lossy().into_owned())
}

/// The name under which `file` is shown, given the relative path computed
/// for it: that path, or the file's own name where there is none.
pub open spec fn shown_path(file: Seq<char>, relative: Option<Seq<char>>) -> Seq<char> {
    match relative {
        Some(p) => p,
        None => file,
    }
}

/// Picks the name under which `file` is shown.
pub fn filepath_from(file: String, relative: Option<String>) -> (r: String)
    ensures
        r@ == shown_path(file@, relative.deep_view()),
{
    match relative {
        Some(p) => p,
        None => file,
    }
}

/// The name under which `file` is shown when `base` is the directory that
/// the reader works in.
pub fn filepath(file: String, base: &str) -> (r: String)
    ensures
        r@ == shown_path(file@, relative_path(file@, base@)),
{
    let relative = diff_paths(file.as_str(), base);
    filepath_from(file, relative)
}

} // verus!
