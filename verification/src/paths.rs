//! Showing project paths relative to the user's home folder.
use vstd::prelude::*;

verus! {

/// The relative path from `base` to `path` that `pathdiff::diff_paths` computes, by the
/// characters of both paths. It is worked out from the text of the two paths alone, with the
/// path syntax of the platform the program was built for; the file system is not consulted.
pub uninterp spec fn diff_paths_result(path: Seq<char>, base: Seq<char>) -> Option<Seq<char>>;

/// Calls `pathdiff::diff_paths(path, base)`. Trusted: its result, turned back into text, is
/// `diff_paths_result` of the two paths; what that path is is not stated here.
#[verifier::external_body]
fn diff_paths(path: &str, base: &str) -> (r: Option<String>)
    ensures
        match r {
            Some(s) => diff_paths_result(path@, base@) == Some(s@),
            None => diff_paths_result(path@, base@) is None,
        },
{
    match pathdiff::diff_paths(path, base) {
        Some(p) => Some(p.to_string_lossy().into_owned()),
        None => None,
    }
}

/// `path` as seen from `base`: the relative path where there is one, else `path` itself.
pub open spec fn relative_or_same(path: Seq<char>, base: Seq<char>) -> Seq<char> {
    match diff_paths_result(path, base) {
        Some(rel) => rel,
        None => path,
    }
}

/// The text shown for the path `path` given `rel`, its relative path where one was worked
/// out: the relative path, else the path itself.
pub fn relative_or_path(path: &str, rel: Option<String>) -> (r: String)
    ensures
        r@ == match rel {
            Some(s) => s@,
            None => path@,
        },
{
    match rel {
        Some(rel) => rel,
        None => path.to_owned(),
    }
}

/// The text shown for a recent project at `path`: relative to the home folder `home_path`
/// where that can be worked out, else the path itself.
pub fn cleanup_recent_path(path: &str, home_path: &str) -> (r: String)
    ensures
        r@ == relative_or_same(path@, home_path@),
{
    relative_or_path(path, diff_paths(path, home_path))
}

/// `path` relative to the home folder `home_dir`, when the home folder is known and the
/// relative path can be worked out; else `path` itself.
pub fn get_path_relative_to_home_dir(path: &str, home_dir: Option<&str>) -> (r: String)
    ensures
        r@ == match home_dir {
            Some(home) => relative_or_same(path@, home@),
            None => path@,
        },
{
    match home_dir {
        Some(home) => cleanup_recent_path(path, home),
        None => path.to_owned(),
    }
}

/// The text of `std::path::Path::join(base, rel)`: `rel` after `base` with the platform's
/// separator between them, or `rel` alone where it is absolute.
pub uninterp spec fn path_join_result(base: Seq<char>, rel: Seq<char>) -> Seq<char>;

/// Calls `std::path::Path::new(base).join(rel)`. Trusted: its text is `path_join_result` of
/// the two texts (both are valid Unicode, so the text comes back whole); what that text is is
/// not stated here.
#[verifier::external_body]
pub(crate) fn join_path(base: &str, rel: &str) -> (r: String)
    ensures
        r@ == path_join_result(base@, rel@),
{
    std::path::Path::new(base).join(rel).to_string_lossy().into_owned()
}

/// The text of `std::path::Path::with_extension(path, ext)`: the path with the extension of
/// its last component set to `ext`, or the path unchanged where it has no file name.
pub uninterp spec fn with_extension_result(path: Seq<char>, ext: Seq<char>) -> Seq<char>;

/// Calls `std::path::Path::new(path).with_extension(ext)`, for an extension without a path
/// separator (std may panic on one). Trusted: its text is `with_extension_result` of the two
/// texts; what that text is is not stated here.
#[verifier::external_body]
pub(crate) fn with_extension(path: &str, ext: &str) -> (r: String)
    requires
        forall|i: int| 0 <= i < ext@.len() ==> ext@[i] != '/' && ext@[i] != '\\',
    ensures
        r@ == with_extension_result(path@, ext@),
{
    std::path::Path::new(path).with_extension(ext).to_string_lossy().into_owned()
}

/// The number of components that `std::path::Path::components` yields for the path `path`.
pub uninterp spec fn component_count_result(path: Seq<char>) -> nat;

/// Calls `std::path::Path::new(path).components().count()`. Trusted: the count is
/// `component_count_result` of the text; which count that is is not stated here.
#[verifier::external_body]
pub(crate) fn component_count(path: &str) -> (r: usize)
    ensures
        r == component_count_result(path@),
{
    std::path::Path::new(path).components().count()
}

} // verus!
