//! File-system paths. A path is carried as it is; what cleaning it and
//! cutting a prefix off it give is named, not spelled out.
use std::path::PathBuf;
use vstd::prelude::*;

verus! {

/// `std::path::PathBuf`, carried as it is. Nothing inside it is looked at.
#[verifier::external_type_specification]
#[verifier::external_body]
pub struct ExPathBuf(PathBuf);

/// What `path_clean::clean` makes of `path`: the same path without `.`
/// components, with each `..` resolved against the component before it and
/// with repeated separators collapsed.
pub uninterp spec fn cleaned_path(path: PathBuf) -> PathBuf;

/// What `Path::strip_prefix` leaves of `path` behind `base`, or `None` where
/// `base` is no prefix of `path`, component by component.
pub uninterp spec fn path_behind(path: PathBuf, base: PathBuf) -> Option<PathBuf>;

/// What `Path::to_string_lossy` writes for `path`.
pub uninterp spec fn path_text(path: PathBuf) -> Seq<char>;

/// Calls `PathBuf::new`, which makes the empty path. Nothing is claimed of
/// the result.
#[verifier::external_body]
pub(crate) fn empty() -> (r: PathBuf) {
    PathBuf::new()
}

/// Calls `path_clean::clean`, which removes `.` components, resolves `..`
/// against the component before it and collapses repeated separators, all
/// without touching the file system. The result depends on `path` alone.
#[verifier::external_body]
pub(crate) fn clean(path: &PathBuf) -> (r: PathBuf)
    ensures
        r == cleaned_path(*path),
{
    path_clean::clean(path)
}

/// Calls `Path::starts_with`: whether `base` is a prefix of `path`, component
/// by component. That is so exactly where `Path::strip_prefix` leaves
/// something of `path` behind `base`.
#[verifier::external_body]
pub(crate) fn starts_with(path: &PathBuf, base: &PathBuf) -> (r: bool)
    ensures
        r == (path_behind(*path, *base) is Some),
{
    path.starts_with(base)
}

/// Calls `Path::strip_prefix`: `path` without the leading `base`, or `None`
/// where `base` is no prefix of it. The result depends on the two paths
/// alone.
#[verifier::external_body]
pub(crate) fn strip_prefix(path: &PathBuf, base: &PathBuf) -> (r: Option<PathBuf>)
    ensures
        r == path_behind(*path, *base),
{
    match path.strip_prefix(base) {
        Ok(rest) => Some(rest.to_path_buf()),
        Err(_) => None,
    }
}

/// Calls `Path::to_string_lossy`: the path as text, with the replacement
/// character where it is not Unicode. The result depends on `path` alone.
#[verifier::external_body]
pub(crate) fn to_text(path: &PathBuf) -> (r: String)
    ensures
        r@ == path_text(*path),
{
    path.to_string_lossy().into_owned()
}

} // verus!
