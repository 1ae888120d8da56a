//! Paths as text, and the few path operations the sync rules rest on.
//!
//! The operations are those of `std::path`, which follows the conventions
//! of the platform the library is built for. Their results are named here,
//! not spelled out: contracts elsewhere speak of these names.

use vstd::prelude::*;

verus! {

/// `part` adjoined to `base`, as `Path::join` does it.
pub uninterp spec fn joined(base: Seq<char>, part: Seq<char>) -> Seq<char>;

/// What is left of `path` once the leading `base` is taken off, as
/// `Path::strip_prefix` does it; `None` when `path` does not start with
/// `base`.
pub uninterp spec fn relative_to(path: Seq<char>, base: Seq<char>) -> Option<Seq<char>>;

/// `path` without its final component, as `Path::parent` gives it; `None`
/// when `path` ends in a root or is empty.
pub uninterp spec fn parent_of(path: Seq<char>) -> Option<Seq<char>>;

/// The final component of `path`, as `Path::file_name` gives it; `None`
/// when `path` ends in `..` or has no component.
pub uninterp spec fn file_name_of(path: Seq<char>) -> Option<Seq<char>>;

/// The text of an optional string.
pub open spec fn text_of(value: Option<String>) -> Option<Seq<char>> {
    match value {
        Some(text) => Some(text@),
        None => None,
    }
}

/// `std::path::Path::join` on text: the result is `joined` by definition.
#[verifier::external_body]
pub(crate) fn join(base: &str, part: &str) -> (path: String)
    ensures
        path@ == joined(base@, part@),
{
    std::path::Path::new(base).join(part).to_string_lossy().into_owned()
}

/// `std::path::Path::strip_prefix` on text: the result is `relative_to` by
/// definition, the error of a path outside `base` being `None`.
#[verifier::external_body]
pub(crate) fn strip_prefix(path: &str, base: &str) -> (rest: Option<String>)
    ensures
        text_of(rest) == relative_to(path@, base@),
{
    std::path::Path::new(path).strip_prefix(base).ok().map(|rest| rest.to_string_lossy().into_owned())
}

/// `std::path::Path::parent` on text: the result is `parent_of` by
/// definition.
#[verifier::external_body]
pub(crate) fn parent(path: &str) -> (up: Option<String>)
    ensures
        text_of(up) == parent_of(path@),
{
    std::path::Path::new(path).parent().map(|up| up.to_string_lossy().into_owned())
}

/// `std::path::Path::file_name` on text: the result is `file_name_of` by
/// definition.
#[verifier::external_body]
pub(crate) fn file_name(path: &str) -> (name: Option<String>)
    ensures
        text_of(name) == file_name_of(path@),
{
    std::path::Path::new(path).file_name().map(|name| name.to_string_lossy().into_owned())
}

/// `part` below `base`: an absolute `part` stands for itself.
pub fn adjoin(base: &str, part: &str) -> (path: String)
    ensures
        path@ == joined(base@, part@),
{
    join(base, part)
}

} // verus!
