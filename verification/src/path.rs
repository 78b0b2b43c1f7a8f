//! Path operations, carried out by `camino` on UTF-8 paths held as strings.

use camino::Utf8Path;
use vstd::prelude::*;

use crate::text::opt_text;

verus! {

/// The path that `Utf8Path::join` gives for `base` and `path`.
pub uninterp spec fn joined(base: Seq<char>, path: Seq<char>) -> Seq<char>;

/// The final component that `Utf8Path::file_name` gives, if the path has one.
pub uninterp spec fn file_name_of(path: Seq<char>) -> Option<Seq<char>>;

/// The extension that `Utf8Path::extension` gives, if the path has one.
pub uninterp spec fn extension_of(path: Seq<char>) -> Option<Seq<char>>;

/// Whether `Utf8Path::is_absolute` holds of the path.
pub uninterp spec fn is_absolute_path(path: Seq<char>) -> bool;

/// What `Utf8Path::strip_prefix` leaves of `path` below `base`, if `base` is a
/// prefix of it.
pub uninterp spec fn without_prefix(path: Seq<char>, base: Seq<char>) -> Option<Seq<char>>;

/// The path without its final component that `Utf8Path::parent` gives, if
/// the path has one.
pub uninterp spec fn parent_of(path: Seq<char>) -> Option<Seq<char>>;

/// Whether the two paths are equal as `Utf8Path` compares them: component
/// by component.
pub uninterp spec fn same_path(a: Seq<char>, b: Seq<char>) -> bool;

/// Whether the path is relative, that is, not absolute.
pub open spec fn is_relative_path(path: Seq<char>) -> bool {
    !is_absolute_path(path)
}

/// Calls `Utf8Path::join`: the result is the join of the two paths as
/// `camino` computes it.
#[verifier::external_body]
pub(crate) fn join(base: &str, path: &str) -> (r: String)
    ensures
        r@ == joined(base@, path@),
{
    Utf8Path::new(base).join(path).into_string()
}

/// Calls `Utf8Path::file_name`: the result is the final component as `camino`
/// computes it, or `None` where the path has none.
#[verifier::external_body]
pub(crate) fn file_name(path: &str) -> (r: Option<String>)
    ensures
        opt_text(r) == file_name_of(path@),
{
    Utf8Path::new(path).file_name().map(String::from)
}

/// Calls `Utf8Path::extension`: the result is the extension as `camino`
/// computes it, or `None` where the path has none.
#[verifier::external_body]
pub(crate) fn extension(path: &str) -> (r: Option<String>)
    ensures
        opt_text(r) == extension_of(path@),
{
    Utf8Path::new(path).extension().map(String::from)
}

/// Calls `Utf8Path::is_absolute`.
#[verifier::external_body]
pub(crate) fn is_absolute(path: &str) -> (r: bool)
    ensures
        r == is_absolute_path(path@),
{
    Utf8Path::new(path).is_absolute()
}

/// Calls `Utf8Path::strip_prefix`: the result is the remainder as `camino`
/// computes it, or `None` where `base` is no prefix of `path`.
#[verifier::external_body]
pub(crate) fn strip_prefix(path: &str, base: &str) -> (r: Option<String>)
    ensures
        opt_text(r) == without_prefix(path@, base@),
{
    match Utf8Path::new(path).strip_prefix(base) {
        Ok(rest) => Some(rest.as_str().to_string()),
        Err(_) => None,
    }
}

/// Calls `Utf8Path::parent`: the result is the path without its final
/// component as `camino` computes it, or `None` where the path ends in a
/// root.
#[verifier::external_body]
pub(crate) fn parent(path: &str) -> (r: Option<String>)
    ensures
        opt_text(r) == parent_of(path@),
{
    Utf8Path::new(path).parent().map(|dir| dir.as_str().to_string())
}

/// Compares two paths with the `==` of `Utf8Path`, which compares their
/// components.
#[verifier::external_body]
pub(crate) fn paths_equal(a: &str, b: &str) -> (r: bool)
    ensures
        r == same_path(a@, b@),
{
    Utf8Path::new(a) == Utf8Path::new(b)
}

/// Tells whether the path is relative.
pub fn is_relative(path: &str) -> (r: bool)
    ensures
        r == is_relative_path(path@),
{
    !is_absolute(path)
}

} // verus!
