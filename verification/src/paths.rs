//! Path composition through `std::path`, with paths held as text.
use vstd::prelude::*;

verus! {

/// What `Path::join` gives for two paths, as text.
pub uninterp spec fn joined_path(base: Seq<char>, tail: Seq<char>) -> Seq<char>;

/// Whether `Path::is_absolute` holds of a path.
pub uninterp spec fn absolute_path(p: Seq<char>) -> bool;

/// What `Path::parent` gives for a path, as text.
pub uninterp spec fn parent_path(p: Seq<char>) -> Option<Seq<char>>;

/// `Path::new(base).join(tail)`, shown as text. The result is named by
/// `joined_path`; std documents that an absolute `tail` replaces the base.
#[verifier::external_body]
pub(crate) fn join_path(base: &str, tail: &str) -> (r: String)
    ensures
        r@ == joined_path(base@, tail@),
        absolute_path(tail@) ==> r@ == tail@,
{
    std::path::Path::new(base).join(tail).display().to_string()
}

/// `Path::is_absolute`, named by `absolute_path`.
#[verifier::external_body]
pub(crate) fn is_absolute_path(p: &str) -> (b: bool)
    ensures
        b == absolute_path(p@),
{
    std::path::Path::new(p).is_absolute()
}

/// `Path::parent`, shown as text and named by `parent_path`.
#[verifier::external_body]
pub(crate) fn parent_of(p: &str) -> (r: Option<String>)
    ensures
        r matches Some(x) ==> parent_path(p@) == Some(x@),
        r is None ==> parent_path(p@) is None,
{
    std::path::Path::new(p).parent().map(|x| x.display().to_string())
}

/// `dirs::home_dir`, shown as text. It reads the environment and the user
/// database, so nothing is stated of the result.
#[verifier::external_body]
pub(crate) fn home_dir() -> (r: Option<String>) {
    dirs::home_dir().map(|h| h.display().to_string())
}

} // verus!
