//! Paths as text: what `std::path` makes of them on the target platform.
use vstd::prelude::*;

verus! {

/// What `Path::is_absolute` answers for the path `path` on the target platform.
pub uninterp spec fn path_is_absolute(path: Seq<char>) -> bool;

/// What `Path::join` gives, displayed as text, for `base` joined with `path` on the target platform.
pub uninterp spec fn joined_path(base: Seq<char>, path: Seq<char>) -> Seq<char>;

/// `Path::is_absolute` of the path `path`.
#[verifier::external_body]
pub(crate) fn is_absolute(path: &str) -> (r: bool)
    ensures
        r == path_is_absolute(path@),
{
    std::path::Path::new(path).is_absolute()
}

/// `Path::join` of `base` and `path`, displayed as text.
#[verifier::external_body]
pub(crate) fn join_path(base: &str, path: &str) -> (r: String)
    ensures
        r@ == joined_path(base@, path@),
{
    std::path::Path::new(base).join(path).display().to_string()
}

/// `Path::is_file`: whether a regular file exists at `path`. Nothing is stated of the answer: it
/// depends on the disk.
#[verifier::external_body]
pub(crate) fn is_file(path: &str) -> bool {
    std::path::Path::new(path).is_file()
}

/// What `Path::parent` gives, displayed as text, for the path `path` (`None` for a root or an
/// empty path).
pub uninterp spec fn parent_of(path: Seq<char>) -> Option<Seq<char>>;

/// `Path::parent` of `path`, displayed as text.
#[verifier::external_body]
pub(crate) fn parent_path(path: &str) -> (r: Option<String>)
    ensures
        r matches Some(p) ==> parent_of(path@) == Some(p@),
        r is None ==> parent_of(path@) is None,
{
    std::path::Path::new(path).parent().map(|parent| parent.display().to_string())
}

} // verus!
