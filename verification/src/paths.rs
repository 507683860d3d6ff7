//! File-system paths written as text, through `std::path::Path`.
//!
//! The functions here only take paths apart and put them together; they
//! never look at the disk. What they give back is named as functions of the
//! text of the path.

use vstd::prelude::*;

verus! {

/// The extension of the path written `p`, as `Path::extension` finds it.
pub uninterp spec fn path_extension(p: Seq<char>) -> Option<Seq<char>>;

/// The file name of the path written `p` without its extension, as
/// `Path::file_stem` finds it.
pub uninterp spec fn path_file_stem(p: Seq<char>) -> Option<Seq<char>>;

/// The path written `p` without its last component, as `Path::parent`
/// finds it.
pub uninterp spec fn path_parent(p: Seq<char>) -> Option<Seq<char>>;

/// The path written `base` with `rel` adjoined, as `Path::join` builds it.
pub uninterp spec fn path_join(base: Seq<char>, rel: Seq<char>) -> Seq<char>;

/// The extension of the path `p` (`Path::extension`).
#[verifier::external_body]
pub(crate) fn extension_of(p: &str) -> (r: Option<String>)
    ensures
        r is Some <==> path_extension(p@) is Some,
        r matches Some(e) ==> e@ == path_extension(p@)->0,
{
    match std::path::Path::new(p).extension() {
        Some(e) => Some(e.to_string_lossy().into_owned()),
        None => None,
    }
}

/// The file stem of the path `p` (`Path::file_stem`).
#[verifier::external_body]
pub(crate) fn file_stem_of(p: &str) -> (r: Option<String>)
    ensures
        r is Some <==> path_file_stem(p@) is Some,
        r matches Some(e) ==> e@ == path_file_stem(p@)->0,
{
    match std::path::Path::new(p).file_stem() {
        Some(e) => Some(e.to_string_lossy().into_owned()),
        None => None,
    }
}

/// The parent of the path `p` (`Path::parent`).
#[verifier::external_body]
pub(crate) fn parent_of(p: &str) -> (r: Option<String>)
    ensures
        r is Some <==> path_parent(p@) is Some,
        r matches Some(e) ==> e@ == path_parent(p@)->0,
{
    match std::path::Path::new(p).parent() {
        Some(e) => Some(e.to_string_lossy().into_owned()),
        None => None,
    }
}

/// The path `base` with `rel` adjoined (`Path::join`).
#[verifier::external_body]
pub(crate) fn join_paths(base: &str, rel: &str) -> (r: String)
    ensures
        r@ == path_join(base@, rel@),
{
    std::path::Path::new(base).join(rel).to_string_lossy().into_owned()
}

} // verus!
