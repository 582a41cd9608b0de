//! String operations of the standard library that the planning logic relies on.

use vstd::prelude::*;

verus! {

/// The lowercase form of a string as `str::to_lowercase` computes it.
pub uninterp spec fn lowercase_of(s: Seq<char>) -> Seq<char>;

/// The file stem of a path as `std::path::Path::file_stem` computes it, by
/// the path syntax of the platform the crate is built for, or `None` where
/// the path has no final file name component.
pub uninterp spec fn file_stem_of(path: Seq<char>) -> Option<Seq<char>>;

/// Calls `str::to_lowercase`. The result is the Unicode lowercase form of
/// `s`; the contract only names it.
#[verifier::external_body]
pub(crate) fn to_lowercase(s: &str) -> (r: String)
    ensures
        r@ == lowercase_of(s@),
{
    s.to_lowercase()
}

/// Calls `std::path::Path::file_stem` on `path` read as a path. The stem of
/// a path given as UTF-8 text is itself UTF-8 text, so the conversion back
/// to a string loses nothing. The contract only names the result.
#[verifier::external_body]
pub(crate) fn file_stem(path: &str) -> (r: Option<String>)
    ensures
        file_stem_of(path@) == (match r {
            Some(stem) => Some(stem@),
            None => None::<Seq<char>>,
        }),
{
    match std::path::Path::new(path).file_stem() {
        Some(stem) => Some(stem.to_string_lossy().into_owned()),
        None => None,
    }
}

} // verus!
