//! Content-type inference for the upload operation.
//!
//! The media type is guessed from the path's extension by a best-effort
//! table lookup; a path whose extension the table does not know falls back
//! to the default binary type. The lookup itself is an outside call; the
//! fallback decision is verified.

use vstd::prelude::*;
use vstd::string::*;

verus! {

pub uninterp spec fn mime_first_of(path: Seq<char>) -> Option<Seq<char>>;

/// Relies on `mime_guess::from_path` and `MimeGuess::first_raw`: the guess
/// is a case-insensitive lookup of the path's extension in a static table
/// compiled into the crate, so the result depends on the path string
/// alone; `first_raw` hands back the first media type mapped to the
/// extension, or nothing when the table maps it to nothing, the path has
/// no extension, or the path is empty.
#[verifier::external_body]
fn guess_mime_first(path: &str) -> (r: Option<String>)
    ensures
        r.deep_view() == mime_first_of(path@),
{
    mime_guess::from_path(std::path::Path::new(path)).first_raw().map(|m| m.to_string())
}

/// The content type used for an uploaded file: the first guessed media
/// type for the path, or the default binary type when the guess is empty.
pub open spec fn content_type_spec(path: Seq<char>) -> Seq<char> {
    match mime_first_of(path) {
        Some(m) => m,
        None => "application/octet-stream"@,
    }
}

/// Infers the content type for an upload from the file's path.
pub fn content_type_for(path: &str) -> (r: String)
    ensures
        r@ == content_type_spec(path@),
{
    match guess_mime_first(path) {
        Some(m) => m,
        None => String::from_str("application/octet-stream"),
    }
}

/// A path with an unrecognized or absent extension — one for which the
/// media-type table offers nothing — always yields the default binary
/// content type.
pub proof fn lemma_content_type_fallback(path: Seq<char>)
    ensures
        mime_first_of(path) is None ==> content_type_spec(path) == "application/octet-stream"@,
{
}

} // verus!
