//! The media type that belongs to a file extension.

use vstd::prelude::*;

verus! {

/// The media type that the table of known extensions gives for `extension`,
/// if it knows the extension.
pub uninterp spec fn guessed_media_type(extension: Seq<char>) -> Option<Seq<char>>;

/// Looks the extension up with `mime_guess::from_ext` and writes out the
/// first guess, `MimeGuess::first`, as text. Taken on trust: the answer is
/// read from a table that is fixed when the crate is built, so the same
/// extension always gives the same answer; `guessed_media_type` is the name
/// of that answer. What the table holds is not stated here.
#[verifier::external_body]
pub(crate) fn guess_media_type(extension: &str) -> (media_type: Option<String>)
    ensures
        media_type.deep_view() == guessed_media_type(extension@),
{
    match mime_guess::from_ext(extension).first() {
        Some(mime) => Some(mime.to_string()),
        None => None,
    }
}

} // verus!
