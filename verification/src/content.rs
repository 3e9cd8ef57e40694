//! The content type under which a file is sent.

use crate::extension::extension_of;
use crate::paths::final_component;
use vstd::prelude::*;

verus! {

/// The media type that `mime_guess::from_path` registers first for the path
/// `path`, written as text; `None` where it registers none.
pub uninterp spec fn registered_type(path: Seq<char>) -> Option<Seq<char>>;

/// The content type of bytes of which nothing more is known.
pub open spec fn octet_stream() -> Seq<char> {
    "application/octet-stream"@
}

/// The content type that goes with a guess: the guessed type, and the
/// generic binary type where there is no guess.
pub open spec fn content_type_of(guess: Option<Seq<char>>) -> Seq<char> {
    match guess {
        Some(media_type) => media_type,
        None => octet_stream(),
    }
}

/// Whether the path shows no extension to go by: it holds no `.` at all, or
/// nothing follows the final `.` of its final component.
pub open spec fn lacks_extension(path: Seq<char>) -> bool {
    !path.contains('.') || extension_of(final_component(path)).len() == 0
}

/// Calls `mime_guess::from_path` on `path`, takes the first guess with
/// `MimeGuess::first` and writes it out. Relied on: the guess is a function
/// of the path's text alone, and there is none for a path that holds no `.`
/// or whose final component has nothing after its final `.`, since the guess
/// goes by the extension of the final component and an empty extension has
/// none. The file is not looked at.
#[verifier::external_body]
pub(crate) fn guess(path: &str) -> (guess: Option<String>)
    ensures
        match guess {
            Some(media_type) => registered_type(path@) == Some(media_type@),
            None => registered_type(path@) is None,
        },
        lacks_extension(path@) ==> guess is None,
{
    mime_guess::from_path(path).first().map(|media_type| media_type.to_string())
}

/// The content type for a guess of a file's media type: the guess where
/// there is one, else the generic binary type.
pub fn content_type_or_octet_stream(guess: Option<String>) -> (content_type: String)
    ensures
        content_type@ == content_type_of(
            match guess {
                Some(media_type) => Some(media_type@),
                None => None,
            },
        ),
{
    match guess {
        Some(media_type) => media_type,
        None => "application/octet-stream".to_owned(),
    }
}

/// The content type of the file at `path`, inferred from the path's
/// extension alone: the first media type registered for it, and the generic
/// binary type where none is registered or the path has no extension.
pub fn content_type(path: &str) -> (content_type: String)
    ensures
        content_type@ == content_type_of(registered_type(path@)),
        lacks_extension(path@) ==> content_type@ == octet_stream(),
{
    content_type_or_octet_stream(guess(path))
}

} // verus!
