use vstd::prelude::*;

verus! {

/// The MIME type that mime_guess gives for a path: the first type registered for
/// the path's extension, or `text/plain` where it knows of none.
pub uninterp spec fn guessed_mime(path: Seq<char>) -> Seq<char>;

/// The plain-text type that a guess falls back on.
pub open spec fn plain_text() -> Seq<char> {
    seq!['t', 'e', 'x', 't', '/', 'p', 'l', 'a', 'i', 'n']
}

/// Relies on `mime_guess::from_path` and `MimeGuess::first_or_text_plain`: the
/// guess depends on the path's extension alone, and is `text/plain` where the
/// extension is absent (a path without any `.` has none) or unknown.
#[verifier::external_body]
pub(crate) fn guess_mime(path: &str) -> (r: String)
    ensures
        r@ == guessed_mime(path@),
        !path@.contains('.') ==> r@ == plain_text(),
{
    mime_guess::from_path(path).first_or_text_plain().to_string()
}

} // verus!
