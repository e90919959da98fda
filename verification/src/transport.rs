//! The transport layer's own error, carried opaquely, and the one thing
//! this crate reads from it: its text.

use vstd::prelude::*;

verus! {

/// `reqwest::Error`, the failure that the HTTP client reports when no
/// structured response was obtained. Nothing inside it is visible to the
/// verifier; a value is carried as it is.
#[verifier::external_type_specification]
#[verifier::external_body]
pub struct ExTransportError(reqwest::Error);

/// The text that `reqwest::Error`'s `Display` implementation writes for
/// `cause`. That implementation reads only the error's own kind, status
/// and URL, so the text is a function of the value. What the text is on a
/// given error is not stated anywhere in this crate.
pub uninterp spec fn display_text(cause: reqwest::Error) -> Seq<char>;

/// Calls `to_string` on a `reqwest::Error`, which runs its `Display`
/// implementation. Trusted, not proved: the returned string is
/// `display_text` of the error. The call does not panic: the
/// implementation only writes fixed words, the status and the URL into
/// the string.
#[verifier::external_body]
pub(crate) fn cause_text(cause: &reqwest::Error) -> (text: String)
    ensures
        text@ == display_text(*cause),
{
    cause.to_string()
}

} // verus!
