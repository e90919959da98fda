//! The taxonomy as mathematics: what an error is, apart from how it is
//! stored, and what the client's policy says of it.

use crate::decimal::decimal;
use vstd::prelude::*;

verus! {

/// What an error holds. Text is a sequence of characters, a count is a
/// natural number, and a transport failure is known by the text of its
/// cause.
pub enum ErrorModel {
    /// The service rejected the request.
    Api { code: Seq<char>, message: Seq<char>, status_code: u16 },
    /// The transport failed before a structured response was obtained.
    Transport { cause: Seq<char> },
    /// A payload failed to decode.
    Decode { detail: Seq<char> },
    /// The credential was rejected outright.
    Unauthorized,
    /// The request rate was exceeded.
    RateLimited,
    /// An allocation quota was exceeded.
    QuotaExceeded { detail: Seq<char> },
    /// The referenced key does not exist.
    KeyNotFound { identifier: Seq<char> },
    /// The referenced namespace does not exist.
    NamespaceNotFound { identifier: Seq<char> },
    /// The referenced organization does not exist.
    OrgNotFound { identifier: Seq<char> },
    /// The request failed validation.
    InvalidRequest { detail: Seq<char> },
    /// A signing operation failed outside the API-error path.
    SigningError { detail: Seq<char> },
    /// Some operations of a batch failed.
    BatchPartialFailure { failed: nat, total: nat },
}

impl ErrorModel {
    /// The invariant of the taxonomy: an API status code is an HTTP status
    /// code, and a partial batch failure counts at least one failure and
    /// no more failures than operations.
    pub open spec fn wf(self) -> bool {
        match self {
            ErrorModel::Api { status_code, .. } => 100 <= status_code <= 599,
            ErrorModel::BatchPartialFailure { failed, total } => 0 < failed <= total,
            _ => true,
        }
    }

    /// The retry policy: rate limiting, every transport failure and every
    /// server-side API error; nothing else.
    pub open spec fn is_retryable(self) -> bool {
        match self {
            ErrorModel::RateLimited => true,
            ErrorModel::Transport { .. } => true,
            ErrorModel::Api { status_code, .. } => status_code >= 500,
            _ => false,
        }
    }

    /// Authentication failures: a rejected credential, or an API error
    /// with status 401 or 403.
    pub open spec fn is_auth_error(self) -> bool {
        match self {
            ErrorModel::Unauthorized => true,
            ErrorModel::Api { status_code, .. } => status_code == 401 || status_code == 403,
            _ => false,
        }
    }

    /// The HTTP status that belongs to an error, where it has one.
    pub open spec fn status_code(self) -> Option<u16> {
        match self {
            ErrorModel::Api { status_code, .. } => Some(status_code),
            ErrorModel::Unauthorized => Some(401),
            ErrorModel::RateLimited => Some(429),
            _ => None,
        }
    }

    /// The exact text of each variant.
    pub open spec fn render(self) -> Seq<char> {
        match self {
            ErrorModel::Api { code, message, status_code } => {
                "API error ("@ + decimal(status_code as nat) + "): ["@ + code + "] "@ + message
            },
            ErrorModel::Transport { cause } => "HTTP error: "@ + cause,
            ErrorModel::Decode { detail } => "Decode error: "@ + detail,
            ErrorModel::Unauthorized => "Unauthorized: invalid API key"@,
            ErrorModel::RateLimited => "Rate limit exceeded"@,
            ErrorModel::QuotaExceeded { detail } => "Quota exceeded: "@ + detail,
            ErrorModel::KeyNotFound { identifier } => "Key not found: "@ + identifier,
            ErrorModel::NamespaceNotFound { identifier } => "Namespace not found: "@ + identifier,
            ErrorModel::OrgNotFound { identifier } => "Organization not found: "@ + identifier,
            ErrorModel::InvalidRequest { detail } => "Invalid request: "@ + detail,
            ErrorModel::SigningError { detail } => "Signing error: "@ + detail,
            ErrorModel::BatchPartialFailure { failed, total } => {
                "Batch operation had "@ + decimal(failed) + " failures out of "@ + decimal(total)
                    + " requests"@
            },
        }
    }

    /// Whether the three queries answer `retryable`, `auth` and `status`
    /// for this error.
    pub open spec fn classifies_as(self, retryable: bool, auth: bool, status: Option<u16>) -> bool {
        &&& self.is_retryable() == retryable
        &&& self.is_auth_error() == auth
        &&& self.status_code() == status
    }
}

/// Whether `needle` occurs in `text` as a contiguous run of characters.
pub open spec fn contains_text(text: Seq<char>, needle: Seq<char>) -> bool {
    exists|from: int, to: int|
        0 <= from <= to <= text.len() && #[trigger] text.subrange(from, to) == needle
}

/// The whole classification, variant by variant and with none left out:
/// what the three queries answer for each member of the taxonomy.
pub proof fn lemma_classification_table(error: ErrorModel)
    ensures
        match error {
            ErrorModel::Api { status_code, .. } => error.classifies_as(
                status_code >= 500,
                status_code == 401 || status_code == 403,
                Some(status_code),
            ),
            ErrorModel::Transport { .. } => error.classifies_as(true, false, None),
            ErrorModel::Decode { .. } => error.classifies_as(false, false, None),
            ErrorModel::Unauthorized => error.classifies_as(false, true, Some(401u16)),
            ErrorModel::RateLimited => error.classifies_as(true, false, Some(429u16)),
            ErrorModel::QuotaExceeded { .. } => error.classifies_as(false, false, None),
            ErrorModel::KeyNotFound { .. } => error.classifies_as(false, false, None),
            ErrorModel::NamespaceNotFound { .. } => error.classifies_as(false, false, None),
            ErrorModel::OrgNotFound { .. } => error.classifies_as(false, false, None),
            ErrorModel::InvalidRequest { .. } => error.classifies_as(false, false, None),
            ErrorModel::SigningError { .. } => error.classifies_as(false, false, None),
            ErrorModel::BatchPartialFailure { .. } => error.classifies_as(false, false, None),
        },
{
}

/// No failure calls for both recovery flows: an authentication failure is
/// never retryable, and a retryable failure is never one of
/// authentication.
pub proof fn lemma_auth_errors_not_retryable(error: ErrorModel)
    ensures
        !(error.is_auth_error() && error.is_retryable()),
{
}

/// The classification agrees with the status: an authentication failure
/// has status 401 or 403, and a retryable failure that has a status has
/// 429 or one from 500 up.
pub proof fn lemma_classification_matches_status(error: ErrorModel)
    ensures
        error.is_auth_error() ==> error.status_code() == Some(401u16) || error.status_code()
            == Some(403u16),
        error.is_retryable() ==> (error.status_code() matches Some(status) ==> status == 429
            || status >= 500),
{
}

/// The text of a transport failure holds the text of its cause as a
/// contiguous part: all that follows the fixed words `HTTP error: `.
pub proof fn lemma_transport_text_holds_cause(cause: Seq<char>)
    ensures
        contains_text((ErrorModel::Transport { cause }).render(), cause),
{
    let text = (ErrorModel::Transport { cause }).render();
    let label = "HTTP error: "@;
    assert(text.subrange(label.len() as int, text.len() as int) =~= cause);
}

} // verus!
