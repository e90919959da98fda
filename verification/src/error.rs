//! The error type: every failure of the client is exactly one variant of
//! [`POPSignerError`], whose view is an [`ErrorModel`].

use crate::decimal::decimal_string;
use crate::model::{contains_text, lemma_transport_text_holds_cause, ErrorModel};
use crate::transport::{cause_text, display_text};
use vstd::prelude::*;
use vstd::std_specs::convert::FromSpec;
use vstd::string::*;

verus! {

/// Errors that can occur when using the POPSigner client.
#[derive(Debug)]
pub enum POPSignerError {
    /// The service rejected the request with a structured error body.
    Api {
        /// Machine-readable error identifier from the service.
        code: String,
        /// Human-readable error message.
        message: String,
        /// HTTP status code of the response.
        status_code: u16,
    },
    /// The transport failed before a structured response was obtained.
    /// The underlying error is kept whole, so callers can still ask it
    /// whether it was a timeout, a connection failure and so on.
    Http(reqwest::Error),
    /// A payload failed to decode (base64 and the like).
    Decode(String),
    /// The credential was rejected outright.
    Unauthorized,
    /// The request rate was exceeded.
    RateLimited,
    /// An allocation quota was exceeded.
    QuotaExceeded(String),
    /// The referenced key does not exist.
    KeyNotFound(String),
    /// The referenced namespace does not exist.
    NamespaceNotFound(String),
    /// The referenced organization does not exist.
    OrgNotFound(String),
    /// The request failed validation.
    InvalidRequest(String),
    /// A signing operation failed outside the API-error path.
    SigningError(String),
    /// Some, but not necessarily all, operations of a batch failed.
    BatchPartialFailure {
        /// Number of failed operations.
        failed: usize,
        /// Total number of operations.
        total: usize,
    },
}

impl View for POPSignerError {
    type V = ErrorModel;

    /// What this error holds. Of a transport failure, that is the text of
    /// its cause.
    open spec fn view(&self) -> ErrorModel {
        match self {
            POPSignerError::Api { code, message, status_code } => ErrorModel::Api {
                code: code@,
                message: message@,
                status_code: *status_code,
            },
            POPSignerError::Http(cause) => ErrorModel::Transport { cause: display_text(*cause) },
            POPSignerError::Decode(detail) => ErrorModel::Decode { detail: detail@ },
            POPSignerError::Unauthorized => ErrorModel::Unauthorized,
            POPSignerError::RateLimited => ErrorModel::RateLimited,
            POPSignerError::QuotaExceeded(detail) => ErrorModel::QuotaExceeded { detail: detail@ },
            POPSignerError::KeyNotFound(id) => ErrorModel::KeyNotFound { identifier: id@ },
            POPSignerError::NamespaceNotFound(id) => ErrorModel::NamespaceNotFound {
                identifier: id@,
            },
            POPSignerError::OrgNotFound(id) => ErrorModel::OrgNotFound { identifier: id@ },
            POPSignerError::InvalidRequest(detail) => ErrorModel::InvalidRequest {
                detail: detail@,
            },
            POPSignerError::SigningError(detail) => ErrorModel::SigningError { detail: detail@ },
            POPSignerError::BatchPartialFailure { failed, total } => {
                ErrorModel::BatchPartialFailure { failed: *failed as nat, total: *total as nat }
            },
        }
    }
}

impl POPSignerError {
    /// Whether this error is retryable, as the policy has it.
    pub open spec fn spec_is_retryable(&self) -> bool {
        self@.is_retryable()
    }

    /// Whether this error is an authentication failure.
    pub open spec fn spec_is_auth_error(&self) -> bool {
        self@.is_auth_error()
    }

    /// The HTTP status that belongs to this error, where it has one.
    pub open spec fn spec_status_code(&self) -> Option<u16> {
        self@.status_code()
    }

    /// Whether this error respects the invariant of the taxonomy.
    pub open spec fn wf(&self) -> bool {
        self@.wf()
    }

    /// Returns true if this is a retryable error.
    #[verifier::when_used_as_spec(spec_is_retryable)]
    pub fn is_retryable(&self) -> (retryable: bool)
        ensures
            retryable == self@.is_retryable(),
    {
        match self {
            POPSignerError::RateLimited => true,
            POPSignerError::Http(_) => true,
            POPSignerError::Api { status_code, .. } => *status_code >= 500,
            _ => false,
        }
    }

    /// Returns true if this is an authentication error.
    #[verifier::when_used_as_spec(spec_is_auth_error)]
    pub fn is_auth_error(&self) -> (auth: bool)
        ensures
            auth == self@.is_auth_error(),
    {
        match self {
            POPSignerError::Unauthorized => true,
            POPSignerError::Api { status_code, .. } => *status_code == 401 || *status_code == 403,
            _ => false,
        }
    }

    /// Returns the HTTP status code if available.
    #[verifier::when_used_as_spec(spec_status_code)]
    pub fn status_code(&self) -> (status: Option<u16>)
        ensures
            status == self@.status_code(),
    {
        match self {
            POPSignerError::Api { status_code, .. } => Some(*status_code),
            POPSignerError::Unauthorized => Some(401),
            POPSignerError::RateLimited => Some(429),
            _ => None,
        }
    }

    /// Whether this value respects the invariant of the taxonomy.
    #[verifier::when_used_as_spec(wf)]
    pub fn is_valid(&self) -> (valid: bool)
        ensures
            valid == self@.wf(),
    {
        match self {
            POPSignerError::Api { status_code, .. } => 100 <= *status_code && *status_code <= 599,
            POPSignerError::BatchPartialFailure { failed, total } => 0 < *failed && *failed
                <= *total,
            _ => true,
        }
    }

    /// An API error, unless `status_code` is no HTTP status code.
    pub fn api(code: String, message: String, status_code: u16) -> (made: Option<POPSignerError>)
        ensures
            100 <= status_code <= 599 ==> made == Some(
                (POPSignerError::Api { code, message, status_code }),
            ),
            !(100 <= status_code <= 599) ==> made is None,
            made matches Some(error) ==> error@.wf(),
    {
        if 100 <= status_code && status_code <= 599 {
            Some(POPSignerError::Api { code, message, status_code })
        } else {
            None
        }
    }

    /// The error for a batch of `total` operations of which `failed`
    /// failed. There is none for a batch without failures, nor for a count
    /// of failures above the total.
    pub fn batch_partial_failure(failed: usize, total: usize) -> (made: Option<POPSignerError>)
        ensures
            0 < failed <= total ==> made == Some(
                (POPSignerError::BatchPartialFailure { failed, total }),
            ),
            !(0 < failed <= total) ==> made is None,
            made matches Some(error) ==> error@.wf(),
    {
        if 0 < failed && failed <= total {
            Some(POPSignerError::BatchPartialFailure { failed, total })
        } else {
            None
        }
    }

    /// The human-readable text of this error.
    pub fn render(&self) -> (text: String)
        ensures
            text@ == self@.render(),
    {
        match self {
            POPSignerError::Api { code, message, status_code } => {
                let status = decimal_string(*status_code as u64);
                let mut text = String::from_str("API error (");
                text.append(status.as_str());
                text.append("): [");
                text.append(code.as_str());
                text.append("] ");
                text.append(message.as_str());
                text
            },
            POPSignerError::Http(cause) => {
                let cause = cause_text(cause);
                render_transport(cause.as_str())
            },
            POPSignerError::Decode(detail) => labelled("Decode error: ", detail.as_str()),
            POPSignerError::Unauthorized => String::from_str("Unauthorized: invalid API key"),
            POPSignerError::RateLimited => String::from_str("Rate limit exceeded"),
            POPSignerError::QuotaExceeded(detail) => labelled("Quota exceeded: ", detail.as_str()),
            POPSignerError::KeyNotFound(id) => labelled("Key not found: ", id.as_str()),
            POPSignerError::NamespaceNotFound(id) => labelled(
                "Namespace not found: ",
                id.as_str(),
            ),
            POPSignerError::OrgNotFound(id) => labelled("Organization not found: ", id.as_str()),
            POPSignerError::InvalidRequest(detail) => labelled(
                "Invalid request: ",
                detail.as_str(),
            ),
            POPSignerError::SigningError(detail) => labelled("Signing error: ", detail.as_str()),
            POPSignerError::BatchPartialFailure { failed, total } => {
                let failed = decimal_string(*failed as u64);
                let total = decimal_string(*total as u64);
                let mut text = String::from_str("Batch operation had ");
                text.append(failed.as_str());
                text.append(" failures out of ");
                text.append(total.as_str());
                text.append(" requests");
                text
            },
        }
    }
}

/// `label` followed by `detail`.
fn labelled(label: &str, detail: &str) -> (text: String)
    ensures
        text@ == label@ + detail@,
{
    let mut text = String::from_str(label);
    text.append(detail);
    text
}

/// The text of a transport failure, given the text of its cause.
pub fn render_transport(cause: &str) -> (text: String)
    ensures
        text@ == (ErrorModel::Transport { cause: cause@ }).render(),
{
    labelled("HTTP error: ", cause)
}

impl vstd::std_specs::convert::FromSpecImpl<reqwest::Error> for POPSignerError {
    open spec fn obeys_from_spec() -> bool {
        true
    }

    open spec fn from_spec(cause: reqwest::Error) -> Self {
        POPSignerError::Http(cause)
    }
}

impl From<reqwest::Error> for POPSignerError {
    /// Wraps a transport failure, whole, as [`POPSignerError::Http`].
    fn from(cause: reqwest::Error) -> (error: Self)
        ensures
            error == POPSignerError::Http(cause),
    {
        POPSignerError::Http(cause)
    }
}

/// A transport failure is wrapped as the transport variant and as nothing
/// less: the cause stays whole inside the error, the error is retryable,
/// and its text is the fixed words `HTTP error: ` and then the cause's own
/// text, which so occurs in it as a contiguous part.
pub proof fn lemma_transport_cause_preserved(cause: reqwest::Error)
    ensures
        POPSignerError::from_spec(cause) == POPSignerError::Http(cause),
        POPSignerError::from_spec(cause)@ == (ErrorModel::Transport { cause: display_text(cause) }),
        POPSignerError::from_spec(cause)@.is_retryable(),
        POPSignerError::from_spec(cause)@.render() == "HTTP error: "@ + display_text(cause),
        contains_text(POPSignerError::from_spec(cause)@.render(), display_text(cause)),
{
    lemma_transport_text_holds_cause(display_text(cause));
}

} // verus!
