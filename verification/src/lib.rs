//! Error taxonomy of the POPSigner client: one closed set of failure
//! variants, their classification (retryable, authentication failure,
//! HTTP status) and their exact human-readable text.

pub mod decimal;
pub mod error;
pub mod model;
pub mod transport;

pub use error::POPSignerError;
pub use model::ErrorModel;
