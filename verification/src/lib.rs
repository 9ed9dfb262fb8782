//! A registry of certificates: issuing, revoking and verifying them over an
//! explicit key-value store, with an audit trail of every verification.
//!
//! The registry keeps no state of its own. Every operation of
//! [`CertificateContract`] works on a [`Store`] that it is handed, takes the
//! current time as an argument where it needs it, and, for a verification,
//! the answer of the issuer authority. What an operation returns and how it
//! changes the store is stated over the store's view, a pair of maps; the
//! module `laws` proves from those statements what holds of any sequence of
//! operations.
pub mod types;
pub mod store;
pub mod registry;
pub mod decision;
pub mod verification;
pub mod laws;

pub use crate::registry::CertificateContract;
pub use crate::store::Store;
pub use crate::types::{Certificate, CertificateError, CertificateMetadata, CertificateStatus,
    CertificateVerifiedEvent, VerificationResult};
pub use crate::verification::VerificationOutcome;
