//! The records that the registry keeps and hands out, each with the
//! mathematical value (its view) that contracts speak of.
use vstd::prelude::*;

verus! {

/// Where a certificate stands. Only `Active` and `Revoked` are ever written to
/// the store: `Expired` is what a verification reports once the expiry time
/// has passed.
#[derive(Clone, Copy, Debug, PartialEq, Eq, Structural)]
pub enum CertificateStatus {
    Active,
    Revoked,
    Expired,
}

/// Why an operation of the registry failed.
#[derive(Clone, Copy, Debug, PartialEq, Eq, Structural)]
pub enum CertificateError {
    AlreadyExists,
    NotFound,
    Unauthorized,
    InvalidData,
    AlreadyRevoked,
}

/// What a certificate says about the achievement it attests.
#[derive(Debug, PartialEq, Eq)]
pub struct CertificateMetadata {
    pub title: String,
    pub description: String,
    pub course_name: String,
    pub completion_date: u64,
    /// Time after which the certificate has expired; zero for never.
    pub valid_until: u64,
    /// Pointer to content that is kept elsewhere.
    pub ipfs_hash: String,
}

/// The mathematical value of a [`CertificateMetadata`].
pub struct MetadataView {
    pub title: Seq<char>,
    pub description: Seq<char>,
    pub course_name: Seq<char>,
    pub completion_date: u64,
    pub valid_until: u64,
    pub ipfs_hash: Seq<char>,
}

impl View for CertificateMetadata {
    type V = MetadataView;

    open spec fn view(&self) -> MetadataView {
        MetadataView {
            title: self.title@,
            description: self.description@,
            course_name: self.course_name@,
            completion_date: self.completion_date,
            valid_until: self.valid_until,
            ipfs_hash: self.ipfs_hash@,
        }
    }
}

impl Clone for CertificateMetadata {
    fn clone(&self) -> (copy: Self)
        ensures
            copy == *self,
    {
        CertificateMetadata {
            title: self.title.clone(),
            description: self.description.clone(),
            course_name: self.course_name.clone(),
            completion_date: self.completion_date,
            valid_until: self.valid_until,
            ipfs_hash: self.ipfs_hash.clone(),
        }
    }
}

/// The characters of a text that may be absent.
pub open spec fn text_view(text: Option<String>) -> Option<Seq<char>> {
    match text {
        Some(t) => Some(t@),
        None => None,
    }
}

/// A credential as the registry keeps it.
#[derive(Debug, PartialEq, Eq)]
pub struct Certificate {
    pub id: String,
    pub issuer: String,
    pub recipient: String,
    pub metadata: CertificateMetadata,
    pub issued_at: u64,
    pub status: CertificateStatus,
    /// Why it was revoked, once it has been.
    pub revocation_reason: Option<String>,
    /// When it was revoked.
    pub revoked_at: Option<u64>,
    /// Who revoked it.
    pub revoked_by: Option<String>,
}

/// The mathematical value of a [`Certificate`].
pub struct CertificateView {
    pub id: Seq<char>,
    pub issuer: Seq<char>,
    pub recipient: Seq<char>,
    pub metadata: MetadataView,
    pub issued_at: u64,
    pub status: CertificateStatus,
    pub revocation_reason: Option<Seq<char>>,
    pub revoked_at: Option<u64>,
    pub revoked_by: Option<Seq<char>>,
}

impl CertificateView {
    /// A record as issuing and revoking leave it: never marked expired, and
    /// carrying the reason, time and author of its revocation exactly when it
    /// is revoked, the author being its issuer.
    pub open spec fn well_formed(self) -> bool {
        match self.status {
            CertificateStatus::Active => {
                &&& self.revocation_reason is None
                &&& self.revoked_at is None
                &&& self.revoked_by is None
            },
            CertificateStatus::Revoked => {
                &&& self.revocation_reason is Some
                &&& self.revoked_at is Some
                &&& self.revoked_by == Some(self.issuer)
            },
            CertificateStatus::Expired => false,
        }
    }
}

impl View for Certificate {
    type V = CertificateView;

    open spec fn view(&self) -> CertificateView {
        CertificateView {
            id: self.id@,
            issuer: self.issuer@,
            recipient: self.recipient@,
            metadata: self.metadata@,
            issued_at: self.issued_at,
            status: self.status,
            revocation_reason: text_view(self.revocation_reason),
            revoked_at: self.revoked_at,
            revoked_by: text_view(self.revoked_by),
        }
    }
}

impl Clone for Certificate {
    fn clone(&self) -> (copy: Self)
        ensures
            copy == *self,
    {
        Certificate {
            id: self.id.clone(),
            issuer: self.issuer.clone(),
            recipient: self.recipient.clone(),
            metadata: self.metadata.clone(),
            issued_at: self.issued_at,
            status: self.status,
            revocation_reason: self.revocation_reason.clone(),
            revoked_at: self.revoked_at,
            revoked_by: self.revoked_by.clone(),
        }
    }
}

/// The view of a record that may be absent.
pub open spec fn found_view(found: Option<&Certificate>) -> Option<CertificateView> {
    match found {
        Some(certificate) => Some(certificate@),
        None => None,
    }
}

/// The outcome of one verification: the decision, the status that it rests
/// on, the reason in words, and the time at which it was taken.
#[derive(Debug, PartialEq, Eq)]
pub struct VerificationResult {
    pub is_valid: bool,
    pub status: CertificateStatus,
    pub message: String,
    pub verified_at: u64,
}

/// The mathematical value of a [`VerificationResult`].
pub struct VerificationResultView {
    pub is_valid: bool,
    pub status: CertificateStatus,
    pub message: Seq<char>,
    pub verified_at: u64,
}

impl View for VerificationResult {
    type V = VerificationResultView;

    open spec fn view(&self) -> VerificationResultView {
        VerificationResultView {
            is_valid: self.is_valid,
            status: self.status,
            message: self.message@,
            verified_at: self.verified_at,
        }
    }
}

impl Clone for VerificationResult {
    fn clone(&self) -> (copy: Self)
        ensures
            copy == *self,
    {
        VerificationResult {
            is_valid: self.is_valid,
            status: self.status,
            message: self.message.clone(),
            verified_at: self.verified_at,
        }
    }
}

/// The views of a list of results, in order.
pub open spec fn results_view(results: Seq<VerificationResult>) -> Seq<VerificationResultView> {
    results.map_values(|result: VerificationResult| result@)
}

/// The notice that goes out once per recorded verification.
#[derive(Debug, PartialEq, Eq)]
pub struct CertificateVerifiedEvent {
    pub id: String,
    pub verifier: String,
    pub result: VerificationResult,
}

/// The mathematical value of a [`CertificateVerifiedEvent`].
pub struct EventView {
    pub id: Seq<char>,
    pub verifier: Seq<char>,
    pub result: VerificationResultView,
}

impl View for CertificateVerifiedEvent {
    type V = EventView;

    open spec fn view(&self) -> EventView {
        EventView { id: self.id@, verifier: self.verifier@, result: self.result@ }
    }
}

impl Clone for CertificateVerifiedEvent {
    fn clone(&self) -> (copy: Self)
        ensures
            copy == *self,
    {
        CertificateVerifiedEvent {
            id: self.id.clone(),
            verifier: self.verifier.clone(),
            result: self.result.clone(),
        }
    }
}

} // verus!
