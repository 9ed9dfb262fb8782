//! Issuing, revoking and reading certificates: guarded writes to the store.
use vstd::prelude::*;
use crate::store::{Store, StoreView};
use crate::types::{Certificate, CertificateError, CertificateMetadata, CertificateStatus,
    CertificateView, MetadataView};

verus! {

/// The operations of the registry. It keeps no state of its own: each
/// operation works on the store that it is handed, and is told the current
/// time where it needs it.
pub struct CertificateContract;

/// The record that issuing writes: active, stamped with the time of issue,
/// and without any trace of a revocation.
pub open spec fn issued_certificate(
    id: Seq<char>,
    issuer: Seq<char>,
    recipient: Seq<char>,
    metadata: MetadataView,
    now: u64,
) -> CertificateView {
    CertificateView {
        id,
        issuer,
        recipient,
        metadata,
        issued_at: now,
        status: CertificateStatus::Active,
        revocation_reason: None,
        revoked_at: None,
        revoked_by: None,
    }
}

/// What issuing returns: the new record, or `AlreadyExists` where the
/// identifier is in use.
pub open spec fn issue_outcome(
    store: StoreView,
    id: Seq<char>,
    issuer: Seq<char>,
    recipient: Seq<char>,
    metadata: MetadataView,
    now: u64,
) -> Result<CertificateView, CertificateError> {
    if store.certificates.contains_key(id) {
        Err(CertificateError::AlreadyExists)
    } else {
        Ok(issued_certificate(id, issuer, recipient, metadata, now))
    }
}

/// The store after issuing: with the new record where the identifier was
/// free, and as it was where it was not.
pub open spec fn after_issue(
    store: StoreView,
    id: Seq<char>,
    issuer: Seq<char>,
    recipient: Seq<char>,
    metadata: MetadataView,
    now: u64,
) -> StoreView {
    if store.certificates.contains_key(id) {
        store
    } else {
        StoreView {
            certificates: store.certificates.insert(
                id,
                issued_certificate(id, issuer, recipient, metadata, now),
            ),
            histories: store.histories,
        }
    }
}

/// A record after its revocation at time `now` for the reason `reason`: the
/// issuer is recorded as the one who revoked it.
pub open spec fn revoked_certificate(certificate: CertificateView, reason: Seq<char>, now: u64)
    -> CertificateView {
    CertificateView {
        status: CertificateStatus::Revoked,
        revocation_reason: Some(reason),
        revoked_at: Some(now),
        revoked_by: Some(certificate.issuer),
        ..certificate
    }
}

/// What revoking returns: `NotFound` where nothing is stored under the
/// identifier, `AlreadyRevoked` where the record is revoked, and success
/// otherwise.
pub open spec fn revoke_outcome(store: StoreView, id: Seq<char>) -> Result<(), CertificateError> {
    match store.certificate(id) {
        None => Err(CertificateError::NotFound),
        Some(certificate) => if certificate.status == CertificateStatus::Revoked {
            Err(CertificateError::AlreadyRevoked)
        } else {
            Ok(())
        },
    }
}

/// The store after revoking: with the record revoked where revoking
/// succeeds, and as it was where it fails.
pub open spec fn after_revoke(store: StoreView, id: Seq<char>, reason: Seq<char>, now: u64)
    -> StoreView {
    if revoke_outcome(store, id) is Ok {
        StoreView {
            certificates: store.certificates.insert(
                id,
                revoked_certificate(store.certificates[id], reason, now),
            ),
            histories: store.histories,
        }
    } else {
        store
    }
}

/// Whether the certificate under an identifier is revoked; `NotFound` where
/// there is none.
pub open spec fn revocation_state(store: StoreView, id: Seq<char>) -> Result<
    bool,
    CertificateError,
> {
    match store.certificate(id) {
        Some(certificate) => Ok(certificate.status == CertificateStatus::Revoked),
        None => Err(CertificateError::NotFound),
    }
}

/// The view of an operation's outcome that carries a certificate.
pub open spec fn certificate_outcome_view(outcome: Result<Certificate, CertificateError>) -> Result<
    CertificateView,
    CertificateError,
> {
    match outcome {
        Ok(certificate) => Ok(certificate@),
        Err(error) => Err(error),
    }
}

/// What reading a certificate returns: the record, or `NotFound`.
pub open spec fn lookup_outcome(store: StoreView, id: Seq<char>) -> Result<
    CertificateView,
    CertificateError,
> {
    match store.certificate(id) {
        Some(certificate) => Ok(certificate),
        None => Err(CertificateError::NotFound),
    }
}

impl CertificateContract {
    /// Issues a certificate under `id` at time `now`. The caller has
    /// established that `issuer` stands behind the request.
    ///
    /// Fails with `AlreadyExists`, and writes nothing, where `id` is in use.
    pub fn issue_certificate(
        store: &mut Store,
        id: String,
        issuer: String,
        recipient: String,
        metadata: CertificateMetadata,
        now: u64,
    ) -> (outcome: Result<Certificate, CertificateError>)
        ensures
            certificate_outcome_view(outcome) == issue_outcome(
                old(store)@,
                id@,
                issuer@,
                recipient@,
                metadata@,
                now,
            ),
            final(store)@ == after_issue(old(store)@, id@, issuer@, recipient@, metadata@, now),
            outcome is Err ==> final(store)@ == old(store)@,
            old(store)@.consistent() ==> final(store)@.consistent(),
    {
        if store.get_certificate(&id).is_some() {
            return Err(CertificateError::AlreadyExists);
        }
        let certificate = Certificate {
            id,
            issuer,
            recipient,
            metadata,
            issued_at: now,
            status: CertificateStatus::Active,
            revocation_reason: None,
            revoked_at: None,
            revoked_by: None,
        };
        let copy = certificate.clone();
        store.put_certificate(certificate);
        Ok(copy)
    }

    /// Revokes the certificate under `id` at time `now`, for the reason
    /// `reason`. The caller has established that the certificate's issuer
    /// stands behind the request.
    ///
    /// Fails with `NotFound` where nothing is stored under `id`, and with
    /// `AlreadyRevoked` where the certificate is revoked; either way nothing
    /// is written.
    pub fn revoke_certificate(store: &mut Store, id: &String, reason: String, now: u64) -> (outcome:
        Result<(), CertificateError>)
        ensures
            outcome == revoke_outcome(old(store)@, id@),
            final(store)@ == after_revoke(old(store)@, id@, reason@, now),
            outcome is Err ==> final(store)@ == old(store)@,
            old(store)@.consistent() ==> final(store)@.consistent(),
    {
        let mut revoked = match store.get_certificate(id) {
            None => {
                return Err(CertificateError::NotFound);
            },
            Some(certificate) => {
                if certificate.status == CertificateStatus::Revoked {
                    return Err(CertificateError::AlreadyRevoked);
                }
                certificate.clone()
            },
        };
        revoked.status = CertificateStatus::Revoked;
        revoked.revocation_reason = Some(reason);
        revoked.revoked_at = Some(now);
        revoked.revoked_by = Some(revoked.issuer.clone());
        store.put_certificate(revoked);
        Ok(())
    }

    /// Whether the certificate under `id` is revoked; `NotFound` where
    /// nothing is stored under `id`.
    pub fn is_revoked(store: &Store, id: &String) -> (outcome: Result<bool, CertificateError>)
        ensures
            outcome == revocation_state(store@, id@),
    {
        match store.get_certificate(id) {
            Some(certificate) => Ok(certificate.status == CertificateStatus::Revoked),
            None => Err(CertificateError::NotFound),
        }
    }

    /// The certificate under `id`; `NotFound` where nothing is stored under
    /// `id`.
    pub fn get_certificate(store: &Store, id: &String) -> (outcome: Result<
        Certificate,
        CertificateError,
    >)
        ensures
            certificate_outcome_view(outcome) == lookup_outcome(store@, id@),
    {
        match store.get_certificate(id) {
            Some(certificate) => Ok(certificate.clone()),
            None => Err(CertificateError::NotFound),
        }
    }
}

} // verus!
