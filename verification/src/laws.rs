//! What holds of the registry whatever the store and the arguments: the laws
//! of issuing, revoking and verifying, proved from the operations'
//! specifications.
use vstd::prelude::*;
use crate::decision::{expired_at, verdict, MESSAGE_NOT_FOUND, MESSAGE_REVOKED, MESSAGE_VALID};
use crate::registry::{after_issue, after_revoke, issue_outcome, issued_certificate,
    revoke_outcome};
use crate::store::StoreView;
use crate::types::{CertificateError, CertificateStatus, CertificateView, MetadataView,
    VerificationResultView};
use crate::verification::{after_verify, verify_outcome};

verus! {

/// The empty store is consistent.
pub proof fn law_empty_store_is_consistent()
    ensures
        StoreView::empty().consistent(),
{
}

/// Issuing under an identifier twice: the second call fails with
/// `AlreadyExists` and leaves the store as the first call left it; where the
/// first call succeeded, its record is still the one stored.
pub proof fn law_issue_twice(
    store: StoreView,
    id: Seq<char>,
    issuer: Seq<char>,
    recipient: Seq<char>,
    metadata: MetadataView,
    now: u64,
    other_issuer: Seq<char>,
    other_recipient: Seq<char>,
    other_metadata: MetadataView,
    later: u64,
)
    ensures
        ({
            let first = after_issue(store, id, issuer, recipient, metadata, now);
            let second = after_issue(
                first,
                id,
                other_issuer,
                other_recipient,
                other_metadata,
                later,
            );
            &&& issue_outcome(first, id, other_issuer, other_recipient, other_metadata, later)
                == Err::<CertificateView, CertificateError>(CertificateError::AlreadyExists)
            &&& second == first
            &&& issue_outcome(store, id, issuer, recipient, metadata, now) is Ok
                ==> second.certificate(id) == Some(
                issued_certificate(id, issuer, recipient, metadata, now),
            )
        }),
{
}

/// Issuing touches nothing but the record under the identifier: every other
/// certificate and every history stay as they were.
pub proof fn law_issue_touches_one_record(
    store: StoreView,
    id: Seq<char>,
    issuer: Seq<char>,
    recipient: Seq<char>,
    metadata: MetadataView,
    now: u64,
    other: Seq<char>,
)
    requires
        other != id,
    ensures
        after_issue(store, id, issuer, recipient, metadata, now).certificate(other)
            == store.certificate(other),
        after_issue(store, id, issuer, recipient, metadata, now).histories == store.histories,
{
}

/// Revoking under an identifier that holds no certificate fails with
/// `NotFound` and leaves the store as it was.
pub proof fn law_revoke_unknown(store: StoreView, id: Seq<char>, reason: Seq<char>, now: u64)
    requires
        !store.certificates.contains_key(id),
    ensures
        revoke_outcome(store, id) == Err::<(), CertificateError>(CertificateError::NotFound),
        after_revoke(store, id, reason, now) == store,
{
}

/// Revoking twice: once the first revocation has succeeded, the second fails
/// with `AlreadyRevoked` and leaves the store as it was, so that the reason,
/// the time and the author of the first revocation stay on record.
pub proof fn law_revoke_twice(
    store: StoreView,
    id: Seq<char>,
    reason: Seq<char>,
    now: u64,
    other_reason: Seq<char>,
    later: u64,
)
    requires
        revoke_outcome(store, id) is Ok,
    ensures
        ({
            let first = after_revoke(store, id, reason, now);
            let second = after_revoke(first, id, other_reason, later);
            &&& revoke_outcome(first, id) == Err::<(), CertificateError>(
                CertificateError::AlreadyRevoked,
            )
            &&& second == first
            &&& second.certificates.contains_key(id)
            &&& second.certificates[id].status == CertificateStatus::Revoked
            &&& second.certificates[id].revocation_reason == Some(reason)
            &&& second.certificates[id].revoked_at == Some(now)
            &&& second.certificates[id].revoked_by == Some(store.certificates[id].issuer)
        }),
{
}

/// Revoking changes nothing of a certificate but its status and the record
/// of its revocation, and touches no other certificate and no history.
pub proof fn law_revoke_touches_one_record(
    store: StoreView,
    id: Seq<char>,
    reason: Seq<char>,
    now: u64,
    other: Seq<char>,
)
    requires
        revoke_outcome(store, id) is Ok,
        other != id,
    ensures
        ({
            let before = store.certificates[id];
            let after = after_revoke(store, id, reason, now);
            &&& after.certificates[id].id == before.id
            &&& after.certificates[id].issuer == before.issuer
            &&& after.certificates[id].recipient == before.recipient
            &&& after.certificates[id].metadata == before.metadata
            &&& after.certificates[id].issued_at == before.issued_at
            &&& after.certificate(other) == store.certificate(other)
            &&& after.histories == store.histories
        }),
{
}

/// A revoked certificate stays revoked: no issuing, revoking or verifying,
/// under its identifier or another, gives it another status.
pub proof fn law_revocation_is_final(
    store: StoreView,
    id: Seq<char>,
    other: Seq<char>,
    issuer: Seq<char>,
    recipient: Seq<char>,
    metadata: MetadataView,
    reason: Seq<char>,
    now: u64,
    issuer_authorized: bool,
)
    requires
        store.certificates.contains_key(id),
        store.certificates[id].status == CertificateStatus::Revoked,
    ensures
        after_issue(store, other, issuer, recipient, metadata, now).certificate(id)
            == store.certificate(id),
        after_revoke(store, other, reason, now).certificates.contains_key(id),
        after_revoke(store, other, reason, now).certificates[id].status
            == CertificateStatus::Revoked,
        after_verify(store, other, now, issuer_authorized).certificate(id) == store.certificate(
            id,
        ),
{
}

/// A result is valid exactly when none of the four failures holds: the
/// certificate is missing, it is revoked, it has expired, or its issuer is no
/// longer authorized.
pub proof fn law_valid_iff_no_failure(
    certificate: Option<CertificateView>,
    now: u64,
    issuer_authorized: bool,
)
    ensures
        verdict(certificate, now, issuer_authorized).is_valid <==> ({
            &&& certificate is Some
            &&& certificate->0.status != CertificateStatus::Revoked
            &&& !expired_at(certificate->0.metadata.valid_until, now)
            &&& issuer_authorized
        }),
        verdict(certificate, now, issuer_authorized).verified_at == now,
{
}

/// A certificate that never expires is never reported as expired, and one
/// that expires is reported so exactly from the first moment after its
/// expiry time.
pub proof fn law_expiry_boundary(valid_until: u64, now: u64)
    ensures
        valid_until == 0 ==> !expired_at(valid_until, now),
        valid_until > 0 && now <= valid_until ==> !expired_at(valid_until, now),
        valid_until > 0 && now > valid_until ==> expired_at(valid_until, now),
{
}

/// Verifying an identifier that holds no certificate: the result is invalid,
/// reports the status `Revoked` and the message of a missing certificate;
/// nothing is announced, and the store, its histories included, stays as it
/// was.
pub proof fn law_verify_unknown(
    store: StoreView,
    id: Seq<char>,
    verifier: Seq<char>,
    now: u64,
    issuer_authorized: bool,
)
    requires
        !store.certificates.contains_key(id),
    ensures
        verify_outcome(store, id, verifier, now, issuer_authorized).result
            == (VerificationResultView {
            is_valid: false,
            status: CertificateStatus::Revoked,
            message: MESSAGE_NOT_FOUND@,
            verified_at: now,
        }),
        verify_outcome(store, id, verifier, now, issuer_authorized).event is None,
        after_verify(store, id, now, issuer_authorized) == store,
{
}

/// Verifying an active certificate that has not expired and whose issuer is
/// authorized gives a valid result with the status `Active`.
pub proof fn law_verify_active(
    store: StoreView,
    id: Seq<char>,
    verifier: Seq<char>,
    now: u64,
)
    requires
        store.certificates.contains_key(id),
        store.certificates[id].status == CertificateStatus::Active,
        !expired_at(store.certificates[id].metadata.valid_until, now),
    ensures
        verify_outcome(store, id, verifier, now, true).result == (VerificationResultView {
            is_valid: true,
            status: CertificateStatus::Active,
            message: MESSAGE_VALID@,
            verified_at: now,
        }),
{
}

/// Verifying a revoked certificate gives an invalid result. It reports the
/// status `Revoked`, unless the certificate has also expired: then it reports
/// `Expired`. Where revocation is the only failure, the message is that of a
/// revoked certificate.
pub proof fn law_verify_revoked(
    store: StoreView,
    id: Seq<char>,
    verifier: Seq<char>,
    now: u64,
    issuer_authorized: bool,
)
    requires
        store.certificates.contains_key(id),
        store.certificates[id].status == CertificateStatus::Revoked,
    ensures
        ({
            let result = verify_outcome(store, id, verifier, now, issuer_authorized).result;
            let expired = expired_at(store.certificates[id].metadata.valid_until, now);
            &&& !result.is_valid
            &&& !expired ==> result.status == CertificateStatus::Revoked
            &&& expired ==> result.status == CertificateStatus::Expired
            &&& !expired && issuer_authorized ==> result.message == MESSAGE_REVOKED@
        }),
{
}

/// Verifying a stored certificate appends exactly one entry, the result, to
/// the end of that certificate's history, announces it, and writes nothing
/// else: no certificate and no other history changes.
pub proof fn law_verify_appends_one(
    store: StoreView,
    id: Seq<char>,
    verifier: Seq<char>,
    now: u64,
    issuer_authorized: bool,
    other: Seq<char>,
)
    requires
        store.certificates.contains_key(id),
        other != id,
    ensures
        ({
            let outcome = verify_outcome(store, id, verifier, now, issuer_authorized);
            let after = after_verify(store, id, now, issuer_authorized);
            &&& after.history(id) == store.history(id).push(outcome.result)
            &&& after.history(id).len() == store.history(id).len() + 1
            &&& after.history(other) == store.history(other)
            &&& after.certificates == store.certificates
            &&& outcome.event is Some
            &&& outcome.event->0.id == id
            &&& outcome.event->0.verifier == verifier
            &&& outcome.event->0.result == outcome.result
        }),
{
}

/// Two verifications of a stored certificate leave their results in the
/// history in the order of the calls, after what was there before.
pub proof fn law_verify_in_call_order(
    store: StoreView,
    id: Seq<char>,
    verifier: Seq<char>,
    now: u64,
    issuer_authorized: bool,
    other_verifier: Seq<char>,
    later: u64,
    still_authorized: bool,
)
    requires
        store.certificates.contains_key(id),
    ensures
        ({
            let first = after_verify(store, id, now, issuer_authorized);
            let second = after_verify(first, id, later, still_authorized);
            let first_result = verify_outcome(store, id, verifier, now, issuer_authorized).result;
            let second_result = verify_outcome(
                first,
                id,
                other_verifier,
                later,
                still_authorized,
            ).result;
            &&& second.history(id) == store.history(id).push(first_result).push(second_result)
            &&& second_result == verdict(store.certificate(id), later, still_authorized)
        }),
{
}

/// In a consistent store a newly issued certificate has an empty history.
pub proof fn law_new_certificate_has_no_history(
    store: StoreView,
    id: Seq<char>,
    issuer: Seq<char>,
    recipient: Seq<char>,
    metadata: MetadataView,
    now: u64,
)
    requires
        store.consistent(),
        !store.certificates.contains_key(id),
    ensures
        after_issue(store, id, issuer, recipient, metadata, now).history(id) == Seq::<
            VerificationResultView,
        >::empty(),
{
}

/// Issuing, revoking and verifying keep a consistent store consistent: in
/// particular no stored certificate is ever marked expired, whatever the
/// verifications reported.
pub proof fn law_operations_keep_consistency(
    store: StoreView,
    id: Seq<char>,
    issuer: Seq<char>,
    recipient: Seq<char>,
    metadata: MetadataView,
    reason: Seq<char>,
    now: u64,
    issuer_authorized: bool,
)
    requires
        store.consistent(),
    ensures
        after_issue(store, id, issuer, recipient, metadata, now).consistent(),
        after_revoke(store, id, reason, now).consistent(),
        after_verify(store, id, now, issuer_authorized).consistent(),
{
}

/// One call of a verification: its time, and the answer that the issuer
/// authority gave for it.
pub struct Call {
    pub now: u64,
    pub issuer_authorized: bool,
}

/// The store after a series of verifications of `id`, the first call first.
pub open spec fn after_verifications(store: StoreView, id: Seq<char>, calls: Seq<Call>)
    -> StoreView
    decreases calls.len(),
{
    if calls.len() == 0 {
        store
    } else {
        after_verify(
            after_verifications(store, id, calls.drop_last()),
            id,
            calls.last().now,
            calls.last().issuer_authorized,
        )
    }
}

/// The results of a series of verifications of one stored record.
pub open spec fn verdicts(certificate: CertificateView, calls: Seq<Call>) -> Seq<
    VerificationResultView,
> {
    Seq::new(
        calls.len(),
        |i: int| verdict(Some(certificate), calls[i].now, calls[i].issuer_authorized),
    )
}

/// Any number of verifications of a stored certificate leave the
/// certificates as they were and extend the certificate's history by one
/// entry per call, in the order of the calls.
pub proof fn law_verifications_append_in_call_order(
    store: StoreView,
    id: Seq<char>,
    calls: Seq<Call>,
)
    requires
        store.certificates.contains_key(id),
    ensures
        after_verifications(store, id, calls).certificates == store.certificates,
        after_verifications(store, id, calls).history(id) == store.history(id) + verdicts(
            store.certificates[id],
            calls,
        ),
        after_verifications(store, id, calls).history(id).len() == store.history(id).len()
            + calls.len(),
    decreases calls.len(),
{
    if calls.len() > 0 {
        let earlier = calls.drop_last();
        law_verifications_append_in_call_order(store, id, earlier);
        assert(verdicts(store.certificates[id], calls) =~= verdicts(
            store.certificates[id],
            earlier,
        ).push(
            verdict(Some(store.certificates[id]), calls.last().now, calls.last().issuer_authorized),
        ));
    }
    assert(after_verifications(store, id, calls).history(id) =~= store.history(id) + verdicts(
        store.certificates[id],
        calls,
    ));
}

/// Histories only grow: whatever is issued, revoked or verified, under
/// whichever identifier, the entries recorded so far stay where they are.
pub proof fn law_history_is_append_only(
    store: StoreView,
    id: Seq<char>,
    other: Seq<char>,
    issuer: Seq<char>,
    recipient: Seq<char>,
    metadata: MetadataView,
    reason: Seq<char>,
    now: u64,
    issuer_authorized: bool,
)
    ensures
        store.history(id).is_prefix_of(
            after_issue(store, other, issuer, recipient, metadata, now).history(id),
        ),
        store.history(id).is_prefix_of(after_revoke(store, other, reason, now).history(id)),
        store.history(id).is_prefix_of(
            after_verify(store, other, now, issuer_authorized).history(id),
        ),
{
}

/// The decision never looks at the history: whatever is recorded, under
/// whichever identifier, a verification gives the same result.
pub proof fn law_decision_ignores_history(
    store: StoreView,
    id: Seq<char>,
    verifier: Seq<char>,
    now: u64,
    issuer_authorized: bool,
    other: Seq<char>,
    recorded: Seq<VerificationResultView>,
)
    ensures
        verify_outcome(store.with_history(other, recorded), id, verifier, now, issuer_authorized)
            == verify_outcome(store, id, verifier, now, issuer_authorized),
{
}

/// Certificates are never deleted: what is stored under an identifier stays
/// stored under it whatever is issued, revoked or verified.
pub proof fn law_certificates_are_never_deleted(
    store: StoreView,
    id: Seq<char>,
    other: Seq<char>,
    issuer: Seq<char>,
    recipient: Seq<char>,
    metadata: MetadataView,
    reason: Seq<char>,
    now: u64,
    issuer_authorized: bool,
)
    requires
        store.certificates.contains_key(id),
    ensures
        after_issue(store, other, issuer, recipient, metadata, now).certificates.contains_key(id),
        after_revoke(store, other, reason, now).certificates.contains_key(id),
        after_verify(store, other, now, issuer_authorized).certificates.contains_key(id),
{
}

} // verus!
