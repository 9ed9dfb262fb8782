//! The verification engine: it looks a certificate up, decides on it, records
//! the decision in the certificate's history and says what to announce.
use vstd::prelude::*;
use crate::decision::{evaluate, expired_at, verdict};
use crate::registry::CertificateContract;
use crate::store::{Store, StoreView};
use crate::types::{results_view, CertificateVerifiedEvent, EventView, VerificationResult,
    VerificationResultView};

verus! {

/// The topic under which a verification is announced.
pub const EVENT_TOPIC: &'static str = "cert_ver";

/// What a verification hands back: the result, and the event to announce
/// where the verification was recorded.
#[derive(Debug, PartialEq, Eq)]
pub struct VerificationOutcome {
    pub result: VerificationResult,
    pub event: Option<CertificateVerifiedEvent>,
}

/// The mathematical value of a [`VerificationOutcome`].
pub struct OutcomeView {
    pub result: VerificationResultView,
    pub event: Option<EventView>,
}

impl View for VerificationOutcome {
    type V = OutcomeView;

    open spec fn view(&self) -> OutcomeView {
        OutcomeView {
            result: self.result@,
            event: match self.event {
                Some(event) => Some(event@),
                None => None,
            },
        }
    }
}

/// What verifying `id` at time `now` hands back: the verdict on what is
/// stored under `id`, and, where something is stored there, the event that
/// carries the identifier, the verifier and the verdict.
pub open spec fn verify_outcome(
    store: StoreView,
    id: Seq<char>,
    verifier: Seq<char>,
    now: u64,
    issuer_authorized: bool,
) -> OutcomeView {
    let result = verdict(store.certificate(id), now, issuer_authorized);
    OutcomeView {
        result,
        event: if store.certificates.contains_key(id) {
            Some(EventView { id, verifier, result })
        } else {
            None
        },
    }
}

/// The store after verifying `id` at time `now`: where a certificate is
/// stored under `id`, the verdict is appended to its history; nothing else
/// changes, and nothing at all where no certificate is stored there.
pub open spec fn after_verify(store: StoreView, id: Seq<char>, now: u64, issuer_authorized: bool)
    -> StoreView {
    if store.certificates.contains_key(id) {
        store.with_history(
            id,
            store.history(id).push(verdict(store.certificate(id), now, issuer_authorized)),
        )
    } else {
        store
    }
}

/// A copy of a list of results.
fn copy_results(results: &Vec<VerificationResult>) -> (copy: Vec<VerificationResult>)
    ensures
        results_view(copy@) == results_view(results@),
{
    let mut copy: Vec<VerificationResult> = Vec::new();
    let mut done: usize = 0;
    while done < results.len()
        invariant
            done <= results@.len(),
            copy@.len() == done,
            forall|i: int| 0 <= i < done ==> copy@[i]@ == results@[i]@,
        decreases results@.len() - done,
    {
        copy.push(results[done].clone());
        done = done + 1;
    }
    assert(results_view(copy@) =~= results_view(results@));
    copy
}

impl CertificateContract {
    /// Verifies the certificate under `id` at time `now` on behalf of
    /// `verifier`. `issuer_authorized` is the answer of the issuer authority
    /// for the issuer of that certificate; it is not looked at where no
    /// certificate is stored under `id`.
    ///
    /// A missing certificate gives an invalid result and leaves the store as
    /// it was. Otherwise the result, valid or not, is appended to the
    /// certificate's history and comes back together with the event to
    /// announce. The certificate itself is never written.
    pub fn verify_certificate(
        store: &mut Store,
        id: String,
        verifier: String,
        now: u64,
        issuer_authorized: bool,
    ) -> (outcome: VerificationOutcome)
        ensures
            outcome@ == verify_outcome(old(store)@, id@, verifier@, now, issuer_authorized),
            final(store)@ == after_verify(old(store)@, id@, now, issuer_authorized),
            final(store)@.certificates == old(store)@.certificates,
            old(store)@.certificates.contains_key(id@) ==> final(store)@.history(id@)
                == old(store)@.history(id@).push(outcome@.result),
            !old(store)@.certificates.contains_key(id@) ==> final(store)@ == old(store)@,
            old(store)@.consistent() ==> final(store)@.consistent(),
    {
        let found = store.get_certificate(&id);
        let result = evaluate(found, now, issuer_authorized);
        if found.is_none() {
            return VerificationOutcome { result, event: None };
        }
        Self::record_verification(store, &id, result.clone());
        let event = CertificateVerifiedEvent { id, verifier, result: result.clone() };
        VerificationOutcome { result, event: Some(event) }
    }

    /// Appends `result` to the history under `id`, starting a history where
    /// there is none.
    fn record_verification(store: &mut Store, id: &String, result: VerificationResult)
        ensures
            final(store)@ == old(store)@.with_history(id@, old(store)@.history(id@).push(result@)),
    {
        let mut history = match store.get_history(id) {
            Some(recorded) => copy_results(recorded),
            None => Vec::new(),
        };
        assert(results_view(history@) =~= store@.history(id@));
        history.push(result);
        assert(results_view(history@) =~= old(store)@.history(id@).push(result@));
        store.put_history(id.clone(), history);
    }

    /// Whether a certificate that is valid until `valid_until` has expired at
    /// time `now`. A `valid_until` of zero means that it never expires, and
    /// at the moment `valid_until` itself it has not expired yet.
    pub fn check_expiration(now: u64, valid_until: u64) -> (expired: bool)
        ensures
            expired == expired_at(valid_until, now),
            valid_until == 0 ==> !expired,
            valid_until > 0 && now <= valid_until ==> !expired,
            valid_until > 0 && now > valid_until ==> expired,
    {
        if valid_until == 0 {
            return false;
        }
        now > valid_until
    }

    /// The verifications recorded under `id`, oldest first. Where none is
    /// recorded the list is empty, whether or not a certificate is stored
    /// under `id`.
    pub fn get_verification_history(store: &Store, id: &String) -> (history: Vec<
        VerificationResult,
    >)
        ensures
            results_view(history@) == store@.history(id@),
            history@.len() == store@.history(id@).len(),
            forall|i: int| 0 <= i < history@.len() ==> history@[i]@ == store@.history(id@)[i],
    {
        match store.get_history(id) {
            Some(recorded) => copy_results(recorded),
            None => {
                let history: Vec<VerificationResult> = Vec::new();
                assert(results_view(history@) =~= Seq::<VerificationResultView>::empty());
                history
            },
        }
    }
}

} // verus!
