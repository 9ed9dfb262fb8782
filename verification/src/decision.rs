//! The decision that a verification takes: a pure function of the stored
//! record, the current time and the answer of the issuer authority.
//!
//! [`verdict`] states the decision directly. It is computed as an ordered
//! list of checks, each of which may fail, replace the reported status and
//! replace the reported message; the checks are folded from left to right
//! over a baseline that assumes validity, so that a later failure overwrites
//! the message of an earlier one.
use vstd::prelude::*;
use crate::registry::CertificateContract;
use crate::types::{found_view, Certificate, CertificateStatus, CertificateView,
    VerificationResult, VerificationResultView};

verus! {

/// Reported when every check has passed.
pub const MESSAGE_VALID: &'static str = "Valid";

/// Reported when nothing is stored under the identifier.
pub const MESSAGE_NOT_FOUND: &'static str = "Certificate not found";

/// Reported when the stored record is revoked.
pub const MESSAGE_REVOKED: &'static str = "Certificate is revoked";

/// Reported when the expiry time has passed.
pub const MESSAGE_EXPIRED: &'static str = "Certificate has expired";

/// Reported when the issuer has lost its authorization.
pub const MESSAGE_ISSUER_UNAUTHORIZED: &'static str = "Issuer is no longer authorized";

/// Whether a certificate that is valid until `valid_until` has expired at
/// time `now`. A `valid_until` of zero means that it never expires; the
/// moment `valid_until` itself is still within the validity.
pub open spec fn expired_at(valid_until: u64, now: u64) -> bool {
    valid_until != 0 && now > valid_until
}

/// The result of verifying, at time `now`, the record found under an
/// identifier (`None` where there is none), given whether the record's issuer
/// is still authorized.
///
/// A missing record is invalid and reported as revoked. A record is valid
/// exactly when it is not revoked, not expired and its issuer authorized. The
/// status is the stored one unless the record has expired. The message names
/// the last check that failed, in the order revocation, expiry, issuer.
pub open spec fn verdict(
    certificate: Option<CertificateView>,
    now: u64,
    issuer_authorized: bool,
) -> VerificationResultView {
    match certificate {
        None => VerificationResultView {
            is_valid: false,
            status: CertificateStatus::Revoked,
            message: MESSAGE_NOT_FOUND@,
            verified_at: now,
        },
        Some(c) => {
            let revoked = c.status == CertificateStatus::Revoked;
            let expired = expired_at(c.metadata.valid_until, now);
            VerificationResultView {
                is_valid: !revoked && !expired && issuer_authorized,
                status: if expired {
                    CertificateStatus::Expired
                } else {
                    c.status
                },
                message: if !issuer_authorized {
                    MESSAGE_ISSUER_UNAUTHORIZED@
                } else if expired {
                    MESSAGE_EXPIRED@
                } else if revoked {
                    MESSAGE_REVOKED@
                } else {
                    MESSAGE_VALID@
                },
                verified_at: now,
            }
        },
    }
}

/// What one check contributes to a verification.
#[derive(Clone, Copy, Debug)]
pub struct CheckOutcome {
    /// Whether the check passed.
    pub passed: bool,
    /// The status to report in place of the one reported so far.
    pub status_override: Option<CertificateStatus>,
    /// The message to report in place of the one reported so far.
    pub message: Option<&'static str>,
}

/// The mathematical value of a [`CheckOutcome`].
pub struct CheckOutcomeView {
    pub passed: bool,
    pub status_override: Option<CertificateStatus>,
    pub message: Option<Seq<char>>,
}

impl View for CheckOutcome {
    type V = CheckOutcomeView;

    open spec fn view(&self) -> CheckOutcomeView {
        CheckOutcomeView {
            passed: self.passed,
            status_override: self.status_override,
            message: match self.message {
                Some(m) => Some(m@),
                None => None,
            },
        }
    }
}

/// The views of a list of check outcomes, in order.
pub open spec fn outcome_views(outcomes: Seq<CheckOutcome>) -> Seq<CheckOutcomeView> {
    outcomes.map_values(|outcome: CheckOutcome| outcome@)
}

/// The contribution of a check that passed: nothing changes.
pub open spec fn check_passed() -> CheckOutcomeView {
    CheckOutcomeView { passed: true, status_override: None, message: None }
}

/// The check for revocation: a revoked record fails it, and keeps its status.
pub open spec fn revocation_outcome(c: CertificateView) -> CheckOutcomeView {
    if c.status == CertificateStatus::Revoked {
        CheckOutcomeView { passed: false, status_override: None, message: Some(MESSAGE_REVOKED@) }
    } else {
        check_passed()
    }
}

/// The check for expiry: an expired record fails it and is reported as expired.
pub open spec fn expiration_outcome(c: CertificateView, now: u64) -> CheckOutcomeView {
    if expired_at(c.metadata.valid_until, now) {
        CheckOutcomeView {
            passed: false,
            status_override: Some(CertificateStatus::Expired),
            message: Some(MESSAGE_EXPIRED@),
        }
    } else {
        check_passed()
    }
}

/// The check of the issuer: it fails when the issuer is no longer authorized.
pub open spec fn issuer_outcome(issuer_authorized: bool) -> CheckOutcomeView {
    if issuer_authorized {
        check_passed()
    } else {
        CheckOutcomeView {
            passed: false,
            status_override: None,
            message: Some(MESSAGE_ISSUER_UNAUTHORIZED@),
        }
    }
}

/// The checks that a found record goes through, in their order.
pub open spec fn checks(c: CertificateView, now: u64, issuer_authorized: bool) -> Seq<
    CheckOutcomeView,
> {
    seq![revocation_outcome(c), expiration_outcome(c, now), issuer_outcome(issuer_authorized)]
}

/// The result before any check has run: valid, with the stored status.
pub open spec fn baseline(c: CertificateView, now: u64) -> VerificationResultView {
    VerificationResultView {
        is_valid: true,
        status: c.status,
        message: MESSAGE_VALID@,
        verified_at: now,
    }
}

/// One step of the fold: a failed check makes the result invalid for good,
/// and a check that names a status or a message replaces the earlier one.
pub open spec fn combine(so_far: VerificationResultView, check: CheckOutcomeView)
    -> VerificationResultView {
    VerificationResultView {
        is_valid: so_far.is_valid && check.passed,
        status: match check.status_override {
            Some(status) => status,
            None => so_far.status,
        },
        message: match check.message {
            Some(message) => message,
            None => so_far.message,
        },
        verified_at: so_far.verified_at,
    }
}

/// The fold of a list of checks, from the first to the last, over a starting
/// result.
pub open spec fn fold_checks(start: VerificationResultView, outcomes: Seq<CheckOutcomeView>)
    -> VerificationResultView {
    outcomes.fold_left(
        start,
        |so_far: VerificationResultView, check: CheckOutcomeView| combine(so_far, check),
    )
}

/// Folding the checks of a found record over its baseline gives the verdict
/// on it.
pub proof fn lemma_checks_fold_to_verdict(c: CertificateView, now: u64, issuer_authorized: bool)
    ensures
        fold_checks(baseline(c, now), checks(c, now, issuer_authorized)) == verdict(
            Some(c),
            now,
            issuer_authorized,
        ),
{
    let start = baseline(c, now);
    let all = checks(c, now, issuer_authorized);
    let two = all.drop_last();
    let one = two.drop_last();
    let none = one.drop_last();
    assert(none =~= Seq::<CheckOutcomeView>::empty());
    assert(fold_checks(start, none) == start);
    assert(fold_checks(start, one) == combine(start, revocation_outcome(c)));
    assert(fold_checks(start, two) == combine(
        fold_checks(start, one),
        expiration_outcome(c, now),
    ));
}

/// The check for revocation.
pub fn revocation_check(certificate: &Certificate) -> (outcome: CheckOutcome)
    ensures
        outcome@ == revocation_outcome(certificate@),
{
    if certificate.status == CertificateStatus::Revoked {
        CheckOutcome { passed: false, status_override: None, message: Some(MESSAGE_REVOKED) }
    } else {
        CheckOutcome { passed: true, status_override: None, message: None }
    }
}

/// The check for expiry at time `now`.
pub fn expiration_check(certificate: &Certificate, now: u64) -> (outcome: CheckOutcome)
    ensures
        outcome@ == expiration_outcome(certificate@, now),
{
    if CertificateContract::check_expiration(now, certificate.metadata.valid_until) {
        CheckOutcome {
            passed: false,
            status_override: Some(CertificateStatus::Expired),
            message: Some(MESSAGE_EXPIRED),
        }
    } else {
        CheckOutcome { passed: true, status_override: None, message: None }
    }
}

/// The check of the issuer, given the answer of the issuer authority.
pub fn issuer_check(issuer_authorized: bool) -> (outcome: CheckOutcome)
    ensures
        outcome@ == issuer_outcome(issuer_authorized),
{
    if issuer_authorized {
        CheckOutcome { passed: true, status_override: None, message: None }
    } else {
        CheckOutcome {
            passed: false,
            status_override: None,
            message: Some(MESSAGE_ISSUER_UNAUTHORIZED),
        }
    }
}

/// Applies one check to the result so far.
pub fn apply_check(so_far: VerificationResult, check: CheckOutcome) -> (result: VerificationResult)
    ensures
        result@ == combine(so_far@, check@),
{
    VerificationResult {
        is_valid: so_far.is_valid && check.passed,
        status: match check.status_override {
            Some(status) => status,
            None => so_far.status,
        },
        message: match check.message {
            Some(message) => message.to_owned(),
            None => so_far.message,
        },
        verified_at: so_far.verified_at,
    }
}

/// Folds a list of checks, from the first to the last, over a starting result.
pub fn run_checks(start: VerificationResult, outcomes: &Vec<CheckOutcome>) -> (result:
    VerificationResult)
    ensures
        result@ == fold_checks(start@, outcome_views(outcomes@)),
{
    let ghost views = outcome_views(outcomes@);
    let ghost first = start@;
    let mut result = start;
    let mut done: usize = 0;
    assert(views.take(0) =~= Seq::<CheckOutcomeView>::empty());
    while done < outcomes.len()
        invariant
            done <= outcomes.len(),
            views == outcome_views(outcomes@),
            result@ == fold_checks(first, views.take(done as int)),
        decreases outcomes.len() - done,
    {
        assert(views.take(done + 1).drop_last() =~= views.take(done as int));
        result = apply_check(result, outcomes[done]);
        done = done + 1;
    }
    assert(views.take(done as int) =~= views);
    result
}

/// Decides on the record found under an identifier, at time `now`, given
/// whether the record's issuer is still authorized.
pub fn evaluate(certificate: Option<&Certificate>, now: u64, issuer_authorized: bool) -> (result:
    VerificationResult)
    ensures
        result@ == verdict(found_view(certificate), now, issuer_authorized),
{
    match certificate {
        None => VerificationResult {
            is_valid: false,
            status: CertificateStatus::Revoked,
            message: MESSAGE_NOT_FOUND.to_owned(),
            verified_at: now,
        },
        Some(found) => {
            let start = VerificationResult {
                is_valid: true,
                status: found.status,
                message: MESSAGE_VALID.to_owned(),
                verified_at: now,
            };
            let mut outcomes: Vec<CheckOutcome> = Vec::new();
            outcomes.push(revocation_check(found));
            outcomes.push(expiration_check(found, now));
            outcomes.push(issuer_check(issuer_authorized));
            proof {
                assert(outcome_views(outcomes@) =~= checks(found@, now, issuer_authorized));
                lemma_checks_fold_to_verdict(found@, now, issuer_authorized);
            }
            run_checks(start, &outcomes)
        },
    }
}

} // verus!
