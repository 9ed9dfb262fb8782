use certificate_registry::decision::{apply_check, evaluate, expiration_check, issuer_check,
    revocation_check, run_checks, CheckOutcome, MESSAGE_EXPIRED, MESSAGE_ISSUER_UNAUTHORIZED,
    MESSAGE_NOT_FOUND, MESSAGE_REVOKED, MESSAGE_VALID};
use certificate_registry::registry::CertificateContract;
use certificate_registry::store::Store;
use certificate_registry::types::{Certificate, CertificateMetadata, CertificateStatus,
    CertificateVerifiedEvent, VerificationResult};
use certificate_registry::verification::{VerificationOutcome, EVENT_TOPIC};

fn text(s: &str) -> String {
    String::from(s)
}

fn certificate(status: CertificateStatus, valid_until: u64) -> Certificate {
    let revoked = status == CertificateStatus::Revoked;
    Certificate {
        id: text("c1"),
        issuer: text("issuer"),
        recipient: text("recipient"),
        metadata: CertificateMetadata {
            title: text("title"),
            description: text("description"),
            course_name: text("course"),
            completion_date: 7,
            valid_until,
            ipfs_hash: text("ipfs://x"),
        },
        issued_at: 10,
        status,
        revocation_reason: if revoked { Some(text("why")) } else { None },
        revoked_at: if revoked { Some(11) } else { None },
        revoked_by: if revoked { Some(text("issuer")) } else { None },
    }
}

fn result(is_valid: bool, status: CertificateStatus, message: &str, at: u64) -> VerificationResult {
    VerificationResult { is_valid, status, message: text(message), verified_at: at }
}

fn store_with(id: &str, valid_until: u64) -> Store {
    let mut store = Store::new();
    CertificateContract::issue_certificate(
        &mut store,
        text(id),
        text("issuer"),
        text("recipient"),
        certificate(CertificateStatus::Active, valid_until).metadata,
        10,
    )
    .unwrap();
    store
}

#[test]
fn messages_are_the_documented_texts() {
    assert_eq!(MESSAGE_VALID, "Valid");
    assert_eq!(MESSAGE_NOT_FOUND, "Certificate not found");
    assert_eq!(MESSAGE_REVOKED, "Certificate is revoked");
    assert_eq!(MESSAGE_EXPIRED, "Certificate has expired");
    assert_eq!(MESSAGE_ISSUER_UNAUTHORIZED, "Issuer is no longer authorized");
    assert_eq!(EVENT_TOPIC, "cert_ver");
}

#[test]
fn check_expiration_zero_never_expires() {
    for now in [0u64, 1, 1_000, u64::MAX] {
        assert!(!CertificateContract::check_expiration(now, 0));
    }
}

#[test]
fn check_expiration_boundary() {
    let t = 1_000u64;
    assert!(!CertificateContract::check_expiration(0, t));
    assert!(!CertificateContract::check_expiration(t - 1, t));
    assert!(!CertificateContract::check_expiration(t, t));
    assert!(CertificateContract::check_expiration(t + 1, t));
    assert!(CertificateContract::check_expiration(u64::MAX, t));
    assert!(!CertificateContract::check_expiration(u64::MAX, u64::MAX));
    assert!(CertificateContract::check_expiration(2, 1));
    assert!(!CertificateContract::check_expiration(1, 1));
}

#[test]
fn evaluate_missing_certificate() {
    assert_eq!(
        evaluate(None, 42, true),
        result(false, CertificateStatus::Revoked, "Certificate not found", 42)
    );
    assert_eq!(
        evaluate(None, 43, false),
        result(false, CertificateStatus::Revoked, "Certificate not found", 43)
    );
}

#[test]
fn evaluate_active_unexpired_authorized() {
    let c = certificate(CertificateStatus::Active, 0);
    assert_eq!(evaluate(Some(&c), 99, true), result(true, CertificateStatus::Active, "Valid", 99));
    let c = certificate(CertificateStatus::Active, 100);
    assert_eq!(
        evaluate(Some(&c), 100, true),
        result(true, CertificateStatus::Active, "Valid", 100)
    );
}

#[test]
fn evaluate_revoked() {
    let c = certificate(CertificateStatus::Revoked, 0);
    assert_eq!(
        evaluate(Some(&c), 50, true),
        result(false, CertificateStatus::Revoked, "Certificate is revoked", 50)
    );
}

#[test]
fn evaluate_expired() {
    let c = certificate(CertificateStatus::Active, 100);
    assert_eq!(
        evaluate(Some(&c), 101, true),
        result(false, CertificateStatus::Expired, "Certificate has expired", 101)
    );
}

#[test]
fn evaluate_revoked_and_expired_reports_expired() {
    let c = certificate(CertificateStatus::Revoked, 100);
    assert_eq!(
        evaluate(Some(&c), 500, true),
        result(false, CertificateStatus::Expired, "Certificate has expired", 500)
    );
}

#[test]
fn evaluate_issuer_unauthorized_message_wins() {
    let active = certificate(CertificateStatus::Active, 0);
    assert_eq!(
        evaluate(Some(&active), 5, false),
        result(false, CertificateStatus::Active, "Issuer is no longer authorized", 5)
    );
    let revoked = certificate(CertificateStatus::Revoked, 0);
    assert_eq!(
        evaluate(Some(&revoked), 5, false),
        result(false, CertificateStatus::Revoked, "Issuer is no longer authorized", 5)
    );
    let expired = certificate(CertificateStatus::Active, 3);
    assert_eq!(
        evaluate(Some(&expired), 5, false),
        result(false, CertificateStatus::Expired, "Issuer is no longer authorized", 5)
    );
    let both = certificate(CertificateStatus::Revoked, 3);
    assert_eq!(
        evaluate(Some(&both), 5, false),
        result(false, CertificateStatus::Expired, "Issuer is no longer authorized", 5)
    );
}

#[test]
fn evaluate_stored_expired_status_is_reported_as_stored() {
    let c = certificate(CertificateStatus::Expired, 0);
    assert_eq!(evaluate(Some(&c), 5, true), result(true, CertificateStatus::Expired, "Valid", 5));
}

#[test]
fn single_checks() {
    let active = certificate(CertificateStatus::Active, 10);
    let revoked = certificate(CertificateStatus::Revoked, 10);

    let passed = revocation_check(&active);
    assert!(passed.passed);
    assert_eq!(passed.status_override, None);
    assert_eq!(passed.message, None);

    let failed = revocation_check(&revoked);
    assert!(!failed.passed);
    assert_eq!(failed.status_override, None);
    assert_eq!(failed.message, Some("Certificate is revoked"));

    let in_time = expiration_check(&active, 10);
    assert!(in_time.passed);
    assert_eq!(in_time.status_override, None);
    assert_eq!(in_time.message, None);

    let late = expiration_check(&active, 11);
    assert!(!late.passed);
    assert_eq!(late.status_override, Some(CertificateStatus::Expired));
    assert_eq!(late.message, Some("Certificate has expired"));

    let trusted = issuer_check(true);
    assert!(trusted.passed);
    assert_eq!(trusted.status_override, None);
    assert_eq!(trusted.message, None);

    let untrusted = issuer_check(false);
    assert!(!untrusted.passed);
    assert_eq!(untrusted.status_override, None);
    assert_eq!(untrusted.message, Some("Issuer is no longer authorized"));
}

#[test]
fn apply_check_folds_one_step() {
    let start = result(true, CertificateStatus::Active, "Valid", 9);
    let pass = CheckOutcome { passed: true, status_override: None, message: None };
    assert_eq!(apply_check(start, pass), result(true, CertificateStatus::Active, "Valid", 9));

    let start = result(true, CertificateStatus::Active, "Valid", 9);
    let fail = CheckOutcome {
        passed: false,
        status_override: Some(CertificateStatus::Expired),
        message: Some("late"),
    };
    assert_eq!(apply_check(start, fail), result(false, CertificateStatus::Expired, "late", 9));

    let invalid = result(false, CertificateStatus::Revoked, "Certificate is revoked", 9);
    assert_eq!(
        apply_check(invalid, pass),
        result(false, CertificateStatus::Revoked, "Certificate is revoked", 9)
    );
}

#[test]
fn run_checks_last_failure_names_the_message() {
    let start = result(true, CertificateStatus::Active, "Valid", 1);
    assert_eq!(run_checks(start, &vec![]), result(true, CertificateStatus::Active, "Valid", 1));

    let start = result(true, CertificateStatus::Active, "Valid", 1);
    let checks = vec![
        CheckOutcome { passed: false, status_override: None, message: Some("one") },
        CheckOutcome {
            passed: false,
            status_override: Some(CertificateStatus::Expired),
            message: Some("two"),
        },
        CheckOutcome { passed: true, status_override: None, message: None },
    ];
    assert_eq!(run_checks(start, &checks), result(false, CertificateStatus::Expired, "two", 1));
}

#[test]
fn verify_missing_id_reports_sentinel_and_records_nothing() {
    let mut store = Store::new();
    let outcome =
        CertificateContract::verify_certificate(&mut store, text("nope"), text("v1"), 77, true);
    assert_eq!(
        outcome,
        VerificationOutcome {
            result: result(false, CertificateStatus::Revoked, "Certificate not found", 77),
            event: None,
        }
    );
    assert!(CertificateContract::get_verification_history(&store, &text("nope")).is_empty());
    assert!(store.get_history(&text("nope")).is_none());
    assert!(store.get_certificate(&text("nope")).is_none());
}

#[test]
fn verify_active_certificate_is_valid_and_announced() {
    let mut store = store_with("c1", 0);
    let outcome =
        CertificateContract::verify_certificate(&mut store, text("c1"), text("v1"), 20, true);
    let expected = result(true, CertificateStatus::Active, "Valid", 20);
    assert_eq!(outcome.result, expected);
    assert_eq!(
        outcome.event,
        Some(CertificateVerifiedEvent { id: text("c1"), verifier: text("v1"), result: expected })
    );
}

#[test]
fn verify_at_expiry_time_is_still_valid() {
    let mut store = store_with("c1", 1_000);
    let at = CertificateContract::verify_certificate(&mut store, text("c1"), text("v"), 1_000, true);
    assert_eq!(at.result, result(true, CertificateStatus::Active, "Valid", 1_000));
    let after =
        CertificateContract::verify_certificate(&mut store, text("c1"), text("v"), 1_001, true);
    assert_eq!(
        after.result,
        result(false, CertificateStatus::Expired, "Certificate has expired", 1_001)
    );
}

#[test]
fn verify_does_not_write_expiry_back() {
    let mut store = store_with("c1", 10);
    let before = CertificateContract::get_certificate(&store, &text("c1")).unwrap();
    let outcome =
        CertificateContract::verify_certificate(&mut store, text("c1"), text("v"), 11, true);
    assert_eq!(outcome.result.status, CertificateStatus::Expired);
    let after = CertificateContract::get_certificate(&store, &text("c1")).unwrap();
    assert_eq!(after, before);
    assert_eq!(after.status, CertificateStatus::Active);
    assert_eq!(CertificateContract::is_revoked(&store, &text("c1")), Ok(false));
}

#[test]
fn verify_revoked_certificate() {
    let mut store = store_with("c1", 0);
    CertificateContract::revoke_certificate(&mut store, &text("c1"), text("r"), 15).unwrap();
    let outcome =
        CertificateContract::verify_certificate(&mut store, text("c1"), text("v"), 20, true);
    assert_eq!(
        outcome.result,
        result(false, CertificateStatus::Revoked, "Certificate is revoked", 20)
    );
}

#[test]
fn verify_revoked_and_expired_certificate_reports_expired() {
    let mut store = store_with("c1", 18);
    CertificateContract::revoke_certificate(&mut store, &text("c1"), text("r"), 15).unwrap();
    let outcome =
        CertificateContract::verify_certificate(&mut store, text("c1"), text("v"), 20, true);
    assert_eq!(
        outcome.result,
        result(false, CertificateStatus::Expired, "Certificate has expired", 20)
    );
    assert_eq!(CertificateContract::is_revoked(&store, &text("c1")), Ok(true));
}

#[test]
fn verify_with_unauthorized_issuer() {
    let mut store = store_with("c1", 0);
    let outcome =
        CertificateContract::verify_certificate(&mut store, text("c1"), text("v"), 20, false);
    assert_eq!(
        outcome.result,
        result(false, CertificateStatus::Active, "Issuer is no longer authorized", 20)
    );
    assert!(outcome.event.is_some());
}

#[test]
fn history_is_empty_before_any_verification() {
    let store = store_with("c1", 0);
    assert_eq!(
        CertificateContract::get_verification_history(&store, &text("c1")),
        Vec::<VerificationResult>::new()
    );
    let empty = Store::new();
    assert!(CertificateContract::get_verification_history(&empty, &text("c1")).is_empty());
}

#[test]
fn each_verify_appends_one_entry_in_call_order() {
    let mut store = store_with("c1", 100);
    let mut expected: Vec<VerificationResult> = Vec::new();
    for (now, authorized) in [(50u64, true), (60, false), (100, true), (101, true), (102, false)] {
        let outcome = CertificateContract::verify_certificate(
            &mut store,
            text("c1"),
            text("v"),
            now,
            authorized,
        );
        expected.push(outcome.result);
        let history = CertificateContract::get_verification_history(&store, &text("c1"));
        assert_eq!(history.len(), expected.len());
        assert_eq!(history, expected);
    }
    assert_eq!(expected[0], result(true, CertificateStatus::Active, "Valid", 50));
    assert_eq!(
        expected[1],
        result(false, CertificateStatus::Active, "Issuer is no longer authorized", 60)
    );
    assert_eq!(expected[2], result(true, CertificateStatus::Active, "Valid", 100));
    assert_eq!(
        expected[3],
        result(false, CertificateStatus::Expired, "Certificate has expired", 101)
    );
    assert_eq!(
        expected[4],
        result(false, CertificateStatus::Expired, "Issuer is no longer authorized", 102)
    );
}

#[test]
fn histories_are_kept_per_certificate() {
    let mut store = store_with("a", 0);
    CertificateContract::issue_certificate(
        &mut store,
        text("b"),
        text("issuer"),
        text("recipient"),
        certificate(CertificateStatus::Active, 0).metadata,
        10,
    )
    .unwrap();
    CertificateContract::verify_certificate(&mut store, text("a"), text("v"), 1, true);
    CertificateContract::verify_certificate(&mut store, text("b"), text("v"), 2, true);
    CertificateContract::verify_certificate(&mut store, text("a"), text("v"), 3, true);
    let a = CertificateContract::get_verification_history(&store, &text("a"));
    let b = CertificateContract::get_verification_history(&store, &text("b"));
    assert_eq!(a.iter().map(|r| r.verified_at).collect::<Vec<u64>>(), vec![1, 3]);
    assert_eq!(b.iter().map(|r| r.verified_at).collect::<Vec<u64>>(), vec![2]);
}

#[test]
fn end_to_end_issue_verify_revoke_verify() {
    let mut store = Store::new();
    CertificateContract::issue_certificate(
        &mut store,
        text("c1"),
        text("issuer"),
        text("recipient"),
        certificate(CertificateStatus::Active, 0).metadata,
        1,
    )
    .unwrap();

    let first =
        CertificateContract::verify_certificate(&mut store, text("c1"), text("v1"), 2, true);
    assert_eq!(first.result.is_valid, true);
    assert_eq!(first.result.status, CertificateStatus::Active);
    assert_eq!(CertificateContract::get_verification_history(&store, &text("c1")).len(), 1);

    CertificateContract::revoke_certificate(&mut store, &text("c1"), text("policy violation"), 3)
        .unwrap();

    let second =
        CertificateContract::verify_certificate(&mut store, text("c1"), text("v1"), 4, true);
    assert_eq!(second.result.is_valid, false);
    assert_eq!(second.result.status, CertificateStatus::Revoked);
    assert_eq!(second.result.message, "Certificate is revoked");
    let history = CertificateContract::get_verification_history(&store, &text("c1"));
    assert_eq!(history.len(), 2);
    assert_eq!(history[0], first.result);
    assert_eq!(history[1], second.result);
    assert!(history[0].is_valid);
}

#[test]
fn decision_does_not_depend_on_recorded_history() {
    let mut fresh = store_with("c1", 0);
    let mut used = store_with("c1", 0);
    used.put_history(
        text("c1"),
        vec![
            result(false, CertificateStatus::Revoked, "Certificate is revoked", 1),
            result(false, CertificateStatus::Expired, "Certificate has expired", 2),
        ],
    );
    let a = CertificateContract::verify_certificate(&mut fresh, text("c1"), text("v"), 30, true);
    let b = CertificateContract::verify_certificate(&mut used, text("c1"), text("v"), 30, true);
    assert_eq!(a, b);
    assert_eq!(a.result, result(true, CertificateStatus::Active, "Valid", 30));
    assert_eq!(CertificateContract::get_verification_history(&fresh, &text("c1")).len(), 1);
    let history = CertificateContract::get_verification_history(&used, &text("c1"));
    assert_eq!(history.len(), 3);
    assert_eq!(history[0].verified_at, 1);
    assert_eq!(history[1].verified_at, 2);
    assert_eq!(history[2], a.result);
}

#[test]
fn revocation_survives_later_operations() {
    let mut store = store_with("c1", 0);
    CertificateContract::revoke_certificate(&mut store, &text("c1"), text("r"), 15).unwrap();
    let revoked = CertificateContract::get_certificate(&store, &text("c1")).unwrap();

    CertificateContract::issue_certificate(
        &mut store,
        text("c2"),
        text("issuer"),
        text("recipient"),
        certificate(CertificateStatus::Active, 0).metadata,
        16,
    )
    .unwrap();
    CertificateContract::verify_certificate(&mut store, text("c1"), text("v"), 17, true);
    CertificateContract::verify_certificate(&mut store, text("c2"), text("v"), 18, true);
    CertificateContract::revoke_certificate(&mut store, &text("c2"), text("other"), 19).unwrap();

    assert_eq!(CertificateContract::get_certificate(&store, &text("c1")), Ok(revoked));
    assert_eq!(CertificateContract::is_revoked(&store, &text("c1")), Ok(true));
}

#[test]
fn revoking_keeps_the_history() {
    let mut store = store_with("c1", 0);
    let first = CertificateContract::verify_certificate(&mut store, text("c1"), text("v"), 11, true);
    CertificateContract::revoke_certificate(&mut store, &text("c1"), text("r"), 12).unwrap();
    let history = CertificateContract::get_verification_history(&store, &text("c1"));
    assert_eq!(history, vec![first.result]);
    assert!(history[0].is_valid);
}
