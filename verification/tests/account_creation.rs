use cult_backend::account::{
    account_creation_step, start_account_creation, AccountCreation, AccountReply, CreateAccountRequest,
    CreationAction, CreationEvent, CreationPhase,
};

fn request(referral: Option<&str>) -> CreateAccountRequest {
    CreateAccountRequest {
        user_id: "0xuser".to_string(),
        referral_code: referral.map(|s| s.to_string()),
        twitter: Some("@tw".to_string()),
        discord: None,
    }
}

fn is_code(c: &str) -> bool {
    c.chars().count() == 8 && c.chars().all(|ch| "ABCDEFGHJKLMNPQRSTUVWXYZ23456789".contains(ch))
}

fn opened(referral: Option<&str>) -> AccountCreation {
    let s = start_account_creation(request(referral));
    assert_eq!(s.phase, CreationPhase::Beginning);
    let (s, a) = account_creation_step(s, CreationEvent::TransactionBegun(Ok(())));
    assert_eq!(s.phase, CreationPhase::CheckingAccount);
    match a {
        CreationAction::LookUpAccount(u) => assert_eq!(u, "0xuser"),
        _ => panic!("expected an account lookup"),
    }
    s
}

fn expect_plain(a: CreationAction, status: u16, text: &str) {
    match a {
        CreationAction::Reply(AccountReply::PlainText { status: s, text: t }) => {
            assert_eq!(s, status);
            assert_eq!(t, text);
        }
        _ => panic!("expected a plain reply"),
    }
}

fn expect_json(a: CreationAction, status: u16, text: &str) {
    match a {
        CreationAction::Reply(AccountReply::JsonText { status: s, text: t }) => {
            assert_eq!(s, status);
            assert_eq!(t, text);
        }
        _ => panic!("expected a JSON reply"),
    }
}

#[test]
fn transaction_failure_is_reported() {
    let s = start_account_creation(request(None));
    let (s, a) = account_creation_step(s, CreationEvent::TransactionBegun(Err("pool closed".to_string())));
    assert_eq!(s.phase, CreationPhase::Finished);
    expect_plain(a, 500, "Failed to start transaction: pool closed");
}

#[test]
fn existing_account_is_a_conflict() {
    let s = opened(None);
    let (s, a) = account_creation_step(s, CreationEvent::AccountFound(Ok(true)));
    assert_eq!(s.phase, CreationPhase::Finished);
    expect_json(a, 409, "Account already exists");
}

#[test]
fn account_lookup_error_is_a_database_error() {
    let s = opened(None);
    let (_, a) = account_creation_step(s, CreationEvent::AccountFound(Err("timeout".to_string())));
    expect_json(a, 500, "Database error: timeout");
}

#[test]
fn unknown_referral_code_is_refused() {
    let s = opened(Some("ABCDEFGH"));
    let (s, a) = account_creation_step(s, CreationEvent::AccountFound(Ok(false)));
    assert_eq!(s.phase, CreationPhase::CheckingReferral);
    match a {
        CreationAction::LookUpReferralCode(c) => assert_eq!(c, "ABCDEFGH"),
        _ => panic!("expected a referral lookup"),
    }
    let (s, a) = account_creation_step(s, CreationEvent::ReferrerFound(Ok(None)));
    assert_eq!(s.phase, CreationPhase::Finished);
    expect_json(a, 400, "Invalid referral code: Invalid referral code");
}

#[test]
fn referral_lookup_error_is_refused_with_the_error() {
    let s = opened(Some("ABCDEFGH"));
    let (s, _) = account_creation_step(s, CreationEvent::AccountFound(Ok(false)));
    let (_, a) = account_creation_step(s, CreationEvent::ReferrerFound(Err("broken pipe".to_string())));
    expect_json(a, 400, "Invalid referral code: broken pipe");
}

#[test]
fn referred_account_is_created_and_counted() {
    let s = opened(Some("ABCDEFGH"));
    let (s, _) = account_creation_step(s, CreationEvent::AccountFound(Ok(false)));
    let (s, a) = account_creation_step(s, CreationEvent::ReferrerFound(Ok(Some("0xref".to_string()))));
    assert_eq!(s.phase, CreationPhase::CheckingCode);
    assert_eq!(s.referrer_id, Some("0xref".to_string()));
    let first = match a {
        CreationAction::LookUpCode(c) => c,
        _ => panic!("expected a code lookup"),
    };
    assert!(is_code(&first));
    // the first code is taken: another is drawn
    let (s, a) = account_creation_step(s, CreationEvent::CodeTaken(true));
    let code = match a {
        CreationAction::LookUpCode(c) => c,
        _ => panic!("expected a code lookup"),
    };
    assert!(is_code(&code));
    assert_eq!(s.new_code, code);
    let (s, a) = account_creation_step(s, CreationEvent::CodeTaken(false));
    assert_eq!(s.phase, CreationPhase::Inserting);
    match a {
        CreationAction::InsertAccount { user_id, referral_code, referrer_id, twitter, discord } => {
            assert_eq!(user_id, "0xuser");
            assert_eq!(referral_code, code);
            assert_eq!(referrer_id, Some("0xref".to_string()));
            assert_eq!(twitter, Some("@tw".to_string()));
            assert_eq!(discord, None);
        }
        _ => panic!("expected an insert"),
    }
    let (s, a) = account_creation_step(s, CreationEvent::AccountInserted(Ok(())));
    assert_eq!(s.phase, CreationPhase::CountingReferral);
    match a {
        CreationAction::CountReferral(r) => assert_eq!(r, "0xref"),
        _ => panic!("expected a referral count"),
    }
    let (s, a) = account_creation_step(s, CreationEvent::ReferralCounted(Ok(())));
    assert_eq!(s.phase, CreationPhase::Committing);
    assert!(matches!(a, CreationAction::Commit));
    let (s, a) = account_creation_step(s, CreationEvent::Committed(Ok(())));
    assert_eq!(s.phase, CreationPhase::Finished);
    match a {
        CreationAction::Reply(AccountReply::Created { user_id, referral_code }) => {
            assert_eq!(user_id, "0xuser");
            assert_eq!(referral_code, code);
        }
        _ => panic!("expected the created reply"),
    }
}

#[test]
fn unreferred_account_skips_the_count() {
    let s = opened(None);
    let (s, a) = account_creation_step(s, CreationEvent::AccountFound(Ok(false)));
    assert_eq!(s.phase, CreationPhase::CheckingCode);
    assert_eq!(s.referrer_id, None);
    assert!(matches!(a, CreationAction::LookUpCode(_)));
    let (s, _) = account_creation_step(s, CreationEvent::CodeTaken(false));
    let (s, a) = account_creation_step(s, CreationEvent::AccountInserted(Ok(())));
    assert_eq!(s.phase, CreationPhase::Committing);
    assert!(matches!(a, CreationAction::Commit));
}

#[test]
fn later_failures_are_reported() {
    let s = opened(None);
    let (s, _) = account_creation_step(s, CreationEvent::AccountFound(Ok(false)));
    let (s, _) = account_creation_step(s, CreationEvent::CodeTaken(false));
    let (_, a) = account_creation_step(s, CreationEvent::AccountInserted(Err("duplicate key".to_string())));
    expect_plain(a, 500, "Failed to create account: duplicate key");

    let s = AccountCreation {
        request: request(Some("ABCDEFGH")),
        phase: CreationPhase::CountingReferral,
        referrer_id: Some("0xref".to_string()),
        new_code: "ABCDEFGH".to_string(),
    };
    let (_, a) = account_creation_step(s, CreationEvent::ReferralCounted(Err("lock".to_string())));
    expect_plain(a, 500, "Failed to update referrals: lock");

    let s = AccountCreation {
        request: request(None),
        phase: CreationPhase::Committing,
        referrer_id: None,
        new_code: "ABCDEFGH".to_string(),
    };
    let (s, a) = account_creation_step(s, CreationEvent::Committed(Err("serialization".to_string())));
    assert_eq!(s.phase, CreationPhase::Finished);
    expect_plain(a, 500, "Transaction commit failed: serialization");
}
