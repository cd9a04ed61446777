use vstd::prelude::*;

use crate::referral::{generate_referral_code, is_referral_code};
use crate::text::text;

verus! {

/// A request to open an account.
pub struct CreateAccountRequest {
    pub user_id: String,
    pub referral_code: Option<String>,
    pub twitter: Option<String>,
    pub discord: Option<String>,
}

/// Where an account creation stands: each phase waits for the outcome of
/// one database step.
#[derive(Debug, Clone, Copy, PartialEq, Eq)]
pub enum CreationPhase {
    Beginning,
    CheckingAccount,
    CheckingReferral,
    CheckingCode,
    Inserting,
    CountingReferral,
    Committing,
    Finished,
}

/// An account creation in progress: the request, the phase, the account
/// that referred the user (once the referral code is resolved) and the
/// candidate referral code of the new account.
pub struct AccountCreation {
    pub request: CreateAccountRequest,
    pub phase: CreationPhase,
    pub referrer_id: Option<String>,
    pub new_code: String,
}

/// The outcome of the database step the creation waits for.
pub enum CreationEvent {
    /// The transaction was opened, or why not.
    TransactionBegun(Result<(), String>),
    /// Whether an account with the user id exists, or the database error.
    AccountFound(Result<bool, String>),
    /// The account holding the given referral code, or the lookup error.
    ReferrerFound(Result<Option<String>, String>),
    /// Whether the candidate code already belongs to an account (a failed
    /// lookup counts as free).
    CodeTaken(bool),
    AccountInserted(Result<(), String>),
    ReferralCounted(Result<(), String>),
    Committed(Result<(), String>),
}

/// The answer sent to the client.
pub enum AccountReply {
    /// 201 with the user id and the new referral code.
    Created { user_id: String, referral_code: String },
    /// The status with the text as a JSON string.
    JsonText { status: u16, text: String },
    /// The status with the text as the plain body.
    PlainText { status: u16, text: String },
}

/// What the handler does next.
pub enum CreationAction {
    LookUpAccount(String),
    LookUpReferralCode(String),
    LookUpCode(String),
    InsertAccount {
        user_id: String,
        referral_code: String,
        referrer_id: Option<String>,
        twitter: Option<String>,
        discord: Option<String>,
    },
    /// One more referral for this account.
    CountReferral(String),
    Commit,
    /// Answer and stop; an open transaction is dropped, which rolls it back.
    Reply(AccountReply),
}

/// The event is the outcome of the step the phase waits for.
pub open spec fn fits(phase: CreationPhase, event: CreationEvent) -> bool {
    match event {
        CreationEvent::TransactionBegun(_) => phase == CreationPhase::Beginning,
        CreationEvent::AccountFound(_) => phase == CreationPhase::CheckingAccount,
        CreationEvent::ReferrerFound(_) => phase == CreationPhase::CheckingReferral,
        CreationEvent::CodeTaken(_) => phase == CreationPhase::CheckingCode,
        CreationEvent::AccountInserted(_) => phase == CreationPhase::Inserting,
        CreationEvent::ReferralCounted(_) => phase == CreationPhase::CountingReferral,
        CreationEvent::Committed(_) => phase == CreationPhase::Committing,
    }
}

/// The action answers with `text` as a plain body under `status`.
pub open spec fn replies_plain(a: CreationAction, status: u16, text: Seq<char>) -> bool {
    a matches CreationAction::Reply(AccountReply::PlainText { status: s, text: t }) && s == status
        && t@ == text
}

/// The action answers with `text` as a JSON string under `status`.
pub open spec fn replies_json(a: CreationAction, status: u16, text: Seq<char>) -> bool {
    a matches CreationAction::Reply(AccountReply::JsonText { status: s, text: t }) && s == status
        && t@ == text
}

/// The action looks up a freshly drawn referral code, which the next state
/// holds as its candidate.
pub open spec fn draws_code(next: AccountCreation, a: CreationAction) -> bool {
    &&& next.phase == CreationPhase::CheckingCode
    &&& is_referral_code(next.new_code@)
    &&& a matches CreationAction::LookUpCode(c) && c@ == next.new_code@
}

/// What every state of a creation keeps: a referral code is only looked up
/// and a referrer only known when the request carries a code, the referral
/// count is only raised for a referrer, and from the first draw on the
/// candidate is a referral code.
pub open spec fn creation_consistent(s: AccountCreation) -> bool {
    &&& s.phase == CreationPhase::CheckingReferral ==> s.request.referral_code is Some
    &&& s.referrer_id is Some ==> s.request.referral_code is Some
    &&& s.phase == CreationPhase::CountingReferral ==> s.referrer_id is Some
    &&& (s.phase == CreationPhase::CheckingCode || s.phase == CreationPhase::Inserting || s.phase
        == CreationPhase::CountingReferral || s.phase == CreationPhase::Committing)
        ==> is_referral_code(s.new_code@)
}

/// Starts a creation: the transaction is opened first.
pub fn start_account_creation(request: CreateAccountRequest) -> (r: AccountCreation)
    ensures
        r.request == request,
        r.phase == CreationPhase::Beginning,
        r.referrer_id is None,
        creation_consistent(r),
{
    AccountCreation { request, phase: CreationPhase::Beginning, referrer_id: None, new_code: String::new() }
}

fn finish(state: AccountCreation, reply: AccountReply) -> (r: (AccountCreation, CreationAction))
    ensures
        r.0.request == state.request,
        r.0.referrer_id == state.referrer_id,
        r.0.new_code == state.new_code,
        r.0.phase == CreationPhase::Finished,
        r.1 == CreationAction::Reply(reply),
{
    (AccountCreation { phase: CreationPhase::Finished, ..state }, CreationAction::Reply(reply))
}

fn prefixed(prefix: &str, detail: &String) -> (r: String)
    ensures
        r@ == prefix@ + detail@,
{
    let mut s = text(prefix);
    s.append(detail.as_str());
    s
}

fn draw_code(state: AccountCreation) -> (r: (AccountCreation, CreationAction))
    ensures
        r.0.request == state.request,
        r.0.referrer_id == state.referrer_id,
        draws_code(r.0, r.1),
{
    let code = generate_referral_code();
    let look = code.clone();
    (AccountCreation { phase: CreationPhase::CheckingCode, new_code: code, ..state }, CreationAction::LookUpCode(look))
}

/// One step of an account creation: given the outcome the phase waits for,
/// the next state and what to do.
///
/// A failure to open the transaction, an existing account, a referral code
/// that names no account or a failed lookup of it, and a failed insert,
/// referral count or commit each end the creation with their answer. With
/// the account free and the referral code (if any) resolved, referral codes
/// are drawn until one is free; then the account is inserted with it, the
/// referrer's count is raised when there is a referrer, the transaction is
/// committed, and 201 answers with the new code.
pub fn account_creation_step(state: AccountCreation, event: CreationEvent) -> (r: (
    AccountCreation,
    CreationAction,
))
    requires
        fits(state.phase, event),
        creation_consistent(state),
    ensures
        creation_consistent(r.0),
        r.0.request == state.request,
        r.0.phase == CreationPhase::Finished <==> r.1 is Reply,
        // opening the transaction
        event matches CreationEvent::TransactionBegun(Err(e)) ==> replies_plain(
            r.1,
            500,
            "Failed to start transaction: "@ + e@,
        ),
        event matches CreationEvent::TransactionBegun(Ok(_)) ==> r.0.phase
            == CreationPhase::CheckingAccount && r.0.referrer_id == state.referrer_id && (r.1
            matches CreationAction::LookUpAccount(u) && u@ == state.request.user_id@),
        // the user id must be free
        event matches CreationEvent::AccountFound(Ok(true)) ==> replies_json(
            r.1,
            409,
            "Account already exists"@,
        ),
        event matches CreationEvent::AccountFound(Err(e)) ==> replies_json(
            r.1,
            500,
            "Database error: "@ + e@,
        ),
        event matches CreationEvent::AccountFound(Ok(false)) ==> (match state.request.referral_code {
            Some(c) => r.0.phase == CreationPhase::CheckingReferral && r.0.referrer_id
                == state.referrer_id && (r.1 matches CreationAction::LookUpReferralCode(l) && l@
                == c@),
            None => r.0.referrer_id is None && draws_code(r.0, r.1),
        }),
        // the referral code must name an account
        event matches CreationEvent::ReferrerFound(Ok(Some(id))) ==> r.0.referrer_id == Some(id)
            && draws_code(r.0, r.1),
        event matches CreationEvent::ReferrerFound(Ok(None)) ==> replies_json(
            r.1,
            400,
            "Invalid referral code: Invalid referral code"@,
        ),
        event matches CreationEvent::ReferrerFound(Err(e)) ==> replies_json(
            r.1,
            400,
            "Invalid referral code: "@ + e@,
        ),
        // codes are drawn until one is free
        event matches CreationEvent::CodeTaken(true) ==> r.0.referrer_id == state.referrer_id
            && draws_code(r.0, r.1),
        event matches CreationEvent::CodeTaken(false) ==> r.0.phase == CreationPhase::Inserting
            && r.0.referrer_id == state.referrer_id && r.0.new_code == state.new_code && (r.1 matches CreationAction::InsertAccount {
                user_id,
                referral_code,
                referrer_id,
                twitter,
                discord,
            } && user_id@ == state.request.user_id@ && referral_code@ == state.new_code@ && referrer_id
                == state.referrer_id && twitter == state.request.twitter && discord
                == state.request.discord),
        // the insert, the referrer's count and the commit
        event matches CreationEvent::AccountInserted(Err(e)) ==> replies_plain(
            r.1,
            500,
            "Failed to create account: "@ + e@,
        ),
        event matches CreationEvent::AccountInserted(Ok(_)) ==> r.0.new_code == state.new_code
            && (match state.referrer_id {
            Some(id) => r.0.phase == CreationPhase::CountingReferral && (r.1 matches CreationAction::CountReferral(
                c,
            ) && c@ == id@),
            None => r.0.phase == CreationPhase::Committing && r.1 is Commit,
        }),
        event matches CreationEvent::ReferralCounted(Err(e)) ==> replies_plain(
            r.1,
            500,
            "Failed to update referrals: "@ + e@,
        ),
        event matches CreationEvent::ReferralCounted(Ok(_)) ==> r.0.phase == CreationPhase::Committing
            && r.0.new_code == state.new_code && r.1 is Commit,
        event matches CreationEvent::Committed(Err(e)) ==> replies_plain(
            r.1,
            500,
            "Transaction commit failed: "@ + e@,
        ),
        event matches CreationEvent::Committed(Ok(_)) ==> r.1 matches CreationAction::Reply(
            AccountReply::Created { user_id, referral_code },
        ) && user_id@ == state.request.user_id@ && referral_code@ == state.new_code@,
{
    match event {
        CreationEvent::TransactionBegun(Err(e)) => {
            let t = prefixed("Failed to start transaction: ", &e);
            finish(state, AccountReply::PlainText { status: 500, text: t })
        },
        CreationEvent::TransactionBegun(Ok(_)) => {
            let u = state.request.user_id.clone();
            (AccountCreation { phase: CreationPhase::CheckingAccount, ..state }, CreationAction::LookUpAccount(u))
        },
        CreationEvent::AccountFound(Ok(true)) => {
            finish(state, AccountReply::JsonText { status: 409, text: text("Account already exists") })
        },
        CreationEvent::AccountFound(Err(e)) => {
            let t = prefixed("Database error: ", &e);
            finish(state, AccountReply::JsonText { status: 500, text: t })
        },
        CreationEvent::AccountFound(Ok(false)) => {
            match &state.request.referral_code {
                Some(c) => {
                    let l = c.clone();
                    (AccountCreation { phase: CreationPhase::CheckingReferral, ..state }, CreationAction::LookUpReferralCode(l))
                },
                None => draw_code(AccountCreation { referrer_id: None, ..state }),
            }
        },
        CreationEvent::ReferrerFound(Ok(Some(id))) => {
            draw_code(AccountCreation { referrer_id: Some(id), ..state })
        },
        CreationEvent::ReferrerFound(Ok(None)) => {
            let t = text("Invalid referral code: Invalid referral code");
            finish(state, AccountReply::JsonText { status: 400, text: t })
        },
        CreationEvent::ReferrerFound(Err(e)) => {
            let t = prefixed("Invalid referral code: ", &e);
            finish(state, AccountReply::JsonText { status: 400, text: t })
        },
        CreationEvent::CodeTaken(true) => draw_code(state),
        CreationEvent::CodeTaken(false) => {
            let user_id = state.request.user_id.clone();
            let referral_code = state.new_code.clone();
            let referrer_id = state.referrer_id.clone();
            let twitter = state.request.twitter.clone();
            let discord = state.request.discord.clone();
            (
                AccountCreation { phase: CreationPhase::Inserting, ..state },
                CreationAction::InsertAccount { user_id, referral_code, referrer_id, twitter, discord },
            )
        },
        CreationEvent::AccountInserted(Err(e)) => {
            let t = prefixed("Failed to create account: ", &e);
            finish(state, AccountReply::PlainText { status: 500, text: t })
        },
        CreationEvent::AccountInserted(Ok(_)) => {
            match &state.referrer_id {
                Some(id) => {
                    let c = id.clone();
                    (AccountCreation { phase: CreationPhase::CountingReferral, ..state }, CreationAction::CountReferral(c))
                },
                None => (AccountCreation { phase: CreationPhase::Committing, ..state }, CreationAction::Commit),
            }
        },
        CreationEvent::ReferralCounted(Err(e)) => {
            let t = prefixed("Failed to update referrals: ", &e);
            finish(state, AccountReply::PlainText { status: 500, text: t })
        },
        CreationEvent::ReferralCounted(Ok(_)) => {
            (AccountCreation { phase: CreationPhase::Committing, ..state }, CreationAction::Commit)
        },
        CreationEvent::Committed(Err(e)) => {
            let t = prefixed("Transaction commit failed: ", &e);
            finish(state, AccountReply::PlainText { status: 500, text: t })
        },
        CreationEvent::Committed(Ok(_)) => {
            let user_id = state.request.user_id.clone();
            let referral_code = state.new_code.clone();
            finish(state, AccountReply::Created { user_id, referral_code })
        },
    }
}

} // verus!
