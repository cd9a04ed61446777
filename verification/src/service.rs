use vstd::prelude::*;

use crate::text::{contains_text, has_infix, text};

verus! {

/// Settings of the webhook intake.
pub struct WebhookConfig {
    pub secret_key: String,
    pub max_concurrent_jobs: usize,
    pub job_queue_buffer: usize,
}

/// Kinds of webhook events the processor handles.
#[derive(Debug, Clone, Copy, PartialEq, Eq)]
pub enum WebhookEventType {
    CultTokenCreated,
    CultTokenBuy,
}

/// Acknowledgement sent for a received webhook.
pub struct WebhookResponse {
    pub status: String,
    pub event_id: String,
}

/// A status code with a body text.
pub struct HttpReply {
    pub status: u16,
    pub body: String,
}

/// The webhook settings of the server: at most 100 events processed at
/// once, room for 10 000 queued events.
pub fn webhook_config(secret_key: String) -> (r: WebhookConfig)
    ensures
        r.secret_key@ == secret_key@,
        r.max_concurrent_jobs == 100,
        r.job_queue_buffer == 10_000,
{
    WebhookConfig { secret_key, max_concurrent_jobs: 100, job_queue_buffer: 10_000 }
}

/// The address the server binds to: the configured one, or `127.0.0.1:8080`.
pub fn server_address(configured: Option<String>) -> (r: String)
    ensures
        configured is Some ==> r@ == configured->Some_0@,
        configured is None ==> r@ == "127.0.0.1:8080"@,
{
    match configured {
        Some(a) => a,
        None => text("127.0.0.1:8080"),
    }
}

/// The answer to a webhook: 202 with status `event_queued` when the event
/// entered the queue, 503 with `queue_full` when it did not.
pub fn webhook_ack(event_id: String, queued: bool) -> (r: (u16, WebhookResponse))
    ensures
        r.1.event_id@ == event_id@,
        queued ==> r.0 == 202 && r.1.status@ == "event_queued"@,
        !queued ==> r.0 == 503 && r.1.status@ == "queue_full"@,
{
    if queued {
        (202, WebhookResponse { status: text("event_queued"), event_id })
    } else {
        (503, WebhookResponse { status: text("queue_full"), event_id })
    }
}

/// The characters with Unicode's `White_Space` property, those that
/// `char::is_whitespace` and `str::trim` treat as white space.
pub open spec fn is_white_space(c: char) -> bool {
    ||| '\u{9}' <= c <= '\u{d}'
    ||| c == ' '
    ||| c == '\u{85}'
    ||| c == '\u{a0}'
    ||| c == '\u{1680}'
    ||| '\u{2000}' <= c <= '\u{200a}'
    ||| c == '\u{2028}'
    ||| c == '\u{2029}'
    ||| c == '\u{202f}'
    ||| c == '\u{205f}'
    ||| c == '\u{3000}'
}

fn white_space(c: char) -> (r: bool)
    ensures
        r == is_white_space(c),
{
    ('\u{9}' <= c && c <= '\u{d}') || c == ' ' || c == '\u{85}' || c == '\u{a0}' || c
        == '\u{1680}' || ('\u{2000}' <= c && c <= '\u{200a}') || c == '\u{2028}' || c
        == '\u{2029}' || c == '\u{202f}' || c == '\u{205f}' || c == '\u{3000}'
}

/// `s.trim().is_empty()`: the text is all white space.
pub fn is_blank(s: &str) -> (r: bool)
    ensures
        r == forall|i: int| 0 <= i < s@.len() ==> is_white_space(#[trigger] s@[i]),
{
    let cs = crate::text::chars_of(s);
    let mut i: usize = 0;
    while i < cs.len()
        invariant
            cs@ == s@,
            i <= cs.len(),
            forall|j: int| 0 <= j < i ==> is_white_space(#[trigger] s@[j]),
        decreases cs.len() - i,
    {
        if !white_space(cs[i]) {
            return false;
        }
        i = i + 1;
    }
    true
}

/// The Alchemy key the community refresh needs: a missing or blank key is refused.
pub fn alchemy_api_key(configured: Option<String>) -> (r: Result<String, String>)
    ensures
        configured is None ==> r is Err && r->Err_0@
            == "Failed to retrieve Alchemy API key from environment"@,
        configured is Some ==> ({
            let k = configured->Some_0;
            &&& (forall|i: int| 0 <= i < k@.len() ==> is_white_space(#[trigger] k@[i])) ==> r is Err
                && r->Err_0@ == "Alchemy API key is empty"@
            &&& !(forall|i: int| 0 <= i < k@.len() ==> is_white_space(#[trigger] k@[i])) ==> r is Ok
                && r->Ok_0@ == k@
        }),
{
    match configured {
        None => Err(text("Failed to retrieve Alchemy API key from environment")),
        Some(k) => {
            if is_blank(k.as_str()) {
                Err(text("Alchemy API key is empty"))
            } else {
                Ok(k)
            }
        },
    }
}

/// `Execution failed: ` followed by the message.
pub open spec fn execution_failed(message: Seq<char>) -> Seq<char> {
    "Execution failed: "@ + message
}

fn execution_failed_reply(message: &str) -> (r: HttpReply)
    ensures
        r.status == 500,
        r.body@ == execution_failed(message@),
{
    let mut body = text("Execution failed: ");
    body.append(message);
    HttpReply { status: 500, body }
}

/// The reply to a failed community refresh, chosen by what the message
/// mentions: the API key (401), the network (503), the database (500), or
/// else 500 with the message.
pub fn community_airdrops_failure(message: &str) -> (r: HttpReply)
    ensures
        has_infix(message@, "API key"@) ==> r.status == 401 && r.body@
            == "Authentication failed: Invalid API key"@,
        !has_infix(message@, "API key"@) && has_infix(message@, "network"@) ==> r.status == 503
            && r.body@ == "Network connectivity issue"@,
        !has_infix(message@, "API key"@) && !has_infix(message@, "network"@) && has_infix(
            message@,
            "database"@,
        ) ==> r.status == 500 && r.body@ == "Database operation failed"@,
        !has_infix(message@, "API key"@) && !has_infix(message@, "network"@) && !has_infix(
            message@,
            "database"@,
        ) ==> r.status == 500 && r.body@ == execution_failed(message@),
{
    if contains_text(message, "API key") {
        HttpReply { status: 401, body: text("Authentication failed: Invalid API key") }
    } else if contains_text(message, "network") {
        HttpReply { status: 503, body: text("Network connectivity issue") }
    } else if contains_text(message, "database") {
        HttpReply { status: 500, body: text("Database operation failed") }
    } else {
        execution_failed_reply(message)
    }
}

/// The reply to a failed watchlist insert: 409 when the database reports a
/// duplicate key (the token is already listed), else 500 with the error.
pub fn watchlist_insert_failure(database_message: Option<&str>, error: &str) -> (r: HttpReply)
    ensures
        (database_message matches Some(m) && has_infix(m@, "duplicate key"@)) ==> r.status == 409
            && r.body@ == "Token already in watchlist"@,
        !(database_message matches Some(m) && has_infix(m@, "duplicate key"@)) ==> r.status == 500
            && r.body@ == "Database error: "@ + error@,
{
    if let Some(m) = database_message {
        if contains_text(m, "duplicate key") {
            return HttpReply { status: 409, body: text("Token already in watchlist") };
        }
    }
    let mut body = text("Database error: ");
    body.append(error);
    HttpReply { status: 500, body }
}

/// The reply to a failed diamond-hand run: a database connection problem
/// (503), no eligible accounts (400), or else 500 with the message.
pub fn diamond_hands_failure(message: &str) -> (r: HttpReply)
    ensures
        has_infix(message@, "database connection"@) ==> r.status == 503 && r.body@
            == "Database connection error"@,
        !has_infix(message@, "database connection"@) && has_infix(
            message@,
            "No eligible accounts"@,
        ) ==> r.status == 400 && r.body@ == "No eligible accounts found"@,
        !has_infix(message@, "database connection"@) && !has_infix(
            message@,
            "No eligible accounts"@,
        ) ==> r.status == 500 && r.body@ == execution_failed(message@),
{
    if contains_text(message, "database connection") {
        HttpReply { status: 503, body: text("Database connection error") }
    } else if contains_text(message, "No eligible accounts") {
        HttpReply { status: 400, body: text("No eligible accounts found") }
    } else {
        execution_failed_reply(message)
    }
}

} // verus!
