//! Decisions of the webhook endpoint: which event kinds are served,
//! and which repository a push event asks to deploy.  Receiving the
//! request, recording the payload and answering over HTTP stay with
//! the surrounding program.

use vstd::prelude::*;

use crate::text::str_eq;

verus! {

/// What `parse_push_event` extracts from a push-event payload: the
/// repository's full `owner/name` identifier, or nothing when the text
/// is not a JSON object carrying a `repository` object with a string
/// `full_name`.
pub uninterp spec fn push_event_repo_of(s: Seq<char>) -> Option<Seq<char>>;

/// Relies on serde_json::from_str: parses the text as JSON and reads
/// the string `full_name` of the top-level `repository` object; a
/// syntax error or a missing or mistyped field yields `None`.  The
/// result depends on the text alone.
#[verifier::external_body]
fn parse_push_event(s: &str) -> (r: Option<String>)
    ensures
        match r {
            Some(n) => push_event_repo_of(s@) == Some(n@),
            None => push_event_repo_of(s@) is None,
        },
{
    let v: serde_json::Value = match serde_json::from_str(s) { Ok(x) => x, Err(_) => return None };
    match v.get("repository").and_then(|rep| rep.get("full_name")) {
        Some(serde_json::Value::String(x)) => Some(x.clone()),
        _ => None,
    }
}

/// How the webhook endpoint answers one delivered event.
#[derive(Debug, PartialEq, Eq)]
pub enum WebhookAction {
    /// A ping event is answered in kind.
    Pong,
    /// A push event deploys the repository the payload names.
    Deploy(String),
    /// A push event whose payload names no repository.
    Invalid,
    /// Any other event kind is not served.
    Unknown,
}

/// Decides the webhook endpoint's action from the event name and the
/// raw request body.
pub fn webhook_plan(event: &str, body: &str) -> (r: WebhookAction)
    ensures
        event@ == "ping"@ ==> r == WebhookAction::Pong,
        event@ == "push"@ ==> match push_event_repo_of(body@) {
            Some(n) => r matches WebhookAction::Deploy(x) && x@ == n,
            None => r == WebhookAction::Invalid,
        },
        event@ != "ping"@ && event@ != "push"@ ==> r == WebhookAction::Unknown,
{
    proof {
        reveal_strlit("ping");
        reveal_strlit("push");
        assert("ping"@[1] == 'i' && "push"@[1] == 'u');
        assert("ping"@ != "push"@);
    }
    if str_eq(event, "ping") {
        WebhookAction::Pong
    } else if str_eq(event, "push") {
        match parse_push_event(body) {
            Some(n) => WebhookAction::Deploy(n),
            None => WebhookAction::Invalid,
        }
    } else {
        WebhookAction::Unknown
    }
}

} // verus!
