//! What the relay does for each request: checks, decides, and says which
//! response to give or which notification to post first.

use vstd::prelude::*;
use crate::event::{
    acknowledgment, is_default_branch, lemma_default_branch_failure, lemma_feature_branch_failure, acknowledgment_text, decide, decision_of, failure_message, failure_text,
    Decision, Payload,
};
use crate::signature::{header_view, secret_view, verification, verify_secret, SignatureError};

verus! {

/// Settings fixed at startup and shared read-only by every request.
pub struct RelayConfig {
    /// Where notifications are posted.
    pub webhook_url: String,
    /// The shared secret of signed requests; `None` turns checking off.
    pub secret: Option<Vec<u8>>,
    /// Whether a request whose signature does not verify is refused.
    pub enforce_signature: bool,
}

/// An HTTP response: a status code and a short text body.
pub struct Response {
    pub status: u16,
    pub body: String,
}

/// What to do next for a request.
pub enum Step {
    /// Answer at once.
    Reply(Response),
    /// Post `message` to `url` as a chat notification, then answer with
    /// `dispatch_response(ack, ..)`.
    Dispatch { url: String, message: String, ack: String },
}

pub enum StepView {
    Reply { status: u16, body: Seq<char> },
    Dispatch { url: Seq<char>, message: Seq<char>, ack: Seq<char> },
}

impl View for Step {
    type V = StepView;

    open spec fn view(&self) -> StepView {
        match self {
            Step::Reply(r) => StepView::Reply { status: r.status, body: r.body@ },
            Step::Dispatch { url, message, ack } => StepView::Dispatch {
                url: url@,
                message: message@,
                ack: ack@,
            },
        }
    }
}

/// The step for a request that has passed (or was let through) the signature
/// check: decode failures are refused, failures that matter are sent, and the
/// rest acknowledged.
pub open spec fn filter_step(url: Seq<char>, payload: Option<Payload>) -> StepView {
    match payload {
        None => StepView::Reply { status: 400, body: "Invalid payload"@ },
        Some(p) => if decision_of(p) == Decision::Send {
            StepView::Dispatch {
                url,
                message: failure_text(p.repository, p.workflow_run->Some_0),
                ack: acknowledgment_text(p),
            }
        } else {
            StepView::Reply { status: 200, body: acknowledgment_text(p) }
        },
    }
}

/// The step for a webhook request: a malformed signature header is refused,
/// a mismatch is refused only where enforced, and the event is filtered.
pub open spec fn webhook_step(
    url: Seq<char>,
    secret: Option<Seq<u8>>,
    enforce: bool,
    body: Seq<u8>,
    header: Option<Seq<char>>,
    payload: Option<Payload>,
) -> StepView {
    match verification(body, secret, header) {
        Err(_) => StepView::Reply { status: 400, body: "Invalid signature"@ },
        Ok(valid) => if !valid && enforce {
            StepView::Reply { status: 403, body: "Signature mismatch"@ }
        } else {
            filter_step(url, payload)
        },
    }
}

/// Handles a request to the webhook: `body` is the raw body, `header` the
/// signature header if any, and `payload` the body decoded as an event, or
/// `None` where it did not decode.
pub fn handle_webhook(cfg: &RelayConfig, body: &[u8], header: Option<&str>, payload: Option<Payload>) -> (r: Step)
    ensures
        r@ == webhook_step(
            cfg.webhook_url@,
            secret_view(cfg.secret),
            cfg.enforce_signature,
            body@,
            header_view(header),
            payload,
        ),
{
    match verify_secret(body, &cfg.secret, header) {
        Err(SignatureError::MalformedHeader) => {
            return Step::Reply(Response { status: 400, body: String::from_str("Invalid signature") });
        },
        Ok(valid) => {
            if !valid && cfg.enforce_signature {
                return Step::Reply(Response { status: 403, body: String::from_str("Signature mismatch") });
            }
        },
    }
    match payload {
        None => Step::Reply(Response { status: 400, body: String::from_str("Invalid payload") }),
        Some(p) => {
            let ack = acknowledgment(&p);
            if decide(&p) == Decision::Send {
                match &p.workflow_run {
                    Some(run) => Step::Dispatch {
                        url: cfg.webhook_url.clone(),
                        message: failure_message(&p.repository, run),
                        ack,
                    },
                    None => Step::Reply(Response { status: 200, body: ack }),
                }
            } else {
                Step::Reply(Response { status: 200, body: ack })
            }
        },
    }
}

/// The response once a notification was posted (`delivered`) or failed to be.
pub fn dispatch_response(ack: String, delivered: bool) -> (r: Response)
    ensures
        delivered ==> r.status == 200 && r.body@ == ack@,
        !delivered ==> r.status == 500 && r.body@ == "Notification failed"@,
{
    if delivered {
        Response { status: 200, body: ack }
    } else {
        Response { status: 500, body: String::from_str("Notification failed") }
    }
}

/// Handles a request to dump its body: whatever the body holds, it is
/// acknowledged alike.
pub fn handle_dump(body: &[u8]) -> (r: Response)
    ensures
        r.status == 200,
        r.body@ == "Ok\n"@,
{
    Response { status: 200, body: String::from_str("Ok\n") }
}

/// Handles a request for a test notification: one fixed message to the
/// configured URL, whatever the request held.
pub fn test_send(cfg: &RelayConfig) -> (r: Step)
    ensures
        r@ == (StepView::Dispatch {
            url: cfg.webhook_url@,
            message: "Test message, please ignore"@,
            ack: "Message sent"@,
        }),
{
    Step::Dispatch {
        url: cfg.webhook_url.clone(),
        message: String::from_str("Test message, please ignore"),
        ack: String::from_str("Message sent"),
    }
}


/// A request whose signature does not match is refused with 403 where
/// signatures are enforced; where they are not, it is filtered just as a
/// request that matched.
pub proof fn lemma_enforcement_toggle(
    url: Seq<char>,
    secret: Option<Seq<u8>>,
    body: Seq<u8>,
    header: Option<Seq<char>>,
    payload: Option<Payload>,
)
    requires
        verification(body, secret, header) == Ok::<bool, SignatureError>(false),
    ensures
        webhook_step(url, secret, true, body, header, payload) == (StepView::Reply {
            status: 403,
            body: "Signature mismatch"@,
        }),
        webhook_step(url, secret, false, body, header, payload) == filter_step(url, payload),
{
}

/// A run that did not succeed, off `main` and `master`, is never posted,
/// whatever the configuration and the signature.
pub proof fn lemma_feature_branch_failure_not_posted(
    url: Seq<char>,
    secret: Option<Seq<u8>>,
    enforce: bool,
    body: Seq<u8>,
    header: Option<Seq<char>>,
    p: Payload,
)
    requires
        p.workflow_run matches Some(run) && run.conclusion matches Some(c) && c@ != "success"@
            && !is_default_branch(run.head_branch@),
    ensures
        !(webhook_step(url, secret, enforce, body, header, Some(p)) is Dispatch),
{
    lemma_feature_branch_failure(p);
}

/// A run that did not succeed on `main` or `master`, in a request that the
/// signature check lets through, is posted to the configured URL with its
/// failure message.
pub proof fn lemma_default_branch_failure_posted(
    url: Seq<char>,
    secret: Option<Seq<u8>>,
    enforce: bool,
    body: Seq<u8>,
    header: Option<Seq<char>>,
    p: Payload,
)
    requires
        p.workflow_run matches Some(run) && run.conclusion matches Some(c) && c@ != "success"@
            && is_default_branch(run.head_branch@),
        verification(body, secret, header) == Ok::<bool, SignatureError>(true)
            || (verification(body, secret, header) is Ok && !enforce),
    ensures
        webhook_step(url, secret, enforce, body, header, Some(p)) == (StepView::Dispatch {
            url,
            message: failure_text(p.repository, p.workflow_run->Some_0),
            ack: acknowledgment_text(p),
        }),
{
    lemma_default_branch_failure(p);
}

} // verus!
