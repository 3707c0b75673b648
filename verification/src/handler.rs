//! Webhook handling.
//!
//! One inbound event runs through a fixed pipeline: filter by the two
//! required headers, acknowledge non-push events without deploying, verify
//! the signature over the raw body, classify the pushed branch, and only
//! then trigger the deployment plan.  Every early exit is terminal and maps
//! to one HTTP status; nothing past a failed stage runs.  The surrounding
//! process reads the request and headers, hands them over as plain values,
//! and performs the deployment steps the reply asks for.

use vstd::prelude::*;

verus! {

use crate::classify::Branch;
use crate::classify::ClassifyError;
use crate::classify::classify_spec;
use crate::classify::get_branch;
use crate::signature::VerifyError;
use crate::signature::verify_spec;
use crate::signature::check_signature;

/// The terminal outcome of one webhook delivery.
#[derive(Clone, Copy, Debug, PartialEq, Eq, Structural)]
pub enum WebhookReply {
    /// The signature header was missing.
    MissingSignature,
    /// The event header was missing.
    MissingEvent,
    /// The event was no push; valid traffic, acknowledged, not deployed.
    NotPushEvent,
    /// Checking the signature failed before any comparison.
    VerifyFailed(VerifyError),
    /// The signature did not match the body.
    InvalidSignature,
    /// The payload classified to no deployable branch.
    ClassifyFailed(ClassifyError),
    /// Everything checked out; deployment is triggered for this branch.
    Initiated(Branch),
}

/// The reply owed to one delivery, given the two headers, the raw body and
/// the shared secret.  The stages run in a fixed order and the first that
/// fails is terminal.
pub open spec fn webhook_spec(
    signature: Option<Seq<char>>,
    event: Option<Seq<char>>,
    body: Seq<u8>,
    secret: Seq<char>,
) -> WebhookReply {
    match signature {
        None => WebhookReply::MissingSignature,
        Some(sig) => match event {
            None => WebhookReply::MissingEvent,
            Some(ev) => {
                if ev != "push"@ {
                    WebhookReply::NotPushEvent
                } else {
                    match verify_spec(body, sig, secret) {
                        Err(e) => WebhookReply::VerifyFailed(e),
                        Ok(false) => WebhookReply::InvalidSignature,
                        Ok(true) => match classify_spec(body) {
                            Err(e) => WebhookReply::ClassifyFailed(e),
                            Ok(b) => WebhookReply::Initiated(b),
                        },
                    }
                }
            },
        },
    }
}

/// The HTTP status a reply answers with: 200 for success and for ignored
/// events, 401 for authentication and unknown-branch failures, 500 for
/// internal processing errors.
pub open spec fn reply_status(r: WebhookReply) -> u16 {
    match r {
        WebhookReply::MissingSignature => 401,
        WebhookReply::MissingEvent => 401,
        WebhookReply::NotPushEvent => 200,
        WebhookReply::VerifyFailed(_) => 500,
        WebhookReply::InvalidSignature => 401,
        WebhookReply::ClassifyFailed(e) => if e == ClassifyError::UnknownBranch {
            401
        } else {
            500
        },
        WebhookReply::Initiated(_) => 200,
    }
}

/// The branch a reply triggers deployment for, if any.
pub open spec fn triggered_branch(r: WebhookReply) -> Option<Branch> {
    match r {
        WebhookReply::Initiated(b) => Some(b),
        _ => None,
    }
}

/// The plain-text message a reply answers with: an explicit message for
/// each missing header, the error reason on every failure, an
/// acknowledgment for ignored events, and the committed `deploy initiated`
/// on success.
pub open spec fn reply_message(r: WebhookReply) -> Seq<char> {
    match r {
        WebhookReply::MissingSignature => "missing a signature header"@,
        WebhookReply::MissingEvent => "missing an event header"@,
        WebhookReply::NotPushEvent => "not a push event, but thanks anyway"@,
        WebhookReply::VerifyFailed(VerifyError::MalformedSignature) => {
            "an error occurred while checking signature: invalid signature"@
        },
        WebhookReply::VerifyFailed(VerifyError::UnsupportedAlgorithm) => {
            "an error occurred while checking signature: invalid signature method"@
        },
        WebhookReply::VerifyFailed(VerifyError::BadDigest) => {
            "an error occurred while checking signature: could not parse hex string"@
        },
        WebhookReply::InvalidSignature => "invalid signature"@,
        WebhookReply::ClassifyFailed(ClassifyError::InvalidPayload) => {
            "couldn't get branch: could not process json from request"@
        },
        WebhookReply::ClassifyFailed(ClassifyError::MissingRef) => {
            "couldn't get branch: missing 'ref' key"@
        },
        WebhookReply::ClassifyFailed(ClassifyError::InvalidRef) => {
            "couldn't get branch: invalid 'ref' key"@
        },
        WebhookReply::ClassifyFailed(ClassifyError::UnknownBranch) => {
            "couldn't get branch: invalid branch"@
        },
        WebhookReply::Initiated(_) => "deploy initiated"@,
    }
}

/// The view of an optional header value.
pub open spec fn opt_view(o: Option<&str>) -> Option<Seq<char>> {
    match o {
        None => None,
        Some(s) => Some(s@),
    }
}

impl WebhookReply {
    /// The HTTP status this reply answers with.
    pub fn status(&self) -> (s: u16)
        ensures
            s == reply_status(*self),
    {
        match self {
            WebhookReply::MissingSignature => 401,
            WebhookReply::MissingEvent => 401,
            WebhookReply::NotPushEvent => 200,
            WebhookReply::VerifyFailed(_) => 500,
            WebhookReply::InvalidSignature => 401,
            WebhookReply::ClassifyFailed(ClassifyError::UnknownBranch) => 401,
            WebhookReply::ClassifyFailed(_) => 500,
            WebhookReply::Initiated(_) => 200,
        }
    }

    /// The branch this reply triggers deployment for, if any.
    pub fn triggered(&self) -> (b: Option<Branch>)
        ensures
            b == triggered_branch(*self),
    {
        match self {
            WebhookReply::Initiated(b) => Some(*b),
            _ => None,
        }
    }

    /// The plain-text message this reply answers with, word for word as
    /// `reply_message` fixes it.
    pub fn message(&self) -> (m: &'static str)
        ensures
            m@ == reply_message(*self),
    {
        match self {
            WebhookReply::MissingSignature => "missing a signature header",
            WebhookReply::MissingEvent => "missing an event header",
            WebhookReply::NotPushEvent => "not a push event, but thanks anyway",
            WebhookReply::VerifyFailed(VerifyError::MalformedSignature) => {
                "an error occurred while checking signature: invalid signature"
            },
            WebhookReply::VerifyFailed(VerifyError::UnsupportedAlgorithm) => {
                "an error occurred while checking signature: invalid signature method"
            },
            WebhookReply::VerifyFailed(VerifyError::BadDigest) => {
                "an error occurred while checking signature: could not parse hex string"
            },
            WebhookReply::InvalidSignature => "invalid signature",
            WebhookReply::ClassifyFailed(ClassifyError::InvalidPayload) => {
                "couldn't get branch: could not process json from request"
            },
            WebhookReply::ClassifyFailed(ClassifyError::MissingRef) => {
                "couldn't get branch: missing 'ref' key"
            },
            WebhookReply::ClassifyFailed(ClassifyError::InvalidRef) => {
                "couldn't get branch: invalid 'ref' key"
            },
            WebhookReply::ClassifyFailed(ClassifyError::UnknownBranch) => {
                "couldn't get branch: invalid branch"
            },
            WebhookReply::Initiated(_) => "deploy initiated",
        }
    }
}

/// Handles one webhook delivery, as `webhook_spec` lays out: the reply
/// names either the first stage that failed or the branch to deploy, and
/// deployment is triggered exactly when the event is a push whose signature
/// verifies and whose payload classifies.
pub fn deploy_webhook(
    signature: Option<&str>,
    event: Option<&str>,
    body: &[u8],
    secret: &str,
) -> (r: WebhookReply)
    ensures
        r == webhook_spec(opt_view(signature), opt_view(event), body@, secret@),
{
    let sig = match signature {
        None => {
            return WebhookReply::MissingSignature;
        },
        Some(s) => s,
    };
    let ev = match event {
        None => {
            return WebhookReply::MissingEvent;
        },
        Some(e) => e,
    };
    if !crate::text::str_eq(ev, "push") {
        return WebhookReply::NotPushEvent;
    }
    match check_signature(body, sig, secret) {
        Err(e) => WebhookReply::VerifyFailed(e),
        Ok(false) => WebhookReply::InvalidSignature,
        Ok(true) => match get_branch(body) {
            Err(e) => WebhookReply::ClassifyFailed(e),
            Ok(b) => WebhookReply::Initiated(b),
        },
    }
}

/// A non-push event is acknowledged and nothing more: whatever the body,
/// the secret or the signature, the reply has status 200 and triggers no
/// deployment.
pub proof fn lemma_non_push_ignored(
    signature: Seq<char>,
    event: Seq<char>,
    body: Seq<u8>,
    secret: Seq<char>,
)
    requires
        event != "push"@,
    ensures
        webhook_spec(Some(signature), Some(event), body, secret) == WebhookReply::NotPushEvent,
        reply_status(webhook_spec(Some(signature), Some(event), body, secret)) == 200,
        triggered_branch(webhook_spec(Some(signature), Some(event), body, secret)) is None,
{
}

/// A push whose signature verifies but whose payload classifies to no
/// branch is refused with status 401 or 500 and triggers no deployment.
pub proof fn lemma_unclassified_push_not_deployed(
    signature: Seq<char>,
    body: Seq<u8>,
    secret: Seq<char>,
    e: ClassifyError,
)
    requires
        verify_spec(body, signature, secret) == Ok::<bool, VerifyError>(true),
        classify_spec(body) == Err::<Branch, ClassifyError>(e),
    ensures
        webhook_spec(Some(signature), Some("push"@), body, secret) == WebhookReply::ClassifyFailed(
            e,
        ),
        reply_status(webhook_spec(Some(signature), Some("push"@), body, secret)) == 401
            || reply_status(webhook_spec(Some(signature), Some("push"@), body, secret)) == 500,
        triggered_branch(webhook_spec(Some(signature), Some("push"@), body, secret)) is None,
{
}

/// A reply that triggers deployment certifies the whole pipeline: the
/// headers were present, the event was a push, the signature verified
/// against the body, and the payload classified to the triggered branch.
pub proof fn lemma_trigger_needs_authentication(
    signature: Option<Seq<char>>,
    event: Option<Seq<char>>,
    body: Seq<u8>,
    secret: Seq<char>,
    b: Branch,
)
    requires
        triggered_branch(webhook_spec(signature, event, body, secret)) == Some(b),
    ensures
        signature is Some,
        event == Some("push"@),
        verify_spec(body, signature->0, secret) == Ok::<bool, VerifyError>(true),
        classify_spec(body) == Ok::<Branch, ClassifyError>(b),
{
}

} // verus!
