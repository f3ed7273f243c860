//! The verdict on an admission request, and the response that carries it.

use crate::trusted::{accept_request, acceptance_json, reject_request, rejection_response};
use vstd::prelude::*;
use vstd::string::StringExecFns;

verus! {

/// The verdict on one admission request.
#[derive(Debug)]
pub enum ValidationDecision {
    /// The request may go through.
    Accept,
    /// The request is refused, for the reason given.
    Reject(String),
}

/// The mathematical model of a `ValidationDecision`.
pub enum DecisionView {
    Accept,
    Reject(Seq<char>),
}

impl View for ValidationDecision {
    type V = DecisionView;

    open spec fn view(&self) -> DecisionView {
        match self {
            ValidationDecision::Accept => DecisionView::Accept,
            ValidationDecision::Reject(reason) => DecisionView::Reject(reason@),
        }
    }
}

/// The reason given where the Services of the namespace cannot be listed.
pub open spec fn lookup_failure_message() -> Seq<char> {
    "cannot list current services"@
}

/// The reason given for a Service whose selector is taken: a fixed sentence,
/// then the list of the Services that have the selector.
pub open spec fn conflict_message(services: Seq<char>) -> Seq<char> {
    "service is using selector(s) already defined by these services: "@ + services
}

/// The bytes of the response that carries a decision.
pub open spec fn response_bytes(decision: DecisionView) -> Seq<u8> {
    match decision {
        DecisionView::Accept => vstd::utf8::encode_utf8(acceptance_json()),
        DecisionView::Reject(reason) => rejection_response(reason),
    }
}

impl ValidationDecision {
    /// The refusal of a Service whose selector is taken; `services` lists the
    /// Services that have it.
    pub fn conflict(services: &str) -> (decision: ValidationDecision)
        ensures
            decision@ == DecisionView::Reject(conflict_message(services@)),
    {
        let prefix = String::from_str(
            "service is using selector(s) already defined by these services: ",
        );
        ValidationDecision::Reject(prefix.concat(services))
    }

    /// Whether the request may go through.
    pub fn is_accepted(&self) -> (accepted: bool)
        ensures
            accepted == (self@ is Accept),
    {
        match self {
            ValidationDecision::Accept => true,
            ValidationDecision::Reject(_) => false,
        }
    }

    /// The reason of a refusal.
    pub fn reason(&self) -> (reason: Option<&String>)
        ensures
            match reason {
                Some(text) => self@ == DecisionView::Reject(text@),
                None => self@ is Accept,
            },
    {
        match self {
            ValidationDecision::Accept => None,
            ValidationDecision::Reject(reason) => Some(reason),
        }
    }

    /// Encodes the decision for the host: an acceptance without a message, a
    /// refusal with its reason as the message. The encoding succeeds.
    pub fn to_response(&self) -> (response: Result<Vec<u8>, String>)
        ensures
            response is Ok,
            response matches Ok(bytes) ==> bytes@ == response_bytes(self@),
    {
        match self {
            ValidationDecision::Accept => accept_request(),
            ValidationDecision::Reject(reason) => reject_request(reason.clone()),
        }
    }
}

} // verus!
