//! The run of one admission request: interpret the object, list the Services
//! of its namespace, compare, decide.

use crate::decision::{conflict_message, DecisionView, ValidationDecision};
use crate::duplicates::{duplicate_names, find_services_with_duplicate_selectors};
use crate::lookup::{
    list_services, list_services_request, listing_of, services_in, ListRequest, ListRequestView,
    Listing,
};
use crate::service::{Service, ServiceView};
use crate::trusted::{debug_names, debug_text, decoded_service, service_in};
use vstd::prelude::*;

verus! {

/// What is to be done next for a request.
#[derive(Debug)]
pub enum Step {
    /// Send `request`, then hand the answer to `validate_service` together
    /// with `candidate`.
    Fetch { candidate: Service, request: ListRequest },
    /// The request is settled.
    Decide(ValidationDecision),
}

/// The mathematical model of a `Step`.
pub enum StepView {
    Fetch { candidate: ServiceView, request: ListRequestView },
    Decide(DecisionView),
}

impl View for Step {
    type V = StepView;

    open spec fn view(&self) -> StepView {
        match self {
            Step::Fetch { candidate, request } => StepView::Fetch {
                candidate: candidate@,
                request: request@,
            },
            Step::Decide(decision) => StepView::Decide(decision@),
        }
    }
}

/// The step that follows the interpretation of the object of a request. An
/// object that is no Service is none of this rule's business and is accepted
/// at once; for a Service the Services of its namespace are asked for.
pub open spec fn first_step(decoded: Option<ServiceView>) -> StepView {
    match decoded {
        Some(candidate) => StepView::Fetch {
            candidate,
            request: services_in(candidate.namespace_or_default()),
        },
        None => StepView::Decide(DecisionView::Accept),
    }
}

/// The decision on a candidate, given what the lookup yielded. A failed
/// lookup refuses the candidate with the reason of the failure. Otherwise the
/// candidate is accepted where no listed Service has its selector, and
/// refused with the names of all that have it.
pub open spec fn verdict(candidate: ServiceView, listing: Listing) -> DecisionView {
    match listing {
        Ok(existing) => {
            let names = duplicate_names(candidate, existing);
            if names.len() == 0 {
                DecisionView::Accept
            } else {
                DecisionView::Reject(conflict_message(debug_text(names)))
            }
        },
        Err(reason) => DecisionView::Reject(reason),
    }
}

/// The decision that a request ends with: that of its first step where this
/// step settles it, else the verdict on the candidate.
pub open spec fn outcome(decoded: Option<ServiceView>, listing: Listing) -> DecisionView {
    match first_step(decoded) {
        StepView::Fetch { candidate, .. } => verdict(candidate, listing),
        StepView::Decide(decision) => decision,
    }
}

/// An object that is no Service is accepted, whatever the namespace holds and
/// whether or not its Services can be listed.
pub proof fn lemma_other_objects_are_accepted(listing: Listing)
    ensures
        outcome(None, listing) == DecisionView::Accept,
{
}

/// A Service is refused where the Services of its namespace cannot be listed,
/// whatever its selector.
pub proof fn lemma_failed_lookup_rejects(
    candidate: ServiceView,
    response: Result<Vec<Service>, kubewarden_policy_sdk::Error>,
)
    requires
        response is Err,
    ensures
        outcome(Some(candidate), listing_of(response)) == DecisionView::Reject(
            "cannot list current services"@,
        ),
{
}

/// Every request ends with one decision. It is an acceptance where the
/// object is no Service, or a Service whose selector none of the listed
/// Services has. It is a refusal where the object is a Service and the lookup
/// failed, for the reason of the failure, or a listed Service has its
/// selector, for the reason that names them all.
pub proof fn lemma_outcome_cases(decoded: Option<ServiceView>, listing: Listing)
    ensures
        outcome(decoded, listing) == match (decoded, listing) {
            (None, _) => DecisionView::Accept,
            (Some(_), Err(reason)) => DecisionView::Reject(reason),
            (Some(candidate), Ok(existing)) => if duplicate_names(candidate, existing).len() == 0 {
                DecisionView::Accept
            } else {
                DecisionView::Reject(
                    conflict_message(debug_text(duplicate_names(candidate, existing))),
                )
            },
        },
{
}

/// Plans the first step for the object of a request, interpreted as a
/// Service where it is one.
pub fn plan(decoded: Option<Service>) -> (step: Step)
    ensures
        step@ == first_step(decoded.deep_view()),
        decoded is None ==> step@ == StepView::Decide(DecisionView::Accept),
{
    match decoded {
        Some(candidate) => {
            let request = list_services_request(candidate.namespace_or_default());
            Step::Fetch { candidate, request }
        },
        None => Step::Decide(ValidationDecision::Accept),
    }
}

/// Interprets the object of a request as a Service and plans the first
/// step: the lookup in the namespace of the Service that the object decodes
/// to, or the acceptance of an object that decodes to none.
pub fn validate(object: serde_json::Value) -> (step: Step)
    ensures
        step@ == first_step(decoded_service(object)),
{
    let decoded = match service_in(object) {
        Some((name, namespace, selector)) => Some(Service::from_parts(name, namespace, selector)),
        None => None,
    };
    plan(decoded)
}

/// Decides on `service`, given the answer to the lookup of the Services of
/// its namespace.
pub fn validate_service(
    service: &Service,
    response: Result<Vec<Service>, kubewarden_policy_sdk::Error>,
) -> (decision: ValidationDecision)
    ensures
        decision@ == verdict(service@, listing_of(response)),
        response is Err ==> decision@ == DecisionView::Reject("cannot list current services"@),
{
    match list_services(response) {
        Ok(current_services) => {
            let duplicate_services = find_services_with_duplicate_selectors(
                service,
                current_services,
            );
            if duplicate_services.len() != 0 {
                let listed = debug_names(&duplicate_services);
                return ValidationDecision::conflict(listed.as_str());
            }
            ValidationDecision::Accept
        },
        Err(error) => ValidationDecision::Reject(error),
    }
}

} // verus!
