//! Listing the Services of a namespace: the request to send, and what to make
//! of the answer.

use crate::decision::lookup_failure_message;
use crate::service::{Service, ServiceView};
use crate::trusted::service_kind;
use vstd::prelude::*;
use vstd::string::StringExecFns;

verus! {

/// A request for the resources of one kind in one namespace.
#[derive(Debug)]
pub struct ListRequest {
    /// The API version of the resources: `v1` for the core group.
    pub api_version: String,
    /// The kind of the resources.
    pub kind: String,
    /// The namespace to search.
    pub namespace: String,
    /// Restricts the resources by their labels; `None` for all of them.
    pub label_selector: Option<String>,
    /// Restricts the resources by their fields; `None` for all of them.
    pub field_selector: Option<String>,
}

/// The mathematical model of a `ListRequest`.
pub struct ListRequestView {
    pub api_version: Seq<char>,
    pub kind: Seq<char>,
    pub namespace: Seq<char>,
    pub label_selector: Option<Seq<char>>,
    pub field_selector: Option<Seq<char>>,
}

impl View for ListRequest {
    type V = ListRequestView;

    open spec fn view(&self) -> ListRequestView {
        ListRequestView {
            api_version: self.api_version@,
            kind: self.kind@,
            namespace: self.namespace@,
            label_selector: match self.label_selector {
                Some(selector) => Some(selector@),
                None => None,
            },
            field_selector: match self.field_selector {
                Some(selector) => Some(selector@),
                None => None,
            },
        }
    }
}

/// The request for every Service of `namespace`.
pub open spec fn services_in(namespace: Seq<char>) -> ListRequestView {
    ListRequestView {
        api_version: "v1"@,
        kind: "Service"@,
        namespace,
        label_selector: None,
        field_selector: None,
    }
}

/// What a lookup yields: the Services of the namespace, or the reason why
/// there are none to compare with.
pub type Listing = Result<Seq<ServiceView>, Seq<char>>;

/// The listing that the answer to a lookup stands for. A lookup that failed
/// gives the same reason whatever went wrong.
pub open spec fn listing_of(response: Result<Vec<Service>, kubewarden_policy_sdk::Error>) -> Listing {
    match response {
        Ok(services) => Ok(services.deep_view()),
        Err(_) => Err(lookup_failure_message()),
    }
}

/// Builds the request that lists every Service of `namespace`.
pub fn list_services_request(namespace: String) -> (request: ListRequest)
    ensures
        request@ == services_in(namespace@),
{
    ListRequest {
        api_version: String::from_str("v1"),
        kind: service_kind(),
        namespace,
        label_selector: None,
        field_selector: None,
    }
}

/// Reads the answer to a lookup: the Services as they came, or the message
/// that says that they could not be listed.
pub fn list_services(response: Result<Vec<Service>, kubewarden_policy_sdk::Error>) -> (listing:
    Result<Vec<Service>, String>)
    ensures
        match response {
            Ok(services) => listing == Ok::<Vec<Service>, String>(services),
            Err(_) => listing matches Err(message) && message@ == lookup_failure_message(),
        },
{
    match response {
        Ok(services) => Ok(services),
        Err(_) => Err(String::from_str("cannot list current services")),
    }
}

} // verus!
