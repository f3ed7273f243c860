//! The calls into serde_json, k8s-openapi, the Kubewarden policy SDK and the
//! formatting machinery of std. Verus does not look into these crates: it
//! takes every contract in this file as given.

use crate::selector::labels_of;
use crate::service::ServiceView;
use vstd::prelude::*;

verus! {

#[verifier::external_type_specification]
#[verifier::external_body]
pub struct ExJsonValue(serde_json::Value);

#[verifier::external_type_specification]
#[verifier::external_body]
pub struct ExSdkError(kubewarden_policy_sdk::Error);

/// The name, the namespace and the selector of a Service, as plain values.
pub type ServiceParts = (Option<String>, Option<String>, Option<Vec<(String, String)>>);

/// The Service that the parts describe: its name and namespace as they are,
/// and as its selector the labels that the pairs list.
pub open spec fn parts_view(parts: ServiceParts) -> ServiceView {
    ServiceView {
        name: match parts.0 {
            Some(name) => Some(name@),
            None => None,
        },
        namespace: match parts.1 {
            Some(namespace) => Some(namespace@),
            None => None,
        },
        selector: match parts.2 {
            Some(pairs) => Some(labels_of(pairs@)),
            None => None,
        },
    }
}

/// What `serde_json::from_value` makes of a JSON value at the type
/// `k8s_openapi::api::core::v1::Service`: the name, the namespace and the
/// selector of the Service that it reads, or `None` where it does not accept
/// the value as a Service.
pub uninterp spec fn decoded_service(object: serde_json::Value) -> Option<ServiceView>;

/// `serde_json::from_value` at the type `k8s_openapi::api::core::v1::Service`.
/// Returns `metadata.name`, `metadata.namespace` and the pairs of
/// `spec.selector` of the Service that the JSON value holds, or `None` where
/// serde_json does not accept the value as a Service. The outcome depends on
/// the value alone; the contract gives it a name and says nothing of which
/// values are accepted.
#[verifier::external_body]
pub(crate) fn service_in(object: serde_json::Value) -> (parts: Option<ServiceParts>)
    ensures
        match parts {
            Some(found) => decoded_service(object) == Some(parts_view(found)),
            None => decoded_service(object) is None,
        },
{
    match serde_json::from_value::<k8s_openapi::api::core::v1::Service>(object) {
        Ok(service) => Some(
            (
                service.metadata.name,
                service.metadata.namespace,
                service.spec.and_then(|spec| spec.selector).map(|labels| labels.into_iter().collect()),
            ),
        ),
        Err(_) => None,
    }
}

/// `k8s_openapi::Resource::KIND` of `k8s_openapi::api::core::v1::Service`:
/// the constant `"Service"`.
#[verifier::external_body]
pub(crate) fn service_kind() -> (kind: String)
    ensures
        kind@ == "Service"@,
{
    <k8s_openapi::api::core::v1::Service as k8s_openapi::Resource>::KIND.to_owned()
}

/// What `{:?}` prints for a list of strings.
pub uninterp spec fn debug_text(names: Seq<Seq<char>>) -> Seq<char>;

/// `format!` with `{:?}` on a `Vec<String>`. The text depends on the strings
/// alone; the contract gives it a name and says nothing of what it holds.
#[verifier::external_body]
pub(crate) fn debug_names(names: &Vec<String>) -> (text: String)
    ensures
        text@ == debug_text(names.deep_view()),
{
    format!("{names:?}")
}

/// The JSON text of the response that accepts a request.
pub open spec fn acceptance_json() -> Seq<char> {
    "{\"accepted\":true,\"message\":null,\"code\":null,\"mutated_object\":null,\"audit_annotations\":null,\"warnings\":null}"@
}

/// `kubewarden_policy_sdk::accept_request`: serialises a `ValidationResponse`
/// in which `accepted` is `true` and every other field is `None`. It succeeds,
/// and the bytes are `acceptance_json` in UTF-8: serde_json writes into a
/// vector, which takes every byte, and writes the fields in the order of
/// their declaration, without white space.
#[verifier::external_body]
pub(crate) fn accept_request() -> (response: Result<Vec<u8>, String>)
    ensures
        response is Ok,
        response matches Ok(bytes) ==> bytes@ == vstd::utf8::encode_utf8(acceptance_json()),
{
    match kubewarden_policy_sdk::accept_request() {
        Ok(bytes) => Ok(bytes),
        Err(error) => Err(error.to_string()),
    }
}

/// The bytes of the response that `kubewarden_policy_sdk::reject_request`
/// makes for a message, with no code, no audit annotations and no warnings.
pub uninterp spec fn rejection_response(message: Seq<char>) -> Seq<u8>;

/// `kubewarden_policy_sdk::reject_request` with `message` and nothing else:
/// serialises a `ValidationResponse` in which `accepted` is `false`. It
/// succeeds, as serde_json writes a string and five constants into a vector,
/// and the bytes depend on the message alone; the contract gives them a name.
#[verifier::external_body]
pub(crate) fn reject_request(message: String) -> (response: Result<Vec<u8>, String>)
    ensures
        response is Ok,
        response matches Ok(bytes) ==> bytes@ == rejection_response(message@),
{
    match kubewarden_policy_sdk::reject_request(Some(message), None, None, None) {
        Ok(bytes) => Ok(bytes),
        Err(error) => Err(error.to_string()),
    }
}

} // verus!
