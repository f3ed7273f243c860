use kubewarden_policy_sdk::response::ValidationResponse;
use unique_service_selector::ValidationDecision;

#[test]
fn acceptance_is_encoded_without_a_message() {
    let bytes = ValidationDecision::Accept.to_response().unwrap();
    assert_eq!(
        String::from_utf8(bytes).unwrap(),
        "{\"accepted\":true,\"message\":null,\"code\":null,\"mutated_object\":null,\"audit_annotations\":null,\"warnings\":null}"
    );
}

#[test]
fn refusal_is_encoded_with_its_reason() {
    let decision = ValidationDecision::Reject("cannot list current services".to_owned());
    let bytes = decision.to_response().unwrap();
    assert_eq!(
        String::from_utf8(bytes.clone()).unwrap(),
        "{\"accepted\":false,\"message\":\"cannot list current services\",\"code\":null,\"mutated_object\":null,\"audit_annotations\":null,\"warnings\":null}"
    );
    let response: ValidationResponse = serde_json::from_slice(&bytes).unwrap();
    assert!(!response.accepted);
    assert_eq!(response.message, Some("cannot list current services".to_owned()));
    assert_eq!(response.code, None);
    assert!(response.mutated_object.is_none());
    assert!(response.audit_annotations.is_none());
    assert!(response.warnings.is_none());
}

#[test]
fn refusal_carries_the_list_of_duplicates() {
    let decision = ValidationDecision::conflict("[\"myservice\"]");
    let bytes = decision.to_response().unwrap();
    let response: ValidationResponse = serde_json::from_slice(&bytes).unwrap();
    assert!(!response.accepted);
    assert_eq!(
        response.message,
        Some(
            "service is using selector(s) already defined by these services: [\"myservice\"]"
                .to_owned()
        )
    );
}

#[test]
fn acceptance_decodes_as_accepted() {
    let bytes = ValidationDecision::Accept.to_response().unwrap();
    let response: ValidationResponse = serde_json::from_slice(&bytes).unwrap();
    assert!(response.accepted);
    assert_eq!(response.message, None);
}
