use unique_service_selector::{
    list_services, list_services_request, plan, validate, validate_service, Service, Step,
    ValidationDecision,
};

fn json(text: &str) -> serde_json::Value {
    serde_json::from_str(text).unwrap()
}

fn named(name: &str, pairs: &[(&str, &str)]) -> Service {
    let pairs = pairs.iter().map(|(key, value)| (key.to_string(), value.to_string())).collect();
    Service::from_parts(Some(name.to_owned()), Some("default".to_owned()), Some(pairs))
}

fn lookup_failure() -> kubewarden_policy_sdk::Error {
    kubewarden_policy_sdk::Error::Validation("the host is away".to_owned())
}

fn reason_of(decision: &ValidationDecision) -> String {
    match decision {
        ValidationDecision::Accept => panic!("the request was accepted"),
        ValidationDecision::Reject(reason) => reason.clone(),
    }
}

#[test]
fn request_lists_the_services_of_the_namespace() {
    let request = list_services_request("shop".to_owned());
    assert_eq!(request.api_version, "v1");
    assert_eq!(request.kind, "Service");
    assert_eq!(request.namespace, "shop");
    assert_eq!(request.label_selector, None);
    assert_eq!(request.field_selector, None);
}

#[test]
fn listing_passes_the_services_on() {
    let listing = list_services(Ok(vec![named("a", &[("app", "web")]), named("b", &[])])).unwrap();
    assert_eq!(listing.len(), 2);
    assert_eq!(listing[0].name, Some("a".to_owned()));
    assert_eq!(listing[1].name, Some("b".to_owned()));
}

#[test]
fn listing_reports_a_failed_lookup() {
    let listing = list_services(Err(lookup_failure()));
    assert_eq!(listing.unwrap_err(), "cannot list current services");
}

#[test]
fn service_object_asks_for_its_siblings() {
    let object = json(
        r#"{
            "apiVersion": "v1",
            "kind": "Service",
            "metadata": { "name": "web", "namespace": "shop" },
            "spec": { "selector": { "app.kubernetes.io/name": "myapp", "tier": "front" } }
        }"#,
    );
    match validate(object) {
        Step::Fetch { candidate, request } => {
            assert_eq!(candidate.name, Some("web".to_owned()));
            assert_eq!(candidate.namespace, Some("shop".to_owned()));
            let selector = candidate.selector.unwrap();
            assert_eq!(
                selector.get(&"app.kubernetes.io/name".to_owned()),
                Some(&"myapp".to_owned())
            );
            assert_eq!(selector.get(&"tier".to_owned()), Some(&"front".to_owned()));
            assert_eq!(selector.get(&"env".to_owned()), None);
            assert_eq!(request.api_version, "v1");
            assert_eq!(request.kind, "Service");
            assert_eq!(request.namespace, "shop");
            assert_eq!(request.label_selector, None);
            assert_eq!(request.field_selector, None);
        }
        Step::Decide(_) => panic!("a Service is not decided on before the lookup"),
    }
}

#[test]
fn service_without_namespace_asks_in_the_empty_namespace() {
    let object = json(r#"{ "kind": "Service", "metadata": { "name": "web" } }"#);
    match validate(object) {
        Step::Fetch { candidate, request } => {
            assert_eq!(candidate.name, Some("web".to_owned()));
            assert_eq!(candidate.namespace, None);
            assert!(candidate.selector.is_none());
            assert_eq!(request.namespace, "");
        }
        Step::Decide(_) => panic!("a Service is not decided on before the lookup"),
    }
}

#[test]
fn object_of_another_kind_is_accepted() {
    let object = json(
        r#"{
            "apiVersion": "v1",
            "kind": "Pod",
            "metadata": { "name": "web", "namespace": "shop" },
            "spec": { "containers": [] }
        }"#,
    );
    match validate(object) {
        Step::Decide(decision) => assert!(decision.is_accepted()),
        Step::Fetch { .. } => panic!("a Pod needs no lookup"),
    }
}

#[test]
fn value_that_is_no_object_is_accepted() {
    for text in ["null", "17", "\"Service\"", "[]", "true"] {
        match validate(json(text)) {
            Step::Decide(decision) => assert!(decision.is_accepted()),
            Step::Fetch { .. } => panic!("{text} needs no lookup"),
        }
    }
}

#[test]
fn service_of_the_wrong_shape_is_accepted() {
    let object = json(r#"{ "kind": "Service", "spec": { "selector": ["app"] } }"#);
    match validate(object) {
        Step::Decide(decision) => assert!(decision.is_accepted()),
        Step::Fetch { .. } => panic!("a malformed Service needs no lookup"),
    }
}

#[test]
fn plan_accepts_what_is_no_service() {
    match plan(None) {
        Step::Decide(decision) => {
            assert!(decision.is_accepted());
            assert_eq!(decision.reason(), None);
        }
        Step::Fetch { .. } => panic!("nothing to look up"),
    }
}

#[test]
fn plan_asks_for_the_namespace_of_the_candidate() {
    match plan(Some(named("web", &[("app", "web")]))) {
        Step::Fetch { candidate, request } => {
            assert_eq!(candidate.name, Some("web".to_owned()));
            assert_eq!(request.namespace, "default");
            assert_eq!(request.kind, "Service");
        }
        Step::Decide(_) => panic!("a Service is not decided on before the lookup"),
    }
}

#[test]
fn failed_lookup_rejects() {
    let candidate = named("web", &[("app", "web")]);
    let decision = validate_service(&candidate, Err(lookup_failure()));
    assert!(!decision.is_accepted());
    assert_eq!(reason_of(&decision), "cannot list current services");
    let bare = Service::from_parts(None, None, None);
    let decision = validate_service(&bare, Err(lookup_failure()));
    assert_eq!(reason_of(&decision), "cannot list current services");
}

#[test]
fn service_without_duplicates_is_accepted() {
    let candidate = named("web", &[("app", "web")]);
    let decision = validate_service(
        &candidate,
        Ok(vec![named("db", &[("app", "db")]), named("bare", &[])]),
    );
    assert!(decision.is_accepted());
    assert!(validate_service(&candidate, Ok(Vec::new())).is_accepted());
}

#[test]
fn duplicate_is_rejected_by_name() {
    let candidate = named("web", &[("app.kubernetes.io/name", "myapp")]);
    let decision = validate_service(
        &candidate,
        Ok(vec![named("myservice", &[("app.kubernetes.io/name", "myapp")])]),
    );
    assert_eq!(
        reason_of(&decision),
        "service is using selector(s) already defined by these services: [\"myservice\"]"
    );
}

#[test]
fn every_duplicate_is_named() {
    let candidate = named("web", &[("app", "web")]);
    let decision = validate_service(
        &candidate,
        Ok(vec![
            named("zeta", &[("app", "web")]),
            named("other", &[("app", "db")]),
            named("alpha", &[("app", "web")]),
        ]),
    );
    assert_eq!(
        reason_of(&decision),
        "service is using selector(s) already defined by these services: [\"zeta\", \"alpha\"]"
    );
}

#[test]
fn names_are_quoted_as_debug_prints_them() {
    let candidate = named("web", &[("app", "web")]);
    let decision = validate_service(&candidate, Ok(vec![named("a\"b\\c", &[("app", "web")])]));
    assert_eq!(
        reason_of(&decision),
        "service is using selector(s) already defined by these services: [\"a\\\"b\\\\c\"]"
    );
}

#[test]
fn conflict_puts_the_list_after_the_sentence() {
    let decision = ValidationDecision::conflict("[\"a\"]");
    assert_eq!(
        decision.reason(),
        Some(&"service is using selector(s) already defined by these services: [\"a\"]".to_owned())
    );
    assert!(!decision.is_accepted());
    let empty = ValidationDecision::conflict("");
    assert_eq!(
        reason_of(&empty),
        "service is using selector(s) already defined by these services: "
    );
}

#[test]
fn whole_run_of_a_duplicate_service() {
    let object = json(
        r#"{
            "apiVersion": "v1",
            "kind": "Service",
            "metadata": { "name": "web", "namespace": "shop" },
            "spec": { "selector": { "app": "web" } }
        }"#,
    );
    let decision = match validate(object) {
        Step::Fetch { candidate, request } => {
            assert_eq!(request.namespace, "shop");
            validate_service(&candidate, Ok(vec![named("taken", &[("app", "web")])]))
        }
        Step::Decide(decision) => decision,
    };
    assert_eq!(
        reason_of(&decision),
        "service is using selector(s) already defined by these services: [\"taken\"]"
    );
}

#[test]
fn whole_run_with_a_failed_lookup() {
    let object = json(r#"{ "kind": "Service", "metadata": { "name": "web" } }"#);
    let decision = match validate(object) {
        Step::Fetch { candidate, .. } => validate_service(&candidate, Err(lookup_failure())),
        Step::Decide(decision) => decision,
    };
    assert_eq!(reason_of(&decision), "cannot list current services");
}
