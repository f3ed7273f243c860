//! Admission rule that keeps the label selectors of the Services of one
//! namespace distinct.

pub mod admission;
pub mod decision;
pub mod duplicates;
pub mod lookup;
pub mod selector;
pub mod service;
pub mod trusted;

pub use admission::{plan, validate, validate_service, Step};
pub use decision::ValidationDecision;
pub use duplicates::{find_services_with_duplicate_selectors, services_have_same_selectors};
pub use lookup::{list_services, list_services_request, ListRequest};
pub use selector::Selector;
pub use service::Service;
