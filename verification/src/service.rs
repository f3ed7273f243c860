//! The part of a Kubernetes Service that the rule reads.

use crate::selector::{labels_of, Labels, Selector};
use vstd::prelude::*;

verus! {

/// A Service: its name and namespace, where it has them, and its selector.
#[derive(Debug)]
pub struct Service {
    pub name: Option<String>,
    pub namespace: Option<String>,
    pub selector: Option<Selector>,
}

/// The mathematical model of a `Service`.
pub struct ServiceView {
    pub name: Option<Seq<char>>,
    pub namespace: Option<Seq<char>>,
    pub selector: Option<Labels>,
}

impl ServiceView {
    /// The labels that the Service selects by: none where it has no selector.
    pub open spec fn labels(self) -> Labels {
        match self.selector {
            Some(labels) => labels,
            None => Labels::empty(),
        }
    }

    /// The namespace to look the Service's siblings up in: the empty one
    /// where the Service names none.
    pub open spec fn namespace_or_default(self) -> Seq<char> {
        match self.namespace {
            Some(namespace) => namespace,
            None => Seq::empty(),
        }
    }
}

impl View for Service {
    type V = ServiceView;

    open spec fn view(&self) -> ServiceView {
        ServiceView {
            name: match self.name {
                Some(name) => Some(name@),
                None => None,
            },
            namespace: match self.namespace {
                Some(namespace) => Some(namespace@),
                None => None,
            },
            selector: match self.selector {
                Some(selector) => Some(selector@),
                None => None,
            },
        }
    }
}

impl Clone for Service {
    fn clone(&self) -> (copy: Service)
        ensures
            copy@ == self@,
    {
        Service {
            name: match &self.name {
                Some(name) => Some(name.clone()),
                None => None,
            },
            namespace: match &self.namespace {
                Some(namespace) => Some(namespace.clone()),
                None => None,
            },
            selector: match &self.selector {
                Some(selector) => Some(selector.clone()),
                None => None,
            },
        }
    }
}

impl DeepView for Service {
    type V = ServiceView;

    open spec fn deep_view(&self) -> ServiceView {
        self@
    }
}

impl Service {
    /// The Service with the given name and namespace, and with the selector
    /// that `selector` lists pair by pair.
    pub fn from_parts(
        name: Option<String>,
        namespace: Option<String>,
        selector: Option<Vec<(String, String)>>,
    ) -> (service: Service)
        ensures
            service.name == name,
            service.namespace == namespace,
            service@.selector == match selector {
                Some(pairs) => Some(labels_of(pairs@)),
                None => None,
            },
    {
        let selector = match selector {
            Some(pairs) => Some(Selector::from_pairs(pairs)),
            None => None,
        };
        Service { name, namespace, selector }
    }

    /// The namespace of the Service, or the empty string.
    pub fn namespace_or_default(&self) -> (namespace: String)
        ensures
            namespace@ == self@.namespace_or_default(),
    {
        match &self.namespace {
            Some(namespace) => namespace.clone(),
            None => String::new(),
        }
    }
}

} // verus!
