//! Finding the Services of a namespace that select the same pods as a
//! candidate.

use crate::selector::{same_selector, Selector};
use crate::service::{Service, ServiceView};
use vstd::prelude::*;

verus! {

/// Whether two Services select the same pods. A Service without a selector
/// counts as one with an empty selector.
pub open spec fn same_selectors(a: ServiceView, b: ServiceView) -> bool {
    same_selector(a.labels(), b.labels())
}

/// Whether two Services share their selector. Two Services that select by no
/// label at all do not.
pub fn services_have_same_selectors(svc1: &Service, svc2: &Service) -> (same: bool)
    ensures
        same == same_selectors(svc1@, svc2@),
{
    let none = Selector::new();
    let selector_svc1 = match &svc1.selector {
        Some(selector) => selector,
        None => &none,
    };
    let selector_svc2 = match &svc2.selector {
        Some(selector) => selector,
        None => &none,
    };
    selector_svc1.same_selector(selector_svc2)
}

/// The name under which `other` is reported as a duplicate of `candidate`:
/// its own, where it has one and selects the same pods.
pub open spec fn reported_name(candidate: ServiceView, other: ServiceView) -> Option<Seq<char>> {
    if same_selectors(other, candidate) {
        other.name
    } else {
        None
    }
}

/// The names of the Services among `existing` that select the same pods as
/// `candidate`, in the order of `existing`.
pub open spec fn duplicate_names(candidate: ServiceView, existing: Seq<ServiceView>) -> Seq<
    Seq<char>,
> {
    existing.filter_map(|other: ServiceView| reported_name(candidate, other))
}

/// The positions in `existing` of the Services that are reported as
/// duplicates of `candidate`, from the first to the last.
pub open spec fn reported_positions(candidate: ServiceView, existing: Seq<ServiceView>) -> Seq<int>
    decreases existing.len(),
{
    if existing.len() == 0 {
        Seq::empty()
    } else {
        let earlier = reported_positions(candidate, existing.drop_last());
        if reported_name(candidate, existing.last()) is Some {
            earlier.push(existing.len() - 1)
        } else {
            earlier
        }
    }
}

/// With no Service to compare with there is no duplicate.
pub proof fn lemma_no_services_no_duplicates(candidate: ServiceView)
    ensures
        duplicate_names(candidate, Seq::empty()) == Seq::<Seq<char>>::empty(),
{
}

/// The duplicates come in the order of the Services they name: the reported
/// names are those of the Services at `reported_positions`, one for one, and
/// these positions increase and leave no reported Service out.
pub proof fn lemma_duplicates_keep_order(candidate: ServiceView, existing: Seq<ServiceView>)
    ensures
        ({
            let names = duplicate_names(candidate, existing);
            let at = reported_positions(candidate, existing);
            &&& at.len() == names.len()
            &&& forall|k: int|
                0 <= k < at.len() ==> 0 <= #[trigger] at[k] < existing.len() && reported_name(
                    candidate,
                    existing[at[k]],
                ) == Some(names[k])
            &&& forall|j: int, k: int| 0 <= j < k < at.len() ==> at[j] < at[k]
            &&& forall|i: int|
                0 <= i < existing.len() && reported_name(candidate, #[trigger] existing[i])
                    is Some ==> at.contains(i)
        }),
    decreases existing.len(),
{
    if existing.len() > 0 {
        let front = existing.drop_last();
        lemma_duplicates_keep_order(candidate, front);
        let at = reported_positions(candidate, existing);
        let earlier = reported_positions(candidate, front);
        let last = existing.len() - 1;
        assert forall|k: int| 0 <= k < earlier.len() implies existing[#[trigger] earlier[k]]
            == front[earlier[k]] by {}
        if reported_name(candidate, existing.last()) is Some {
            assert(at[at.len() - 1] == last);
        }
        assert forall|i: int|
            0 <= i < existing.len() && reported_name(candidate, #[trigger] existing[i])
                is Some implies at.contains(i) by {
            if i < last {
                assert(front[i] == existing[i]);
                let k = choose|k: int| 0 <= k < earlier.len() && earlier[k] == i;
                assert(at[k] == i);
            } else {
                assert(at[at.len() - 1] == i);
            }
        }
    }
}

/// Finds the Services that have the selector of `service`, and returns their
/// names in the order of `current_services`. Services without a name are
/// left out.
pub fn find_services_with_duplicate_selectors(
    service: &Service,
    current_services: Vec<Service>,
) -> (names: Vec<String>)
    ensures
        names.deep_view() == duplicate_names(service@, current_services.deep_view()),
        names@.len() == duplicate_names(service@, current_services.deep_view()).len(),
        current_services@.len() == 0 ==> names@.len() == 0,
{
    let ghost existing = current_services.deep_view();
    let mut names: Vec<String> = Vec::new();
    let mut i: usize = 0;
    while i < current_services.len()
        invariant
            i <= current_services@.len(),
            existing == current_services.deep_view(),
            names.deep_view() == duplicate_names(service@, existing.take(i as int)),
        decreases current_services@.len() - i,
    {
        let svc = &current_services[i];
        let ghost before = names.deep_view();
        proof {
            assert(existing.take(i + 1).drop_last() == existing.take(i as int));
            assert(existing.take(i + 1).last() == svc@);
        }
        if services_have_same_selectors(svc, service) {
            match &svc.name {
                Some(name) => {
                    names.push(name.clone());
                    proof {
                        assert(names.deep_view() == before + seq![name@]);
                    }
                },
                None => {},
            }
        }
        i += 1;
    }
    proof {
        assert(existing.take(i as int) == existing);
        assert(names.deep_view().len() == names@.len());
    }
    names
}

} // verus!
