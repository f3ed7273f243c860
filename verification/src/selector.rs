//! Label selectors: finite maps from label keys to label values.

use vstd::prelude::*;

verus! {

/// The mathematical model of a selector: the value that each label key maps to.
pub type Labels = Map<Seq<char>, Seq<char>>;

/// The labels that a list of key-value pairs describes. A key that occurs
/// more than once keeps the value of its last occurrence.
pub open spec fn labels_of(pairs: Seq<(String, String)>) -> Labels
    decreases pairs.len(),
{
    if pairs.len() == 0 {
        Map::empty()
    } else {
        labels_of(pairs.drop_last()).insert(pairs.last().0@, pairs.last().1@)
    }
}

/// The key of the pair at position `i`.
pub open spec fn key_at(pairs: Seq<(String, String)>, i: int) -> Seq<char> {
    pairs[i].0@
}

/// No key occurs at two positions.
pub open spec fn distinct_keys(pairs: Seq<(String, String)>) -> bool {
    forall|i: int, j: int|
        0 <= i < j < pairs.len() ==> #[trigger] key_at(pairs, i) != #[trigger] key_at(pairs, j)
}

/// The keys of `labels_of(pairs)` are the keys that occur in `pairs`, and
/// where no key occurs twice each pair's value is the one its key maps to.
pub proof fn lemma_labels_of(pairs: Seq<(String, String)>)
    ensures
        forall|k: Seq<char>|
            labels_of(pairs).contains_key(k) <==> exists|i: int|
                0 <= i < pairs.len() && #[trigger] key_at(pairs, i) == k,
        distinct_keys(pairs) ==> forall|i: int|
            0 <= i < pairs.len() ==> labels_of(pairs)[#[trigger] key_at(pairs, i)] == pairs[i].1@,
    decreases pairs.len(),
{
    if pairs.len() > 0 {
        let front = pairs.drop_last();
        let last = pairs.len() - 1;
        lemma_labels_of(front);
        assert(labels_of(pairs) == labels_of(front).insert(key_at(pairs, last), pairs[last].1@));
        assert forall|k: Seq<char>|
            labels_of(pairs).contains_key(k) <==> exists|i: int|
                0 <= i < pairs.len() && #[trigger] key_at(pairs, i) == k by {
            let occurs = exists|i: int| 0 <= i < pairs.len() && #[trigger] key_at(pairs, i) == k;
            if labels_of(pairs).contains_key(k) {
                if k == key_at(pairs, last) {
                    assert(occurs);
                } else {
                    assert(labels_of(front).contains_key(k));
                    let i = choose|i: int| 0 <= i < front.len() && #[trigger] key_at(front, i) == k;
                    assert(key_at(pairs, i) == k);
                    assert(occurs);
                }
            }
            if occurs {
                let i = choose|i: int| 0 <= i < pairs.len() && #[trigger] key_at(pairs, i) == k;
                if i < last {
                    assert(key_at(front, i) == k);
                    assert(labels_of(front).contains_key(k));
                }
                assert(labels_of(pairs).contains_key(k));
            }
        }
        if distinct_keys(pairs) {
            assert forall|i: int, j: int| 0 <= i < j < front.len() implies #[trigger] key_at(
                front,
                i,
            ) != #[trigger] key_at(front, j) by {
                assert(key_at(pairs, i) != key_at(pairs, j));
            }
            assert forall|i: int| 0 <= i < pairs.len() implies labels_of(pairs)[#[trigger] key_at(
                pairs,
                i,
            )] == pairs[i].1@ by {
                if i < last {
                    assert(key_at(pairs, i) != key_at(pairs, last));
                    assert(key_at(front, i) == key_at(pairs, i));
                }
            }
        }
    }
}

/// Whether two selectors select the same pods: they hold the same labels, and
/// at least one label. Selectors without labels select nothing, so two of them
/// are never the same.
pub open spec fn same_selector(a: Labels, b: Labels) -> bool {
    if a == Labels::empty() && b == Labels::empty() {
        false
    } else {
        a == b
    }
}

/// The order of the two selectors does not matter.
pub proof fn lemma_same_selector_symmetric(a: Labels, b: Labels)
    ensures
        same_selector(a, b) == same_selector(b, a),
{
}

/// A selector with at least one label is the same as itself.
pub proof fn lemma_same_selector_reflexive(s: Labels)
    requires
        s != Labels::empty(),
    ensures
        same_selector(s, s),
{
}

/// The selector without labels is the same as no selector, itself included.
pub proof fn lemma_empty_selector_never_same(s: Labels)
    ensures
        !same_selector(Labels::empty(), s),
        !same_selector(s, Labels::empty()),
{
}

/// A label selector: a finite map from label keys to label values, in which
/// every key occurs once.
#[derive(Debug)]
pub struct Selector {
    pairs: Vec<(String, String)>,
}

impl View for Selector {
    type V = Labels;

    closed spec fn view(&self) -> Labels {
        labels_of(self.pairs@)
    }
}

impl Selector {
    #[verifier::type_invariant]
    spec fn well_formed(self) -> bool {
        distinct_keys(self.pairs@)
    }

    /// The selector without labels.
    pub fn new() -> (selector: Selector)
        ensures
            selector@ == Labels::empty(),
    {
        Selector { pairs: Vec::new() }
    }

    /// Whether the selector has no label.
    pub fn is_empty(&self) -> (empty: bool)
        ensures
            empty == (self@ == Labels::empty()),
    {
        proof {
            lemma_labels_of(self.pairs@);
            if self.pairs@.len() > 0 {
                assert(self@.contains_key(key_at(self.pairs@, 0)));
            }
        }
        self.pairs.len() == 0
    }

    /// The position of `key` among the pairs.
    fn position(&self, key: &String) -> (found: Option<usize>)
        ensures
            match found {
                Some(i) => i < self.pairs@.len() && key_at(self.pairs@, i as int) == key@,
                None => forall|i: int| 0 <= i < self.pairs@.len() ==> key_at(self.pairs@, i) != key@,
            },
    {
        let mut i: usize = 0;
        while i < self.pairs.len()
            invariant
                i <= self.pairs@.len(),
                forall|j: int| 0 <= j < i ==> key_at(self.pairs@, j) != key@,
            decreases self.pairs@.len() - i,
        {
            if self.pairs[i].0 == *key {
                return Some(i);
            }
            i += 1;
        }
        None
    }

    /// The value that `key` maps to, if it has one.
    pub fn get(&self, key: &String) -> (value: Option<&String>)
        ensures
            match value {
                Some(v) => self@.contains_key(key@) && v@ == self@[key@],
                None => !self@.contains_key(key@),
            },
    {
        proof {
            use_type_invariant(self);
            lemma_labels_of(self.pairs@);
        }
        match self.position(key) {
            Some(i) => Some(&self.pairs[i].1),
            None => None,
        }
    }

    /// Maps `key` to `value`, and returns the value that `key` mapped to before.
    pub fn insert(&mut self, key: String, value: String) -> (previous: Option<String>)
        ensures
            final(self)@ == old(self)@.insert(key@, value@),
            match previous {
                Some(v) => old(self)@.contains_key(key@) && v@ == old(self)@[key@],
                None => !old(self)@.contains_key(key@),
            },
    {
        proof {
            use_type_invariant(&*self);
            lemma_labels_of(self.pairs@);
        }
        let found = self.position(&key);
        let ghost before = self.pairs@;
        let mut pairs: Vec<(String, String)> = Vec::new();
        std::mem::swap(&mut pairs, &mut self.pairs);
        let previous = match found {
            Some(i) => {
                let previous = pairs[i].1.clone();
                pairs.set(i, (key, value));
                proof {
                    lemma_replaced_pair(before, pairs@, i as int);
                }
                Some(previous)
            },
            None => {
                pairs.push((key, value));
                proof {
                    assert(pairs@.drop_last() == before);
                    assert forall|i: int, j: int| 0 <= i < j < pairs@.len() implies #[trigger] key_at(
                        pairs@,
                        i,
                    ) != #[trigger] key_at(pairs@, j) by {
                        assert(key_at(before, i) == key_at(pairs@, i));
                        if j < before.len() {
                            assert(key_at(before, j) == key_at(pairs@, j));
                        }
                    }
                }
                None
            },
        };
        self.pairs = pairs;
        previous
    }

    /// The selector that a list of key-value pairs describes: of the pairs
    /// with one key the last decides.
    pub fn from_pairs(pairs: Vec<(String, String)>) -> (selector: Selector)
        ensures
            selector@ == labels_of(pairs@),
    {
        let mut selector = Selector::new();
        let mut i: usize = 0;
        while i < pairs.len()
            invariant
                i <= pairs@.len(),
                selector@ == labels_of(pairs@.take(i as int)),
            decreases pairs@.len() - i,
        {
            selector.insert(pairs[i].0.clone(), pairs[i].1.clone());
            proof {
                assert(pairs@.take(i + 1).drop_last() == pairs@.take(i as int));
            }
            i += 1;
        }
        proof {
            assert(pairs@.take(i as int) == pairs@);
        }
        selector
    }

    /// Whether every label of `self` is a label of `other`, with the same value.
    pub fn is_part_of(&self, other: &Selector) -> (part: bool)
        ensures
            part == self@.submap_of(other@),
    {
        proof {
            use_type_invariant(self);
            lemma_labels_of(self.pairs@);
        }
        let mut i: usize = 0;
        while i < self.pairs.len()
            invariant
                i <= self.pairs@.len(),
                distinct_keys(self.pairs@),
                forall|j: int|
                    0 <= j < i ==> other@.contains_key(#[trigger] key_at(self.pairs@, j))
                        && other@[key_at(self.pairs@, j)] == self.pairs@[j].1@,
            decreases self.pairs@.len() - i,
        {
            proof {
                lemma_labels_of(self.pairs@);
                assert(self@.contains_key(key_at(self.pairs@, i as int)));
            }
            match other.get(&self.pairs[i].0) {
                Some(value) => {
                    if !(*value == self.pairs[i].1) {
                        return false;
                    }
                },
                None => {
                    return false;
                },
            }
            i += 1;
        }
        proof {
            lemma_labels_of(self.pairs@);
            assert forall|k: Seq<char>| self@.contains_key(k) implies #[trigger] other@.contains_key(k)
                && self@[k] == other@[k] by {
                let j = choose|j: int| 0 <= j < self.pairs@.len() && #[trigger] key_at(self.pairs@, j) == k;
                assert(self@[key_at(self.pairs@, j)] == self.pairs@[j].1@);
            }
        }
        true
    }

    /// Whether `self` and `other` select the same pods.
    pub fn same_selector(&self, other: &Selector) -> (same: bool)
        ensures
            same == same_selector(self@, other@),
    {
        if self.is_empty() && other.is_empty() {
            return false;
        }
        *self == *other
    }
}

impl PartialEq for Selector {
    /// Two selectors are equal when they hold the same labels.
    fn eq(&self, other: &Selector) -> (equal: bool) {
        let equal = self.is_part_of(other) && other.is_part_of(self);
        proof {
            self@.lemma_submap_eq_iff(other@);
        }
        equal
    }
}

impl Clone for Selector {
    fn clone(&self) -> (copy: Selector)
        ensures
            copy@ == self@,
    {
        proof {
            use_type_invariant(self);
        }
        let mut pairs: Vec<(String, String)> = Vec::new();
        let mut i: usize = 0;
        while i < self.pairs.len()
            invariant
                i <= self.pairs@.len(),
                pairs@ == self.pairs@.take(i as int),
            decreases self.pairs@.len() - i,
        {
            pairs.push((self.pairs[i].0.clone(), self.pairs[i].1.clone()));
            i += 1;
        }
        proof {
            assert(pairs@ == self.pairs@);
        }
        Selector { pairs }
    }
}

impl Eq for Selector {}

impl vstd::std_specs::cmp::PartialEqSpecImpl for Selector {
    open spec fn obeys_eq_spec() -> bool {
        true
    }

    open spec fn eq_spec(&self, other: &Selector) -> bool {
        self@ == other@
    }
}

/// Replacing the value of the pair at `at` maps that pair's key to the new
/// value and leaves the other keys as they were.
proof fn lemma_replaced_pair(before: Seq<(String, String)>, after: Seq<(String, String)>, at: int)
    requires
        distinct_keys(before),
        0 <= at < before.len(),
        after.len() == before.len(),
        key_at(after, at) == key_at(before, at),
        forall|i: int| 0 <= i < before.len() && i != at ==> after[i] == before[i],
    ensures
        distinct_keys(after),
        labels_of(after) == labels_of(before).insert(key_at(after, at), after[at].1@),
{
    assert forall|i: int| 0 <= i < before.len() implies #[trigger] key_at(after, i) == key_at(
        before,
        i,
    ) by {}
    assert forall|i: int, j: int| 0 <= i < j < after.len() implies #[trigger] key_at(after, i)
        != #[trigger] key_at(after, j) by {
        assert(key_at(before, i) != key_at(before, j));
    }
    lemma_labels_of(before);
    lemma_labels_of(after);
    let expected = labels_of(before).insert(key_at(after, at), after[at].1@);
    assert forall|k: Seq<char>| labels_of(after).contains_key(k) <==> expected.contains_key(k) by {
        if labels_of(after).contains_key(k) {
            let i = choose|i: int| 0 <= i < after.len() && #[trigger] key_at(after, i) == k;
            assert(key_at(before, i) == k);
        }
        if expected.contains_key(k) && k != key_at(after, at) {
            let i = choose|i: int| 0 <= i < before.len() && #[trigger] key_at(before, i) == k;
            assert(key_at(after, i) == k);
        }
    }
    assert forall|k: Seq<char>| labels_of(after).contains_key(k) implies labels_of(after)[k]
        == expected[k] by {
        let i = choose|i: int| 0 <= i < after.len() && #[trigger] key_at(after, i) == k;
        assert(labels_of(after)[key_at(after, i)] == after[i].1@);
        if i != at {
            assert(key_at(before, i) == k);
            assert(labels_of(before)[key_at(before, i)] == before[i].1@);
            assert(key_at(before, i) != key_at(before, at));
        }
    }
    assert(labels_of(after) =~= expected);
}

} // verus!
