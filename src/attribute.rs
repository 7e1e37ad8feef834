//! Key/value metadata of a service and the requirements an opener places
//! on it.

use vstd::prelude::*;

verus! {

/// One key/value pair of metadata.
#[derive(Debug)]
pub struct Attribute {
    pub key: String,
    pub value: String,
}

impl Clone for Attribute {
    fn clone(&self) -> (r: Attribute)
        ensures
            r == *self,
    {
        Attribute { key: self.key.clone(), value: self.value.clone() }
    }
}

/// The metadata a service declares about itself, in the order it was
/// defined.
#[derive(Debug)]
pub struct AttributeSet {
    attributes: Vec<Attribute>,
}

/// A sequence of pairs holds the pair `(k, v)`.
pub open spec fn has_pair(attrs: Seq<(Seq<char>, Seq<char>)>, k: Seq<char>, v: Seq<char>) -> bool {
    exists|i: int| 0 <= i < attrs.len() && #[trigger] attrs[i] == (k, v)
}

/// A sequence of pairs holds a pair with key `k`.
pub open spec fn has_key(attrs: Seq<(Seq<char>, Seq<char>)>, k: Seq<char>) -> bool {
    exists|i: int| 0 <= i < attrs.len() && #[trigger] attrs[i].0 == k
}

impl View for AttributeSet {
    type V = Seq<(Seq<char>, Seq<char>)>;

    closed spec fn view(&self) -> Seq<(Seq<char>, Seq<char>)> {
        self.attributes@.map_values(|a: Attribute| (a.key@, a.value@))
    }
}

impl Clone for AttributeSet {
    fn clone(&self) -> (r: AttributeSet)
        ensures
            r@ == self@,
    {
        let mut attributes: Vec<Attribute> = Vec::new();
        let mut i: usize = 0;
        while i < self.attributes.len()
            invariant
                i <= self.attributes.len(),
                attributes@ == self.attributes@.subrange(0, i as int),
            decreases self.attributes.len() - i,
        {
            attributes.push(self.attributes[i].clone());
            assert(attributes@ =~= self.attributes@.subrange(0, i + 1));
            i = i + 1;
        }
        assert(attributes@ =~= self.attributes@);
        AttributeSet { attributes }
    }
}

impl AttributeSet {
    /// An empty set.
    pub fn new() -> (r: AttributeSet)
        ensures
            r@ == Seq::<(Seq<char>, Seq<char>)>::empty(),
    {
        let r = AttributeSet { attributes: Vec::new() };
        assert(r@ =~= Seq::<(Seq<char>, Seq<char>)>::empty());
        r
    }

    /// Adds the pair `(key, value)` after those already defined.
    pub fn define(self, key: &str, value: &str) -> (r: AttributeSet)
        ensures
            r@ == self@.push((key@, value@)),
    {
        let mut attributes = self.attributes;
        attributes.push(Attribute { key: key.to_owned(), value: value.to_owned() });
        let r = AttributeSet { attributes };
        assert(r@ =~= self@.push((key@, value@)));
        r
    }

    /// The number of pairs.
    pub fn len(&self) -> (r: usize)
        ensures
            r == self@.len(),
    {
        self.attributes.len()
    }

    /// Returns true when the set holds the pair `(key, value)`.
    pub fn contains(&self, key: &String, value: &String) -> (r: bool)
        ensures
            r == has_pair(self@, key@, value@),
    {
        let mut i: usize = 0;
        while i < self.attributes.len()
            invariant
                i <= self.attributes.len(),
                self@.len() == self.attributes.len(),
                forall|j: int| 0 <= j < i ==> self@[j] != (key@, value@),
            decreases self.attributes.len() - i,
        {
            let a = &self.attributes[i];
            assert(self@[i as int] == (a.key@, a.value@));
            if a.key == *key && a.value == *value {
                return true;
            }
            i = i + 1;
        }
        false
    }

    /// Returns true when the set holds a pair with key `key`.
    pub fn contains_key(&self, key: &String) -> (r: bool)
        ensures
            r == has_key(self@, key@),
    {
        let mut i: usize = 0;
        while i < self.attributes.len()
            invariant
                i <= self.attributes.len(),
                self@.len() == self.attributes.len(),
                forall|j: int| 0 <= j < i ==> self@[j].0 != key@,
            decreases self.attributes.len() - i,
        {
            let a = &self.attributes[i];
            assert(self@[i as int] == (a.key@, a.value@));
            if a.key == *key {
                assert(self@[i as int].0 == key@);
                return true;
            }
            i = i + 1;
        }
        false
    }
}

/// The requirements an opener places on the metadata of a service: pairs
/// that must be present, and keys that must be present with any value.
#[derive(Clone, Debug)]
pub struct AttributeVerifier {
    required_attributes: Vec<Attribute>,
    required_keys: Vec<String>,
}

/// A set of metadata meets the required pairs `pairs` and required keys
/// `keys`.
pub open spec fn satisfies(
    pairs: Seq<(Seq<char>, Seq<char>)>,
    keys: Seq<Seq<char>>,
    attrs: Seq<(Seq<char>, Seq<char>)>,
) -> bool {
    &&& forall|i: int| 0 <= i < pairs.len() ==> has_pair(attrs, #[trigger] pairs[i].0, pairs[i].1)
    &&& forall|i: int| 0 <= i < keys.len() ==> has_key(attrs, #[trigger] keys[i])
}

impl AttributeVerifier {
    /// The required pairs, in the order they were added.
    pub closed spec fn spec_pairs(&self) -> Seq<(Seq<char>, Seq<char>)> {
        self.required_attributes@.map_values(|a: Attribute| (a.key@, a.value@))
    }

    /// The required keys, in the order they were added.
    pub closed spec fn spec_keys(&self) -> Seq<Seq<char>> {
        self.required_keys@.map_values(|k: String| k@)
    }

    /// A verifier without requirements, which accepts any metadata.
    pub fn new() -> (r: AttributeVerifier)
        ensures
            r.spec_pairs().len() == 0,
            r.spec_keys().len() == 0,
    {
        AttributeVerifier { required_attributes: Vec::new(), required_keys: Vec::new() }
    }

    /// Adds the requirement that the pair `(key, value)` is present.
    pub fn require(self, key: &str, value: &str) -> (r: AttributeVerifier)
        ensures
            r.spec_pairs() == self.spec_pairs().push((key@, value@)),
            r.spec_keys() == self.spec_keys(),
    {
        let mut required_attributes = self.required_attributes;
        required_attributes.push(Attribute { key: key.to_owned(), value: value.to_owned() });
        let r = AttributeVerifier { required_attributes, required_keys: self.required_keys };
        assert(r.spec_pairs() =~= self.spec_pairs().push((key@, value@)));
        r
    }

    /// Adds the requirement that some pair with key `key` is present.
    pub fn require_key(self, key: &str) -> (r: AttributeVerifier)
        ensures
            r.spec_pairs() == self.spec_pairs(),
            r.spec_keys() == self.spec_keys().push(key@),
    {
        let mut required_keys = self.required_keys;
        required_keys.push(key.to_owned());
        let r = AttributeVerifier { required_attributes: self.required_attributes, required_keys };
        assert(r.spec_keys() =~= self.spec_keys().push(key@));
        r
    }

    /// Returns true when `attributes` meets every requirement.
    pub fn verify(&self, attributes: &AttributeSet) -> (r: bool)
        ensures
            r == satisfies(self.spec_pairs(), self.spec_keys(), attributes@),
    {
        let mut i: usize = 0;
        while i < self.required_attributes.len()
            invariant
                i <= self.required_attributes.len(),
                self.spec_pairs().len() == self.required_attributes.len(),
                forall|j: int|
                    0 <= j < i ==> has_pair(
                        attributes@,
                        #[trigger] self.spec_pairs()[j].0,
                        self.spec_pairs()[j].1,
                    ),
            decreases self.required_attributes.len() - i,
        {
            let a = &self.required_attributes[i];
            assert(self.spec_pairs()[i as int] == (a.key@, a.value@));
            if !attributes.contains(&a.key, &a.value) {
                assert(!has_pair(attributes@, self.spec_pairs()[i as int].0, self.spec_pairs()[i as int].1));
                return false;
            }
            i = i + 1;
        }
        let mut k: usize = 0;
        while k < self.required_keys.len()
            invariant
                k <= self.required_keys.len(),
                self.spec_keys().len() == self.required_keys.len(),
                forall|j: int| 0 <= j < k ==> has_key(attributes@, #[trigger] self.spec_keys()[j]),
            decreases self.required_keys.len() - k,
        {
            assert(self.spec_keys()[k as int] == self.required_keys[k as int]@);
            if !attributes.contains_key(&self.required_keys[k]) {
                assert(!has_key(attributes@, self.spec_keys()[k as int]));
                return false;
            }
            k = k + 1;
        }
        true
    }
}

/// A verifier without requirements accepts any metadata.
pub proof fn lemma_no_requirements_accepts_all(attrs: Seq<(Seq<char>, Seq<char>)>)
    ensures
        satisfies(Seq::empty(), Seq::empty(), attrs),
{
}

/// Each requirement of `pairs_a` and `keys_a` stands in `pairs_b` and
/// `keys_b` too.
pub open spec fn requirements_within(
    pairs_a: Seq<(Seq<char>, Seq<char>)>,
    keys_a: Seq<Seq<char>>,
    pairs_b: Seq<(Seq<char>, Seq<char>)>,
    keys_b: Seq<Seq<char>>,
) -> bool {
    &&& forall|i: int| 0 <= i < pairs_a.len() ==> pairs_b.contains(#[trigger] pairs_a[i])
    &&& forall|i: int| 0 <= i < keys_a.len() ==> keys_b.contains(#[trigger] keys_a[i])
}

/// The order (and repetition) of requirements does not change the result:
/// two verifiers that hold the same requirements accept the same metadata.
pub proof fn lemma_requirement_order_irrelevant(
    pairs_a: Seq<(Seq<char>, Seq<char>)>,
    keys_a: Seq<Seq<char>>,
    pairs_b: Seq<(Seq<char>, Seq<char>)>,
    keys_b: Seq<Seq<char>>,
    attrs: Seq<(Seq<char>, Seq<char>)>,
)
    requires
        requirements_within(pairs_a, keys_a, pairs_b, keys_b),
        requirements_within(pairs_b, keys_b, pairs_a, keys_a),
    ensures
        satisfies(pairs_a, keys_a, attrs) == satisfies(pairs_b, keys_b, attrs),
{
    lemma_within_preserves(pairs_a, keys_a, pairs_b, keys_b, attrs);
    lemma_within_preserves(pairs_b, keys_b, pairs_a, keys_a, attrs);
}

proof fn lemma_within_preserves(
    pairs_a: Seq<(Seq<char>, Seq<char>)>,
    keys_a: Seq<Seq<char>>,
    pairs_b: Seq<(Seq<char>, Seq<char>)>,
    keys_b: Seq<Seq<char>>,
    attrs: Seq<(Seq<char>, Seq<char>)>,
)
    requires
        requirements_within(pairs_a, keys_a, pairs_b, keys_b),
    ensures
        satisfies(pairs_b, keys_b, attrs) ==> satisfies(pairs_a, keys_a, attrs),
{
    if satisfies(pairs_b, keys_b, attrs) {
        assert forall|i: int| 0 <= i < pairs_a.len() implies has_pair(
            attrs,
            #[trigger] pairs_a[i].0,
            pairs_a[i].1,
        ) by {
            assert(pairs_b.contains(pairs_a[i]));
            let j = choose|j: int| 0 <= j < pairs_b.len() && pairs_b[j] == pairs_a[i];
            assert(has_pair(attrs, pairs_b[j].0, pairs_b[j].1));
        }
        assert forall|i: int| 0 <= i < keys_a.len() implies has_key(attrs, #[trigger] keys_a[i]) by {
            assert(keys_b.contains(keys_a[i]));
            let j = choose|j: int| 0 <= j < keys_b.len() && keys_b[j] == keys_a[i];
            assert(has_key(attrs, keys_b[j]));
        }
    }
}

} // verus!
