//! A resolved attribute has THREE states, and `Option` carries two.
//!
//! * **known** - the source answered with a value.
//! * **absent** - the source answered, and the answer is that there is no
//!   value. A decision made without it is a complete decision.
//! * **unknown** - the source could not answer. A decision made without it
//!   MIGHT have gone the other way.
//!
//! | state   | wire                    | outcome                                      |
//! |---------|-------------------------|----------------------------------------------|
//! | known   | the member, with value  | evaluated                                    |
//! | absent  | the member is OMITTED   | evaluated, without a fact that has no value  |
//! | unknown | never reaches the wire  | refused before the round trip, NOT retryable |
//!
//! The bag of attributes keeps its members in key order, so the same bag
//! always yields the same bytes and the same first refusal.

use vstd::prelude::*;
use crate::authzen::types::{AuthZenError, AuthZenErrorCode};
use crate::order::{lex_lt, lex_lt_exec, lemma_lex_total, lemma_lex_transitive, lemma_lex_irreflexive, lemma_lex_asymmetric};
use crate::text::{append, chars_of, debug_quote, debug_quoted, owned, seq_eq};

verus! {

/// One attribute, in one of three states.
#[derive(Clone, Debug, PartialEq, Eq)]
pub enum Attribute<T> {
    /// The source answered with this value.
    Known(T),
    /// The source answered: there is no value.
    Absent,
    /// The source could not answer. Carries why.
    Unknown(String),
}

impl<T> Attribute<T> {
    /// The source answered with a value.
    pub fn known(value: T) -> (a: Self)
        ensures
            a == Attribute::Known(value),
    {
        Attribute::Known(value)
    }

    /// The source answered, and there is no value.
    pub fn absent() -> (a: Self)
        ensures
            a is Absent,
    {
        Attribute::Absent
    }

    /// The source could not answer. `why` reaches the refusal message.
    pub fn unknown(why: &str) -> (a: Self)
        ensures
            a is Unknown,
            a->Unknown_0@ == why@,
    {
        Attribute::Unknown(owned(why))
    }

    /// Reads all three states at once.
    pub fn fold<R>(
        &self,
        on_known: impl FnOnce(&T) -> R,
        on_absent: impl FnOnce() -> R,
        on_unknown: impl FnOnce(&str) -> R,
    ) -> (r: R)
        requires
            match self {
                Attribute::Known(v) => on_known.requires((v,)),
                Attribute::Absent => on_absent.requires(()),
                Attribute::Unknown(why) => forall|s: &str| s@ == why@ ==> on_unknown.requires((s,)),
            },
        ensures
            match self {
                Attribute::Known(v) => on_known.ensures((v,), r),
                Attribute::Absent => on_absent.ensures((), r),
                Attribute::Unknown(why) => exists|s: &str| s@ == why@ && on_unknown.ensures((s,), r),
            },
    {
        match self {
            Attribute::Known(v) => on_known(v),
            Attribute::Absent => on_absent(),
            Attribute::Unknown(why) => on_unknown(why.as_str()),
        }
    }

    /// The value, if the source answered with one. Collapses absent and
    /// unknown, so it is for inspection, not for deciding what to send.
    pub fn as_known(&self) -> (r: Option<&T>)
        ensures
            match self {
                Attribute::Known(v) => r == Some(v),
                _ => r is None,
            },
    {
        match self {
            Attribute::Known(v) => Some(v),
            _ => None,
        }
    }

    /// Whether the source answered with a value.
    pub fn is_known(&self) -> (r: bool)
        ensures
            r == (self is Known),
    {
        matches!(self, Attribute::Known(_))
    }

    /// Whether the source answered that there is no value.
    pub fn is_absent(&self) -> (r: bool)
        ensures
            r == (self is Absent),
    {
        matches!(self, Attribute::Absent)
    }

    /// Whether the source could not answer.
    pub fn is_unknown(&self) -> (r: bool)
        ensures
            r == (self is Unknown),
    {
        matches!(self, Attribute::Unknown(_))
    }

    /// Applies `f` to a known value, leaving the other two states alone.
    pub fn map<U>(self, f: impl FnOnce(T) -> U) -> (r: Attribute<U>)
        requires
            self is Known ==> f.requires((self->Known_0,)),
        ensures
            match self {
                Attribute::Known(v) => r is Known && f.ensures((v,), r->Known_0),
                Attribute::Absent => r is Absent,
                Attribute::Unknown(why) => r == Attribute::<U>::Unknown(why),
            },
            forall|g: spec_fn(T) -> U|
                (forall|v: T, u: U| f.ensures((v,), u) ==> u == g(v)) ==> r == #[trigger] mapped(self, g),
    {
        match self {
            Attribute::Known(v) => Attribute::Known(f(v)),
            Attribute::Absent => Attribute::Absent,
            Attribute::Unknown(why) => Attribute::Unknown(why),
        }
    }
}

/// `a` with `g` applied to a known value; absent and unknown (with its
/// reason) pass through untouched.
pub open spec fn mapped<T, U>(a: Attribute<T>, g: spec_fn(T) -> U) -> Attribute<U> {
    match a {
        Attribute::Known(v) => Attribute::Known(g(v)),
        Attribute::Absent => Attribute::Absent,
        Attribute::Unknown(why) => Attribute::Unknown(why),
    }
}

/// Mapping the identity changes nothing.
pub proof fn law_map_identity<T>(a: Attribute<T>)
    ensures
        mapped(a, |v: T| v) == a,
{
}

/// Mapping twice is mapping the composition once.
pub proof fn law_map_composes<T, U, V>(a: Attribute<T>, f: spec_fn(T) -> U, g: spec_fn(U) -> V)
    ensures
        mapped(mapped(a, f), g) == mapped(a, |v: T| g(f(v))),
{
}

/// An unresolved attribute keeps its reason through any map, and an absent
/// one stays absent.
pub proof fn law_map_keeps_what_was_not_known<T, U>(a: Attribute<T>, g: spec_fn(T) -> U)
    ensures
        a is Unknown ==> mapped(a, g) == Attribute::<U>::Unknown(a->Unknown_0),
        a is Absent ==> mapped(a, g) is Absent,
{
}

/// A JSON leaf: anything but an object, which is always a nested bag.
#[derive(Clone, Debug, PartialEq)]
pub enum JsonLeaf {
    Null,
    Bool(bool),
    Int(i64),
    Str(String),
    /// Any other JSON value (a float, a large number, an array), held as
    /// its canonical JSON text.
    Raw(String),
}

/// A leaf value, or a nested bag. The two cases are not public variants, so
/// the un-normalised form (a JSON object as a leaf) cannot be built.
#[derive(Debug, PartialEq)]
pub struct AttributeValue(AttributeValueInner);

#[derive(Debug, PartialEq)]
enum AttributeValueInner {
    Json(JsonLeaf),
    Nested(AttributeMap),
}

impl AttributeValue {
    pub closed spec fn spec_leaf(self) -> Option<JsonLeaf> {
        match self.0 {
            AttributeValueInner::Json(l) => Some(l),
            _ => None,
        }
    }

    pub closed spec fn spec_nested(self) -> Option<AttributeMap> {
        match self.0 {
            AttributeValueInner::Nested(m) => Some(m),
            _ => None,
        }
    }

    /// A leaf value is determined by its leaf.
    pub proof fn lemma_leaf_determines(self, other: AttributeValue)
        requires
            self.spec_leaf() is Some,
            self.spec_leaf() == other.spec_leaf(),
        ensures
            self == other,
    {
    }

    /// A value is exactly one of the two cases.
    pub proof fn lemma_one_case(self)
        ensures
            self.spec_leaf() is Some != self.spec_nested() is Some,
    {
    }

    /// A leaf value.
    pub fn leaf(v: JsonLeaf) -> (r: Self)
        ensures
            r.spec_leaf() == Some(v),
            r.spec_nested() is None,
    {
        AttributeValue(AttributeValueInner::Json(v))
    }

    /// A string leaf.
    pub fn from_str(v: &str) -> (r: Self)
        ensures
            r.spec_leaf() is Some,
            r.spec_leaf()->0 is Str,
            r.spec_leaf()->0->Str_0@ == v@,
    {
        AttributeValue(AttributeValueInner::Json(JsonLeaf::Str(owned(v))))
    }

    /// A string leaf.
    pub fn from_string(v: String) -> (r: Self)
        ensures
            r.spec_leaf() == Some(JsonLeaf::Str(v)),
    {
        AttributeValue(AttributeValueInner::Json(JsonLeaf::Str(v)))
    }

    /// A boolean leaf.
    pub fn from_bool(v: bool) -> (r: Self)
        ensures
            r.spec_leaf() == Some(JsonLeaf::Bool(v)),
    {
        AttributeValue(AttributeValueInner::Json(JsonLeaf::Bool(v)))
    }

    /// An integer leaf.
    pub fn from_i64(v: i64) -> (r: Self)
        ensures
            r.spec_leaf() == Some(JsonLeaf::Int(v)),
    {
        AttributeValue(AttributeValueInner::Json(JsonLeaf::Int(v)))
    }

    /// A nested bag.
    pub fn from_map(v: AttributeMap) -> (r: Self)
        ensures
            r.spec_nested() == Some(v),
            r.spec_leaf() is None,
    {
        AttributeValue(AttributeValueInner::Nested(v))
    }

    /// Reads whichever case this is: `on_json` for a leaf, `on_nested` for
    /// a nested bag.
    pub fn fold<R>(&self, on_json: impl FnOnce(&JsonLeaf) -> R, on_nested: impl FnOnce(&AttributeMap) -> R) -> (r: R)
        requires
            match self.spec_leaf() {
                Some(l) => on_json.requires((&l,)),
                None => on_nested.requires((&self.spec_nested()->Some_0,)),
            },
        ensures
            match self.spec_leaf() {
                Some(l) => on_json.ensures((&l,), r),
                None => on_nested.ensures((&self.spec_nested()->Some_0,), r),
            },
    {
        match &self.0 {
            AttributeValueInner::Json(v) => on_json(v),
            AttributeValueInner::Nested(m) => on_nested(m),
        }
    }

    /// The nested bag, when this is one.
    pub fn as_nested(&self) -> (r: Option<&AttributeMap>)
        ensures
            match self.spec_nested() {
                Some(m) => r == Some(&m),
                None => r is None,
            },
    {
        match &self.0 {
            AttributeValueInner::Nested(m) => Some(m),
            AttributeValueInner::Json(_) => None,
        }
    }

    /// The leaf, when this is one. Never an object.
    pub fn as_json(&self) -> (r: Option<&JsonLeaf>)
        ensures
            match self.spec_leaf() {
                Some(l) => r == Some(&l),
                None => r is None,
            },
    {
        match &self.0 {
            AttributeValueInner::Json(v) => Some(v),
            AttributeValueInner::Nested(_) => None,
        }
    }

    /// The nested bag, taken out of the value.
    fn into_nested(self) -> (r: Option<AttributeMap>)
        ensures
            r == self.spec_nested(),
    {
        match self.0 {
            AttributeValueInner::Nested(m) => Some(m),
            AttributeValueInner::Json(_) => None,
        }
    }
}

/// One member of a bag: its key and its attribute.
pub type Member = (String, Attribute<AttributeValue>);

/// A bag of attributes, ordered by key, each key once.
#[derive(Debug, PartialEq)]
pub struct AttributeMap {
    entries: Vec<Member>,
}

/// Whether the keys of `s` strictly ascend.
pub open spec fn keys_ascend(s: Seq<Member>) -> bool {
    forall|i: int, j: int| 0 <= i < j < s.len() ==> lex_lt(#[trigger] s[i].0@, #[trigger] s[j].0@)
}

/// The attribute recorded under `k` among `s`, if any.
pub open spec fn lookup_in(s: Seq<Member>, k: Seq<char>) -> Option<Attribute<AttributeValue>> {
    if has_key(s, k) {
        Some(s[key_position(s, k)].1)
    } else {
        None
    }
}

/// Whether some member of `s` has key `k`.
pub open spec fn has_key(s: Seq<Member>, k: Seq<char>) -> bool {
    exists|i: int| 0 <= i < s.len() && (#[trigger] s[i]).0@ == k
}

/// A position of a member of `s` with key `k`.
pub open spec fn key_position(s: Seq<Member>, k: Seq<char>) -> int {
    choose|i: int| 0 <= i < s.len() && (#[trigger] s[i]).0@ == k
}

impl AttributeMap {
    #[verifier::type_invariant]
    closed spec fn wf(self) -> bool {
        keys_ascend(self.entries@)
    }

    /// The members, in key order.
    pub closed spec fn members(self) -> Seq<Member> {
        self.entries@
    }

    /// The attribute recorded under `k`, if any.
    pub open spec fn lookup(self, k: Seq<char>) -> Option<Attribute<AttributeValue>> {
        lookup_in(self.members(), k)
    }

    /// An empty bag: the caller resolved no attributes at all.
    pub fn new() -> (m: Self)
        ensures
            m.members().len() == 0,
    {
        AttributeMap { entries: Vec::new() }
    }

    /// Whether the bag holds no members. A member whose value is `Absent`
    /// still counts.
    pub fn is_empty(&self) -> (r: bool)
        ensures
            r == (self.members().len() == 0),
    {
        self.entries.len() == 0
    }

    /// How many members the bag holds, in any state.
    pub fn len(&self) -> (r: usize)
        ensures
            r == self.members().len(),
    {
        self.entries.len()
    }

    /// The members, in key order.
    pub fn iter(&self) -> (r: &[Member])
        ensures
            r@ == self.members(),
    {
        self.entries.as_slice()
    }

    /// Where `key` is, or would go: the first member whose key is not below
    /// it, and whether that member's key is `key`.
    fn locate(&self, key: &[char]) -> (r: (usize, bool))
        ensures
            r.0 <= self.members().len(),
            forall|i: int| 0 <= i < r.0 ==> lex_lt((#[trigger] self.members()[i]).0@, key@),
            r.0 < self.members().len() ==> !lex_lt(self.members()[r.0 as int].0@, key@),
            r.1 == (r.0 < self.members().len() && self.members()[r.0 as int].0@ == key@),
    {
        let mut i: usize = 0;
        while i < self.entries.len()
            invariant
                i <= self.entries@.len(),
                forall|k: int| 0 <= k < i ==> lex_lt((#[trigger] self.entries@[k]).0@, key@),
            decreases self.entries@.len() - i,
        {
            let name = chars_of(self.entries[i].0.as_str());
            if !lex_lt_exec(name.as_slice(), key) {
                let same = seq_eq(name.as_slice(), key);
                return (i, same);
            }
            i += 1;
        }
        (i, false)
    }

    /// Reads one attribute.
    pub fn get(&self, key: &str) -> (r: Option<&Attribute<AttributeValue>>)
        ensures
            match self.lookup(key@) {
                Some(a) => r == Some(&a),
                None => r is None,
            },
    {
        proof {
            use_type_invariant(self);
        }
        let k = chars_of(key);
        let (p, found) = self.locate(k.as_slice());
        proof {
            lemma_lookup_at(self.members(), key@, p as int);
        }
        if found {
            Some(&self.entries[p].1)
        } else {
            None
        }
    }

    /// Whether `key` holds an attribute nobody could resolve.
    fn holds_unresolved(&self, key: &[char]) -> (r: bool)
        ensures
            r == (self.lookup(key@) matches Some(a) && a is Unknown),
    {
        proof {
            use_type_invariant(self);
        }
        let (p, found) = self.locate(key);
        proof {
            lemma_lookup_at(self.members(), key@, p as int);
        }
        found && matches!(self.entries[p].1, Attribute::Unknown(_))
    }

    /// Records one attribute, REPLACING whatever was there.
    pub fn insert(&mut self, key: &str, value: Attribute<AttributeValue>)
        ensures
            final(self).lookup(key@) == Some(value),
            forall|k: Seq<char>| k != key@ ==> final(self).lookup(k) == old(self).lookup(k),
            final(self).members().len() == old(self).members().len() + if old(self).lookup(key@) is Some { 0int } else { 1int },
    {
        let k = chars_of(key);
        self.put(k.as_slice(), owned(key), value);
    }

    /// Writes `value` under the key spelled `name` (whose characters are `key`).
    fn put(&mut self, key: &[char], name: String, value: Attribute<AttributeValue>)
        requires
            name@ == key@,
        ensures
            final(self).lookup(key@) == Some(value),
            forall|k: Seq<char>| k != key@ ==> final(self).lookup(k) == old(self).lookup(k),
            final(self).members().len() == old(self).members().len() + if old(self).lookup(key@) is Some { 0int } else { 1int },
    {
        proof {
            use_type_invariant(&*self);
        }
        let (p, found) = self.locate(key);
        let ghost before = self.entries@;
        proof {
            lemma_lookup_at(before, key@, p as int);
        }
        let mut entries: Vec<Member> = Vec::new();
        std::mem::swap(&mut entries, &mut self.entries);
        if found {
            entries.set(p, (name, value));
            proof {
                let after = entries@;
                assert(after == before.update(p as int, (name, value)));
                assert(keys_ascend(after)) by {
                    assert forall|i: int, j: int| 0 <= i < j < after.len() implies lex_lt(#[trigger] after[i].0@, #[trigger] after[j].0@) by {
                        assert(lex_lt(before[i].0@, before[j].0@));
                    }
                }
                lemma_lookup_unique(after, key@, p as int);
                assert forall|k: Seq<char>| k != key@ implies lookup_in(after, k) == lookup_in(before, k) by {
                    lemma_lookup_same_elsewhere_update(before, after, p as int, k);
                }
            }
        } else {
            entries.insert(p, (name, value));
            proof {
                let after = entries@;
                assert(after == before.insert(p as int, (name, value)));
                assert(keys_ascend(after)) by {
                    assert forall|i: int, j: int| 0 <= i < j < after.len() implies lex_lt(#[trigger] after[i].0@, #[trigger] after[j].0@) by {
                        if j < p {
                            assert(lex_lt(before[i].0@, before[j].0@));
                        } else if j == p {
                        } else if i < p {
                            lemma_lex_total(before[p as int].0@, key@);
                            if j - 1 > p {
                                assert(lex_lt(before[p as int].0@, before[j - 1].0@));
                                lemma_lex_transitive(key@, before[p as int].0@, before[j - 1].0@);
                            }
                            lemma_lex_transitive(before[i].0@, key@, before[j - 1].0@);
                        } else if i == p {
                            lemma_lex_total(before[p as int].0@, key@);
                            if j - 1 > p {
                                assert(lex_lt(before[p as int].0@, before[j - 1].0@));
                                lemma_lex_transitive(key@, before[p as int].0@, before[j - 1].0@);
                            }
                        } else {
                            assert(lex_lt(before[i - 1].0@, before[j - 1].0@));
                        }
                    }
                }
                lemma_lookup_unique(after, key@, p as int);
                assert forall|k: Seq<char>| k != key@ implies lookup_in(after, k) == lookup_in(before, k) by {
                    lemma_lookup_same_elsewhere_insert(before, after, p as int, k);
                }
            }
        }
        self.entries = entries;
    }
}

impl AttributeMap {
    /// Takes the member under `key` out of the bag.
    fn take(&mut self, key: &[char]) -> (r: Option<Attribute<AttributeValue>>)
        ensures
            r == old(self).lookup(key@),
            final(self).lookup(key@) is None,
            forall|k: Seq<char>| k != key@ ==> final(self).lookup(k) == old(self).lookup(k),
    {
        proof {
            use_type_invariant(&*self);
        }
        let (p, found) = self.locate(key);
        let ghost before = self.entries@;
        proof {
            lemma_lookup_at(before, key@, p as int);
        }
        if !found {
            return None;
        }
        let mut entries: Vec<Member> = Vec::new();
        std::mem::swap(&mut entries, &mut self.entries);
        let (_name, attr) = entries.remove(p);
        proof {
            let after = entries@;
            assert(after == before.remove(p as int));
            assert(keys_ascend(after)) by {
                assert forall|i: int, j: int| 0 <= i < j < after.len() implies lex_lt(#[trigger] after[i].0@, #[trigger] after[j].0@) by {
                    if j < p {
                        assert(lex_lt(before[i].0@, before[j].0@));
                    } else if i < p {
                        assert(lex_lt(before[i].0@, before[j + 1].0@));
                    } else {
                        assert(lex_lt(before[i + 1].0@, before[j + 1].0@));
                    }
                }
            }
            assert forall|i: int| 0 <= i < after.len() implies (#[trigger] after[i]).0@ != key@ by {
                if i < p {
                    lemma_lex_irreflexive(key@);
                } else {
                    assert(lex_lt(before[p as int].0@, before[i + 1].0@));
                    lemma_lex_irreflexive(key@);
                }
            }
            assert forall|k: Seq<char>| k != key@ implies lookup_in(after, k) == lookup_in(before, k) by {
                lemma_lookup_same_elsewhere_insert(after, before, p as int, k);
            }
        }
        self.entries = entries;
        Some(attr)
    }

    /// Records one attribute, DECLINING to overwrite an unresolved one. An
    /// `Unknown` at `key` survives and the new value is not written. Returns
    /// whether the value was written.
    pub fn record(&mut self, key: &str, value: Attribute<AttributeValue>) -> (written: bool)
        ensures
            written == !(old(self).lookup(key@) matches Some(a) && a is Unknown),
            written ==> final(self).lookup(key@) == Some(value),
            !written ==> final(self).lookup(key@) == old(self).lookup(key@),
            forall|k: Seq<char>| k != key@ ==> final(self).lookup(k) == old(self).lookup(k),
    {
        let k = chars_of(key);
        if self.holds_unresolved(k.as_slice()) {
            return false;
        }
        self.put(k.as_slice(), owned(key), value);
        true
    }

    /// Records a resolved value.
    pub fn insert_known(&mut self, key: &str, value: AttributeValue)
        ensures
            final(self).lookup(key@) == Some(Attribute::Known(value)),
            forall|k: Seq<char>| k != key@ ==> final(self).lookup(k) == old(self).lookup(k),
    {
        self.insert(key, Attribute::Known(value));
    }

    /// Records that the source answered, and there is no value.
    pub fn insert_absent(&mut self, key: &str)
        ensures
            final(self).lookup(key@) == Some(Attribute::<AttributeValue>::Absent),
            forall|k: Seq<char>| k != key@ ==> final(self).lookup(k) == old(self).lookup(k),
    {
        self.insert(key, Attribute::Absent);
    }

    /// Records that the source could not answer.
    pub fn insert_unknown(&mut self, key: &str, why: &str)
        ensures
            final(self).lookup(key@) matches Some(a) && a is Unknown && a->Unknown_0@ == why@,
            forall|k: Seq<char>| k != key@ ==> final(self).lookup(k) == old(self).lookup(k),
    {
        self.insert(key, Attribute::unknown(why));
    }

    /// Writes `value` at `key` inside the nested bag at `parent`, creating the
    /// bag if it is not there - unless that would ERASE an unresolved
    /// attribute. An `Unknown` at `parent` is left in place and nothing is
    /// written; an `Unknown` at `key` inside the bag survives too. An `Absent`
    /// or a leaf at `parent` is replaced by a fresh bag. Returns whether
    /// `value` was written.
    pub fn record_nested(&mut self, parent: &str, key: &str, value: Attribute<AttributeValue>) -> (written: bool)
        ensures
            old(self).lookup(parent@) matches Some(a) && a is Unknown ==> !written && final(self).lookup(parent@) == old(self).lookup(parent@),
            !(old(self).lookup(parent@) matches Some(a) && a is Unknown) ==> ({
                let base = old(self).lookup(parent@);
                &&& final(self).lookup(parent@) matches Some(a) && a is Known && a->Known_0.spec_nested() is Some
                &&& {
                    let bag = final(self).lookup(parent@)->Some_0->Known_0.spec_nested()->Some_0;
                    &&& written == !(nested_lookup(base, key@) matches Some(b) && b is Unknown)
                    &&& written ==> bag.lookup(key@) == Some(value)
                    &&& !written ==> bag.lookup(key@) == nested_lookup(base, key@)
                    &&& forall|k: Seq<char>| k != key@ ==> bag.lookup(k) == nested_lookup(base, k)
                }
            }),
            forall|k: Seq<char>| k != parent@ ==> final(self).lookup(k) == old(self).lookup(k),
    {
        let pk = chars_of(parent);
        let existing = self.take(pk.as_slice());
        let ghost prior = existing;
        let mut bag = match existing {
            Some(Attribute::Unknown(why)) => {
                self.put(pk.as_slice(), owned(parent), Attribute::Unknown(why));
                return false;
            },
            Some(Attribute::Known(v)) => match v.into_nested() {
                Some(m) => m,
                None => AttributeMap::new(),
            },
            _ => AttributeMap::new(),
        };
        proof {
            if !(prior matches Some(Attribute::Known(v)) && v.spec_nested() is Some) {
                empty_bag_looks_up_nothing(bag.members());
            }
        }
        let written = bag.record(key, value);
        let ghost done = bag;
        self.put(pk.as_slice(), owned(parent), Attribute::Known(AttributeValue::from_map(bag)));
        proof {
            assert(final(self).lookup(parent@)->Some_0->Known_0.spec_nested()->Some_0 == done);
        }
        written
    }
}

/// The JSON Pointer of member `key` of the bag at `at`.
pub open spec fn member_pointer(at: Seq<char>, key: Seq<char>) -> Seq<char> {
    at + "/"@ + key
}

/// The refusal message for a member nobody could resolve.
pub open spec fn unresolved_message(key: Seq<char>, why: Seq<char>) -> Seq<char> {
    "the attribute "@ + debug_quoted(key) + " could not be resolved ("@ + why
        + "); sending the request without it would obtain a decision that weighed every attribute except the one nobody could read, and report it as complete"@
}

/// The first member at or after `i`, in key order and depth first, that
/// nobody could resolve: its pointer, its key and the reason given.
pub closed spec fn unresolved_from(s: Seq<Member>, at: Seq<char>, i: int) -> Option<(Seq<char>, Seq<char>, Seq<char>)>
    decreases s, s.len() - i,
{
    if i < 0 || i >= s.len() {
        None
    } else {
        let key = s[i].0@;
        let pointer = member_pointer(at, key);
        match s[i].1 {
            Attribute::Unknown(why) => Some((pointer, key, why@)),
            Attribute::Known(v) => match v.0 {
                AttributeValueInner::Nested(n) => match unresolved_from(n.entries@, pointer, 0) {
                    Some(found) => Some(found),
                    None => unresolved_from(s, at, i + 1),
                },
                AttributeValueInner::Json(_) => unresolved_from(s, at, i + 1),
            },
            Attribute::Absent => unresolved_from(s, at, i + 1),
        }
    }
}

/// The first member of the bag, in key order and depth first, that nobody
/// could resolve: its pointer, its key and the reason given.
pub open spec fn first_unresolved(m: AttributeMap, at: Seq<char>) -> Option<(Seq<char>, Seq<char>, Seq<char>)> {
    unresolved_from(m.members(), at, 0)
}

/// The refusal `validate` produces for an unresolved member.
pub open spec fn is_unresolved_refusal(e: AuthZenError, found: (Seq<char>, Seq<char>, Seq<char>)) -> bool {
    &&& e.code is EvaluationUnavailable
    &&& e.message@ == unresolved_message(found.1, found.2)
    &&& e.pointer is Some && e.pointer->0@ == found.0
    &&& e.supported@.len() == 0
}

impl AttributeMap {
    /// Refuses a bag holding an attribute nobody could resolve, naming the
    /// FIRST such member in key order, depth first, at its JSON Pointer below
    /// `at`.
    pub fn validate(&self, at: &str) -> (r: Result<(), AuthZenError>)
        ensures
            match first_unresolved(*self, at@) {
                None => r is Ok,
                Some(found) => r is Err && is_unresolved_refusal(r->Err_0, found),
            },
    {
        validate_members(self.entries.as_slice(), at)
    }
}

/// The refusal to put a member nobody could resolve on the wire.
pub open spec fn no_wire_form_message(key: Seq<char>, why: Seq<char>) -> Seq<char> {
    "the attribute "@ + debug_quoted(key) + " could not be resolved ("@ + why
        + ") and has no wire representation; validate the envelope before encoding it"@
}

/// The first member of `s` at or after `i` that nobody could resolve.
pub open spec fn first_unknown_from(s: Seq<Member>, i: int) -> Option<int>
    decreases s.len() - i,
{
    if i < 0 || i >= s.len() {
        None
    } else if s[i].1 is Unknown {
        Some(i)
    } else {
        first_unknown_from(s, i + 1)
    }
}

/// What a bag puts on the wire: its known members, key and value, in key
/// order; absent members are left out.
pub open spec fn wire_of(s: Seq<Member>) -> Seq<(Seq<char>, AttributeValue)>
    decreases s.len(),
{
    if s.len() == 0 {
        Seq::empty()
    } else {
        let rest = wire_of(s.drop_last());
        match s.last().1 {
            Attribute::Known(v) => rest.push((s.last().0@, v)),
            _ => rest,
        }
    }
}

impl AttributeMap {
    /// The members a bag is encoded with: every known one, in key order,
    /// with absent ones omitted. A member nobody could resolve has no wire
    /// form, so the first one refuses the encoding.
    pub fn wire_members(&self) -> (r: Result<Vec<(&str, &AttributeValue)>, String>)
        ensures
            match first_unknown_from(self.members(), 0) {
                None => r is Ok && r->Ok_0@.map_values(|p: (&str, &AttributeValue)| (p.0@, *p.1)) == wire_of(self.members()),
                Some(i) => r is Err && (self.members()[i].1 matches Attribute::Unknown(why)
                    && r->Err_0@ == no_wire_form_message(self.members()[i].0@, why@)),
            },
    {
        let entries = self.iter();
        let ghost s = entries@;
        let mut out: Vec<(&str, &AttributeValue)> = Vec::new();
        let mut i: usize = 0;
        while i < entries.len()
            invariant
                i <= s.len(),
                s == entries@,
                s == self.members(),
                first_unknown_from(s, 0) == first_unknown_from(s, i as int),
                out@.map_values(|p: (&str, &AttributeValue)| (p.0@, *p.1)) == wire_of(s.subrange(0, i as int)),
            decreases s.len() - i,
        {
            let (key, value) = &entries[i];
            let ghost before = out@.map_values(|p: (&str, &AttributeValue)| (p.0@, *p.1));
            proof {
                assert(s.subrange(0, i + 1).drop_last() =~= s.subrange(0, i as int));
                assert(s.subrange(0, i + 1).last() == s[i as int]);
            }
            match value {
                Attribute::Unknown(why) => {
                    let mut m = owned("the attribute ");
                    let q = debug_quote(key.as_str());
                    append(&mut m, q.as_str());
                    append(&mut m, " could not be resolved (");
                    append(&mut m, why.as_str());
                    append(&mut m, ") and has no wire representation; validate the envelope before encoding it");
                    return Err(m);
                },
                Attribute::Known(v) => {
                    out.push((key.as_str(), v));
                    proof {
                        assert(out@.map_values(|p: (&str, &AttributeValue)| (p.0@, *p.1)) =~= before.push((key@, *v)));
                    }
                },
                Attribute::Absent => {},
            }
            i += 1;
        }
        proof {
            assert(s.subrange(0, s.len() as int) =~= s);
        }
        Ok(out)
    }
}

fn validate_members(entries: &[Member], at: &str) -> (r: Result<(), AuthZenError>)
    ensures
        match unresolved_from(entries@, at@, 0) {
            None => r is Ok,
            Some(found) => r is Err && is_unresolved_refusal(r->Err_0, found),
        },
    decreases entries@,
{
    let mut i: usize = 0;
    while i < entries.len()
        invariant
            i <= entries@.len(),
            unresolved_from(entries@, at@, 0) == unresolved_from(entries@, at@, i as int),
        decreases entries@.len() - i,
    {
        let (key, value) = &entries[i];
        let mut pointer = owned(at);
        append(&mut pointer, "/");
        append(&mut pointer, key.as_str());
        match value {
            Attribute::Unknown(why) => {
                let mut m = owned("the attribute ");
                let q = debug_quote(key.as_str());
                append(&mut m, q.as_str());
                append(&mut m, " could not be resolved (");
                append(&mut m, why.as_str());
                append(&mut m, "); sending the request without it would obtain a decision that weighed every attribute except the one nobody could read, and report it as complete");
                proof {
                    reveal_strlit("/");
                }
                let e = AuthZenError::new(AuthZenErrorCode::EvaluationUnavailable, m).at(pointer.as_str());
                return Err(e);
            },
            Attribute::Known(v) => {
                match &v.0 {
                    AttributeValueInner::Nested(n) => {
                        assert(decreases_to!(entries@ => n.entries@));
                        let inner = validate_members(n.entries.as_slice(), pointer.as_str());
                        if inner.is_err() {
                            return inner;
                        }
                    },
                    AttributeValueInner::Json(_) => {},
                }
            },
            Attribute::Absent => {},
        }
        i += 1;
    }
    Ok(())
}

/// What the bag inside a known nested value records under `k`; nothing for
/// any other attribute.
pub open spec fn nested_lookup(a: Option<Attribute<AttributeValue>>, k: Seq<char>) -> Option<Attribute<AttributeValue>> {
    match a {
        Some(Attribute::Known(v)) => match v.spec_nested() {
            Some(m) => m.lookup(k),
            None => None,
        },
        _ => None,
    }
}

proof fn empty_bag_looks_up_nothing(s: Seq<Member>)
    requires
        s.len() == 0,
    ensures
        forall|k: Seq<char>| lookup_in(s, k) is None,
{
}

/// `lookup_in` at a located position: whether the key is there, and what.
proof fn lemma_lookup_at(s: Seq<Member>, k: Seq<char>, p: int)
    requires
        keys_ascend(s),
        0 <= p <= s.len(),
        forall|i: int| 0 <= i < p ==> lex_lt((#[trigger] s[i]).0@, k),
        p < s.len() ==> !lex_lt(s[p].0@, k),
    ensures
        (p < s.len() && s[p].0@ == k) ==> lookup_in(s, k) == Some(s[p].1),
        !(p < s.len() && s[p].0@ == k) ==> lookup_in(s, k) is None,
{
    if p < s.len() && s[p].0@ == k {
        assert(has_key(s, k));
        let i = key_position(s, k);
        if i < p {
            lemma_lex_irreflexive(k);
        } else if i > p {
            assert(lex_lt(s[p].0@, s[i].0@));
            lemma_lex_irreflexive(k);
        }
    } else {
        assert forall|i: int| 0 <= i < s.len() implies (#[trigger] s[i]).0@ != k by {
            if i < p {
                lemma_lex_irreflexive(k);
            } else if i > p {
                lemma_lex_total(s[p].0@, k);
                assert(lex_lt(s[p].0@, s[i].0@));
                if s[i].0@ == k {
                    lemma_lex_asymmetric(s[p].0@, k);
                }
            } else {
            }
        }
    }
}

/// Where keys are unique, a key is found at its one position.
proof fn lemma_lookup_unique(s: Seq<Member>, k: Seq<char>, i: int)
    requires
        keys_ascend(s),
        0 <= i < s.len(),
        s[i].0@ == k,
    ensures
        lookup_in(s, k) == Some(s[i].1),
{
    assert(0 <= i < s.len() && s[i].0@ == k);
    assert(has_key(s, k));
    let j = key_position(s, k);
    if j < i {
        assert(lex_lt(s[j].0@, s[i].0@));
        lemma_lex_irreflexive(k);
    } else if j > i {
        assert(lex_lt(s[i].0@, s[j].0@));
        lemma_lex_irreflexive(k);
    }
    assert(j == i);
}

proof fn lemma_lookup_same_elsewhere_update(before: Seq<Member>, after: Seq<Member>, p: int, k: Seq<char>)
    requires
        keys_ascend(before),
        keys_ascend(after),
        0 <= p < before.len(),
        after.len() == before.len(),
        after[p].0@ == before[p].0@,
        k != before[p].0@,
        forall|i: int| 0 <= i < before.len() && i != p ==> after[i] == before[i],
    ensures
        lookup_in(after, k) == lookup_in(before, k),
{
    if has_key(before, k) {
        let i = key_position(before, k);
        lemma_lookup_unique(before, k, i);
        lemma_lookup_unique(after, k, i);
    } else {
        assert forall|i: int| 0 <= i < after.len() implies (#[trigger] after[i]).0@ != k by {
            if i != p {
                assert(before[i].0@ != k);
            }
        }
    }
}

proof fn lemma_lookup_same_elsewhere_insert(before: Seq<Member>, after: Seq<Member>, p: int, k: Seq<char>)
    requires
        keys_ascend(before),
        keys_ascend(after),
        0 <= p <= before.len(),
        after.len() == before.len() + 1,
        k != after[p].0@,
        forall|i: int| 0 <= i < p ==> after[i] == before[i],
        forall|i: int| p < i < after.len() ==> after[i] == before[i - 1],
    ensures
        lookup_in(after, k) == lookup_in(before, k),
{
    if has_key(before, k) {
        let i = key_position(before, k);
        lemma_lookup_unique(before, k, i);
        if i < p {
            assert(after[i] == before[i]);
            lemma_lookup_unique(after, k, i);
        } else {
            assert(after[i + 1] == before[i]);
            lemma_lookup_unique(after, k, i + 1);
        }
    } else {
        assert forall|i: int| 0 <= i < after.len() implies (#[trigger] after[i]).0@ != k by {
            if i < p {
                assert(before[i].0@ != k);
            } else if i > p {
                assert(before[i - 1].0@ != k);
            }
        }
    }
}


/// Whether member `i` of `s` is itself unresolved, or a nested bag whose scan
/// from its start finds an unresolved member.
spec fn carries_unresolved(s: Seq<Member>, at: Seq<char>, i: int) -> bool {
    match s[i].1 {
        Attribute::Unknown(_) => true,
        Attribute::Known(v) => match v.0 {
            AttributeValueInner::Nested(n) => unresolved_from(n.entries@, member_pointer(at, s[i].0@), 0) is Some,
            AttributeValueInner::Json(_) => false,
        },
        Attribute::Absent => false,
    }
}

/// A scan that starts at or before a member carrying an unresolved attribute
/// finds one.
proof fn lemma_scan_finds(s: Seq<Member>, at: Seq<char>, from: int, i: int)
    requires
        0 <= from <= i < s.len(),
        carries_unresolved(s, at, i),
    ensures
        unresolved_from(s, at, from) is Some,
    decreases i - from,
{
    if from < i {
        lemma_scan_finds(s, at, from + 1, i);
    }
}

/// An attribute nobody could resolve is never passed over: a bag holding one
/// under any key, wherever the bag sits, has a first unresolved member, so
/// `validate` refuses it.
pub proof fn law_an_unresolved_attribute_is_refused(m: AttributeMap, key: Seq<char>, at: Seq<char>)
    requires
        m.lookup(key) matches Some(a) && a is Unknown,
    ensures
        first_unresolved(m, at) is Some,
{
    let s = m.members();
    let i = key_position(s, key);
    assert(carries_unresolved(s, at, i));
    lemma_scan_finds(s, at, 0, i);
}

/// The same one level down: an unresolved attribute inside the nested bag at
/// `parent` refuses the outer bag too.
pub proof fn law_an_unresolved_nested_attribute_is_refused(m: AttributeMap, parent: Seq<char>, key: Seq<char>, at: Seq<char>)
    requires
        m.lookup(parent) matches Some(a) && a is Known && a->Known_0.spec_nested() is Some,
        m.lookup(parent)->Some_0->Known_0.spec_nested()->Some_0.lookup(key) matches Some(b) && b is Unknown,
    ensures
        first_unresolved(m, at) is Some,
{
    let s = m.members();
    let i = key_position(s, parent);
    let n = s[i].1->Known_0.spec_nested()->Some_0;
    law_an_unresolved_attribute_is_refused(n, key, member_pointer(at, parent));
    assert(carries_unresolved(s, at, i));
    lemma_scan_finds(s, at, 0, i);
}

} // verus!
