//! The values that an attribute of a span, a metric or a batch can have,
//! and the set of attributes that one of them carries.

use vstd::prelude::*;
use vstd::std_specs::cmp::PartialEqSpecImpl;
use vstd::std_specs::convert::FromSpecImpl;

verus! {

/// Any valid attribute value: a string, a number or a boolean.
#[derive(Debug)]
pub enum Value {
    /// A signed integer.
    Int(i64),
    /// An unsigned integer.
    UInt(u64),
    /// A signed 128 bit integer.
    Int128(i128),
    /// An unsigned 128 bit integer.
    UInt128(u128),
    /// A string.
    Str(String),
    /// A 64 bit floating point number, held as its IEEE 754 bit pattern.
    /// Two such values are equal where their bit patterns are.
    Float(u64),
    /// A boolean.
    Bool(bool),
}

impl PartialEq for Value {
    fn eq(&self, other: &Value) -> (same: bool) {
        match (self, other) {
            (Value::Int(a), Value::Int(b)) => *a == *b,
            (Value::UInt(a), Value::UInt(b)) => *a == *b,
            (Value::Int128(a), Value::Int128(b)) => *a == *b,
            (Value::UInt128(a), Value::UInt128(b)) => *a == *b,
            (Value::Str(a), Value::Str(b)) => *a == *b,
            (Value::Float(a), Value::Float(b)) => *a == *b,
            (Value::Bool(a), Value::Bool(b)) => *a == *b,
            _ => false,
        }
    }
}

/// Two values are equal where they are of one kind and hold the same: the
/// same number, the same characters, the same bit.
pub open spec fn same_value(a: Value, b: Value) -> bool {
    match (a, b) {
        (Value::Int(x), Value::Int(y)) => x == y,
        (Value::UInt(x), Value::UInt(y)) => x == y,
        (Value::Int128(x), Value::Int128(y)) => x == y,
        (Value::UInt128(x), Value::UInt128(y)) => x == y,
        (Value::Str(x), Value::Str(y)) => x@ == y@,
        (Value::Float(x), Value::Float(y)) => x == y,
        (Value::Bool(x), Value::Bool(y)) => x == y,
        _ => false,
    }
}

impl PartialEqSpecImpl for Value {
    open spec fn obeys_eq_spec() -> bool {
        true
    }

    open spec fn eq_spec(&self, other: &Value) -> bool {
        same_value(*self, *other)
    }
}

impl Clone for Value {
    fn clone(&self) -> (copy: Value)
        ensures
            copy == *self,
    {
        match self {
            Value::Int(v) => Value::Int(*v),
            Value::UInt(v) => Value::UInt(*v),
            Value::Int128(v) => Value::Int128(*v),
            Value::UInt128(v) => Value::UInt128(*v),
            Value::Str(v) => Value::Str(v.clone()),
            Value::Float(v) => Value::Float(*v),
            Value::Bool(v) => Value::Bool(*v),
        }
    }
}

impl From<i128> for Value {
    fn from(value: i128) -> (v: Value) {
        Value::Int128(value)
    }
}

impl FromSpecImpl<i128> for Value {
    open spec fn obeys_from_spec() -> bool {
        true
    }

    open spec fn from_spec(value: i128) -> Value {
        Value::Int128(value)
    }
}

impl From<i64> for Value {
    fn from(value: i64) -> (v: Value) {
        Value::Int(value)
    }
}

impl FromSpecImpl<i64> for Value {
    open spec fn obeys_from_spec() -> bool {
        true
    }

    open spec fn from_spec(value: i64) -> Value {
        Value::Int(value)
    }
}

impl From<i32> for Value {
    fn from(value: i32) -> (v: Value) {
        Value::Int(value as i64)
    }
}

impl FromSpecImpl<i32> for Value {
    open spec fn obeys_from_spec() -> bool {
        true
    }

    open spec fn from_spec(value: i32) -> Value {
        Value::Int(value as i64)
    }
}

impl From<u128> for Value {
    fn from(value: u128) -> (v: Value) {
        Value::UInt128(value)
    }
}

impl FromSpecImpl<u128> for Value {
    open spec fn obeys_from_spec() -> bool {
        true
    }

    open spec fn from_spec(value: u128) -> Value {
        Value::UInt128(value)
    }
}

impl From<u64> for Value {
    fn from(value: u64) -> (v: Value) {
        Value::UInt(value)
    }
}

impl FromSpecImpl<u64> for Value {
    open spec fn obeys_from_spec() -> bool {
        true
    }

    open spec fn from_spec(value: u64) -> Value {
        Value::UInt(value)
    }
}

impl From<u32> for Value {
    fn from(value: u32) -> (v: Value) {
        Value::UInt(value as u64)
    }
}

impl FromSpecImpl<u32> for Value {
    open spec fn obeys_from_spec() -> bool {
        true
    }

    open spec fn from_spec(value: u32) -> Value {
        Value::UInt(value as u64)
    }
}

impl<'a> From<&'a str> for Value {
    fn from(value: &'a str) -> (v: Value)
        ensures
            v matches Value::Str(text) && text@ == value@,
    {
        Value::Str(value.to_owned())
    }
}

impl<'a> FromSpecImpl<&'a str> for Value {
    /// A string has no constructor in specifications, so the conversion is
    /// described by the `ensures` of `from` alone.
    open spec fn obeys_from_spec() -> bool {
        false
    }

    open spec fn from_spec(value: &'a str) -> Value {
        arbitrary()
    }
}

impl From<bool> for Value {
    fn from(value: bool) -> (v: Value) {
        Value::Bool(value)
    }
}

impl FromSpecImpl<bool> for Value {
    open spec fn obeys_from_spec() -> bool {
        true
    }

    open spec fn from_spec(value: bool) -> Value {
        Value::Bool(value)
    }
}

/// The attributes of a span, a metric or a batch: values under distinct
/// keys, in the order in which the keys were first set.
#[derive(Debug)]
pub struct Attributes {
    entries: Vec<(String, Value)>,
}

/// No key stands twice in `entries`.
pub open spec fn distinct_keys(entries: Seq<(String, Value)>) -> bool {
    forall|i: int, j: int|
        0 <= i < entries.len() && 0 <= j < entries.len() && (#[trigger] entries[i]).0@ == (
        #[trigger] entries[j]).0@ ==> i == j
}

/// Whether `key` stands in `entries`.
pub open spec fn has_key(entries: Seq<(String, Value)>, key: Seq<char>) -> bool {
    exists|i: int| 0 <= i < entries.len() && (#[trigger] entries[i]).0@ == key
}

/// The place of `key` in `entries`.
pub open spec fn key_index(entries: Seq<(String, Value)>, key: Seq<char>) -> int {
    choose|i: int| 0 <= i < entries.len() && (#[trigger] entries[i]).0@ == key
}

impl Attributes {
    /// The keys and values, in the order in which the keys were first set.
    pub closed spec fn entries(self) -> Seq<(String, Value)> {
        self.entries@
    }

    /// Well-formedness: no key stands twice.
    #[verifier::type_invariant]
    pub open spec fn wf(self) -> bool {
        distinct_keys(self.entries())
    }

    /// The number of attributes.
    pub open spec fn spec_len(self) -> nat {
        self.entries().len()
    }
}

impl View for Attributes {
    type V = Map<Seq<char>, Value>;

    /// The attributes as a map from keys to values.
    open spec fn view(&self) -> Map<Seq<char>, Value> {
        Map::new(
            |key: Seq<char>| has_key(self.entries(), key),
            |key: Seq<char>| self.entries()[key_index(self.entries(), key)].1,
        )
    }
}

/// Every key of `a` is a key of `b`, with an equal value under it.
pub open spec fn included(a: Map<Seq<char>, Value>, b: Map<Seq<char>, Value>) -> bool {
    forall|key: Seq<char>| #[trigger]
        a.contains_key(key) ==> b.contains_key(key) && same_value(a[key], b[key])
}

impl PartialEq for Attributes {
    fn eq(&self, other: &Attributes) -> (same: bool) {
        proof {
            use_type_invariant(self);
            use_type_invariant(other);
        }
        if self.entries.len() != other.entries.len() {
            return false;
        }
        let mut i: usize = 0;
        while i < self.entries.len()
            invariant
                i <= self.entries.len(),
                distinct_keys(self.entries@),
                distinct_keys(other.entries@),
                forall|j: int|
                    0 <= j < i ==> other@.contains_key((#[trigger] self.entries@[j]).0@)
                        && same_value(self.entries@[j].1, other@[self.entries@[j].0@]),
            decreases self.entries.len() - i,
        {
            let ghost key = self.entries@[i as int].0@;
            assert(has_key(self.entries@, key));
            assert(key_index(self.entries@, key) == i);
            match other.position(&self.entries[i].0) {
                Some(at) => {
                    assert(has_key(other.entries@, key));
                    assert(key_index(other.entries@, key) == at);
                    if !(self.entries[i].1 == other.entries[at].1) {
                        assert(self@.contains_key(key) && !same_value(self@[key], other@[key]));
                        return false;
                    }
                },
                None => {
                    assert(self@.contains_key(key) && !other@.contains_key(key));
                    return false;
                },
            }
            i = i + 1;
        }
        assert(included(self@, other@)) by {
            assert forall|key: Seq<char>| #[trigger] self@.contains_key(key) implies other@.contains_key(
                key,
            ) && same_value(self@[key], other@[key]) by {
                let j = key_index(self.entries@, key);
                assert(self.entries@[j].0@ == key);
            }
        }
        true
    }
}

impl PartialEqSpecImpl for Attributes {
    open spec fn obeys_eq_spec() -> bool {
        true
    }

    /// Two sets of attributes are equal where they hold as many, and every
    /// key of the one is a key of the other with an equal value: the order
    /// in which the keys were set does not count.
    open spec fn eq_spec(&self, other: &Attributes) -> bool {
        self.spec_len() == other.spec_len() && included(self@, other@)
    }
}

impl Attributes {
    /// No attributes.
    pub fn new() -> (attributes: Attributes)
        ensures
            attributes.wf(),
            attributes.entries() == Seq::<(String, Value)>::empty(),
            attributes@ == Map::<Seq<char>, Value>::empty(),
    {
        let attributes = Attributes { entries: Vec::new() };
        assert(attributes@ =~= Map::<Seq<char>, Value>::empty());
        attributes
    }

    /// The number of attributes.
    pub fn len(&self) -> (n: usize)
        ensures
            n == self.spec_len(),
    {
        self.entries.len()
    }

    /// Whether there are no attributes.
    pub fn is_empty(&self) -> (empty: bool)
        ensures
            empty == (self.spec_len() == 0),
    {
        self.entries.len() == 0
    }

    fn position(&self, key: &String) -> (found: Option<usize>)
        ensures
            match found {
                Some(i) => i < self.entries@.len() && self.entries@[i as int].0@ == key@,
                None => !has_key(self.entries@, key@),
            },
    {
        let mut i: usize = 0;
        while i < self.entries.len()
            invariant
                i <= self.entries.len(),
                forall|j: int| 0 <= j < i ==> (#[trigger] self.entries@[j]).0@ != key@,
            decreases self.entries.len() - i,
        {
            if self.entries[i].0 == *key {
                return Some(i);
            }
            i = i + 1;
        }
        None
    }

    /// The value under `key`, if the key is set.
    pub fn get(&self, key: &str) -> (value: Option<&Value>)
        ensures
            match value {
                Some(v) => self@.contains_key(key@) && self@[key@] == *v,
                None => !self@.contains_key(key@),
            },
    {
        proof {
            use_type_invariant(self);
        }
        let owned = key.to_owned();
        match self.position(&owned) {
            Some(i) => {
                assert(has_key(self.entries@, key@));
                Some(&self.entries[i].1)
            },
            None => None,
        }
    }

    /// The key and the value at place `index`, counted in the order in which
    /// the keys were first set; nothing from the number of attributes on.
    pub fn entry(&self, index: usize) -> (found: Option<(&str, &Value)>)
        ensures
            match found {
                Some((key, value)) => {
                    &&& index < self.spec_len()
                    &&& key@ == self.entries()[index as int].0@
                    &&& *value == self.entries()[index as int].1
                    &&& self@.contains_key(key@)
                    &&& self@[key@] == *value
                },
                None => index >= self.spec_len(),
            },
    {
        proof {
            use_type_invariant(self);
        }
        if index < self.entries.len() {
            assert(has_key(self.entries@, self.entries@[index as int].0@));
            Some((self.entries[index].0.as_str(), &self.entries[index].1))
        } else {
            None
        }
    }

    /// The attributes with the value under `key` set, in place of the one
    /// that was there.
    pub fn with(self, key: &str, value: Value) -> (set: Attributes)
        ensures
            set.wf(),
            set@ == self@.insert(key@, value),
            set.spec_len() == if self@.contains_key(key@) {
                self.spec_len()
            } else {
                self.spec_len() + 1
            },
    {
        proof {
            use_type_invariant(&self);
        }
        let owned = key.to_owned();
        let ghost before = self.entries@;
        let found = self.position(&owned);
        let mut entries = self.entries;
        match found {
            Some(i) => {
                assert(has_key(before, key@));
                entries.set(i, (owned, value));
                let ghost after = entries@;
                assert(distinct_keys(after)) by {
                    assert forall|a: int, b: int|
                        0 <= a < after.len() && 0 <= b < after.len() && (#[trigger] after[a]).0@
                            == (#[trigger] after[b]).0@ implies a == b by {
                        assert(after[a].0@ == before[a].0@);
                        assert(after[b].0@ == before[b].0@);
                    }
                }
                let set = Attributes { entries };
                assert(set@ =~= self@.insert(key@, value)) by {
                    assert forall|k: Seq<char>| has_key(after, k) == (has_key(before, k) || k
                        == key@) by {
                        if has_key(after, k) {
                            let j = key_index(after, k);
                            assert(before[j].0@ == k);
                        }
                        if has_key(before, k) {
                            let j = key_index(before, k);
                            assert(after[j].0@ == k);
                        }
                    }
                    assert forall|k: Seq<char>| has_key(after, k) implies after[key_index(
                        after,
                        k,
                    )].1 == (if k == key@ {
                        value
                    } else {
                        before[key_index(before, k)].1
                    }) by {
                        let j = key_index(after, k);
                        assert(before[j].0@ == k);
                        if k != key@ {
                            assert(has_key(before, k));
                            assert(key_index(before, k) == j);
                        } else {
                            assert(after[i as int].0@ == k);
                            assert(j == i);
                        }
                    }
                }
                set
            },
            None => {
                entries.push((owned, value));
                let ghost after = entries@;
                assert(distinct_keys(after)) by {
                    assert forall|a: int, b: int|
                        0 <= a < after.len() && 0 <= b < after.len() && (#[trigger] after[a]).0@
                            == (#[trigger] after[b]).0@ implies a == b by {
                        if a < before.len() {
                            assert(after[a] == before[a]);
                        }
                        if b < before.len() {
                            assert(after[b] == before[b]);
                        }
                    }
                }
                let set = Attributes { entries };
                assert(set@ =~= self@.insert(key@, value)) by {
                    assert forall|k: Seq<char>| has_key(after, k) == (has_key(before, k) || k
                        == key@) by {
                        if has_key(after, k) {
                            let j = key_index(after, k);
                            if j < before.len() {
                                assert(before[j].0@ == k);
                            }
                        }
                        if has_key(before, k) {
                            let j = key_index(before, k);
                            assert(after[j].0@ == k);
                        }
                        if k == key@ {
                            assert(after[before.len() as int].0@ == k);
                        }
                    }
                    assert forall|k: Seq<char>| has_key(after, k) implies after[key_index(
                        after,
                        k,
                    )].1 == (if k == key@ {
                        value
                    } else {
                        before[key_index(before, k)].1
                    }) by {
                        let j = key_index(after, k);
                        if k != key@ {
                            assert(j < before.len());
                            assert(before[j].0@ == k);
                            assert(has_key(before, k));
                            let j2 = key_index(before, k);
                            assert(after[j2].0@ == k);
                            assert(j2 == j);
                        } else {
                            assert(after[before.len() as int].0@ == k);
                            assert(j == before.len());
                        }
                    }
                }
                set
            },
        }
    }

    /// Sets the value under `key`, in place of the one that was there.
    pub fn insert(&mut self, key: &str, value: Value)
        ensures
            final(self).wf(),
            final(self)@ == old(self)@.insert(key@, value),
            final(self).spec_len() == if old(self)@.contains_key(key@) {
                old(self).spec_len()
            } else {
                old(self).spec_len() + 1
            },
    {
        let mut taken = Attributes::new();
        core::mem::swap(self, &mut taken);
        *self = taken.with(key, value);
    }

    /// A copy of the attributes.
    pub fn duplicate(&self) -> (copy: Attributes)
        ensures
            copy.wf(),
            copy.entries() == self.entries(),
            copy@ == self@,
    {
        proof {
            use_type_invariant(self);
        }
        let mut entries: Vec<(String, Value)> = Vec::new();
        let mut i: usize = 0;
        while i < self.entries.len()
            invariant
                i <= self.entries.len(),
                entries@ == self.entries@.subrange(0, i as int),
            decreases self.entries.len() - i,
        {
            let key = self.entries[i].0.clone();
            let value = self.entries[i].1.clone();
            entries.push((key, value));
            assert(entries@ =~= self.entries@.subrange(0, i as int + 1));
            i = i + 1;
        }
        assert(entries@ =~= self.entries@);
        Attributes { entries }
    }
}

} // verus!
