//! Keyed records of the host: objects whose properties are held in the order
//! in which they were first written.

use crate::value::{HostData, HostValue};
use vstd::prelude::*;

verus! {

/// The properties of an object: pairs of key and value, in order.
pub type Properties = Seq<(Seq<char>, HostData)>;

/// The place of the first property with the given key, or the number of
/// properties where none has it.
pub open spec fn position(props: Properties, key: Seq<char>) -> int
    decreases props.len(),
{
    if props.len() == 0 {
        0
    } else if props[0].0 == key {
        0
    } else {
        1 + position(props.drop_first(), key)
    }
}

/// The value that an object holds under a key.
pub open spec fn spec_get(props: Properties, key: Seq<char>) -> Option<HostData> {
    if position(props, key) < props.len() {
        Some(props[position(props, key)].1)
    } else {
        None
    }
}

/// The object after a property is written: the value takes the place of the
/// one held under the key, or comes last where the key is new.
pub open spec fn spec_set(props: Properties, key: Seq<char>, value: HostData) -> Properties {
    if position(props, key) < props.len() {
        props.update(position(props, key), (key, value))
    } else {
        props.push((key, value))
    }
}

/// No two properties have the same key.
pub open spec fn distinct_keys(props: Properties) -> bool {
    forall|i: int, j: int| 0 <= i < j < props.len() ==> props[i].0 != props[j].0
}

/// The position of a key is a place in the sequence or its length; before it
/// no property has the key, and at it, if it is a place, one has.
pub proof fn lemma_position(props: Properties, key: Seq<char>)
    ensures
        0 <= position(props, key) <= props.len(),
        forall|i: int| 0 <= i < position(props, key) ==> props[i].0 != key,
        position(props, key) < props.len() ==> props[position(props, key)].0 == key,
    decreases props.len(),
{
    if props.len() > 0 && props[0].0 != key {
        let rest = props.drop_first();
        lemma_position(rest, key);
        assert forall|i: int| 0 <= i < position(props, key) implies props[i].0 != key by {
            if i > 0 {
                assert(props[i] == rest[i - 1]);
            }
        }
        if position(props, key) < props.len() {
            assert(props[position(props, key)] == rest[position(rest, key)]);
        }
    }
}

/// A key whose first `n` properties do not have it, and whose property at `n`
/// has it or is missing, has the position `n`.
pub proof fn lemma_position_is(props: Properties, key: Seq<char>, n: int)
    requires
        0 <= n <= props.len(),
        forall|i: int| 0 <= i < n ==> props[i].0 != key,
        n < props.len() ==> props[n].0 == key,
    ensures
        position(props, key) == n,
{
    lemma_position(props, key);
    let p = position(props, key);
    if p < n {
        assert(props[p].0 != key);
    }
}

/// Writing a property: the key then holds the value, every other key holds
/// what it held, and distinct keys stay distinct.
pub proof fn lemma_set(props: Properties, key: Seq<char>, value: HostData, other: Seq<char>)
    ensures
        spec_get(spec_set(props, key, value), key) == Some(value),
        other != key ==> spec_get(spec_set(props, key, value), other) == spec_get(props, other),
        distinct_keys(props) ==> distinct_keys(spec_set(props, key, value)),
{
    lemma_position(props, key);
    lemma_position(props, other);
    let after = spec_set(props, key, value);
    let p = position(props, key);
    lemma_position_is(after, key, p);
    if other != key {
        let q = position(props, other);
        if q < props.len() {
            lemma_position_is(after, other, q);
        } else {
            lemma_position_is(after, other, after.len() as int);
        }
    }
}

/// A keyed record of the host.
#[derive(Debug, Clone, PartialEq, Eq)]
pub struct HostObject {
    entries: Vec<(String, HostValue)>,
}

impl View for HostObject {
    type V = Properties;

    closed spec fn view(&self) -> Properties {
        self.entries@.map_values(|e: (String, HostValue)| (e.0@, e.1@))
    }
}

impl HostObject {
    /// An object without properties.
    pub fn new() -> (object: Self)
        ensures
            object@ == Seq::<(Seq<char>, HostData)>::empty(),
    {
        let object = HostObject { entries: Vec::new() };
        assert(object@ =~= Seq::<(Seq<char>, HostData)>::empty());
        object
    }

    /// The number of properties.
    pub fn len(&self) -> (n: usize)
        ensures
            n == self@.len(),
    {
        self.entries.len()
    }

    /// The key of the property at place `i`.
    pub fn key_at(&self, i: usize) -> (key: &String)
        requires
            i < self@.len(),
        ensures
            key@ == self@[i as int].0,
    {
        &self.entries[i].0
    }

    /// The value of the property at place `i`.
    pub fn value_at(&self, i: usize) -> (value: &HostValue)
        requires
            i < self@.len(),
        ensures
            value@ == self@[i as int].1,
    {
        &self.entries[i].1
    }

    fn find(&self, key: &String) -> (place: usize)
        ensures
            place == position(self@, key@),
    {
        let mut i: usize = 0;
        while i < self.entries.len()
            invariant
                i <= self.entries@.len(),
                forall|j: int| 0 <= j < i ==> self@[j].0 != key@,
            decreases self.entries@.len() - i,
        {
            if self.entries[i].0 == *key {
                proof {
                    lemma_position_is(self@, key@, i as int);
                }
                return i;
            }
            i = i + 1;
        }
        proof {
            lemma_position_is(self@, key@, i as int);
        }
        i
    }

    /// The value held under `key`, if the object has the key.
    pub fn get(&self, key: &str) -> (value: Option<&HostValue>)
        ensures
            match value {
                Some(v) => spec_get(self@, key@) == Some(v@),
                None => spec_get(self@, key@) is None,
            },
    {
        let owned = key.to_owned();
        let place = self.find(&owned);
        if place < self.entries.len() {
            Some(&self.entries[place].1)
        } else {
            None
        }
    }

    /// Writes a property: a key that the object has keeps its place and gets
    /// the value, a new key comes last.
    pub fn set(&mut self, key: String, value: HostValue)
        ensures
            final(self)@ == spec_set(old(self)@, key@, value@),
            distinct_keys(old(self)@) ==> distinct_keys(final(self)@),
    {
        proof {
            lemma_set(self@, key@, value@, key@);
        }
        let place = self.find(&key);
        if place < self.entries.len() {
            self.entries.set(place, (key, value));
        } else {
            self.entries.push((key, value));
        }
        assert(self@ =~= spec_set(old(self)@, key@, value@));
    }
}

} // verus!
