//! Property values and the property store, with observers of each property.
//!
//! The store keeps, for each property name, its last value, and the observers
//! registered for each name in the order of registration. Setting a property
//! reports which observers to notify; the caller runs their callbacks.
use vstd::prelude::*;
use vstd::string::*;

use crate::error::{spec_code_value, ErrorCode};
use crate::text::{
    all_digits, append_json_escaped, has_sign, i64_to_decimal, int_decimal, is_digit, json_escape,
    json_string_value, lemma_decimal_round_trip, lemma_json_string_round_trip, parse_i64,
    spec_parse_i64, trim_quotes, trim_quotes_str, unsigned_part,
};

verus! {

/// A property value. A floating-point value is held as the bits of its IEEE
/// 754 double (`f64::to_bits`), which is how it is stored and handed back.
#[derive(Debug)]
pub enum PropertyValue {
    String(String),
    Int(i64),
    Float(u64),
    Bool(bool),
}

/// The JSON text of a value that is not a float: a JSON string literal (the
/// text escaped for JSON, in double quotes), an integer in decimal, a boolean
/// as `true` or `false`.
pub open spec fn spec_json(v: PropertyValue) -> Seq<char> {
    match v {
        PropertyValue::String(s) => seq!['"'] + json_escape(s@) + seq!['"'],
        PropertyValue::Int(n) => int_decimal(n as int),
        PropertyValue::Float(_) => Seq::empty(),
        PropertyValue::Bool(b) => if b { "true"@ } else { "false"@ },
    }
}

impl Clone for PropertyValue {
    fn clone(&self) -> (r: PropertyValue)
        ensures
            r == *self,
    {
        match self {
            PropertyValue::String(s) => PropertyValue::String(s.clone()),
            PropertyValue::Int(n) => PropertyValue::Int(*n),
            PropertyValue::Float(b) => PropertyValue::Float(*b),
            PropertyValue::Bool(b) => PropertyValue::Bool(*b),
        }
    }
}

impl PartialEq for PropertyValue {
    fn eq(&self, other: &PropertyValue) -> (r: bool) {
        match (self, other) {
            (PropertyValue::String(a), PropertyValue::String(b)) => a.eq(b),
            (PropertyValue::Int(a), PropertyValue::Int(b)) => *a == *b,
            (PropertyValue::Float(a), PropertyValue::Float(b)) => *a == *b,
            (PropertyValue::Bool(a), PropertyValue::Bool(b)) => *a == *b,
            _ => false,
        }
    }
}

impl vstd::std_specs::cmp::PartialEqSpecImpl for PropertyValue {
    open spec fn obeys_eq_spec() -> bool {
        true
    }

    /// Two values are equal when they are of one kind and hold the same value
    /// (a float by its bits, a string by its text).
    open spec fn eq_spec(&self, other: &PropertyValue) -> bool {
        match (*self, *other) {
            (PropertyValue::String(a), PropertyValue::String(b)) => a@ == b@,
            (PropertyValue::Int(a), PropertyValue::Int(b)) => a == b,
            (PropertyValue::Float(a), PropertyValue::Float(b)) => a == b,
            (PropertyValue::Bool(a), PropertyValue::Bool(b)) => a == b,
            _ => false,
        }
    }
}

impl PropertyValue {
    /// The value as JSON text. A float's decimal rendering is left to the
    /// caller, which holds the floating-point value: for `Float` this returns
    /// `None`.
    pub fn to_json(&self) -> (r: Option<String>)
        ensures
            r is None <==> self is Float,
            r matches Some(t) ==> t@ == spec_json(*self),
    {
        match self {
            PropertyValue::String(s) => {
                proof { reveal_strlit("\""); }
                let mut out = String::from_str("\"");
                append_json_escaped(&mut out, s.as_str());
                out.append("\"");
                Some(out)
            },
            PropertyValue::Int(n) => Some(i64_to_decimal(*n)),
            PropertyValue::Float(_) => None,
            PropertyValue::Bool(b) => {
                if *b {
                    Some(String::from_str("true"))
                } else {
                    Some(String::from_str("false"))
                }
            },
        }
    }
}

/// Whether `v` is how a property value written as text over the C interface is
/// read: an integer if `i64` reads it, else a float if `f64` reads it
/// (`float_bits` holds the bits of what `f64` read, if it did), else `true` or
/// `false`, else the text without its leading and trailing double quotes.
pub open spec fn parses_to(v: PropertyValue, text: Seq<char>, float_bits: Option<u64>) -> bool {
    match spec_parse_i64(text) {
        Some(n) => v == PropertyValue::Int(n),
        None => match float_bits {
            Some(b) => v == PropertyValue::Float(b),
            None => if text == "true"@ {
                v == PropertyValue::Bool(true)
            } else if text == "false"@ {
                v == PropertyValue::Bool(false)
            } else {
                v matches PropertyValue::String(s) && s@ == trim_quotes(text)
            },
        },
    }
}

/// Reads a property value written as text over the C interface (see
/// `parses_to`); `float_bits` is the bits of what `f64` reads from the same
/// text, if it reads it.
pub fn parse_property_value(text: &str, float_bits: Option<u64>) -> (r: PropertyValue)
    ensures
        parses_to(r, text@, float_bits),
{
    match parse_i64(text) {
        Some(n) => PropertyValue::Int(n),
        None => match float_bits {
            Some(b) => PropertyValue::Float(b),
            None => {
                let t = String::from_str(text);
                let tt = String::from_str("true");
                let ff = String::from_str("false");
                proof {
                    reveal_strlit("true");
                    reveal_strlit("false");
                }
                if t == tt {
                    PropertyValue::Bool(true)
                } else if t == ff {
                    PropertyValue::Bool(false)
                } else {
                    PropertyValue::String(trim_quotes_str(text))
                }
            },
        },
    }
}

/// The ids of the observers of `key`, in the order of registration.
pub open spec fn observer_ids_for(obs: Seq<(i64, Seq<char>)>, key: Seq<char>) -> Seq<i64>
    decreases obs.len(),
{
    if obs.len() == 0 {
        Seq::empty()
    } else if obs.last().1 == key {
        observer_ids_for(obs.drop_last(), key).push(obs.last().0)
    } else {
        observer_ids_for(obs.drop_last(), key)
    }
}

/// The registrations left once every registration of observer `id` for `key`
/// is removed.
pub open spec fn without_observer(obs: Seq<(i64, Seq<char>)>, key: Seq<char>, id: i64) -> Seq<(i64, Seq<char>)>
    decreases obs.len(),
{
    if obs.len() == 0 {
        Seq::empty()
    } else if obs.last() == (id, key) {
        without_observer(obs.drop_last(), key, id)
    } else {
        without_observer(obs.drop_last(), key, id).push(obs.last())
    }
}

/// Whether some registration in `obs` holds observer id `id`.
pub open spec fn has_id(obs: Seq<(i64, Seq<char>)>, id: i64) -> bool {
    exists|i: int| 0 <= i < obs.len() && (#[trigger] obs[i]).0 == id
}

/// The registrations left once every registration of observer `id`, for any
/// property, is removed.
pub open spec fn without_id(obs: Seq<(i64, Seq<char>)>, id: i64) -> Seq<(i64, Seq<char>)>
    decreases obs.len(),
{
    if obs.len() == 0 {
        Seq::empty()
    } else if obs.last().0 == id {
        without_id(obs.drop_last(), id)
    } else {
        without_id(obs.drop_last(), id).push(obs.last())
    }
}

/// Whether every registered id is below `bound`.
pub open spec fn ids_below(obs: Seq<(i64, Seq<char>)>, bound: i64) -> bool {
    forall|i: int| 0 <= i < obs.len() ==> (#[trigger] obs[i]).0 < bound
}

/// The counter from which observer ids are drawn, in increasing order. One
/// counter serves all the stores of a process, so that ids do not repeat
/// across stores.
pub struct ObserverIdCounter {
    next: i64,
}

impl ObserverIdCounter {
    /// The id that the counter hands out next.
    pub closed spec fn next_id(self) -> i64 {
        self.next
    }

    /// A counter whose first id is 1.
    pub fn new() -> (c: ObserverIdCounter)
        ensures
            c.next_id() == 1,
    {
        ObserverIdCounter { next: 1 }
    }

    /// Hands out the next id and moves the counter on by one (it wraps around
    /// after `i64::MAX`).
    pub fn next_observer_id(&mut self) -> (id: i64)
        ensures
            id == old(self).next_id(),
            final(self).next_id() == id.wrapping_add(1),
            id < i64::MAX ==> final(self).next_id() == id + 1,
    {
        let id = self.next;
        self.next = id.wrapping_add(1);
        id
    }
}

/// The property store: the value of each property, and the observers of each
/// property.
pub struct DefaultPropertyStore {
    entries: Vec<(String, PropertyValue)>,
    observers: Vec<(i64, String)>,
}

/// Whether `i` indexes an entry named `k`.
pub open spec fn entry_named(entries: Seq<(String, PropertyValue)>, i: int, k: Seq<char>) -> bool {
    0 <= i < entries.len() && entries[i].0@ == k
}

impl DefaultPropertyStore {
    #[verifier::type_invariant]
    spec fn inv(self) -> bool {
        forall|i: int, j: int|
            0 <= i < self.entries@.len() && 0 <= j < self.entries@.len() && i != j
                ==> #[trigger] self.entries@[i].0@ != #[trigger] self.entries@[j].0@
    }

    /// The value of each property that has been set.
    pub closed spec fn values(self) -> Map<Seq<char>, PropertyValue> {
        Map::new(
            |k: Seq<char>| exists|i: int| #[trigger] entry_named(self.entries@, i, k),
            |k: Seq<char>| self.entries@[choose|i: int| #[trigger] entry_named(self.entries@, i, k)].1,
        )
    }

    /// The observer registrations, as (id, property name), in the order of
    /// registration.
    pub closed spec fn observers(self) -> Seq<(i64, Seq<char>)> {
        self.observers@.map_values(|o: (i64, String)| (o.0, o.1@))
    }

    /// An empty store.
    pub fn new() -> (s: DefaultPropertyStore)
        ensures
            s.values() == Map::<Seq<char>, PropertyValue>::empty(),
            s.observers() == Seq::<(i64, Seq<char>)>::empty(),
    {
        let s = DefaultPropertyStore { entries: Vec::new(), observers: Vec::new() };
        assert(s.values() =~= Map::<Seq<char>, PropertyValue>::empty());
        assert(s.observers() =~= Seq::<(i64, Seq<char>)>::empty());
        s
    }

    fn find(&self, key: &String) -> (r: Option<usize>)
        ensures
            match r {
                Some(i) => entry_named(self.entries@, i as int, key@),
                None => forall|i: int| !#[trigger] entry_named(self.entries@, i, key@),
            },
    {
        let mut i: usize = 0;
        while i < self.entries.len()
            invariant
                i <= self.entries@.len(),
                forall|j: int| 0 <= j < i ==> !#[trigger] entry_named(self.entries@, j, key@),
            decreases self.entries@.len() - i,
        {
            if self.entries[i].0 == *key {
                return Some(i);
            }
            i = i + 1;
        }
        None
    }

    /// The value of property `key`, if it has been set.
    pub fn get(&self, key: &str) -> (r: Option<PropertyValue>)
        ensures
            r == if self.values().contains_key(key@) {
                Some(self.values()[key@])
            } else {
                None::<PropertyValue>
            },
    {
        proof { use_type_invariant(self); }
        let k = String::from_str(key);
        match self.find(&k) {
            Some(i) => {
                proof {
                    let c = choose|j: int| #[trigger] entry_named(self.entries@, j, key@);
                    assert(entry_named(self.entries@, c, key@));
                    assert(c == i as int);
                }
                Some(self.entries[i].1.clone())
            },
            None => None,
        }
    }

    /// Sets property `key` to `value`; returns the ids of the observers of
    /// `key` to notify, in the order of registration.
    pub fn set(&mut self, key: &str, value: PropertyValue) -> (notify: Vec<i64>)
        ensures
            final(self).values() == old(self).values().insert(key@, value),
            final(self).observers() == old(self).observers(),
            notify@ == observer_ids_for(old(self).observers(), key@),
    {
        proof { use_type_invariant(&*self); }
        let k = String::from_str(key);
        let notify = self.ids_observing(&k);
        let found = self.find(&k);
        let mut entries: Vec<(String, PropertyValue)> = Vec::new();
        core::mem::swap(&mut entries, &mut self.entries);
        let ghost old_entries = entries@;
        match found {
            Some(i) => {
                entries.set(i, (k, value));
            },
            None => {
                entries.push((k, value));
            },
        }
        proof {
            let n = entries@;
            assert forall|a: int, b: int|
                0 <= a < n.len() && 0 <= b < n.len() && a != b implies #[trigger] n[a].0@ != #[trigger] n[b].0@ by {
                if found is None {
                    if a == n.len() - 1 {
                        assert(!entry_named(old_entries, b, key@));
                    } else if b == n.len() - 1 {
                        assert(!entry_named(old_entries, a, key@));
                    }
                }
            }
        }
        self.entries = entries;
        proof {
            let ov = old(self).values();
            let nv = self.values();
            let target = ov.insert(key@, value);
            assert forall|q: Seq<char>| nv.contains_key(q) <==> target.contains_key(q) by {
                if nv.contains_key(q) {
                    let j = choose|j: int| #[trigger] entry_named(self.entries@, j, q);
                    if q != key@ {
                        assert(entry_named(old_entries, j, q));
                    }
                }
                if target.contains_key(q) && q != key@ {
                    let j = choose|j: int| #[trigger] entry_named(old_entries, j, q);
                    assert(entry_named(self.entries@, j, q));
                }
                if q == key@ {
                    match found {
                        Some(i) => assert(entry_named(self.entries@, i as int, q)),
                        None => assert(entry_named(self.entries@, old_entries.len() as int, q)),
                    }
                }
            }
            assert forall|q: Seq<char>| nv.contains_key(q) implies nv[q] == target[q] by {
                let j = choose|j: int| #[trigger] entry_named(self.entries@, j, q);
                assert(entry_named(self.entries@, j, q));
                if q == key@ {
                    match found {
                        Some(i) => assert(entry_named(self.entries@, i as int, q)),
                        None => assert(entry_named(self.entries@, old_entries.len() as int, q)),
                    }
                } else {
                    assert(entry_named(old_entries, j, q));
                    let j0 = choose|j0: int| #[trigger] entry_named(old_entries, j0, q);
                    assert(entry_named(old_entries, j0, q));
                    assert(entry_named(self.entries@, j0, q));
                }
            }
            assert(nv =~= target);
        }
        notify
    }

    fn ids_observing(&self, key: &String) -> (r: Vec<i64>)
        ensures
            r@ == observer_ids_for(self.observers(), key@),
    {
        let mut out: Vec<i64> = Vec::new();
        let mut i: usize = 0;
        let ghost obs = self.observers();
        assert(obs.take(0) =~= Seq::<(i64, Seq<char>)>::empty());
        while i < self.observers.len()
            invariant
                i <= self.observers@.len(),
                obs == self.observers(),
                obs.len() == self.observers@.len(),
                out@ == observer_ids_for(obs.take(i as int), key@),
            decreases self.observers@.len() - i,
        {
            let ghost t = obs.take(i as int + 1);
            assert(t.drop_last() =~= obs.take(i as int));
            assert(t.last() == (self.observers@[i as int].0, self.observers@[i as int].1@));
            if self.observers[i].1 == *key {
                out.push(self.observers[i].0);
            }
            i = i + 1;
        }
        assert(obs.take(i as int) =~= obs);
        out
    }

    /// Registers an observer of property `key` under the next id of `ids`;
    /// returns that id.
    pub fn observe(&mut self, key: &str, ids: &mut ObserverIdCounter) -> (id: i64)
        ensures
            id == old(ids).next_id(),
            final(ids).next_id() == id.wrapping_add(1),
            final(self).observers() == old(self).observers().push((id, key@)),
            final(self).values() == old(self).values(),
            ids_below(old(self).observers(), old(ids).next_id()) && old(ids).next_id() < i64::MAX
                ==> !has_id(old(self).observers(), id)
                    && ids_below(final(self).observers(), final(ids).next_id()),
    {
        proof { use_type_invariant(&*self); }
        let id = ids.next_observer_id();
        proof {
            if ids_below(old(self).observers(), id) && id < i64::MAX {
                lemma_shared_counter_fresh(old(self).observers(), old(self).observers(), id, key@);
            }
        }
        let k = String::from_str(key);
        let mut obs: Vec<(i64, String)> = Vec::new();
        core::mem::swap(&mut obs, &mut self.observers);
        obs.push((id, k));
        self.observers = obs;
        assert(self.observers() =~= old(self).observers().push((id, key@)));
        id
    }

    /// Removes every registration of observer `id` for property `key`; returns
    /// whether there was one.
    pub fn unobserve(&mut self, key: &str, observer_id: i64) -> (removed: bool)
        ensures
            removed == old(self).observers().contains((observer_id, key@)),
            final(self).observers() == without_observer(old(self).observers(), key@, observer_id),
            final(self).values() == old(self).values(),
    {
        proof { use_type_invariant(&*self); }
        let k = String::from_str(key);
        let ghost obs = self.observers();
        let mut kept: Vec<(i64, String)> = Vec::new();
        let mut removed = false;
        let mut i: usize = 0;
        assert(obs.take(0) =~= Seq::<(i64, Seq<char>)>::empty());
        while i < self.observers.len()
            invariant
                i <= self.observers@.len(),
                obs == self.observers(),
                obs.len() == self.observers@.len(),
                k@ == key@,
                kept@.map_values(|o: (i64, String)| (o.0, o.1@))
                    == without_observer(obs.take(i as int), key@, observer_id),
                removed == obs.take(i as int).contains((observer_id, key@)),
            decreases self.observers@.len() - i,
        {
            let ghost t = obs.take(i as int + 1);
            assert(t.drop_last() =~= obs.take(i as int));
            assert(t.last() == (self.observers@[i as int].0, self.observers@[i as int].1@));
            let ghost kept_before = kept@;
            if self.observers[i].0 == observer_id && self.observers[i].1 == k {
                removed = true;
                assert(t.contains((observer_id, key@))) by {
                    assert(t[i as int] == (observer_id, key@));
                }
            } else {
                let id_i = self.observers[i].0;
                let name_i = self.observers[i].1.clone();
                kept.push((id_i, name_i));
                assert(kept@.map_values(|o: (i64, String)| (o.0, o.1@))
                    =~= kept_before.map_values(|o: (i64, String)| (o.0, o.1@)).push(t.last()));
                assert(t.contains((observer_id, key@)) == obs.take(i as int).contains((observer_id, key@))) by {
                    if t.contains((observer_id, key@)) {
                        let j = choose|j: int| 0 <= j < t.len() && t[j] == (observer_id, key@);
                        assert(j < i);
                        assert(obs.take(i as int)[j] == (observer_id, key@));
                    }
                    if obs.take(i as int).contains((observer_id, key@)) {
                        let j = choose|j: int| 0 <= j < i && obs.take(i as int)[j] == (observer_id, key@);
                        assert(t[j] == (observer_id, key@));
                    }
                }
            }
            if removed {
                assert(t.contains((observer_id, key@))) by {
                    if !obs.take(i as int).contains((observer_id, key@)) {
                        assert(t[i as int] == (observer_id, key@));
                    } else {
                        let j = choose|j: int| 0 <= j < i && obs.take(i as int)[j] == (observer_id, key@);
                        assert(t[j] == (observer_id, key@));
                    }
                }
            }
            i = i + 1;
        }
        assert(obs.take(i as int) =~= obs);
        self.observers = kept;
        removed
    }

    /// Removes every registration of observer `observer_id`, whatever the
    /// property; returns whether there was one.
    pub fn unobserve_id(&mut self, observer_id: i64) -> (removed: bool)
        ensures
            removed == has_id(old(self).observers(), observer_id),
            final(self).observers() == without_id(old(self).observers(), observer_id),
            final(self).values() == old(self).values(),
    {
        proof { use_type_invariant(&*self); }
        let ghost obs = self.observers();
        let mut kept: Vec<(i64, String)> = Vec::new();
        let mut removed = false;
        let mut i: usize = 0;
        assert(obs.take(0) =~= Seq::<(i64, Seq<char>)>::empty());
        while i < self.observers.len()
            invariant
                i <= self.observers@.len(),
                obs == self.observers(),
                obs.len() == self.observers@.len(),
                kept@.map_values(|o: (i64, String)| (o.0, o.1@)) == without_id(obs.take(i as int), observer_id),
                removed == has_id(obs.take(i as int), observer_id),
            decreases self.observers@.len() - i,
        {
            let ghost t = obs.take(i as int + 1);
            let ghost before = obs.take(i as int);
            assert(t.drop_last() =~= before);
            assert(t.last() == (self.observers@[i as int].0, self.observers@[i as int].1@));
            assert(has_id(t, observer_id) == (has_id(before, observer_id) || t.last().0 == observer_id)) by {
                if has_id(t, observer_id) {
                    let j = choose|j: int| 0 <= j < t.len() && (#[trigger] t[j]).0 == observer_id;
                    if j < i {
                        assert(before[j] == t[j]);
                    }
                }
                if has_id(before, observer_id) {
                    let j = choose|j: int| 0 <= j < before.len() && (#[trigger] before[j]).0 == observer_id;
                    assert(t[j] == before[j]);
                }
                if t.last().0 == observer_id {
                    assert(t[i as int].0 == observer_id);
                }
            }
            let ghost kept_before = kept@;
            if self.observers[i].0 == observer_id {
                removed = true;
            } else {
                let id_i = self.observers[i].0;
                let name_i = self.observers[i].1.clone();
                kept.push((id_i, name_i));
                assert(kept@.map_values(|o: (i64, String)| (o.0, o.1@))
                    =~= kept_before.map_values(|o: (i64, String)| (o.0, o.1@)).push(t.last()));
            }
            i = i + 1;
        }
        assert(obs.take(i as int) =~= obs);
        self.observers = kept;
        removed
    }
}

/// Unsubscribes observer `observer_id` for a handle of the C interface, which
/// lists in `handle_ids` the ids it registered: the id leaves that list, and
/// every registration of it leaves the store. Returns 0 (success) where the
/// store held such a registration, else the negative code of an invalid
/// argument.
pub fn unobserve_property(store: &mut DefaultPropertyStore, handle_ids: &mut Vec<i64>, observer_id: i64) -> (code: i32)
    ensures
        final(handle_ids)@ == ids_without(old(handle_ids)@, observer_id),
        final(store).observers() == without_id(old(store).observers(), observer_id),
        final(store).values() == old(store).values(),
        code == if has_id(old(store).observers(), observer_id) {
            spec_code_value(ErrorCode::Success)
        } else {
            spec_code_value(ErrorCode::InvalidArgument)
        },
{
    forget_observer_id(handle_ids, observer_id);
    if store.unobserve_id(observer_id) {
        ErrorCode::Success.code()
    } else {
        ErrorCode::InvalidArgument.code()
    }
}

/// A property set to `value` reads back as `value`, and the other properties
/// keep their values.
pub proof fn lemma_get_after_set(values: Map<Seq<char>, PropertyValue>, key: Seq<char>, value: PropertyValue, other: Seq<char>)
    ensures
        values.insert(key, value).contains_key(key),
        values.insert(key, value)[key] == value,
        other != key ==> (values.insert(key, value).contains_key(other) == values.contains_key(other)),
        other != key && values.contains_key(other) ==> values.insert(key, value)[other] == values[other],
{
}

/// Removing a registration that is not there changes nothing.
pub proof fn lemma_without_absent(obs: Seq<(i64, Seq<char>)>, key: Seq<char>, id: i64)
    requires
        !obs.contains((id, key)),
    ensures
        without_observer(obs, key, id) == obs,
    decreases obs.len(),
{
    if obs.len() > 0 {
        let d = obs.drop_last();
        assert(!d.contains((id, key))) by {
            if d.contains((id, key)) {
                let j = choose|j: int| 0 <= j < d.len() && d[j] == (id, key);
                assert(obs[j] == (id, key));
            }
        }
        lemma_without_absent(d, key, id);
        assert(obs.last() != (id, key)) by {
            if obs.last() == (id, key) {
                assert(obs[obs.len() - 1] == (id, key));
            }
        }
        assert(d.push(obs.last()) =~= obs);
    }
}

/// An observer that was just registered for `key` under a fresh id is found by
/// `unobserve`, which then restores the registrations as they were.
pub proof fn lemma_unobserve_undoes_observe(obs: Seq<(i64, Seq<char>)>, key: Seq<char>, id: i64)
    requires
        !obs.contains((id, key)),
    ensures
        obs.push((id, key)).contains((id, key)),
        without_observer(obs.push((id, key)), key, id) == obs,
{
    let p = obs.push((id, key));
    assert(p[p.len() - 1] == (id, key));
    assert(p.drop_last() =~= obs);
    lemma_without_absent(obs, key, id);
}

/// Once observer `id` of `key` is removed, setting `key` no longer notifies it.
pub proof fn lemma_removed_observer_not_notified(obs: Seq<(i64, Seq<char>)>, key: Seq<char>, id: i64)
    ensures
        !observer_ids_for(without_observer(obs, key, id), key).contains(id),
    decreases obs.len(),
{
    if obs.len() > 0 {
        let d = obs.drop_last();
        lemma_removed_observer_not_notified(d, key, id);
        let w = without_observer(d, key, id);
        if obs.last() != (id, key) {
            let w2 = w.push(obs.last());
            assert(w2.drop_last() =~= w);
            if obs.last().1 == key {
                assert(observer_ids_for(w2, key) =~= observer_ids_for(w, key).push(obs.last().0));
                assert(obs.last().0 != id);
                let ids = observer_ids_for(w2, key);
                if ids.contains(id) {
                    let j = choose|j: int| 0 <= j < ids.len() && ids[j] == id;
                    assert(j < ids.len() - 1);
                    assert(observer_ids_for(w, key)[j] == id);
                }
            } else {
                assert(observer_ids_for(w2, key) == observer_ids_for(w, key));
            }
        }
    } else {
        assert(observer_ids_for(without_observer(obs, key, id), key) =~= Seq::<i64>::empty());
    }
}

/// A new registration for `key` is notified last when `key` is set, and does
/// not change the notifications of other properties.
pub proof fn lemma_new_observer_notified_last(obs: Seq<(i64, Seq<char>)>, key: Seq<char>, id: i64, other: Seq<char>)
    ensures
        observer_ids_for(obs.push((id, key)), key) == observer_ids_for(obs, key).push(id),
        other != key ==> observer_ids_for(obs.push((id, key)), other) == observer_ids_for(obs, other),
{
    assert(obs.push((id, key)).drop_last() =~= obs);
}

/// Two stores that draw their ids from one counter never give one id twice:
/// while every id registered in either store is below the counter's next id
/// (and that id is below `i64::MAX`), a registration in one of them gets an id
/// that neither store holds, and every id of both stores stays below the
/// counter's next id after it.
pub proof fn lemma_shared_counter_fresh(
    a: Seq<(i64, Seq<char>)>,
    b: Seq<(i64, Seq<char>)>,
    next_id: i64,
    key: Seq<char>,
)
    requires
        ids_below(a, next_id),
        ids_below(b, next_id),
        next_id < i64::MAX,
    ensures
        !has_id(a, next_id),
        !has_id(b, next_id),
        ids_below(a.push((next_id, key)), next_id.wrapping_add(1)),
        ids_below(b, next_id.wrapping_add(1)),
{
    assert(next_id.wrapping_add(1) == next_id + 1);
    assert forall|i: int| 0 <= i < a.push((next_id, key)).len() implies
        (#[trigger] a.push((next_id, key))[i]).0 < next_id.wrapping_add(1) by {
        if i < a.len() {
            assert(a.push((next_id, key))[i] == a[i]);
        }
    }
}

/// Removing the registrations of an id that none holds changes nothing.
pub proof fn lemma_without_absent_id(obs: Seq<(i64, Seq<char>)>, id: i64)
    requires
        !has_id(obs, id),
    ensures
        without_id(obs, id) == obs,
    decreases obs.len(),
{
    if obs.len() > 0 {
        let d = obs.drop_last();
        assert(!has_id(d, id)) by {
            if has_id(d, id) {
                let j = choose|j: int| 0 <= j < d.len() && (#[trigger] d[j]).0 == id;
                assert(obs[j] == d[j]);
            }
        }
        lemma_without_absent_id(d, id);
        assert(obs.last().0 != id) by {
            if obs.last().0 == id {
                assert(obs[obs.len() - 1].0 == id);
            }
        }
        assert(d.push(obs.last()) =~= obs);
    }
}

/// Unsubscribing an observer that was just registered under a fresh id finds
/// it and restores the registrations as they were.
pub proof fn lemma_unobserve_id_undoes_observe(obs: Seq<(i64, Seq<char>)>, key: Seq<char>, id: i64)
    requires
        !has_id(obs, id),
    ensures
        has_id(obs.push((id, key)), id),
        without_id(obs.push((id, key)), id) == obs,
{
    let p = obs.push((id, key));
    assert(p[p.len() - 1].0 == id);
    assert(p.drop_last() =~= obs);
    lemma_without_absent_id(obs, id);
}

/// Once observer `id` is unsubscribed, setting any property no longer
/// notifies it.
pub proof fn lemma_unsubscribed_not_notified(obs: Seq<(i64, Seq<char>)>, key: Seq<char>, id: i64)
    ensures
        !observer_ids_for(without_id(obs, id), key).contains(id),
    decreases obs.len(),
{
    if obs.len() > 0 {
        let d = obs.drop_last();
        lemma_unsubscribed_not_notified(d, key, id);
        let w = without_id(d, id);
        if obs.last().0 != id {
            let w2 = w.push(obs.last());
            assert(w2.drop_last() =~= w);
            if obs.last().1 == key {
                assert(observer_ids_for(w2, key) =~= observer_ids_for(w, key).push(obs.last().0));
                let ids = observer_ids_for(w2, key);
                if ids.contains(id) {
                    let j = choose|j: int| 0 <= j < ids.len() && ids[j] == id;
                    assert(j < ids.len() - 1);
                    assert(observer_ids_for(w, key)[j] == id);
                }
            } else {
                assert(observer_ids_for(w2, key) == observer_ids_for(w, key));
            }
        }
    } else {
        assert(observer_ids_for(without_id(obs, id), key) =~= Seq::<i64>::empty());
    }
}

/// The ids in `ids` other than `id`, in order.
pub open spec fn ids_without(ids: Seq<i64>, id: i64) -> Seq<i64> {
    ids.filter(|x: i64| x != id)
}

/// Forgets observer `id` in a list of observer ids, keeping the others in
/// order.
pub fn forget_observer_id(ids: &mut Vec<i64>, id: i64)
    ensures
        final(ids)@ == ids_without(old(ids)@, id),
{
    let ghost before = ids@;
    let mut kept: Vec<i64> = Vec::new();
    let mut i: usize = 0;
    assert(before.take(0) =~= Seq::<i64>::empty());
    while i < ids.len()
        invariant
            i <= ids@.len(),
            ids@ == before,
            kept@ == ids_without(before.take(i as int), id),
        decreases ids@.len() - i,
    {
        let ghost t = before.take(i as int + 1);
        assert(t.drop_last() =~= before.take(i as int));
        proof {
            reveal(Seq::filter);
        }
        if ids[i] != id {
            kept.push(ids[i]);
        }
        i = i + 1;
    }
    assert(before.take(i as int) =~= before);
    *ids = kept;
}

/// The JSON text of a string property is a JSON string literal that stands
/// for the same string.
pub proof fn lemma_json_string_reads_back(s: String)
    ensures
        json_string_value(spec_json(PropertyValue::String(s))) == Some(s@),
{
    lemma_json_string_round_trip(s@);
}

/// The JSON text of an integer or boolean property reads back as the same
/// value over the C interface (`f64` does not read such text differently:
/// integers are read first, and `f64` does not read `true` or `false`).
pub proof fn lemma_json_reads_back(v: PropertyValue)
    requires
        v is Int || v is Bool,
    ensures
        parses_to(v, spec_json(v), None),
{
    match v {
        PropertyValue::Int(n) => {
            lemma_decimal_round_trip(n);
        },
        PropertyValue::Bool(b) => {
            reveal_strlit("true");
            reveal_strlit("false");
            let t = spec_json(v);
            assert(!has_sign(t));
            assert(!is_digit(t[0]));
            assert(!all_digits(unsigned_part(t)));
        },
        _ => {},
    }
}

} // verus!
