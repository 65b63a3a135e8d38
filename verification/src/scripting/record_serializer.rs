//! The generic marshaler: builders that turn typed configuration data into
//! [`RecordValue`]s without a hand-written converter per configuration type.
//!
//! Scalars map directly onto the matching value variant (integers of any
//! width widen to the 64-bit variant), sequences are collected in order by a
//! [`RecordListSerializer`], and key/value aggregates are collected in
//! insertion order by a [`RecordMapSerializer`].

use vstd::prelude::*;
use vstd::slice::slice_to_vec;
use vstd::string::StringExecFns;

use crate::scripting::record::{
    entries_model, lemma_entries_model_push, lemma_list_model_push, list_model, value_model,
    RecordValue, ValueModel,
};

verus! {

broadcast use lemma_list_model_push, lemma_entries_model_push;

/// A violation of the marshaling protocol: a programmer error, surfaced
/// rather than silently dropped.
#[derive(Debug, Clone, PartialEq, Eq)]
pub enum RecordSerError {
    /// A free-form marshaling failure.
    Msg(String),
    /// A map value was emitted before its key.
    ValueBeforeKey,
}

impl RecordSerError {
    /// Wraps a free-form message.
    pub fn custom(msg: String) -> (r: Self)
        ensures
            r == RecordSerError::Msg(msg),
    {
        RecordSerError::Msg(msg)
    }
}

/// The scalar half of the marshaler: each entry point produces the value
/// variant that matches the scalar it was given.
pub struct RecordSerializer;

impl RecordSerializer {
    pub fn serialize_bool(v: bool) -> (r: RecordValue)
        ensures
            r@ == ValueModel::Bool(v),
    {
        RecordValue::Bool(v)
    }

    pub fn serialize_i8(v: i8) -> (r: RecordValue)
        ensures
            r@ == ValueModel::Int(v as i64),
    {
        RecordValue::Int(v as i64)
    }

    pub fn serialize_i16(v: i16) -> (r: RecordValue)
        ensures
            r@ == ValueModel::Int(v as i64),
    {
        RecordValue::Int(v as i64)
    }

    pub fn serialize_i32(v: i32) -> (r: RecordValue)
        ensures
            r@ == ValueModel::Int(v as i64),
    {
        RecordValue::Int(v as i64)
    }

    pub fn serialize_i64(v: i64) -> (r: RecordValue)
        ensures
            r@ == ValueModel::Int(v),
    {
        RecordValue::Int(v)
    }

    pub fn serialize_u8(v: u8) -> (r: RecordValue)
        ensures
            r@ == ValueModel::Int(v as i64),
    {
        RecordValue::Int(v as i64)
    }

    pub fn serialize_u16(v: u16) -> (r: RecordValue)
        ensures
            r@ == ValueModel::Int(v as i64),
    {
        RecordValue::Int(v as i64)
    }

    pub fn serialize_u32(v: u32) -> (r: RecordValue)
        ensures
            r@ == ValueModel::Int(v as i64),
    {
        RecordValue::Int(v as i64)
    }

    /// A 64-bit unsigned value is reinterpreted into the signed 64-bit
    /// variant, as the interpreter has no unsigned integers.
    pub fn serialize_u64(v: u64) -> (r: RecordValue)
        ensures
            r@ == ValueModel::Int(v as i64),
    {
        RecordValue::Int(#[verifier::truncate] (v as i64))
    }

    /// A 64-bit float is carried by its bit pattern; the engine never
    /// computes with it.
    pub fn serialize_f64_bits(bits: u64) -> (r: RecordValue)
        ensures
            r@ == ValueModel::Float(bits),
    {
        RecordValue::Float(bits)
    }

    pub fn serialize_char(c: char) -> (r: RecordValue)
        ensures
            r@ == ValueModel::Str(seq![c]),
    {
        RecordValue::Str(char_to_string(c))
    }

    pub fn serialize_str(v: &str) -> (r: RecordValue)
        ensures
            r@ == ValueModel::Str(v@),
    {
        RecordValue::Str(String::from_str(v))
    }

    pub fn serialize_bytes(v: &[u8]) -> (r: RecordValue)
        ensures
            r@ == ValueModel::Bytes(v@),
    {
        RecordValue::Bytes(slice_to_vec(v))
    }

    /// An absent optional value maps to `Null`.
    pub fn serialize_none() -> (r: RecordValue)
        ensures
            r@ == ValueModel::Null,
    {
        RecordValue::Null
    }

    /// The unit value maps to `Null`, like an absent optional.
    pub fn serialize_unit() -> (r: RecordValue)
        ensures
            r@ == ValueModel::Null,
    {
        RecordValue::Null
    }

    /// A unit variant of an enum serializes to its variant name.
    pub fn serialize_unit_variant(variant: &str) -> (r: RecordValue)
        ensures
            r@ == ValueModel::Str(variant@),
    {
        RecordValue::Str(String::from_str(variant))
    }

    /// A non-unit variant serializes to a one-entry map from the variant
    /// name to the already-marshaled payload.
    pub fn serialize_newtype_variant(variant: &str, value: RecordValue) -> (r: RecordValue)
        ensures
            r@ == ValueModel::Record(seq![(ValueModel::Str(variant@), value@)]),
    {
        let key = RecordValue::Str(String::from_str(variant));
        let ghost gk = key;
        let ghost gv = value;
        let mut entries: Vec<(RecordValue, RecordValue)> = Vec::new();
        entries.push((key, value));
        proof {
            lemma_entries_model_push(Seq::empty(), gk, gv);
            assert(entries_model(entries@) =~= seq![(ValueModel::Str(variant@), gv@)]);
        }
        RecordValue::Record(entries)
    }

    /// Opens a list builder, optionally sized ahead of time.
    pub fn list_serializer(cap: Option<usize>) -> (r: RecordListSerializer)
        ensures
            r@ == Seq::<ValueModel>::empty(),
    {
        RecordListSerializer::with_capacity_opt(cap)
    }

    /// Opens a map builder, optionally sized ahead of time.
    pub fn map_serializer(cap: Option<usize>) -> (r: RecordMapSerializer)
        ensures
            r@ == Seq::<(ValueModel, ValueModel)>::empty(),
            r.pending() is None,
    {
        RecordMapSerializer::with_capacity_opt(cap)
    }
}

/// Relies on char's `to_string`: it renders exactly the one character.
#[verifier::external_body]
fn char_to_string(c: char) -> (r: String)
    ensures
        r@ == seq![c],
{
    c.to_string()
}

/// Collects the elements of an ordered sequence, in order.
pub struct RecordListSerializer {
    entries: Vec<RecordValue>,
}

impl View for RecordListSerializer {
    type V = Seq<ValueModel>;

    closed spec fn view(&self) -> Seq<ValueModel> {
        list_model(self.entries@)
    }
}

impl RecordListSerializer {
    pub fn new() -> (r: Self)
        ensures
            r@ == Seq::<ValueModel>::empty(),
    {
        RecordListSerializer { entries: Vec::new() }
    }

    pub fn with_capacity(capacity: usize) -> (r: Self)
        ensures
            r@ == Seq::<ValueModel>::empty(),
    {
        RecordListSerializer { entries: Vec::with_capacity(capacity) }
    }

    pub fn with_capacity_opt(capacity: Option<usize>) -> (r: Self)
        ensures
            r@ == Seq::<ValueModel>::empty(),
    {
        match capacity {
            Option::Some(cap) => Self::with_capacity(cap),
            Option::None => Self::new(),
        }
    }

    /// Appends one already-marshaled element.
    pub fn serialize_element(&mut self, value: RecordValue)
        ensures
            final(self)@ == old(self)@.push(value@),
    {
        self.entries.push(value);
    }

    /// Closes the builder: the result is a `List` of the collected
    /// elements, in the order they were appended.
    pub fn end(self) -> (r: RecordValue)
        ensures
            r@ == ValueModel::List(self@),
    {
        RecordValue::List(self.entries)
    }
}

/// Collects the entries of a key/value aggregate, in insertion order.
///
/// Keys and values may arrive separately; emitting a value while no key is
/// pending is a protocol violation.
pub struct RecordMapSerializer {
    last_key: Option<RecordValue>,
    entries: Vec<(RecordValue, RecordValue)>,
}

impl View for RecordMapSerializer {
    type V = Seq<(ValueModel, ValueModel)>;

    closed spec fn view(&self) -> Seq<(ValueModel, ValueModel)> {
        entries_model(self.entries@)
    }
}

impl RecordMapSerializer {
    /// The model of the key waiting for its value, if any.
    pub closed spec fn pending(&self) -> Option<ValueModel> {
        match self.last_key {
            Option::Some(k) => Option::Some(value_model(k)),
            Option::None => Option::None,
        }
    }

    pub fn new() -> (r: Self)
        ensures
            r@ == Seq::<(ValueModel, ValueModel)>::empty(),
            r.pending() is None,
    {
        RecordMapSerializer { last_key: Option::None, entries: Vec::new() }
    }

    pub fn with_capacity(capacity: usize) -> (r: Self)
        ensures
            r@ == Seq::<(ValueModel, ValueModel)>::empty(),
            r.pending() is None,
    {
        RecordMapSerializer { last_key: Option::None, entries: Vec::with_capacity(capacity) }
    }

    pub fn with_capacity_opt(capacity: Option<usize>) -> (r: Self)
        ensures
            r@ == Seq::<(ValueModel, ValueModel)>::empty(),
            r.pending() is None,
    {
        match capacity {
            Option::Some(cap) => Self::with_capacity(cap),
            Option::None => Self::new(),
        }
    }

    /// Stages a key; its value must follow before the next key.
    pub fn serialize_key(&mut self, key: RecordValue)
        ensures
            final(self)@ == old(self)@,
            final(self).pending() == Some(key@),
    {
        self.last_key = Option::Some(key);
    }

    /// Emits the value for the staged key; emitting one with no staged key
    /// is a protocol violation.
    pub fn serialize_value(&mut self, value: RecordValue) -> (r: Result<(), RecordSerError>)
        ensures
            match old(self).pending() {
                Some(k) => {
                    &&& r is Ok
                    &&& final(self)@ == old(self)@.push((k, value@))
                    &&& final(self).pending() is None
                },
                None => {
                    &&& r == Result::<(), RecordSerError>::Err(RecordSerError::ValueBeforeKey)
                    &&& final(self)@ == old(self)@
                    &&& final(self).pending() is None
                },
            },
    {
        let mut staged: Option<RecordValue> = Option::None;
        core::mem::swap(&mut staged, &mut self.last_key);
        match staged {
            Option::Some(key) => {
                self.entries.push((key, value));
                Ok(())
            },
            Option::None => Err(RecordSerError::ValueBeforeKey),
        }
    }

    /// Appends one entry under a field name, in one step; a staged key is
    /// left as it was.
    pub fn serialize_field(&mut self, key: &str, value: RecordValue)
        ensures
            final(self)@ == old(self)@.push((ValueModel::Str(key@), value@)),
            final(self).pending() == old(self).pending(),
    {
        self.entries.push((RecordValue::Str(String::from_str(key)), value));
    }

    /// Closes the builder: the result is a `Record` of the collected
    /// entries, in insertion order. A key staged without a value is
    /// discarded.
    pub fn end(self) -> (r: RecordValue)
        ensures
            r@ == ValueModel::Record(self@),
    {
        RecordValue::Record(self.entries)
    }
}

} // verus!
