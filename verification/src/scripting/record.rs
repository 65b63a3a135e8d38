//! The dynamic value model of the embedded interpreter.
//!
//! Every piece of typed configuration data is marshaled into a
//! [`RecordValue`] before it is handed to a script, either as a positional
//! argument of the entry point or as an injected global variable.

use vstd::prelude::*;
use vstd::string::StringExecFns;

verus! {

broadcast use vstd::std_specs::vec::group_vec_axioms, vstd::seq::group_seq_axioms;

/// The mathematical shape of a [`RecordValue`].
///
/// A `Record` is an ordered sequence of key/value pairs; a `List` is an
/// ordered sequence of elements. `Float` carries the IEEE 754 bit pattern of
/// a 64-bit float: the engine never computes with floats, it only passes
/// them through to the interpreter.
#[verifier::ext_equal]
pub enum ValueModel {
    Int(i64),
    Float(u64),
    Str(Seq<char>),
    Bytes(Seq<u8>),
    Bool(bool),
    Null,
    List(Seq<ValueModel>),
    Record(Seq<(ValueModel, ValueModel)>),
}

/// A dynamically typed interpreter value: the target of configuration
/// marshaling and the payload of every script argument and injected global
/// variable.
///
/// A `Record` keeps its entries in insertion order and a `List` keeps
/// element order; keys need not be comparable, they are only turned into a
/// display string when the host hands the value to the interpreter. `Float`
/// holds the bit pattern of an `f64`.
#[derive(Debug, PartialEq, Eq)]
pub enum RecordValue {
    Int(i64),
    Float(u64),
    Str(String),
    Bytes(Vec<u8>),
    Bool(bool),
    Null,
    List(Vec<RecordValue>),
    Record(Vec<(RecordValue, RecordValue)>),
}

/// The model of one value.
pub open spec fn value_model(v: RecordValue) -> ValueModel
    decreases v,
{
    match v {
        RecordValue::Int(i) => ValueModel::Int(i),
        RecordValue::Float(bits) => ValueModel::Float(bits),
        RecordValue::Str(s) => ValueModel::Str(s@),
        RecordValue::Bytes(b) => ValueModel::Bytes(b@),
        RecordValue::Bool(b) => ValueModel::Bool(b),
        RecordValue::Null => ValueModel::Null,
        RecordValue::List(l) => ValueModel::List(list_model(l@)),
        RecordValue::Record(m) => ValueModel::Record(entries_model(m@)),
    }
}

/// The models of a sequence of values, in order.
pub open spec fn list_model(s: Seq<RecordValue>) -> Seq<ValueModel>
    decreases s,
{
    if s.len() == 0 {
        Seq::empty()
    } else {
        list_model(s.drop_last()).push(value_model(s.last()))
    }
}

/// The models of a sequence of key/value pairs, in order.
pub open spec fn entries_model(s: Seq<(RecordValue, RecordValue)>) -> Seq<(ValueModel, ValueModel)>
    decreases s,
{
    if s.len() == 0 {
        Seq::empty()
    } else {
        entries_model(s.drop_last()).push((value_model(s.last().0), value_model(s.last().1)))
    }
}

impl View for RecordValue {
    type V = ValueModel;

    open spec fn view(&self) -> ValueModel {
        value_model(*self)
    }
}

/// A marshaled list models its elements one for one: same length, same
/// order.
pub broadcast proof fn lemma_list_model(s: Seq<RecordValue>)
    ensures
        #[trigger] list_model(s).len() == s.len(),
        forall|i: int| 0 <= i < s.len() ==> list_model(s)[i] == value_model(s[i]),
    decreases s,
{
    if s.len() > 0 {
        lemma_list_model(s.drop_last());
        assert forall|i: int| 0 <= i < s.len() implies list_model(s)[i] == value_model(s[i]) by {
            if i < s.len() - 1 {
                assert(s.drop_last()[i] == s[i]);
            }
        }
    }
}

/// A marshaled record models its entries one for one: same length, same
/// order, keys and values paired as they were inserted.
pub broadcast proof fn lemma_entries_model(s: Seq<(RecordValue, RecordValue)>)
    ensures
        #[trigger] entries_model(s).len() == s.len(),
        forall|i: int|
            0 <= i < s.len() ==> entries_model(s)[i] == (
                value_model(s[i].0),
                value_model(s[i].1),
            ),
    decreases s,
{
    if s.len() > 0 {
        lemma_entries_model(s.drop_last());
        assert forall|i: int| 0 <= i < s.len() implies entries_model(s)[i] == (
            value_model(s[i].0),
            value_model(s[i].1),
        ) by {
            if i < s.len() - 1 {
                assert(s.drop_last()[i] == s[i]);
            }
        }
    }
}

/// The keys of a record's entries, in insertion order.
pub open spec fn record_keys(es: Seq<(ValueModel, ValueModel)>) -> Seq<ValueModel> {
    Seq::new(es.len(), |i: int| es[i].0)
}

/// The decimal digit character for a value below ten.
pub open spec fn digit_char(d: int) -> char {
    if d == 0 {
        '0'
    } else if d == 1 {
        '1'
    } else if d == 2 {
        '2'
    } else if d == 3 {
        '3'
    } else if d == 4 {
        '4'
    } else if d == 5 {
        '5'
    } else if d == 6 {
        '6'
    } else if d == 7 {
        '7'
    } else if d == 8 {
        '8'
    } else {
        '9'
    }
}

/// The decimal rendering of a non-negative integer, most significant digit
/// first, no leading zeros.
pub open spec fn spec_nat_string(n: int) -> Seq<char>
    decreases n,
{
    if n < 10 {
        seq![digit_char(n)]
    } else {
        spec_nat_string(n / 10).push(digit_char(n % 10))
    }
}

/// The decimal rendering of an integer: a minus sign before the magnitude
/// for negative values.
pub open spec fn spec_int_string(n: int) -> Seq<char> {
    if n < 0 {
        seq!['-'] + spec_nat_string(-n)
    } else {
        spec_nat_string(n)
    }
}

/// The display form of a value used as a record field name: integers in
/// decimal, strings as themselves, booleans as `true`/`false`. Everything
/// else — including floats, whose rendering is the host's concern — shows
/// as the empty string.
pub open spec fn spec_display_string(m: ValueModel) -> Seq<char> {
    match m {
        ValueModel::Int(i) => spec_int_string(i as int),
        ValueModel::Str(s) => s,
        ValueModel::Bool(b) => if b {
            "true"@
        } else {
            "false"@
        },
        _ => Seq::empty(),
    }
}

/// The one-character string of a decimal digit.
fn digit_string(d: u64) -> (r: String)
    requires
        d < 10,
    ensures
        r@ == seq![digit_char(d as int)],
{
    proof {
        reveal_strlit("0");
        reveal_strlit("1");
        reveal_strlit("2");
        reveal_strlit("3");
        reveal_strlit("4");
        reveal_strlit("5");
        reveal_strlit("6");
        reveal_strlit("7");
        reveal_strlit("8");
        reveal_strlit("9");
    }
    let r = match d {
        0 => String::from_str("0"),
        1 => String::from_str("1"),
        2 => String::from_str("2"),
        3 => String::from_str("3"),
        4 => String::from_str("4"),
        5 => String::from_str("5"),
        6 => String::from_str("6"),
        7 => String::from_str("7"),
        8 => String::from_str("8"),
        _ => String::from_str("9"),
    };
    proof {
        assert(r@ =~= seq![digit_char(d as int)]);
    }
    r
}

/// Renders a non-negative integer in decimal.
fn nat_string(n: u64) -> (r: String)
    ensures
        r@ == spec_nat_string(n as int),
    decreases n,
{
    if n < 10 {
        digit_string(n)
    } else {
        let rest = nat_string(n / 10);
        let r = rest.concat(digit_string(n % 10).as_str());
        proof {
            assert(r@ =~= spec_nat_string(n as int));
        }
        r
    }
}

/// Renders an integer in decimal.
fn int_string(n: i64) -> (r: String)
    ensures
        r@ == spec_int_string(n as int),
{
    if n >= 0 {
        nat_string(n as u64)
    } else {
        let mag: u64 = ((-(n + 1)) as u64) + 1;
        proof {
            assert(mag as int == -(n as int));
            reveal_strlit("-");
        }
        let r = String::from_str("-").concat(nat_string(mag).as_str());
        proof {
            assert(r@ =~= spec_int_string(n as int));
        }
        r
    }
}

impl RecordValue {
    /// The display form of this value when it is used as a record field
    /// name.
    pub fn to_string(&self) -> (r: String)
        ensures
            r@ == spec_display_string(self@),
    {
        match self {
            RecordValue::Int(i) => int_string(*i),
            RecordValue::Str(s) => s.clone(),
            RecordValue::Bool(b) => {
                if *b {
                    String::from_str("true")
                } else {
                    String::from_str("false")
                }
            },
            _ => String::new(),
        }
    }
}

/// Appending an element to a list appends its model to the list's model.
pub broadcast proof fn lemma_list_model_push(s: Seq<RecordValue>, v: RecordValue)
    ensures
        #[trigger] list_model(s.push(v)) == list_model(s).push(value_model(v)),
{
    assert(s.push(v).drop_last() =~= s);
    assert(s.push(v).last() == v);
}

/// Appending an entry to a record appends its model to the record's model.
pub broadcast proof fn lemma_entries_model_push(
    s: Seq<(RecordValue, RecordValue)>,
    k: RecordValue,
    v: RecordValue,
)
    ensures
        #[trigger] entries_model(s.push((k, v))) == entries_model(s).push(
            (value_model(k), value_model(v)),
        ),
{
    assert(s.push((k, v)).drop_last() =~= s);
    assert(s.push((k, v)).last() == (k, v));
}

} // verus!
