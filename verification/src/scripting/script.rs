//! Scripts and their arguments.
//!
//! A [`NuScript`] is a located script file together with the global
//! variables that will be injected into its execution context. The
//! [`ScriptArgs`] capability lets any typed configuration value describe
//! itself to the marshaler; a marshaled top-level list is spread into that
//! many positional call arguments, anything else becomes a single argument.

use vstd::prelude::*;
use vstd::string::StringExecFns;

use crate::error::AppError;
use crate::scripting::record::{
    lemma_list_model_push, list_model, value_model, RecordValue, ValueModel,
};
use crate::scripting::record_serializer::RecordListSerializer;

verus! {

broadcast use lemma_list_model_push;

/// A typed value that can describe itself to the marshaler.
///
/// `model` is the shape the value promises to marshal into; `to_value`
/// produces exactly that shape.
pub trait ScriptArgs {
    /// The value-model shape this value marshals into.
    spec fn model(&self) -> ValueModel;

    /// Marshals this value; the result is exactly the promised model.
    fn to_value(&self) -> (r: RecordValue)
        ensures
            r@ == self.model(),
    ;
}

/// A step without meaningful arguments passes the empty value.
impl ScriptArgs for () {
    open spec fn model(&self) -> ValueModel {
        ValueModel::Null
    }

    fn to_value(&self) -> (r: RecordValue)
        ensures
            r@ == self.model(),
    {
        RecordValue::Null
    }
}

impl ScriptArgs for bool {
    open spec fn model(&self) -> ValueModel {
        ValueModel::Bool(*self)
    }

    fn to_value(&self) -> (r: RecordValue)
        ensures
            r@ == self.model(),
    {
        RecordValue::Bool(*self)
    }
}

impl ScriptArgs for i64 {
    open spec fn model(&self) -> ValueModel {
        ValueModel::Int(*self)
    }

    fn to_value(&self) -> (r: RecordValue)
        ensures
            r@ == self.model(),
    {
        RecordValue::Int(*self)
    }
}

impl ScriptArgs for String {
    open spec fn model(&self) -> ValueModel {
        ValueModel::Str(self@)
    }

    fn to_value(&self) -> (r: RecordValue)
        ensures
            r@ == self.model(),
    {
        RecordValue::Str(self.clone())
    }
}

/// An absent optional marshals to `Null`; a present one marshals exactly as
/// its inner value does.
impl<T: ScriptArgs> ScriptArgs for Option<T> {
    open spec fn model(&self) -> ValueModel {
        match self {
            Option::Some(v) => v.model(),
            Option::None => ValueModel::Null,
        }
    }

    fn to_value(&self) -> (r: RecordValue)
        ensures
            r@ == self.model(),
    {
        match self {
            Option::Some(v) => v.to_value(),
            Option::None => RecordValue::Null,
        }
    }
}

/// A homogeneous sequence marshals to a list of equal length, element order
/// preserved.
impl<T: ScriptArgs> ScriptArgs for Vec<T> {
    open spec fn model(&self) -> ValueModel {
        ValueModel::List(Seq::new(self@.len(), |i: int| self@[i].model()))
    }

    fn to_value(&self) -> (r: RecordValue)
        ensures
            r@ == self.model(),
    {
        let n = self.len();
        let mut ls = RecordListSerializer::with_capacity(n);
        let mut i: usize = 0;
        while i < n
            invariant
                n == self@.len(),
                i <= n,
                ls@ == Seq::new(i as nat, |j: int| self@[j].model()),
            decreases n - i,
        {
            let v = self[i].to_value();
            ls.serialize_element(v);
            proof {
                assert(ls@ =~= Seq::new((i + 1) as nat, |j: int| self@[j].model()));
            }
            i = i + 1;
        }
        ls.end()
    }
}

/// Marshaling an absent optional always yields `Null`; marshaling a
/// present one yields exactly the value its inner value marshals to.
pub proof fn lemma_optional_marshal<T: ScriptArgs>(o: Option<T>)
    ensures
        o is None ==> o.model() == ValueModel::Null,
        o matches Some(x) ==> o.model() == x.model(),
{
}

/// Marshaling a homogeneous sequence yields a list of equal length whose
/// elements, in order, are exactly what the sequence's elements marshal
/// to.
pub proof fn lemma_sequence_marshal<T: ScriptArgs>(v: Vec<T>)
    ensures
        v.model() matches ValueModel::List(l) && l.len() == v@.len() && forall|i: int|
            0 <= i < v@.len() ==> l[i] == v@[i].model(),
{
    broadcast use vstd::seq::group_seq_axioms;

}

/// The models of an argument vector, in order.
pub open spec fn args_model(s: Seq<RecordValue>) -> Seq<ValueModel> {
    list_model(s)
}

/// How a marshaled configuration value is spread over the entry point's
/// positional parameters: a top-level list becomes one argument per
/// element, any other shape becomes exactly one argument.
pub open spec fn spread_model(m: ValueModel) -> Seq<ValueModel> {
    match m {
        ValueModel::List(l) => l,
        _ => seq![m],
    }
}

/// Marshals a configuration value into the positional arguments of a script
/// call.
pub fn get_args<T: ScriptArgs>(args: &T) -> (r: Vec<RecordValue>)
    ensures
        args_model(r@) == spread_model(args.model()),
{
    let v = args.to_value();
    match v {
        RecordValue::List(l) => l,
        other => {
            let ghost o = other;
            let mut one: Vec<RecordValue> = Vec::new();
            one.push(other);
            proof {
                assert(list_model(one@) =~= seq![o@]);
            }
            one
        },
    }
}

/// The models of injected global variables: name and value, in insertion
/// order.
pub open spec fn vars_model(s: Seq<(String, RecordValue)>) -> Seq<(Seq<char>, ValueModel)> {
    Seq::new(s.len(), |i: int| (s[i].0@, value_model(s[i].1)))
}

/// The host's report of one attempted script invocation: the source was
/// parsed and evaluated, the entry point was looked up, and the call was
/// run, as far as each step got.
#[derive(Debug, Clone, PartialEq, Eq)]
pub enum InvocationEvent {
    /// Every step succeeded.
    Completed,
    /// The source failed to compile; holds the parser's diagnostic.
    ParseFailed(String),
    /// The source compiled and its top level evaluated, but no `main`
    /// declaration was found.
    MainMissing,
    /// The entry point was called and the interpreter reported a runtime
    /// failure.
    RuntimeFailed,
}

/// A located script, ready to be invoked: its path and the global
/// variables to inject into its fresh execution context.
///
/// The execution context itself is created, used and discarded by the host
/// for exactly one invocation; nothing of it is ever shared or reused.
#[derive(Debug)]
pub struct NuScript {
    path: String,
    vars: Vec<(String, RecordValue)>,
}

impl NuScript {
    /// The path of the script file.
    pub closed spec fn spec_path(&self) -> Seq<char> {
        self.path@
    }

    /// The injected global variables, in insertion order.
    pub closed spec fn spec_vars(&self) -> Seq<(Seq<char>, ValueModel)> {
        vars_model(self.vars@)
    }

    /// Variable names are unique: inserting an existing name overwrites in
    /// place.
    pub open spec fn wf(&self) -> bool {
        forall|i: int, j: int|
            0 <= i < j < self.spec_vars().len() ==> self.spec_vars()[i].0 != self.spec_vars()[j].0
    }

    /// A freshly located script with no global variables yet.
    pub fn new(path: String) -> (r: Self)
        ensures
            r.spec_path() == path@,
            r.spec_vars() == Seq::<(Seq<char>, ValueModel)>::empty(),
            r.wf(),
    {
        let r = NuScript { path, vars: Vec::new() };
        proof {
            assert(r.spec_vars() =~= Seq::<(Seq<char>, ValueModel)>::empty());
        }
        r
    }

    /// The path of the script file.
    pub fn path(&self) -> (r: &String)
        ensures
            r@ == self.spec_path(),
    {
        &self.path
    }

    /// The injected global variables, in insertion order.
    pub fn vars(&self) -> (r: &Vec<(String, RecordValue)>)
        ensures
            vars_model(r@) == self.spec_vars(),
    {
        &self.vars
    }

    /// Adds a global variable that the script can reference as an
    /// already-bound name. A variable of the same name is overwritten in
    /// place; a new one is appended.
    pub fn set_global_var(&mut self, key: String, value: RecordValue)
        requires
            old(self).wf(),
        ensures
            final(self).wf(),
            final(self).spec_path() == old(self).spec_path(),
            ({
                let ov = old(self).spec_vars();
                let nv = final(self).spec_vars();
                if exists|i: int| 0 <= i < ov.len() && ov[i].0 == key@ {
                    &&& nv.len() == ov.len()
                    &&& forall|i: int|
                        0 <= i < ov.len() ==> nv[i] == (if ov[i].0 == key@ {
                            (key@, value@)
                        } else {
                            ov[i]
                        })
                } else {
                    nv == ov.push((key@, value@))
                }
            }),
    {
        let n = self.vars.len();
        let mut i: usize = 0;
        while i < n
            invariant
                old(self).wf(),
                *self == *old(self),
                n == self.vars@.len(),
                i <= n,
                forall|j: int| 0 <= j < i ==> self.spec_vars()[j].0 != key@,
            decreases n - i,
        {
            if self.vars[i].0 == key {
                self.vars.set(i, (key, value));
                proof {
                    let ov = old(self).spec_vars();
                    let nv = self.spec_vars();
                    assert(ov[i as int].0 == key@);
                    assert forall|j: int| 0 <= j < ov.len() implies nv[j] == (if ov[j].0 == key@ {
                        (key@, value@)
                    } else {
                        ov[j]
                    }) by {
                        if j != i {
                            assert(nv[j] == ov[j]);
                        }
                    }
                }
                return ;
            }
            i = i + 1;
        }
        self.vars.push((key, value));
        proof {
            assert(self.spec_vars() =~= old(self).spec_vars().push((key@, value@)));
        }
    }

    /// Maps the host's report of one attempted invocation of this script
    /// to an error or success: a compile failure of the source is
    /// `ParseError`; a script without a `main` entry point is
    /// `MissingMain`, naming this script's path, no matter how cleanly the
    /// rest of it compiled; a runtime failure of the entry point is
    /// `FailedToExecuteScript`.
    pub fn invocation_outcome(&self, ev: InvocationEvent) -> (r: Result<(), AppError>)
        ensures
            match ev {
                InvocationEvent::Completed => r == Result::<(), AppError>::Ok(()),
                InvocationEvent::ParseFailed(d) => (r matches Err(e) && e matches
                    AppError::ParseError(d2) && d2 == d),
                InvocationEvent::MainMissing => (r matches Err(e) && e matches AppError::MissingMain(
                    p,
                ) && p@ == self.spec_path()),
                InvocationEvent::RuntimeFailed => r == Result::<(), AppError>::Err(
                    AppError::FailedToExecuteScript,
                ),
            },
    {
        match ev {
            InvocationEvent::Completed => Ok(()),
            InvocationEvent::ParseFailed(d) => Err(AppError::ParseError(d)),
            InvocationEvent::MainMissing => Err(AppError::MissingMain(self.path.clone())),
            InvocationEvent::RuntimeFailed => Err(AppError::FailedToExecuteScript),
        }
    }
}

} // verus!
