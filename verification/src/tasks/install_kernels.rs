use vstd::prelude::*;

use crate::scripting::record::{RecordValue, ValueModel};
use crate::scripting::record_serializer::RecordSerializer;
use crate::scripting::script::ScriptArgs;

verus! {

/// Kernel settings: the default kernel and any additional ones.
#[derive(Debug, Clone)]
pub struct KernelConfig {
    pub default: Kernel,
    pub additional: Vec<Kernel>,
}

/// One kernel, named by its package name.
#[derive(Debug, Clone)]
pub struct Kernel(pub String);

impl ScriptArgs for Kernel {
    /// A newtype struct serializes transparently as its inner value.
    open spec fn model(&self) -> ValueModel {
        ValueModel::Str(self.0@)
    }

    fn to_value(&self) -> (r: RecordValue)
        ensures
            r@ == self.model(),
    {
        self.0.to_value()
    }
}

impl ScriptArgs for KernelConfig {
    /// A record with one field per struct field, in declaration order.
    open spec fn model(&self) -> ValueModel {
        ValueModel::Record(
            seq![
                (ValueModel::Str("default"@), self.default.model()),
                (ValueModel::Str("additional"@), self.additional.model()),
            ],
        )
    }

    fn to_value(&self) -> (r: RecordValue)
        ensures
            r@ == self.model(),
    {
        let mut m = RecordSerializer::map_serializer(Some(2));
        m.serialize_field("default", self.default.to_value());
        m.serialize_field("additional", self.additional.to_value());
        proof {
            assert(m@ =~= seq![
                (ValueModel::Str("default"@), self.default.model()),
                (ValueModel::Str("additional"@), self.additional.model()),
            ]);
        }
        m.end()
    }
}

} // verus!
