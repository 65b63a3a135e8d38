use vstd::prelude::*;

use crate::scripting::record::{RecordValue, ValueModel};
use crate::scripting::record_serializer::RecordSerializer;
use crate::scripting::script::ScriptArgs;

verus! {

/// The root account's credentials.
#[derive(Debug, Clone)]
pub struct RootUserConfig {
    pub password: String,
}

impl ScriptArgs for RootUserConfig {
    /// A record with one field per struct field.
    open spec fn model(&self) -> ValueModel {
        ValueModel::Record(seq![(ValueModel::Str("password"@), self.password.model())])
    }

    fn to_value(&self) -> (r: RecordValue)
        ensures
            r@ == self.model(),
    {
        let mut m = RecordSerializer::map_serializer(Some(1));
        m.serialize_field("password", self.password.to_value());
        proof {
            assert(m@ =~= seq![(ValueModel::Str("password"@), self.password.model())]);
        }
        m.end()
    }
}

} // verus!
