use vstd::prelude::*;

use crate::scripting::record::{RecordValue, ValueModel};
use crate::scripting::record_serializer::RecordSerializer;
use crate::scripting::script::ScriptArgs;

verus! {

/// Network settings: the host name and whether the IPv6 loopback entry is
/// added to the hosts file.
#[derive(Debug, Clone)]
pub struct NetworkConfig {
    pub hostname: String,
    pub ipv6_loopback: bool,
}

impl ScriptArgs for NetworkConfig {
    /// A record with one field per struct field, in declaration order.
    open spec fn model(&self) -> ValueModel {
        ValueModel::Record(
            seq![
                (ValueModel::Str("hostname"@), self.hostname.model()),
                (ValueModel::Str("ipv6_loopback"@), self.ipv6_loopback.model()),
            ],
        )
    }

    fn to_value(&self) -> (r: RecordValue)
        ensures
            r@ == self.model(),
    {
        let mut m = RecordSerializer::map_serializer(Some(2));
        m.serialize_field("hostname", self.hostname.to_value());
        m.serialize_field("ipv6_loopback", self.ipv6_loopback.to_value());
        proof {
            assert(m@ =~= seq![
                (ValueModel::Str("hostname"@), self.hostname.model()),
                (ValueModel::Str("ipv6_loopback"@), self.ipv6_loopback.model()),
            ]);
        }
        m.end()
    }
}

} // verus!
