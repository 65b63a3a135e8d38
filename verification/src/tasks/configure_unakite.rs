use vstd::prelude::*;

use crate::scripting::record::{RecordValue, ValueModel};
use crate::scripting::record_serializer::RecordSerializer;
use crate::scripting::script::ScriptArgs;

verus! {

/// Dual-boot settings: the mount points and devices involved in setting up
/// the secondary system. Paths are carried as plain strings.
#[derive(Debug, Clone)]
pub struct UnakiteConfig {
    pub root: String,
    pub old_root: String,
    pub efidir: String,
    pub bootdev: String,
}

impl ScriptArgs for UnakiteConfig {
    /// A record with one field per struct field, in declaration order.
    open spec fn model(&self) -> ValueModel {
        ValueModel::Record(
            seq![
                (ValueModel::Str("root"@), self.root.model()),
                (ValueModel::Str("old_root"@), self.old_root.model()),
                (ValueModel::Str("efidir"@), self.efidir.model()),
                (ValueModel::Str("bootdev"@), self.bootdev.model()),
            ],
        )
    }

    fn to_value(&self) -> (r: RecordValue)
        ensures
            r@ == self.model(),
    {
        let mut m = RecordSerializer::map_serializer(Some(4));
        m.serialize_field("root", self.root.to_value());
        m.serialize_field("old_root", self.old_root.to_value());
        m.serialize_field("efidir", self.efidir.to_value());
        m.serialize_field("bootdev", self.bootdev.to_value());
        proof {
            assert(m@ =~= seq![
                (ValueModel::Str("root"@), self.root.model()),
                (ValueModel::Str("old_root"@), self.old_root.model()),
                (ValueModel::Str("efidir"@), self.efidir.model()),
                (ValueModel::Str("bootdev"@), self.bootdev.model()),
            ]);
        }
        m.end()
    }
}

} // verus!
