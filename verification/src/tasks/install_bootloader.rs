use vstd::prelude::*;

use crate::scripting::record::{RecordValue, ValueModel};
use crate::scripting::record_serializer::RecordSerializer;
use crate::scripting::script::ScriptArgs;

verus! {

/// Bootloader settings: the preset to install and where to install it.
/// Paths are carried as plain strings.
#[derive(Debug, Clone)]
pub struct BootloaderConfig {
    pub preset: BootloaderPreset,
    pub location: String,
}

/// The supported bootloader presets.
#[derive(Debug, Clone, Copy, PartialEq, Eq, Structural)]
pub enum BootloaderPreset {
    GrubEfi,
    Legacy,
}

impl BootloaderPreset {
    /// The variant's name, which the unit variant serializes to.
    pub open spec fn spec_name(&self) -> Seq<char> {
        match self {
            BootloaderPreset::GrubEfi => "GrubEfi"@,
            BootloaderPreset::Legacy => "Legacy"@,
        }
    }
}

impl ScriptArgs for BootloaderPreset {
    /// A unit variant serializes to its variant name.
    open spec fn model(&self) -> ValueModel {
        ValueModel::Str(self.spec_name())
    }

    fn to_value(&self) -> (r: RecordValue)
        ensures
            r@ == self.model(),
    {
        let name: &str = match self {
            BootloaderPreset::GrubEfi => "GrubEfi",
            BootloaderPreset::Legacy => "Legacy",
        };
        RecordSerializer::serialize_unit_variant(name)
    }
}

impl ScriptArgs for BootloaderConfig {
    /// A record with one field per struct field, in declaration order.
    open spec fn model(&self) -> ValueModel {
        ValueModel::Record(
            seq![
                (ValueModel::Str("preset"@), self.preset.model()),
                (ValueModel::Str("location"@), self.location.model()),
            ],
        )
    }

    fn to_value(&self) -> (r: RecordValue)
        ensures
            r@ == self.model(),
    {
        let mut m = RecordSerializer::map_serializer(Some(2));
        m.serialize_field("preset", self.preset.to_value());
        m.serialize_field("location", self.location.to_value());
        proof {
            assert(m@ =~= seq![
                (ValueModel::Str("preset"@), self.preset.model()),
                (ValueModel::Str("location"@), self.location.model()),
            ]);
        }
        m.end()
    }
}

} // verus!
