use vstd::prelude::*;

use crate::scripting::record::{RecordValue, ValueModel};
use crate::scripting::record_serializer::RecordSerializer;
use crate::scripting::script::ScriptArgs;

verus! {

/// Locale settings: the locales to generate, the console keymap and the
/// timezone.
#[derive(Debug, Clone)]
pub struct LocaleConfig {
    pub locale: Vec<String>,
    pub keymap: String,
    pub timezone: String,
}

impl ScriptArgs for LocaleConfig {
    /// A record with one field per struct field, in declaration order.
    open spec fn model(&self) -> ValueModel {
        ValueModel::Record(
            seq![
                (ValueModel::Str("locale"@), self.locale.model()),
                (ValueModel::Str("keymap"@), self.keymap.model()),
                (ValueModel::Str("timezone"@), self.timezone.model()),
            ],
        )
    }

    fn to_value(&self) -> (r: RecordValue)
        ensures
            r@ == self.model(),
    {
        let mut m = RecordSerializer::map_serializer(Some(3));
        m.serialize_field("locale", self.locale.to_value());
        m.serialize_field("keymap", self.keymap.to_value());
        m.serialize_field("timezone", self.timezone.to_value());
        proof {
            assert(m@ =~= seq![
                (ValueModel::Str("locale"@), self.locale.model()),
                (ValueModel::Str("keymap"@), self.keymap.model()),
                (ValueModel::Str("timezone"@), self.timezone.model()),
            ]);
        }
        m.end()
    }
}

} // verus!
