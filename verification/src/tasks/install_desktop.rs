use vstd::prelude::*;

use crate::scripting::record::{RecordValue, ValueModel};
use crate::scripting::record_serializer::RecordSerializer;
use crate::scripting::script::ScriptArgs;

verus! {

/// The desktop environment to install.
#[derive(Debug, Clone, Copy, PartialEq, Eq, Structural)]
pub enum DesktopConfig {
    Onyx,
    KdePlasma,
    Mate,
    Gnome,
    Cinnamon,
    Xfce,
    Budgie,
    Enlightenment,
    Lxqt,
    Sway,
    I3Gaps,
    HerbstluftWM,
    AwesomeWM,
    BSPWM,
}

impl DesktopConfig {
    /// The variant's name, which the unit variant serializes to.
    pub open spec fn spec_name(&self) -> Seq<char> {
        match self {
            DesktopConfig::Onyx => "Onyx"@,
            DesktopConfig::KdePlasma => "KdePlasma"@,
            DesktopConfig::Mate => "Mate"@,
            DesktopConfig::Gnome => "Gnome"@,
            DesktopConfig::Cinnamon => "Cinnamon"@,
            DesktopConfig::Xfce => "Xfce"@,
            DesktopConfig::Budgie => "Budgie"@,
            DesktopConfig::Enlightenment => "Enlightenment"@,
            DesktopConfig::Lxqt => "Lxqt"@,
            DesktopConfig::Sway => "Sway"@,
            DesktopConfig::I3Gaps => "I3Gaps"@,
            DesktopConfig::HerbstluftWM => "HerbstluftWM"@,
            DesktopConfig::AwesomeWM => "AwesomeWM"@,
            DesktopConfig::BSPWM => "BSPWM"@,
        }
    }
}

impl ScriptArgs for DesktopConfig {
    /// A unit variant serializes to its variant name.
    open spec fn model(&self) -> ValueModel {
        ValueModel::Str(self.spec_name())
    }

    fn to_value(&self) -> (r: RecordValue)
        ensures
            r@ == self.model(),
    {
        let name: &str = match self {
            DesktopConfig::Onyx => "Onyx",
            DesktopConfig::KdePlasma => "KdePlasma",
            DesktopConfig::Mate => "Mate",
            DesktopConfig::Gnome => "Gnome",
            DesktopConfig::Cinnamon => "Cinnamon",
            DesktopConfig::Xfce => "Xfce",
            DesktopConfig::Budgie => "Budgie",
            DesktopConfig::Enlightenment => "Enlightenment",
            DesktopConfig::Lxqt => "Lxqt",
            DesktopConfig::Sway => "Sway",
            DesktopConfig::I3Gaps => "I3Gaps",
            DesktopConfig::HerbstluftWM => "HerbstluftWM",
            DesktopConfig::AwesomeWM => "AwesomeWM",
            DesktopConfig::BSPWM => "BSPWM",
        };
        RecordSerializer::serialize_unit_variant(name)
    }
}

} // verus!
