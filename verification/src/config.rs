//! The host-side typed configuration: one aggregate holding every
//! per-domain sub-configuration. It is produced by the excluded
//! configuration-loading layer, owned by the orchestrator for one install
//! run, and read-only thereafter.

use vstd::prelude::*;
use vstd::string::StringExecFns;

use crate::scripting::record::{RecordValue, ValueModel};
use crate::scripting::record_serializer::RecordSerializer;
use crate::scripting::script::ScriptArgs;
use crate::tasks::{
    BootloaderConfig, BootloaderPreset, DesktopConfig, ExtraPackages, Kernel, KernelConfig,
    LocaleConfig, NetworkConfig, Partitions, PartitionsConfig, RootUserConfig, UnakiteConfig,
    UsersConfig,
};

verus! {

broadcast use vstd::std_specs::vec::group_vec_axioms, vstd::seq::group_seq_axioms;

/// The overall installation configuration.
#[derive(Debug, Clone)]
pub struct Config {
    pub locale: LocaleConfig,
    pub network: NetworkConfig,
    pub partitions: PartitionsConfig,
    pub bootloader: BootloaderConfig,
    pub kernels: KernelConfig,
    pub desktop: DesktopConfig,
    pub users: UsersConfig,
    pub root_user: RootUserConfig,
    pub unakite: Option<UnakiteConfig>,
    pub extra_packages: ExtraPackages,
    pub enable_timeshift: bool,
    pub enable_flatpak: bool,
    pub enable_zramd: bool,
}

impl ScriptArgs for Config {
    /// A record with one field per struct field, in declaration order.
    open spec fn model(&self) -> ValueModel {
        ValueModel::Record(
            seq![
                (ValueModel::Str("locale"@), self.locale.model()),
                (ValueModel::Str("network"@), self.network.model()),
                (ValueModel::Str("partitions"@), self.partitions.model()),
                (ValueModel::Str("bootloader"@), self.bootloader.model()),
                (ValueModel::Str("kernels"@), self.kernels.model()),
                (ValueModel::Str("desktop"@), self.desktop.model()),
                (ValueModel::Str("users"@), self.users.model()),
                (ValueModel::Str("root_user"@), self.root_user.model()),
                (ValueModel::Str("unakite"@), self.unakite.model()),
                (ValueModel::Str("extra_packages"@), self.extra_packages.model()),
                (ValueModel::Str("enable_timeshift"@), self.enable_timeshift.model()),
                (ValueModel::Str("enable_flatpak"@), self.enable_flatpak.model()),
                (ValueModel::Str("enable_zramd"@), self.enable_zramd.model()),
            ],
        )
    }

    fn to_value(&self) -> (r: RecordValue)
        ensures
            r@ == self.model(),
    {
        let mut m = RecordSerializer::map_serializer(Some(13));
        m.serialize_field("locale", self.locale.to_value());
        m.serialize_field("network", self.network.to_value());
        m.serialize_field("partitions", self.partitions.to_value());
        m.serialize_field("bootloader", self.bootloader.to_value());
        m.serialize_field("kernels", self.kernels.to_value());
        m.serialize_field("desktop", self.desktop.to_value());
        m.serialize_field("users", self.users.to_value());
        m.serialize_field("root_user", self.root_user.to_value());
        m.serialize_field("unakite", self.unakite.to_value());
        m.serialize_field("extra_packages", self.extra_packages.to_value());
        m.serialize_field("enable_timeshift", self.enable_timeshift.to_value());
        m.serialize_field("enable_flatpak", self.enable_flatpak.to_value());
        m.serialize_field("enable_zramd", self.enable_zramd.to_value());
        proof {
            assert(m@ =~= seq![
                (ValueModel::Str("locale"@), self.locale.model()),
                (ValueModel::Str("network"@), self.network.model()),
                (ValueModel::Str("partitions"@), self.partitions.model()),
                (ValueModel::Str("bootloader"@), self.bootloader.model()),
                (ValueModel::Str("kernels"@), self.kernels.model()),
                (ValueModel::Str("desktop"@), self.desktop.model()),
                (ValueModel::Str("users"@), self.users.model()),
                (ValueModel::Str("root_user"@), self.root_user.model()),
                (ValueModel::Str("unakite"@), self.unakite.model()),
                (ValueModel::Str("extra_packages"@), self.extra_packages.model()),
                (ValueModel::Str("enable_timeshift"@), self.enable_timeshift.model()),
                (ValueModel::Str("enable_flatpak"@), self.enable_flatpak.model()),
                (ValueModel::Str("enable_zramd"@), self.enable_zramd.model()),
            ]);
        }
        m.end()
    }
}

/// Marshaling a configuration produces a record whose key sequence is
/// exactly its field names, in declaration order; each value marshals its
/// own domain the same way, as that domain's marshal contract states.
pub proof fn lemma_config_marshal_keys(c: Config)
    ensures
        c.model() matches ValueModel::Record(es) && crate::scripting::record::record_keys(es)
            == seq![
            ValueModel::Str("locale"@),
            ValueModel::Str("network"@),
            ValueModel::Str("partitions"@),
            ValueModel::Str("bootloader"@),
            ValueModel::Str("kernels"@),
            ValueModel::Str("desktop"@),
            ValueModel::Str("users"@),
            ValueModel::Str("root_user"@),
            ValueModel::Str("unakite"@),
            ValueModel::Str("extra_packages"@),
            ValueModel::Str("enable_timeshift"@),
            ValueModel::Str("enable_flatpak"@),
            ValueModel::Str("enable_zramd"@),
        ],
{
    let es = c.model()->Record_0;
    assert(crate::scripting::record::record_keys(es) =~= seq![
        ValueModel::Str("locale"@),
        ValueModel::Str("network"@),
        ValueModel::Str("partitions"@),
        ValueModel::Str("bootloader"@),
        ValueModel::Str("kernels"@),
        ValueModel::Str("desktop"@),
        ValueModel::Str("users"@),
        ValueModel::Str("root_user"@),
        ValueModel::Str("unakite"@),
        ValueModel::Str("extra_packages"@),
        ValueModel::Str("enable_timeshift"@),
        ValueModel::Str("enable_flatpak"@),
        ValueModel::Str("enable_zramd"@),
    ]);
}

/// The model of the configuration a script sees when the executor holds
/// none: every domain present, every field empty or at its inert default.
pub open spec fn empty_config_model() -> ValueModel {
    ValueModel::Record(
        seq![
            (
                ValueModel::Str("locale"@),
                ValueModel::Record(
                    seq![
                        (ValueModel::Str("locale"@), ValueModel::List(Seq::empty())),
                        (ValueModel::Str("keymap"@), ValueModel::Str(Seq::empty())),
                        (ValueModel::Str("timezone"@), ValueModel::Str(Seq::empty())),
                    ],
                ),
            ),
            (
                ValueModel::Str("network"@),
                ValueModel::Record(
                    seq![
                        (ValueModel::Str("hostname"@), ValueModel::Str(Seq::empty())),
                        (ValueModel::Str("ipv6_loopback"@), ValueModel::Bool(false)),
                    ],
                ),
            ),
            (
                ValueModel::Str("partitions"@),
                ValueModel::Record(
                    seq![
                        (ValueModel::Str("device"@), ValueModel::Str(Seq::empty())),
                        (ValueModel::Str("efi_partition"@), ValueModel::Bool(false)),
                        (ValueModel::Str("partitions"@), ValueModel::Str("Auto"@)),
                    ],
                ),
            ),
            (
                ValueModel::Str("bootloader"@),
                ValueModel::Record(
                    seq![
                        (ValueModel::Str("preset"@), ValueModel::Str("GrubEfi"@)),
                        (ValueModel::Str("location"@), ValueModel::Str(Seq::empty())),
                    ],
                ),
            ),
            (
                ValueModel::Str("kernels"@),
                ValueModel::Record(
                    seq![
                        (ValueModel::Str("default"@), ValueModel::Str(Seq::empty())),
                        (ValueModel::Str("additional"@), ValueModel::List(Seq::empty())),
                    ],
                ),
            ),
            (ValueModel::Str("desktop"@), ValueModel::Str("KdePlasma"@)),
            (
                ValueModel::Str("users"@),
                ValueModel::Record(
                    seq![(ValueModel::Str("users"@), ValueModel::List(Seq::empty()))],
                ),
            ),
            (
                ValueModel::Str("root_user"@),
                ValueModel::Record(
                    seq![(ValueModel::Str("password"@), ValueModel::Str(Seq::empty()))],
                ),
            ),
            (ValueModel::Str("unakite"@), ValueModel::Null),
            (ValueModel::Str("extra_packages"@), ValueModel::List(Seq::empty())),
            (ValueModel::Str("enable_timeshift"@), ValueModel::Bool(false)),
            (ValueModel::Str("enable_flatpak"@), ValueModel::Bool(false)),
            (ValueModel::Str("enable_zramd"@), ValueModel::Bool(false)),
        ],
    )
}

impl Config {
    /// The all-empty configuration: what a script's `TRM_CONFIG` global
    /// variable holds when the executor was built without a configuration.
    pub fn empty() -> (r: Self)
        ensures
            r.model() == empty_config_model(),
            r.unakite is None,
            !r.enable_timeshift,
            !r.enable_flatpak,
            !r.enable_zramd,
    {
        let r = Config {
            locale: LocaleConfig {
                locale: Vec::new(),
                keymap: String::new(),
                timezone: String::new(),
            },
            network: NetworkConfig { hostname: String::new(), ipv6_loopback: false },
            partitions: PartitionsConfig {
                device: String::new(),
                efi_partition: false,
                partitions: Partitions::Auto,
            },
            bootloader: BootloaderConfig {
                preset: BootloaderPreset::GrubEfi,
                location: String::new(),
            },
            kernels: KernelConfig { default: Kernel(String::new()), additional: Vec::new() },
            desktop: DesktopConfig::KdePlasma,
            users: UsersConfig { users: Vec::new() },
            root_user: RootUserConfig { password: String::new() },
            unakite: None,
            extra_packages: Vec::new(),
            enable_timeshift: false,
            enable_flatpak: false,
            enable_zramd: false,
        };
        proof {
            let e = empty_config_model();
            assert(r.locale.locale.model()->List_0 =~= Seq::<ValueModel>::empty());
            assert(r.locale.model()->Record_0 =~= e->Record_0[0].1->Record_0);
            assert(r.locale.model() == e->Record_0[0].1);
            assert(r.network.model()->Record_0 =~= e->Record_0[1].1->Record_0);
            assert(r.network.model() == e->Record_0[1].1);
            assert(r.partitions.model()->Record_0 =~= e->Record_0[2].1->Record_0);
            assert(r.partitions.model() == e->Record_0[2].1);
            assert(r.bootloader.model()->Record_0 =~= e->Record_0[3].1->Record_0);
            assert(r.bootloader.model() == e->Record_0[3].1);
            assert(r.kernels.additional.model()->List_0 =~= Seq::<ValueModel>::empty());
            assert(r.kernels.model()->Record_0 =~= e->Record_0[4].1->Record_0);
            assert(r.kernels.model() == e->Record_0[4].1);
            assert(r.desktop.model() == e->Record_0[5].1);
            assert(r.users.users.model()->List_0 =~= Seq::<ValueModel>::empty());
            assert(r.users.model()->Record_0 =~= e->Record_0[6].1->Record_0);
            assert(r.users.model() == e->Record_0[6].1);
            assert(r.root_user.model()->Record_0 =~= e->Record_0[7].1->Record_0);
            assert(r.root_user.model() == e->Record_0[7].1);
            assert(r.extra_packages.model()->List_0 =~= Seq::<ValueModel>::empty());
            assert(r.extra_packages.model() == e->Record_0[9].1);
            assert(r.model()->Record_0 =~= e->Record_0);
            assert(r.model() == e);
        }
        r
    }
}

} // verus!
