//! The generic marshaler: scalars, sequences, optionals, aggregates.

use tourmaline::scripting::record::RecordValue;
use tourmaline::scripting::record_serializer::{
    RecordListSerializer, RecordMapSerializer, RecordSerError, RecordSerializer,
};
use tourmaline::scripting::script::{get_args, ScriptArgs};
use tourmaline::tasks::{
    BootloaderConfig, BootloaderPreset, DesktopConfig, FileSystem, Kernel, KernelConfig,
    LocaleConfig, NetworkConfig, Partition, Partitions, PartitionsConfig, RootUserConfig,
    UnakiteConfig, User, UsersConfig,
};

fn s(v: &str) -> String {
    v.to_string()
}

fn str_value(v: &str) -> RecordValue {
    RecordValue::Str(v.to_string())
}

#[test]
fn scalars_map_to_matching_variants() {
    assert_eq!(RecordSerializer::serialize_bool(true), RecordValue::Bool(true));
    assert_eq!(RecordSerializer::serialize_bool(false), RecordValue::Bool(false));
    assert_eq!(RecordSerializer::serialize_i64(-7), RecordValue::Int(-7));
    assert_eq!(RecordSerializer::serialize_str("hi"), str_value("hi"));
    assert_eq!(RecordSerializer::serialize_char('x'), str_value("x"));
    assert_eq!(
        RecordSerializer::serialize_bytes(&[1u8, 2, 255]),
        RecordValue::Bytes(vec![1u8, 2, 255])
    );
    assert_eq!(RecordSerializer::serialize_none(), RecordValue::Null);
    assert_eq!(RecordSerializer::serialize_unit(), RecordValue::Null);
}

#[test]
fn integers_of_any_width_widen_to_int() {
    assert_eq!(RecordSerializer::serialize_i8(-128), RecordValue::Int(-128));
    assert_eq!(RecordSerializer::serialize_i16(-32768), RecordValue::Int(-32768));
    assert_eq!(RecordSerializer::serialize_i32(-5), RecordValue::Int(-5));
    assert_eq!(RecordSerializer::serialize_u8(255), RecordValue::Int(255));
    assert_eq!(RecordSerializer::serialize_u16(65535), RecordValue::Int(65535));
    assert_eq!(RecordSerializer::serialize_u32(4294967295), RecordValue::Int(4294967295));
    assert_eq!(
        RecordSerializer::serialize_u64(12345678901234567890),
        RecordValue::Int(12345678901234567890u64 as i64)
    );
    assert_eq!(RecordSerializer::serialize_u64(u64::MAX), RecordValue::Int(-1));
}

#[test]
fn floats_are_carried_by_their_bits() {
    let bits = (1.5f64).to_bits();
    assert_eq!(RecordSerializer::serialize_f64_bits(bits), RecordValue::Float(bits));
    let widened = (0.25f32) as f64;
    assert_eq!(
        RecordSerializer::serialize_f64_bits(widened.to_bits()),
        RecordValue::Float((0.25f64).to_bits())
    );
}

#[test]
fn list_builder_preserves_order_and_length() {
    let mut ls = RecordSerializer::list_serializer(Some(3));
    ls.serialize_element(RecordValue::Int(1));
    ls.serialize_element(RecordValue::Int(2));
    ls.serialize_element(RecordValue::Int(3));
    assert_eq!(
        ls.end(),
        RecordValue::List(vec![RecordValue::Int(1), RecordValue::Int(2), RecordValue::Int(3)])
    );
}

#[test]
fn empty_list_builder_yields_empty_list() {
    let ls = RecordListSerializer::new();
    assert_eq!(ls.end(), RecordValue::List(vec![]));
}

#[test]
fn map_builder_preserves_insertion_order() {
    let mut ms = RecordSerializer::map_serializer(None);
    ms.serialize_field("b", RecordValue::Int(2));
    ms.serialize_field("a", RecordValue::Int(1));
    assert_eq!(
        ms.end(),
        RecordValue::Record(vec![
            (str_value("b"), RecordValue::Int(2)),
            (str_value("a"), RecordValue::Int(1)),
        ])
    );
}

#[test]
fn map_builder_pairs_keys_with_values() {
    let mut ms = RecordMapSerializer::with_capacity(1);
    ms.serialize_key(str_value("k"));
    let ok = ms.serialize_value(RecordValue::Bool(true));
    assert!(ok.is_ok());
    assert_eq!(ms.end(), RecordValue::Record(vec![(str_value("k"), RecordValue::Bool(true))]));
}

#[test]
fn value_before_key_is_a_protocol_error() {
    let mut ms = RecordMapSerializer::new();
    let r = ms.serialize_value(RecordValue::Int(1));
    assert_eq!(r, Err(RecordSerError::ValueBeforeKey));
    assert_eq!(ms.end(), RecordValue::Record(vec![]));
}

#[test]
fn unit_variant_serializes_to_its_name() {
    assert_eq!(RecordSerializer::serialize_unit_variant("Auto"), str_value("Auto"));
    assert_eq!(DesktopConfig::Gnome.to_value(), str_value("Gnome"));
    assert_eq!(FileSystem::Ext4.to_value(), str_value("Ext4"));
    assert_eq!(BootloaderPreset::Legacy.to_value(), str_value("Legacy"));
}

#[test]
fn newtype_variant_serializes_to_one_entry_record() {
    let v = RecordSerializer::serialize_newtype_variant("Manual", RecordValue::Int(3));
    assert_eq!(v, RecordValue::Record(vec![(str_value("Manual"), RecordValue::Int(3))]));
}

#[test]
fn absent_optional_marshals_to_null() {
    let none: Option<String> = None;
    assert_eq!(none.to_value(), RecordValue::Null);
}

#[test]
fn present_optional_marshals_as_its_inner_value() {
    let inner = s("hello");
    let some: Option<String> = Some(s("hello"));
    assert_eq!(some.to_value(), inner.to_value());
}

#[test]
fn sequences_marshal_elementwise_in_order() {
    let v: Vec<String> = vec![s("a"), s("b"), s("c")];
    assert_eq!(
        v.to_value(),
        RecordValue::List(vec![str_value("a"), str_value("b"), str_value("c")])
    );
}

#[test]
fn struct_marshals_to_record_with_field_names_in_order() {
    let cfg = LocaleConfig { locale: vec![s("en_US.UTF-8")], keymap: s("us"), timezone: s("UTC") };
    assert_eq!(
        cfg.to_value(),
        RecordValue::Record(vec![
            (str_value("locale"), RecordValue::List(vec![str_value("en_US.UTF-8")])),
            (str_value("keymap"), str_value("us")),
            (str_value("timezone"), str_value("UTC")),
        ])
    );
}

#[test]
fn network_config_marshals_exactly() {
    let cfg = NetworkConfig { hostname: s("box"), ipv6_loopback: true };
    assert_eq!(
        cfg.to_value(),
        RecordValue::Record(vec![
            (str_value("hostname"), str_value("box")),
            (str_value("ipv6_loopback"), RecordValue::Bool(true)),
        ])
    );
}

#[test]
fn unakite_config_marshals_exactly() {
    let cfg = UnakiteConfig {
        root: s("/mnt"),
        old_root: s("/"),
        efidir: s("/efi"),
        bootdev: s("/dev/sda1"),
    };
    assert_eq!(
        cfg.to_value(),
        RecordValue::Record(vec![
            (str_value("root"), str_value("/mnt")),
            (str_value("old_root"), str_value("/")),
            (str_value("efidir"), str_value("/efi")),
            (str_value("bootdev"), str_value("/dev/sda1")),
        ])
    );
}

#[test]
fn kernel_newtype_marshals_transparently() {
    assert_eq!(Kernel(s("linux-zen")).to_value(), str_value("linux-zen"));
    let cfg = KernelConfig { default: Kernel(s("linux")), additional: vec![Kernel(s("linux-lts"))] };
    assert_eq!(
        cfg.to_value(),
        RecordValue::Record(vec![
            (str_value("default"), str_value("linux")),
            (str_value("additional"), RecordValue::List(vec![str_value("linux-lts")])),
        ])
    );
}

#[test]
fn bootloader_config_marshals_exactly() {
    let cfg = BootloaderConfig { preset: BootloaderPreset::GrubEfi, location: s("/boot") };
    assert_eq!(
        cfg.to_value(),
        RecordValue::Record(vec![
            (str_value("preset"), str_value("GrubEfi")),
            (str_value("location"), str_value("/boot")),
        ])
    );
}

#[test]
fn manual_partitions_nest_a_list_of_records() {
    let cfg = PartitionsConfig {
        device: s("/dev/sda"),
        efi_partition: true,
        partitions: Partitions::Manual(vec![Partition {
            mountpoint: s("/"),
            blockdevice: s("/dev/sda2"),
            filesystem: Some(FileSystem::BTRFS),
        }]),
    };
    assert_eq!(
        cfg.to_value(),
        RecordValue::Record(vec![
            (str_value("device"), str_value("/dev/sda")),
            (str_value("efi_partition"), RecordValue::Bool(true)),
            (
                str_value("partitions"),
                RecordValue::Record(vec![(
                    str_value("Manual"),
                    RecordValue::List(vec![RecordValue::Record(vec![
                        (str_value("mountpoint"), str_value("/")),
                        (str_value("blockdevice"), str_value("/dev/sda2")),
                        (str_value("filesystem"), str_value("BTRFS")),
                    ])])
                )])
            ),
        ])
    );
}

#[test]
fn absent_filesystem_marshals_to_null() {
    let p = Partition { mountpoint: s("/home"), blockdevice: s("/dev/sda3"), filesystem: None };
    assert_eq!(
        p.to_value(),
        RecordValue::Record(vec![
            (str_value("mountpoint"), str_value("/home")),
            (str_value("blockdevice"), str_value("/dev/sda3")),
            (str_value("filesystem"), RecordValue::Null),
        ])
    );
}

#[test]
fn users_config_marshals_exactly() {
    let cfg = UsersConfig {
        users: vec![User { name: s("amy"), password: s("pw"), sudoer: true, shell: s("/bin/nu") }],
    };
    assert_eq!(
        cfg.to_value(),
        RecordValue::Record(vec![(
            str_value("users"),
            RecordValue::List(vec![RecordValue::Record(vec![
                (str_value("name"), str_value("amy")),
                (str_value("password"), str_value("pw")),
                (str_value("sudoer"), RecordValue::Bool(true)),
                (str_value("shell"), str_value("/bin/nu")),
            ])])
        )])
    );
}

#[test]
fn root_user_config_marshals_exactly() {
    let cfg = RootUserConfig { password: s("secret") };
    assert_eq!(
        cfg.to_value(),
        RecordValue::Record(vec![(str_value("password"), str_value("secret"))])
    );
}

#[test]
fn round_trip_preserves_nesting_and_bytes() {
    let mut inner1 = RecordSerializer::map_serializer(Some(1));
    inner1.serialize_field("n", RecordValue::Int(1));
    let mut inner2 = RecordSerializer::map_serializer(Some(1));
    inner2.serialize_field("n", RecordValue::Int(2));
    let mut ls = RecordSerializer::list_serializer(Some(2));
    ls.serialize_element(inner1.end());
    ls.serialize_element(inner2.end());
    let mut outer = RecordSerializer::map_serializer(Some(2));
    outer.serialize_field("items", ls.end());
    outer.serialize_field("blob", RecordSerializer::serialize_bytes(&[0u8, 127, 255]));
    let expected = RecordValue::Record(vec![
        (
            str_value("items"),
            RecordValue::List(vec![
                RecordValue::Record(vec![(str_value("n"), RecordValue::Int(1))]),
                RecordValue::Record(vec![(str_value("n"), RecordValue::Int(2))]),
            ]),
        ),
        (str_value("blob"), RecordValue::Bytes(vec![0u8, 127, 255])),
    ]);
    assert_eq!(outer.end(), expected);
}

#[test]
fn top_level_list_spreads_into_many_arguments() {
    let packages: Vec<String> = vec![s("htop"), s("git")];
    let args = get_args(&packages);
    assert_eq!(args, vec![str_value("htop"), str_value("git")]);
}

#[test]
fn empty_top_level_list_spreads_into_no_arguments() {
    let packages: Vec<String> = vec![];
    assert_eq!(get_args(&packages), Vec::<RecordValue>::new());
}

#[test]
fn non_list_top_level_value_is_a_single_argument() {
    let cfg = RootUserConfig { password: s("pw") };
    let args = get_args(&cfg);
    assert_eq!(args.len(), 1);
    assert_eq!(args[0], cfg.to_value());
    let unit_args = get_args(&());
    assert_eq!(unit_args, vec![RecordValue::Null]);
}

#[test]
fn custom_error_wraps_its_message() {
    assert_eq!(RecordSerError::custom(s("boom")), RecordSerError::Msg(s("boom")));
}
