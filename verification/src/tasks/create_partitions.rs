use vstd::prelude::*;

use crate::scripting::record::{RecordValue, ValueModel};
use crate::scripting::record_serializer::RecordSerializer;
use crate::scripting::script::ScriptArgs;

verus! {

/// Partitioning settings: the target device, whether an EFI partition is
/// created, and the partition layout. Paths are carried as plain strings.
#[derive(Debug, Clone)]
pub struct PartitionsConfig {
    pub device: String,
    pub efi_partition: bool,
    pub partitions: Partitions,
}

/// The partition layout: automatic, or an explicit list of partitions.
#[derive(Debug, Clone)]
pub enum Partitions {
    Auto,
    Manual(Vec<Partition>),
}

/// One explicitly configured partition.
#[derive(Debug, Clone)]
pub struct Partition {
    pub mountpoint: String,
    pub blockdevice: String,
    pub filesystem: Option<FileSystem>,
}

/// The file systems a partition can be formatted with.
#[derive(Debug, Clone, Copy, PartialEq, Eq, Structural)]
pub enum FileSystem {
    VFAT,
    BFS,
    CramFS,
    Ext2,
    Ext3,
    Ext4,
    FAT,
    MSDOS,
    XFS,
    BTRFS,
    Minix,
    F2FS,
}

impl FileSystem {
    /// The variant's name, which the unit variant serializes to.
    pub open spec fn spec_name(&self) -> Seq<char> {
        match self {
            FileSystem::VFAT => "VFAT"@,
            FileSystem::BFS => "BFS"@,
            FileSystem::CramFS => "CramFS"@,
            FileSystem::Ext2 => "Ext2"@,
            FileSystem::Ext3 => "Ext3"@,
            FileSystem::Ext4 => "Ext4"@,
            FileSystem::FAT => "FAT"@,
            FileSystem::MSDOS => "MSDOS"@,
            FileSystem::XFS => "XFS"@,
            FileSystem::BTRFS => "BTRFS"@,
            FileSystem::Minix => "Minix"@,
            FileSystem::F2FS => "F2FS"@,
        }
    }
}

impl ScriptArgs for FileSystem {
    /// A unit variant serializes to its variant name.
    open spec fn model(&self) -> ValueModel {
        ValueModel::Str(self.spec_name())
    }

    fn to_value(&self) -> (r: RecordValue)
        ensures
            r@ == self.model(),
    {
        let name: &str = match self {
            FileSystem::VFAT => "VFAT",
            FileSystem::BFS => "BFS",
            FileSystem::CramFS => "CramFS",
            FileSystem::Ext2 => "Ext2",
            FileSystem::Ext3 => "Ext3",
            FileSystem::Ext4 => "Ext4",
            FileSystem::FAT => "FAT",
            FileSystem::MSDOS => "MSDOS",
            FileSystem::XFS => "XFS",
            FileSystem::BTRFS => "BTRFS",
            FileSystem::Minix => "Minix",
            FileSystem::F2FS => "F2FS",
        };
        RecordSerializer::serialize_unit_variant(name)
    }
}

impl ScriptArgs for Partition {
    /// A record with one field per struct field, in declaration order; an
    /// absent file system marshals to `Null`.
    open spec fn model(&self) -> ValueModel {
        ValueModel::Record(
            seq![
                (ValueModel::Str("mountpoint"@), self.mountpoint.model()),
                (ValueModel::Str("blockdevice"@), self.blockdevice.model()),
                (ValueModel::Str("filesystem"@), self.filesystem.model()),
            ],
        )
    }

    fn to_value(&self) -> (r: RecordValue)
        ensures
            r@ == self.model(),
    {
        let mut m = RecordSerializer::map_serializer(Some(3));
        m.serialize_field("mountpoint", self.mountpoint.to_value());
        m.serialize_field("blockdevice", self.blockdevice.to_value());
        m.serialize_field("filesystem", self.filesystem.to_value());
        proof {
            assert(m@ =~= seq![
                (ValueModel::Str("mountpoint"@), self.mountpoint.model()),
                (ValueModel::Str("blockdevice"@), self.blockdevice.model()),
                (ValueModel::Str("filesystem"@), self.filesystem.model()),
            ]);
        }
        m.end()
    }
}

impl ScriptArgs for Partitions {
    /// The unit variant serializes to its name; the manual layout
    /// serializes to a one-entry record from the variant name to the list
    /// of partitions.
    open spec fn model(&self) -> ValueModel {
        match self {
            Partitions::Auto => ValueModel::Str("Auto"@),
            Partitions::Manual(parts) => ValueModel::Record(
                seq![(ValueModel::Str("Manual"@), parts.model())],
            ),
        }
    }

    fn to_value(&self) -> (r: RecordValue)
        ensures
            r@ == self.model(),
    {
        match self {
            Partitions::Auto => RecordSerializer::serialize_unit_variant("Auto"),
            Partitions::Manual(parts) => RecordSerializer::serialize_newtype_variant(
                "Manual",
                parts.to_value(),
            ),
        }
    }
}

impl ScriptArgs for PartitionsConfig {
    /// A record with one field per struct field, in declaration order.
    open spec fn model(&self) -> ValueModel {
        ValueModel::Record(
            seq![
                (ValueModel::Str("device"@), self.device.model()),
                (ValueModel::Str("efi_partition"@), self.efi_partition.model()),
                (ValueModel::Str("partitions"@), self.partitions.model()),
            ],
        )
    }

    fn to_value(&self) -> (r: RecordValue)
        ensures
            r@ == self.model(),
    {
        let mut m = RecordSerializer::map_serializer(Some(3));
        m.serialize_field("device", self.device.to_value());
        m.serialize_field("efi_partition", self.efi_partition.to_value());
        m.serialize_field("partitions", self.partitions.to_value());
        proof {
            assert(m@ =~= seq![
                (ValueModel::Str("device"@), self.device.model()),
                (ValueModel::Str("efi_partition"@), self.efi_partition.model()),
                (ValueModel::Str("partitions"@), self.partitions.model()),
            ]);
        }
        m.end()
    }
}

} // verus!
