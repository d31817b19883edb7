//! What an entry point announces: a version and the place of the structure
//! table.

use vstd::prelude::*;

verus! {

/// The version of the SMBIOS standard that a structure table follows.
#[derive(Clone, Copy, Debug, PartialEq, Eq, Structural)]
pub struct SmbiosVersion {
    pub major: u8,
    pub minor: u8,
    pub revision: u8,
}

/// Address and length of the structure table as an entry point claims them.
/// Nothing about them is trusted until they were held against the window.
#[derive(Clone, Copy, Debug, PartialEq, Eq, Structural)]
pub struct StructureTableDescriptor {
    pub address: u64,
    pub length: u64,
}

/// The fields of a 32-bit entry point.
#[derive(Clone, Copy, Debug, PartialEq, Eq, Structural)]
pub struct LegacyEntryPoint {
    pub major: u8,
    pub minor: u8,
    pub table_address: u32,
    pub table_length: u16,
    pub structure_count: u16,
}

/// The fields of a 64-bit entry point.
#[derive(Clone, Copy, Debug, PartialEq, Eq, Structural)]
pub struct ExtendedEntryPoint {
    pub major: u8,
    pub minor: u8,
    pub docrev: u8,
    pub table_address: u64,
    pub table_max_size: u32,
}

/// An entry point of either format.
#[derive(Clone, Copy, Debug, PartialEq, Eq, Structural)]
pub enum EntryPointRecord {
    Legacy(LegacyEntryPoint),
    Extended(ExtendedEntryPoint),
}

impl EntryPointRecord {
    /// The version that the record announces. The legacy format has no
    /// revision field, so its revision is 0.
    pub open spec fn version_spec(self) -> SmbiosVersion {
        match self {
            EntryPointRecord::Legacy(entry) => SmbiosVersion {
                major: entry.major,
                minor: entry.minor,
                revision: 0,
            },
            EntryPointRecord::Extended(entry) => SmbiosVersion {
                major: entry.major,
                minor: entry.minor,
                revision: entry.docrev,
            },
        }
    }

    /// Where the record says the structure table lies, widened to 64 bits.
    pub open spec fn descriptor_spec(self) -> StructureTableDescriptor {
        match self {
            EntryPointRecord::Legacy(entry) => StructureTableDescriptor {
                address: entry.table_address as u64,
                length: entry.table_length as u64,
            },
            EntryPointRecord::Extended(entry) => StructureTableDescriptor {
                address: entry.table_address,
                length: entry.table_max_size as u64,
            },
        }
    }

    /// The version that the record announces.
    pub fn version(&self) -> (version: SmbiosVersion)
        ensures
            version == self.version_spec(),
            self is Legacy ==> version.revision == 0,
    {
        match self {
            EntryPointRecord::Legacy(entry) => SmbiosVersion {
                major: entry.major,
                minor: entry.minor,
                revision: 0,
            },
            EntryPointRecord::Extended(entry) => SmbiosVersion {
                major: entry.major,
                minor: entry.minor,
                revision: entry.docrev,
            },
        }
    }

    /// Where the record says the structure table lies.
    pub fn descriptor(&self) -> (descriptor: StructureTableDescriptor)
        ensures
            descriptor == self.descriptor_spec(),
    {
        match self {
            EntryPointRecord::Legacy(entry) => StructureTableDescriptor {
                address: entry.table_address as u64,
                length: entry.table_length as u64,
            },
            EntryPointRecord::Extended(entry) => StructureTableDescriptor {
                address: entry.table_address,
                length: entry.table_max_size as u64,
            },
        }
    }
}

} // verus!
