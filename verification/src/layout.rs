//! The byte layout of the two entry-point formats, and their decoding.
//!
//! Decoding is done by `smbioslib`. The contracts here say, over plain
//! sequences of bytes, which records that crate accepts and which fields it
//! reads from them.

use vstd::prelude::*;
use crate::record::{ExtendedEntryPoint, LegacyEntryPoint};

verus! {

/// Offsets between two places at which an entry point may start.
pub const PARAGRAPH: u64 = 16;

/// Length of a 32-bit entry point.
pub const LEGACY_ENTRY_LENGTH: usize = 0x1F;

/// Least length of a 64-bit entry point.
pub const EXTENDED_ENTRY_MIN_LENGTH: usize = 0x18;

/// The anchor `_SM_` that opens a 32-bit entry point.
pub open spec fn legacy_anchor() -> Seq<u8> {
    seq![0x5Fu8, 0x53u8, 0x4Du8, 0x5Fu8]
}

/// The anchor `_SM3_` that opens a 64-bit entry point.
pub open spec fn extended_anchor() -> Seq<u8> {
    seq![0x5Fu8, 0x53u8, 0x4Du8, 0x33u8, 0x5Fu8]
}

/// The anchor `_DMI_` at offset 0x10 of a 32-bit entry point.
pub open spec fn intermediate_anchor() -> Seq<u8> {
    seq![0x5Fu8, 0x44u8, 0x4Du8, 0x49u8, 0x5Fu8]
}

/// The sum of all bytes.
pub open spec fn byte_sum(bytes: Seq<u8>) -> int
    decreases bytes.len(),
{
    if bytes.len() == 0 {
        0
    } else {
        byte_sum(bytes.drop_last()) + bytes.last() as int
    }
}

/// A checksum holds when the bytes add up to 0 in 8-bit arithmetic.
pub open spec fn checksum_holds(bytes: Seq<u8>) -> bool {
    byte_sum(bytes) % 256 == 0
}

/// The little-endian number in the two bytes from `at`.
pub open spec fn le16(raw: Seq<u8>, at: int) -> int {
    raw[at] as int + 0x100 * (raw[at + 1] as int)
}

/// The little-endian number in the four bytes from `at`.
pub open spec fn le32(raw: Seq<u8>, at: int) -> int {
    le16(raw, at) + 0x1_0000 * le16(raw, at + 2)
}

/// The little-endian number in the eight bytes from `at`.
pub open spec fn le64(raw: Seq<u8>, at: int) -> int {
    le32(raw, at) + 0x1_0000_0000 * le32(raw, at + 4)
}

/// Whether `raw` is a 32-bit entry point that passes every check: its
/// length, the anchor, the checksum over as many bytes as the length field
/// at offset 5 says, the intermediate anchor, and the checksum over the
/// intermediate part.
pub open spec fn legacy_well_formed(raw: Seq<u8>) -> bool {
    &&& raw.len() == LEGACY_ENTRY_LENGTH
    &&& raw.subrange(0, 4) == legacy_anchor()
    &&& raw[5] as int <= raw.len()
    &&& checksum_holds(raw.subrange(0, raw[5] as int))
    &&& raw.subrange(0x10, 0x15) == intermediate_anchor()
    &&& checksum_holds(raw.subrange(0x10, 0x1F))
}

/// The fields of the 32-bit entry point in `raw`, where it is well formed.
pub open spec fn legacy_entry_point(raw: Seq<u8>) -> Option<LegacyEntryPoint> {
    if legacy_well_formed(raw) {
        Some(
            LegacyEntryPoint {
                major: raw[6],
                minor: raw[7],
                table_address: le32(raw, 0x18) as u32,
                table_length: le16(raw, 0x16) as u16,
                structure_count: le16(raw, 0x1C) as u16,
            },
        )
    } else {
        None
    }
}

/// Whether `raw` is a 64-bit entry point that passes every check: its
/// length, the anchor, and the checksum over as many bytes as the length
/// field at offset 6 says.
pub open spec fn extended_well_formed(raw: Seq<u8>) -> bool {
    &&& raw.len() >= EXTENDED_ENTRY_MIN_LENGTH
    &&& raw.subrange(0, 5) == extended_anchor()
    &&& raw[6] as int <= raw.len()
    &&& checksum_holds(raw.subrange(0, raw[6] as int))
}

/// The fields of the 64-bit entry point in `raw`, where it is well formed.
pub open spec fn extended_entry_point(raw: Seq<u8>) -> Option<ExtendedEntryPoint> {
    if extended_well_formed(raw) {
        Some(
            ExtendedEntryPoint {
                major: raw[7],
                minor: raw[8],
                docrev: raw[9],
                table_address: le64(raw, 0x10) as u64,
                table_max_size: le32(raw, 0x0C) as u32,
            },
        )
    } else {
        None
    }
}

/// `smbioslib::SMBiosEntryPoint32::try_from` on the bytes, and on the entry
/// point it returns the getters `major_version`, `minor_version`,
/// `structure_table_address`, `structure_table_length` and
/// `number_of_smbios_structures`. The contract claims that the call succeeds
/// exactly on well-formed records and that the getters read the fields at
/// their offsets. Records longer than 0x1F bytes are left out: on those that
/// pass the checks before the last one the call panics.
#[verifier::external_body]
fn smbioslib_legacy_entry_point(raw: Vec<u8>) -> (entry: Option<LegacyEntryPoint>)
    requires
        raw@.len() <= LEGACY_ENTRY_LENGTH,
    ensures
        entry == legacy_entry_point(raw@),
{
    match smbioslib::SMBiosEntryPoint32::try_from(raw) {
        Ok(found) => Some(LegacyEntryPoint {
            major: found.major_version(),
            minor: found.minor_version(),
            table_address: found.structure_table_address(),
            table_length: found.structure_table_length(),
            structure_count: found.number_of_smbios_structures(),
        }),
        Err(_) => None,
    }
}

/// `smbioslib::SMBiosEntryPoint64::try_from` on the bytes, and on the entry
/// point it returns the getters `major_version`, `minor_version`, `docrev`,
/// `structure_table_address` and `structure_table_maximum_size`. The contract
/// claims that the call succeeds exactly on well-formed records and that the
/// getters read the fields at their offsets.
#[verifier::external_body]
fn smbioslib_extended_entry_point(raw: Vec<u8>) -> (entry: Option<ExtendedEntryPoint>)
    ensures
        entry == extended_entry_point(raw@),
{
    match smbioslib::SMBiosEntryPoint64::try_from(raw) {
        Ok(found) => Some(ExtendedEntryPoint {
            major: found.major_version(),
            minor: found.minor_version(),
            docrev: found.docrev(),
            table_address: found.structure_table_address(),
            table_max_size: found.structure_table_maximum_size(),
        }),
        Err(_) => None,
    }
}

/// Decodes a 32-bit entry point. More than 0x1F bytes are no such entry
/// point, whatever they hold.
pub(crate) fn decode_legacy(raw: Vec<u8>) -> (entry: Option<LegacyEntryPoint>)
    ensures
        entry == legacy_entry_point(raw@),
{
    if raw.len() > LEGACY_ENTRY_LENGTH {
        None
    } else {
        smbioslib_legacy_entry_point(raw)
    }
}

/// Decodes a 64-bit entry point.
pub(crate) fn decode_extended(raw: Vec<u8>) -> (entry: Option<ExtendedEntryPoint>)
    ensures
        entry == extended_entry_point(raw@),
{
    smbioslib_extended_entry_point(raw)
}

} // verus!
