//! Loading the structure table that an entry point announces.
//!
//! The address and the length come from memory that nobody vouches for. They
//! are held against the window that was searched before a single byte of the
//! table is read. The bytes are split into structures by `smbioslib`.

use vstd::prelude::*;
use crate::record::{SmbiosVersion, StructureTableDescriptor};
use crate::source::{image_answer, read_image, Answer, IoFault, ReadReply, ReadRequest};
use crate::window::MemoryWindow;

verus! {

/// The structures of a table, as `smbioslib` holds them.
#[verifier::external_type_specification]
#[verifier::external_body]
pub struct ExUndefinedStructTable(smbioslib::UndefinedStructTable);

/// The least length of a table that holds a structure: a header of four
/// bytes and the two zero bytes that end a structure.
pub const MIN_TABLE_LENGTH: u64 = 6;

/// Why no table was loaded.
#[derive(Clone, Copy, Debug, PartialEq, Eq, Structural)]
pub enum LoadError {
    /// The table is said to start outside the window.
    AddressOutOfRange { address: u64 },
    /// The table is said to reach past the end of the window.
    LengthExceedsRange { length: u64 },
    /// Reading the table failed, or its bytes cannot be a table.
    Io(IoFault),
}

/// A loaded structure table and the version it follows.
#[derive(Debug)]
pub struct SmbiosData {
    pub table: smbioslib::UndefinedStructTable,
    pub version: SmbiosVersion,
}

/// The table that `smbioslib` makes of the bytes `data`.
pub uninterp spec fn structure_table(data: Seq<u8>) -> smbioslib::UndefinedStructTable;

/// `smbioslib::UndefinedStructTable::from` on the bytes of a table. The
/// contract claims no more than that the table depends on the bytes alone.
#[verifier::external_body]
fn smbioslib_structure_table(data: Vec<u8>) -> (table: smbioslib::UndefinedStructTable)
    ensures
        table == structure_table(data@),
{
    smbioslib::UndefinedStructTable::from(data)
}

/// The read that loads the table of `descriptor`, or the reason why the
/// table is not read.
///
/// The start must lie in the window. The end, `address + length`, must not
/// lie behind the last address of the window. The table must be long enough
/// to hold a structure.
pub open spec fn plan_spec(descriptor: StructureTableDescriptor, window: MemoryWindow) -> Result<
    ReadRequest,
    LoadError,
> {
    if descriptor.address < window.start || descriptor.address > window.end {
        Err(LoadError::AddressOutOfRange { address: descriptor.address })
    } else if descriptor.address + descriptor.length > window.end {
        Err(LoadError::LengthExceedsRange { length: descriptor.length })
    } else if descriptor.length < MIN_TABLE_LENGTH {
        Err(LoadError::Io(IoFault::InvalidData))
    } else {
        Ok(ReadRequest { offset: descriptor.address, len: descriptor.length })
    }
}

/// What the outcome of reading `request` makes of the load.
pub open spec fn finish_spec(request: ReadRequest, answer: Answer, version: SmbiosVersion) -> Result<
    SmbiosData,
    LoadError,
> {
    match answer {
        Answer::Fault(fault) => Err(LoadError::Io(fault)),
        Answer::Data(bytes) => if bytes.len() == request.len {
            Ok(SmbiosData { table: structure_table(bytes), version })
        } else {
            Err(LoadError::Io(IoFault::UnexpectedEof))
        },
    }
}

/// The table of `descriptor` in a memory image.
pub open spec fn load_spec(
    image: Seq<u8>,
    descriptor: StructureTableDescriptor,
    window: MemoryWindow,
    version: SmbiosVersion,
) -> Result<SmbiosData, LoadError> {
    match plan_spec(descriptor, window) {
        Err(error) => Err(error),
        Ok(request) => finish_spec(request, image_answer(image, request), version),
    }
}

/// Whether `descriptor` passes every check against `window`.
pub open spec fn admissible(descriptor: StructureTableDescriptor, window: MemoryWindow) -> bool {
    &&& window.start <= descriptor.address <= window.end
    &&& descriptor.address + descriptor.length <= window.end
    &&& descriptor.length >= MIN_TABLE_LENGTH
}

/// Holds `descriptor` against `window` and says what to read.
///
/// An error means that nothing is to be read: there is no request then.
pub fn plan_load(descriptor: StructureTableDescriptor, window: MemoryWindow) -> (plan: Result<
    ReadRequest,
    LoadError,
>)
    ensures
        plan == plan_spec(descriptor, window),
        descriptor.address < window.start ==> plan == Err::<ReadRequest, LoadError>(
            LoadError::AddressOutOfRange { address: descriptor.address },
        ),
        window.holds(descriptor.address as int) && descriptor.address + descriptor.length
            > window.end ==> plan == Err::<ReadRequest, LoadError>(
            LoadError::LengthExceedsRange { length: descriptor.length },
        ),
        plan is Ok <==> admissible(descriptor, window),
        plan is Ok ==> plan == Ok::<ReadRequest, LoadError>(
            ReadRequest { offset: descriptor.address, len: descriptor.length },
        ),
{
    if descriptor.address < window.start || descriptor.address > window.end {
        Err(LoadError::AddressOutOfRange { address: descriptor.address })
    } else if descriptor.length > window.end - descriptor.address {
        Err(LoadError::LengthExceedsRange { length: descriptor.length })
    } else if descriptor.length < MIN_TABLE_LENGTH {
        Err(LoadError::Io(IoFault::InvalidData))
    } else {
        Ok(ReadRequest { offset: descriptor.address, len: descriptor.length })
    }
}

/// Makes the loaded table of the outcome of reading `request`. The version
/// is handed through as it is.
pub fn finish_load(request: ReadRequest, reply: ReadReply, version: SmbiosVersion) -> (loaded:
    Result<SmbiosData, LoadError>)
    ensures
        loaded == finish_spec(request, reply@, version),
        loaded is Ok ==> loaded->Ok_0.version == version,
{
    match reply {
        ReadReply::Fault(fault) => Err(LoadError::Io(fault)),
        ReadReply::Data(bytes) => {
            if bytes.len() as u64 == request.len {
                Ok(SmbiosData { table: smbioslib_structure_table(bytes), version })
            } else {
                Err(LoadError::Io(IoFault::UnexpectedEof))
            }
        },
    }
}

/// Loads the table of `descriptor` from a memory image.
///
/// A descriptor that passes the checks has exactly its `length` bytes from
/// `address` on read. Where the image holds them, the table is made of them.
pub fn load(
    image: &[u8],
    descriptor: StructureTableDescriptor,
    window: MemoryWindow,
    version: SmbiosVersion,
) -> (loaded: Result<SmbiosData, LoadError>)
    ensures
        loaded == load_spec(image@, descriptor, window, version),
        descriptor.address < window.start ==> loaded == Err::<SmbiosData, LoadError>(
            LoadError::AddressOutOfRange { address: descriptor.address },
        ),
        window.holds(descriptor.address as int) && descriptor.address + descriptor.length
            > window.end ==> loaded == Err::<SmbiosData, LoadError>(
            LoadError::LengthExceedsRange { length: descriptor.length },
        ),
        admissible(descriptor, window) && descriptor.address + descriptor.length <= image@.len()
            ==> loaded == Ok::<SmbiosData, LoadError>(
            SmbiosData {
                table: structure_table(
                    image@.subrange(
                        descriptor.address as int,
                        descriptor.address + descriptor.length,
                    ),
                ),
                version,
            },
        ),
{
    match plan_load(descriptor, window) {
        Err(error) => Err(error),
        Ok(request) => finish_load(request, read_image(image, request), version),
    }
}

} // verus!
