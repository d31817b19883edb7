//! From a memory image to the loaded structure table: the entry point is
//! located, and the table it announces is loaded.

use vstd::prelude::*;
use crate::load::{admissible, load, load_spec, structure_table, LoadError, SmbiosData};
use crate::locate::{locate, locate_spec, ScanError};
use crate::window::MemoryWindow;

verus! {

/// Why a memory image gave no structure table.
#[derive(Clone, Copy, Debug, PartialEq, Eq, Structural)]
pub enum DiscoveryError {
    /// No entry point was located.
    Scan(ScanError),
    /// The table of the entry point was not loaded.
    Load(LoadError),
}

/// The structure table of a memory image: the table that the entry point of
/// the image announces, under the version that the entry point announces.
pub open spec fn discover_spec(image: Seq<u8>, window: MemoryWindow) -> Result<
    SmbiosData,
    DiscoveryError,
> {
    match locate_spec(image, window) {
        Err(error) => Err(DiscoveryError::Scan(error)),
        Ok(record) => match load_spec(
            image,
            record.descriptor_spec(),
            window,
            record.version_spec(),
        ) {
            Ok(data) => Ok(data),
            Err(error) => Err(DiscoveryError::Load(error)),
        },
    }
}

/// Locates the entry point in `window` and loads its structure table.
pub fn table_load_from_image(image: &[u8], window: MemoryWindow) -> (loaded: Result<
    SmbiosData,
    DiscoveryError,
>)
    ensures
        loaded == discover_spec(image@, window),
{
    match locate(image, window) {
        Err(error) => Err(DiscoveryError::Scan(error)),
        Ok(record) => match load(image, record.descriptor(), window, record.version()) {
            Ok(data) => Ok(data),
            Err(error) => Err(DiscoveryError::Load(error)),
        },
    }
}

/// Discovery is repeatable: two runs over the same image and window give
/// the same outcome, down to the loaded table and its version.
pub proof fn lemma_discovery_is_repeatable(
    image: Seq<u8>,
    window: MemoryWindow,
    first: Result<SmbiosData, DiscoveryError>,
    second: Result<SmbiosData, DiscoveryError>,
)
    requires
        first == discover_spec(image, window),
        second == discover_spec(image, window),
    ensures
        first == second,
{
}

/// No byte of a loaded table lies outside the window: where discovery gives
/// data, an entry point was located, the table it announces passes every
/// check against the window, the data are made of exactly the bytes that the
/// entry point announces, and their version is that of the entry point.
pub proof fn lemma_loaded_table_lies_in_window(
    image: Seq<u8>,
    window: MemoryWindow,
    data: SmbiosData,
)
    requires
        discover_spec(image, window) == Ok::<SmbiosData, DiscoveryError>(data),
    ensures
        locate_spec(image, window) matches Ok(record) && {
            let descriptor = record.descriptor_spec();
            &&& admissible(descriptor, window)
            &&& descriptor.address + descriptor.length <= image.len()
            &&& data.version == record.version_spec()
            &&& data.table == structure_table(
                image.subrange(descriptor.address as int, descriptor.address + descriptor.length),
            )
        },
{
}

} // verus!
