//! Discovery of the SMBIOS structure table in a raw image of physical memory.
//!
//! A firmware that offers no higher-level interface leaves an entry-point
//! record somewhere in a fixed window of low memory. The record comes in two
//! formats. This crate finds it, checks the table location it announces
//! against the window, and loads the table.
//!
//! The crate performs no I/O. A memory source is driven by requests: the
//! crate says which bytes it needs next, the caller reads them and hands the
//! outcome back. For a memory image held in a slice the crate answers the
//! requests itself.

pub mod discover;
pub mod error;
pub mod layout;
pub mod load;
pub mod locate;
pub mod record;
pub mod source;
pub mod window;
