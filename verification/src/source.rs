//! The memory source, seen as requests for bytes and their outcomes.
//!
//! The crate never reads a source itself. It issues a `ReadRequest`; whoever
//! owns the source reads and hands a `ReadReply` back. An image held in memory
//! answers through `read_image`.

use vstd::prelude::*;
use vstd::slice::{slice_subrange, slice_to_vec};

verus! {

/// Why a source could not deliver the bytes asked for.
#[derive(Clone, Copy, Debug, PartialEq, Eq, Structural)]
pub enum IoFault {
    /// The source ended before the last requested byte.
    UnexpectedEof,
    /// What was read cannot be used.
    InvalidData,
    /// The operating system refused or failed the read, with its error code.
    Os(i32),
    /// Any other failure.
    Other,
}

/// A request for exactly `len` bytes starting at the absolute address `offset`.
#[derive(Clone, Copy, Debug, PartialEq, Eq, Structural)]
pub struct ReadRequest {
    pub offset: u64,
    pub len: u64,
}

/// The outcome of a `ReadRequest`.
#[derive(Debug, PartialEq, Eq)]
pub enum ReadReply {
    /// The bytes read.
    Data(Vec<u8>),
    /// The read failed.
    Fault(IoFault),
}

/// The mathematical view of a `ReadReply`.
pub enum Answer {
    Data(Seq<u8>),
    Fault(IoFault),
}

impl View for ReadReply {
    type V = Answer;

    open spec fn view(&self) -> Answer {
        match self {
            ReadReply::Data(bytes) => Answer::Data(bytes@),
            ReadReply::Fault(fault) => Answer::Fault(*fault),
        }
    }
}

/// How a memory image answers a request. The image holds the addresses from
/// 0 up to its length. A request that stays inside is answered with the
/// bytes; one that reaches past the end fails as a short read does.
pub open spec fn image_answer(image: Seq<u8>, request: ReadRequest) -> Answer {
    if request.offset + request.len <= image.len() {
        Answer::Data(image.subrange(request.offset as int, request.offset + request.len))
    } else {
        Answer::Fault(IoFault::UnexpectedEof)
    }
}

/// Answers `request` from a memory image.
pub fn read_image(image: &[u8], request: ReadRequest) -> (reply: ReadReply)
    ensures
        reply@ == image_answer(image@, request),
{
    let size: usize = image.len();
    if request.offset > size as u64 || request.len > size as u64 - request.offset {
        ReadReply::Fault(IoFault::UnexpectedEof)
    } else {
        let from: usize = request.offset as usize;
        let to: usize = (request.offset + request.len) as usize;
        ReadReply::Data(slice_to_vec(slice_subrange(image, from, to)))
    }
}

} // verus!
