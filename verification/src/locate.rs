//! Finding the entry point in a window of memory.
//!
//! An entry point starts on a paragraph boundary, counted from the start of
//! the window. The 32-bit format is looked for first. Only where the window
//! was searched to its end, or the source ended, without meeting its anchor
//! is the 64-bit format looked for. Any other failure ends the search.
//!
//! `Locator` holds the search as a state. It names the bytes it needs next
//! and moves on when handed the outcome of reading them. `locate` runs a
//! `Locator` over a memory image.

use vstd::prelude::*;
use crate::layout::{
    decode_extended, decode_legacy, extended_anchor, extended_entry_point, legacy_anchor,
    legacy_entry_point, PARAGRAPH,
};
use crate::record::{EntryPointRecord, ExtendedEntryPoint, LegacyEntryPoint, SmbiosVersion};
use crate::source::{image_answer, read_image, Answer, IoFault, ReadReply, ReadRequest};
use crate::window::MemoryWindow;

verus! {

/// Why no entry point was handed out.
#[derive(Clone, Copy, Debug, PartialEq, Eq, Structural)]
pub enum ScanError {
    /// Neither format has an anchor in the window.
    NotFound,
    /// Reading the source failed.
    Io(IoFault),
    /// An anchor was met, but the record behind it fails its checks.
    Malformed,
}

/// The two formats of an entry point.
#[derive(Clone, Copy, Debug, PartialEq, Eq, Structural)]
pub enum Format {
    Legacy,
    Extended,
}

impl Format {
    /// The bytes that open a record of this format.
    pub open spec fn anchor(self) -> Seq<u8> {
        match self {
            Format::Legacy => legacy_anchor(),
            Format::Extended => extended_anchor(),
        }
    }

    /// The number of bytes of the anchor.
    pub open spec fn anchor_len(self) -> int {
        match self {
            Format::Legacy => 4,
            Format::Extended => 5,
        }
    }

    /// The number of bytes from the start of a record through the byte that
    /// holds its length.
    pub open spec fn head_len(self) -> int {
        self.anchor_len() + 2
    }

    /// The record in `raw`, where `raw` passes the checks of this format.
    pub open spec fn decode(self, raw: Seq<u8>) -> Option<EntryPointRecord> {
        match self {
            Format::Legacy => match legacy_entry_point(raw) {
                Some(entry) => Some(EntryPointRecord::Legacy(entry)),
                None => None,
            },
            Format::Extended => match extended_entry_point(raw) {
                Some(entry) => Some(EntryPointRecord::Extended(entry)),
                None => None,
            },
        }
    }

    fn anchor_length(self) -> (len: u64)
        ensures
            len == self.anchor_len(),
    {
        match self {
            Format::Legacy => 4,
            Format::Extended => 5,
        }
    }

    fn opens(self, bytes: &Vec<u8>) -> (same: bool)
        ensures
            same == (bytes@ == self.anchor()),
    {
        let same = match self {
            Format::Legacy => bytes.len() == 4 && bytes[0] == 0x5F && bytes[1] == 0x53
                && bytes[2] == 0x4D && bytes[3] == 0x5F,
            Format::Extended => bytes.len() == 5 && bytes[0] == 0x5F && bytes[1] == 0x53
                && bytes[2] == 0x4D && bytes[3] == 0x33 && bytes[4] == 0x5F,
        };
        assert(same == (bytes@ =~= self.anchor()));
        same
    }

    fn read_record(self, raw: Vec<u8>) -> (record: Option<EntryPointRecord>)
        ensures
            record == self.decode(raw@),
    {
        match self {
            Format::Legacy => match decode_legacy(raw) {
                Some(entry) => Some(EntryPointRecord::Legacy(entry)),
                None => None,
            },
            Format::Extended => match decode_extended(raw) {
                Some(entry) => Some(EntryPointRecord::Extended(entry)),
                None => None,
            },
        }
    }
}

/// How the search for one format ends on a memory image.
pub enum ScanEnd {
    /// A record that passes every check.
    Found(EntryPointRecord),
    /// An anchor with a record behind it that fails a check.
    Malformed,
    /// The window or the image ended before an anchor was met, or the image
    /// ended inside the record behind the anchor.
    Exhausted,
}

/// The end of the search once the anchor at `at` is known and the record's
/// length `len` was read: the record is read whole and decoded.
pub open spec fn scan_body(image: Seq<u8>, format: Format, at: int, len: int) -> ScanEnd {
    if at + len > image.len() {
        ScanEnd::Exhausted
    } else {
        match format.decode(image.subrange(at, at + len)) {
            Some(record) => ScanEnd::Found(record),
            None => ScanEnd::Malformed,
        }
    }
}

/// The end of the search once the anchor at `at` is known: the length byte
/// says how many bytes the record has.
pub open spec fn scan_record(image: Seq<u8>, format: Format, at: int) -> ScanEnd {
    if at + format.head_len() > image.len() {
        ScanEnd::Exhausted
    } else {
        scan_body(image, format, at, image[at + format.head_len() - 1] as int)
    }
}

/// The end of the search that goes from `at` in steps of a paragraph as long
/// as it stays at or below `end`. It stops at the first place that cannot be
/// read or that holds the anchor.
pub open spec fn scan_from(image: Seq<u8>, format: Format, at: int, end: int) -> ScanEnd
    decreases end - at,
{
    if at + format.anchor_len() > image.len() {
        ScanEnd::Exhausted
    } else if image.subrange(at, at + format.anchor_len()) == format.anchor() {
        scan_record(image, format, at)
    } else if at + PARAGRAPH <= end {
        scan_from(image, format, at + PARAGRAPH, end)
    } else {
        ScanEnd::Exhausted
    }
}

/// The end of the search for `format` over the whole window.
pub open spec fn scan_window(image: Seq<u8>, format: Format, window: MemoryWindow) -> ScanEnd {
    if window.start <= window.end {
        scan_from(image, format, window.start as int, window.end as int)
    } else {
        ScanEnd::Exhausted
    }
}

/// What the search for the 64-bit format makes of its end.
pub open spec fn conclude_extended(end: ScanEnd) -> Result<EntryPointRecord, ScanError> {
    match end {
        ScanEnd::Found(record) => Ok(record),
        ScanEnd::Malformed => Err(ScanError::Malformed),
        ScanEnd::Exhausted => Err(ScanError::NotFound),
    }
}

/// What the search for the 32-bit format makes of its end: where it was
/// exhausted, the 64-bit format is searched over the same window.
pub open spec fn conclude_legacy(image: Seq<u8>, window: MemoryWindow, end: ScanEnd) -> Result<
    EntryPointRecord,
    ScanError,
> {
    match end {
        ScanEnd::Found(record) => Ok(record),
        ScanEnd::Malformed => Err(ScanError::Malformed),
        ScanEnd::Exhausted => conclude_extended(scan_window(image, Format::Extended, window)),
    }
}

/// The entry point of a memory image.
pub open spec fn locate_spec(image: Seq<u8>, window: MemoryWindow) -> Result<
    EntryPointRecord,
    ScanError,
> {
    conclude_legacy(image, window, scan_window(image, Format::Legacy, window))
}

/// Which read of the record at the current place is due.
#[derive(Clone, Copy, Debug, PartialEq, Eq, Structural)]
pub enum Phase {
    /// The bytes where an anchor may stand.
    Anchor,
    /// The anchor was met: the bytes through the one that holds the length.
    Length,
    /// The length is known: the whole record.
    Body(u8),
}

/// A search that waits for bytes.
#[derive(Clone, Copy, Debug, PartialEq, Eq, Structural)]
pub struct Scan {
    pub window: MemoryWindow,
    pub format: Format,
    /// The place of the record that is looked at.
    pub at: u64,
    pub phase: Phase,
}

impl Scan {
    /// The bytes that the search waits for. Every read starts where the
    /// record starts.
    pub open spec fn request(self) -> ReadRequest {
        ReadRequest {
            offset: self.at,
            len: match self.phase {
                Phase::Anchor => self.format.anchor_len() as u64,
                Phase::Length => self.format.head_len() as u64,
                Phase::Body(len) => len as u64,
            },
        }
    }

    fn due(&self) -> (request: ReadRequest)
        ensures
            request == self.request(),
    {
        let len: u64 = match self.phase {
            Phase::Anchor => self.format.anchor_length(),
            Phase::Length => self.format.anchor_length() + 2,
            Phase::Body(len) => len as u64,
        };
        ReadRequest { offset: self.at, len }
    }
}

/// The state of a search for the entry point.
#[derive(Clone, Copy, Debug, PartialEq, Eq)]
pub enum Locator {
    /// The search waits for the bytes of `Scan::request`.
    Scanning(Scan),
    /// The search is over.
    Finished(Result<EntryPointRecord, ScanError>),
}

impl Locator {
    /// The state in which the search for `format` sets out. A window
    /// without addresses holds no anchor of either format.
    pub open spec fn begin(window: MemoryWindow, format: Format) -> Locator {
        if window.start <= window.end {
            Locator::Scanning(Scan { window, format, at: window.start, phase: Phase::Anchor })
        } else {
            Locator::Finished(Err(ScanError::NotFound))
        }
    }

    /// The state after a read of `scan` failed with `fault`. A source that
    /// ran out of bytes leaves the 64-bit format to be tried after the
    /// 32-bit one; every other fault ends the search.
    pub open spec fn after_fault(scan: Scan, fault: IoFault) -> Locator {
        if fault != IoFault::UnexpectedEof {
            Locator::Finished(Err(ScanError::Io(fault)))
        } else {
            match scan.format {
                Format::Legacy => Locator::begin(scan.window, Format::Extended),
                Format::Extended => Locator::Finished(Err(ScanError::NotFound)),
            }
        }
    }

    /// The state after the place of `scan` turned out to hold no anchor.
    pub open spec fn after_miss(scan: Scan) -> Locator {
        if scan.at + PARAGRAPH <= scan.window.end {
            Locator::Scanning(
                Scan { at: (scan.at + PARAGRAPH) as u64, phase: Phase::Anchor, ..scan },
            )
        } else {
            Locator::after_fault(scan, IoFault::UnexpectedEof)
        }
    }

    /// The state after `scan` was handed the bytes it waited for.
    pub open spec fn after_data(scan: Scan, bytes: Seq<u8>) -> Locator {
        match scan.phase {
            Phase::Anchor => if bytes == scan.format.anchor() {
                Locator::Scanning(Scan { phase: Phase::Length, ..scan })
            } else {
                Locator::after_miss(scan)
            },
            Phase::Length => Locator::Scanning(
                Scan { phase: Phase::Body(bytes[scan.format.head_len() - 1]), ..scan },
            ),
            Phase::Body(_) => match scan.format.decode(bytes) {
                Some(record) => Locator::Finished(Ok(record)),
                None => Locator::Finished(Err(ScanError::Malformed)),
            },
        }
    }

    /// The state that follows on `answer`. Bytes of another number than was
    /// asked for count as a source that ran out of bytes. A finished search
    /// stays as it is.
    pub open spec fn after(self, answer: Answer) -> Locator {
        match self {
            Locator::Finished(_) => self,
            Locator::Scanning(scan) => match answer {
                Answer::Fault(fault) => Locator::after_fault(scan, fault),
                Answer::Data(bytes) => if bytes.len() == scan.request().len {
                    Locator::after_data(scan, bytes)
                } else {
                    Locator::after_fault(scan, IoFault::UnexpectedEof)
                },
            },
        }
    }

    /// The bytes that the search waits for, if it is not over.
    pub open spec fn pending_spec(self) -> Option<ReadRequest> {
        match self {
            Locator::Scanning(scan) => Some(scan.request()),
            Locator::Finished(_) => None,
        }
    }

    /// The result of the search, once it is over.
    pub open spec fn outcome_spec(self) -> Option<Result<EntryPointRecord, ScanError>> {
        match self {
            Locator::Scanning(_) => None,
            Locator::Finished(result) => Some(result),
        }
    }

    /// Where the search ends when every pending request is answered from
    /// `image`.
    pub open spec fn end_on(self, image: Seq<u8>) -> Result<EntryPointRecord, ScanError> {
        match self {
            Locator::Finished(result) => result,
            Locator::Scanning(scan) => {
                let end = match scan.phase {
                    Phase::Anchor => scan_from(
                        image,
                        scan.format,
                        scan.at as int,
                        scan.window.end as int,
                    ),
                    Phase::Length => scan_record(image, scan.format, scan.at as int),
                    Phase::Body(len) => scan_body(image, scan.format, scan.at as int, len as int),
                };
                match scan.format {
                    Format::Legacy => conclude_legacy(image, scan.window, end),
                    Format::Extended => conclude_extended(end),
                }
            },
        }
    }

    /// A number that falls with every request that is answered from a
    /// memory image. It shows that a search over an image comes to an end.
    pub open spec fn steps_left(self) -> nat {
        match self {
            Locator::Finished(_) => 0,
            Locator::Scanning(scan) => {
                let span: nat = if scan.at <= scan.window.end {
                    (scan.window.end - scan.at) as nat
                } else {
                    0
                };
                let due: nat = match scan.phase {
                    Phase::Anchor => 3,
                    Phase::Length => 2,
                    Phase::Body(_) => 1,
                };
                let later: nat = match scan.format {
                    Format::Legacy => 0x1_0000_0000_0000_0000 + 3,
                    Format::Extended => 0,
                };
                later + span + due
            },
        }
    }

    /// A search for the entry point in `window`, before its first request.
    pub fn start(window: MemoryWindow) -> (locator: Locator)
        ensures
            locator == Locator::begin(window, Format::Legacy),
    {
        Locator::enter(window, Format::Legacy)
    }

    fn enter(window: MemoryWindow, format: Format) -> (locator: Locator)
        ensures
            locator == Locator::begin(window, format),
    {
        if window.start <= window.end {
            Locator::Scanning(Scan { window, format, at: window.start, phase: Phase::Anchor })
        } else {
            Locator::Finished(Err(ScanError::NotFound))
        }
    }

    fn fail(scan: Scan, fault: IoFault) -> (locator: Locator)
        ensures
            locator == Locator::after_fault(scan, fault),
    {
        match fault {
            IoFault::UnexpectedEof => match scan.format {
                Format::Legacy => Locator::enter(scan.window, Format::Extended),
                Format::Extended => Locator::Finished(Err(ScanError::NotFound)),
            },
            _ => Locator::Finished(Err(ScanError::Io(fault))),
        }
    }

    fn miss(scan: Scan) -> (locator: Locator)
        ensures
            locator == Locator::after_miss(scan),
    {
        if scan.at <= scan.window.end && scan.window.end - scan.at >= PARAGRAPH {
            Locator::Scanning(
                Scan {
                    window: scan.window,
                    format: scan.format,
                    at: scan.at + PARAGRAPH,
                    phase: Phase::Anchor,
                },
            )
        } else {
            Locator::fail(scan, IoFault::UnexpectedEof)
        }
    }

    /// The bytes to read next, or `None` once the search is over.
    pub fn pending(&self) -> (request: Option<ReadRequest>)
        ensures
            request == self.pending_spec(),
    {
        match self {
            Locator::Finished(_) => None,
            Locator::Scanning(scan) => Some(scan.due()),
        }
    }

    /// The result of the search, or `None` while it waits for bytes.
    pub fn outcome(&self) -> (result: Option<Result<EntryPointRecord, ScanError>>)
        ensures
            result == self.outcome_spec(),
    {
        match self {
            Locator::Scanning(_) => None,
            Locator::Finished(result) => Some(*result),
        }
    }

    /// Moves the search on by the outcome of reading the pending request.
    ///
    /// A fault other than a source that ran out of bytes ends the search
    /// with that fault, whichever format is searched: the 64-bit format is
    /// never tried in place of a failed read.
    pub fn advance(self, reply: ReadReply) -> (next: Locator)
        ensures
            next == self.after(reply@),
            self is Finished ==> next == self,
            self is Scanning && reply@ is Fault && reply@->Fault_0 != IoFault::UnexpectedEof
                ==> next == Locator::Finished(Err(ScanError::Io(reply@->Fault_0))),
    {
        match self {
            Locator::Finished(_) => self,
            Locator::Scanning(scan) => match reply {
                ReadReply::Fault(fault) => Locator::fail(scan, fault),
                ReadReply::Data(bytes) => match scan.phase {
                    Phase::Anchor => {
                        if bytes.len() as u64 != scan.format.anchor_length() {
                            Locator::fail(scan, IoFault::UnexpectedEof)
                        } else if scan.format.opens(&bytes) {
                            Locator::Scanning(
                                Scan {
                                    window: scan.window,
                                    format: scan.format,
                                    at: scan.at,
                                    phase: Phase::Length,
                                },
                            )
                        } else {
                            Locator::miss(scan)
                        }
                    },
                    Phase::Length => {
                        let head: u64 = scan.format.anchor_length() + 2;
                        if bytes.len() as u64 != head {
                            Locator::fail(scan, IoFault::UnexpectedEof)
                        } else {
                            let len: u8 = bytes[(head - 1) as usize];
                            Locator::Scanning(
                                Scan {
                                    window: scan.window,
                                    format: scan.format,
                                    at: scan.at,
                                    phase: Phase::Body(len),
                                },
                            )
                        }
                    },
                    Phase::Body(len) => {
                        if bytes.len() as u64 != len as u64 {
                            Locator::fail(scan, IoFault::UnexpectedEof)
                        } else {
                            match scan.format.read_record(bytes) {
                                Some(record) => Locator::Finished(Ok(record)),
                                None => Locator::Finished(Err(ScanError::Malformed)),
                            }
                        }
                    },
                },
            },
        }
    }
}

/// Answering the pending request from a memory image brings the search one
/// step nearer to its end, and leaves the end the same.
pub proof fn lemma_image_step(locator: Locator, image: Seq<u8>)
    requires
        locator is Scanning,
    ensures
        locator.after(image_answer(image, locator->Scanning_0.request())).end_on(image)
            == locator.end_on(image),
        locator.after(image_answer(image, locator->Scanning_0.request())).steps_left()
            < locator.steps_left(),
{
    let scan = locator->Scanning_0;
    let answer = image_answer(image, scan.request());
    match answer {
        Answer::Data(bytes) => {
            assert(bytes.len() == scan.request().len);
        },
        Answer::Fault(fault) => {},
    }
}

/// Searches a memory image for the entry point.
pub fn locate(image: &[u8], window: MemoryWindow) -> (result: Result<EntryPointRecord, ScanError>)
    ensures
        result == locate_spec(image@, window),
{
    let mut locator = Locator::start(window);
    loop
        invariant
            locator.end_on(image@) == locate_spec(image@, window),
        decreases locator.steps_left(),
    {
        match locator {
            Locator::Finished(result) => {
                return result;
            },
            Locator::Scanning(scan) => {
                let reply = read_image(image, scan.due());
                proof {
                    lemma_image_step(locator, image@);
                }
                locator = locator.advance(reply);
            },
        }
    }
}

/// Whether a record may start at `at`: `at` lies in the window, a whole
/// number of paragraphs behind its start.
pub open spec fn is_paragraph(window: MemoryWindow, at: int) -> bool {
    window.start <= at <= window.end && (at - window.start) % (PARAGRAPH as int) == 0
}

/// Whether the image holds the anchor of `format` at `at`.
pub open spec fn anchor_at(image: Seq<u8>, format: Format, at: int) -> bool {
    at + format.anchor_len() <= image.len() && image.subrange(at, at + format.anchor_len())
        == format.anchor()
}

/// Whether `at` is the first place of the window at which a record may start
/// and the image holds the anchor of `format`.
pub open spec fn first_anchor_at(
    image: Seq<u8>,
    format: Format,
    window: MemoryWindow,
    at: int,
) -> bool {
    &&& is_paragraph(window, at)
    &&& anchor_at(image, format, at)
    &&& forall|before: int|
        is_paragraph(window, before) && before < at ==> !anchor_at(image, format, before)
}

/// Whether the image holds the anchor of `format` at no place of the window
/// at which a record may start.
pub open spec fn no_anchor(image: Seq<u8>, format: Format, window: MemoryWindow) -> bool {
    forall|at: int| is_paragraph(window, at) ==> !anchor_at(image, format, at)
}

/// The length of the record that starts at `at`, as its length byte gives it.
pub open spec fn record_len(image: Seq<u8>, format: Format, at: int) -> int {
    image[at + format.head_len() - 1] as int
}

/// The bytes of the record that starts at `at`.
pub open spec fn record_at(image: Seq<u8>, format: Format, at: int) -> Seq<u8> {
    image.subrange(at, at + record_len(image, format, at))
}

proof fn lemma_scan_reaches_anchor(
    image: Seq<u8>,
    format: Format,
    window: MemoryWindow,
    from: int,
    at: int,
)
    requires
        first_anchor_at(image, format, window, at),
        is_paragraph(window, from),
        from <= at,
    ensures
        scan_from(image, format, from, window.end as int) == scan_record(image, format, at),
    decreases at - from,
{
    if from < at {
        assert(!anchor_at(image, format, from));
        assert(is_paragraph(window, from + PARAGRAPH));
        lemma_scan_reaches_anchor(image, format, window, from + PARAGRAPH, at);
    }
}

proof fn lemma_scan_passes_window(image: Seq<u8>, format: Format, window: MemoryWindow, from: int)
    requires
        no_anchor(image, format, window),
        is_paragraph(window, from),
    ensures
        scan_from(image, format, from, window.end as int) == ScanEnd::Exhausted,
    decreases window.end - from,
{
    assert(!anchor_at(image, format, from));
    if from + format.anchor_len() <= image.len() && from + PARAGRAPH <= window.end {
        assert(is_paragraph(window, from + PARAGRAPH));
        lemma_scan_passes_window(image, format, window, from + PARAGRAPH);
    }
}

/// The search for one format ends behind the first anchor of that format:
/// what lies before it in the window plays no part.
pub proof fn lemma_scan_stops_at_first_anchor(
    image: Seq<u8>,
    format: Format,
    window: MemoryWindow,
    at: int,
)
    requires
        first_anchor_at(image, format, window, at),
    ensures
        scan_window(image, format, window) == scan_record(image, format, at),
{
    assert(is_paragraph(window, window.start as int));
    lemma_scan_reaches_anchor(image, format, window, window.start as int, at);
}

/// The search for a format whose anchor stands nowhere in the window is
/// exhausted.
pub proof fn lemma_scan_without_anchor(image: Seq<u8>, format: Format, window: MemoryWindow)
    requires
        no_anchor(image, format, window),
    ensures
        scan_window(image, format, window) == ScanEnd::Exhausted,
{
    if window.start <= window.end {
        assert(is_paragraph(window, window.start as int));
        lemma_scan_passes_window(image, format, window, window.start as int);
    }
}

/// Where the first 32-bit anchor of the window opens a well-formed record
/// that the image holds in full, that record is the entry point. Its major
/// and minor version are the bytes at offsets 6 and 7 of the record, and the
/// revision of its version is 0.
pub proof fn lemma_legacy_record_is_located(
    image: Seq<u8>,
    window: MemoryWindow,
    at: int,
    entry: LegacyEntryPoint,
)
    requires
        first_anchor_at(image, Format::Legacy, window, at),
        at + record_len(image, Format::Legacy, at) <= image.len(),
        legacy_entry_point(record_at(image, Format::Legacy, at)) == Some(entry),
    ensures
        locate_spec(image, window) == Ok::<EntryPointRecord, ScanError>(
            EntryPointRecord::Legacy(entry),
        ),
        entry.major == image[at + 6],
        entry.minor == image[at + 7],
        EntryPointRecord::Legacy(entry).version_spec() == (SmbiosVersion {
            major: image[at + 6],
            minor: image[at + 7],
            revision: 0,
        }),
{
    lemma_scan_stops_at_first_anchor(image, Format::Legacy, window, at);
    let raw = record_at(image, Format::Legacy, at);
    assert(raw[6] == image[at + 6] && raw[7] == image[at + 7]);
}

/// Where the window holds no 32-bit anchor and its first 64-bit anchor opens
/// a well-formed record that the image holds in full, that record is the
/// entry point. Its major version, minor version and revision are the bytes
/// at offsets 7, 8 and 9 of the record.
pub proof fn lemma_extended_record_is_located(
    image: Seq<u8>,
    window: MemoryWindow,
    at: int,
    entry: ExtendedEntryPoint,
)
    requires
        no_anchor(image, Format::Legacy, window),
        first_anchor_at(image, Format::Extended, window, at),
        at + record_len(image, Format::Extended, at) <= image.len(),
        extended_entry_point(record_at(image, Format::Extended, at)) == Some(entry),
    ensures
        locate_spec(image, window) == Ok::<EntryPointRecord, ScanError>(
            EntryPointRecord::Extended(entry),
        ),
        entry.major == image[at + 7],
        entry.minor == image[at + 8],
        entry.docrev == image[at + 9],
        EntryPointRecord::Extended(entry).version_spec() == (SmbiosVersion {
            major: image[at + 7],
            minor: image[at + 8],
            revision: image[at + 9],
        }),
{
    lemma_scan_without_anchor(image, Format::Legacy, window);
    lemma_scan_stops_at_first_anchor(image, Format::Extended, window, at);
    let raw = record_at(image, Format::Extended, at);
    assert(raw[7] == image[at + 7] && raw[8] == image[at + 8] && raw[9] == image[at + 9]);
}

/// The format of a record.
pub open spec fn format_of(record: EntryPointRecord) -> Format {
    match record {
        EntryPointRecord::Legacy(_) => Format::Legacy,
        EntryPointRecord::Extended(_) => Format::Extended,
    }
}

/// Whether the image holds, at `at`, the anchor of the format of `record`
/// and behind it the whole of a record that passes the checks of that format
/// and has the fields of `record`.
pub open spec fn record_stands_at(image: Seq<u8>, record: EntryPointRecord, at: int) -> bool {
    &&& anchor_at(image, format_of(record), at)
    &&& at + format_of(record).head_len() <= image.len()
    &&& at + record_len(image, format_of(record), at) <= image.len()
    &&& format_of(record).decode(record_at(image, format_of(record), at)) == Some(record)
}

proof fn lemma_found_record_stands(
    image: Seq<u8>,
    format: Format,
    window: MemoryWindow,
    from: int,
    record: EntryPointRecord,
)
    requires
        is_paragraph(window, from),
        scan_from(image, format, from, window.end as int) == ScanEnd::Found(record),
    ensures
        format_of(record) == format,
        exists|at: int| is_paragraph(window, at) && record_stands_at(image, record, at),
    decreases window.end - from,
{
    if anchor_at(image, format, from) {
        assert(record_stands_at(image, record, from));
    } else {
        assert(is_paragraph(window, from + PARAGRAPH));
        lemma_found_record_stands(image, format, window, from + PARAGRAPH, record);
    }
}

/// Nothing is located that the image does not hold: a located record stands
/// in the window, on a paragraph boundary counted from the start of the
/// window, behind the anchor of its format, and passes the checks of its
/// format.
pub proof fn lemma_located_record_stands_in_window(
    image: Seq<u8>,
    window: MemoryWindow,
    record: EntryPointRecord,
)
    requires
        locate_spec(image, window) == Ok::<EntryPointRecord, ScanError>(record),
    ensures
        exists|at: int| is_paragraph(window, at) && record_stands_at(image, record, at),
{
    assert(window.start <= window.end);
    assert(is_paragraph(window, window.start as int));
    match scan_window(image, Format::Legacy, window) {
        ScanEnd::Found(found) => {
            lemma_found_record_stands(image, Format::Legacy, window, window.start as int, record);
        },
        _ => {
            lemma_found_record_stands(
                image,
                Format::Extended,
                window,
                window.start as int,
                record,
            );
        },
    }
}

} // verus!
