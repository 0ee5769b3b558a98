//! The decisions of one download, apart from the input and output it needs.
//!
//! A download is driven from outside: the driver performs one operation at
//! a time (send the request, create the file, read, write) and reports what
//! came of it as an event. `Phase::step` answers each event with what to
//! show of the progress and which operation to perform next. Nothing is
//! retried, and a failure leaves the file as far as it was written.

use vstd::prelude::*;
use crate::text::{parse_u64, read_u64};

verus! {

/// Why a download stopped early. Each kind holds the words of the failure.
#[derive(Debug)]
pub enum DownloadError {
    /// The request failed, or the server refused it.
    Request(String),
    /// The output file could not be created.
    Create(String),
    /// The body could not be read on.
    Read(String),
    /// The output file could not be written.
    Write(String),
    /// The body could not be copied to the output file in one pass.
    Copy(String),
    /// An event was reported that the download was not waiting for.
    OutOfTurn,
}

/// Where a download stands.
#[derive(Debug)]
pub enum Phase {
    /// Nothing has been asked for yet.
    Idle,
    /// The request is out; the headers of the answer are awaited.
    Requesting,
    /// The output file is being created. `declared` is the length of the
    /// body, where the headers declare one that can be read.
    Creating { declared: Option<u64> },
    /// The next piece of a body of declared length is awaited; `position`
    /// bytes of it have been written to the file.
    Reading { length: u64, position: u64 },
    /// A piece of `size` bytes is being written to the file, which holds
    /// `position` bytes so far.
    Writing { length: u64, position: u64, size: usize },
    /// A body of undeclared length is being copied to the file in one pass.
    Copying,
    /// The download is over.
    Done,
}

/// What the driver reports.
#[derive(Debug)]
pub enum DownloadEvent {
    /// The download is to begin.
    Start,
    /// The headers of the answer arrived, with this value of the header
    /// that declares the length of the body, where there is such a header.
    Answered { content_length: Option<Vec<u8>> },
    /// The output file was created.
    Created,
    /// A piece of `size` bytes was read from the body; a size of zero means
    /// that the body is at its end.
    Read { size: usize },
    /// The piece was written to the file in full.
    Written,
    /// The whole body was copied to the file.
    Copied,
    /// The operation last asked for failed, in these words.
    Failed { words: String },
}

/// What to show of the progress before the next operation.
#[derive(Debug)]
pub enum Indicator {
    /// Nothing new.
    Unchanged,
    /// Open a progress bar that is full at `length` bytes.
    Open { length: u64 },
    /// Only announce the download: its length is not known.
    Announce,
    /// Move the progress bar forward by `by` bytes.
    Advance { by: u64 },
    /// Close the progress bar.
    Finish,
}

/// The operation the driver is to perform next.
#[derive(Debug)]
pub enum Operation {
    /// Send the request for the asset.
    Request,
    /// Create the output file, emptying it if it exists.
    Create,
    /// Read the next piece of the body.
    Read,
    /// Write the first `size` bytes of the piece just read to the file.
    Write { size: usize },
    /// Copy the whole body to the file.
    Copy,
    /// Stop: the download is over, with this outcome.
    Stop { outcome: Result<(), DownloadError> },
}

/// The answer to one event.
#[derive(Debug)]
pub struct Step {
    pub indicator: Indicator,
    pub operation: Operation,
}

/// The length of the body that a header value declares, where there is a
/// header and its value is a decimal number.
pub open spec fn declared_length(value: Option<Seq<u8>>) -> Option<u64> {
    match value {
        Some(text) => parse_u64(text),
        None => None,
    }
}

/// `position` moved forward by `size`, stopping at the largest position
/// there is.
pub open spec fn advanced(position: u64, size: usize) -> u64 {
    if position + size <= u64::MAX {
        (position + size) as u64
    } else {
        u64::MAX
    }
}

/// The step that only stops the download with `error`.
pub open spec fn stop_with(error: DownloadError) -> (Phase, Step) {
    (Phase::Done, Step { indicator: Indicator::Unchanged, operation: Operation::Stop { outcome: Err(error) } })
}

/// The phase that follows `phase` on `event`, and the answer to the event.
///
/// With a declared length the body is moved piece by piece, and the
/// progress advances by each piece once it is written. Without one the
/// body is copied in one pass behind an announcement. The failure of an
/// operation stops the download with the error of that operation, and so
/// does an event that `phase` is not waiting for.
pub open spec fn after(phase: Phase, event: DownloadEvent) -> (Phase, Step) {
    match (phase, event) {
        (Phase::Idle, DownloadEvent::Start) => (
            Phase::Requesting,
            Step { indicator: Indicator::Unchanged, operation: Operation::Request },
        ),
        (Phase::Requesting, DownloadEvent::Answered { content_length }) => (
            Phase::Creating {
                declared: declared_length(
                    match content_length {
                        Some(value) => Some(value@),
                        None => None,
                    },
                ),
            },
            Step { indicator: Indicator::Unchanged, operation: Operation::Create },
        ),
        (Phase::Requesting, DownloadEvent::Failed { words }) => stop_with(DownloadError::Request(words)),
        (Phase::Creating { declared: Some(length) }, DownloadEvent::Created) => (
            Phase::Reading { length, position: 0 },
            Step { indicator: Indicator::Open { length }, operation: Operation::Read },
        ),
        (Phase::Creating { declared: None }, DownloadEvent::Created) => (
            Phase::Copying,
            Step { indicator: Indicator::Announce, operation: Operation::Copy },
        ),
        (Phase::Creating { .. }, DownloadEvent::Failed { words }) => stop_with(DownloadError::Create(words)),
        (Phase::Reading { length, position }, DownloadEvent::Read { size }) => if size == 0 {
            (
                Phase::Done,
                Step { indicator: Indicator::Finish, operation: Operation::Stop { outcome: Ok(()) } },
            )
        } else {
            (
                Phase::Writing { length, position, size },
                Step { indicator: Indicator::Unchanged, operation: Operation::Write { size } },
            )
        },
        (Phase::Reading { .. }, DownloadEvent::Failed { words }) => stop_with(DownloadError::Read(words)),
        (Phase::Writing { length, position, size }, DownloadEvent::Written) => (
            Phase::Reading { length, position: advanced(position, size) },
            Step { indicator: Indicator::Advance { by: size as u64 }, operation: Operation::Read },
        ),
        (Phase::Writing { .. }, DownloadEvent::Failed { words }) => stop_with(DownloadError::Write(words)),
        (Phase::Copying, DownloadEvent::Copied) => (
            Phase::Done,
            Step { indicator: Indicator::Unchanged, operation: Operation::Stop { outcome: Ok(()) } },
        ),
        (Phase::Copying, DownloadEvent::Failed { words }) => stop_with(DownloadError::Copy(words)),
        _ => stop_with(DownloadError::OutOfTurn),
    }
}

/// The length of the body that a header value declares.
pub fn content_length(value: Option<&[u8]>) -> (length: Option<u64>)
    ensures
        length == declared_length(
            match value {
                Some(text) => Some(text@),
                None => None,
            },
        ),
{
    match value {
        Some(text) => read_u64(text),
        None => None,
    }
}

/// The step that only stops the download with `error`.
fn stop(error: DownloadError) -> (next: (Phase, Step))
    ensures
        next == stop_with(error),
{
    (Phase::Done, Step { indicator: Indicator::Unchanged, operation: Operation::Stop { outcome: Err(error) } })
}

impl Phase {
    /// The phase a download begins in.
    pub fn new() -> (phase: Phase)
        ensures
            phase == Phase::Idle,
    {
        Phase::Idle
    }

    /// The number of bytes written to the file so far, as far as they are
    /// counted: they are while a body of declared length is moved.
    pub fn position(&self) -> (position: Option<u64>)
        ensures
            position == match *self {
                Phase::Reading { position, .. } => Some(position),
                Phase::Writing { position, .. } => Some(position),
                _ => None,
            },
    {
        match self {
            Phase::Reading { position, .. } => Some(*position),
            Phase::Writing { position, .. } => Some(*position),
            _ => None,
        }
    }

    /// Answers `event`: the phase that follows, what to show and what to do.
    pub fn step(self, event: DownloadEvent) -> (next: (Phase, Step))
        ensures
            next == after(self, event),
    {
        match (self, event) {
            (Phase::Idle, DownloadEvent::Start) => (
                Phase::Requesting,
                Step { indicator: Indicator::Unchanged, operation: Operation::Request },
            ),
            (Phase::Requesting, DownloadEvent::Answered { content_length: header }) => {
                let declared = match &header {
                    Some(value) => content_length(Some(value.as_slice())),
                    None => None,
                };
                (Phase::Creating { declared }, Step { indicator: Indicator::Unchanged, operation: Operation::Create })
            },
            (Phase::Requesting, DownloadEvent::Failed { words }) => stop(DownloadError::Request(words)),
            (Phase::Creating { declared: Some(length) }, DownloadEvent::Created) => (
                Phase::Reading { length, position: 0 },
                Step { indicator: Indicator::Open { length }, operation: Operation::Read },
            ),
            (Phase::Creating { declared: None }, DownloadEvent::Created) => (
                Phase::Copying,
                Step { indicator: Indicator::Announce, operation: Operation::Copy },
            ),
            (Phase::Creating { .. }, DownloadEvent::Failed { words }) => stop(DownloadError::Create(words)),
            (Phase::Reading { length, position }, DownloadEvent::Read { size }) => {
                if size == 0 {
                    (
                        Phase::Done,
                        Step { indicator: Indicator::Finish, operation: Operation::Stop { outcome: Ok(()) } },
                    )
                } else {
                    (
                        Phase::Writing { length, position, size },
                        Step { indicator: Indicator::Unchanged, operation: Operation::Write { size } },
                    )
                }
            },
            (Phase::Reading { .. }, DownloadEvent::Failed { words }) => stop(DownloadError::Read(words)),
            (Phase::Writing { length, position, size }, DownloadEvent::Written) => {
                let by = size as u64;
                let position = if by > u64::MAX - position {
                    u64::MAX
                } else {
                    position + by
                };
                (
                    Phase::Reading { length, position },
                    Step { indicator: Indicator::Advance { by }, operation: Operation::Read },
                )
            },
            (Phase::Writing { .. }, DownloadEvent::Failed { words }) => stop(DownloadError::Write(words)),
            (Phase::Copying, DownloadEvent::Copied) => (
                Phase::Done,
                Step { indicator: Indicator::Unchanged, operation: Operation::Stop { outcome: Ok(()) } },
            ),
            (Phase::Copying, DownloadEvent::Failed { words }) => stop(DownloadError::Copy(words)),
            _ => stop(DownloadError::OutOfTurn),
        }
    }
}

/// The bytes in `pieces`, all together.
pub open spec fn total_size(pieces: Seq<usize>) -> nat
    decreases pieces.len(),
{
    if pieces.len() == 0 {
        0
    } else {
        total_size(pieces.drop_last()) + pieces.last() as nat
    }
}

/// The phase that follows `phase` once each of `pieces` was read and then
/// written, one after the other.
pub open spec fn after_pieces(phase: Phase, pieces: Seq<usize>) -> Phase
    decreases pieces.len(),
{
    if pieces.len() == 0 {
        phase
    } else {
        let before = after_pieces(phase, pieces.drop_last());
        let writing = after(before, DownloadEvent::Read { size: pieces.last() }).0;
        after(writing, DownloadEvent::Written).0
    }
}

/// No prefix of `pieces` holds more bytes than all of them.
pub proof fn lemma_total_size_grows(pieces: Seq<usize>, k: int)
    requires
        0 <= k <= pieces.len(),
    ensures
        total_size(pieces.take(k)) <= total_size(pieces),
    decreases pieces.len(),
{
    if k == pieces.len() {
        assert(pieces.take(k) =~= pieces);
    } else {
        assert(pieces.drop_last().take(k) =~= pieces.take(k));
        lemma_total_size_grows(pieces.drop_last(), k);
    }
}

/// While a body of declared length is moved, the position is the number of
/// bytes written so far: after any number of non-empty pieces it is their
/// total size (as far as positions go).
pub proof fn lemma_position_counts_bytes(length: u64, pieces: Seq<usize>)
    requires
        forall|i: int| 0 <= i < pieces.len() ==> pieces[i] > 0,
    ensures
        after_pieces(Phase::Reading { length, position: 0 }, pieces) == (Phase::Reading {
            length,
            position: if total_size(pieces) <= u64::MAX {
                total_size(pieces) as u64
            } else {
                u64::MAX
            },
        }),
    decreases pieces.len(),
{
    if pieces.len() > 0 {
        lemma_position_counts_bytes(length, pieces.drop_last());
    }
}

/// Where the pieces of a body add up to no more than its declared length,
/// the position never passes that length: after each piece it is the size
/// of the pieces so far, which is at most the length.
pub proof fn lemma_position_within_length(length: u64, pieces: Seq<usize>, k: int)
    requires
        forall|i: int| 0 <= i < pieces.len() ==> pieces[i] > 0,
        total_size(pieces) <= length,
        0 <= k <= pieces.len(),
    ensures
        total_size(pieces.take(k)) <= length,
        after_pieces(Phase::Reading { length, position: 0 }, pieces.take(k)) == (Phase::Reading {
            length,
            position: total_size(pieces.take(k)) as u64,
        }),
{
    lemma_total_size_grows(pieces, k);
    lemma_position_counts_bytes(length, pieces.take(k));
}

/// The name the client gives itself when it asks for an asset.
pub fn user_agent() -> (agent: &'static str)
    ensures
        agent@ == "ureq 3.0.4"@,
{
    "ureq 3.0.4"
}

/// The kind of content that is asked for: bytes as they are.
pub fn accept() -> (kind: &'static str)
    ensures
        kind@ == "application/octet-stream"@,
{
    "application/octet-stream"
}

/// The announcement of a download whose length is not known.
pub fn announcement(display: &str) -> (text: String)
    ensures
        text@ == "will download: "@ + display@,
{
    String::from_str("will download: ").concat(display)
}

/// The largest piece that is read from a body at once, in bytes.
pub const PIECE_SIZE: usize = 4096;

} // verus!
