//! File-over-EtherCAT (FoE) write upload: open a write-mode file on the
//! device, stream its contents in bounded chunks in file order, then close
//! the handle. The read-write exchanges themselves run over the
//! device-scope connection in the surrounding application, which follows
//! the directives issued here and feeds every outcome back in.
//!
//! There is no retry layer at this level: any transport fault aborts the
//! sequence immediately, and the server-side handle is then deliberately
//! left alone — no speculative close is attempted on abort. That the handle
//! may leak on an aborted upload is an operational limitation of the
//! protocol as used, not something patched here.
use vstd::prelude::*;

use crate::errors::{EcError, TransportFault};

verus! {

/// FoE sub-protocol group of the open-write exchange; its offset is 0 and
/// its write payload is the raw file name.
pub const FOE_OPEN_WRITE_GROUP: u32 = 0xF402;

/// FoE sub-protocol group of a chunk write; its offset is the file handle.
pub const FOE_WRITE_GROUP: u32 = 0xF405;

/// FoE sub-protocol group of the close exchange; its offset is the file
/// handle and its write payload is empty.
pub const FOE_CLOSE_GROUP: u32 = 0xF403;

/// Read-buffer capacity, in bytes, of every FoE exchange.
pub const FOE_READ_LEN: usize = 199;

/// Negotiated maximum number of bytes in one FoE chunk write.
pub const MAX_CHUNK_LEN: usize = 16384;

/// Where an upload stands between two transport round trips.
#[derive(Debug, Clone, Copy, PartialEq, Eq, Structural)]
pub enum FoePhase {
    /// Nothing done yet: the open-write exchange must be issued.
    Opening,
    /// The file is open under `handle`; the first `sent` bytes of the data
    /// are acknowledged and the next chunk starts there.
    Writing { handle: u32, sent: usize },
    /// All data is acknowledged; the close exchange must be issued.
    Closing { handle: u32 },
    /// The upload completed: the handle was closed and is invalid now.
    Finished,
    /// The upload aborted: a transport fault or an invalid handle ended the
    /// sequence, and nothing further is directed.
    Failed,
}

/// The next transport round trip an upload asks for.
pub enum FoeDirective {
    /// Issue the open-write exchange with this file name as write payload.
    OpenWrite(Vec<u8>),
    /// Issue a chunk-write exchange against this handle with this payload.
    WriteChunk(u32, Vec<u8>),
    /// Issue the close exchange against this handle.
    CloseHandle(u32),
    /// The upload is over; no further round trip.
    Stop,
}

/// The file handle carried in the first 4 bytes, little endian, of the open
/// response.
pub open spec fn spec_handle(bytes: Seq<u8>) -> u32
    recommends
        bytes.len() >= 4,
{
    (bytes[0] + bytes[1] * 0x100 + bytes[2] * 0x10000 + bytes[3] * 0x1000000) as u32
}

/// Where the chunk that starts at `sent` ends: one full bound further, or
/// at the end of the data, whichever comes first.
pub open spec fn spec_chunk_end(len: int, sent: int) -> int {
    if sent + MAX_CHUNK_LEN <= len {
        sent + MAX_CHUNK_LEN
    } else {
        len
    }
}

/// What the open exchange makes of the raw outcome of its round trip: the
/// decoded nonzero handle, or the error that aborts the upload. A response
/// shorter than a handle is a transport fault; the handle zero is invalid
/// and yields `NoHandleFault`; a fault of the transport itself is forwarded
/// unchanged.
pub open spec fn spec_open_outcome(resp: Result<Vec<u8>, TransportFault>) -> Result<u32, EcError> {
    match resp {
        Ok(bytes) => if bytes@.len() < 4 {
            Err(EcError::Transport(TransportFault::ShortRead))
        } else if spec_handle(bytes@) == 0 {
            Err(EcError::NoHandleFault)
        } else {
            Ok(spec_handle(bytes@))
        },
        Err(tf) => Err(EcError::Transport(tf)),
    }
}

/// The phase an upload of `data_len` bytes moves to on the open outcome: a
/// file with no data goes straight to the close, any other file starts
/// writing at byte 0, and every error fails the upload.
pub open spec fn spec_phase_after_open(
    data_len: int,
    resp: Result<Vec<u8>, TransportFault>,
) -> FoePhase {
    match spec_open_outcome(resp) {
        Ok(h) => if data_len == 0 {
            FoePhase::Closing { handle: h }
        } else {
            FoePhase::Writing { handle: h, sent: 0 }
        },
        Err(_) => FoePhase::Failed,
    }
}

/// One upload session: the file name, the file's bytes, and where the fixed
/// open → write×N → close sequence stands. The session owns its handle
/// exclusively: it is created by the open, consumed by the ordered chunk
/// writes, and destroyed by the one close.
#[derive(Debug)]
pub struct FoeUpload {
    pub file_name: Vec<u8>,
    pub data: Vec<u8>,
    pub phase: FoePhase,
}

impl FoeUpload {
    /// Well-formedness: while writing, the position is strictly inside the
    /// data (a finished stream closes instead), and a held handle is never
    /// the invalid zero.
    pub open spec fn wf(self) -> bool {
        &&& (self.phase matches FoePhase::Writing { handle, sent } ==> sent < self.data@.len()
            && handle != 0)
        &&& (self.phase matches FoePhase::Closing { handle } ==> handle != 0)
    }

    /// A fresh upload of `data` under `file_name` starts at the open
    /// exchange.
    pub fn new(file_name: Vec<u8>, data: Vec<u8>) -> (r: FoeUpload)
        ensures
            r.file_name == file_name,
            r.data == data,
            r.phase == FoePhase::Opening,
            r.wf(),
    {
        FoeUpload { file_name, data, phase: FoePhase::Opening }
    }

    /// The next round trip this upload asks for. Each directed chunk is
    /// exactly the data from the acknowledged position to the chunk end:
    /// the stream is a sequential append in file order, never out of order.
    pub fn next_directive(&self) -> (d: FoeDirective)
        requires
            self.wf(),
        ensures
            self.phase is Opening ==> (d matches FoeDirective::OpenWrite(n) && n@
                == self.file_name@),
            self.phase matches FoePhase::Writing { handle, sent } ==> (d
                matches FoeDirective::WriteChunk(h, c) && h == handle && c@
                == self.data@.subrange(sent as int, spec_chunk_end(self.data@.len() as int, sent as int))),
            self.phase matches FoePhase::Closing { handle } ==> (d
                matches FoeDirective::CloseHandle(h) && h == handle),
            self.phase is Finished || self.phase is Failed ==> d is Stop,
    {
        match self.phase {
            FoePhase::Opening => FoeDirective::OpenWrite(self.file_name.clone()),
            FoePhase::Writing { handle, sent } => {
                let end: usize = if self.data.len() - sent > MAX_CHUNK_LEN {
                    sent + MAX_CHUNK_LEN
                } else {
                    self.data.len()
                };
                let mut chunk: Vec<u8> = Vec::new();
                let mut i: usize = sent;
                while i < end
                    invariant
                        sent <= i <= end <= self.data@.len(),
                        chunk@ == self.data@.subrange(sent as int, i as int),
                    decreases end - i,
                {
                    chunk.push(self.data[i]);
                    proof {
                        assert(chunk@ =~= self.data@.subrange(sent as int, i + 1));
                    }
                    i = i + 1;
                }
                FoeDirective::WriteChunk(handle, chunk)
            },
            FoePhase::Closing { handle } => FoeDirective::CloseHandle(handle),
            FoePhase::Finished => FoeDirective::Stop,
            FoePhase::Failed => FoeDirective::Stop,
        }
    }

    /// Digest the outcome of the open exchange. A nonzero decoded handle
    /// starts the write stream (or goes straight to the close when there is
    /// nothing to send); the handle zero yields `NoHandleFault` and fails
    /// the upload, so that no chunk write and no close follows it.
    pub fn on_open_response(&mut self, resp: Result<Vec<u8>, TransportFault>) -> (r: Result<
        u32,
        EcError,
    >)
        requires
            old(self).phase is Opening,
        ensures
            final(self).file_name == old(self).file_name,
            final(self).data == old(self).data,
            r == spec_open_outcome(resp),
            final(self).phase == spec_phase_after_open(old(self).data@.len() as int, resp),
            final(self).wf(),
    {
        match resp {
            Ok(bytes) => {
                if bytes.len() < 4 {
                    self.phase = FoePhase::Failed;
                    Err(EcError::Transport(TransportFault::ShortRead))
                } else {
                    let h: u32 = (bytes[0] as u32) + (bytes[1] as u32) * 0x100 + (bytes[2] as u32)
                        * 0x10000 + (bytes[3] as u32) * 0x1000000;
                    if h == 0 {
                        self.phase = FoePhase::Failed;
                        Err(EcError::NoHandleFault)
                    } else if self.data.len() == 0 {
                        self.phase = FoePhase::Closing { handle: h };
                        Ok(h)
                    } else {
                        self.phase = FoePhase::Writing { handle: h, sent: 0 };
                        Ok(h)
                    }
                }
            },
            Err(tf) => {
                self.phase = FoePhase::Failed;
                Err(EcError::Transport(tf))
            },
        }
    }

    /// Digest the acknowledgment of the directed chunk write. The response
    /// payload of a chunk write is acknowledgment only and carries no
    /// consumed data, so only the fault-or-not outcome is handed in. On
    /// success the position advances by exactly the directed chunk; when it
    /// reaches the end of the data, the close follows. A transport fault
    /// fails the upload at once.
    pub fn on_write_ack(&mut self, ack: Result<(), TransportFault>) -> (r: Result<(), EcError>)
        requires
            old(self).phase is Writing,
            old(self).wf(),
        ensures
            final(self).file_name == old(self).file_name,
            final(self).data == old(self).data,
            final(self).wf(),
            match ack {
                Ok(_) => {
                    &&& r is Ok
                    &&& (old(self).phase matches FoePhase::Writing { handle, sent } ==> {
                        let end = spec_chunk_end(old(self).data@.len() as int, sent as int);
                        if end == old(self).data@.len() {
                            final(self).phase == (FoePhase::Closing { handle })
                        } else {
                            final(self).phase == (FoePhase::Writing {
                                handle,
                                sent: end as usize,
                            })
                        }
                    })
                },
                Err(tf) => {
                    &&& r == Err::<(), EcError>(EcError::Transport(tf))
                    &&& final(self).phase is Failed
                },
            },
    {
        match ack {
            Ok(_) => {
                match self.phase {
                    FoePhase::Writing { handle, sent } => {
                        let end: usize = if self.data.len() - sent > MAX_CHUNK_LEN {
                            sent + MAX_CHUNK_LEN
                        } else {
                            self.data.len()
                        };
                        if end == self.data.len() {
                            self.phase = FoePhase::Closing { handle };
                        } else {
                            self.phase = FoePhase::Writing { handle, sent: end };
                        }
                        Ok(())
                    },
                    _ => Ok(()),  // unreachable under the precondition
                }
            },
            Err(tf) => {
                self.phase = FoePhase::Failed;
                Err(EcError::Transport(tf))
            },
        }
    }

    /// Digest the acknowledgment of the close exchange. On success the
    /// upload is finished and the handle is invalid for further writes; a
    /// transport fault fails the upload.
    pub fn on_close_ack(&mut self, ack: Result<(), TransportFault>) -> (r: Result<(), EcError>)
        requires
            old(self).phase is Closing,
        ensures
            final(self).file_name == old(self).file_name,
            final(self).data == old(self).data,
            final(self).wf(),
            match ack {
                Ok(_) => r is Ok && final(self).phase is Finished,
                Err(tf) => {
                    &&& r == Err::<(), EcError>(EcError::Transport(tf))
                    &&& final(self).phase is Failed
                },
            },
    {
        match ack {
            Ok(_) => {
                self.phase = FoePhase::Finished;
                Ok(())
            },
            Err(tf) => {
                self.phase = FoePhase::Failed;
                Err(EcError::Transport(tf))
            },
        }
    }
}

/// Every chunk makes progress and stays within bounds: it starts strictly
/// before where it ends, never runs past the end of the data, is never
/// longer than the negotiated bound, and is exactly the full bound whenever
/// at least a full bound of data remains.
pub proof fn lemma_chunk_progress(len: int, sent: int)
    requires
        0 <= sent < len,
    ensures
        sent < spec_chunk_end(len, sent) <= len,
        spec_chunk_end(len, sent) - sent <= MAX_CHUNK_LEN,
        len - sent >= MAX_CHUNK_LEN ==> spec_chunk_end(len, sent) - sent == MAX_CHUNK_LEN,
{
}

/// Chunks concatenate in file order: the data acknowledged up to `sent`
/// plus the chunk directed at `sent` is exactly the data up to that chunk's
/// end, so the directed stream reassembles the file with nothing skipped,
/// repeated or reordered.
pub proof fn lemma_chunks_concatenate(data: Seq<u8>, sent: int)
    requires
        0 <= sent < data.len(),
    ensures
        data.subrange(0, sent) + data.subrange(sent, spec_chunk_end(data.len() as int, sent))
            == data.subrange(0, spec_chunk_end(data.len() as int, sent)),
{
    let end = spec_chunk_end(data.len() as int, sent);
    assert(data.subrange(0, sent) + data.subrange(sent, end) =~= data.subrange(0, end));
}

/// An open response that decodes to the handle zero yields `NoHandleFault`
/// and fails the upload, whatever the data: a failed upload directs `Stop`,
/// so no chunk write and no close ever follows an invalid handle.
pub proof fn lemma_zero_handle_stops_upload(data_len: int, resp: Result<Vec<u8>, TransportFault>)
    requires
        resp matches Ok(bytes) && bytes@.len() >= 4 && spec_handle(bytes@) == 0,
    ensures
        spec_open_outcome(resp) == Err::<u32, EcError>(EcError::NoHandleFault),
        spec_phase_after_open(data_len, resp) == FoePhase::Failed,
{
}

} // verus!
