//! The per-connection record pump.
//!
//! A TLS session object is a record-layer state machine that never
//! touches the transport itself: an outside caller shuttles ciphertext
//! between the socket and the session on every step. The pump tracks one
//! connection through its phases — handshaking, reading the request,
//! writing the response, closing — and owns the request buffer and the
//! response bytes with their cursors. The caller performs the socket
//! work (`complete_io`, `write_tls`, flushing) between steps and reports
//! back; each step here talks only to the session's plaintext side,
//! through trusted wrappers, and its effect on the buffers is verified.

use std::io::Read;
use std::io::Write;
use vstd::prelude::*;
use vstd::utf8::encode_utf8;
use crate::head::{head_complete, spec_route, route_request, Route, HeadError};
use crate::response::{spec_response, response_for};
use vstd::string::StrSliceExecFns;

verus! {

/// The fixed size of the request buffer. A head that never completes
/// within it keeps the connection polling, as the design accepts.
pub const REQUEST_CAP: usize = 4096;

/// The phases of one connection, in the order they are passed through.
/// `Failed` is the terminal phase of a connection torn down early.
#[derive(Clone, Copy, PartialEq, Eq, Structural, Debug)]
pub enum Phase {
    Handshaking,
    ReadingRequest,
    WritingResponse,
    Closing,
    Closed,
    Failed,
}

/// What one read step achieved.
#[derive(Clone, Copy, PartialEq, Eq, Structural, Debug)]
pub enum ReadStep {
    /// The head is not complete yet; sync the transport and retry.
    Progress,
    /// The head is complete; the request can be finalized.
    Complete,
    /// The plaintext read failed; the connection is torn down.
    Failed,
}

/// What one write step achieved.
#[derive(Clone, Copy, PartialEq, Eq, Structural, Debug)]
pub enum WriteStep {
    /// The session accepted this many more response bytes.
    Wrote(usize),
    /// The plaintext write failed; the connection is torn down.
    Failed,
}

/// The TLS session type of the `rustls` crate, opaque to the library.
#[verifier::external_type_specification]
#[verifier::external_body]
pub struct ExConnection(rustls::Connection);

/// Outcome of a non-blocking plaintext read from the session.
enum PlainRead {
    Count(usize),
    WouldBlock,
    Failed,
}

/// Outcome of handing plaintext to the session for encryption.
enum PlainWrite {
    Count(usize),
    Failed,
}

/// Relies on `rustls::Connection::reader` and its `std::io::Read`
/// impl: a read fills at most the given suffix of the buffer and
/// returns how many bytes it placed there, `WouldBlock` when no
/// plaintext is pending, and an error otherwise. Bytes before `cursor`
/// are outside the passed slice, so they are untouched.
#[verifier::external_body]
fn tls_read_plain(tls: &mut rustls::Connection, buf: &mut Vec<u8>, cursor: usize) -> (r: PlainRead)
    requires
        cursor <= old(buf)@.len(),
    ensures
        final(buf)@.len() == old(buf)@.len(),
        forall|i: int| 0 <= i < cursor ==> final(buf)@[i] == old(buf)@[i],
        match r {
            PlainRead::Count(n) => cursor + n <= old(buf)@.len(),
            _ => final(buf)@ == old(buf)@,
        },
{
    match tls.reader().read(&mut buf[cursor..]) {
        Ok(n) => PlainRead::Count(n),
        Err(e) if e.kind() == std::io::ErrorKind::WouldBlock => PlainRead::WouldBlock,
        Err(_) => PlainRead::Failed,
    }
}

/// Relies on `rustls::Connection::writer` and its `std::io::Write`
/// impl: a write buffers some prefix of the offered bytes for
/// encryption and returns how many it took, which is never more than
/// was offered.
#[verifier::external_body]
fn tls_write_plain(tls: &mut rustls::Connection, buf: &Vec<u8>, from: usize) -> (r: PlainWrite)
    requires
        from <= buf@.len(),
    ensures
        match r {
            PlainWrite::Count(n) => from + n <= buf@.len(),
            PlainWrite::Failed => true,
        },
{
    match tls.writer().write(&buf[from..]) {
        Ok(n) => PlainWrite::Count(n),
        Err(_) => PlainWrite::Failed,
    }
}

/// Relies on `rustls::CommonState::send_close_notify`: it queues the
/// close-notify alert on the session, to be flushed by the caller's
/// next ciphertext sync.
#[verifier::external_body]
fn tls_send_close_notify(tls: &mut rustls::Connection) {
    tls.send_close_notify()
}

/// The state of one connection: its phase, the request buffer with its
/// write cursor, and the response bytes with their send cursor.
pub struct RecordPump {
    pub phase: Phase,
    pub request: Vec<u8>,
    pub cursor: usize,
    pub response: Vec<u8>,
    pub sent: usize,
}

impl RecordPump {
    /// The cursors stay within their buffers, and the request buffer
    /// keeps its fixed size until the head is finalized.
    pub open spec fn wf(self) -> bool {
        &&& self.cursor <= self.request@.len()
        &&& self.sent <= self.response@.len()
        &&& (self.phase == Phase::Handshaking || self.phase == Phase::ReadingRequest)
            ==> self.request@.len() == REQUEST_CAP
    }

    /// A fresh connection: handshaking, with an empty zeroed request
    /// buffer and no response yet.
    pub fn new() -> (r: Self)
        ensures
            r.wf(),
            r.phase == Phase::Handshaking,
            r.cursor == 0,
            r.sent == 0,
            r.response@.len() == 0,
    {
        RecordPump {
            phase: Phase::Handshaking,
            request: vec![0u8; REQUEST_CAP],
            cursor: 0,
            response: Vec::new(),
            sent: 0,
        }
    }

    /// The caller reports that the session finished its handshake; the
    /// connection moves on to reading the request.
    pub fn handshake_complete(&mut self)
        requires
            old(self).wf(),
            old(self).phase == Phase::Handshaking,
        ensures
            final(self).wf(),
            *final(self) == (RecordPump { phase: Phase::ReadingRequest, ..*old(self) }),
    {
        self.phase = Phase::ReadingRequest;
    }

    /// The caller reports that the connection cannot go on — a
    /// handshake failure or a transport error. Terminal.
    pub fn mark_failed(&mut self)
        requires
            old(self).wf(),
        ensures
            final(self).wf(),
            *final(self) == (RecordPump { phase: Phase::Failed, ..*old(self) }),
    {
        self.phase = Phase::Failed;
    }

    /// One read attempt: pull whatever plaintext the session already
    /// holds into the request buffer at the cursor, then decide whether
    /// the head is complete. `WouldBlock` counts as zero bytes read,
    /// not as an error. The bytes read so far are never disturbed.
    pub fn read_step(&mut self, tls: &mut rustls::Connection) -> (r: ReadStep)
        requires
            old(self).wf(),
            old(self).phase == Phase::ReadingRequest,
        ensures
            final(self).wf(),
            final(self).request@.len() == old(self).request@.len(),
            old(self).cursor <= final(self).cursor,
            final(self).request@.subrange(0, old(self).cursor as int) == old(
                self,
            ).request@.subrange(0, old(self).cursor as int),
            final(self).response == old(self).response,
            final(self).sent == old(self).sent,
            r == ReadStep::Failed <==> final(self).phase == Phase::Failed,
            r != ReadStep::Failed ==> final(self).phase == Phase::ReadingRequest,
            r == ReadStep::Complete ==> head_complete(
                final(self).request@.subrange(0, final(self).cursor as int),
            ),
            r == ReadStep::Progress ==> !head_complete(
                final(self).request@.subrange(0, final(self).cursor as int),
            ),
    {
        let got = tls_read_plain(tls, &mut self.request, self.cursor);
        match got {
            PlainRead::Count(n) => {
                self.cursor = self.cursor + n;
            },
            PlainRead::WouldBlock => {},
            PlainRead::Failed => {
                self.phase = Phase::Failed;
                return ReadStep::Failed;
            },
        }
        proof {
            assert(self.request@.subrange(0, old(self).cursor as int) =~= old(
                self,
            ).request@.subrange(0, old(self).cursor as int));
        }
        if crate::head::is_head_complete(&self.request, self.cursor) {
            ReadStep::Complete
        } else {
            ReadStep::Progress
        }
    }

    /// True when every response byte has been handed to the session.
    pub fn response_done(&self) -> (r: bool)
        ensures
            r == (self.sent == self.response@.len()),
    {
        self.sent == self.response.len()
    }

    /// Finalize the head and choose the response. The buffer is cut to
    /// the bytes actually read and routed; on success the response
    /// bytes stand ready and the connection turns to writing, on any
    /// rejection the connection is torn down without a response.
    pub fn prepare_response(&mut self) -> (r: Result<Route, HeadError>)
        requires
            old(self).wf(),
            old(self).phase == Phase::ReadingRequest,
        ensures
            final(self).wf(),
            final(self).request@ == old(self).request@.subrange(0, old(self).cursor as int),
            r == spec_route(old(self).request@.subrange(0, old(self).cursor as int)),
            r matches Ok(route) ==> {
                &&& final(self).phase == Phase::WritingResponse
                &&& final(self).sent == 0
                &&& final(self).response@ == encode_utf8(spec_response(route))
            },
            r is Err ==> final(self).phase == Phase::Failed,
    {
        self.request.truncate(self.cursor);
        proof {
            assert(self.request@ =~= old(self).request@.subrange(0, old(self).cursor as int));
        }
        let route = match route_request(&self.request) {
            Ok(route) => route,
            Err(e) => {
                self.phase = Phase::Failed;
                return Err(e);
            },
        };
        let text = response_for(route);
        self.response = text.as_str().as_bytes_vec();
        self.sent = 0;
        self.phase = Phase::WritingResponse;
        Ok(route)
    }

    /// One write attempt: offer the unsent tail of the response to the
    /// session and advance the cursor by what it accepted, which may be
    /// less than offered. The caller drains the session's ciphertext
    /// between steps.
    pub fn write_step(&mut self, tls: &mut rustls::Connection) -> (r: WriteStep)
        requires
            old(self).wf(),
            old(self).phase == Phase::WritingResponse,
        ensures
            final(self).wf(),
            final(self).request == old(self).request,
            final(self).cursor == old(self).cursor,
            final(self).response == old(self).response,
            r matches WriteStep::Wrote(n) ==> {
                &&& final(self).phase == Phase::WritingResponse
                &&& final(self).sent == old(self).sent + n
                &&& old(self).sent + n <= final(self).response@.len()
            },
            r == WriteStep::Failed ==> final(self).phase == Phase::Failed && final(self).sent
                == old(self).sent,
    {
        let limit = self.response.len();
        let got = tls_write_plain(tls, &self.response, self.sent);
        match got {
            PlainWrite::Count(n) => {
                proof {
                    assert(self.sent + n <= limit);
                }
                self.sent = self.sent + n;
                WriteStep::Wrote(n)
            },
            PlainWrite::Failed => {
                self.phase = Phase::Failed;
                WriteStep::Failed
            },
        }
    }

    /// Every response byte is with the session: queue the close-notify
    /// alert on it and turn to closing. The caller still syncs the
    /// ciphertext and flushes the transport.
    pub fn begin_close(&mut self, tls: &mut rustls::Connection)
        requires
            old(self).wf(),
            old(self).phase == Phase::WritingResponse,
            old(self).sent == old(self).response@.len(),
        ensures
            final(self).wf(),
            *final(self) == (RecordPump { phase: Phase::Closing, ..*old(self) }),
    {
        tls_send_close_notify(tls);
        self.phase = Phase::Closing;
    }

    /// The caller reports the final flush done; the connection is over.
    pub fn mark_closed(&mut self)
        requires
            old(self).wf(),
            old(self).phase == Phase::Closing,
        ensures
            final(self).wf(),
            *final(self) == (RecordPump { phase: Phase::Closed, ..*old(self) }),
    {
        self.phase = Phase::Closed;
    }
}

} // verus!
