//! Decisions of the per-connection loop.
//!
//! The loop that owns a connection reports what just happened as an
//! [`Event`]; [`next_action`] says what to do next. Reading, solving and
//! writing are left to the caller, which feeds the outcome back as the next
//! event. Nothing is carried from one request to the next.
use vstd::prelude::*;

use crate::codec::{
    angles_to_byte_stream, decode_request, invalid_request_response, request_of_bytes,
    response_bytes, CoordinateResponse, RequestFrame, ERROR_INVALID_REQUEST, REQUEST_LEN,
};

verus! {

/// What happened on a connection.
#[derive(Debug)]
pub enum Event {
    /// The connection was accepted.
    Opened,
    /// A read returned these bytes (a whole frame is `REQUEST_LEN` of them).
    Received(Vec<u8>),
    /// The peer closed the stream, or a read failed.
    ReadEnded,
    /// The solver answered a request: angles, or `None` for an unreachable
    /// target.
    Solved(Option<CoordinateResponse>),
    /// A response was written in full.
    Sent,
    /// Writing a response failed.
    SendFailed,
}

/// What the loop does next.
#[derive(Clone, Copy, Debug)]
pub enum Action {
    /// Read the next request frame.
    Read,
    /// Solve this request.
    Solve(RequestFrame),
    /// Write these bytes to the peer.
    Send([u8; 4]),
    /// Close the connection; it ended normally.
    Finish,
    /// Close the connection and report a transport failure.
    Fail,
}

/// The response that answers a solver outcome: the angles found, or the
/// reserved error response.
pub open spec fn reply_for(solved: Option<CoordinateResponse>) -> CoordinateResponse {
    match solved {
        Some(r) => r,
        None => invalid_request_response(),
    }
}

/// `a` is what the loop does after `e`.
pub open spec fn follows(e: Event, a: Action) -> bool {
    match e {
        Event::Opened => a == Action::Read,
        Event::Received(b) => if b@.len() == REQUEST_LEN {
            a == Action::Solve(request_of_bytes(b@))
        } else {
            a == Action::Read
        },
        Event::ReadEnded => a == Action::Finish,
        Event::Solved(o) => match a {
            Action::Send(bytes) => bytes@ == response_bytes(reply_for(o)),
            _ => false,
        },
        Event::Sent => a == Action::Read,
        Event::SendFailed => a == Action::Fail,
    }
}

/// Decides the loop's next action from the last event.
pub fn next_action(event: &Event) -> (r: Action)
    ensures
        follows(*event, r),
{
    match event {
        Event::Opened => Action::Read,
        Event::Received(b) => match decode_request(b.as_slice()) {
            Some(frame) => Action::Solve(frame),
            None => Action::Read,
        },
        Event::ReadEnded => Action::Finish,
        Event::Solved(o) => {
            let reply = match o {
                Some(r) => *r,
                None => CoordinateResponse::from(ERROR_INVALID_REQUEST),
            };
            Action::Send(angles_to_byte_stream(reply))
        },
        Event::Sent => Action::Read,
        Event::SendFailed => Action::Fail,
    }
}

/// An unreachable target is answered with exactly the reserved four bytes,
/// and once they are written the loop goes on to read the next request.
pub proof fn lemma_unreachable_answers_sentinel(answer: Action, after: Action)
    requires
        follows(Event::Solved(None), answer),
        follows(Event::Sent, after),
    ensures
        answer matches Action::Send(bytes) && bytes@ == seq![0x00u8, 0x00u8, 0x01u8, 0x00u8],
        after == Action::Read,
{
    if let Action::Send(bytes) = answer {
        assert(bytes@ =~= seq![0x00u8, 0x00u8, 0x01u8, 0x00u8]);
    }
}

/// The connection ends normally exactly when the peer closes the stream (or
/// a read fails), whatever came before; the loop then sends nothing more.
pub proof fn lemma_finish_only_on_read_end(e: Event, a: Action)
    requires
        follows(e, a),
    ensures
        a == Action::Finish <==> e is ReadEnded,
        e is ReadEnded ==> !(a is Send),
{
}

/// Only a failed write ends the connection with an error.
pub proof fn lemma_fail_only_on_send_failure(e: Event, a: Action)
    requires
        follows(e, a),
    ensures
        a == Action::Fail <==> e is SendFailed,
{
}

} // verus!
