//! The per-connection session rules: what a connection answers for each
//! read, and when it closes.
//!
//! A session moves through reading, parsing, dispatching and responding. A
//! successful round leaves it open for the next frame; the first frame-level
//! failure, dispatch failure or handler failure is answered with one
//! general-error envelope and then the connection closes — there is no retry
//! or resynchronization within a connection.

use vstd::prelude::*;
use vstd::utf8::encode_utf8;
use crate::codec::{BinaryEncode, CodecError, spec_block};
use crate::frame::{
    FrameReject, MessageStateCode, ResponseContext, spec_error_envelope, spec_response_payload,
    zlib_of,
};

verus! {

/// Whether the connection still accepts frames.
#[derive(Debug, Clone, Copy, PartialEq, Eq, Structural)]
pub enum SessionState {
    Open,
    Closed,
}

/// One round of the session: a successful round keeps an open connection
/// open, any failure closes it, and a closed connection stays closed.
pub open spec fn spec_step(state: SessionState, ok: bool) -> SessionState {
    match state {
        SessionState::Open => if ok {
            SessionState::Open
        } else {
            SessionState::Closed
        },
        SessionState::Closed => SessionState::Closed,
    }
}

/// The state a session reaches after a run of rounds, each marked by
/// whether its frame was accepted and its handler succeeded.
pub open spec fn spec_run(state: SessionState, events: Seq<bool>) -> SessionState
    decreases events.len(),
{
    if events.len() == 0 {
        state
    } else {
        spec_run(spec_step(state, events[0]), events.skip(1))
    }
}

/// Connection lifecycle, kept side: a connection that sees only successful
/// rounds — well-formed, correctly signed frames whose handlers succeed —
/// is still open after all of them, having answered each with one envelope.
pub proof fn lemma_session_survives_success(events: Seq<bool>)
    requires
        forall|i: int| 0 <= i < events.len() ==> events[i],
    ensures
        spec_run(SessionState::Open, events) == SessionState::Open,
    decreases events.len(),
{
    if events.len() > 0 {
        assert(events[0]);
        lemma_session_survives_success(events.skip(1));
    }
}

/// A closed connection accepts nothing more, whatever else arrives.
pub proof fn lemma_closed_stays_closed(events: Seq<bool>)
    ensures
        spec_run(SessionState::Closed, events) == SessionState::Closed,
    decreases events.len(),
{
    if events.len() > 0 {
        lemma_closed_stays_closed(events.skip(1));
    }
}

/// Connection lifecycle, closing side: one failed round — for instance a
/// frame with a corrupted signature — closes the connection for good,
/// whatever follows it.
pub proof fn lemma_session_closes_on_failure(events: Seq<bool>, k: int)
    requires
        0 <= k < events.len(),
        !events[k],
    ensures
        spec_run(SessionState::Open, events) == SessionState::Closed,
    decreases events.len(),
{
    if k == 0 {
        lemma_closed_stays_closed(events.skip(1));
    } else {
        if events[0] {
            lemma_session_closes_on_failure(events.skip(1), k - 1);
        } else {
            lemma_closed_stays_closed(events.skip(1));
        }
    }
}

/// The envelope answering a rejected frame: a general error carrying the
/// failure's message, echoing the code and session id the frame managed to
/// state. The connection closes after it.
pub fn reject_response(reject: &FrameReject) -> (r: Result<Vec<u8>, CodecError>)
    ensures
        r matches Ok(b) ==> b@ == spec_error_envelope(
            reject.code,
            reject.session_id,
            reject.error.spec_message(),
        ),
        r is Ok <==> {
            &&& encode_utf8(reject.error.spec_message()).len() <= 32767
            &&& zlib_of(
                spec_response_payload(
                    reject.error.spec_message(),
                    spec_block(Seq::empty()),
                ),
            ).len() <= u32::MAX
        },
{
    proof {
        reveal_strlit("");
        assert(""@ =~= Seq::<char>::empty());
        assert(encode_utf8(Seq::<char>::empty()) =~= Seq::<u8>::empty());
    }
    ResponseContext::get_bincode(
        reject.code,
        reject.session_id,
        MessageStateCode::GeneralError,
        reject.error.message(),
        "",
    )
}

/// The end of one dispatch round: a handler's successful envelope goes out
/// and the connection stays open; a handler failure is answered with one
/// general-error envelope carrying the failure's text, and the connection
/// closes. When even that envelope cannot be built, the connection closes
/// with no response.
pub fn conclude_dispatch(code: u16, session_id: u64, outcome: Result<Vec<u8>, String>) -> (r: (
    Option<Vec<u8>>,
    SessionState,
))
    ensures
        outcome matches Ok(v) ==> r.0 == Some(v) && r.1 == SessionState::Open,
        outcome matches Err(m) ==> {
            &&& r.1 == SessionState::Closed
            &&& (r.0 matches Some(b) ==> b@ == spec_error_envelope(code, session_id, m@))
            &&& (r.0 is Some <==> encode_utf8(m@).len() <= 32767 && zlib_of(
                spec_response_payload(m@, spec_block(Seq::empty())),
            ).len() <= u32::MAX)
        },
        r.1 == spec_step(SessionState::Open, outcome is Ok),
{
    match outcome {
        Ok(v) => (Some(v), SessionState::Open),
        Err(m) => {
            proof {
                reveal_strlit("");
                assert(""@ =~= Seq::<char>::empty());
                assert(encode_utf8(Seq::<char>::empty()) =~= Seq::<u8>::empty());
            }
            match ResponseContext::get_bincode(
                code,
                session_id,
                MessageStateCode::GeneralError,
                m.as_str(),
                "",
            ) {
                Ok(b) => (Some(b), SessionState::Closed),
                Err(_) => (None, SessionState::Closed),
            }
        },
    }
}

} // verus!
