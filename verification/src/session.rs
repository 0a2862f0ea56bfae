//! The live session state machine.
//!
//! One cooperative task owns the socket; it waits on two heartbeat
//! timers, the inbound stream and a cancellation signal, with no fixed
//! priority among simultaneously-ready sources. The surrounding
//! application runs that wait and performs I/O; every transition and the
//! action it demands are decided here.

use vstd::prelude::*;
use vstd::string::StringExecFns;
use vstd::string::StringSliceAdditionalSpecFns;

use crate::packet::{encode_packet, spec_encode, OP_AUTH, OP_HEARTBEAT};

verus! {

/// The phases of one session, from the REST start call to teardown.
/// `Failed` is terminal and reached on an unrecoverable transport error.
#[derive(Debug, Clone, Copy, PartialEq, Eq, Structural)]
pub enum SessionState {
    Starting,
    Connected,
    Listening,
    ShuttingDown,
    Closed,
    Failed,
}

/// One occurrence the session task observes.
#[derive(Debug, Clone, Copy, PartialEq, Eq, Structural)]
pub enum SessionEvent {
    /// REST start and the socket handshake both succeeded.
    StartCompleted,
    /// The socket handshake failed; fatal to session start.
    ConnectFailed,
    /// The authentication frame was handed to the socket.
    AuthSent,
    /// The protocol-level keep-alive ticker fired.
    WsHeartbeatDue,
    /// Sending the protocol-level heartbeat frame failed.
    WsHeartbeatSendFailed,
    /// The REST keep-alive ticker fired.
    RestHeartbeatDue,
    /// The REST keep-alive call failed.
    RestHeartbeatFailed,
    /// A binary frame buffer arrived on the socket.
    BinaryFrame,
    /// A malformed frame buffer was dropped.
    MalformedFrame,
    /// A text message arrived on the socket.
    TextMessage,
    /// A ping arrived on the socket.
    PingReceived,
    /// The server closed the connection cleanly.
    CloseReceived,
    /// Reading from the socket failed.
    ReadFailed,
    /// The inbound stream ended.
    StreamEnded,
    /// The cancellation signal was observed.
    CancelRequested,
    /// An unrecoverable transport error occurred.
    TransportFailed,
    /// The one REST end call of the teardown finished.
    RestEndDone,
}

/// What the application must do after a transition.
#[derive(Debug, Clone, Copy, PartialEq, Eq, Structural)]
pub enum SessionAction {
    DoNothing,
    /// Send the authentication frame built from the start response.
    SendAuthFrame,
    /// Send a protocol-level heartbeat frame.
    SendWsHeartbeat,
    /// Issue the REST keep-alive call.
    CallRestHeartbeat,
    /// Decode the arrived buffer and dispatch its events.
    DecodeAndDispatch,
    /// Answer the ping with a pong.
    SendPong,
    /// Issue the one REST end call of the teardown.
    CallRestEnd,
}

/// The transition relation of the session. Heartbeat failures of either
/// kind and malformed frames are absorbed without leaving `Listening`;
/// only a socket-level close, read failure, stream end or cancellation
/// begins the teardown, and every such transition carries the single
/// REST end call. `Closed` and `Failed` absorb everything.
pub open spec fn spec_session_step(s: SessionState, e: SessionEvent) -> (
    SessionState,
    SessionAction,
) {
    match (s, e) {
        (SessionState::Starting, SessionEvent::StartCompleted) => (
            SessionState::Connected,
            SessionAction::SendAuthFrame,
        ),
        (SessionState::Starting, SessionEvent::ConnectFailed) => (
            SessionState::Failed,
            SessionAction::DoNothing,
        ),
        (SessionState::Connected, SessionEvent::AuthSent) => (
            SessionState::Listening,
            SessionAction::DoNothing,
        ),
        (SessionState::Listening, SessionEvent::WsHeartbeatDue) => (
            SessionState::Listening,
            SessionAction::SendWsHeartbeat,
        ),
        (SessionState::Listening, SessionEvent::RestHeartbeatDue) => (
            SessionState::Listening,
            SessionAction::CallRestHeartbeat,
        ),
        (SessionState::Listening, SessionEvent::BinaryFrame) => (
            SessionState::Listening,
            SessionAction::DecodeAndDispatch,
        ),
        (SessionState::Listening, SessionEvent::PingReceived) => (
            SessionState::Listening,
            SessionAction::SendPong,
        ),
        (SessionState::Listening, SessionEvent::CloseReceived) => (
            SessionState::ShuttingDown,
            SessionAction::CallRestEnd,
        ),
        (SessionState::Listening, SessionEvent::ReadFailed) => (
            SessionState::ShuttingDown,
            SessionAction::CallRestEnd,
        ),
        (SessionState::Listening, SessionEvent::StreamEnded) => (
            SessionState::ShuttingDown,
            SessionAction::CallRestEnd,
        ),
        (SessionState::Listening, SessionEvent::CancelRequested) => (
            SessionState::ShuttingDown,
            SessionAction::CallRestEnd,
        ),
        (SessionState::ShuttingDown, SessionEvent::RestEndDone) => (
            SessionState::Closed,
            SessionAction::DoNothing,
        ),
        (SessionState::Closed, _) => (SessionState::Closed, SessionAction::DoNothing),
        (SessionState::Failed, _) => (SessionState::Failed, SessionAction::DoNothing),
        (_, SessionEvent::TransportFailed) => (SessionState::Failed, SessionAction::DoNothing),
        _ => (s, SessionAction::DoNothing),
    }
}

/// Takes one step of the session state machine.
pub fn session_step(s: SessionState, e: SessionEvent) -> (r: (SessionState, SessionAction))
    ensures
        r == spec_session_step(s, e),
{
    match (s, e) {
        (SessionState::Starting, SessionEvent::StartCompleted) => (
            SessionState::Connected,
            SessionAction::SendAuthFrame,
        ),
        (SessionState::Starting, SessionEvent::ConnectFailed) => (
            SessionState::Failed,
            SessionAction::DoNothing,
        ),
        (SessionState::Connected, SessionEvent::AuthSent) => (
            SessionState::Listening,
            SessionAction::DoNothing,
        ),
        (SessionState::Listening, SessionEvent::WsHeartbeatDue) => (
            SessionState::Listening,
            SessionAction::SendWsHeartbeat,
        ),
        (SessionState::Listening, SessionEvent::RestHeartbeatDue) => (
            SessionState::Listening,
            SessionAction::CallRestHeartbeat,
        ),
        (SessionState::Listening, SessionEvent::BinaryFrame) => (
            SessionState::Listening,
            SessionAction::DecodeAndDispatch,
        ),
        (SessionState::Listening, SessionEvent::PingReceived) => (
            SessionState::Listening,
            SessionAction::SendPong,
        ),
        (SessionState::Listening, SessionEvent::CloseReceived) => (
            SessionState::ShuttingDown,
            SessionAction::CallRestEnd,
        ),
        (SessionState::Listening, SessionEvent::ReadFailed) => (
            SessionState::ShuttingDown,
            SessionAction::CallRestEnd,
        ),
        (SessionState::Listening, SessionEvent::StreamEnded) => (
            SessionState::ShuttingDown,
            SessionAction::CallRestEnd,
        ),
        (SessionState::Listening, SessionEvent::CancelRequested) => (
            SessionState::ShuttingDown,
            SessionAction::CallRestEnd,
        ),
        (SessionState::ShuttingDown, SessionEvent::RestEndDone) => (
            SessionState::Closed,
            SessionAction::DoNothing,
        ),
        (SessionState::Closed, _) => (SessionState::Closed, SessionAction::DoNothing),
        (SessionState::Failed, _) => (SessionState::Failed, SessionAction::DoNothing),
        (_, SessionEvent::TransportFailed) => (SessionState::Failed, SessionAction::DoNothing),
        _ => (s, SessionAction::DoNothing),
    }
}

/// Only socket-level events, cancellation or a transport failure leave
/// the `Listening` state; heartbeat failures and malformed frames do not.
pub proof fn lemma_listening_exits_only_on_socket_or_cancel(e: SessionEvent)
    ensures
        spec_session_step(SessionState::Listening, e).0 != SessionState::Listening ==> (
        e == SessionEvent::CloseReceived || e == SessionEvent::ReadFailed || e
            == SessionEvent::StreamEnded || e == SessionEvent::CancelRequested || e
            == SessionEvent::TransportFailed),
{
}

/// Every transition into the teardown carries the REST end call, and no
/// other transition does: the end call is issued exactly once.
pub proof fn lemma_end_called_exactly_on_shutdown(s: SessionState, e: SessionEvent)
    ensures
        spec_session_step(s, e).1 == SessionAction::CallRestEnd <==> (s == SessionState::Listening
            && spec_session_step(s, e).0 == SessionState::ShuttingDown),
{
}

/// The fixed path suffix a session socket URL must end with.
pub open spec fn spec_sub_suffix() -> Seq<char> {
    seq!['/', 's', 'u', 'b']
}

/// The URL actually connected to: unchanged when it already ends with
/// "/sub"; otherwise "sub" is appended to a trailing slash, or "/sub"
/// is appended.
pub open spec fn spec_normalized_ws_url(u: Seq<char>) -> Seq<char> {
    if u.len() >= 4 && u.subrange(u.len() - 4, u.len() as int) == spec_sub_suffix() {
        u
    } else if u.len() >= 1 && u[u.len() - 1] == '/' {
        u + seq!['s', 'u', 'b']
    } else {
        u + spec_sub_suffix()
    }
}

/// Appends the fixed subscription path suffix to a socket URL unless it
/// is already there.
pub fn normalize_ws_url(url: &str) -> (r: String)
    ensures
        r@ == spec_normalized_ws_url(url@),
{
    proof {
        reveal_strlit("sub");
        reveal_strlit("/sub");
    }
    let n = url.unicode_len();
    if n >= 4 {
        let c0 = url.get_char(n - 4);
        let c1 = url.get_char(n - 3);
        let c2 = url.get_char(n - 2);
        let c3 = url.get_char(n - 1);
        if c0 == '/' && c1 == 's' && c2 == 'u' && c3 == 'b' {
            proof {
                assert(url@.subrange(url@.len() - 4, url@.len() as int) =~= spec_sub_suffix());
            }
            return url.to_owned();
        }
        proof {
            assert(url@.subrange(url@.len() - 4, url@.len() as int) != spec_sub_suffix());
        }
    }
    let mut out = url.to_owned();
    if n >= 1 {
        let last = url.get_char(n - 1);
        if last == '/' {
            out.append("sub");
            proof {
                assert(out@ =~= spec_normalized_ws_url(url@));
            }
            return out;
        }
    }
    out.append("/sub");
    proof {
        assert(out@ =~= spec_normalized_ws_url(url@));
    }
    out
}

/// The authentication frame sent right after the handshake, carrying the
/// start response's `auth_body`. `None` only when the body cannot fit in
/// one frame.
pub fn auth_frame(auth_body: &str) -> (r: Option<Vec<u8>>)
    ensures
        r matches Some(v) ==> v@ == spec_encode(OP_AUTH, auth_body.spec_bytes()),
        r is None <==> 16 + auth_body.spec_bytes().len() > u32::MAX,
{
    let body = auth_body.as_bytes();
    if body.len() > (u32::MAX - 16) as usize {
        return None;
    }
    Some(encode_packet(OP_AUTH, body))
}

/// The protocol-level keep-alive frame: a heartbeat with an empty body.
pub fn heartbeat_frame() -> (r: Vec<u8>)
    ensures
        r@ == spec_encode(OP_HEARTBEAT, Seq::<u8>::empty()),
        r@.len() == 16,
{
    let empty: Vec<u8> = Vec::new();
    let r = encode_packet(OP_HEARTBEAT, empty.as_slice());
    proof {
        assert(empty@ =~= Seq::<u8>::empty());
    }
    r
}

} // verus!
