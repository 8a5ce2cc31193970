//! What holds of the two sides together: what the phone says leads the desktop on, and what the
//! desktop says reaches the phone.

use vstd::prelude::*;

use crate::client::{choice_in, KeyChoice, SessionEvent};
use crate::handshake::{read_step, HandshakePhase, HandshakeStep};
use crate::json::{json_read, read_well};
use crate::protocol::{
    messages_survive_the_wire, ClientMessage, ErrorCode, Incoming, ServerMessage,
};
use crate::registry::{SessionPhase, SessionRecord};
use crate::server::{ack_of, status_step, AckStep, Hub, ServerStep};
use crate::session::{
    giving_up, heartbeat_at, recording_read_event, seen_after_read, stop_read_step, SessionView,
    StopStage, StopStep, StopWait, SESSION_HEARTBEAT_INTERVAL,
};

verus! {

/// Whether a frame carries this message of the phone.
pub open spec fn says(frame: Seq<char>, message: ServerMessage<Seq<char>>) -> bool {
    json_read(frame) == read_well(message.members())
}

proof fn lemma_kinds_differ()
    ensures
        "pong"@ != "error"@,
        "pong"@ != "stopped"@,
        "pong"@ != "cancelled"@,
        "error"@ != "started"@,
        "error"@ != "hello_ok"@,
        "stopped"@ != "error"@,
        "cancelled"@ != "error"@,
        "cancelled"@ != "stopped"@,
{
    reveal_strlit("pong");
    reveal_strlit("error");
    reveal_strlit("started");
    reveal_strlit("stopped");
    reveal_strlit("hello_ok");
    reveal_strlit("cancelled");
    assert("pong"@.len() == 4 && "error"@.len() == 5 && "started"@.len() == 7);
    assert("stopped"@.len() == 7 && "hello_ok"@.len() == 8 && "cancelled"@.len() == 9);
}

/// The handshake fits together: a welcome leads to a `start` that expects an identifier, the
/// identifier that the phone gives is the one that the desktop gets, and a desktop that is refused
/// because another holds the session tells who that is.
pub proof fn the_handshake_fits(
    welcome: Seq<char>,
    begun: Seq<char>,
    blocked: Seq<char>,
    session_id: Seq<char>,
    already_active: bool,
    message: Seq<char>,
    owner_client_id: Seq<char>,
)
    requires
        says(welcome, ServerMessage::HelloOk),
        says(begun, ServerMessage::Started { session_id, already_active }),
        says(blocked, ServerMessage::Blocked { message, owner_client_id, session_id }),
    ensures
        read_step(HandshakePhase::Hello, Incoming::Text(welcome)) == (HandshakeStep::<
            Seq<char>,
        >::SendStart { hello_ok: true }),
        read_step(HandshakePhase::Start { hello_ok: true }, Incoming::Text(begun)) == (
        HandshakeStep::Ready { session_id: Some(session_id) }),
        read_step(HandshakePhase::Start { hello_ok: true }, Incoming::Text(blocked))
            == HandshakeStep::Failed(message + "（占用者 "@ + owner_client_id + "）"@),
{
    lemma_kinds_differ();
    messages_survive_the_wire(ServerMessage::HelloOk, welcome);
    messages_survive_the_wire(ServerMessage::Started { session_id, already_active }, begun);
    messages_survive_the_wire(
        ServerMessage::Blocked { message, owner_client_id, session_id },
        blocked,
    );
}

/// The code for a mismatch of versions differs from every other.
proof fn lemma_mismatch_is_told(code: ErrorCode)
    requires
        code != ErrorCode::ProtocolMismatch,
    ensures
        code.text() != ErrorCode::ProtocolMismatch.text(),
{
    reveal_strlit("invalid command");
    reveal_strlit("PROTOCOL_MISMATCH");
    reveal_strlit("START_FAILED");
    reveal_strlit("NO_SESSION");
    reveal_strlit("SESSION_BLOCKED");
    reveal_strlit("STOP_FAILED");
    reveal_strlit("RESULT_TIMEOUT");
    reveal_strlit("BAD_ACK");
    reveal_strlit("NO_PENDING_RESULT");
    reveal_strlit("UNKNOWN_COMMAND");
    assert("PROTOCOL_MISMATCH"@.len() == 17 && "PROTOCOL_MISMATCH"@[0] == 'P');
    assert("NO_PENDING_RESULT"@[0] == 'N');
    assert("invalid command"@.len() == 15 && "START_FAILED"@.len() == 12);
    assert("NO_SESSION"@.len() == 10 && "SESSION_BLOCKED"@.len() == 15);
    assert("STOP_FAILED"@.len() == 11 && "RESULT_TIMEOUT"@.len() == 14);
    assert("BAD_ACK"@.len() == 7 && "UNKNOWN_COMMAND"@.len() == 15);
}

/// A desktop does not go on with a phone of another version: when the phone says so, the handshake
/// fails with the phone's words, and no `start` is sent.
pub proof fn a_mismatch_ends_the_handshake(frame: Seq<char>, message: Seq<char>)
    requires
        says(frame, ServerMessage::Error { code: ErrorCode::ProtocolMismatch, message }),
    ensures
        read_step(HandshakePhase::Hello, Incoming::Text(frame)) == HandshakeStep::Failed(message),
{
    lemma_kinds_differ();
    messages_survive_the_wire(
        ServerMessage::Error { code: ErrorCode::ProtocolMismatch, message },
        frame,
    );
}

/// A phone that answers `hello` with any other error is tried all the same, as one that knows no
/// `hello`.
pub proof fn a_phone_without_hello_is_tried(frame: Seq<char>, code: ErrorCode, message: Seq<char>)
    requires
        code != ErrorCode::ProtocolMismatch,
        says(frame, ServerMessage::Error { code, message }),
    ensures
        read_step(HandshakePhase::Hello, Incoming::Text(frame)) == (HandshakeStep::<
            Seq<char>,
        >::SendStart { hello_ok: false }),
{
    lemma_kinds_differ();
    lemma_mismatch_is_told(code);
    messages_survive_the_wire(ServerMessage::Error { code, message }, frame);
}

/// While it records, a session goes on at the answer to a heartbeat and ends as the phone says.
pub proof fn the_phone_ends_a_recording(
    pong: Seq<char>,
    stopped: Seq<char>,
    cancelled: Seq<char>,
    session_id: Seq<char>,
    already_stopped: bool,
)
    requires
        says(pong, ServerMessage::Pong { session_id: Some(session_id) }),
        says(stopped, ServerMessage::Stopped { session_id, already_stopped }),
        says(cancelled, ServerMessage::Cancelled { session_id: Some(session_id) }),
    ensures
        recording_read_event(Incoming::Text(pong)) is None,
        recording_read_event(Incoming::Text(stopped)) == Some(SessionEvent::<Seq<char>>::Stopped),
        recording_read_event(Incoming::Text(cancelled)) == Some(
            SessionEvent::<Seq<char>>::Cancelled,
        ),
{
    lemma_kinds_differ();
    messages_survive_the_wire(ServerMessage::Pong { session_id: Some(session_id) }, pong);
    messages_survive_the_wire(ServerMessage::Stopped { session_id, already_stopped }, stopped);
    messages_survive_the_wire(
        ServerMessage::Cancelled { session_id: Some(session_id) },
        cancelled,
    );
}

/// A result reaches the desktop once: the text that the phone sends is the text that is inserted,
/// and when the phone sends it again it is passed over.
pub proof fn a_result_reaches_the_desktop_once(
    session: SessionView,
    frame: Seq<char>,
    session_id: Seq<char>,
    result_id: Seq<char>,
    text: Seq<char>,
    wait: StopWait,
    now: u64,
    later: u64,
)
    requires
        says(frame, ServerMessage::Result { session_id, result_id, text }),
        result_id.len() > 0,
        text.len() > 0,
        !session.seen.contains(result_id),
    ensures
        stop_read_step(session, wait, Incoming::Text(frame), now) == (StopStep::Insert {
            text,
            result_id,
        }),
        ({
            let after = SessionView {
                seen: seen_after_read(session.seen, Incoming::Text(frame), true),
                ..session
            };
            stop_read_step(after, wait, Incoming::Text(frame), later) is Read
        }),
{
    reveal_strlit("result");
    reveal_strlit("status");
    assert("result"@[0] == 'r' && "status"@[0] == 's');
    messages_survive_the_wire(ServerMessage::Result { session_id, result_id, text }, frame);
}

/// The phone's answer to `status` decides: a desktop that asked after its text waits on while the
/// phone makes a text of this session, and gives up, with a `cancel`, where the phone is idle, at
/// another session, or still records.
pub proof fn the_status_decides(
    session: SessionView,
    id: Seq<char>,
    frame: Seq<char>,
    hub: Hub,
    since: u64,
    now: u64,
)
    requires
        session.session_id == Some(id),
        hub.sound(),
        status_step(hub) matches ServerStep::Reply(answer) && says(frame, answer.message),
    ensures
        ({
            let wait = StopWait { stage: StopStage::Status, since };
            let step = stop_read_step(session, wait, Incoming::Text(frame), now);
            &&& step is WaitOn <==> (hub.session(id) matches Some(record) && record.phase
                != SessionPhase::Recording)
            &&& step is WaitOn || step == giving_up(session)
        }),
{
    let message = status_step(hub)->Reply_0.message;
    messages_survive_the_wire(message, frame);
    reveal_strlit("transcribing");
    reveal_strlit("recording");
    reveal_strlit("idle");
    assert("transcribing"@.len() == 12 && "recording"@.len() == 9 && "idle"@.len() == 4);
    if hub.sessions.contains_key(id) {
        assert(hub.current() == Some(hub.sessions[id]));
    }
}

/// A key comes to what the phone's sessions ask for: by the phone's answer to `status` it begins a
/// session exactly where the phone has none of this client; a recording of this client is ended or
/// gone on with, as the key is used, and one that winds up is cancelled.
pub proof fn the_phone_tells_what_a_key_comes_to(
    hub: Hub,
    frame: Seq<char>,
    toggle: bool,
    client_id: Seq<char>,
)
    requires
        hub.sound(),
        client_id.len() > 0,
        status_step(hub) matches ServerStep::Reply(answer) && says(frame, answer.message),
    ensures
        choice_in(toggle, Incoming::Text(frame), client_id) == match hub.current() {
            Some(record) => if record.owner_client_id != client_id {
                KeyChoice::Start
            } else if record.phase != SessionPhase::Recording {
                KeyChoice::Cancel
            } else if toggle {
                KeyChoice::Stop
            } else {
                KeyChoice::Recover
            },
            None => KeyChoice::Start,
        },
{
    let message = status_step(hub)->Reply_0.message;
    messages_survive_the_wire(message, frame);
    reveal_strlit("transcribing");
    reveal_strlit("recording");
    assert("transcribing"@.len() == 12 && "recording"@.len() == 9);
}

/// An acknowledgement reaches the phone: the one that the desktop sends for a result ends the
/// phone's wait for it.
pub proof fn an_acknowledgement_reaches_the_phone(
    frame: Seq<char>,
    client_id: Seq<char>,
    result_id: Seq<char>,
)
    requires
        json_read(frame) == read_well(ClientMessage::Ack { client_id, result_id }.members()),
    ensures
        ack_of(Incoming::Text(frame), result_id) == AckStep::<Seq<char>>::Acked,
{
    reveal_strlit("type");
    reveal_strlit("clientId");
    reveal_strlit("resultId");
    assert("type"@.len() == 4 && "clientId"@.len() == 8 && "resultId"@.len() == 8);
    assert("clientId"@[0] == 'c' && "resultId"@[0] == 'r');
}

/// Heartbeats come in time: as long as none is due on the desktop, and for as long as two more
/// would take, the phone does not end the recording for want of one.
pub proof fn two_heartbeats_may_be_lost(
    session: SessionView,
    record: SessionRecord<Seq<char>>,
    now: u64,
    later: u64,
)
    requires
        session.session_id is Some,
        session.last_heartbeat == record.last_heartbeat,
        record.phase == SessionPhase::Recording,
        heartbeat_at(session, now) is None,
        later <= now + 2 * SESSION_HEARTBEAT_INTERVAL,
    ensures
        !record.expired(later),
{
}

} // verus!
