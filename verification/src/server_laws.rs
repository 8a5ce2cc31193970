//! What holds of the phone's side as a whole: of the session lock, the heartbeats, and the results.

use vstd::prelude::*;

use crate::protocol::{ClientCommand, ErrorCode, ServerMessage};
use crate::registry::{all_acknowledged, survivors, SessionPhase, HEARTBEAT_TIMEOUT};
use crate::server::{
    ack_outcome, cancel_outcome, client_of, closing_cancels, command_outcome, delivery_for,
    live_session, names,
    opened, ping_outcome, refusing, saying, start_outcome, step_after_send, step_after_wait,
    stop_outcome, AckOutcome, Connection, DeliveryStep, Hub, Outcome, ServerStep, MAX_RESULT_SENDS,
    SWEEP_INTERVAL,
};
use crate::timer::left;

verus! {

/// There is never more than one session: a hub that is sound holds one or none, and whatever a
/// client asks leaves it sound.
pub proof fn there_is_one_session_at_most(
    hub: Hub,
    conn: Connection<Seq<char>>,
    command: ClientCommand<Seq<char>>,
    now: u64,
)
    requires
        hub.sound(),
    ensures
        forall|a: Seq<char>, b: Seq<char>|
            hub.sessions.contains_key(a) && hub.sessions.contains_key(b) ==> a == b,
        command_outcome(hub, conn, command, now).hub.sound(),
{
}

/// A dictation begins only where there is no session, and from then on no other can begin before
/// this one was opened or failed to.
pub proof fn dictations_begin_one_at_a_time(
    hub: Hub,
    conn: Connection<Seq<char>>,
    command: ClientCommand<Seq<char>>,
    other: Connection<Seq<char>>,
    other_command: ClientCommand<Seq<char>>,
)
    requires
        hub.sound(),
        start_outcome(hub, conn, command).step is BeginDictation,
    ensures
        hub.current() is None,
        start_outcome(hub, conn, command).hub.starting == Some(conn.id),
        start_outcome(
            start_outcome(hub, conn, command).hub,
            other,
            other_command,
        ).step !is BeginDictation,
{
}

/// A client that starts again gets the session it holds, and no second recording: neither on the
/// connection that has the session nor on a new one.
pub proof fn starting_again_keeps_the_session(
    hub: Hub,
    conn: Connection<Seq<char>>,
    command: ClientCommand<Seq<char>>,
    id: Seq<char>,
)
    requires
        hub.sound(),
        hub.held_by(id, client_of(command, conn.addr)),
        conn.session matches Some(active) ==> active.session_id == id,
    ensures
        start_outcome(hub, conn, command).hub == hub,
        start_outcome(hub, conn, command).conn.session matches Some(active) && active.session_id
            == id,
        start_outcome(hub, conn, command).step == saying(
            ServerMessage::Started { session_id: id, already_active: true },
        ),
{
}

/// A session that is gone is not started again: where the phone has none and none is being started,
/// a `start` begins a dictation, though the connection still remembers a session.
pub proof fn a_dead_session_is_not_kept(
    hub: Hub,
    conn: Connection<Seq<char>>,
    command: ClientCommand<Seq<char>>,
)
    requires
        hub.current() is None,
        hub.starting is None,
    ensures
        start_outcome(hub, conn, command).step == (ServerStep::<
            Seq<char>,
        >::BeginDictation { translation: command.translation }),
        start_outcome(hub, conn, command).conn.session is None,
{
}

/// A client that starts while another holds the session is refused, learns who holds which
/// session, and changes nothing.
pub proof fn another_client_is_refused(
    hub: Hub,
    conn: Connection<Seq<char>>,
    command: ClientCommand<Seq<char>>,
    id: Seq<char>,
)
    requires
        hub.sound(),
        hub.sessions.contains_key(id),
        hub.sessions[id].owner_client_id != client_of(command, conn.addr),
        live_session(hub, conn) is None,
    ensures
        start_outcome(hub, conn, command) == (Outcome {
            hub,
            conn: Connection { session: None, ..conn },
            step: saying(
                ServerMessage::Blocked {
                    message: "另一个桌面客户端正在使用当前会话"@,
                    owner_client_id: hub.sessions[id].owner_client_id,
                    session_id: id,
                },
            ),
        }),
{
}

/// Only its holder can do anything to a session: a command of another client, whatever it is,
/// leaves the session as it was, and neither ends nor cancels the dictation.
pub proof fn only_the_holder_touches_a_session(
    hub: Hub,
    conn: Connection<Seq<char>>,
    command: ClientCommand<Seq<char>>,
    now: u64,
    id: Seq<char>,
)
    requires
        hub.sound(),
        hub.sessions.contains_key(id),
        hub.sessions[id].owner_client_id != client_of(command, conn.addr),
    ensures
        command_outcome(hub, conn, command, now).hub.session(id) == Some(hub.sessions[id]),
        command_outcome(hub, conn, command, now).step !is EndDictation,
        command_outcome(hub, conn, command, now).step !is BeginDictation,
        command_outcome(hub, conn, command, now).step matches ServerStep::Reply(answer)
            ==> !answer.cancel_dictation,
{
}

/// Stopping is idempotent: once a `stop` has called a dictation to its end, every further `stop`
/// that names the session is told that it is stopped already, and ends nothing again.
pub proof fn a_second_stop_ends_nothing(
    hub: Hub,
    conn: Connection<Seq<char>>,
    command: ClientCommand<Seq<char>>,
    again: ClientCommand<Seq<char>>,
)
    requires
        hub.sound(),
        stop_outcome(hub, conn, command).step is EndDictation,
        client_of(again, conn.addr) == client_of(command, conn.addr),
        names(again, conn.session->0.session_id),
    ensures
        stop_outcome(stop_outcome(hub, conn, command).hub, conn, again) == (Outcome {
            hub: stop_outcome(hub, conn, command).hub,
            conn,
            step: saying(
                ServerMessage::Stopped {
                    session_id: conn.session->0.session_id,
                    already_stopped: true,
                },
            ),
        }),
{
}

/// Stopping stays idempotent past the end: once the result of a stopped session was delivered, a
/// further `stop` of its holder that names it is told that it is stopped already, whatever the hub
/// holds by then; it changes nothing, and ends and sends nothing again.
pub proof fn a_stop_after_the_end_ends_nothing(
    hub: Hub,
    conn: Connection<Seq<char>>,
    command: ClientCommand<Seq<char>>,
    text: Seq<char>,
    result_id: Seq<char>,
    later: Hub,
    again: ClientCommand<Seq<char>>,
)
    requires
        stop_outcome(hub, conn, command).step is EndDictation,
        client_of(again, conn.addr) == client_of(command, conn.addr),
        names(again, conn.session->0.session_id),
    ensures
        ({
            let ended = conn.delivered(delivery_for(conn, command, text, result_id));
            stop_outcome(later, ended, again) == (Outcome {
                hub: later,
                conn: ended,
                step: saying(
                    ServerMessage::Stopped {
                        session_id: conn.session->0.session_id,
                        already_stopped: true,
                    },
                ),
            })
        }),
{
}

/// A connection without a session refuses every other `stop`.
pub proof fn other_stops_find_no_session(
    hub: Hub,
    conn: Connection<Seq<char>>,
    command: ClientCommand<Seq<char>>,
)
    requires
        conn.session is None,
        conn.ended matches Some(ended) ==> !names(command, ended.session_id)
            || ended.owner_client_id != client_of(command, conn.addr),
    ensures
        stop_outcome(hub, conn, command) == (Outcome {
            hub,
            conn,
            step: refusing(ErrorCode::NoSession, "手机端没有正在进行的会话"@),
        }),
{
}

/// A `stop` without any names, on the connection of a session that another client holds, finds no
/// session.
pub proof fn a_nameless_stop_reaches_no_other_session(
    hub: Hub,
    conn: Connection<Seq<char>>,
    command: ClientCommand<Seq<char>>,
)
    requires
        command.session_id is None,
        conn.session matches Some(active) && !hub.held_by(
            active.session_id,
            client_of(command, conn.addr),
        ),
    ensures
        stop_outcome(hub, conn, command) == (Outcome {
            hub,
            conn,
            step: refusing(ErrorCode::NoSession, "sessionId 不匹配，手机端没有该会话"@),
        }),
{
}

/// A `stop` ends the dictation exactly where the connection has a session, the command names it,
/// the client holds it, and it records.
pub proof fn when_a_stop_ends_the_dictation(
    hub: Hub,
    conn: Connection<Seq<char>>,
    command: ClientCommand<Seq<char>>,
)
    ensures
        stop_outcome(hub, conn, command).step is EndDictation <==> (conn.session matches Some(active)
            && names(command, active.session_id) && hub.held_by(
            active.session_id,
            client_of(command, conn.addr),
        ) && hub.sessions[active.session_id].phase == SessionPhase::Recording),
{
}

/// The end of a session frees the phone: whoever starts next begins a dictation.
pub proof fn an_ended_session_frees_the_phone(
    hub: Hub,
    id: Seq<char>,
    next: Connection<Seq<char>>,
    command: ClientCommand<Seq<char>>,
)
    requires
        hub.sound(),
        hub.sessions.contains_key(id),
        next.session is None,
    ensures
        hub.without(id).sound(),
        hub.without(id).current() is None,
        start_outcome(hub.without(id), next, command).step == (ServerStep::<
            Seq<char>,
        >::BeginDictation { translation: command.translation }),
{
}

/// A holder may cancel at any time: the session is gone at once, the dictation is cancelled, and
/// the connection is without a session.
pub proof fn cancelling_frees_the_phone(
    hub: Hub,
    conn: Connection<Seq<char>>,
    command: ClientCommand<Seq<char>>,
)
    requires
        hub.sound(),
        conn.session is Some,
        hub.held_by(conn.session->0.session_id, client_of(command, conn.addr)),
    ensures
        cancel_outcome(hub, conn, command).hub.current() is None,
        cancel_outcome(hub, conn, command).conn.session is None,
        cancel_outcome(hub, conn, command).step matches ServerStep::Reply(answer)
            && answer.cancel_dictation && answer.leave_capture,
{
}

/// Cancelling is idempotent: a second `cancel` of the connection only hears that nothing is left
/// to cancel.
pub proof fn a_second_cancel_cancels_nothing(
    hub: Hub,
    conn: Connection<Seq<char>>,
    command: ClientCommand<Seq<char>>,
    again: ClientCommand<Seq<char>>,
)
    requires
        conn.session is Some,
        hub.held_by(conn.session->0.session_id, client_of(command, conn.addr)),
    ensures
        cancel_outcome(
            cancel_outcome(hub, conn, command).hub,
            cancel_outcome(hub, conn, command).conn,
            again,
        ) == (Outcome {
            step: saying(ServerMessage::Cancelled { session_id: None }),
            ..cancel_outcome(hub, conn, command)
        }),
{
}

/// A heartbeat keeps a session: one that its holder sends in time is answered, and until the time
/// without heartbeats is over no sweep takes the session out.
pub proof fn a_heartbeat_keeps_the_session(
    hub: Hub,
    conn: Connection<Seq<char>>,
    command: ClientCommand<Seq<char>>,
    id: Seq<char>,
    now: u64,
    later: u64,
)
    requires
        command.session_id == Some(id),
        hub.held_by(id, client_of(command, conn.addr)),
        later <= now + HEARTBEAT_TIMEOUT,
    ensures
        ping_outcome(hub, conn, command, now).step == saying(
            ServerMessage::Pong { session_id: Some(id) },
        ),
        ({
            let sessions = ping_outcome(hub, conn, command, now).hub.sessions;
            survivors(sessions, later).contains_key(id) && survivors(sessions, later)[id]
                == sessions[id]
        }),
{
}

/// Silence ends a recording: one whose holder has a name of its own and sent no heartbeat within
/// the time for it is taken out by the next sweep, and the phone is free.
pub proof fn silence_ends_a_recording(hub: Hub, id: Seq<char>, now: u64)
    requires
        hub.sound(),
        hub.sessions.contains_key(id),
        hub.sessions[id].phase == SessionPhase::Recording,
        !hub.sessions[id].legacy_owner,
        now > hub.sessions[id].last_heartbeat + HEARTBEAT_TIMEOUT,
    ensures
        hub.sessions[id].expired(now),
        (Hub { sessions: survivors(hub.sessions, now), ..hub }).current() is None,
{
}

/// Silence is noticed in time: once the time for a heartbeat and one interval of the sweeper have
/// passed, a sweep is due again since the last one that spared the recording, and takes it out.
pub proof fn silence_is_noticed_in_time(hub: Hub, id: Seq<char>, swept: u64, now: u64)
    requires
        hub.sessions.contains_key(id),
        hub.sessions[id].phase == SessionPhase::Recording,
        !hub.sessions[id].legacy_owner,
        !hub.sessions[id].expired(swept),
        now > hub.sessions[id].last_heartbeat + HEARTBEAT_TIMEOUT + SWEEP_INTERVAL,
    ensures
        left(swept, SWEEP_INTERVAL, now) == 0,
        !survivors(hub.sessions, now).contains_key(id),
{
}

/// A sweep takes out recordings alone: a session that is winding up, and one of a client without a
/// name of its own, stays as it is whenever the sweep comes.
pub proof fn sweeping_spares_the_others(hub: Hub, id: Seq<char>, now: u64)
    requires
        hub.sessions.contains_key(id),
        hub.sessions[id].phase != SessionPhase::Recording || hub.sessions[id].legacy_owner,
    ensures
        survivors(hub.sessions, now).contains_key(id),
        survivors(hub.sessions, now)[id] == hub.sessions[id],
{
}

/// A session that was just opened is its opener's, records, and is not swept before its first
/// heartbeat is overdue.
pub proof fn an_opened_session_is_its_openers(
    session_id: Seq<char>,
    conn: Connection<Seq<char>>,
    command: ClientCommand<Seq<char>>,
    previous_first_id: Option<Seq<char>>,
    now: u64,
    later: u64,
)
    requires
        later <= now + HEARTBEAT_TIMEOUT,
    ensures
        opened(session_id, conn, command, previous_first_id, now).owner_client_id == client_of(
            command,
            conn.addr,
        ),
        opened(session_id, conn, command, previous_first_id, now).phase == SessionPhase::Recording,
        !opened(session_id, conn, command, previous_first_id, now).expired(later),
{
}

/// A connection that ends frees the phone: the session it had opened is gone, and the dictation is
/// cancelled if it still records. The session that another connection opened is left alone.
pub proof fn a_lost_connection_frees_the_phone(hub: Hub, conn: Connection<Seq<char>>)
    requires
        hub.sound(),
        conn.session is Some,
        hub.sessions.contains_key(conn.session->0.session_id),
    ensures
        hub.sessions[conn.session->0.session_id].owner_addr == conn.addr ==> hub.closed(
            conn,
        ).current() is None,
        closing_cancels(hub, conn) <==> (hub.sessions[conn.session->0.session_id].owner_addr
            == conn.addr && hub.sessions[conn.session->0.session_id].phase
            == SessionPhase::Recording),
        hub.sessions[conn.session->0.session_id].owner_addr != conn.addr ==> hub.closed(
            conn,
        ).sessions == hub.sessions,
        hub.closed(conn).sound(),
{
}

/// A result is acknowledged once: a second acknowledgement finds nothing that waits for it.
pub proof fn a_result_is_acknowledged_once(
    hub: Hub,
    conn: Connection<Seq<char>>,
    command: ClientCommand<Seq<char>>,
)
    requires
        command.result_id is Some,
    ensures
        ack_outcome(ack_outcome(hub, conn, command).hub, conn, command).step == refusing(
            ErrorCode::NoPendingResult,
            "没有匹配的待确认结果"@,
        ),
{
    let client = client_of(command, conn.addr);
    let after = all_acknowledged(hub.sessions, client, command.result_id->0);
    assert forall|id: Seq<char>| #[trigger] after.contains_key(id) implies !after[id].awaits(
        client,
        command.result_id->0,
    ) by {}
}

/// How often a result is sent in all, if it was sent `sent` times and the waits for its
/// acknowledgement end like this.
pub open spec fn sends_in_all(sent: nat, waits: Seq<AckOutcome>) -> nat
    decreases waits.len(),
{
    match step_after_send(sent) {
        DeliveryStep::AwaitAck(_) => if waits.len() > 0 && step_after_wait(waits.first())
            == DeliveryStep::Send {
            sends_in_all(sent + 1, waits.drop_first())
        } else {
            sent
        },
        _ => sent,
    }
}

/// A result is sent twice at most, and twice only where the first wait for its acknowledgement ran
/// out of time.
pub proof fn a_result_is_sent_twice_at_most(waits: Seq<AckOutcome>)
    ensures
        sends_in_all(1, waits) <= MAX_RESULT_SENDS,
        sends_in_all(1, waits) == 2 <==> (waits.len() > 0 && waits.first() == AckOutcome::TimedOut),
{
    reveal_with_fuel(sends_in_all, 3);
}

} // verus!
