//! What the phone does for its clients, command by command: what each answers, what it changes, and
//! what it leaves as it is.

use vstd::prelude::*;

use crate::protocol::{ClientCommand, ErrorCode, Incoming, Reply, ServerMessage};
use crate::registry::{
    all_acknowledged, awaited, expiry_of, survivors, tells_expired, Expired, PendingResult,
    SessionPhase, SessionRecord, Sessions,
};
use crate::server::{
    ack_of, ack_of_reply, ack_outcome, cancel_outcome, client_of, closing_cancels, command_outcome,
    delivery_for, ended_with, hello_step, live_session, names, names_ended, opened, ping_outcome,
    poll_of, refusing, saying, start_outcome, status_step, step_after_send, step_after_wait,
    stop_outcome, AckOutcome, AckStep, ActiveSession, Answer, Connection, Delivery, DeliveryStep,
    FinishedSession, Hub, Outcome, ResultPoll, ServerStep,
};
use crate::text::{blank, decimal};

verus! {

/// The step of sending this and doing nothing else.
pub open spec fn only_says(step: ServerStep<Seq<char>>, message: ServerMessage<Seq<char>>) -> bool {
    step matches ServerStep::Reply(answer) && !answer.cancel_dictation && !answer.leave_capture
        && answer.message == message
}

/// To say something is to do nothing else, and to refuse is to say an error.
pub proof fn saying_does_nothing_else(
    message: ServerMessage<Seq<char>>,
    code: ErrorCode,
    words: Seq<char>,
)
    ensures
        only_says(saying(message), message),
        only_says(refusing(code, words), ServerMessage::Error { code, message: words }),
        ended_with(code, words) == (Answer {
            cancel_dictation: false,
            leave_capture: true,
            message: ServerMessage::Error { code, message: words },
        }),
{
}

/// A hub holds its session under the session's own identifier: the one there is is the current one,
/// and without any there is none.
pub proof fn the_current_session_is_the_one_there_is(hub: Hub, id: Seq<char>, client: Seq<char>)
    requires
        hub.sound(),
    ensures
        hub.sessions.contains_key(id) ==> hub.current() == Some(hub.sessions[id])
            && hub.sessions[id].session_id == id && id.len() > 0 && hub.starting is None,
        (forall|other: Seq<char>| !#[trigger] hub.sessions.contains_key(other)) ==> hub.current()
            is None,
        hub.sessions.contains_key(id) ==> hub.session(id) == Some(hub.sessions[id]),
        !hub.sessions.contains_key(id) ==> hub.session(id) is None,
        hub.held_by(id, client) <==> hub.sessions.contains_key(id)
            && hub.sessions[id].owner_client_id == client,
        hub.sessions.contains_key(id) && hub.sessions[id].result is Some ==> hub.sessions[id].phase
            == SessionPhase::ResultPending,
{
}

/// Putting a session into a hub, or taking one out, touches no other.
pub proof fn hubs_change_in_one_place(
    hub: Hub,
    record: SessionRecord<Seq<char>>,
    other: Seq<char>,
)
    ensures
        hub.with(record).session(record.session_id) == Some(record),
        hub.with(record).starting == hub.starting,
        hub.without(record.session_id).session(record.session_id) is None,
        hub.without(record.session_id).starting == hub.starting,
        other != record.session_id ==> hub.with(record).session(other) == hub.session(other)
            && hub.without(record.session_id).session(other) == hub.session(other),
{
}

/// A client goes by the name it gives, from wherever it comes; one that gives none goes by its
/// address, and two of those are told apart by their addresses.
pub proof fn clients_are_told_apart(
    command: ClientCommand<Seq<char>>,
    other: ClientCommand<Seq<char>>,
    a: Seq<char>,
    b: Seq<char>,
)
    ensures
        command.client_id is Some ==> client_of(command, a) == command.client_id->0,
        command.client_id is None ==> client_of(command, a) == "legacy:"@ + a,
        command.client_id is None && other.client_id is None && client_of(command, a) == client_of(
            other,
            b,
        ) ==> a == b,
{
    let left = "legacy:"@ + a;
    let right = "legacy:"@ + b;
    let n = "legacy:"@.len() as int;
    assert(left.skip(n) =~= a);
    assert(right.skip(n) =~= b);
}

/// Each kind of command does what its name says; none does what another is for, and one that is
/// unknown is refused by its name and changes nothing.
pub proof fn commands_do_what_they_are_for(
    hub: Hub,
    conn: Connection<Seq<char>>,
    command: ClientCommand<Seq<char>>,
    now: u64,
)
    ensures
        ({
            let outcome = command_outcome(hub, conn, command, now);
            let kind = command.kind;
            &&& kind == "start"@ ==> outcome == start_outcome(hub, conn, command)
            &&& kind == "stop"@ ==> outcome == stop_outcome(hub, conn, command)
            &&& kind == "cancel"@ ==> outcome == cancel_outcome(hub, conn, command)
            &&& kind == "ping"@ ==> outcome == ping_outcome(hub, conn, command, now)
            &&& kind == "ack"@ ==> outcome == ack_outcome(hub, conn, command)
            &&& kind == "hello"@ ==> outcome == (Outcome { hub, conn, step: hello_step(command) })
            &&& kind == "status"@ ==> outcome == (Outcome { hub, conn, step: status_step(hub) })
            &&& kind != "start"@ && kind != "stop"@ && kind != "cancel"@ && kind != "ping"@ && kind
                != "ack"@ && kind != "hello"@ && kind != "status"@ ==> {
                &&& outcome.hub == hub
                &&& outcome.conn == conn
                &&& only_says(
                    outcome.step,
                    ServerMessage::Error {
                        code: ErrorCode::UnknownCommand,
                        message: "unknown command: "@ + kind,
                    },
                )
            }
        }),
{
    reveal_strlit("hello");
    reveal_strlit("start");
    reveal_strlit("stop");
    reveal_strlit("cancel");
    reveal_strlit("ping");
    reveal_strlit("status");
    reveal_strlit("ack");
    assert("hello"@.len() == 5 && "start"@.len() == 5 && "stop"@.len() == 4);
    assert("cancel"@.len() == 6 && "ping"@.len() == 4 && "status"@.len() == 6 && "ack"@.len() == 3);
    assert("hello"@[0] == 'h' && "start"@[0] == 's' && "stop"@[0] == 's' && "ping"@[0] == 'p');
    assert("cancel"@[0] == 'c' && "status"@[0] == 's');
}

/// A dictation is begun, ended and cancelled by `start`, `stop` and `cancel` alone, and the session
/// of a client that sends anything else keeps its holder and its phase.
pub proof fn other_commands_leave_the_dictation(
    hub: Hub,
    conn: Connection<Seq<char>>,
    command: ClientCommand<Seq<char>>,
    now: u64,
    id: Seq<char>,
)
    requires
        hub.sound(),
        command.kind != "start"@,
        command.kind != "stop"@,
        command.kind != "cancel"@,
    ensures
        ({
            let outcome = command_outcome(hub, conn, command, now);
            &&& outcome.step matches ServerStep::Reply(answer) && !answer.cancel_dictation
                && !answer.leave_capture
            &&& outcome.conn == conn
            &&& outcome.hub.starting == hub.starting
            &&& outcome.hub.sessions.contains_key(id) <==> hub.sessions.contains_key(id)
            &&& hub.sessions.contains_key(id) ==> {
                let before = hub.sessions[id];
                let after = outcome.hub.sessions[id];
                &&& after.session_id == before.session_id
                &&& after.owner_client_id == before.owner_client_id
                &&& after.legacy_owner == before.legacy_owner
                &&& after.owner_addr == before.owner_addr
                &&& after.connection == before.connection
                &&& after.previous_first_id == before.previous_first_id
                &&& after.translation == before.translation
                &&& after.phase == before.phase
            }
        }),
{
}

/// A client is welcome unless it states a version above that of the phone, and is told both then.
pub proof fn who_is_welcome(command: ClientCommand<Seq<char>>)
    ensures
        command.protocol_version is None ==> only_says(hello_step(command), ServerMessage::HelloOk),
        command.protocol_version is Some && command.protocol_version->0 <= 2 ==> only_says(
            hello_step(command),
            ServerMessage::HelloOk,
        ),
        command.protocol_version is Some && command.protocol_version->0 > 2 ==> only_says(
            hello_step(command),
            ServerMessage::Error {
                code: ErrorCode::ProtocolMismatch,
                message: "客户端协议 v"@ + decimal(command.protocol_version->0 as nat)
                    + " 高于服务端 v"@ + decimal(2) + "，请升级手机端"@,
            },
        ),
{
}

/// When a `start` does what. A dictation begins, with or without translation as the command asks,
/// exactly where the phone has no session and none is being started. It waits exactly where another
/// start is under way. Everything else is answered and begins nothing.
pub proof fn when_a_start_does_what(
    hub: Hub,
    conn: Connection<Seq<char>>,
    command: ClientCommand<Seq<char>>,
)
    requires
        hub.sound(),
    ensures
        ({
            let outcome = start_outcome(hub, conn, command);
            let free = forall|id: Seq<char>| !#[trigger] hub.sessions.contains_key(id);
            &&& outcome.step is BeginDictation <==> free && hub.starting is None
            &&& outcome.step matches ServerStep::BeginDictation { translation } ==> {
                &&& translation == command.translation
                &&& outcome.hub.starting == Some(conn.id)
                &&& outcome.conn.session is None
            }
            &&& outcome.step is AwaitStart <==> hub.starting is Some
            &&& outcome.step !is BeginDictation ==> outcome.hub == hub
            &&& outcome.step !is EndDictation
            &&& outcome.hub.sessions == hub.sessions
            &&& outcome.conn.id == conn.id && outcome.conn.addr == conn.addr && outcome.conn.ended
                == conn.ended
        }),
{
    if exists|id: Seq<char>| #[trigger] hub.sessions.contains_key(id) {
        let id = choose|id: Seq<char>| #[trigger] hub.sessions.contains_key(id);
        assert(hub.current() == Some(hub.sessions[id]));
    }
}

/// What a `start` answers while there is a session: its holder, and a connection that has it, get it
/// again as it is, with its identifier and its translation; everyone else is told who holds it.
pub proof fn what_a_start_answers(
    hub: Hub,
    conn: Connection<Seq<char>>,
    command: ClientCommand<Seq<char>>,
    id: Seq<char>,
)
    requires
        hub.sound(),
        hub.sessions.contains_key(id),
    ensures
        ({
            let outcome = start_outcome(hub, conn, command);
            let record = hub.sessions[id];
            let here = conn.session is Some && conn.session->0.session_id == id;
            let mine = record.owner_client_id == client_of(command, conn.addr);
            &&& here || mine ==> only_says(
                outcome.step,
                ServerMessage::Started { session_id: id, already_active: true },
            )
            &&& here ==> outcome.conn == conn
            &&& !here && mine ==> outcome.conn.session == Some(
                ActiveSession {
                    session_id: id,
                    previous_first_id: record.previous_first_id,
                    translation: record.translation,
                },
            )
            &&& !here && !mine ==> outcome.conn.session is None && only_says(
                outcome.step,
                ServerMessage::Blocked {
                    message: "另一个桌面客户端正在使用当前会话"@,
                    owner_client_id: record.owner_client_id,
                    session_id: id,
                },
            )
        }),
{
    assert(hub.current() == Some(hub.sessions[id]));
}

/// What is known of a session that was opened is what its start said, and when and where.
pub proof fn an_opened_session_is_as_it_was_asked_for(
    session_id: Seq<char>,
    conn: Connection<Seq<char>>,
    command: ClientCommand<Seq<char>>,
    previous: Option<Seq<char>>,
    now: u64,
)
    ensures
        ({
            let record = opened(session_id, conn, command, previous, now);
            &&& record.session_id == session_id
            &&& record.owner_client_id == client_of(command, conn.addr)
            &&& record.owner_addr == conn.addr
            &&& record.connection == conn.id
            &&& record.previous_first_id == previous
            &&& record.translation == command.translation
            &&& record.last_heartbeat == now
            &&& record.phase == SessionPhase::Recording
            &&& record.result is None
            &&& record.legacy_owner <==> command.client_id is None
        }),
{
}

/// Who has to send heartbeats: a session that was opened by a client with a name, whatever else its
/// start says, is over at every time later than three seconds after its opening, if no heartbeat
/// came; the next sweep takes it out and tells of it, and the phone is free. One that was opened by a
/// client without a name is never over for that.
pub proof fn whoever_has_a_name_sends_heartbeats(
    session_id: Seq<char>,
    conn: Connection<Seq<char>>,
    command: ClientCommand<Seq<char>>,
    previous: Option<Seq<char>>,
    opening: u64,
    now: u64,
    told: Seq<Expired<String>>,
)
    requires
        ({
            let sessions: Sessions = Map::empty().insert(
                session_id,
                opened(session_id, conn, command, previous, opening),
            );
            tells_expired(told, sessions, now)
        }),
    ensures
        ({
            let sessions: Sessions = Map::empty().insert(
                session_id,
                opened(session_id, conn, command, previous, opening),
            );
            let late = now > opening + 3_000_000_000;
            &&& command.client_id is Some && late ==> {
                &&& !survivors(sessions, now).contains_key(session_id)
                &&& exists|i: int|
                    0 <= i < told.len() && (#[trigger] told[i])@.session_id == session_id
                &&& forall|other: Seq<char>| !#[trigger] survivors(sessions, now).contains_key(other)
            }
            &&& command.client_id is None || !late ==> {
                &&& survivors(sessions, now) == sessions
                &&& told.len() == 0
            }
        }),
{
    let record = opened(session_id, conn, command, previous, opening);
    let sessions: Sessions = Map::empty().insert(session_id, record);
    if command.client_id is Some && now > opening + 3_000_000_000 {
        assert(record.expired(now));
        assert(sessions.contains_key(session_id) && sessions[session_id].expired(now));
    } else {
        assert(!record.expired(now));
        assert(survivors(sessions, now) =~= sessions);
        if told.len() > 0 {
            let id = told[0]@.session_id;
            assert(sessions.contains_key(id) && sessions[id].expired(now));
        }
    }
}

/// When a session is over for want of heartbeats: exactly where it records, its holder has a name,
/// and the last heartbeat is more than three seconds ago.
pub proof fn when_a_session_is_over(record: SessionRecord<Seq<char>>, now: u64)
    ensures
        record.expired(now) <==> record.phase == SessionPhase::Recording && !record.legacy_owner
            && now > record.last_heartbeat + 3_000_000_000,
{
}

/// A sweep takes out what is over, tells of each with its holder and its connection, and leaves
/// everything else as it was.
pub proof fn a_sweep_takes_out_what_is_over(
    sessions: Sessions,
    told: Seq<Expired<String>>,
    now: u64,
    id: Seq<char>,
    i: int,
)
    requires
        tells_expired(told, sessions, now),
    ensures
        survivors(sessions, now).contains_key(id) <==> sessions.contains_key(id)
            && !sessions[id].expired(now),
        survivors(sessions, now).contains_key(id) ==> survivors(sessions, now)[id] == sessions[id],
        sessions.contains_key(id) && sessions[id].expired(now) ==> exists|k: int|
            0 <= k < told.len() && (#[trigger] told[k])@ == (Expired {
                session_id: told[k]@.session_id,
                owner_client_id: sessions[id].owner_client_id,
                connection: sessions[id].connection,
            }) && told[k]@.session_id == id,
        0 <= i < told.len() ==> sessions.contains_key(told[i]@.session_id)
            && sessions[told[i]@.session_id].expired(now),
{
    if sessions.contains_key(id) && sessions[id].expired(now) {
        let k = choose|k: int| 0 <= k < told.len() && (#[trigger] told[k])@.session_id == id;
        assert(told[k]@ == expiry_of(sessions[id]));
    }
}

/// When a `stop` is refused, and how: a connection without a session has none to stop, a session
/// that is not named is not found, and one that another client holds is blocked. Nothing changes.
pub proof fn when_a_stop_is_refused(
    hub: Hub,
    conn: Connection<Seq<char>>,
    command: ClientCommand<Seq<char>>,
)
    ensures
        ({
            let outcome = stop_outcome(hub, conn, command);
            let client = client_of(command, conn.addr);
            &&& conn.session is None && conn.ended is None ==> only_says(
                outcome.step,
                ServerMessage::Error {
                    code: ErrorCode::NoSession,
                    message: "手机端没有正在进行的会话"@,
                },
            )
            &&& conn.session is Some && command.session_id is Some
                && command.session_id != Some(conn.session->0.session_id) ==> only_says(
                outcome.step,
                ServerMessage::Error {
                    code: ErrorCode::NoSession,
                    message: "sessionId 不匹配，手机端没有该会话"@,
                },
            )
            &&& conn.session is Some && command.client_id is Some
                && command.session_id is None ==> only_says(
                outcome.step,
                ServerMessage::Error {
                    code: ErrorCode::NoSession,
                    message: "sessionId 不匹配，手机端没有该会话"@,
                },
            )
            &&& conn.session is Some && command.session_id == Some(conn.session->0.session_id)
                && !hub.held_by(conn.session->0.session_id, client) ==> only_says(
                outcome.step,
                ServerMessage::Error {
                    code: ErrorCode::SessionBlocked,
                    message: "只有持有会话的客户端才能停止"@,
                },
            )
            &&& outcome.conn == conn
            &&& outcome.step !is EndDictation ==> outcome.hub == hub && outcome.step is Reply
        }),
{
}

/// What a `stop` that comes late is answered: the holder's, by which the session is named, is told
/// that the session is stopped already, in every phase but the first and after its end, and changes
/// nothing.
pub proof fn what_a_late_stop_is_answered(
    hub: Hub,
    conn: Connection<Seq<char>>,
    command: ClientCommand<Seq<char>>,
    id: Seq<char>,
)
    requires
        command.session_id == Some(id) || (command.client_id is None && command.session_id is None),
    ensures
        ({
            let outcome = stop_outcome(hub, conn, command);
            let client = client_of(command, conn.addr);
            let late = conn.session is Some && conn.session->0.session_id == id
                && hub.sessions.contains_key(id) && hub.sessions[id].owner_client_id == client
                && hub.sessions[id].phase != SessionPhase::Recording;
            let over = conn.session is None && conn.ended is Some && conn.ended->0.session_id == id
                && conn.ended->0.owner_client_id == client;
            late || over ==> outcome.hub == hub && outcome.conn == conn && only_says(
                outcome.step,
                ServerMessage::Stopped { session_id: id, already_stopped: true },
            )
        }),
{
}

/// What a `stop` does that ends the dictation: it is ended with translation exactly where the
/// session has it, and of all that the hub knows nothing changes but that this session is being
/// stopped.
pub proof fn what_a_stop_does(
    hub: Hub,
    conn: Connection<Seq<char>>,
    command: ClientCommand<Seq<char>>,
    other: Seq<char>,
)
    requires
        hub.sound(),
        stop_outcome(hub, conn, command).step is EndDictation,
    ensures
        ({
            let outcome = stop_outcome(hub, conn, command);
            let id = conn.session->0.session_id;
            &&& conn.session is Some
            &&& outcome.step matches ServerStep::EndDictation { translation } && translation
                == conn.session->0.translation
            &&& outcome.hub.session(id) == Some(
                SessionRecord { phase: SessionPhase::Stopping, ..hub.sessions[id] },
            )
            &&& other != id ==> outcome.hub.session(other) == hub.session(other)
            &&& outcome.hub.starting == hub.starting
            &&& outcome.conn == conn
        }),
{
}

/// A dictation is ended as it was begun: where a `start` asked for translation, the `stop` of the
/// session that it opened ends the dictation with translation, and otherwise without, whatever the
/// `stop` says of it; and so it is on a connection that took the session up later.
pub proof fn a_dictation_ends_as_it_began(
    conn: Connection<Seq<char>>,
    start: ClientCommand<Seq<char>>,
    session_id: Seq<char>,
    previous: Option<Seq<char>>,
    now: u64,
    stop: ClientCommand<Seq<char>>,
    later: Connection<Seq<char>>,
    again: ClientCommand<Seq<char>>,
)
    requires
        session_id.len() > 0,
        stop.session_id == Some(session_id),
        client_of(stop, conn.addr) == client_of(start, conn.addr),
        later.session is None,
        client_of(again, later.addr) == client_of(start, conn.addr),
        client_of(stop, later.addr) == client_of(start, conn.addr),
    ensures
        ({
            let hub = Hub {
                sessions: Map::empty().insert(
                    session_id,
                    opened(session_id, conn, start, previous, now),
                ),
                starting: None,
            };
            let there = Connection {
                session: Some(
                    ActiveSession {
                        session_id,
                        previous_first_id: previous,
                        translation: start.translation,
                    },
                ),
                ..conn
            };
            let taken_up = start_outcome(hub, later, again).conn;
            &&& stop_outcome(hub, there, stop).step == (ServerStep::<
                Seq<char>,
            >::EndDictation { translation: start.translation })
            &&& stop_outcome(hub, taken_up, stop).step == (ServerStep::<
                Seq<char>,
            >::EndDictation { translation: start.translation })
        }),
{
    let record = opened(session_id, conn, start, previous, now);
    let hub = Hub { sessions: Map::empty().insert(session_id, record), starting: None };
    assert(hub.sessions.contains_key(session_id));
    assert(hub.sound());
    assert(hub.current() == Some(record));
}

/// What a `cancel` does: the holder's takes out the session of the connection and that alone, and
/// cancels the dictation; another's is refused and changes nothing; and where there is no session
/// there is nothing to cancel.
pub proof fn what_a_cancel_does(
    hub: Hub,
    conn: Connection<Seq<char>>,
    command: ClientCommand<Seq<char>>,
    other: Seq<char>,
)
    ensures
        ({
            let outcome = cancel_outcome(hub, conn, command);
            let client = client_of(command, conn.addr);
            &&& conn.session is None ==> outcome.hub == hub && outcome.conn == conn && only_says(
                outcome.step,
                ServerMessage::Cancelled { session_id: None },
            )
            &&& conn.session is Some && !hub.held_by(conn.session->0.session_id, client) ==> {
                &&& outcome.hub == hub
                &&& outcome.conn == conn
                &&& only_says(
                    outcome.step,
                    ServerMessage::Error {
                        code: ErrorCode::SessionBlocked,
                        message: "只有持有会话的客户端才能取消"@,
                    },
                )
            }
            &&& conn.session is Some && hub.held_by(conn.session->0.session_id, client) ==> {
                let id = conn.session->0.session_id;
                &&& outcome.hub.session(id) is None
                &&& other != id ==> outcome.hub.session(other) == hub.session(other)
                &&& outcome.hub.starting == hub.starting
                &&& outcome.conn.session is None
                &&& outcome.conn.id == conn.id && outcome.conn.addr == conn.addr
                    && outcome.conn.ended == conn.ended
                &&& outcome.step matches ServerStep::Reply(answer) && answer.cancel_dictation
                    && answer.leave_capture && answer.message == (ServerMessage::Cancelled {
                    session_id: Some(id),
                })
            }
        }),
{
}

/// What a `ping` does: one that names no session is only answered; the holder's sets the time of the
/// last heartbeat of the session it names, and nothing else; any other is refused.
pub proof fn what_a_ping_does(
    hub: Hub,
    conn: Connection<Seq<char>>,
    command: ClientCommand<Seq<char>>,
    now: u64,
    other: Seq<char>,
)
    requires
        hub.sound(),
    ensures
        ({
            let outcome = ping_outcome(hub, conn, command, now);
            let client = client_of(command, conn.addr);
            &&& outcome.conn == conn
            &&& outcome.hub.starting == hub.starting
            &&& command.session_id is None ==> outcome.hub == hub && only_says(
                outcome.step,
                ServerMessage::Pong { session_id: None },
            )
            &&& command.session_id is Some && hub.held_by(command.session_id->0, client) ==> {
                let id = command.session_id->0;
                &&& only_says(outcome.step, ServerMessage::Pong { session_id: Some(id) })
                &&& outcome.hub.session(id) == Some(
                    SessionRecord { last_heartbeat: now, ..hub.sessions[id] },
                )
                &&& other != id ==> outcome.hub.session(other) == hub.session(other)
            }
            &&& command.session_id is Some && !hub.held_by(command.session_id->0, client) ==> {
                &&& outcome.hub == hub
                &&& only_says(
                    outcome.step,
                    ServerMessage::Error {
                        code: ErrorCode::NoSession,
                        message: "心跳对应的会话不存在或不属于该客户端"@,
                    },
                )
            }
        }),
{
}

/// What `status` tells: the session there is, whether it records or winds up, and who holds it; and
/// that the phone is idle where there is none.
pub proof fn what_status_tells(hub: Hub, id: Seq<char>)
    requires
        hub.sound(),
    ensures
        (forall|other: Seq<char>| !#[trigger] hub.sessions.contains_key(other)) ==> only_says(
            status_step(hub),
            ServerMessage::Status { state: "idle"@, session_id: None, owner_client_id: None },
        ),
        hub.sessions.contains_key(id) && hub.sessions[id].owner_client_id.len() > 0 ==> only_says(
            status_step(hub),
            ServerMessage::Status {
                state: if hub.sessions[id].phase == SessionPhase::Recording {
                    "recording"@
                } else {
                    "transcribing"@
                },
                session_id: Some(id),
                owner_client_id: Some(hub.sessions[id].owner_client_id),
            },
        ),
        hub.sessions.contains_key(id) && hub.sessions[id].owner_client_id.len() == 0 ==> only_says(
            status_step(hub),
            ServerMessage::Status {
                state: if hub.sessions[id].phase == SessionPhase::Recording {
                    "recording"@
                } else {
                    "transcribing"@
                },
                session_id: Some(id),
                owner_client_id: None,
            },
        ),
{
    if hub.sessions.contains_key(id) {
        assert(hub.current() == Some(hub.sessions[id]));
    }
}

/// What an `ack` does: it clears the result with the identifier it names, where a session of this
/// client waits for that, and nothing else of anything.
pub proof fn what_an_ack_does(
    hub: Hub,
    conn: Connection<Seq<char>>,
    command: ClientCommand<Seq<char>>,
    id: Seq<char>,
)
    ensures
        ({
            let outcome = ack_outcome(hub, conn, command);
            let client = client_of(command, conn.addr);
            &&& outcome.conn == conn
            &&& outcome.hub.starting == hub.starting
            &&& command.result_id is None ==> outcome.hub == hub && only_says(
                outcome.step,
                ServerMessage::Error { code: ErrorCode::BadAck, message: "ack 缺少 resultId"@ },
            )
            &&& outcome.hub.sessions.contains_key(id) <==> hub.sessions.contains_key(id)
            &&& hub.sessions.contains_key(id) && command.result_id is Some ==> {
                let before = hub.sessions[id];
                let meant = before.owner_client_id == client && before.result is Some
                    && before.result->0.result_id == command.result_id->0;
                &&& meant ==> outcome.hub.sessions[id] == (SessionRecord { result: None, ..before })
                    && only_says(outcome.step, ServerMessage::AckOk)
                &&& !meant ==> outcome.hub.sessions[id] == before
            }
            &&& command.result_id is Some && (forall|other: Seq<char>| #[trigger]
                hub.sessions.contains_key(other) ==> hub.sessions[other].owner_client_id != client
                    || hub.sessions[other].result is None
                    || hub.sessions[other].result->0.result_id != command.result_id->0) ==> only_says(
                outcome.step,
                ServerMessage::Error {
                    code: ErrorCode::NoPendingResult,
                    message: "没有匹配的待确认结果"@,
                },
            )
        }),
{
    let client = client_of(command, conn.addr);
    if command.result_id is Some {
        let result_id = command.result_id->0;
        if hub.sessions.contains_key(id) && hub.sessions[id].awaits(client, result_id) {
            assert(awaited(hub.sessions, client, result_id));
        }
        assert(all_acknowledged(hub.sessions, client, result_id).contains_key(id)
            <==> hub.sessions.contains_key(id));
    }
}

/// The whole text is delivered: the text that a look at the history gives is the final text of the
/// newest entry, every character of it, and what is begun to be delivered is that text, to the
/// session of the connection, under the identifier it was given, and not sent yet.
pub proof fn the_whole_text_is_delivered(
    newest: Option<FinishedSession<Seq<char>>>,
    previous: Option<Seq<char>>,
    since: u64,
    now: u64,
    conn: Connection<Seq<char>>,
    command: ClientCommand<Seq<char>>,
    text: Seq<char>,
    result_id: Seq<char>,
)
    requires
        conn.session is Some,
    ensures
        poll_of(newest, previous, since, now) matches ResultPoll::Ready(found) ==> newest is Some
            && found == newest->0.final_text,
        ({
            let delivery = delivery_for(conn, command, text, result_id);
            &&& delivery.text == text
            &&& delivery.text.len() == text.len()
            &&& delivery.result_id == result_id
            &&& delivery.session_id == conn.session->0.session_id
            &&& delivery.owner_client_id == client_of(command, conn.addr)
            &&& delivery.sent == 0
        }),
{
}

/// When a look at the history does what: the newest entry is taken exactly where it is another than
/// that of the beginning and holds more than white space; otherwise the look is repeated after 150
/// milliseconds until a minute is over.
pub proof fn when_a_text_is_taken(
    newest: Option<FinishedSession<Seq<char>>>,
    previous: Option<Seq<char>>,
    since: u64,
    now: u64,
)
    ensures
        ({
            let poll = poll_of(newest, previous, since, now);
            let there = newest is Some && previous != Some(newest->0.id) && !blank(
                newest->0.final_text,
            );
            &&& poll is Ready <==> there
            &&& poll is TimedOut <==> !there && now >= since + 60_000_000_000
            &&& poll matches ResultPoll::Wait(time) ==> time == 150_000_000
        }),
{
}

/// After a delivery a connection has no session and remembers the one that was delivered, with its
/// holder; nothing else of it changes.
pub proof fn a_delivered_session_is_remembered(
    conn: Connection<Seq<char>>,
    delivery: Delivery<Seq<char>>,
)
    ensures
        conn.delivered(delivery).session is None,
        conn.delivered(delivery).ended is Some,
        conn.delivered(delivery).ended->0.session_id == delivery.session_id,
        conn.delivered(delivery).ended->0.owner_client_id == delivery.owner_client_id,
        conn.delivered(delivery).id == conn.id,
        conn.delivered(delivery).addr == conn.addr,
{
}

/// Which commands are about the session that was last stopped: those of its holder that name it, or
/// that give no names at all.
pub proof fn which_commands_mean_an_ended_session(
    conn: Connection<Seq<char>>,
    command: ClientCommand<Seq<char>>,
    id: Seq<char>,
)
    ensures
        names(command, id) <==> command.session_id == Some(id) || (command.client_id is None
            && command.session_id is None),
        names_ended(conn, command) <==> conn.ended is Some && names(
            command,
            conn.ended->0.session_id,
        ) && conn.ended->0.owner_client_id == client_of(command, conn.addr),
{
}

/// A result is sent, then waited for three seconds for its acknowledgement, and sent again only
/// where none came in that time; after the second time it is done with.
pub proof fn how_a_result_is_sent(sent: nat)
    ensures
        sent < 2 ==> step_after_send(sent) == DeliveryStep::AwaitAck(3_000_000_000),
        sent >= 2 ==> step_after_send(sent) == DeliveryStep::Finish,
        step_after_wait(AckOutcome::Acked) == DeliveryStep::Finish,
        step_after_wait(AckOutcome::Failed) == DeliveryStep::Finish,
        step_after_wait(AckOutcome::TimedOut) == DeliveryStep::Send,
{
}

/// What a frame means to one who waits for an acknowledgement: that of this very result ends the
/// wait well, an error ends it badly with its words, and everything else is passed over.
pub proof fn what_is_an_acknowledgement(reply: Reply<Seq<char>>, result_id: Seq<char>, words: Seq<char>)
    ensures
        ack_of_reply(Ok(reply), result_id) is Acked <==> reply.kind == Some("ack"@)
            && reply.result_id == Some(result_id),
        ack_of_reply(Ok(reply), result_id) is Failed <==> reply.kind == Some("error"@),
        ack_of_reply(Ok(reply), result_id) matches AckStep::Failed(error) ==> error == (
        match reply.message {
            Some(message) => message,
            None => "phone error while waiting ack"@,
        }),
        ack_of_reply(Err(words), result_id) == AckStep::Failed("bad ack json: "@ + words),
        ack_of(Incoming::Close, result_id) == AckStep::Failed(
            "connection closed while waiting for ack"@,
        ),
        ack_of(Incoming::Failed(words), result_id) == AckStep::Failed(
            "websocket read while waiting ack: "@ + words,
        ),
        ack_of(Incoming::Other, result_id) == AckStep::<Seq<char>>::Wait,
        ack_of(Incoming::TimedOut, result_id) == AckStep::<Seq<char>>::Wait,
{
    reveal_strlit("ack");
    reveal_strlit("error");
    assert("ack"@.len() == 3 && "error"@.len() == 5);
}

/// What the end of a connection does: it takes out the session that the connection has and that was
/// opened from its address, ends a start of its own, and touches nothing else; and the dictation is
/// cancelled exactly where such a session still records.
pub proof fn what_the_end_of_a_connection_does(
    hub: Hub,
    conn: Connection<Seq<char>>,
    id: Seq<char>,
)
    ensures
        ({
            let own = conn.session is Some && conn.session->0.session_id == id
                && hub.sessions.contains_key(id) && hub.sessions[id].owner_addr == conn.addr;
            &&& own ==> hub.closed(conn).session(id) is None
            &&& !own ==> hub.closed(conn).session(id) == hub.session(id)
            &&& own ==> (closing_cancels(hub, conn) <==> hub.sessions[id].phase
                == SessionPhase::Recording)
            &&& conn.session is None ==> !closing_cancels(hub, conn)
            &&& conn.session is Some && conn.session->0.session_id == id && !own
                ==> !closing_cancels(hub, conn)
            &&& hub.starting == Some(conn.id) ==> hub.closed(conn).starting is None
            &&& hub.starting != Some(conn.id) ==> hub.closed(conn).starting == hub.starting
        }),
{
}

/// The session of a connection is alive exactly where the phone has it.
pub proof fn when_a_session_is_alive(hub: Hub, conn: Connection<Seq<char>>)
    ensures
        live_session(hub, conn) is Some <==> conn.session is Some && hub.sessions.contains_key(
            conn.session->0.session_id,
        ),
        live_session(hub, conn) is Some ==> live_session(hub, conn) == conn.session,
{
}

/// What it takes for a session to wait for an acknowledgement.
pub proof fn when_a_session_waits(
    record: SessionRecord<Seq<char>>,
    pending: PendingResult<Seq<char>>,
    client: Seq<char>,
    result_id: Seq<char>,
)
    ensures
        record.awaits(client, result_id) <==> record.owner_client_id == client
            && record.result is Some && record.result->0.result_id == result_id,
        record.awaits(client, result_id) ==> record.acknowledged(client, result_id) == (
        SessionRecord { result: None, ..record }),
        !record.awaits(client, result_id) ==> record.acknowledged(client, result_id) == record,
{
}

} // verus!
