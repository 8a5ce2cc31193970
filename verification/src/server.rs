//! The phone's side of a conversation: what it answers to a command, and what becomes of the
//! session meanwhile.
//!
//! The functions here decide. Whoever calls them reads frames, sends the answers and drives the
//! dictation, and reports back how that went.

use vstd::prelude::*;

use crate::ident::{fresh_id, uuid_text};
use crate::protocol::{
    read_reply, reply_in, reply_view, ClientCommand, ErrorCode, Incoming, Reply, ServerMessage,
    PROTOCOL_VERSION,
};
use crate::registry::{
    all_acknowledged, awaited, keyed, survivors, tells_expired, Expired, PendingResult, Registry,
    SessionPhase, SessionRecord, Sessions, HEARTBEAT_TIMEOUT,
};
use crate::text::{
    blank, decimal, decimal_text, is_blank, is_text, same_text, text_of,
};
use crate::timer::{left, time_left};

verus! {

/// How long the text of a stopped session is waited for, in nanoseconds.
pub const RESULT_TIMEOUT: u64 = 60_000_000_000;

/// How long the acknowledgement of a result is waited for, in nanoseconds.
pub const ACK_WAIT: u64 = 3_000_000_000;

/// The time between two looks for the text of a stopped session, in nanoseconds.
pub const RESULT_POLL_INTERVAL: u64 = 150_000_000;

/// The time between two sweeps for sessions without heartbeats, in nanoseconds.
pub const SWEEP_INTERVAL: u64 = 500_000_000;

/// How often a result is sent at most: once, and once again.
pub const MAX_RESULT_SENDS: u8 = 2;

/// The session that a connection works on.
#[derive(Debug, PartialEq, Eq)]
pub struct ActiveSession<S> {
    pub session_id: S,
    pub previous_first_id: Option<S>,
    pub translation: bool,
}

/// A session that was brought to its end, and who held it.
#[derive(Debug, PartialEq, Eq)]
pub struct EndedSession<S> {
    pub session_id: S,
    pub owner_client_id: S,
}

/// A connection of a client.
#[derive(Debug, PartialEq, Eq)]
pub struct Connection<S> {
    /// Tells the connection from every other.
    pub id: u64,
    /// The address it came from.
    pub addr: S,
    pub session: Option<ActiveSession<S>>,
    /// The session that was last stopped on the connection and whose result was delivered.
    pub ended: Option<EndedSession<S>>,
}

/// What to do for a client: first, in this order, cancel the dictation and leave the capture mode
/// for remote dictation, as far as it is asked for; then send the message.
#[derive(Debug, PartialEq, Eq)]
pub struct Answer<S> {
    pub cancel_dictation: bool,
    pub leave_capture: bool,
    pub message: ServerMessage<S>,
}

/// What a command calls for.
#[derive(Debug, PartialEq, Eq)]
pub enum ServerStep<S> {
    /// Answer, and be done with the command.
    Reply(Answer<S>),
    /// A start of another connection is under way: take the command up again when that has ended.
    AwaitStart,
    /// Begin a dictation, and report how that went with `finish_start`.
    BeginDictation { translation: bool },
    /// End the dictation, and report how that went with `stop_failed`, or deliver the result.
    EndDictation { translation: bool },
}

impl View for ActiveSession<String> {
    type V = ActiveSession<Seq<char>>;

    open spec fn view(&self) -> ActiveSession<Seq<char>> {
        ActiveSession {
            session_id: self.session_id@,
            previous_first_id: text_of(self.previous_first_id),
            translation: self.translation,
        }
    }
}

impl View for EndedSession<String> {
    type V = EndedSession<Seq<char>>;

    open spec fn view(&self) -> EndedSession<Seq<char>> {
        EndedSession {
            session_id: self.session_id@,
            owner_client_id: self.owner_client_id@,
        }
    }
}

impl View for Connection<String> {
    type V = Connection<Seq<char>>;

    open spec fn view(&self) -> Connection<Seq<char>> {
        Connection {
            id: self.id,
            addr: self.addr@,
            session: match self.session {
                Some(session) => Some(session@),
                None => None,
            },
            ended: match self.ended {
                Some(ended) => Some(ended@),
                None => None,
            },
        }
    }
}

impl View for Answer<String> {
    type V = Answer<Seq<char>>;

    open spec fn view(&self) -> Answer<Seq<char>> {
        Answer {
            cancel_dictation: self.cancel_dictation,
            leave_capture: self.leave_capture,
            message: self.message@,
        }
    }
}

impl View for ServerStep<String> {
    type V = ServerStep<Seq<char>>;

    open spec fn view(&self) -> ServerStep<Seq<char>> {
        match self {
            ServerStep::Reply(answer) => ServerStep::Reply(answer@),
            ServerStep::AwaitStart => ServerStep::AwaitStart,
            ServerStep::BeginDictation { translation } => ServerStep::BeginDictation {
                translation: *translation,
            },
            ServerStep::EndDictation { translation } => ServerStep::EndDictation {
                translation: *translation,
            },
        }
    }
}

/// What the connections share: the sessions, and which connection is starting one.
pub struct Hub {
    pub sessions: Sessions,
    pub starting: Option<u64>,
}

/// Whether there is no more than one session.
pub open spec fn exclusive(sessions: Sessions) -> bool {
    forall|a: Seq<char>, b: Seq<char>|
        #[trigger] sessions.contains_key(a) && #[trigger] sessions.contains_key(b) ==> a == b
}

/// Whether what is known of a session fits together.
pub open spec fn fits(record: SessionRecord<Seq<char>>) -> bool {
    &&& record.session_id.len() > 0
    &&& record.result is Some ==> record.phase == SessionPhase::ResultPending
}

impl Hub {
    /// What holds at any time: there is no more than one session, there is none while one is being
    /// started, and what is known of it fits together.
    pub open spec fn sound(self) -> bool {
        &&& keyed(self.sessions)
        &&& exclusive(self.sessions)
        &&& forall|id: Seq<char>| #[trigger]
            self.sessions.contains_key(id) ==> self.starting is None && fits(self.sessions[id])
    }

    /// The session, if there is one.
    pub open spec fn current(self) -> Option<SessionRecord<Seq<char>>> {
        if exists|id: Seq<char>| #[trigger] self.sessions.contains_key(id) {
            let id = choose|id: Seq<char>| #[trigger] self.sessions.contains_key(id);
            Some(self.sessions[id])
        } else {
            None
        }
    }

    /// The session with this identifier, if there is one.
    pub open spec fn session(self, id: Seq<char>) -> Option<SessionRecord<Seq<char>>> {
        if self.sessions.contains_key(id) {
            Some(self.sessions[id])
        } else {
            None
        }
    }

    /// Whether this client holds the session with this identifier.
    pub open spec fn held_by(self, id: Seq<char>, client: Seq<char>) -> bool {
        self.session(id) matches Some(record) && record.owner_client_id == client
    }

    /// With this session in it.
    pub open spec fn with(self, record: SessionRecord<Seq<char>>) -> Hub {
        Hub { sessions: self.sessions.insert(record.session_id, record), ..self }
    }

    /// Without the session with this identifier.
    pub open spec fn without(self, id: Seq<char>) -> Hub {
        Hub { sessions: self.sessions.remove(id), ..self }
    }
}

/// The name by which a client goes: its own, or, where it gives none, its address.
pub open spec fn client_of(command: ClientCommand<Seq<char>>, addr: Seq<char>) -> Seq<char> {
    match command.client_id {
        Some(id) => id,
        None => "legacy:"@ + addr,
    }
}

/// A hub, a connection and a step: what a command leads to.
pub struct Outcome {
    pub hub: Hub,
    pub conn: Connection<Seq<char>>,
    pub step: ServerStep<Seq<char>>,
}

/// The step of sending a message and nothing else.
pub open spec fn saying(message: ServerMessage<Seq<char>>) -> ServerStep<Seq<char>> {
    ServerStep::Reply(Answer { cancel_dictation: false, leave_capture: false, message })
}

/// The step of sending an error and nothing else.
pub open spec fn refusing(code: ErrorCode, message: Seq<char>) -> ServerStep<Seq<char>> {
    saying(ServerMessage::Error { code, message })
}

/// `hello`: a client of a later protocol is refused, any other is welcome.
pub open spec fn hello_step(command: ClientCommand<Seq<char>>) -> ServerStep<Seq<char>> {
    match command.protocol_version {
        Some(version) if version > PROTOCOL_VERSION => refusing(
            ErrorCode::ProtocolMismatch,
            "客户端协议 v"@ + decimal(version as nat) + " 高于服务端 v"@ + decimal(
                PROTOCOL_VERSION as nat,
            ) + "，请升级手机端"@,
        ),
        _ => saying(ServerMessage::HelloOk),
    }
}

/// The session of a connection, as long as the phone has it.
pub open spec fn live_session(hub: Hub, conn: Connection<Seq<char>>) -> Option<
    ActiveSession<Seq<char>>,
> {
    match conn.session {
        Some(active) if hub.session(active.session_id) is Some => Some(active),
        _ => None,
    }
}

/// `start`: a connection that has a session, which the phone has too, keeps it; starts are taken one by one; a client that
/// holds the session gets it again; another client is refused while there is a session; and
/// otherwise a dictation begins.
pub open spec fn start_outcome(
    hub: Hub,
    conn: Connection<Seq<char>>,
    command: ClientCommand<Seq<char>>,
) -> Outcome {
    let client = client_of(command, conn.addr);
    let live = live_session(hub, conn);
    let conn = Connection { session: live, ..conn };
    match (live, hub.starting, hub.current()) {
        (Some(active), _, _) => Outcome {
            hub,
            conn,
            step: saying(
                ServerMessage::Started { session_id: active.session_id, already_active: true },
            ),
        },
        (None, Some(_), _) => Outcome { hub, conn, step: ServerStep::AwaitStart },
        (None, None, Some(record)) => if record.owner_client_id == client {
            Outcome {
                hub,
                conn: Connection {
                    session: Some(
                        ActiveSession {
                            session_id: record.session_id,
                            previous_first_id: record.previous_first_id,
                            translation: record.translation,
                        },
                    ),
                    ..conn
                },
                step: saying(
                    ServerMessage::Started { session_id: record.session_id, already_active: true },
                ),
            }
        } else {
            Outcome {
                hub,
                conn,
                step: saying(
                    ServerMessage::Blocked {
                        message: "另一个桌面客户端正在使用当前会话"@,
                        owner_client_id: record.owner_client_id,
                        session_id: record.session_id,
                    },
                ),
            }
        },
        (None, None, None) => Outcome {
            hub: Hub { starting: Some(conn.id), ..hub },
            conn,
            step: ServerStep::BeginDictation { translation: command.translation },
        },
    }
}

/// Whether a command names this session. A client that gives no name of its own names no session
/// either, and means the one of its connection.
pub open spec fn names(command: ClientCommand<Seq<char>>, session_id: Seq<char>) -> bool {
    command.session_id == Some(session_id) || (command.client_id is None
        && command.session_id is None)
}

/// Whether a command is about the session that was last stopped on the connection, and comes from
/// the one who held it.
pub open spec fn names_ended(
    conn: Connection<Seq<char>>,
    command: ClientCommand<Seq<char>>,
) -> bool {
    conn.ended matches Some(ended) && names(command, ended.session_id) && ended.owner_client_id
        == client_of(command, conn.addr)
}

/// Whether a command is about this session of the connection: it names the session, or it gives no
/// names at all and comes from the client that holds the session.
pub open spec fn means(
    hub: Hub,
    conn: Connection<Seq<char>>,
    command: ClientCommand<Seq<char>>,
    session_id: Seq<char>,
) -> bool {
    ||| command.session_id == Some(session_id)
    ||| names(command, session_id) && hub.held_by(session_id, client_of(command, conn.addr))
}

/// `stop`: it has to name the session of the connection and to come from its holder; a session
/// that is being stopped, or was stopped last, is not stopped again.
pub open spec fn stop_outcome(
    hub: Hub,
    conn: Connection<Seq<char>>,
    command: ClientCommand<Seq<char>>,
) -> Outcome {
    let client = client_of(command, conn.addr);
    match conn.session {
        None => Outcome {
            hub,
            conn,
            step: if names_ended(conn, command) {
                saying(
                    ServerMessage::Stopped {
                        session_id: conn.ended->0.session_id,
                        already_stopped: true,
                    },
                )
            } else {
                refusing(ErrorCode::NoSession, "手机端没有正在进行的会话"@)
            },
        },
        Some(active) => if !means(hub, conn, command, active.session_id) {
            Outcome {
                hub,
                conn,
                step: refusing(ErrorCode::NoSession, "sessionId 不匹配，手机端没有该会话"@),
            }
        } else if !hub.held_by(active.session_id, client) {
            Outcome {
                hub,
                conn,
                step: refusing(ErrorCode::SessionBlocked, "只有持有会话的客户端才能停止"@),
            }
        } else {
            let record = hub.sessions[active.session_id];
            if record.phase != SessionPhase::Recording {
                Outcome {
                    hub,
                    conn,
                    step: saying(
                        ServerMessage::Stopped {
                            session_id: active.session_id,
                            already_stopped: true,
                        },
                    ),
                }
            } else {
                Outcome {
                    hub: hub.with(SessionRecord { phase: SessionPhase::Stopping, ..record }),
                    conn,
                    step: ServerStep::EndDictation { translation: active.translation },
                }
            }
        },
    }
}

/// `cancel`: the holder of the session of the connection gives it up at once; where the connection
/// has none, there is nothing to give up.
pub open spec fn cancel_outcome(
    hub: Hub,
    conn: Connection<Seq<char>>,
    command: ClientCommand<Seq<char>>,
) -> Outcome {
    let client = client_of(command, conn.addr);
    match conn.session {
        None => Outcome {
            hub,
            conn,
            step: saying(ServerMessage::Cancelled { session_id: None }),
        },
        Some(active) => if !hub.held_by(active.session_id, client) {
            Outcome {
                hub,
                conn,
                step: refusing(ErrorCode::SessionBlocked, "只有持有会话的客户端才能取消"@),
            }
        } else {
            Outcome {
                hub: hub.without(active.session_id),
                conn: Connection { session: None, ..conn },
                step: ServerStep::Reply(
                    Answer {
                        cancel_dictation: true,
                        leave_capture: true,
                        message: ServerMessage::Cancelled { session_id: Some(active.session_id) },
                    },
                ),
            }
        },
    }
}

/// `ping`: without a session it asks whether the phone is there; with one it is the heartbeat of
/// the session, and counts if it comes from the holder.
pub open spec fn ping_outcome(
    hub: Hub,
    conn: Connection<Seq<char>>,
    command: ClientCommand<Seq<char>>,
    now: u64,
) -> Outcome {
    match command.session_id {
        None => Outcome { hub, conn, step: saying(ServerMessage::Pong { session_id: None }) },
        Some(id) => if hub.held_by(id, client_of(command, conn.addr)) {
            Outcome {
                hub: Hub {
                    sessions: hub.sessions.insert(
                        id,
                        SessionRecord { last_heartbeat: now, ..hub.sessions[id] },
                    ),
                    ..hub
                },
                conn,
                step: saying(ServerMessage::Pong { session_id: Some(id) }),
            }
        } else {
            Outcome {
                hub,
                conn,
                step: refusing(ErrorCode::NoSession, "心跳对应的会话不存在或不属于该客户端"@),
            }
        },
    }
}

/// A text, or nothing where it is empty.
pub open spec fn unless_empty(s: Seq<char>) -> Option<Seq<char>> {
    if s.len() == 0 {
        None
    } else {
        Some(s)
    }
}

/// `status`: where the session stands and who holds it.
pub open spec fn status_step(hub: Hub) -> ServerStep<Seq<char>> {
    match hub.current() {
        Some(record) => saying(
            ServerMessage::Status {
                state: record.phase.state_text(),
                session_id: unless_empty(record.session_id),
                owner_client_id: unless_empty(record.owner_client_id),
            },
        ),
        None => saying(
            ServerMessage::Status { state: "idle"@, session_id: None, owner_client_id: None },
        ),
    }
}

/// `ack`: the client acknowledges a result, which then no longer waits.
pub open spec fn ack_outcome(
    hub: Hub,
    conn: Connection<Seq<char>>,
    command: ClientCommand<Seq<char>>,
) -> Outcome {
    let client = client_of(command, conn.addr);
    match command.result_id {
        None => Outcome { hub, conn, step: refusing(ErrorCode::BadAck, "ack 缺少 resultId"@) },
        Some(result_id) => Outcome {
            hub: Hub { sessions: all_acknowledged(hub.sessions, client, result_id), ..hub },
            conn,
            step: if awaited(hub.sessions, client, result_id) {
                saying(ServerMessage::AckOk)
            } else {
                refusing(ErrorCode::NoPendingResult, "没有匹配的待确认结果"@)
            },
        },
    }
}

/// What a command leads to.
pub open spec fn command_outcome(
    hub: Hub,
    conn: Connection<Seq<char>>,
    command: ClientCommand<Seq<char>>,
    now: u64,
) -> Outcome {
    if command.kind == "hello"@ {
        Outcome { hub, conn, step: hello_step(command) }
    } else if command.kind == "start"@ {
        start_outcome(hub, conn, command)
    } else if command.kind == "stop"@ {
        stop_outcome(hub, conn, command)
    } else if command.kind == "cancel"@ {
        cancel_outcome(hub, conn, command)
    } else if command.kind == "ping"@ {
        ping_outcome(hub, conn, command, now)
    } else if command.kind == "status"@ {
        Outcome { hub, conn, step: status_step(hub) }
    } else if command.kind == "ack"@ {
        ack_outcome(hub, conn, command)
    } else {
        Outcome {
            hub,
            conn,
            step: refusing(ErrorCode::UnknownCommand, "unknown command: "@ + command.kind),
        }
    }
}

fn say(message: ServerMessage<String>) -> (r: ServerStep<String>)
    ensures
        r@ == saying(message@),
{
    ServerStep::Reply(Answer { cancel_dictation: false, leave_capture: false, message })
}

fn refuse(code: ErrorCode, message: &str) -> (r: ServerStep<String>)
    ensures
        r@ == refusing(code, message@),
{
    say(ServerMessage::Error { code, message: message.to_string() })
}

/// The name by which a client goes: its own, or, where it gives none, its address.
pub fn command_client_id(command: &ClientCommand<String>, addr: &str) -> (r: String)
    ensures
        r@ == client_of(command@, addr@),
{
    match &command.client_id {
        Some(id) => id.clone(),
        None => "legacy:".to_string().concat(addr),
    }
}

fn command_names(command: &ClientCommand<String>, session_id: &str) -> (r: bool)
    ensures
        r == names(command@, session_id@),
{
    is_text(&command.session_id, session_id) || (command.client_id.is_none()
        && command.session_id.is_none())
}

fn stop_without_session(conn: &Connection<String>, command: &ClientCommand<String>) -> (r: ServerStep<
    String,
>)
    requires
        conn.session is None,
    ensures
        forall|hub: Hub|
            #![trigger stop_outcome(hub, conn@, command@)]
            stop_outcome(hub, conn@, command@) == (Outcome { hub, conn: conn@, step: r@ }),
{
    if let Some(ended) = &conn.ended {
        let client: String = command_client_id(command, conn.addr.as_str());
        if command_names(command, ended.session_id.as_str()) && same_text(
            ended.owner_client_id.as_str(),
            client.as_str(),
        ) {
            return say(
                ServerMessage::Stopped {
                    session_id: ended.session_id.clone(),
                    already_stopped: true,
                },
            );
        }
    }
    refuse(ErrorCode::NoSession, "手机端没有正在进行的会话")
}

impl Connection<String> {
    /// A new connection, which has no session yet.
    pub fn new(id: u64, addr: String) -> (r: Self)
        ensures
            r@ == (Connection { id, addr: addr@, session: None, ended: None }),
    {
        Connection { id, addr, session: None, ended: None }
    }
}

/// What the connections share. Its view is the sessions, and which connection is starting one.
pub struct SessionHub {
    registry: Registry,
    starting: Option<u64>,
}

impl View for SessionHub {
    type V = Hub;

    closed spec fn view(&self) -> Hub {
        Hub { sessions: self.registry@, starting: self.starting }
    }
}

proof fn lemma_current(hub: Hub, id: Seq<char>)
    requires
        hub.sound(),
        hub.sessions.contains_key(id),
    ensures
        hub.current() == Some(hub.sessions[id]),
{
}

impl SessionHub {
    /// Whether the hub is in order, and what it holds is sound.
    pub closed spec fn wf(&self) -> bool {
        self.registry.wf() && self@.sound()
    }

    /// A hub in order is sound.
    pub proof fn is_sound(&self)
        requires
            self.wf(),
        ensures
            self@.sound(),
    {
    }

    /// A hub without sessions.
    pub fn new() -> (r: SessionHub)
        ensures
            r.wf(),
            r@ == (Hub { sessions: Map::empty(), starting: None }),
    {
        SessionHub { registry: Registry::new(), starting: None }
    }

    fn hello(&self, command: &ClientCommand<String>) -> (r: ServerStep<String>)
        ensures
            r@ == hello_step(command@),
    {
        if let Some(version) = command.protocol_version {
            if version > PROTOCOL_VERSION {
                let message: String = "客户端协议 v".to_string().concat(
                    decimal_text(version).as_str(),
                ).concat(" 高于服务端 v").concat(decimal_text(PROTOCOL_VERSION).as_str()).concat(
                    "，请升级手机端",
                );
                return refuse(ErrorCode::ProtocolMismatch, message.as_str());
            }
        }
        say(ServerMessage::HelloOk)
    }

    fn drop_dead_session(&self, conn: &mut Connection<String>)
        requires
            self.wf(),
        ensures
            final(conn)@ == (Connection { session: live_session(self@, old(conn)@), ..old(conn)@ }),
    {
        let live: bool = match &conn.session {
            Some(active) => self.registry.get(active.session_id.as_str()).is_some(),
            None => false,
        };
        if !live {
            conn.session = None;
        }
    }

    fn start(&mut self, conn: &mut Connection<String>, command: &ClientCommand<String>) -> (r:
        ServerStep<String>)
        requires
            old(self).wf(),
        ensures
            final(self).wf(),
            (Outcome { hub: final(self)@, conn: final(conn)@, step: r@ }) == start_outcome(
                old(self)@,
                old(conn)@,
                command@,
            ),
    {
        self.drop_dead_session(conn);
        if let Some(active) = &conn.session {
            return say(
                ServerMessage::Started {
                    session_id: active.session_id.clone(),
                    already_active: true,
                },
            );
        }
        if self.starting.is_some() {
            return ServerStep::AwaitStart;
        }
        let client: String = command_client_id(command, conn.addr.as_str());
        if let Some(record) = self.registry.owned_by(client.as_str()) {
            proof {
                lemma_current(self@, record@.session_id);
            }
            conn.session = Some(
                ActiveSession {
                    session_id: record.session_id.clone(),
                    previous_first_id: record.previous_first_id.clone(),
                    translation: record.translation,
                },
            );
            return say(
                ServerMessage::Started {
                    session_id: record.session_id.clone(),
                    already_active: true,
                },
            );
        }
        if let Some(record) = self.registry.first() {
            proof {
                lemma_current(self@, record@.session_id);
            }
            return say(
                ServerMessage::Blocked {
                    message: "另一个桌面客户端正在使用当前会话".to_string(),
                    owner_client_id: record.owner_client_id.clone(),
                    session_id: record.session_id.clone(),
                },
            );
        }
        self.starting = Some(conn.id);
        ServerStep::BeginDictation { translation: command.translation }
    }

    fn holds(&self, id: &str, client: &str) -> (r: bool)
        requires
            self.wf(),
        ensures
            r == self@.held_by(id@, client@),
    {
        match self.registry.get(id) {
            Some(record) => same_text(record.owner_client_id.as_str(), client),
            None => false,
        }
    }

    fn is_recording(&self, id: &str) -> (r: bool)
        requires
            self.wf(),
        ensures
            r == (self@.session(id@) matches Some(record) && record.phase
                == SessionPhase::Recording),
    {
        match self.registry.get(id) {
            Some(record) => record.phase == SessionPhase::Recording,
            None => false,
        }
    }

    fn stop(&mut self, conn: &Connection<String>, command: &ClientCommand<String>) -> (r:
        ServerStep<String>)
        requires
            old(self).wf(),
        ensures
            final(self).wf(),
            (Outcome { hub: final(self)@, conn: conn@, step: r@ }) == stop_outcome(
                old(self)@,
                conn@,
                command@,
            ),
    {
        let active: &ActiveSession<String> = match &conn.session {
            Some(active) => active,
            None => return stop_without_session(conn, command),
        };
        let client: String = command_client_id(command, conn.addr.as_str());
        let held: bool = self.holds(active.session_id.as_str(), client.as_str());
        let meant: bool = is_text(&command.session_id, active.session_id.as_str()) || (
        command_names(command, active.session_id.as_str()) && held);
        if !meant {
            return refuse(ErrorCode::NoSession, "sessionId 不匹配，手机端没有该会话");
        }
        if !held {
            return refuse(ErrorCode::SessionBlocked, "只有持有会话的客户端才能停止");
        }
        if !self.is_recording(active.session_id.as_str()) {
            return say(
                ServerMessage::Stopped {
                    session_id: active.session_id.clone(),
                    already_stopped: true,
                },
            );
        }
        self.registry.mark_stopping(active.session_id.as_str());
        ServerStep::EndDictation { translation: active.translation }
    }

    fn cancel(&mut self, conn: &mut Connection<String>, command: &ClientCommand<String>) -> (r:
        ServerStep<String>)
        requires
            old(self).wf(),
        ensures
            final(self).wf(),
            (Outcome { hub: final(self)@, conn: final(conn)@, step: r@ }) == cancel_outcome(
                old(self)@,
                old(conn)@,
                command@,
            ),
    {
        let session_id: String = match &conn.session {
            Some(active) => active.session_id.clone(),
            None => return say(ServerMessage::Cancelled { session_id: None }),
        };
        let client: String = command_client_id(command, conn.addr.as_str());
        if !self.holds(session_id.as_str(), client.as_str()) {
            return refuse(ErrorCode::SessionBlocked, "只有持有会话的客户端才能取消");
        }
        self.registry.remove(session_id.as_str());
        conn.session = None;
        ServerStep::Reply(
            Answer {
                cancel_dictation: true,
                leave_capture: true,
                message: ServerMessage::Cancelled { session_id: Some(session_id) },
            },
        )
    }

    fn ping(&mut self, conn: &Connection<String>, command: &ClientCommand<String>, now: u64) -> (r:
        ServerStep<String>)
        requires
            old(self).wf(),
        ensures
            final(self).wf(),
            (Outcome { hub: final(self)@, conn: conn@, step: r@ }) == ping_outcome(
                old(self)@,
                conn@,
                command@,
                now,
            ),
    {
        match &command.session_id {
            Some(id) => {
                let client: String = command_client_id(command, conn.addr.as_str());
                if self.registry.heartbeat(id.as_str(), client.as_str(), now) {
                    say(ServerMessage::Pong { session_id: Some(id.clone()) })
                } else {
                    refuse(ErrorCode::NoSession, "心跳对应的会话不存在或不属于该客户端")
                }
            },
            None => say(ServerMessage::Pong { session_id: None }),
        }
    }

    fn status(&self) -> (r: ServerStep<String>)
        requires
            self.wf(),
        ensures
            r@ == status_step(self@),
    {
        match self.registry.first() {
            Some(record) => {
                proof {
                    lemma_current(self@, record@.session_id);
                }
                say(
                    ServerMessage::Status {
                        state: record.phase.state_name().to_string(),
                        session_id: some_unless_empty(&record.session_id),
                        owner_client_id: some_unless_empty(&record.owner_client_id),
                    },
                )
            },
            None => say(
                ServerMessage::Status {
                    state: "idle".to_string(),
                    session_id: None,
                    owner_client_id: None,
                },
            ),
        }
    }

    fn ack(&mut self, conn: &Connection<String>, command: &ClientCommand<String>) -> (r: ServerStep<
        String,
    >)
        requires
            old(self).wf(),
        ensures
            final(self).wf(),
            (Outcome { hub: final(self)@, conn: conn@, step: r@ }) == ack_outcome(
                old(self)@,
                conn@,
                command@,
            ),
    {
        match &command.result_id {
            Some(result_id) => {
                let client: String = command_client_id(command, conn.addr.as_str());
                if self.registry.acknowledge(client.as_str(), result_id.as_str()) {
                    say(ServerMessage::AckOk)
                } else {
                    refuse(ErrorCode::NoPendingResult, "没有匹配的待确认结果")
                }
            },
            None => refuse(ErrorCode::BadAck, "ack 缺少 resultId"),
        }
    }

    /// Takes a command of a connection.
    pub fn handle_command(
        &mut self,
        conn: &mut Connection<String>,
        command: &ClientCommand<String>,
        now: u64,
    ) -> (r: ServerStep<String>)
        requires
            old(self).wf(),
        ensures
            final(self).wf(),
            (Outcome { hub: final(self)@, conn: final(conn)@, step: r@ }) == command_outcome(
                old(self)@,
                old(conn)@,
                command@,
                now,
            ),
            r matches ServerStep::BeginDictation { translation } ==> translation
                == command.translation,
            r matches ServerStep::EndDictation { translation } ==> old(conn).session is Some
                && translation == old(conn).session->0.translation,
    {
        let kind: &str = command.kind.as_str();
        if same_text(kind, "hello") {
            self.hello(command)
        } else if same_text(kind, "start") {
            self.start(conn, command)
        } else if same_text(kind, "stop") {
            self.stop(conn, command)
        } else if same_text(kind, "cancel") {
            self.cancel(conn, command)
        } else if same_text(kind, "ping") {
            self.ping(conn, command, now)
        } else if same_text(kind, "status") {
            self.status()
        } else if same_text(kind, "ack") {
            self.ack(conn, command)
        } else {
            refuse(ErrorCode::UnknownCommand, "unknown command: ".to_string().concat(kind).as_str())
        }
    }
}

fn some_unless_empty(s: &String) -> (r: Option<String>)
    ensures
        text_of(r) == unless_empty(s@),
{
    if s.as_str().is_empty() {
        None
    } else {
        Some(s.clone())
    }
}

/// What becomes of a session that was opened: who holds it, and that it records.
pub open spec fn opened(
    session_id: Seq<char>,
    conn: Connection<Seq<char>>,
    command: ClientCommand<Seq<char>>,
    previous_first_id: Option<Seq<char>>,
    now: u64,
) -> SessionRecord<Seq<char>> {
    SessionRecord {
        session_id,
        owner_client_id: client_of(command, conn.addr),
        legacy_owner: command.client_id is None,
        owner_addr: conn.addr,
        connection: conn.id,
        previous_first_id,
        translation: command.translation,
        last_heartbeat: now,
        phase: SessionPhase::Recording,
        result: None,
    }
}

/// A result on its way to a client.
#[derive(Debug, PartialEq, Eq)]
pub struct Delivery<S> {
    pub session_id: S,
    /// The holder of the session, who stopped it.
    pub owner_client_id: S,
    pub result_id: S,
    pub text: S,
    /// How often it was sent.
    pub sent: u8,
}

impl View for Delivery<String> {
    type V = Delivery<Seq<char>>;

    open spec fn view(&self) -> Delivery<Seq<char>> {
        Delivery {
            session_id: self.session_id@,
            owner_client_id: self.owner_client_id@,
            result_id: self.result_id@,
            text: self.text@,
            sent: self.sent,
        }
    }
}

/// A text on its way to the session of a connection, whose end this command called for.
pub open spec fn delivery_for(
    conn: Connection<Seq<char>>,
    command: ClientCommand<Seq<char>>,
    text: Seq<char>,
    result_id: Seq<char>,
) -> Delivery<Seq<char>> {
    Delivery {
        session_id: conn.session->0.session_id,
        owner_client_id: client_of(command, conn.addr),
        result_id,
        text,
        sent: 0,
    }
}

impl Connection<Seq<char>> {
    /// After a result was delivered: the session is over, and remembered as the one that was
    /// stopped last.
    pub open spec fn delivered(self, delivery: Delivery<Seq<char>>) -> Self {
        Connection {
            session: None,
            ended: Some(
                EndedSession {
                    session_id: delivery.session_id,
                    owner_client_id: delivery.owner_client_id,
                },
            ),
            ..self
        }
    }
}

/// How the wait for the acknowledgement of a result ended.
#[derive(Clone, Copy, Debug, PartialEq, Eq, Structural)]
pub enum AckOutcome {
    Acked,
    Failed,
    TimedOut,
}

/// How a delivery goes on.
#[derive(Clone, Copy, Debug, PartialEq, Eq, Structural)]
pub enum DeliveryStep {
    Send,
    /// Wait for the acknowledgement, for so many nanoseconds.
    AwaitAck(u64),
    Finish,
}

/// After a result was sent: it is waited for, unless it was sent often enough.
pub open spec fn step_after_send(sent: nat) -> DeliveryStep {
    if sent >= MAX_RESULT_SENDS {
        DeliveryStep::Finish
    } else {
        DeliveryStep::AwaitAck(ACK_WAIT)
    }
}

/// After the wait for an acknowledgement: only where it ran out of time the result is sent again.
pub open spec fn step_after_wait(outcome: AckOutcome) -> DeliveryStep {
    match outcome {
        AckOutcome::TimedOut => DeliveryStep::Send,
        _ => DeliveryStep::Finish,
    }
}

impl Delivery<String> {
    /// How the delivery goes on after the result was sent.
    pub fn after_send(&self) -> (r: DeliveryStep)
        ensures
            r == step_after_send(self.sent as nat),
    {
        if self.sent >= MAX_RESULT_SENDS {
            DeliveryStep::Finish
        } else {
            DeliveryStep::AwaitAck(ACK_WAIT)
        }
    }
}

/// How a delivery goes on after the wait for an acknowledgement.
pub fn after_wait(outcome: AckOutcome) -> (r: DeliveryStep)
    ensures
        r == step_after_wait(outcome),
{
    match outcome {
        AckOutcome::Acked => DeliveryStep::Finish,
        AckOutcome::Failed => DeliveryStep::Finish,
        AckOutcome::TimedOut => DeliveryStep::Send,
    }
}

/// Begins to deliver a text to the session of a connection, whose end this command called for, as
/// the result with this identifier.
pub fn delivery_of(
    conn: &Connection<String>,
    command: &ClientCommand<String>,
    text: String,
    result_id: String,
) -> (r: Delivery<String>)
    requires
        conn.session is Some,
    ensures
        r@ == delivery_for(conn@, command@, text@, result_id@),
        r.session_id@ == conn.session->0.session_id@,
        r.result_id@ == result_id@,
        r.text@ == text@,
        r.sent == 0,
{
    let active: &ActiveSession<String> = conn.session.as_ref().unwrap();
    Delivery {
        session_id: active.session_id.clone(),
        owner_client_id: command_client_id(command, conn.addr.as_str()),
        result_id,
        text,
        sent: 0,
    }
}

/// Begins to deliver a text to the session of a connection, whose end this command called for,
/// under a new identifier.
pub fn begin_delivery(conn: &Connection<String>, command: &ClientCommand<String>, text: String) -> (r:
    Delivery<String>)
    requires
        conn.session is Some,
    ensures
        uuid_text(r@.result_id),
        r@ == delivery_for(conn@, command@, text@, r@.result_id),
        r.session_id@ == conn.session->0.session_id@,
        r.text@ == text@,
        r.sent == 0,
{
    delivery_of(conn, command, text, fresh_id())
}

/// What the end of a connection calls for, besides leaving the capture mode.
pub open spec fn closing_cancels(hub: Hub, conn: Connection<Seq<char>>) -> bool {
    match conn.session {
        Some(active) => hub.session(active.session_id) matches Some(record) && record.owner_addr
            == conn.addr && record.phase == SessionPhase::Recording,
        None => false,
    }
}

impl Hub {
    /// After a connection ended: the session it had opened and a start it had under way end too.
    pub open spec fn closed(self, conn: Connection<Seq<char>>) -> Hub {
        Hub {
            sessions: match conn.session {
                Some(active) => if self.session(active.session_id) matches Some(record)
                    && record.owner_addr == conn.addr {
                    self.sessions.remove(active.session_id)
                } else {
                    self.sessions
                },
                None => self.sessions,
            },
            starting: if self.starting == Some(conn.id) {
                None
            } else {
                self.starting
            },
        }
    }
}

/// The answer to a session that ended otherwise than by its holder's wish.
pub open spec fn ended_with(code: ErrorCode, message: Seq<char>) -> Answer<Seq<char>> {
    Answer {
        cancel_dictation: false,
        leave_capture: true,
        message: ServerMessage::Error { code, message },
    }
}

impl SessionHub {
    /// Takes a text frame of a connection: the command it was read as, or the words in which its
    /// reading failed.
    pub fn handle_frame(
        &mut self,
        conn: &mut Connection<String>,
        frame: &Result<ClientCommand<String>, String>,
        now: u64,
    ) -> (r: ServerStep<String>)
        requires
            old(self).wf(),
        ensures
            final(self).wf(),
            match frame {
                Ok(command) => (Outcome { hub: final(self)@, conn: final(conn)@, step: r@ })
                    == command_outcome(old(self)@, old(conn)@, command@, now),
                Err(error) => {
                    &&& final(self)@ == old(self)@
                    &&& final(conn)@ == old(conn)@
                    &&& r@ == refusing(ErrorCode::InvalidCommand, "invalid command: "@ + error@)
                },
            },
    {
        match frame {
            Ok(command) => self.handle_command(conn, command, now),
            Err(error) => refuse(
                ErrorCode::InvalidCommand,
                "invalid command: ".to_string().concat(error.as_str()).as_str(),
            ),
        }
    }

    /// Whether this connection is starting a session.
    pub fn is_starting(&self, conn: &Connection<String>) -> (r: bool)
        ensures
            r == (self@.starting == Some(conn.id)),
    {
        match self.starting {
            Some(id) => id == conn.id,
            None => false,
        }
    }

    /// The dictation that a `start` called for began: opens the session, under this identifier.
    pub fn open_session(
        &mut self,
        conn: &mut Connection<String>,
        command: &ClientCommand<String>,
        previous_first_id: Option<String>,
        session_id: String,
        now: u64,
    ) -> (r: Answer<String>)
        requires
            old(self).wf(),
            old(self)@.starting == Some(old(conn).id),
            session_id@.len() > 0,
        ensures
            final(self).wf(),
            final(self)@ == (Hub {
                sessions: Map::empty().insert(
                    session_id@,
                    opened(session_id@, old(conn)@, command@, text_of(previous_first_id), now),
                ),
                starting: None,
            }),
            final(conn)@ == (Connection {
                session: Some(
                    ActiveSession {
                        session_id: session_id@,
                        previous_first_id: text_of(previous_first_id),
                        translation: command.translation,
                    },
                ),
                ..old(conn)@
            }),
            r@ == (Answer {
                cancel_dictation: false,
                leave_capture: false,
                message: ServerMessage::Started { session_id: session_id@, already_active: false },
            }),
            final(self)@.sessions[session_id@].translation == command.translation,
            forall|later: u64|
                #![trigger final(self)@.sessions[session_id@].expired(later)]
                final(self)@.sessions[session_id@].expired(later) <==> command.client_id is Some
                    && later > now + HEARTBEAT_TIMEOUT,
    {
        assert(self@.sessions =~= Map::empty());
        let record: SessionRecord<String> = SessionRecord {
            session_id: session_id.clone(),
            owner_client_id: command_client_id(command, conn.addr.as_str()),
            legacy_owner: command.client_id.is_none(),
            owner_addr: conn.addr.clone(),
            connection: conn.id,
            previous_first_id: previous_first_id.clone(),
            translation: command.translation,
            last_heartbeat: now,
            phase: SessionPhase::Recording,
            result: None,
        };
        self.registry.insert(record);
        self.starting = None;
        conn.session = Some(
            ActiveSession {
                session_id: session_id.clone(),
                previous_first_id,
                translation: command.translation,
            },
        );
        Answer {
            cancel_dictation: false,
            leave_capture: false,
            message: ServerMessage::Started { session_id, already_active: false },
        }
    }

    /// The dictation that a `start` called for could not begin.
    pub fn start_failed(&mut self, conn: &Connection<String>, error: &str) -> (r: Answer<String>)
        requires
            old(self).wf(),
            old(self)@.starting == Some(conn.id),
        ensures
            final(self).wf(),
            final(self)@ == (Hub { starting: None, ..old(self)@ }),
            r@ == ended_with(ErrorCode::StartFailed, "手机端启动听写失败："@ + error@),
    {
        self.starting = None;
        Answer {
            cancel_dictation: false,
            leave_capture: true,
            message: ServerMessage::Error {
                code: ErrorCode::StartFailed,
                message: "手机端启动听写失败：".to_string().concat(error),
            },
        }
    }

    /// Ends a start: opens the session under a new identifier if the dictation began, and refuses
    /// it otherwise.
    pub fn finish_start(
        &mut self,
        conn: &mut Connection<String>,
        command: &ClientCommand<String>,
        previous_first_id: Option<String>,
        outcome: Result<(), String>,
        now: u64,
    ) -> (r: Answer<String>)
        requires
            old(self).wf(),
            old(self)@.starting == Some(old(conn).id),
        ensures
            final(self).wf(),
            match outcome {
                Ok(_) => {
                    &&& final(conn)@.session matches Some(active)
                    &&& uuid_text(active.session_id)
                    &&& active == (ActiveSession {
                        session_id: active.session_id,
                        previous_first_id: text_of(previous_first_id),
                        translation: command.translation,
                    })
                    &&& final(conn)@ == (Connection { session: Some(active), ..old(conn)@ })
                    &&& final(self)@ == (Hub {
                        sessions: Map::empty().insert(
                            active.session_id,
                            opened(
                                active.session_id,
                                old(conn)@,
                                command@,
                                text_of(previous_first_id),
                                now,
                            ),
                        ),
                        starting: None,
                    })
                    &&& r@ == (Answer {
                        cancel_dictation: false,
                        leave_capture: false,
                        message: ServerMessage::Started {
                            session_id: active.session_id,
                            already_active: false,
                        },
                    })
                },
                Err(error) => {
                    &&& final(conn)@ == old(conn)@
                    &&& final(self)@ == (Hub { starting: None, ..old(self)@ })
                    &&& r@ == ended_with(ErrorCode::StartFailed, "手机端启动听写失败："@ + error@)
                },
            },
    {
        match outcome {
            Ok(_) => self.open_session(conn, command, previous_first_id, fresh_id(), now),
            Err(error) => self.start_failed(conn, error.as_str()),
        }
    }

    fn end_session(&mut self, conn: &mut Connection<String>)
        requires
            old(self).wf(),
        ensures
            final(self).wf(),
            final(self)@ == match old(conn)@.session {
                Some(active) => old(self)@.without(active.session_id),
                None => old(self)@,
            },
            final(conn)@ == (Connection { session: None, ..old(conn)@ }),
    {
        if let Some(active) = &conn.session {
            self.registry.remove(active.session_id.as_str());
        }
        conn.session = None;
    }

    /// The dictation that a `stop` called to an end could not be ended: the session is over.
    pub fn stop_failed(&mut self, conn: &mut Connection<String>, error: &str) -> (r: Answer<String>)
        requires
            old(self).wf(),
            old(conn).session is Some,
        ensures
            final(self).wf(),
            final(self)@ == old(self)@.without(old(conn)@.session->0.session_id),
            final(conn)@ == (Connection { session: None, ..old(conn)@ }),
            r@ == ended_with(ErrorCode::StopFailed, "stop failed: "@ + error@),
    {
        self.end_session(conn);
        Answer {
            cancel_dictation: false,
            leave_capture: true,
            message: ServerMessage::Error {
                code: ErrorCode::StopFailed,
                message: "stop failed: ".to_string().concat(error),
            },
        }
    }

    /// The text of a stopped session did not come in time: the session is over.
    pub fn result_timed_out(&mut self, conn: &mut Connection<String>) -> (r: Answer<String>)
        requires
            old(self).wf(),
            old(conn).session is Some,
        ensures
            final(self).wf(),
            final(self)@ == old(self)@.without(old(conn)@.session->0.session_id),
            final(conn)@ == (Connection { session: None, ..old(conn)@ }),
            r@ == ended_with(ErrorCode::ResultTimeout, "手机端处理超时，未返回听写结果"@),
    {
        self.end_session(conn);
        Answer {
            cancel_dictation: false,
            leave_capture: true,
            message: ServerMessage::Error {
                code: ErrorCode::ResultTimeout,
                message: "手机端处理超时，未返回听写结果".to_string(),
            },
        }
    }

    /// Sends a result, for the first or for another time: it waits to be acknowledged from then on.
    pub fn send_result(&mut self, delivery: &mut Delivery<String>) -> (r: ServerMessage<String>)
        requires
            old(self).wf(),
            old(delivery).sent < MAX_RESULT_SENDS,
        ensures
            final(self).wf(),
            final(self)@ == match old(self)@.session(old(delivery)@.session_id) {
                Some(record) => old(self)@.with(
                    SessionRecord {
                        phase: SessionPhase::ResultPending,
                        result: Some(
                            PendingResult {
                                result_id: old(delivery)@.result_id,
                                text: old(delivery)@.text,
                            },
                        ),
                        ..record
                    },
                ),
                None => old(self)@,
            },
            final(delivery)@ == (Delivery {
                sent: (old(delivery).sent + 1) as u8,
                ..old(delivery)@
            }),
            r@ == (ServerMessage::Result {
                session_id: old(delivery)@.session_id,
                result_id: old(delivery)@.result_id,
                text: old(delivery)@.text,
            }),
            r is Result,
            r->Result_session_id@ == old(delivery).session_id@,
            r->Result_result_id@ == old(delivery).result_id@,
            r->Result_text@ == old(delivery).text@,
            final(delivery).text@ == old(delivery).text@,
            final(delivery).sent == old(delivery).sent + 1,
    {
        self.registry.mark_pending(
            delivery.session_id.as_str(),
            delivery.result_id.as_str(),
            delivery.text.as_str(),
        );
        delivery.sent = delivery.sent + 1;
        ServerMessage::Result {
            session_id: delivery.session_id.clone(),
            result_id: delivery.result_id.clone(),
            text: delivery.text.clone(),
        }
    }

    /// Ends a delivery: the session is over, and the connection remembers it.
    pub fn finish_delivery(&mut self, conn: &mut Connection<String>, delivery: Delivery<String>) -> (r:
        Answer<String>)
        requires
            old(self).wf(),
        ensures
            final(self).wf(),
            final(self)@ == old(self)@.without(delivery@.session_id),
            final(conn)@ == old(conn)@.delivered(delivery@),
            r@ == (Answer {
                cancel_dictation: false,
                leave_capture: true,
                message: ServerMessage::Stopped {
                    session_id: delivery@.session_id,
                    already_stopped: false,
                },
            }),
    {
        self.registry.remove(delivery.session_id.as_str());
        conn.session = None;
        conn.ended = Some(
            EndedSession {
                session_id: delivery.session_id.clone(),
                owner_client_id: delivery.owner_client_id,
            },
        );
        Answer {
            cancel_dictation: false,
            leave_capture: true,
            message: ServerMessage::Stopped {
                session_id: delivery.session_id,
                already_stopped: false,
            },
        }
    }

    /// Takes out the sessions that have gone without a heartbeat for too long. For each of those it
    /// tells of, the dictation is to be cancelled, the capture mode to be left and the connection
    /// to be closed.
    pub fn sweep(&mut self, now: u64) -> (told: Vec<Expired<String>>)
        requires
            old(self).wf(),
        ensures
            final(self).wf(),
            final(self)@ == (Hub { sessions: survivors(old(self)@.sessions, now), ..old(self)@ }),
            tells_expired(told@, old(self)@.sessions, now),
    {
        self.registry.sweep(now)
    }

    /// Sweeps if the time for it has come, and says how long to wait otherwise.
    pub fn sweep_when_due(&mut self, sweeper: &mut Sweeper, now: u64) -> (r: SweepStep)
        requires
            old(self).wf(),
        ensures
            final(self).wf(),
            match r {
                SweepStep::Pause(time) => {
                    &&& time > 0
                    &&& time == left(old(sweeper).since, SWEEP_INTERVAL, now)
                    &&& *final(sweeper) == *old(sweeper)
                    &&& final(self)@ == old(self)@
                },
                SweepStep::Swept(told) => {
                    &&& left(old(sweeper).since, SWEEP_INTERVAL, now) == 0
                    &&& final(sweeper).since == now
                    &&& final(self)@ == (Hub {
                        sessions: survivors(old(self)@.sessions, now),
                        ..old(self)@
                    })
                    &&& tells_expired(told@, old(self)@.sessions, now)
                },
            },
    {
        let time: u64 = time_left(sweeper.since, SWEEP_INTERVAL, now);
        if time > 0 {
            return SweepStep::Pause(time);
        }
        sweeper.since = now;
        SweepStep::Swept(self.sweep(now))
    }

    /// A connection ended, in whichever way. The capture mode is to be left; the result says
    /// whether the dictation is to be cancelled first.
    pub fn close_connection(&mut self, conn: Connection<String>) -> (cancel_dictation: bool)
        requires
            old(self).wf(),
        ensures
            final(self).wf(),
            final(self)@ == old(self)@.closed(conn@),
            cancel_dictation == closing_cancels(old(self)@, conn@),
    {
        if self.is_starting(&conn) {
            self.starting = None;
        }
        match conn.session {
            Some(active) => {
                let (opened_here, recording): (bool, bool) = match self.registry.get(
                    active.session_id.as_str(),
                ) {
                    Some(record) => (
                        same_text(record.owner_addr.as_str(), conn.addr.as_str()),
                        record.phase == SessionPhase::Recording,
                    ),
                    None => (false, false),
                };
                if opened_here {
                    self.registry.remove(active.session_id.as_str());
                }
                opened_here && recording
            },
            None => false,
        }
    }
}

/// When sessions without heartbeats were last swept out, in nanoseconds of a clock that never goes
/// back.
#[derive(Clone, Copy, Debug, PartialEq, Eq, Structural)]
pub struct Sweeper {
    pub since: u64,
}

impl Sweeper {
    /// A sweeper that begins its work.
    pub fn new(now: u64) -> (r: Sweeper)
        ensures
            r.since == now,
    {
        Sweeper { since: now }
    }
}

/// What a sweeper does.
#[derive(Debug, PartialEq, Eq)]
pub enum SweepStep {
    /// Wait for so many nanoseconds.
    Pause(u64),
    /// It swept these out.
    Swept(Vec<Expired<String>>),
}

/// The newest entry of the history of dictations.
#[derive(Debug, PartialEq, Eq)]
pub struct FinishedSession<S> {
    pub id: S,
    pub final_text: S,
}

/// A look at the history for the text of a session.
#[derive(Debug, PartialEq, Eq)]
pub enum ResultPoll<S> {
    Ready(S),
    TimedOut,
    /// Look again after so many nanoseconds.
    Wait(u64),
}

/// What an optional entry of the history holds.
pub open spec fn finished_of(session: Option<FinishedSession<String>>) -> Option<
    FinishedSession<Seq<char>>,
> {
    match session {
        Some(session) => Some(
            FinishedSession { id: session.id@, final_text: session.final_text@ },
        ),
        None => None,
    }
}

impl View for ResultPoll<String> {
    type V = ResultPoll<Seq<char>>;

    open spec fn view(&self) -> ResultPoll<Seq<char>> {
        match self {
            ResultPoll::Ready(text) => ResultPoll::Ready(text@),
            ResultPoll::TimedOut => ResultPoll::TimedOut,
            ResultPoll::Wait(time) => ResultPoll::Wait(*time),
        }
    }
}

/// Whether an entry of the history is the result of a session: it is not the one that was newest
/// when the session was opened, and it holds more than white space.
pub open spec fn is_result(
    entry: FinishedSession<Seq<char>>,
    previous_first_id: Option<Seq<char>>,
) -> bool {
    previous_first_id != Some(entry.id) && !blank(entry.final_text)
}

/// A look at the history, begun at one time and taken at another: the result is there, or the time
/// for it is over, or it is still to come.
pub open spec fn poll_of(
    newest: Option<FinishedSession<Seq<char>>>,
    previous_first_id: Option<Seq<char>>,
    since: u64,
    now: u64,
) -> ResultPoll<Seq<char>> {
    if newest matches Some(entry) && is_result(entry, previous_first_id) {
        ResultPoll::Ready(newest->0.final_text)
    } else if now - since >= RESULT_TIMEOUT {
        ResultPoll::TimedOut
    } else {
        ResultPoll::Wait(RESULT_POLL_INTERVAL)
    }
}

/// Looks whether the newest entry of the history is the result of a session whose end was called
/// for at `since`.
pub fn poll_result(
    newest: Option<FinishedSession<String>>,
    previous_first_id: &Option<String>,
    since: u64,
    now: u64,
) -> (r: ResultPoll<String>)
    ensures
        r@ == poll_of(finished_of(newest), text_of(*previous_first_id), since, now),
        r matches ResultPoll::Ready(text) ==> newest is Some && text@ == newest->0.final_text@,
{
    if let Some(session) = newest {
        if !is_text(previous_first_id, session.id.as_str()) && !is_blank(
            session.final_text.as_str(),
        ) {
            return ResultPoll::Ready(session.final_text);
        }
    }
    if now.saturating_sub(since) >= RESULT_TIMEOUT {
        ResultPoll::TimedOut
    } else {
        ResultPoll::Wait(RESULT_POLL_INTERVAL)
    }
}

/// What a frame means to one who waits for the acknowledgement of a result.
#[derive(Debug, PartialEq, Eq)]
pub enum AckStep<S> {
    Wait,
    Acked,
    Failed(S),
}

impl View for AckStep<String> {
    type V = AckStep<Seq<char>>;

    open spec fn view(&self) -> AckStep<Seq<char>> {
        match self {
            AckStep::Wait => AckStep::Wait,
            AckStep::Acked => AckStep::Acked,
            AckStep::Failed(error) => AckStep::Failed(error@),
        }
    }
}

/// What a text frame, once read, means to one who waits for an acknowledgement.
pub open spec fn ack_of_reply(
    reply: Result<Reply<Seq<char>>, Seq<char>>,
    result_id: Seq<char>,
) -> AckStep<Seq<char>> {
    match reply {
        Err(complaint) => AckStep::Failed("bad ack json: "@ + complaint),
        Ok(reply) => if reply.kind == Some("ack"@) && reply.result_id == Some(result_id) {
            AckStep::Acked
        } else if reply.kind == Some("error"@) {
            AckStep::Failed(
                match reply.message {
                    Some(message) => message,
                    None => "phone error while waiting ack"@,
                },
            )
        } else {
            AckStep::Wait
        },
    }
}

/// What a reading of the socket means to one who waits for an acknowledgement.
pub open spec fn ack_of(incoming: Incoming<Seq<char>>, result_id: Seq<char>) -> AckStep<Seq<char>> {
    match incoming {
        Incoming::Text(frame) => ack_of_reply(reply_in(frame), result_id),
        Incoming::Close => AckStep::Failed("connection closed while waiting for ack"@),
        Incoming::Failed(error) => AckStep::Failed("websocket read while waiting ack: "@ + error),
        Incoming::Other | Incoming::TimedOut => AckStep::Wait,
    }
}

/// What a text frame, once read, means to one who waits for the acknowledgement of this result.
pub fn ack_in_reply(reply: Result<Reply<String>, String>, result_id: &str) -> (r: AckStep<String>)
    ensures
        r@ == ack_of_reply(reply_view(reply), result_id@),
{
    match reply {
        Err(complaint) => AckStep::Failed("bad ack json: ".to_string().concat(complaint.as_str())),
        Ok(reply) => {
            if is_text(&reply.kind, "ack") && is_text(&reply.result_id, result_id) {
                AckStep::Acked
            } else if is_text(&reply.kind, "error") {
                AckStep::Failed(
                    match reply.message {
                        Some(message) => message,
                        None => "phone error while waiting ack".to_string(),
                    },
                )
            } else {
                AckStep::Wait
            }
        },
    }
}

/// What a reading of the socket means to one who waits for the acknowledgement of this result.
pub fn wait_for_ack(incoming: &Incoming<String>, result_id: &str) -> (r: AckStep<String>)
    ensures
        r@ == ack_of(incoming@, result_id@),
{
    match incoming {
        Incoming::Text(frame) => ack_in_reply(read_reply(frame.as_str()), result_id),
        Incoming::Close => AckStep::Failed("connection closed while waiting for ack".to_string()),
        Incoming::Failed(error) => AckStep::Failed(
            "websocket read while waiting ack: ".to_string().concat(error.as_str()),
        ),
        Incoming::Other => AckStep::Wait,
        Incoming::TimedOut => AckStep::Wait,
    }
}

} // verus!
