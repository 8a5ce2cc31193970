//! A session on the desktop: its heartbeats while the phone records, its end, and the text that
//! comes of it.

use vstd::prelude::*;

use crate::client::{outcome_of, SessionEvent};
use crate::protocol::{read_reply, reply_in, reply_view, ClientMessage, Incoming, Reply};
use crate::text::{is_text, same_optional_text, same_text, text_of};

verus! {

/// The time between two heartbeats, in nanoseconds. The phone bears with three times as much.
pub const SESSION_HEARTBEAT_INTERVAL: u64 = 1_000_000_000;

/// How long the text of a session that was ended is waited for, in nanoseconds.
pub const STOP_TIMEOUT: u64 = 90_000_000_000;

/// How long the answer to `status` is waited for, in nanoseconds.
pub const STATUS_TIMEOUT: u64 = 5_000_000_000;

/// The identifiers of the results that were seen.
pub struct SeenResults {
    ids: Vec<String>,
}

impl View for SeenResults {
    type V = Set<Seq<char>>;

    closed spec fn view(&self) -> Set<Seq<char>> {
        Set::new(|id: Seq<char>| exists|i: int| 0 <= i < self.ids@.len() && (#[trigger] self.ids@[i])@ == id)
    }
}

impl SeenResults {
    /// With none seen.
    pub fn new() -> (r: SeenResults)
        ensures
            r@ == Set::<Seq<char>>::empty(),
    {
        let r = SeenResults { ids: Vec::new() };
        assert(r@ =~= Set::<Seq<char>>::empty());
        r
    }

    /// Adds an identifier. The result says whether it is a new one.
    pub fn insert(&mut self, id: &str) -> (fresh: bool)
        ensures
            fresh == !old(self)@.contains(id@),
            final(self)@ == old(self)@.insert(id@),
    {
        for i in 0..self.ids.len()
            invariant
                self == old(self),
                forall|j: int| 0 <= j < i ==> (#[trigger] self.ids@[j])@ != id@,
        {
            if same_text(self.ids[i].as_str(), id) {
                assert(self@.insert(id@) =~= self@);
                return false;
            }
        }
        let ghost before = self.ids@;
        self.ids.push(id.to_string());
        proof {
            assert forall|x: Seq<char>| self@.contains(x) == old(self)@.insert(id@).contains(x) by {
                if old(self)@.contains(x) {
                    let k = choose|k: int| 0 <= k < before.len() && (#[trigger] before[k])@ == x;
                    assert(self.ids@[k] == before[k]);
                }
                if x == id@ {
                    assert(self.ids@[before.len() as int]@ == x);
                }
                if self@.contains(x) && x != id@ {
                    let k = choose|k: int| 0 <= k < self.ids@.len() && (#[trigger] self.ids@[k])@ == x;
                    assert(before[k]@ == x);
                }
            }
            assert(self@ =~= old(self)@.insert(id@));
        }
        true
    }
}

/// The kinds of the frames that end a session, and that of a status, differ from that of a result.
proof fn ends_are_no_results()
    ensures
        "status"@ != "result"@,
        "error"@ != "result"@,
        "stopped"@ != "result"@,
        "cancelled"@ != "result"@,
{
    reveal_strlit("result");
    reveal_strlit("status");
    assert("result"@[0] == 'r' && "status"@[0] == 's');
    reveal_strlit("error");
    reveal_strlit("stopped");
    reveal_strlit("cancelled");
    assert("result"@.len() == 6 && "error"@.len() == 5 && "stopped"@.len() == 7
        && "cancelled"@.len() == 9);
}

/// A session that was begun.
pub struct Session {
    pub address: String,
    pub client_id: String,
    /// Its identifier; a phone that knows no sessions gave none.
    pub session_id: Option<String>,
    /// When the last heartbeat was sent, in nanoseconds of a clock that never goes back.
    pub last_heartbeat: u64,
    pub seen: SeenResults,
}

/// What a session holds.
pub struct SessionView {
    pub address: Seq<char>,
    pub client_id: Seq<char>,
    pub session_id: Option<Seq<char>>,
    pub last_heartbeat: u64,
    pub seen: Set<Seq<char>>,
}

impl View for Session {
    type V = SessionView;

    open spec fn view(&self) -> SessionView {
        SessionView {
            address: self.address@,
            client_id: self.client_id@,
            session_id: text_of(self.session_id),
            last_heartbeat: self.last_heartbeat,
            seen: self.seen@,
        }
    }
}

/// What an optional message holds.
pub open spec fn message_of(message: Option<ClientMessage<String>>) -> Option<ClientMessage<Seq<char>>> {
    match message {
        Some(message) => Some(message@),
        None => None,
    }
}

/// What an optional event holds.
pub open spec fn event_of(event: Option<SessionEvent<String>>) -> Option<SessionEvent<Seq<char>>> {
    match event {
        Some(event) => Some(event@),
        None => None,
    }
}

/// A text, or another where there is none.
pub open spec fn text_or(s: Option<Seq<char>>, other: Seq<char>) -> Seq<char> {
    match s {
        Some(s) => s,
        None => other,
    }
}

fn text_else(s: Option<String>, other: &str) -> (r: String)
    ensures
        r@ == text_or(text_of(s), other@),
{
    match s {
        Some(s) => s,
        None => other.to_string(),
    }
}

/// The heartbeat that is due, if one is.
pub open spec fn heartbeat_at(session: SessionView, now: u64) -> Option<ClientMessage<Seq<char>>> {
    match session.session_id {
        Some(session_id) if now - session.last_heartbeat >= SESSION_HEARTBEAT_INTERVAL => Some(
            ClientMessage::Ping { client_id: session.client_id, session_id },
        ),
        _ => None,
    }
}

/// What a text frame, once read, means to a session that records: some end it, the others do not.
pub open spec fn recording_event(
    reply: Result<Reply<Seq<char>>, Seq<char>>,
) -> Option<SessionEvent<Seq<char>>> {
    match reply {
        Err(_) => None,
        Ok(reply) => if reply.kind == Some("error"@) {
            Some(SessionEvent::Lost(text_or(reply.message, "手机端错误"@)))
        } else if reply.kind == Some("stopped"@) {
            Some(SessionEvent::Stopped)
        } else if reply.kind == Some("cancelled"@) {
            Some(SessionEvent::Cancelled)
        } else {
            None
        },
    }
}

/// The results seen after such a frame: one that comes while the phone records is only remembered.
pub open spec fn seen_while_recording(
    seen: Set<Seq<char>>,
    reply: Result<Reply<Seq<char>>, Seq<char>>,
) -> Set<Seq<char>> {
    if reply matches Ok(reply) && reply.kind == Some("result"@) && reply.result_id is Some {
        seen.insert(reply->Ok_0.result_id->0)
    } else {
        seen
    }
}

/// What a reading of the socket means to a session that records.
pub open spec fn recording_read_event(
    incoming: Incoming<Seq<char>>,
) -> Option<SessionEvent<Seq<char>>> {
    match incoming {
        Incoming::Text(frame) => recording_event(reply_in(frame)),
        Incoming::Close => Some(SessionEvent::Lost("手机端断开连接"@)),
        Incoming::Failed(error) => Some(SessionEvent::Lost("连接中断："@ + error)),
        Incoming::Other | Incoming::TimedOut => None,
    }
}

/// What is waited for once the end of a session was called for.
#[derive(Clone, Copy, Debug, PartialEq, Eq, Structural)]
pub enum StopStage {
    /// The text.
    Result,
    /// The answer to `status`, because the text did not come in time.
    Status,
}

/// The wait after the end of a session was called for: what for, and since when, in nanoseconds of
/// a clock that never goes back.
#[derive(Clone, Copy, Debug, PartialEq, Eq, Structural)]
pub struct StopWait {
    pub stage: StopStage,
    pub since: u64,
}

impl StopWait {
    /// The `stop` was sent: the text is waited for.
    pub fn begin(now: u64) -> (r: StopWait)
        ensures
            r == (StopWait { stage: StopStage::Result, since: now }),
    {
        StopWait { stage: StopStage::Result, since: now }
    }

    /// The `status` was sent: its answer is waited for.
    pub fn status_asked(&mut self, now: u64)
        ensures
            *final(self) == (StopWait { stage: StopStage::Status, since: now }),
    {
        self.stage = StopStage::Status;
        self.since = now;
    }

    /// The phone still works on the text: it is waited for anew.
    pub fn wait_on(&mut self, now: u64)
        ensures
            *final(self) == (StopWait { stage: StopStage::Result, since: now }),
    {
        self.stage = StopStage::Result;
        self.since = now;
    }

    /// Whether the wait is over.
    pub open spec fn overdue(self, now: u64) -> bool {
        match self.stage {
            StopStage::Result => now - self.since >= STOP_TIMEOUT,
            StopStage::Status => now - self.since >= STATUS_TIMEOUT,
        }
    }
}

/// What the answer to `status` decides.
#[derive(Clone, Copy, Debug, PartialEq, Eq, Structural)]
pub enum StatusDecision {
    /// The phone still works on the text of this session.
    WaitOn,
    /// It does not: the session is to be cancelled.
    Cancel,
}

/// What the answer to `status` decides: the text is waited for as long as the phone makes a text of
/// this very session.
pub open spec fn decision_on(
    session_id: Option<Seq<char>>,
    state: Option<Seq<char>>,
    told: Option<Seq<char>>,
) -> StatusDecision {
    if session_id is Some && told == session_id && state == Some("transcribing"@) {
        StatusDecision::WaitOn
    } else {
        StatusDecision::Cancel
    }
}

/// What the answer to `status` decides for a session: the state that the phone tells, and the
/// session that it is the state of.
pub fn decide_on_status(
    session_id: &Option<String>,
    state: &Option<String>,
    told: &Option<String>,
) -> (r: StatusDecision)
    ensures
        r == decision_on(text_of(*session_id), text_of(*state), text_of(*told)),
{
    if session_id.is_some() && same_optional_text(told, session_id) && is_text(
        state,
        "transcribing",
    ) {
        StatusDecision::WaitOn
    } else {
        StatusDecision::Cancel
    }
}

/// How the end of a session goes on.
#[derive(Debug, PartialEq, Eq)]
#[allow(inconsistent_fields)]
pub enum StopStep<S> {
    /// Read from the socket.
    Read,
    /// Insert this text, the result with this identifier, and report with `after_insert`.
    Insert { text: S, result_id: S },
    /// There is no text, for this reason.
    Failed(S),
    /// The text did not come in time: send this question, and note it with `status_asked`.
    AskStatus(ClientMessage<S>),
    /// The phone still works on the text: note that with `wait_on`.
    WaitOn,
    /// There is no text, for this reason; send this first, if there is something.
    GiveUp { cancel: Option<ClientMessage<S>>, error: S },
}

impl View for StopStep<String> {
    type V = StopStep<Seq<char>>;

    open spec fn view(&self) -> StopStep<Seq<char>> {
        match self {
            StopStep::Read => StopStep::Read,
            StopStep::Insert { text, result_id } => StopStep::Insert {
                text: text@,
                result_id: result_id@,
            },
            StopStep::Failed(error) => StopStep::Failed(error@),
            StopStep::AskStatus(question) => StopStep::AskStatus(question@),
            StopStep::WaitOn => StopStep::WaitOn,
            StopStep::GiveUp { cancel, error } => StopStep::GiveUp {
                cancel: message_of(*cancel),
                error: error@,
            },
        }
    }
}

/// What a text frame, once read, means to a session that is being ended. A result that was seen
/// before is passed over.
pub open spec fn stop_reply_step(
    seen: Set<Seq<char>>,
    reply: Result<Reply<Seq<char>>, Seq<char>>,
) -> StopStep<Seq<char>> {
    match reply {
        Err(complaint) => StopStep::Failed("bad json from phone: "@ + complaint),
        Ok(reply) => if reply.kind == Some("result"@) {
            let result_id = text_or(reply.result_id, Seq::empty());
            let text = text_or(reply.text, Seq::empty());
            if result_id.len() > 0 && seen.contains(result_id) {
                StopStep::Read
            } else if text.len() == 0 {
                StopStep::Failed("phone returned empty text"@)
            } else {
                StopStep::Insert { text, result_id }
            }
        } else if reply.kind == Some("error"@) {
            StopStep::Failed(text_or(reply.message, "phone error"@))
        } else if reply.kind == Some("stopped"@) {
            StopStep::Failed("phone stopped without result"@)
        } else if reply.kind == Some("cancelled"@) {
            StopStep::Failed("session cancelled by phone"@)
        } else {
            StopStep::Read
        },
    }
}

/// The results seen after such a frame: a result is remembered before its text is inserted.
pub open spec fn seen_while_stopping(
    seen: Set<Seq<char>>,
    reply: Result<Reply<Seq<char>>, Seq<char>>,
) -> Set<Seq<char>> {
    if reply matches Ok(reply) && reply.kind == Some("result"@) && text_or(
        reply.result_id,
        Seq::empty(),
    ).len() > 0 {
        seen.insert(reply->Ok_0.result_id->0)
    } else {
        seen
    }
}

/// The `cancel` for a session whose text did not come in time; a phone that knows no sessions gets
/// none.
pub open spec fn overdue_cancel(session: SessionView) -> Option<ClientMessage<Seq<char>>> {
    match session.session_id {
        Some(id) => Some(
            ClientMessage::Cancel { client_id: session.client_id, session_id: Some(id) },
        ),
        None => None,
    }
}

/// The step of giving up the wait for a text.
pub open spec fn giving_up(session: SessionView) -> StopStep<Seq<char>> {
    StopStep::GiveUp {
        cancel: overdue_cancel(session),
        error: "timed out waiting for phone result"@,
    }
}

/// How the end of a session goes on as time passes. A text that does not come in time is asked
/// after, and where no answer comes either it is given up; a phone that knows no sessions cannot be
/// asked.
pub open spec fn stop_time_step(
    session: SessionView,
    wait: StopWait,
    now: u64,
) -> StopStep<Seq<char>> {
    if !wait.overdue(now) {
        StopStep::Read
    } else if wait.stage == StopStage::Result && session.session_id is Some {
        StopStep::AskStatus(ClientMessage::Status { client_id: session.client_id })
    } else {
        giving_up(session)
    }
}

/// What a text frame, once read, means to a session that is being ended: the answer to `status`
/// decides where it is waited for, and every other frame means what it always does.
pub open spec fn stop_frame_step(
    session: SessionView,
    stage: StopStage,
    reply: Result<Reply<Seq<char>>, Seq<char>>,
) -> StopStep<Seq<char>> {
    if stage == StopStage::Status && reply is Ok && reply->Ok_0.kind == Some("status"@) {
        match decision_on(session.session_id, reply->Ok_0.state, reply->Ok_0.session_id) {
            StatusDecision::WaitOn => StopStep::WaitOn,
            StatusDecision::Cancel => giving_up(session),
        }
    } else {
        stop_reply_step(session.seen, reply)
    }
}

/// What a reading of the socket means to a session that is being ended.
pub open spec fn stop_read_step(
    session: SessionView,
    wait: StopWait,
    incoming: Incoming<Seq<char>>,
    now: u64,
) -> StopStep<Seq<char>> {
    match incoming {
        Incoming::Text(frame) => stop_frame_step(session, wait.stage, reply_in(frame)),
        Incoming::Close => StopStep::Failed("phone closed connection before result"@),
        Incoming::Failed(error) => StopStep::Failed("read from "@ + session.address + ": "@ + error),
        Incoming::TimedOut => stop_time_step(session, wait, now),
        Incoming::Other => StopStep::Read,
    }
}

/// The results seen after a reading of the socket.
pub open spec fn seen_after_read(
    seen: Set<Seq<char>>,
    incoming: Incoming<Seq<char>>,
    stopping: bool,
) -> Set<Seq<char>> {
    match incoming {
        Incoming::Text(frame) => if stopping {
            seen_while_stopping(seen, reply_in(frame))
        } else {
            seen_while_recording(seen, reply_in(frame))
        },
        _ => seen,
    }
}

/// The end of an insertion.
#[derive(Debug, PartialEq, Eq)]
pub enum InsertEnd<S> {
    /// The text is inserted; send the acknowledgement, if there is one.
    Done { ack: Option<ClientMessage<S>> },
    Failed(S),
}

/// What the end of an insertion holds.
pub open spec fn insert_end_of(end: InsertEnd<String>) -> InsertEnd<Seq<char>> {
    match end {
        InsertEnd::Done { ack } => InsertEnd::Done { ack: message_of(ack) },
        InsertEnd::Failed(error) => InsertEnd::Failed(error@),
    }
}

/// The end of an insertion: only a text that was inserted is acknowledged, and only to a phone that
/// gave session and result their identifiers.
pub open spec fn insert_end(
    session: SessionView,
    outcome: Result<(), Seq<char>>,
    result_id: Seq<char>,
) -> InsertEnd<Seq<char>> {
    match outcome {
        Ok(_) => InsertEnd::Done {
            ack: if session.session_id is Some && result_id.len() > 0 {
                Some(ClientMessage::Ack { client_id: session.client_id, result_id })
            } else {
                None
            },
        },
        Err(error) => InsertEnd::Failed(error),
    }
}

impl Session {
    /// A session that was begun now.
    pub fn new(address: String, client_id: String, session_id: Option<String>, now: u64) -> (r: Session)
        ensures
            r@ == (SessionView {
                address: address@,
                client_id: client_id@,
                session_id: text_of(session_id),
                last_heartbeat: now,
                seen: Set::empty(),
            }),
    {
        Session { address, client_id, session_id, last_heartbeat: now, seen: SeenResults::new() }
    }

    /// The heartbeat that is due, if one is. A phone that knows no sessions gets none.
    pub fn heartbeat_due(&self, now: u64) -> (r: Option<ClientMessage<String>>)
        ensures
            message_of(r) == heartbeat_at(self@, now),
    {
        match &self.session_id {
            Some(session_id) => if now.saturating_sub(self.last_heartbeat)
                >= SESSION_HEARTBEAT_INTERVAL {
                Some(
                    ClientMessage::Ping {
                        client_id: self.client_id.clone(),
                        session_id: session_id.clone(),
                    },
                )
            } else {
                None
            },
            None => None,
        }
    }

    /// A heartbeat was sent, or could not be; in that case the session is lost.
    pub fn heartbeat_sent(&mut self, sent: bool, now: u64) -> (r: Option<SessionEvent<String>>)
        ensures
            final(self)@ == if sent {
                SessionView { last_heartbeat: now, ..old(self)@ }
            } else {
                old(self)@
            },
            event_of(r) == if sent {
                None
            } else {
                Some(SessionEvent::Lost("心跳发送失败，手机端即将释放会话"@))
            },
    {
        if !sent {
            return Some(SessionEvent::Lost("心跳发送失败，手机端即将释放会话".to_string()));
        }
        self.last_heartbeat = now;
        None
    }

    /// Takes a text frame, once read, while the phone records. The result is how the session ended,
    /// if it did.
    pub fn take_reply(&mut self, reply: Result<Reply<String>, String>) -> (r: Option<SessionEvent<String>>)
        ensures
            event_of(r) == recording_event(reply_view(reply)),
            final(self)@ == (SessionView {
                seen: seen_while_recording(old(self)@.seen, reply_view(reply)),
                ..old(self)@
            }),
    {
        proof {
            ends_are_no_results();
        }
        match reply {
            Err(_) => None,
            Ok(reply) => {
                if is_text(&reply.kind, "error") {
                    Some(SessionEvent::Lost(text_else(reply.message, "手机端错误")))
                } else if is_text(&reply.kind, "stopped") {
                    Some(SessionEvent::Stopped)
                } else if is_text(&reply.kind, "cancelled") {
                    Some(SessionEvent::Cancelled)
                } else if is_text(&reply.kind, "result") {
                    if let Some(result_id) = &reply.result_id {
                        self.seen.insert(result_id.as_str());
                    }
                    None
                } else {
                    None
                }
            },
        }
    }

    /// Takes a reading of the socket while the phone records. The result is how the session ended,
    /// if it did.
    pub fn take_read(&mut self, incoming: &Incoming<String>) -> (r: Option<SessionEvent<String>>)
        ensures
            event_of(r) == recording_read_event(incoming@),
            final(self)@ == (SessionView {
                seen: seen_after_read(old(self)@.seen, incoming@, false),
                ..old(self)@
            }),
    {
        match incoming {
            Incoming::Text(frame) => self.take_reply(read_reply(frame.as_str())),
            Incoming::Close => Some(SessionEvent::Lost("手机端断开连接".to_string())),
            Incoming::Failed(error) => Some(
                SessionEvent::Lost("连接中断：".to_string().concat(error.as_str())),
            ),
            Incoming::Other => None,
            Incoming::TimedOut => None,
        }
    }

    /// The `stop` of the session.
    pub fn stop_message(&self) -> (r: ClientMessage<String>)
        ensures
            r@ == (ClientMessage::Stop {
                session: match self@.session_id {
                    Some(id) => Some((self@.client_id, id)),
                    None => None,
                },
            }),
    {
        ClientMessage::Stop {
            session: match &self.session_id {
                Some(id) => Some((self.client_id.clone(), id.clone())),
                None => None,
            },
        }
    }

    fn give_up(&self) -> (r: StopStep<String>)
        ensures
            r@ == giving_up(self@),
    {
        let cancel: Option<ClientMessage<String>> = match &self.session_id {
            Some(id) => Some(
                ClientMessage::Cancel {
                    client_id: self.client_id.clone(),
                    session_id: Some(id.clone()),
                },
            ),
            None => None,
        };
        StopStep::GiveUp { cancel, error: "timed out waiting for phone result".to_string() }
    }

    /// How the end of the session goes on before the next reading.
    pub fn stop_next(&self, wait: StopWait, now: u64) -> (r: StopStep<String>)
        ensures
            r@ == stop_time_step(self@, wait, now),
    {
        let waited: u64 = now.saturating_sub(wait.since);
        let overdue: bool = match wait.stage {
            StopStage::Result => waited >= STOP_TIMEOUT,
            StopStage::Status => waited >= STATUS_TIMEOUT,
        };
        if !overdue {
            StopStep::Read
        } else if wait.stage == StopStage::Result && self.session_id.is_some() {
            StopStep::AskStatus(ClientMessage::Status { client_id: self.client_id.clone() })
        } else {
            self.give_up()
        }
    }

    /// Takes a text frame, once read, while the session is being ended.
    pub fn take_stop_reply(&mut self, stage: StopStage, reply: Result<Reply<String>, String>) -> (r:
        StopStep<String>)
        ensures
            r@ == stop_frame_step(old(self)@, stage, reply_view(reply)),
            r matches StopStep::Insert { text, .. } ==> reply is Ok && text_of(reply->Ok_0.text)
                == Some(text@),
            final(self)@ == (SessionView {
                seen: seen_while_stopping(old(self)@.seen, reply_view(reply)),
                ..old(self)@
            }),
    {
        proof {
            ends_are_no_results();
        }
        match reply {
            Err(complaint) => StopStep::Failed(
                "bad json from phone: ".to_string().concat(complaint.as_str()),
            ),
            Ok(reply) => {
                if stage == StopStage::Status && is_text(&reply.kind, "status") {
                    match decide_on_status(&self.session_id, &reply.state, &reply.session_id) {
                        StatusDecision::WaitOn => StopStep::WaitOn,
                        StatusDecision::Cancel => self.give_up(),
                    }
                } else if is_text(&reply.kind, "result") {
                    let result_id: String = match reply.result_id {
                        Some(id) => id,
                        None => String::new(),
                    };
                    if !result_id.as_str().is_empty() && !self.seen.insert(result_id.as_str()) {
                        return StopStep::Read;
                    }
                    let text: String = match reply.text {
                        Some(text) => text,
                        None => String::new(),
                    };
                    if text.as_str().is_empty() {
                        return StopStep::Failed("phone returned empty text".to_string());
                    }
                    StopStep::Insert { text, result_id }
                } else if is_text(&reply.kind, "error") {
                    StopStep::Failed(text_else(reply.message, "phone error"))
                } else if is_text(&reply.kind, "stopped") {
                    StopStep::Failed("phone stopped without result".to_string())
                } else if is_text(&reply.kind, "cancelled") {
                    StopStep::Failed("session cancelled by phone".to_string())
                } else {
                    StopStep::Read
                }
            },
        }
    }

    /// Takes a reading of the socket while the session is being ended.
    pub fn take_stop_read(&mut self, wait: StopWait, incoming: &Incoming<String>, now: u64) -> (r:
        StopStep<String>)
        ensures
            r@ == stop_read_step(old(self)@, wait, incoming@, now),
            final(self)@ == (SessionView {
                seen: seen_after_read(old(self)@.seen, incoming@, true),
                ..old(self)@
            }),
    {
        match incoming {
            Incoming::Text(frame) => self.take_stop_reply(wait.stage, read_reply(frame.as_str())),
            Incoming::Close => StopStep::Failed("phone closed connection before result".to_string()),
            Incoming::Failed(error) => StopStep::Failed(
                "read from ".to_string().concat(self.address.as_str()).concat(": ").concat(
                    error.as_str(),
                ),
            ),
            Incoming::TimedOut => self.stop_next(wait, now),
            Incoming::Other => StopStep::Read,
        }
    }

    /// Takes the end of an insertion.
    pub fn after_insert(&self, outcome: Result<(), String>, result_id: &str) -> (r: InsertEnd<String>)
        ensures
            insert_end_of(r) == insert_end(self@, outcome_of(outcome), result_id@),
    {
        match outcome {
            Ok(_) => InsertEnd::Done {
                ack: if self.session_id.is_some() && !result_id.is_empty() {
                    Some(
                        ClientMessage::Ack {
                            client_id: self.client_id.clone(),
                            result_id: result_id.to_string(),
                        },
                    )
                } else {
                    None
                },
            },
            Err(error) => InsertEnd::Failed(error),
        }
    }
}

/// How a session ended that was ended by a key.
pub fn stop_event(outcome: Result<(), String>) -> (r: SessionEvent<String>)
    ensures
        r@ == match outcome {
            Ok(_) => SessionEvent::Stopped,
            Err(error) => SessionEvent::Failed("转录失败："@ + error@),
        },
{
    match outcome {
        Ok(_) => SessionEvent::Stopped,
        Err(error) => SessionEvent::Failed("转录失败：".to_string().concat(error.as_str())),
    }
}

/// How an insertion goes on once the input method was handed the text.
#[derive(Clone, Copy, Debug, PartialEq, Eq, Structural)]
pub enum InsertStep {
    /// The text is inserted; the clipboard is left alone.
    Done,
    /// Put the same text on the clipboard.
    Copy,
}

/// How an insertion goes on once the input method was handed the text: only where it did not take
/// it, the text goes on the clipboard.
pub fn after_commit(outcome: &Result<(), String>) -> (r: InsertStep)
    ensures
        r == if outcome is Ok {
            InsertStep::Done
        } else {
            InsertStep::Copy
        },
{
    match outcome {
        Ok(_) => InsertStep::Done,
        Err(_) => InsertStep::Copy,
    }
}

/// What came of a try to put a text on the clipboard.
#[derive(Debug, PartialEq, Eq)]
pub enum ClipboardOutcome<S> {
    Copied,
    Unavailable(S),
    Refused(S),
}

/// The outcome of an insertion: a text that the input method took is inserted, and one that it did
/// not take is, once it is on the clipboard.
pub fn insertion_outcome(clipboard: Option<ClipboardOutcome<String>>) -> (r: Result<(), String>)
    ensures
        outcome_of(r) == match clipboard {
            None => Ok(()),
            Some(ClipboardOutcome::Copied) => Ok(()),
            Some(ClipboardOutcome::Unavailable(error)) => Err("clipboard: "@ + error@),
            Some(ClipboardOutcome::Refused(error)) => Err("clipboard set: "@ + error@),
        },
{
    match clipboard {
        None => Ok(()),
        Some(ClipboardOutcome::Copied) => Ok(()),
        Some(ClipboardOutcome::Unavailable(error)) => Err(
            "clipboard: ".to_string().concat(error.as_str()),
        ),
        Some(ClipboardOutcome::Refused(error)) => Err(
            "clipboard set: ".to_string().concat(error.as_str()),
        ),
    }
}

/// The results seen after these frames, one after the other.
pub open spec fn seen_over(
    seen: Set<Seq<char>>,
    replies: Seq<Result<Reply<Seq<char>>, Seq<char>>>,
) -> Set<Seq<char>>
    decreases replies.len(),
{
    if replies.len() == 0 {
        seen
    } else {
        seen_over(seen_while_stopping(seen, replies.first()), replies.drop_first())
    }
}

/// A result is inserted once: after a frame whose text was inserted, and whatever frames came
/// since, a frame with the same identifier is passed over.
pub proof fn a_result_is_inserted_once(
    seen: Set<Seq<char>>,
    first: Reply<Seq<char>>,
    between: Seq<Result<Reply<Seq<char>>, Seq<char>>>,
    second: Reply<Seq<char>>,
)
    requires
        stop_reply_step(seen, Ok(first)) matches StopStep::Insert { result_id, .. } && result_id.len()
            > 0,
        second.kind == Some("result"@),
        second.result_id == first.result_id,
    ensures
        stop_reply_step(seen_over(seen_while_stopping(seen, Ok(first)), between), Ok(second)) is Read,
{
    lemma_stays_seen(seen_while_stopping(seen, Ok(first)), between, first.result_id->0);
}

proof fn lemma_stays_seen(
    seen: Set<Seq<char>>,
    replies: Seq<Result<Reply<Seq<char>>, Seq<char>>>,
    id: Seq<char>,
)
    requires
        seen.contains(id),
    ensures
        seen_over(seen, replies).contains(id),
    decreases replies.len(),
{
    if replies.len() > 0 {
        seen_results_stay_seen(seen, replies.first(), id);
        lemma_stays_seen(seen_while_stopping(seen, replies.first()), replies.drop_first(), id);
    }
}

/// A result that came while the phone still recorded is never inserted, unless it has no
/// identifier.
pub proof fn an_early_result_is_not_inserted(
    seen: Set<Seq<char>>,
    early: Reply<Seq<char>>,
    late: Reply<Seq<char>>,
)
    requires
        early.kind == Some("result"@),
        early.result_id is Some,
        early.result_id->0.len() > 0,
        late.kind == Some("result"@),
        late.result_id == early.result_id,
    ensures
        recording_event(Ok(early)) is None,
        stop_reply_step(seen_while_recording(seen, Ok(early)), Ok(late)) is Read,
{
    ends_are_no_results();
}

/// What was seen stays seen: no frame makes a session forget a result.
pub proof fn seen_results_stay_seen(
    seen: Set<Seq<char>>,
    reply: Result<Reply<Seq<char>>, Seq<char>>,
    id: Seq<char>,
)
    requires
        seen.contains(id),
    ensures
        seen_while_recording(seen, reply).contains(id),
        seen_while_stopping(seen, reply).contains(id),
{
}

/// A text is not given up unasked: where the session has an identifier, the end of the wait for the
/// text asks after it, by whichever way it is noticed, and only the silence that follows, or an
/// answer by which the phone does not work on it, gives it up and cancels the session. Nothing of
/// that inserts anything or touches the results seen.
pub proof fn a_text_is_asked_after_before_it_is_given_up(
    session: SessionView,
    id: Seq<char>,
    since: u64,
    now: u64,
    asked: u64,
    later: u64,
)
    requires
        session.session_id == Some(id),
        now - since >= STOP_TIMEOUT,
        later - asked >= STATUS_TIMEOUT,
    ensures
        ({
            let wait = StopWait { stage: StopStage::Result, since };
            let question = StopStep::AskStatus(
                ClientMessage::Status { client_id: session.client_id },
            );
            let end = StopStep::GiveUp {
                cancel: Some(
                    ClientMessage::Cancel { client_id: session.client_id, session_id: Some(id) },
                ),
                error: "timed out waiting for phone result"@,
            };
            let answer = StopWait { stage: StopStage::Status, since: asked };
            &&& stop_time_step(session, wait, now) == question
            &&& stop_read_step(session, wait, Incoming::TimedOut, now) == question
            &&& stop_time_step(session, answer, later) == end
            &&& stop_read_step(session, answer, Incoming::TimedOut, later) == end
            &&& seen_after_read(session.seen, Incoming::TimedOut, true) == session.seen
        }),
{
}

/// Only what was inserted is acknowledged.
pub proof fn only_insertions_are_acknowledged(
    session: SessionView,
    outcome: Result<(), Seq<char>>,
    result_id: Seq<char>,
)
    ensures
        insert_end(session, outcome, result_id) matches InsertEnd::Done { ack } && ack is Some
            ==> outcome is Ok,
        outcome is Err ==> insert_end(session, outcome, result_id) is Failed,
{
}

} // verus!
