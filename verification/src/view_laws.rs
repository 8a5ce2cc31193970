//! What contracts see is what there is: the model of each value shows every part of it, whole and in
//! its own place.

use vstd::prelude::*;

use crate::client::{
    outcome_of, result_of, Controller, KeyStep, SessionEvent, Shared, StartFailure, StartFlow,
    StartStep, StopRequest,
};
use crate::handshake::HandshakeStep;
use crate::hint::Hint;
use crate::json::{reading_of, Document};
use crate::keepalive::{KeepaliveLog, NativeStatus};
use crate::lan_server::LanServer;
use crate::protocol::{
    reply_view, ClientCommand, ClientMessage, ErrorCode, Incoming, Reply, ServerMessage,
};
use crate::registry::{pending_of, views, Expired, PendingResult, SessionRecord};
use crate::scanner::{Interface, ScanEnd, ScanStep, Scanner};
use crate::server::{
    finished_of, AckStep, ActiveSession, Answer, Connection, Delivery, EndedSession,
    FinishedSession, ResultPoll, ServerStep,
};
use crate::session::{event_of, insert_end_of, message_of, InsertEnd, Session, StopStep};
use crate::text::text_of;

verus! {

/// A command is seen with all that it says.
pub proof fn commands_are_seen_whole(command: ClientCommand<String>)
    ensures
        command@.kind == command.kind@,
        command@.client_id == text_of(command.client_id),
        command@.session_id == text_of(command.session_id),
        command@.result_id == text_of(command.result_id),
        command@.protocol_version == command.protocol_version,
        command@.translation == command.translation,
{
}

/// A message of the phone is seen as the kind it is, with all that it says.
pub proof fn messages_of_the_phone_are_seen_whole(
    a: String,
    b: String,
    c: String,
    flag: bool,
    code: ErrorCode,
    id: Option<String>,
    owner: Option<String>,
)
    ensures
        ServerMessage::<String>::HelloOk@ == ServerMessage::<Seq<char>>::HelloOk,
        ServerMessage::<String>::AckOk@ == ServerMessage::<Seq<char>>::AckOk,
        (ServerMessage::Started { session_id: a, already_active: flag })@ == (
        ServerMessage::Started { session_id: a@, already_active: flag }),
        (ServerMessage::Pong { session_id: id })@ == (ServerMessage::Pong {
            session_id: text_of(id),
        }),
        (ServerMessage::Result { session_id: a, result_id: b, text: c })@ == (
        ServerMessage::Result { session_id: a@, result_id: b@, text: c@ }),
        (ServerMessage::Stopped { session_id: a, already_stopped: flag })@ == (
        ServerMessage::Stopped { session_id: a@, already_stopped: flag }),
        (ServerMessage::Cancelled { session_id: id })@ == (ServerMessage::Cancelled {
            session_id: text_of(id),
        }),
        (ServerMessage::Status { state: a, session_id: id, owner_client_id: owner })@ == (
        ServerMessage::Status {
            state: a@,
            session_id: text_of(id),
            owner_client_id: text_of(owner),
        }),
        (ServerMessage::Error { code, message: a })@ == (ServerMessage::Error {
            code,
            message: a@,
        }),
        (ServerMessage::Blocked { message: a, owner_client_id: b, session_id: c })@ == (
        ServerMessage::Blocked { message: a@, owner_client_id: b@, session_id: c@ }),
{
}

/// A message of a client is seen as the kind it is, with all that it says.
pub proof fn messages_of_a_client_are_seen_whole(a: String, b: String, id: Option<String>)
    ensures
        (ClientMessage::Hello { client_id: a })@ == (ClientMessage::Hello { client_id: a@ }),
        (ClientMessage::Start { client_id: a })@ == (ClientMessage::Start { client_id: a@ }),
        (ClientMessage::Ping { client_id: a, session_id: b })@ == (ClientMessage::Ping {
            client_id: a@,
            session_id: b@,
        }),
        ClientMessage::<String>::Probe@ == ClientMessage::<Seq<char>>::Probe,
        (ClientMessage::Stop { session: Some((a, b)) })@ == (ClientMessage::Stop {
            session: Some((a@, b@)),
        }),
        (ClientMessage::<String>::Stop { session: None })@ == (ClientMessage::<Seq<char>>::Stop {
            session: None,
        }),
        (ClientMessage::Cancel { client_id: a, session_id: id })@ == (ClientMessage::Cancel {
            client_id: a@,
            session_id: text_of(id),
        }),
        (ClientMessage::Ack { client_id: a, result_id: b })@ == (ClientMessage::Ack {
            client_id: a@,
            result_id: b@,
        }),
        (ClientMessage::Status { client_id: a })@ == (ClientMessage::Status { client_id: a@ }),
        message_of(Some(ClientMessage::Status { client_id: a })) == Some(
            ClientMessage::Status { client_id: a@ },
        ),
        message_of(None) is None,
        forall|message: ClientMessage<String>| #[trigger]
            message_of(Some(message)) == Some(message@),
{
}

/// What is read from a socket is seen as it came.
pub proof fn readings_are_seen_whole(words: String, reply: Reply<String>)
    ensures
        Incoming::Text(words)@ == Incoming::Text(words@),
        Incoming::Failed(words)@ == Incoming::Failed(words@),
        Incoming::<String>::Close@ == Incoming::<Seq<char>>::Close,
        Incoming::<String>::Other@ == Incoming::<Seq<char>>::Other,
        Incoming::<String>::TimedOut@ == Incoming::<Seq<char>>::TimedOut,
        reply@.kind == text_of(reply.kind),
        reply@.session_id == text_of(reply.session_id),
        reply@.result_id == text_of(reply.result_id),
        reply@.text == text_of(reply.text),
        reply@.code == text_of(reply.code),
        reply@.message == text_of(reply.message),
        reply@.owner_client_id == text_of(reply.owner_client_id),
        reply@.state == text_of(reply.state),
        reply_view(Ok(reply)) == Ok::<Reply<Seq<char>>, Seq<char>>(reply@),
        reply_view(Err(words)) == Err::<Reply<Seq<char>>, Seq<char>>(words@),
        forall|document: Document| #[trigger]
            reading_of(Ok(document)) == Ok::<crate::json::Json, Seq<char>>(document@),
        reading_of(Err(words)) == Err::<crate::json::Json, Seq<char>>(words@),
{
}

/// A session of the phone is seen with all that is known of it.
pub proof fn sessions_are_seen_whole(
    record: SessionRecord<String>,
    pending: PendingResult<String>,
    expired: Expired<String>,
    list: Seq<SessionRecord<String>>,
    i: int,
)
    requires
        0 <= i < list.len(),
    ensures
        record@.session_id == record.session_id@,
        record@.owner_client_id == record.owner_client_id@,
        record@.legacy_owner == record.legacy_owner,
        record@.owner_addr == record.owner_addr@,
        record@.connection == record.connection,
        record@.previous_first_id == text_of(record.previous_first_id),
        record@.translation == record.translation,
        record@.last_heartbeat == record.last_heartbeat,
        record@.phase == record.phase,
        record.result is None ==> record@.result is None,
        record.result is Some ==> record@.result == Some(record.result->0@),
        pending@.result_id == pending.result_id@,
        pending@.text == pending.text@,
        pending_of(Some(pending)) == Some(pending@),
        pending_of(None) is None,
        expired@.session_id == expired.session_id@,
        expired@.owner_client_id == expired.owner_client_id@,
        expired@.connection == expired.connection,
        views(list).len() == list.len(),
        views(list)[i] == list[i]@,
{
}

/// A connection is seen with its session and with the one that was stopped last.
pub proof fn connections_are_seen_whole(
    conn: Connection<String>,
    active: ActiveSession<String>,
    ended: EndedSession<String>,
)
    ensures
        conn@.id == conn.id,
        conn@.addr == conn.addr@,
        conn.session is None ==> conn@.session is None,
        conn.session is Some ==> conn@.session == Some(conn.session->0@),
        conn.ended is None ==> conn@.ended is None,
        conn.ended is Some ==> conn@.ended == Some(conn.ended->0@),
        active@.session_id == active.session_id@,
        active@.previous_first_id == text_of(active.previous_first_id),
        active@.translation == active.translation,
        ended@.session_id == ended.session_id@,
        ended@.owner_client_id == ended.owner_client_id@,
{
}

/// What the phone does is seen as it is done: an answer with what goes before it, a dictation with
/// its translation, a delivery with its whole text.
pub proof fn what_the_phone_does_is_seen_whole(
    answer: Answer<String>,
    flag: bool,
    delivery: Delivery<String>,
    entry: FinishedSession<String>,
    words: String,
    time: u64,
)
    ensures
        answer@.cancel_dictation == answer.cancel_dictation,
        answer@.leave_capture == answer.leave_capture,
        answer@.message == answer.message@,
        ServerStep::Reply(answer)@ == ServerStep::Reply(answer@),
        ServerStep::<String>::AwaitStart@ == ServerStep::<Seq<char>>::AwaitStart,
        (ServerStep::<String>::BeginDictation { translation: flag })@ == (ServerStep::<
            Seq<char>,
        >::BeginDictation { translation: flag }),
        (ServerStep::<String>::EndDictation { translation: flag })@ == (ServerStep::<
            Seq<char>,
        >::EndDictation { translation: flag }),
        delivery@.session_id == delivery.session_id@,
        delivery@.owner_client_id == delivery.owner_client_id@,
        delivery@.result_id == delivery.result_id@,
        delivery@.text == delivery.text@,
        delivery@.sent == delivery.sent,
        finished_of(None) is None,
        finished_of(Some(entry)) is Some,
        finished_of(Some(entry))->0.id == entry.id@,
        finished_of(Some(entry))->0.final_text == entry.final_text@,
        ResultPoll::Ready(words)@ == ResultPoll::Ready(words@),
        ResultPoll::<String>::TimedOut@ == ResultPoll::<Seq<char>>::TimedOut,
        ResultPoll::<String>::Wait(time)@ == ResultPoll::<Seq<char>>::Wait(time),
        AckStep::<String>::Wait@ == AckStep::<Seq<char>>::Wait,
        AckStep::<String>::Acked@ == AckStep::<Seq<char>>::Acked,
        AckStep::Failed(words)@ == AckStep::Failed(words@),
{
}

/// What is shown is seen with its whole text.
pub proof fn hints_are_seen_whole(words: String)
    ensures
        Hint::Show(words)@ == Hint::Show(words@),
        Hint::Flash(words)@ == Hint::Flash(words@),
        Hint::<String>::Clear@ == Hint::<Seq<char>>::Clear,
{
}

/// What the desktop is at is seen as it is: the end of a session, what is shared, the keys, and the
/// way to a session.
pub proof fn what_the_desktop_is_at_is_seen_whole(
    words: String,
    shared: Shared<String>,
    address: Option<String>,
    controller: Controller<String>,
    flow: StartFlow<String>,
    failure: StartFailure<String>,
    hint: Hint<String>,
)
    ensures
        SessionEvent::<String>::Stopped@ == SessionEvent::<Seq<char>>::Stopped,
        SessionEvent::<String>::Cancelled@ == SessionEvent::<Seq<char>>::Cancelled,
        SessionEvent::Failed(words)@ == SessionEvent::Failed(words@),
        SessionEvent::Lost(words)@ == SessionEvent::Lost(words@),
        event_of(None) is None,
        forall|event: SessionEvent<String>| #[trigger] event_of(Some(event)) == Some(event@),
        shared@.active == text_of(shared.active),
        shared@.discovered == text_of(shared.discovered),
        shared@.announce == shared.announce,
        KeyStep::<String>::Ignore@ == KeyStep::<Seq<char>>::Ignore,
        KeyStep::<String>::Start@ == KeyStep::<Seq<char>>::Start,
        KeyStep::Stop(address)@ == KeyStep::Stop(text_of(address)),
        controller@.state == controller.state,
        controller@.session_address == text_of(controller.session_address),
        flow@.address == flow.address@,
        flow@.failed == flow.failed,
        failure@.error == failure.error@,
        failure@.hint == failure.hint@,
        (StartStep::Started { address: words, hint })@ == (StartStep::Started {
            address: words@,
            hint: hint@,
        }),
        (StartStep::Retry { hint })@ == (StartStep::Retry { hint: hint@ }),
        StartStep::Failed(failure)@ == StartStep::Failed(failure@),
        StopRequest::<String>::Send@ == StopRequest::<Seq<char>>::Send,
        StopRequest::Refuse(hint)@ == StopRequest::Refuse(hint@),
        outcome_of(Ok(())) == Ok::<(), Seq<char>>(()),
        outcome_of(Err(words)) == Err::<(), Seq<char>>(words@),
        result_of(Ok(words)) == Ok::<Seq<char>, Seq<char>>(words@),
        result_of(Err(words)) == Err::<Seq<char>, Seq<char>>(words@),
{
}

/// How a conversation goes on is seen as it is.
pub proof fn steps_of_a_conversation_are_seen_whole(
    flag: bool,
    id: Option<String>,
    text: String,
    words: String,
    question: ClientMessage<String>,
    cancel: Option<ClientMessage<String>>,
    session: Session,
)
    ensures
        HandshakeStep::<String>::Read@ == HandshakeStep::<Seq<char>>::Read,
        (HandshakeStep::<String>::SendStart { hello_ok: flag })@ == (HandshakeStep::<
            Seq<char>,
        >::SendStart { hello_ok: flag }),
        (HandshakeStep::Ready { session_id: id })@ == (HandshakeStep::Ready {
            session_id: text_of(id),
        }),
        HandshakeStep::Failed(words)@ == HandshakeStep::Failed(words@),
        HandshakeStep::Abandon(words)@ == HandshakeStep::Abandon(words@),
        StopStep::<String>::Read@ == StopStep::<Seq<char>>::Read,
        StopStep::<String>::WaitOn@ == StopStep::<Seq<char>>::WaitOn,
        (StopStep::Insert { text, result_id: words })@ == (StopStep::Insert {
            text: text@,
            result_id: words@,
        }),
        StopStep::Failed(words)@ == StopStep::Failed(words@),
        StopStep::AskStatus(question)@ == StopStep::AskStatus(question@),
        (StopStep::GiveUp { cancel, error: words })@ == (StopStep::GiveUp {
            cancel: message_of(cancel),
            error: words@,
        }),
        insert_end_of(InsertEnd::Done { ack: cancel }) == (InsertEnd::Done {
            ack: message_of(cancel),
        }),
        insert_end_of(InsertEnd::Failed(words)) == InsertEnd::Failed(words@),
        session@.address == session.address@,
        session@.client_id == session.client_id@,
        session@.session_id == text_of(session.session_id),
        session@.last_heartbeat == session.last_heartbeat,
        session@.seen == session.seen@,
{
}

/// The search, the listener and the log of its checks are seen as they are.
pub proof fn what_goes_on_beside_is_seen_whole(
    interface: Interface<String>,
    scanner: Scanner<String>,
    time: u64,
    words: String,
    end: ScanEnd<String>,
    server: LanServer<String>,
    log: KeepaliveLog<String>,
)
    ensures
        interface@.address == interface.address,
        interface@.operstate == text_of(interface.operstate),
        scanner@.last == text_of(scanner.last),
        scanner@.last_heartbeat == scanner.last_heartbeat,
        scanner@.failures == scanner.failures,
        ScanStep::<String>::Sleep(time)@ == ScanStep::<Seq<char>>::Sleep(time),
        ScanStep::Ping(words)@ == ScanStep::Ping(words@),
        ScanStep::<String>::Discover@ == ScanStep::<Seq<char>>::Discover,
        end.hint is None ==> end@.hint is None,
        end.hint is Some ==> end@.hint == Some(end.hint->0@),
        end@.sleep == end.sleep,
        end@.news == end.news,
        server@.state == server.state,
        server@.last_error == text_of(server.last_error),
        server@.shutdown_held == server.shutdown_held,
        log@.last_check_at == text_of(log.last_check_at),
        log@.last_status == text_of(log.last_status),
        NativeStatus::Unreachable(words)@ == NativeStatus::Unreachable(words@),
        NativeStatus::CallFailed(words)@ == NativeStatus::CallFailed(words@),
        NativeStatus::<String>::Null@ == NativeStatus::<Seq<char>>::Null,
        NativeStatus::Unreadable(words)@ == NativeStatus::Unreadable(words@),
        NativeStatus::Text(words)@ == NativeStatus::Text(words@),
{
}

} // verus!
