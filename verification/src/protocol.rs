//! The messages between a desktop client and the phone.
//!
//! Types with a parameter `S` hold texts: `String` in running code, `Seq<char>` in contracts.

use vstd::prelude::*;

use crate::json::{
    all_scalar, json_read, json_written, no_members, read_well, text_at, Document, Json,
    Object, Scalar,
};
use crate::text::text_of;

verus! {

/// The port the phone listens on.
pub const DEFAULT_PORT: u16 = 45678;

/// The version of this protocol; a client states it in `hello`, the phone in `hello_ok`.
pub const PROTOCOL_VERSION: u32 = 2;

/// The code of an error message.
#[derive(Clone, Copy, Debug, PartialEq, Eq, Structural)]
pub enum ErrorCode {
    InvalidCommand,
    ProtocolMismatch,
    StartFailed,
    NoSession,
    SessionBlocked,
    StopFailed,
    ResultTimeout,
    BadAck,
    NoPendingResult,
    UnknownCommand,
}

impl ErrorCode {
    /// The code as it stands in a message.
    pub open spec fn text(self) -> Seq<char> {
        match self {
            ErrorCode::InvalidCommand => "invalid command"@,
            ErrorCode::ProtocolMismatch => "PROTOCOL_MISMATCH"@,
            ErrorCode::StartFailed => "START_FAILED"@,
            ErrorCode::NoSession => "NO_SESSION"@,
            ErrorCode::SessionBlocked => "SESSION_BLOCKED"@,
            ErrorCode::StopFailed => "STOP_FAILED"@,
            ErrorCode::ResultTimeout => "RESULT_TIMEOUT"@,
            ErrorCode::BadAck => "BAD_ACK"@,
            ErrorCode::NoPendingResult => "NO_PENDING_RESULT"@,
            ErrorCode::UnknownCommand => "UNKNOWN_COMMAND"@,
        }
    }

    /// The code as it stands in a message.
    pub fn name(self) -> (r: &'static str)
        ensures
            r@ == self.text(),
    {
        match self {
            ErrorCode::InvalidCommand => "invalid command",
            ErrorCode::ProtocolMismatch => "PROTOCOL_MISMATCH",
            ErrorCode::StartFailed => "START_FAILED",
            ErrorCode::NoSession => "NO_SESSION",
            ErrorCode::SessionBlocked => "SESSION_BLOCKED",
            ErrorCode::StopFailed => "STOP_FAILED",
            ErrorCode::ResultTimeout => "RESULT_TIMEOUT",
            ErrorCode::BadAck => "BAD_ACK",
            ErrorCode::NoPendingResult => "NO_PENDING_RESULT",
            ErrorCode::UnknownCommand => "UNKNOWN_COMMAND",
        }
    }
}

/// What a client asks of the phone, as it comes out of a text frame.
#[derive(Debug, PartialEq, Eq)]
pub struct ClientCommand<S> {
    /// The member `type`.
    pub kind: S,
    pub client_id: Option<S>,
    pub session_id: Option<S>,
    pub result_id: Option<S>,
    pub protocol_version: Option<u32>,
    pub translation: bool,
}

impl View for ClientCommand<String> {
    type V = ClientCommand<Seq<char>>;

    open spec fn view(&self) -> ClientCommand<Seq<char>> {
        ClientCommand {
            kind: self.kind@,
            client_id: text_of(self.client_id),
            session_id: text_of(self.session_id),
            result_id: text_of(self.result_id),
            protocol_version: self.protocol_version,
            translation: self.translation,
        }
    }
}

/// What the phone tells a client.
#[derive(Debug, PartialEq, Eq)]
#[allow(inconsistent_fields)]
pub enum ServerMessage<S> {
    HelloOk,
    Started { session_id: S, already_active: bool },
    Pong { session_id: Option<S> },
    Result { session_id: S, result_id: S, text: S },
    Stopped { session_id: S, already_stopped: bool },
    Cancelled { session_id: Option<S> },
    Status { state: S, session_id: Option<S>, owner_client_id: Option<S> },
    AckOk,
    Error { code: ErrorCode, message: S },
    /// The refusal of a `start` while another client holds the session.
    Blocked { message: S, owner_client_id: S, session_id: S },
}

impl View for ServerMessage<String> {
    type V = ServerMessage<Seq<char>>;

    open spec fn view(&self) -> ServerMessage<Seq<char>> {
        match self {
            ServerMessage::HelloOk => ServerMessage::HelloOk,
            ServerMessage::Started { session_id, already_active } => ServerMessage::Started {
                session_id: session_id@,
                already_active: *already_active,
            },
            ServerMessage::Pong { session_id } => ServerMessage::Pong {
                session_id: text_of(*session_id),
            },
            ServerMessage::Result { session_id, result_id, text } => ServerMessage::Result {
                session_id: session_id@,
                result_id: result_id@,
                text: text@,
            },
            ServerMessage::Stopped { session_id, already_stopped } => ServerMessage::Stopped {
                session_id: session_id@,
                already_stopped: *already_stopped,
            },
            ServerMessage::Cancelled { session_id } => ServerMessage::Cancelled {
                session_id: text_of(*session_id),
            },
            ServerMessage::Status { state, session_id, owner_client_id } => ServerMessage::Status {
                state: state@,
                session_id: text_of(*session_id),
                owner_client_id: text_of(*owner_client_id),
            },
            ServerMessage::AckOk => ServerMessage::AckOk,
            ServerMessage::Error { code, message } => ServerMessage::Error {
                code: *code,
                message: message@,
            },
            ServerMessage::Blocked { message, owner_client_id, session_id } => ServerMessage::Blocked {
                message: message@,
                owner_client_id: owner_client_id@,
                session_id: session_id@,
            },
        }
    }
}

/// An optional text as a JSON value: the text, or null.
pub open spec fn text_or_null(s: Option<Seq<char>>) -> Json {
    match s {
        Some(s) => Json::Text(s),
        None => Json::Null,
    }
}

/// An optional text as a JSON value: the text, or null.
pub fn scalar_or_null(s: &Option<String>) -> (r: Scalar)
    ensures
        r@ == text_or_null(text_of(*s)),
{
    match s {
        Some(s) => Scalar::Text(s.clone()),
        None => Scalar::Null,
    }
}

impl ServerMessage<Seq<char>> {
    /// The member `type`.
    pub open spec fn kind(self) -> Seq<char> {
        match self {
            ServerMessage::HelloOk => "hello_ok"@,
            ServerMessage::Started { .. } => "started"@,
            ServerMessage::Pong { .. } => "pong"@,
            ServerMessage::Result { .. } => "result"@,
            ServerMessage::Stopped { .. } => "stopped"@,
            ServerMessage::Cancelled { .. } => "cancelled"@,
            ServerMessage::Status { .. } => "status"@,
            ServerMessage::AckOk => "ack_ok"@,
            ServerMessage::Error { .. } => "error"@,
            ServerMessage::Blocked { .. } => "error"@,
        }
    }

    /// The members of the message.
    pub open spec fn members(self) -> Map<Seq<char>, Json> {
        let head = no_members().insert("type"@, Json::Text(self.kind()));
        match self {
            ServerMessage::HelloOk => head.insert(
                "protocolVersion"@,
                Json::Number(PROTOCOL_VERSION as nat),
            ),
            ServerMessage::Started { session_id, already_active } => {
                let m = head.insert("sessionId"@, Json::Text(session_id));
                if already_active {
                    m.insert("alreadyActive"@, Json::Flag(true))
                } else {
                    m
                }
            },
            ServerMessage::Pong { session_id } => match session_id {
                Some(id) => head.insert("sessionId"@, Json::Text(id)),
                None => head,
            },
            ServerMessage::Result { session_id, result_id, text } => head.insert(
                "sessionId"@,
                Json::Text(session_id),
            ).insert("resultId"@, Json::Text(result_id)).insert("text"@, Json::Text(text)),
            ServerMessage::Stopped { session_id, already_stopped } => {
                let m = head.insert("sessionId"@, Json::Text(session_id));
                if already_stopped {
                    m.insert("alreadyStopped"@, Json::Flag(true))
                } else {
                    m
                }
            },
            ServerMessage::Cancelled { session_id } => match session_id {
                Some(id) => head.insert("sessionId"@, Json::Text(id)),
                None => head,
            },
            ServerMessage::Status { state, session_id, owner_client_id } => head.insert(
                "state"@,
                Json::Text(state),
            ).insert("sessionId"@, text_or_null(session_id)).insert(
                "ownerClientId"@,
                text_or_null(owner_client_id),
            ).insert("protocolVersion"@, Json::Number(PROTOCOL_VERSION as nat)).insert(
                "lastError"@,
                Json::Null,
            ),
            ServerMessage::AckOk => head,
            ServerMessage::Error { code, message } => head.insert(
                "code"@,
                Json::Text(code.text()),
            ).insert("message"@, Json::Text(message)),
            ServerMessage::Blocked { message, owner_client_id, session_id } => head.insert(
                "code"@,
                Json::Text(ErrorCode::SessionBlocked.text()),
            ).insert("message"@, Json::Text(message)).insert(
                "ownerClientId"@,
                Json::Text(owner_client_id),
            ).insert("sessionId"@, Json::Text(session_id)),
        }
    }
}

fn head(kind: &str) -> (r: Object)
    ensures
        r@ == no_members().insert("type"@, Json::Text(kind@)),
        all_scalar(r@),
{
    Object::new().with_text("type", kind)
}

fn with_optional_text(object: Object, key: &str, value: &Option<String>) -> (r: Object)
    requires
        all_scalar(object@),
    ensures
        all_scalar(r@),
        r@ == match text_of(*value) {
            Some(value) => object@.insert(key@, Json::Text(value)),
            None => object@,
        },
{
    match value {
        Some(value) => object.with_text(key, value.as_str()),
        None => object,
    }
}

impl ServerMessage<String> {
    /// The message as the text of a frame; reading the text gives the members of the message back.
    pub fn encode(&self) -> (r: String)
        ensures
            r@ == json_written(self@.members()),
            json_read(r@) == read_well(self@.members()),
    {
        let object: Object = match self {
            ServerMessage::HelloOk => head("hello_ok").with(
                "protocolVersion",
                Scalar::Number(PROTOCOL_VERSION),
            ),
            ServerMessage::Started { session_id, already_active } => {
                let object: Object = head("started").with_text("sessionId", session_id.as_str());
                if *already_active {
                    object.with("alreadyActive", Scalar::Flag(true))
                } else {
                    object
                }
            },
            ServerMessage::Pong { session_id } => with_optional_text(
                head("pong"),
                "sessionId",
                session_id,
            ),
            ServerMessage::Result { session_id, result_id, text } => head("result").with_text(
                "sessionId",
                session_id.as_str(),
            ).with_text("resultId", result_id.as_str()).with_text("text", text.as_str()),
            ServerMessage::Stopped { session_id, already_stopped } => {
                let object: Object = head("stopped").with_text("sessionId", session_id.as_str());
                if *already_stopped {
                    object.with("alreadyStopped", Scalar::Flag(true))
                } else {
                    object
                }
            },
            ServerMessage::Cancelled { session_id } => with_optional_text(
                head("cancelled"),
                "sessionId",
                session_id,
            ),
            ServerMessage::Status { state, session_id, owner_client_id } => head(
                "status",
            ).with_text("state", state.as_str()).with("sessionId", scalar_or_null(session_id)).with(
                "ownerClientId",
                scalar_or_null(owner_client_id),
            ).with("protocolVersion", Scalar::Number(PROTOCOL_VERSION)).with(
                "lastError",
                Scalar::Null,
            ),
            ServerMessage::AckOk => head("ack_ok"),
            ServerMessage::Error { code, message } => head("error").with_text(
                "code",
                code.name(),
            ).with_text("message", message.as_str()),
            ServerMessage::Blocked { message, owner_client_id, session_id } => head(
                "error",
            ).with_text("code", ErrorCode::SessionBlocked.name()).with_text(
                "message",
                message.as_str(),
            ).with_text("ownerClientId", owner_client_id.as_str()).with_text(
                "sessionId",
                session_id.as_str(),
            ),
        };
        object.finish()
    }
}

/// What a client tells the phone.
#[derive(Debug, PartialEq, Eq)]
#[allow(inconsistent_fields)]
pub enum ClientMessage<S> {
    Hello { client_id: S },
    Start { client_id: S },
    /// The heartbeat of a session.
    Ping { client_id: S, session_id: S },
    /// The bare ping by which a phone is found.
    Probe,
    /// The end of a session; without a session it is the `stop` of phones that know no sessions.
    Stop { session: Option<(S, S)> },
    Cancel { client_id: S, session_id: Option<S> },
    Ack { client_id: S, result_id: S },
    /// The question where the phone's session stands.
    Status { client_id: S },
}

impl View for ClientMessage<String> {
    type V = ClientMessage<Seq<char>>;

    open spec fn view(&self) -> ClientMessage<Seq<char>> {
        match self {
            ClientMessage::Hello { client_id } => ClientMessage::Hello { client_id: client_id@ },
            ClientMessage::Start { client_id } => ClientMessage::Start { client_id: client_id@ },
            ClientMessage::Ping { client_id, session_id } => ClientMessage::Ping {
                client_id: client_id@,
                session_id: session_id@,
            },
            ClientMessage::Probe => ClientMessage::Probe,
            ClientMessage::Stop { session } => ClientMessage::Stop {
                session: match session {
                    Some(ids) => Some((ids.0@, ids.1@)),
                    None => None,
                },
            },
            ClientMessage::Cancel { client_id, session_id } => ClientMessage::Cancel {
                client_id: client_id@,
                session_id: text_of(*session_id),
            },
            ClientMessage::Ack { client_id, result_id } => ClientMessage::Ack {
                client_id: client_id@,
                result_id: result_id@,
            },
            ClientMessage::Status { client_id } => ClientMessage::Status { client_id: client_id@ },
        }
    }
}

impl ClientMessage<Seq<char>> {
    /// The member `type`.
    pub open spec fn kind(self) -> Seq<char> {
        match self {
            ClientMessage::Hello { .. } => "hello"@,
            ClientMessage::Start { .. } => "start"@,
            ClientMessage::Ping { .. } => "ping"@,
            ClientMessage::Probe => "ping"@,
            ClientMessage::Stop { .. } => "stop"@,
            ClientMessage::Cancel { .. } => "cancel"@,
            ClientMessage::Ack { .. } => "ack"@,
            ClientMessage::Status { .. } => "status"@,
        }
    }

    /// The members of the message. Every dictation asked for here goes without translation.
    pub open spec fn members(self) -> Map<Seq<char>, Json> {
        let head = no_members().insert("type"@, Json::Text(self.kind()));
        match self {
            ClientMessage::Hello { client_id } => head.insert(
                "clientId"@,
                Json::Text(client_id),
            ).insert("protocolVersion"@, Json::Number(PROTOCOL_VERSION as nat)),
            ClientMessage::Start { client_id } => head.insert(
                "clientId"@,
                Json::Text(client_id),
            ).insert("translation"@, Json::Flag(false)).insert(
                "protocolVersion"@,
                Json::Number(PROTOCOL_VERSION as nat),
            ),
            ClientMessage::Ping { client_id, session_id } => head.insert(
                "clientId"@,
                Json::Text(client_id),
            ).insert("sessionId"@, Json::Text(session_id)),
            ClientMessage::Probe => head,
            ClientMessage::Stop { session } => match session {
                Some((client_id, session_id)) => head.insert(
                    "clientId"@,
                    Json::Text(client_id),
                ).insert("sessionId"@, Json::Text(session_id)).insert(
                    "translation"@,
                    Json::Flag(false),
                ),
                None => head.insert("translation"@, Json::Flag(false)),
            },
            ClientMessage::Cancel { client_id, session_id } => {
                let m = head.insert("clientId"@, Json::Text(client_id));
                match session_id {
                    Some(id) => m.insert("sessionId"@, Json::Text(id)),
                    None => m,
                }
            },
            ClientMessage::Ack { client_id, result_id } => head.insert(
                "clientId"@,
                Json::Text(client_id),
            ).insert("resultId"@, Json::Text(result_id)),
            ClientMessage::Status { client_id } => head.insert("clientId"@, Json::Text(client_id)),
        }
    }
}

impl ClientMessage<String> {
    /// The message as the text of a frame; reading the text gives the members of the message back.
    pub fn encode(&self) -> (r: String)
        ensures
            r@ == json_written(self@.members()),
            json_read(r@) == read_well(self@.members()),
    {
        let object: Object = match self {
            ClientMessage::Hello { client_id } => head("hello").with_text(
                "clientId",
                client_id.as_str(),
            ).with("protocolVersion", Scalar::Number(PROTOCOL_VERSION)),
            ClientMessage::Start { client_id } => head("start").with_text(
                "clientId",
                client_id.as_str(),
            ).with("translation", Scalar::Flag(false)).with(
                "protocolVersion",
                Scalar::Number(PROTOCOL_VERSION),
            ),
            ClientMessage::Ping { client_id, session_id } => head("ping").with_text(
                "clientId",
                client_id.as_str(),
            ).with_text("sessionId", session_id.as_str()),
            ClientMessage::Probe => head("ping"),
            ClientMessage::Stop { session } => match session {
                Some((client_id, session_id)) => head("stop").with_text(
                    "clientId",
                    client_id.as_str(),
                ).with_text("sessionId", session_id.as_str()).with(
                    "translation",
                    Scalar::Flag(false),
                ),
                None => head("stop").with("translation", Scalar::Flag(false)),
            },
            ClientMessage::Cancel { client_id, session_id } => with_optional_text(
                head("cancel").with_text("clientId", client_id.as_str()),
                "sessionId",
                session_id,
            ),
            ClientMessage::Ack { client_id, result_id } => head("ack").with_text(
                "clientId",
                client_id.as_str(),
            ).with_text("resultId", result_id.as_str()),
            ClientMessage::Status { client_id } => head("status").with_text(
                "clientId",
                client_id.as_str(),
            ),
        };
        object.finish()
    }
}

/// What one reading of a socket brings.
#[derive(Debug, PartialEq, Eq)]
pub enum Incoming<S> {
    /// A text frame.
    Text(S),
    /// A close frame, or the end of the stream.
    Close,
    /// A frame of another kind.
    Other,
    /// Nothing within the time a reading may take.
    TimedOut,
    /// A failure, in its own words.
    Failed(S),
}

impl View for Incoming<String> {
    type V = Incoming<Seq<char>>;

    open spec fn view(&self) -> Incoming<Seq<char>> {
        match self {
            Incoming::Text(text) => Incoming::Text(text@),
            Incoming::Close => Incoming::Close,
            Incoming::Other => Incoming::Other,
            Incoming::TimedOut => Incoming::TimedOut,
            Incoming::Failed(error) => Incoming::Failed(error@),
        }
    }
}

/// Why a reading of a socket failed, as far as a reader looks into it.
#[derive(Clone, Copy, Debug, PartialEq, Eq, Structural)]
pub enum ReadFailure {
    WouldBlock,
    TimedOut,
    Other,
}

/// Whether a failed reading only ran out of its time, so that reading may go on.
pub fn is_read_timeout(failure: ReadFailure) -> (r: bool)
    ensures
        r == (failure == ReadFailure::WouldBlock || failure == ReadFailure::TimedOut),
{
    failure == ReadFailure::WouldBlock || failure == ReadFailure::TimedOut
}

/// The texts of a frame that its receiver looks at.
#[derive(Debug, PartialEq, Eq)]
pub struct Reply<S> {
    /// The member `type`.
    pub kind: Option<S>,
    pub session_id: Option<S>,
    pub result_id: Option<S>,
    pub text: Option<S>,
    pub code: Option<S>,
    pub message: Option<S>,
    pub owner_client_id: Option<S>,
    pub state: Option<S>,
}

impl View for Reply<String> {
    type V = Reply<Seq<char>>;

    open spec fn view(&self) -> Reply<Seq<char>> {
        Reply {
            kind: text_of(self.kind),
            session_id: text_of(self.session_id),
            result_id: text_of(self.result_id),
            text: text_of(self.text),
            code: text_of(self.code),
            message: text_of(self.message),
            owner_client_id: text_of(self.owner_client_id),
            state: text_of(self.state),
        }
    }
}

/// The texts that a receiver finds among the members of a document.
pub open spec fn reply_among(members: Map<Seq<char>, Json>) -> Reply<Seq<char>> {
    Reply {
        kind: text_at(members, "type"@),
        session_id: text_at(members, "sessionId"@),
        result_id: text_at(members, "resultId"@),
        text: text_at(members, "text"@),
        code: text_at(members, "code"@),
        message: text_at(members, "message"@),
        owner_client_id: text_at(members, "ownerClientId"@),
        state: text_at(members, "state"@),
    }
}

/// A frame as its receiver finds it, or the words in which the reader refuses it.
pub open spec fn reply_in(frame: Seq<char>) -> Result<Reply<Seq<char>>, Seq<char>> {
    match json_read(frame) {
        Ok(document) => Ok(reply_among(document.members())),
        Err(complaint) => Err(complaint),
    }
}

/// A reading of a frame, as `reply_in` puts it.
pub open spec fn reply_view(reply: Result<Reply<String>, String>) -> Result<Reply<Seq<char>>, Seq<char>> {
    match reply {
        Ok(reply) => Ok(reply@),
        Err(complaint) => Err(complaint@),
    }
}

/// Reads a frame.
pub fn read_reply(frame: &str) -> (r: Result<Reply<String>, String>)
    ensures
        reply_view(r) == reply_in(frame@),
{
    match Document::parse(frame) {
        Ok(document) => Ok(
            Reply {
                kind: document.text("type"),
                session_id: document.text("sessionId"),
                result_id: document.text("resultId"),
                text: document.text("text"),
                code: document.text("code"),
                message: document.text("message"),
                owner_client_id: document.text("ownerClientId"),
                state: document.text("state"),
            },
        ),
        Err(complaint) => Err(complaint),
    }
}

impl ServerMessage<Seq<char>> {
    /// What a receiver makes of the message.
    pub open spec fn as_reply(self) -> Reply<Seq<char>> {
        let bare = Reply {
            kind: Some(self.kind()),
            session_id: None,
            result_id: None,
            text: None,
            code: None,
            message: None,
            owner_client_id: None,
            state: None,
        };
        match self {
            ServerMessage::HelloOk => bare,
            ServerMessage::Started { session_id, .. } => Reply { session_id: Some(session_id), ..bare },
            ServerMessage::Pong { session_id } => Reply { session_id, ..bare },
            ServerMessage::Result { session_id, result_id, text } => Reply {
                session_id: Some(session_id),
                result_id: Some(result_id),
                text: Some(text),
                ..bare
            },
            ServerMessage::Stopped { session_id, .. } => Reply { session_id: Some(session_id), ..bare },
            ServerMessage::Cancelled { session_id } => Reply { session_id, ..bare },
            ServerMessage::Status { state, session_id, owner_client_id } => Reply {
                session_id,
                owner_client_id,
                state: Some(state),
                ..bare
            },
            ServerMessage::AckOk => bare,
            ServerMessage::Error { code, message } => Reply {
                code: Some(code.text()),
                message: Some(message),
                ..bare
            },
            ServerMessage::Blocked { message, owner_client_id, session_id } => Reply {
                code: Some(ErrorCode::SessionBlocked.text()),
                message: Some(message),
                owner_client_id: Some(owner_client_id),
                session_id: Some(session_id),
                ..bare
            },
        }
    }
}

/// What the phone says is what a client hears: a message that is encoded, sent and read arrives
/// with its kind and its texts, and with no text that it does not hold.
pub proof fn messages_survive_the_wire(message: ServerMessage<Seq<char>>, frame: Seq<char>)
    requires
        json_read(frame) == read_well(message.members()),
    ensures
        reply_in(frame) == Ok::<Reply<Seq<char>>, Seq<char>>(message.as_reply()),
{
    reveal_strlit("type");
    reveal_strlit("sessionId");
    reveal_strlit("resultId");
    reveal_strlit("text");
    reveal_strlit("code");
    reveal_strlit("message");
    reveal_strlit("ownerClientId");
    reveal_strlit("alreadyActive");
    reveal_strlit("alreadyStopped");
    reveal_strlit("state");
    reveal_strlit("protocolVersion");
    reveal_strlit("lastError");
    assert("type"@.len() == 4 && "text"@.len() == 4 && "code"@.len() == 4);
    assert("state"@.len() == 5 && "message"@.len() == 7 && "resultId"@.len() == 8);
    assert("sessionId"@.len() == 9 && "lastError"@.len() == 9);
    assert("ownerClientId"@.len() == 13 && "alreadyActive"@.len() == 13);
    assert("alreadyStopped"@.len() == 14 && "protocolVersion"@.len() == 15);
    assert("type"@[1] == 'y' && "text"@[1] == 'e' && "code"@[1] == 'o');
    assert("sessionId"@[0] == 's' && "lastError"@[0] == 'l');
    assert("ownerClientId"@[0] == 'o' && "alreadyActive"@[0] == 'a');
    let members = message.members();
    let reply = reply_among(members);
    let expected = message.as_reply();
    assert(reply.kind == expected.kind);
    assert(reply.session_id == expected.session_id);
    assert(reply.result_id == expected.result_id);
    assert(reply.text == expected.text);
    assert(reply.code == expected.code);
    assert(reply.message == expected.message);
    assert(reply.owner_client_id == expected.owner_client_id);
    assert(reply.state == expected.state);
}

} // verus!
