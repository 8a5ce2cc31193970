//! The beginning of a session on the desktop: `hello` and its answer, then `start` and its answer.

use vstd::prelude::*;

use crate::protocol::{
    read_reply, reply_in, reply_view, ClientMessage, ErrorCode, Incoming, Reply,
};
use crate::text::{is_text, text_of};

verus! {

/// How long the answer to `hello` is waited for, in nanoseconds. A phone that does not know `hello`
/// answers with an error, or not at all.
pub const HELLO_ACK_TIMEOUT: u64 = 800_000_000;

/// How long the answer to `start` is waited for, in nanoseconds.
pub const STARTED_TIMEOUT: u64 = 5_000_000_000;

/// How long connecting to a phone may take, in nanoseconds.
pub const CONNECT_TIMEOUT: u64 = 3_000_000_000;

/// How long a phone may take over each reading while the socket is upgraded to a WebSocket, in
/// nanoseconds.
pub const SESSION_READ_TIMEOUT: u64 = 10_000_000_000;

/// Where the way to a phone failed.
#[derive(Clone, Copy, Debug, PartialEq, Eq, Structural)]
pub enum ConnectStage {
    /// Its address could not be read.
    Address,
    /// It could not be reached.
    Connect,
    /// It would not speak WebSocket.
    Upgrade,
}

/// The URL of the phone at an address.
pub open spec fn url_text(address: Seq<char>) -> Seq<char> {
    "ws://"@ + address
}

/// What is told of a way to a phone that failed.
pub open spec fn connect_failure_text(
    stage: ConnectStage,
    address: Seq<char>,
    error: Seq<char>,
) -> Seq<char> {
    match stage {
        ConnectStage::Address => "bad address "@ + address + ": "@ + error,
        ConnectStage::Connect => "connect "@ + url_text(address) + ": "@ + error,
        ConnectStage::Upgrade => "handshake "@ + url_text(address) + ": "@ + error,
    }
}

/// The URL of the phone at an address.
pub fn phone_url(address: &str) -> (r: String)
    ensures
        r@ == url_text(address@),
{
    "ws://".to_string().concat(address)
}

/// What is told of a way to a phone that failed.
pub fn connect_failure(stage: ConnectStage, address: &str, error: &str) -> (r: String)
    ensures
        r@ == connect_failure_text(stage, address@, error@),
{
    let start: String = match stage {
        ConnectStage::Address => "bad address ".to_string().concat(address),
        ConnectStage::Connect => "connect ".to_string().concat(phone_url(address).as_str()),
        ConnectStage::Upgrade => "handshake ".to_string().concat(phone_url(address).as_str()),
    };
    start.concat(": ").concat(error)
}

/// What is told of a message that could not be sent.
pub fn send_failure(error: &str) -> (r: String)
    ensures
        r@ == "send: "@ + error@,
{
    "send: ".to_string().concat(error)
}

/// What is waited for.
#[derive(Clone, Copy, Debug, PartialEq, Eq, Structural)]
pub enum HandshakePhase {
    /// The answer to `hello`.
    Hello,
    /// The answer to `start`, from a phone that did or did not welcome the client.
    Start { hello_ok: bool },
}

/// A handshake, and since when it waits, in nanoseconds of a clock that never goes back.
#[derive(Clone, Copy, Debug, PartialEq, Eq, Structural)]
pub struct Handshake {
    pub phase: HandshakePhase,
    pub since: u64,
}

/// How a handshake goes on.
#[derive(Debug, PartialEq, Eq)]
pub enum HandshakeStep<S> {
    /// Read from the socket.
    Read,
    /// Send `start`, and note it with `start_sent`.
    SendStart { hello_ok: bool },
    /// There is a session. A phone that knows no sessions gives it no identifier.
    Ready { session_id: Option<S> },
    /// There is no session, for this reason.
    Failed(S),
    /// There is no session, for this reason; send `cancel` in case the phone records by now.
    Abandon(S),
}

impl View for HandshakeStep<String> {
    type V = HandshakeStep<Seq<char>>;

    open spec fn view(&self) -> HandshakeStep<Seq<char>> {
        match self {
            HandshakeStep::Read => HandshakeStep::Read,
            HandshakeStep::SendStart { hello_ok } => HandshakeStep::SendStart {
                hello_ok: *hello_ok,
            },
            HandshakeStep::Ready { session_id } => HandshakeStep::Ready {
                session_id: text_of(*session_id),
            },
            HandshakeStep::Failed(error) => HandshakeStep::Failed(error@),
            HandshakeStep::Abandon(error) => HandshakeStep::Abandon(error@),
        }
    }
}

/// The words of an error, or others where it has none.
pub open spec fn words_of(reply: Reply<Seq<char>>) -> Seq<char> {
    match reply.message {
        Some(message) => message,
        None => "phone error"@,
    }
}

/// What a text frame, once read, means to one who waits for the answer to `hello`. A welcome ends
/// the wait. The error that phone and client speak different versions ends the handshake; any other
/// error ends the wait too, as that of a phone that knows no `hello`. Anything else is passed over.
pub open spec fn hello_reply_step(reply: Result<Reply<Seq<char>>, Seq<char>>) -> HandshakeStep<Seq<char>> {
    match reply {
        Err(complaint) => HandshakeStep::Failed("bad hello ack json: "@ + complaint),
        Ok(reply) => if reply.kind == Some("hello_ok"@) {
            HandshakeStep::SendStart { hello_ok: true }
        } else if reply.kind == Some("error"@) {
            if reply.code == Some(ErrorCode::ProtocolMismatch.text()) {
                HandshakeStep::Failed(words_of(reply))
            } else {
                HandshakeStep::SendStart { hello_ok: false }
            }
        } else {
            HandshakeStep::Read
        },
    }
}

/// What the phone says when it refuses a `start`, with the one who holds the session where it
/// tells that.
pub open spec fn refusal_text(reply: Reply<Seq<char>>) -> Seq<char> {
    match reply.owner_client_id {
        Some(owner) if reply.code == Some(ErrorCode::SessionBlocked.text()) => words_of(reply)
            + "（占用者 "@ + owner + "）"@,
        _ => words_of(reply),
    }
}

/// What a text frame, once read, means to one who waits for the answer to `start`.
pub open spec fn start_reply_step(
    reply: Result<Reply<Seq<char>>, Seq<char>>,
    hello_ok: bool,
) -> HandshakeStep<Seq<char>> {
    match reply {
        Err(complaint) => HandshakeStep::Failed("bad started ack json: "@ + complaint),
        Ok(reply) => if reply.kind == Some("started"@) {
            if hello_ok && reply.session_id is None {
                HandshakeStep::Failed("手机端协议握手成功但 start 未返回 sessionId"@)
            } else {
                HandshakeStep::Ready { session_id: reply.session_id }
            }
        } else if reply.kind == Some("error"@) {
            HandshakeStep::Failed(refusal_text(reply))
        } else {
            HandshakeStep::Read
        },
    }
}

/// What a text frame, once read, means to a handshake.
pub open spec fn reply_step(
    phase: HandshakePhase,
    reply: Result<Reply<Seq<char>>, Seq<char>>,
) -> HandshakeStep<Seq<char>> {
    match phase {
        HandshakePhase::Hello => hello_reply_step(reply),
        HandshakePhase::Start { hello_ok } => start_reply_step(reply, hello_ok),
    }
}

/// What a reading of the socket means to a handshake.
pub open spec fn read_step(
    phase: HandshakePhase,
    incoming: Incoming<Seq<char>>,
) -> HandshakeStep<Seq<char>> {
    match incoming {
        Incoming::Text(frame) => reply_step(phase, reply_in(frame)),
        Incoming::Close => HandshakeStep::Failed(
            match phase {
                HandshakePhase::Hello => "phone closed connection during hello handshake"@,
                HandshakePhase::Start { .. } => "phone closed connection during start"@,
            },
        ),
        Incoming::Failed(error) => HandshakeStep::Failed(
            match phase {
                HandshakePhase::Hello => "hello handshake read: "@ + error,
                HandshakePhase::Start { .. } => "read started ack: "@ + error,
            },
        ),
        Incoming::Other | Incoming::TimedOut => HandshakeStep::Read,
    }
}

/// How a handshake goes on before the next reading: the wait for the answer to `hello` ends with a
/// `start` all the same, that for the answer to `start` ends the handshake.
pub open spec fn next_step(handshake: Handshake, now: u64) -> HandshakeStep<Seq<char>> {
    match handshake.phase {
        HandshakePhase::Hello => if now - handshake.since >= HELLO_ACK_TIMEOUT {
            HandshakeStep::SendStart { hello_ok: false }
        } else {
            HandshakeStep::Read
        },
        HandshakePhase::Start { .. } => if now - handshake.since >= STARTED_TIMEOUT {
            HandshakeStep::Abandon("timed out waiting for phone started"@)
        } else {
            HandshakeStep::Read
        },
    }
}

impl Handshake {
    /// A handshake whose `hello` was sent.
    pub fn begin(now: u64) -> (r: Handshake)
        ensures
            r == (Handshake { phase: HandshakePhase::Hello, since: now }),
    {
        Handshake { phase: HandshakePhase::Hello, since: now }
    }

    /// The `start` was sent.
    pub fn start_sent(&mut self, hello_ok: bool, now: u64)
        ensures
            *final(self) == (Handshake { phase: HandshakePhase::Start { hello_ok }, since: now }),
    {
        self.phase = HandshakePhase::Start { hello_ok };
        self.since = now;
    }

    /// How the handshake goes on before the next reading.
    pub fn next(&self, now: u64) -> (r: HandshakeStep<String>)
        ensures
            r@ == next_step(*self, now),
    {
        let waited: u64 = now.saturating_sub(self.since);
        match self.phase {
            HandshakePhase::Hello => if waited >= HELLO_ACK_TIMEOUT {
                HandshakeStep::SendStart { hello_ok: false }
            } else {
                HandshakeStep::Read
            },
            HandshakePhase::Start { .. } => if waited >= STARTED_TIMEOUT {
                HandshakeStep::Abandon("timed out waiting for phone started".to_string())
            } else {
                HandshakeStep::Read
            },
        }
    }

    /// Takes a text frame, once read.
    pub fn take_reply(&self, reply: Result<Reply<String>, String>) -> (r: HandshakeStep<String>)
        ensures
            r@ == reply_step(self.phase, reply_view(reply)),
    {
        match self.phase {
            HandshakePhase::Hello => match reply {
                Err(complaint) => HandshakeStep::Failed(
                    "bad hello ack json: ".to_string().concat(complaint.as_str()),
                ),
                Ok(reply) => {
                    if is_text(&reply.kind, "hello_ok") {
                        HandshakeStep::SendStart { hello_ok: true }
                    } else if is_text(&reply.kind, "error") {
                        if is_text(&reply.code, ErrorCode::ProtocolMismatch.name()) {
                            HandshakeStep::Failed(words(reply.message))
                        } else {
                            HandshakeStep::SendStart { hello_ok: false }
                        }
                    } else {
                        HandshakeStep::Read
                    }
                },
            },
            HandshakePhase::Start { hello_ok } => match reply {
                Err(complaint) => HandshakeStep::Failed(
                    "bad started ack json: ".to_string().concat(complaint.as_str()),
                ),
                Ok(reply) => {
                    if is_text(&reply.kind, "started") {
                        if hello_ok && reply.session_id.is_none() {
                            HandshakeStep::Failed(
                                "手机端协议握手成功但 start 未返回 sessionId".to_string(),
                            )
                        } else {
                            HandshakeStep::Ready { session_id: reply.session_id }
                        }
                    } else if is_text(&reply.kind, "error") {
                        HandshakeStep::Failed(refusal(reply))
                    } else {
                        HandshakeStep::Read
                    }
                },
            },
        }
    }

    /// Takes a reading of the socket.
    pub fn take_read(&self, incoming: &Incoming<String>) -> (r: HandshakeStep<String>)
        ensures
            r@ == read_step(self.phase, incoming@),
    {
        match incoming {
            Incoming::Text(frame) => self.take_reply(read_reply(frame.as_str())),
            Incoming::Close => HandshakeStep::Failed(
                match self.phase {
                    HandshakePhase::Hello => "phone closed connection during hello handshake".to_string(),
                    HandshakePhase::Start { .. } => "phone closed connection during start".to_string(),
                },
            ),
            Incoming::Failed(error) => HandshakeStep::Failed(
                match self.phase {
                    HandshakePhase::Hello => "hello handshake read: ".to_string().concat(
                        error.as_str(),
                    ),
                    HandshakePhase::Start { .. } => "read started ack: ".to_string().concat(
                        error.as_str(),
                    ),
                },
            ),
            Incoming::Other => HandshakeStep::Read,
            Incoming::TimedOut => HandshakeStep::Read,
        }
    }
}

fn words(message: Option<String>) -> (r: String)
    ensures
        r@ == match text_of(message) {
            Some(message) => message,
            None => "phone error"@,
        },
{
    match message {
        Some(message) => message,
        None => "phone error".to_string(),
    }
}

fn refusal(reply: Reply<String>) -> (r: String)
    ensures
        r@ == refusal_text(reply@),
{
    let blocked: bool = is_text(&reply.code, ErrorCode::SessionBlocked.name());
    let message: String = words(reply.message);
    if blocked {
        if let Some(owner) = &reply.owner_client_id {
            return message.concat("（占用者 ").concat(owner.as_str()).concat("）");
        }
    }
    message
}

/// The `hello` of a client.
pub fn hello_message(client_id: &str) -> (r: ClientMessage<String>)
    ensures
        r@ == (ClientMessage::Hello { client_id: client_id@ }),
{
    ClientMessage::Hello { client_id: client_id.to_string() }
}

/// The `start` of a client.
pub fn start_message(client_id: &str) -> (r: ClientMessage<String>)
    ensures
        r@ == (ClientMessage::Start { client_id: client_id@ }),
{
    ClientMessage::Start { client_id: client_id.to_string() }
}

/// The `cancel` of a client that waited in vain for the answer to its `start`.
pub fn abandon_message(client_id: &str) -> (r: ClientMessage<String>)
    ensures
        r@ == (ClientMessage::Cancel { client_id: client_id@, session_id: None::<Seq<char>> }),
{
    ClientMessage::Cancel { client_id: client_id.to_string(), session_id: None }
}

} // verus!
