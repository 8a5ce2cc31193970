use openless_remote::handshake::{
    abandon_message, connect_failure, hello_message, phone_url, send_failure, start_message,
    ConnectStage, Handshake, HandshakePhase, HandshakeStep, HELLO_ACK_TIMEOUT, STARTED_TIMEOUT,
};
use openless_remote::protocol::{ClientMessage, ErrorCode, Incoming, ServerMessage};

fn t(s: &str) -> String {
    s.to_string()
}

fn text(s: &str) -> Incoming<String> {
    Incoming::Text(t(s))
}

fn started(hello_ok: bool) -> Handshake {
    let mut handshake = Handshake::begin(0);
    handshake.start_sent(hello_ok, 5);
    handshake
}

fn failed(s: &str) -> HandshakeStep<String> {
    HandshakeStep::Failed(t(s))
}

#[test]
fn ways_to_a_phone_fail_in_stages() {
    assert_eq!(phone_url("1.2.3.4:5"), "ws://1.2.3.4:5");
    assert_eq!(connect_failure(ConnectStage::Address, "x", "e"), "bad address x: e");
    assert_eq!(connect_failure(ConnectStage::Connect, "x", "e"), "connect ws://x: e");
    assert_eq!(connect_failure(ConnectStage::Upgrade, "x", "e"), "handshake ws://x: e");
    assert_eq!(send_failure("e"), "send: e");
}

#[test]
fn messages_carry_the_client() {
    assert_eq!(hello_message("c"), ClientMessage::Hello { client_id: t("c") });
    assert_eq!(start_message("c"), ClientMessage::Start { client_id: t("c") });
    assert_eq!(
        abandon_message("c"),
        ClientMessage::Cancel { client_id: t("c"), session_id: None }
    );
}

#[test]
fn hello_is_waited_for_and_given_up() {
    let handshake = Handshake::begin(7);
    assert_eq!(handshake.phase, HandshakePhase::Hello);
    assert_eq!(handshake.next(7 + HELLO_ACK_TIMEOUT - 1), HandshakeStep::Read);
    assert_eq!(
        handshake.next(7 + HELLO_ACK_TIMEOUT),
        HandshakeStep::SendStart { hello_ok: false }
    );
    assert_eq!(
        handshake.take_read(&text(&ServerMessage::<String>::HelloOk.encode())),
        HandshakeStep::SendStart { hello_ok: true }
    );
    assert_eq!(
        handshake.take_read(&text("{\"type\":\"error\"}")),
        HandshakeStep::SendStart { hello_ok: false }
    );
    assert_eq!(handshake.take_read(&text("{\"type\":\"pong\"}")), HandshakeStep::Read);
    assert_eq!(handshake.take_read(&text("[]")), HandshakeStep::Read);
    assert_eq!(handshake.take_read(&Incoming::Other), HandshakeStep::Read);
    assert_eq!(handshake.take_read(&Incoming::TimedOut), HandshakeStep::Read);
    assert_eq!(
        handshake.take_read(&Incoming::Close),
        failed("phone closed connection during hello handshake")
    );
    assert_eq!(
        handshake.take_read(&Incoming::Failed(t("reset"))),
        failed("hello handshake read: reset")
    );
    assert_eq!(
        handshake.take_read(&text("")),
        failed("bad hello ack json: EOF while parsing a value at line 1 column 0")
    );
}

#[test]
fn a_started_session_has_its_identifier() {
    let message = ServerMessage::Started { session_id: t("s"), already_active: false };
    assert_eq!(
        started(true).take_read(&text(&message.encode())),
        HandshakeStep::Ready { session_id: Some(t("s")) }
    );
    assert_eq!(
        started(true).take_read(&text("{\"type\":\"started\"}")),
        failed("手机端协议握手成功但 start 未返回 sessionId")
    );
    assert_eq!(
        started(false).take_read(&text("{\"type\":\"started\"}")),
        HandshakeStep::Ready { session_id: None }
    );
}

#[test]
fn refusals_tell_who_holds_the_session() {
    let blocked = ServerMessage::Blocked {
        message: t("另一个桌面客户端正在使用当前会话"),
        owner_client_id: t("c"),
        session_id: t("s"),
    };
    assert_eq!(
        started(true).take_read(&text(&blocked.encode())),
        failed("另一个桌面客户端正在使用当前会话（占用者 c）")
    );
    let error = ServerMessage::Error { code: ErrorCode::StartFailed, message: t("m") };
    assert_eq!(started(true).take_read(&text(&error.encode())), failed("m"));
    assert_eq!(
        started(true).take_read(&text("{\"type\":\"error\",\"ownerClientId\":\"c\"}")),
        failed("phone error")
    );
}

#[test]
fn start_is_waited_for_and_given_up() {
    let handshake = started(true);
    assert_eq!(handshake.next(5 + STARTED_TIMEOUT - 1), HandshakeStep::Read);
    assert_eq!(
        handshake.next(5 + STARTED_TIMEOUT),
        HandshakeStep::Abandon(t("timed out waiting for phone started"))
    );
    assert_eq!(handshake.take_read(&text("{\"type\":\"pong\"}")), HandshakeStep::Read);
    assert_eq!(handshake.take_read(&Incoming::TimedOut), HandshakeStep::Read);
    assert_eq!(
        handshake.take_read(&Incoming::Close),
        failed("phone closed connection during start")
    );
    assert_eq!(
        handshake.take_read(&Incoming::Failed(t("reset"))),
        failed("read started ack: reset")
    );
    assert_eq!(handshake.take_reply(Err(t("e"))), failed("bad started ack json: e"));
}

#[test]
fn a_phone_of_another_version_is_not_tried() {
    assert_eq!(STARTED_TIMEOUT, 5_000_000_000);
    let handshake = Handshake::begin(0);
    let mismatch = ServerMessage::Error {
        code: ErrorCode::ProtocolMismatch,
        message: t("客户端协议 v3 高于服务端 v2，请升级手机端"),
    };
    assert_eq!(
        handshake.take_read(&text(&mismatch.encode())),
        failed("客户端协议 v3 高于服务端 v2，请升级手机端")
    );
    assert_eq!(
        handshake.take_read(&text("{\"type\":\"error\",\"code\":\"PROTOCOL_MISMATCH\"}")),
        failed("phone error")
    );
    let unknown = ServerMessage::Error { code: ErrorCode::UnknownCommand, message: t("m") };
    assert_eq!(
        handshake.take_read(&text(&unknown.encode())),
        HandshakeStep::SendStart { hello_ok: false }
    );
}
