use openless_remote::protocol::{
    is_read_timeout, read_reply, ClientMessage, ErrorCode, ReadFailure, Reply, ServerMessage,
    DEFAULT_PORT, PROTOCOL_VERSION,
};

fn reply(kind: &str) -> Reply<String> {
    Reply {
        kind: Some(kind.to_string()),
        session_id: None,
        result_id: None,
        text: None,
        code: None,
        message: None,
        owner_client_id: None,
        state: None,
    }
}

fn t(s: &str) -> String {
    s.to_string()
}

#[test]
fn port_and_version_are_fixed() {
    assert_eq!(DEFAULT_PORT, 45678);
    assert_eq!(PROTOCOL_VERSION, 2);
}

#[test]
fn phone_messages_are_encoded() {
    assert_eq!(
        ServerMessage::<String>::HelloOk.encode(),
        "{\"protocolVersion\":2,\"type\":\"hello_ok\"}"
    );
    assert_eq!(
        ServerMessage::Started { session_id: t("s"), already_active: false }.encode(),
        "{\"sessionId\":\"s\",\"type\":\"started\"}"
    );
    assert_eq!(
        ServerMessage::Started { session_id: t("s"), already_active: true }.encode(),
        "{\"alreadyActive\":true,\"sessionId\":\"s\",\"type\":\"started\"}"
    );
    assert_eq!(
        ServerMessage::Pong::<String> { session_id: None }.encode(),
        "{\"type\":\"pong\"}"
    );
    assert_eq!(
        ServerMessage::Pong { session_id: Some(t("s")) }.encode(),
        "{\"sessionId\":\"s\",\"type\":\"pong\"}"
    );
    assert_eq!(
        ServerMessage::Result { session_id: t("s"), result_id: t("r"), text: t("你好") }.encode(),
        "{\"resultId\":\"r\",\"sessionId\":\"s\",\"text\":\"你好\",\"type\":\"result\"}"
    );
    assert_eq!(
        ServerMessage::Stopped { session_id: t("s"), already_stopped: true }.encode(),
        "{\"alreadyStopped\":true,\"sessionId\":\"s\",\"type\":\"stopped\"}"
    );
    assert_eq!(
        ServerMessage::Stopped { session_id: t("s"), already_stopped: false }.encode(),
        "{\"sessionId\":\"s\",\"type\":\"stopped\"}"
    );
    assert_eq!(
        ServerMessage::Cancelled::<String> { session_id: None }.encode(),
        "{\"type\":\"cancelled\"}"
    );
    assert_eq!(
        ServerMessage::Status { state: t("idle"), session_id: None, owner_client_id: None }.encode(),
        "{\"lastError\":null,\"ownerClientId\":null,\"protocolVersion\":2,\"sessionId\":null,\
         \"state\":\"idle\",\"type\":\"status\"}"
    );
    assert_eq!(ServerMessage::<String>::AckOk.encode(), "{\"type\":\"ack_ok\"}");
    assert_eq!(
        ServerMessage::Error { code: ErrorCode::BadAck, message: t("m") }.encode(),
        "{\"code\":\"BAD_ACK\",\"message\":\"m\",\"type\":\"error\"}"
    );
    assert_eq!(
        ServerMessage::Blocked { message: t("m"), owner_client_id: t("o"), session_id: t("s") }
            .encode(),
        "{\"code\":\"SESSION_BLOCKED\",\"message\":\"m\",\"ownerClientId\":\"o\",\
         \"sessionId\":\"s\",\"type\":\"error\"}"
    );
}

#[test]
fn desktop_messages_are_encoded() {
    assert_eq!(
        ClientMessage::Hello { client_id: t("c") }.encode(),
        "{\"clientId\":\"c\",\"protocolVersion\":2,\"type\":\"hello\"}"
    );
    assert_eq!(
        ClientMessage::Start { client_id: t("c") }.encode(),
        "{\"clientId\":\"c\",\"protocolVersion\":2,\"translation\":false,\"type\":\"start\"}"
    );
    assert_eq!(
        ClientMessage::Ping { client_id: t("c"), session_id: t("s") }.encode(),
        "{\"clientId\":\"c\",\"sessionId\":\"s\",\"type\":\"ping\"}"
    );
    assert_eq!(ClientMessage::<String>::Probe.encode(), "{\"type\":\"ping\"}");
    assert_eq!(
        ClientMessage::Stop { session: Some((t("c"), t("s"))) }.encode(),
        "{\"clientId\":\"c\",\"sessionId\":\"s\",\"translation\":false,\"type\":\"stop\"}"
    );
    assert_eq!(
        ClientMessage::<String>::Stop { session: None }.encode(),
        "{\"translation\":false,\"type\":\"stop\"}"
    );
    assert_eq!(
        ClientMessage::Cancel { client_id: t("c"), session_id: Some(t("s")) }.encode(),
        "{\"clientId\":\"c\",\"sessionId\":\"s\",\"type\":\"cancel\"}"
    );
    assert_eq!(
        ClientMessage::Cancel { client_id: t("c"), session_id: None }.encode(),
        "{\"clientId\":\"c\",\"type\":\"cancel\"}"
    );
    assert_eq!(
        ClientMessage::Ack { client_id: t("c"), result_id: t("r") }.encode(),
        "{\"clientId\":\"c\",\"resultId\":\"r\",\"type\":\"ack\"}"
    );
    assert_eq!(
        ClientMessage::Status { client_id: t("c") }.encode(),
        "{\"clientId\":\"c\",\"type\":\"status\"}"
    );
}

#[test]
fn messages_arrive_as_they_were_sent() {
    let result = ServerMessage::Result { session_id: t("s"), result_id: t("r"), text: t("a\"b") };
    let mut expected = reply("result");
    expected.session_id = Some(t("s"));
    expected.result_id = Some(t("r"));
    expected.text = Some(t("a\"b"));
    assert_eq!(read_reply(&result.encode()), Ok(expected));

    let status = ServerMessage::Status {
        state: t("recording"),
        session_id: Some(t("s")),
        owner_client_id: None,
    };
    let mut expected = reply("status");
    expected.session_id = Some(t("s"));
    expected.state = Some(t("recording"));
    assert_eq!(read_reply(&status.encode()), Ok(expected));

    let blocked =
        ServerMessage::Blocked { message: t("m"), owner_client_id: t("o"), session_id: t("s") };
    let mut expected = reply("error");
    expected.code = Some(t("SESSION_BLOCKED"));
    expected.message = Some(t("m"));
    expected.owner_client_id = Some(t("o"));
    expected.session_id = Some(t("s"));
    assert_eq!(read_reply(&blocked.encode()), Ok(expected));
}

#[test]
fn replies_hold_texts_alone() {
    let read = read_reply("{\"type\":\"started\",\"sessionId\":7,\"message\":null}").unwrap();
    assert_eq!(read, reply("started"));
    assert_eq!(
        read_reply("nonsense"),
        Err(t("expected ident at line 1 column 2"))
    );
}

#[test]
fn error_codes_have_their_names() {
    let names = [
        (ErrorCode::InvalidCommand, "invalid command"),
        (ErrorCode::ProtocolMismatch, "PROTOCOL_MISMATCH"),
        (ErrorCode::StartFailed, "START_FAILED"),
        (ErrorCode::NoSession, "NO_SESSION"),
        (ErrorCode::SessionBlocked, "SESSION_BLOCKED"),
        (ErrorCode::StopFailed, "STOP_FAILED"),
        (ErrorCode::ResultTimeout, "RESULT_TIMEOUT"),
        (ErrorCode::BadAck, "BAD_ACK"),
        (ErrorCode::NoPendingResult, "NO_PENDING_RESULT"),
        (ErrorCode::UnknownCommand, "UNKNOWN_COMMAND"),
    ];
    for (code, name) in names {
        assert_eq!(code.name(), name);
    }
}

#[test]
fn timeouts_are_told_from_failures() {
    assert!(is_read_timeout(ReadFailure::WouldBlock));
    assert!(is_read_timeout(ReadFailure::TimedOut));
    assert!(!is_read_timeout(ReadFailure::Other));
}
