use openless_remote::protocol::{ClientCommand, ErrorCode, Incoming, ServerMessage};
use openless_remote::registry::{SessionPhase, HEARTBEAT_TIMEOUT};
use openless_remote::server::{
    ack_in_reply, after_wait, begin_delivery, command_client_id, delivery_of, poll_result,
    wait_for_ack, AckOutcome, AckStep, Answer, Connection, DeliveryStep, FinishedSession,
    ResultPoll, ServerStep, SessionHub, SweepStep, Sweeper, ACK_WAIT, MAX_RESULT_SENDS,
    RESULT_POLL_INTERVAL, RESULT_TIMEOUT, SWEEP_INTERVAL,
};

const SECOND: u64 = 1_000_000_000;

fn t(s: &str) -> String {
    s.to_string()
}

fn command(kind: &str, client: Option<&str>, session: Option<&str>) -> ClientCommand<String> {
    ClientCommand {
        kind: t(kind),
        client_id: client.map(t),
        session_id: session.map(t),
        result_id: None,
        protocol_version: None,
        translation: false,
    }
}

fn said(message: ServerMessage<String>) -> ServerStep<String> {
    ServerStep::Reply(Answer { cancel_dictation: false, leave_capture: false, message })
}

fn refused(code: ErrorCode, message: &str) -> ServerStep<String> {
    said(ServerMessage::Error { code, message: t(message) })
}

fn connection(id: u64) -> Connection<String> {
    Connection::new(id, format!("192.168.1.{id}:5000"))
}

/// A hub with the session `s`, opened by client `c` on connection 1 at time 0.
fn opened() -> (SessionHub, Connection<String>) {
    let mut hub = SessionHub::new();
    let mut conn = connection(1);
    let start = command("start", Some("c"), None);
    assert_eq!(
        hub.handle_command(&mut conn, &start, 0),
        ServerStep::BeginDictation { translation: false }
    );
    assert!(hub.is_starting(&conn));
    let answer = hub.open_session(&mut conn, &start, Some(t("old")), t("s"), 0);
    assert_eq!(
        answer,
        Answer {
            cancel_dictation: false,
            leave_capture: false,
            message: ServerMessage::Started { session_id: t("s"), already_active: false },
        }
    );
    assert!(!hub.is_starting(&conn));
    (hub, conn)
}

#[test]
fn hello_is_answered_by_version() {
    let mut hub = SessionHub::new();
    let mut conn = connection(1);
    let mut hello = command("hello", Some("c"), None);
    assert_eq!(hub.handle_command(&mut conn, &hello, 0), said(ServerMessage::HelloOk));
    hello.protocol_version = Some(2);
    assert_eq!(hub.handle_command(&mut conn, &hello, 0), said(ServerMessage::HelloOk));
    hello.protocol_version = Some(13);
    assert_eq!(
        hub.handle_command(&mut conn, &hello, 0),
        refused(ErrorCode::ProtocolMismatch, "客户端协议 v13 高于服务端 v2，请升级手机端")
    );
}

#[test]
fn clients_go_by_name_or_address() {
    assert_eq!(command_client_id(&command("start", Some("c"), None), "1.2.3.4:5"), "c");
    assert_eq!(
        command_client_id(&command("start", None, None), "1.2.3.4:5"),
        "legacy:1.2.3.4:5"
    );
}

#[test]
fn frames_that_are_no_commands_are_refused() {
    let mut hub = SessionHub::new();
    let mut conn = connection(1);
    assert_eq!(
        hub.handle_frame(&mut conn, &Err(t("missing field `type`")), 0),
        refused(ErrorCode::InvalidCommand, "invalid command: missing field `type`")
    );
    assert_eq!(
        hub.handle_frame(&mut conn, &Ok(command("dance", None, None)), 0),
        refused(ErrorCode::UnknownCommand, "unknown command: dance")
    );
}

#[test]
fn starting_again_gives_the_same_session() {
    let (mut hub, mut conn) = opened();
    let again = said(ServerMessage::Started { session_id: t("s"), already_active: true });
    assert_eq!(hub.handle_command(&mut conn, &command("start", Some("c"), None), 1), again);
    let mut other = connection(2);
    assert_eq!(hub.handle_command(&mut other, &command("start", Some("c"), None), 1), again);
    let adopted = other.session.unwrap();
    assert_eq!(adopted.session_id, "s");
    assert_eq!(adopted.previous_first_id, Some(t("old")));
}

#[test]
fn another_client_is_blocked() {
    let (mut hub, _conn) = opened();
    let mut other = connection(2);
    assert_eq!(
        hub.handle_command(&mut other, &command("start", Some("d"), None), 1),
        said(ServerMessage::Blocked {
            message: t("另一个桌面客户端正在使用当前会话"),
            owner_client_id: t("c"),
            session_id: t("s"),
        })
    );
    assert_eq!(other.session, None);
    assert_eq!(
        hub.handle_command(&mut other, &command("stop", Some("d"), Some("s")), 1),
        refused(ErrorCode::NoSession, "手机端没有正在进行的会话")
    );
    assert_eq!(
        hub.handle_command(&mut other, &command("ping", Some("d"), Some("s")), 1),
        refused(ErrorCode::NoSession, "心跳对应的会话不存在或不属于该客户端")
    );
}

#[test]
fn starts_are_taken_one_by_one() {
    let mut hub = SessionHub::new();
    let mut first = connection(1);
    let mut second = connection(2);
    let mut start = command("start", Some("c"), None);
    start.translation = true;
    assert_eq!(
        hub.handle_command(&mut first, &start, 0),
        ServerStep::BeginDictation { translation: true }
    );
    let other = command("start", Some("d"), None);
    assert_eq!(hub.handle_command(&mut second, &other, 0), ServerStep::AwaitStart);
    assert!(!hub.is_starting(&second));
    let answer = hub.finish_start(&mut first, &start, None, Err(t("no microphone")), 1);
    assert_eq!(
        answer,
        Answer {
            cancel_dictation: false,
            leave_capture: true,
            message: ServerMessage::Error {
                code: ErrorCode::StartFailed,
                message: t("手机端启动听写失败：no microphone"),
            },
        }
    );
    assert_eq!(first.session, None);
    assert_eq!(
        hub.handle_command(&mut second, &other, 2),
        ServerStep::BeginDictation { translation: false }
    );
    let answer = hub.finish_start(&mut second, &other, None, Ok(()), 3);
    let id = second.session.unwrap().session_id;
    assert_eq!(id.len(), 36);
    assert_eq!(
        answer.message,
        ServerMessage::Started { session_id: id, already_active: false }
    );
}

#[test]
fn only_a_matching_stop_ends_the_dictation() {
    let (mut hub, mut conn) = opened();
    assert_eq!(
        hub.handle_command(&mut conn, &command("stop", Some("c"), Some("x")), 1),
        refused(ErrorCode::NoSession, "sessionId 不匹配，手机端没有该会话")
    );
    assert_eq!(
        hub.handle_command(&mut conn, &command("stop", Some("c"), None), 1),
        refused(ErrorCode::NoSession, "sessionId 不匹配，手机端没有该会话")
    );
    assert_eq!(
        hub.handle_command(&mut conn, &command("stop", Some("d"), Some("s")), 1),
        refused(ErrorCode::SessionBlocked, "只有持有会话的客户端才能停止")
    );
    assert_eq!(
        hub.handle_command(&mut conn, &command("stop", Some("c"), Some("s")), 1),
        ServerStep::EndDictation { translation: false }
    );
    assert_eq!(
        hub.handle_command(&mut conn, &command("stop", Some("c"), Some("s")), 2),
        said(ServerMessage::Stopped { session_id: t("s"), already_stopped: true })
    );
}

#[test]
fn a_client_without_a_name_can_stop_and_is_not_swept() {
    let mut hub = SessionHub::new();
    let mut conn = connection(1);
    let start = command("start", None, None);
    hub.handle_command(&mut conn, &start, 0);
    hub.open_session(&mut conn, &start, None, t("s"), 0);
    assert!(hub.sweep(100 * SECOND).is_empty());
    let mut other = connection(2);
    assert_eq!(
        hub.handle_command(&mut other, &command("start", None, None), 1),
        said(ServerMessage::Blocked {
            message: t("另一个桌面客户端正在使用当前会话"),
            owner_client_id: t("legacy:192.168.1.1:5000"),
            session_id: t("s"),
        })
    );
    assert_eq!(
        hub.handle_command(&mut conn, &command("stop", None, None), 1),
        ServerStep::EndDictation { translation: false }
    );
}

#[test]
fn a_result_is_delivered_and_acknowledged() {
    let (mut hub, mut conn) = opened();
    hub.handle_command(&mut conn, &command("stop", Some("c"), Some("s")), 1);
    let mut delivery = delivery_of(&conn, &command("stop", Some("c"), Some("s")), t("text"), t("r"));
    assert_eq!(
        hub.send_result(&mut delivery),
        ServerMessage::Result { session_id: t("s"), result_id: t("r"), text: t("text") }
    );
    assert_eq!(delivery.after_send(), DeliveryStep::AwaitAck(ACK_WAIT));
    let mut ack = command("ack", Some("c"), None);
    assert_eq!(
        hub.handle_command(&mut conn, &ack, 2),
        refused(ErrorCode::BadAck, "ack 缺少 resultId")
    );
    ack.result_id = Some(t("other"));
    assert_eq!(
        hub.handle_command(&mut conn, &ack, 2),
        refused(ErrorCode::NoPendingResult, "没有匹配的待确认结果")
    );
    ack.result_id = Some(t("r"));
    assert_eq!(hub.handle_command(&mut conn, &ack, 2), said(ServerMessage::AckOk));
    assert_eq!(
        hub.handle_command(&mut conn, &ack, 2),
        refused(ErrorCode::NoPendingResult, "没有匹配的待确认结果")
    );
    assert_eq!(
        hub.finish_delivery(&mut conn, delivery),
        Answer {
            cancel_dictation: false,
            leave_capture: true,
            message: ServerMessage::Stopped { session_id: t("s"), already_stopped: false },
        }
    );
    assert_eq!(conn.session, None);
    assert_eq!(
        hub.handle_command(&mut conn, &command("start", Some("d"), None), 3),
        ServerStep::BeginDictation { translation: false }
    );
}

#[test]
fn a_result_goes_out_twice_at_most() {
    let (mut hub, mut conn) = opened();
    hub.handle_command(&mut conn, &command("stop", Some("c"), Some("s")), 1);
    let mut delivery = begin_delivery(&conn, &command("stop", Some("c"), Some("s")), t("text"));
    assert_eq!(delivery.result_id.len(), 36);
    let first = hub.send_result(&mut delivery);
    assert_eq!(delivery.after_send(), DeliveryStep::AwaitAck(ACK_WAIT));
    assert_eq!(after_wait(AckOutcome::TimedOut), DeliveryStep::Send);
    assert_eq!(hub.send_result(&mut delivery), first);
    assert_eq!(delivery.after_send(), DeliveryStep::Finish);
    assert_eq!(delivery.sent, MAX_RESULT_SENDS);
    assert_eq!(after_wait(AckOutcome::Acked), DeliveryStep::Finish);
    assert_eq!(after_wait(AckOutcome::Failed), DeliveryStep::Finish);
}

#[test]
fn failed_ends_release_the_session() {
    let (mut hub, mut conn) = opened();
    hub.handle_command(&mut conn, &command("stop", Some("c"), Some("s")), 1);
    let answer = hub.stop_failed(&mut conn, "device lost");
    assert!(answer.leave_capture && !answer.cancel_dictation);
    assert_eq!(
        answer.message,
        ServerMessage::Error { code: ErrorCode::StopFailed, message: t("stop failed: device lost") }
    );
    assert_eq!(conn.session, None);

    let (mut hub, mut conn) = opened();
    hub.handle_command(&mut conn, &command("stop", Some("c"), Some("s")), 1);
    let answer = hub.result_timed_out(&mut conn);
    assert_eq!(
        answer.message,
        ServerMessage::Error {
            code: ErrorCode::ResultTimeout,
            message: t("手机端处理超时，未返回听写结果"),
        }
    );
    assert_eq!(
        hub.handle_command(&mut conn, &command("status", None, None), 2),
        said(ServerMessage::Status { state: t("idle"), session_id: None, owner_client_id: None })
    );
}

#[test]
fn cancelling_needs_the_holder() {
    let (mut hub, mut conn) = opened();
    assert_eq!(
        hub.handle_command(&mut conn, &command("cancel", Some("d"), Some("s")), 1),
        refused(ErrorCode::SessionBlocked, "只有持有会话的客户端才能取消")
    );
    assert_eq!(
        hub.handle_command(&mut conn, &command("cancel", Some("c"), Some("s")), 1),
        ServerStep::Reply(Answer {
            cancel_dictation: true,
            leave_capture: true,
            message: ServerMessage::Cancelled { session_id: Some(t("s")) },
        })
    );
    assert_eq!(
        hub.handle_command(&mut conn, &command("cancel", Some("c"), Some("s")), 1),
        said(ServerMessage::Cancelled { session_id: None })
    );
}

#[test]
fn a_reconnected_client_can_clear_its_session() {
    let (mut hub, _lost) = opened();
    let mut conn = connection(9);
    assert_eq!(
        hub.handle_command(&mut conn, &command("status", Some("c"), None), 1),
        said(ServerMessage::Status {
            state: t("recording"),
            session_id: Some(t("s")),
            owner_client_id: Some(t("c")),
        })
    );
    hub.handle_command(&mut conn, &command("start", Some("c"), None), 1);
    match hub.handle_command(&mut conn, &command("cancel", Some("c"), Some("s")), 1) {
        ServerStep::Reply(answer) => assert!(answer.cancel_dictation),
        _ => panic!("not cancelled"),
    }
}

#[test]
fn status_names_the_phases() {
    assert_eq!(SessionPhase::Recording.state_name(), "recording");
    assert_eq!(SessionPhase::Stopping.state_name(), "transcribing");
    assert_eq!(SessionPhase::ResultPending.state_name(), "transcribing");
}

#[test]
fn pings_keep_a_session_alive() {
    let (mut hub, mut conn) = opened();
    assert_eq!(
        hub.handle_command(&mut conn, &command("ping", None, None), 1),
        said(ServerMessage::Pong { session_id: None })
    );
    assert_eq!(
        hub.handle_command(&mut conn, &command("ping", Some("c"), Some("s")), 2 * SECOND),
        said(ServerMessage::Pong { session_id: Some(t("s")) })
    );
    assert!(hub.sweep(2 * SECOND + HEARTBEAT_TIMEOUT).is_empty());
    let told = hub.sweep(2 * SECOND + HEARTBEAT_TIMEOUT + 1);
    assert_eq!(told.len(), 1);
    assert_eq!(told[0].session_id, "s");
    assert_eq!(told[0].owner_client_id, "c");
    assert_eq!(told[0].connection, 1);
    assert!(hub.sweep(100 * SECOND).is_empty());
    assert!(!hub.close_connection(conn));
}

#[test]
fn a_session_that_winds_up_is_not_swept() {
    let (mut hub, mut conn) = opened();
    hub.handle_command(&mut conn, &command("stop", Some("c"), Some("s")), 1);
    assert!(hub.sweep(100 * SECOND).is_empty());
    assert_eq!(
        hub.handle_command(&mut conn, &command("status", None, None), 100 * SECOND),
        said(ServerMessage::Status {
            state: t("transcribing"),
            session_id: Some(t("s")),
            owner_client_id: Some(t("c")),
        })
    );
}

#[test]
fn a_lost_connection_cancels_its_recording() {
    let (mut hub, conn) = opened();
    assert!(hub.close_connection(conn));
    let mut next = connection(2);
    assert_eq!(
        hub.handle_command(&mut next, &command("start", Some("d"), None), 1),
        ServerStep::BeginDictation { translation: false }
    );
    assert!(!hub.close_connection(next));
    let mut third = connection(3);
    assert_eq!(
        hub.handle_command(&mut third, &command("start", Some("e"), None), 1),
        ServerStep::BeginDictation { translation: false }
    );
}

#[test]
fn a_lost_connection_leaves_the_sessions_of_others() {
    let (mut hub, _conn) = opened();
    let mut other = connection(2);
    hub.handle_command(&mut other, &command("start", Some("c"), None), 1);
    assert!(!hub.close_connection(other));
    let mut third = connection(3);
    assert_eq!(
        hub.handle_command(&mut third, &command("start", Some("c"), None), 1),
        said(ServerMessage::Started { session_id: t("s"), already_active: true })
    );
}

fn entry(id: &str, text: &str) -> Option<FinishedSession<String>> {
    Some(FinishedSession { id: t(id), final_text: t(text) })
}

#[test]
fn results_are_looked_for_in_the_history() {
    let old = Some(t("old"));
    assert_eq!(poll_result(None, &old, 0, 1), ResultPoll::Wait(RESULT_POLL_INTERVAL));
    assert_eq!(poll_result(entry("old", "text"), &old, 0, 1), ResultPoll::Wait(RESULT_POLL_INTERVAL));
    assert_eq!(poll_result(entry("new", " \n"), &old, 0, 1), ResultPoll::Wait(RESULT_POLL_INTERVAL));
    assert_eq!(poll_result(entry("new", " text "), &old, 0, 1), ResultPoll::Ready(t(" text ")));
    assert_eq!(poll_result(entry("old", "text"), &None, 0, 1), ResultPoll::Ready(t("text")));
    assert_eq!(poll_result(None, &old, 5, 5 + RESULT_TIMEOUT - 1), ResultPoll::Wait(RESULT_POLL_INTERVAL));
    assert_eq!(poll_result(None, &old, 5, 5 + RESULT_TIMEOUT), ResultPoll::TimedOut);
    assert_eq!(
        poll_result(entry("new", "late"), &old, 5, 5 + RESULT_TIMEOUT),
        ResultPoll::Ready(t("late"))
    );
}

#[test]
fn acknowledgements_are_told_from_other_frames() {
    let text = |s: &str| Incoming::Text(t(s));
    assert_eq!(
        wait_for_ack(&text("{\"type\":\"ack\",\"resultId\":\"r\"}"), "r"),
        AckStep::Acked
    );
    assert_eq!(
        wait_for_ack(&text("{\"type\":\"ack\",\"resultId\":\"x\"}"), "r"),
        AckStep::Wait
    );
    assert_eq!(wait_for_ack(&text("{\"type\":\"ping\"}"), "r"), AckStep::Wait);
    assert_eq!(
        wait_for_ack(&text("{\"type\":\"error\",\"message\":\"m\"}"), "r"),
        AckStep::Failed(t("m"))
    );
    assert_eq!(
        wait_for_ack(&text("{\"type\":\"error\"}"), "r"),
        AckStep::Failed(t("phone error while waiting ack"))
    );
    assert_eq!(
        wait_for_ack(&text(""), "r"),
        AckStep::Failed(t("bad ack json: EOF while parsing a value at line 1 column 0"))
    );
    assert_eq!(
        wait_for_ack(&Incoming::Close, "r"),
        AckStep::Failed(t("connection closed while waiting for ack"))
    );
    assert_eq!(
        wait_for_ack(&Incoming::Failed(t("reset")), "r"),
        AckStep::Failed(t("websocket read while waiting ack: reset"))
    );
    assert_eq!(wait_for_ack(&Incoming::Other, "r"), AckStep::Wait);
    assert_eq!(wait_for_ack(&Incoming::TimedOut, "r"), AckStep::Wait);
    assert_eq!(ack_in_reply(Err(t("e")), "r"), AckStep::Failed(t("bad ack json: e")));
}

#[test]
fn a_stop_after_the_end_is_told_so() {
    let (mut hub, mut conn) = opened();
    let stop = command("stop", Some("c"), Some("s"));
    hub.handle_command(&mut conn, &stop, 1);
    let mut delivery = begin_delivery(&conn, &stop, t("text"));
    hub.send_result(&mut delivery);
    hub.finish_delivery(&mut conn, delivery);
    let stopped = said(ServerMessage::Stopped { session_id: t("s"), already_stopped: true });
    assert_eq!(hub.handle_command(&mut conn, &stop, 2), stopped);
    assert_eq!(hub.handle_command(&mut conn, &stop, 3), stopped);
    let none = refused(ErrorCode::NoSession, "手机端没有正在进行的会话");
    assert_eq!(hub.handle_command(&mut conn, &command("stop", Some("d"), Some("s")), 3), none);
    assert_eq!(hub.handle_command(&mut conn, &command("stop", Some("c"), Some("x")), 3), none);
    assert_eq!(hub.handle_command(&mut conn, &command("stop", Some("c"), None), 3), none);
    assert_eq!(hub.handle_command(&mut connection(2), &stop, 3), none);
}

#[test]
fn a_stop_after_a_failed_one_finds_no_session() {
    let (mut hub, mut conn) = opened();
    let stop = command("stop", Some("c"), Some("s"));
    hub.handle_command(&mut conn, &stop, 1);
    hub.stop_failed(&mut conn, "device lost");
    assert_eq!(
        hub.handle_command(&mut conn, &stop, 2),
        refused(ErrorCode::NoSession, "手机端没有正在进行的会话")
    );
}

#[test]
fn a_client_without_a_name_may_stop_again() {
    let mut hub = SessionHub::new();
    let mut conn = connection(1);
    let start = command("start", None, None);
    hub.handle_command(&mut conn, &start, 0);
    hub.open_session(&mut conn, &start, None, t("s"), 0);
    let stop = command("stop", None, None);
    hub.handle_command(&mut conn, &stop, 1);
    let delivery = begin_delivery(&conn, &stop, t("text"));
    hub.finish_delivery(&mut conn, delivery);
    assert_eq!(
        hub.handle_command(&mut conn, &stop, 2),
        said(ServerMessage::Stopped { session_id: t("s"), already_stopped: true })
    );
}

#[test]
fn sweeps_come_round() {
    let (mut hub, _conn) = opened();
    let mut sweeper = Sweeper::new(10);
    assert_eq!(hub.sweep_when_due(&mut sweeper, 10), SweepStep::Pause(SWEEP_INTERVAL));
    assert_eq!(hub.sweep_when_due(&mut sweeper, 9 + SWEEP_INTERVAL), SweepStep::Pause(1));
    assert_eq!(
        hub.sweep_when_due(&mut sweeper, 10 + SWEEP_INTERVAL),
        SweepStep::Swept(Vec::new())
    );
    assert_eq!(sweeper.since, 10 + SWEEP_INTERVAL);
    match hub.sweep_when_due(&mut sweeper, HEARTBEAT_TIMEOUT + SWEEP_INTERVAL + 1) {
        SweepStep::Swept(told) => assert_eq!(told[0].session_id, "s"),
        SweepStep::Pause(_) => panic!("not swept"),
    }
}

#[test]
fn a_nameless_stop_finds_no_session_of_another() {
    let (mut hub, mut conn) = opened();
    assert_eq!(
        hub.handle_command(&mut conn, &command("stop", None, None), 1),
        refused(ErrorCode::NoSession, "sessionId 不匹配，手机端没有该会话")
    );
    assert_eq!(
        hub.handle_command(&mut conn, &command("stop", None, Some("s")), 1),
        refused(ErrorCode::SessionBlocked, "只有持有会话的客户端才能停止")
    );
}

#[test]
fn a_session_that_is_gone_is_not_kept() {
    let (mut hub, first) = opened();
    let mut second = connection(2);
    let start = command("start", Some("c"), None);
    hub.handle_command(&mut second, &start, 1);
    assert!(hub.close_connection(first));
    assert_eq!(
        hub.handle_command(&mut second, &start, 2),
        ServerStep::BeginDictation { translation: false }
    );
    assert_eq!(second.session, None);
    hub.open_session(&mut second, &start, None, t("s2"), 3);
    assert_eq!(second.session.unwrap().session_id, "s2");
}

#[test]
fn a_session_that_is_gone_gives_way_to_anothers() {
    let (mut hub, first) = opened();
    let mut second = connection(2);
    hub.handle_command(&mut second, &command("start", Some("c"), None), 1);
    hub.close_connection(first);
    let mut third = connection(3);
    let start = command("start", Some("d"), None);
    hub.handle_command(&mut third, &start, 2);
    assert_eq!(
        hub.handle_command(&mut second, &command("start", Some("c"), None), 2),
        ServerStep::AwaitStart
    );
    hub.open_session(&mut third, &start, None, t("s3"), 3);
    assert_eq!(
        hub.handle_command(&mut second, &command("start", Some("c"), None), 3),
        said(ServerMessage::Blocked {
            message: t("另一个桌面客户端正在使用当前会话"),
            owner_client_id: t("d"),
            session_id: t("s3"),
        })
    );
}
