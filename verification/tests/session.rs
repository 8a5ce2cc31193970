use openless_remote::client::SessionEvent;
use openless_remote::protocol::{ClientMessage, Incoming, ServerMessage};
use openless_remote::server::{wait_for_ack, AckStep};
use openless_remote::session::{
    after_commit, decide_on_status, insertion_outcome, stop_event, ClipboardOutcome, InsertEnd,
    InsertStep, SeenResults, Session, StatusDecision, StopStage, StopStep, StopWait, SESSION_HEARTBEAT_INTERVAL,
    STATUS_TIMEOUT, STOP_TIMEOUT,
};

fn t(s: &str) -> String {
    s.to_string()
}

fn text(s: &str) -> Incoming<String> {
    Incoming::Text(t(s))
}

fn session(id: Option<&str>) -> Session {
    Session::new(t("1.2.3.4:5"), t("c"), id.map(t), 0)
}

fn result(id: &str, words: &str) -> Incoming<String> {
    let message =
        ServerMessage::Result { session_id: t("s"), result_id: t(id), text: t(words) };
    Incoming::Text(message.encode())
}

#[test]
fn seen_results_are_told_from_new_ones() {
    let mut seen = SeenResults::new();
    assert!(seen.insert("a"));
    assert!(!seen.insert("a"));
    assert!(seen.insert("b"));
    assert!(!seen.insert("a"));
}

#[test]
fn heartbeats_are_due_every_second() {
    let mut session = session(Some("s"));
    assert_eq!(session.heartbeat_due(SESSION_HEARTBEAT_INTERVAL - 1), None);
    assert_eq!(
        session.heartbeat_due(SESSION_HEARTBEAT_INTERVAL),
        Some(ClientMessage::Ping { client_id: t("c"), session_id: t("s") })
    );
    assert_eq!(session.heartbeat_sent(true, 1_200_000_000), None);
    assert_eq!(session.heartbeat_due(2_199_999_999), None);
    assert!(session.heartbeat_due(2_200_000_000).is_some());
    assert_eq!(
        session.heartbeat_sent(false, 2_200_000_000),
        Some(SessionEvent::Lost(t("心跳发送失败，手机端即将释放会话")))
    );
    assert_eq!(session.last_heartbeat, 1_200_000_000);
}

#[test]
fn a_phone_without_sessions_gets_no_heartbeat() {
    assert_eq!(session(None).heartbeat_due(u64::MAX), None);
}

#[test]
fn a_recording_ends_as_the_phone_says() {
    let mut session = session(Some("s"));
    assert_eq!(session.take_read(&text("{\"type\":\"pong\"}")), None);
    assert_eq!(session.take_read(&text("no json")), None);
    assert_eq!(session.take_read(&text("{\"type\":\"status\"}")), None);
    assert_eq!(session.take_read(&Incoming::TimedOut), None);
    assert_eq!(session.take_read(&Incoming::Other), None);
    assert_eq!(
        session.take_read(&text("{\"type\":\"stopped\"}")),
        Some(SessionEvent::Stopped)
    );
    assert_eq!(
        session.take_read(&text("{\"type\":\"cancelled\"}")),
        Some(SessionEvent::Cancelled)
    );
    assert_eq!(
        session.take_read(&text("{\"type\":\"error\",\"message\":\"m\"}")),
        Some(SessionEvent::Lost(t("m")))
    );
    assert_eq!(
        session.take_read(&text("{\"type\":\"error\"}")),
        Some(SessionEvent::Lost(t("手机端错误")))
    );
    assert_eq!(
        session.take_read(&Incoming::Close),
        Some(SessionEvent::Lost(t("手机端断开连接")))
    );
    assert_eq!(
        session.take_read(&Incoming::Failed(t("reset"))),
        Some(SessionEvent::Lost(t("连接中断：reset")))
    );
}

#[test]
fn stops_name_the_session() {
    assert_eq!(
        session(Some("s")).stop_message(),
        ClientMessage::Stop { session: Some((t("c"), t("s"))) }
    );
    assert_eq!(session(None).stop_message(), ClientMessage::Stop { session: None });
}

#[test]
fn a_result_is_inserted_once_and_acknowledged() {
    let mut session = session(Some("s"));
    assert_eq!(
        session.take_stop_read(StopWait::begin(0), &result("r", "你好"), 1),
        StopStep::Insert { text: t("你好"), result_id: t("r") }
    );
    assert_eq!(session.take_stop_read(StopWait::begin(0), &result("r", "你好"), 2), StopStep::Read);
    let ack = ClientMessage::Ack { client_id: t("c"), result_id: t("r") };
    assert_eq!(
        wait_for_ack(&Incoming::Text(ack.encode()), "r"),
        AckStep::Acked
    );
    assert_eq!(session.after_insert(Ok(()), "r"), InsertEnd::Done { ack: Some(ack) });
    assert_eq!(
        session.after_insert(Err(t("clipboard: none")), "r"),
        InsertEnd::Failed(t("clipboard: none"))
    );
    assert_eq!(session.after_insert(Ok(()), ""), InsertEnd::Done { ack: None });
}

#[test]
fn an_early_result_is_passed_over() {
    let mut session = session(Some("s"));
    assert_eq!(session.take_read(&result("r", "early")), None);
    assert_eq!(session.take_stop_read(StopWait::begin(0), &result("r", "late"), 1), StopStep::Read);
    assert_eq!(
        session.take_stop_read(StopWait::begin(0), &result("q", "other"), 1),
        StopStep::Insert { text: t("other"), result_id: t("q") }
    );
}

#[test]
fn results_without_identifiers_are_taken_unacknowledged() {
    let mut session = session(None);
    let frame = text("{\"type\":\"result\",\"text\":\"words\"}");
    let insert = StopStep::Insert { text: t("words"), result_id: t("") };
    assert_eq!(session.take_stop_read(StopWait::begin(0), &frame, 1), insert);
    assert_eq!(session.take_stop_read(StopWait::begin(0), &frame, 1), insert);
    assert_eq!(session.after_insert(Ok(()), ""), InsertEnd::Done { ack: None });
    assert_eq!(session.after_insert(Ok(()), "r"), InsertEnd::Done { ack: None });
}

#[test]
fn an_end_without_a_text_fails() {
    let mut session = session(Some("s"));
    let cases = [
        (result("e", ""), "phone returned empty text"),
        (text("{\"type\":\"result\"}"), "phone returned empty text"),
        (text("{\"type\":\"error\",\"message\":\"m\"}"), "m"),
        (text("{\"type\":\"error\"}"), "phone error"),
        (text("{\"type\":\"stopped\"}"), "phone stopped without result"),
        (text("{\"type\":\"cancelled\"}"), "session cancelled by phone"),
        (Incoming::Close, "phone closed connection before result"),
        (Incoming::Failed(t("reset")), "read from 1.2.3.4:5: reset"),
        (text("{"), "bad json from phone: EOF while parsing an object at line 1 column 1"),
    ];
    for (incoming, error) in cases {
        assert_eq!(session.take_stop_read(StopWait::begin(0), &incoming, 1), StopStep::Failed(t(error)));
    }
    assert_eq!(session.take_stop_read(StopWait::begin(0), &text("{\"type\":\"pong\"}"), 1), StopStep::Read);
    assert_eq!(session.take_stop_read(StopWait::begin(0), &Incoming::Other, u64::MAX), StopStep::Read);
}

fn give_up(cancel: bool) -> StopStep<String> {
    StopStep::GiveUp {
        cancel: if cancel {
            Some(ClientMessage::Cancel { client_id: t("c"), session_id: Some(t("s")) })
        } else {
            None
        },
        error: t("timed out waiting for phone result"),
    }
}

#[test]
fn a_late_text_is_asked_after() {
    let mut session = session(Some("s"));
    let mut wait = StopWait::begin(3);
    let question = StopStep::AskStatus(ClientMessage::Status { client_id: t("c") });
    assert_eq!(session.stop_next(wait, 3 + STOP_TIMEOUT - 1), StopStep::Read);
    assert_eq!(session.stop_next(wait, 3 + STOP_TIMEOUT), question);
    assert_eq!(
        session.take_stop_read(wait, &Incoming::TimedOut, 3 + STOP_TIMEOUT - 1),
        StopStep::Read
    );
    assert_eq!(
        session.take_stop_read(wait, &Incoming::TimedOut, 3 + STOP_TIMEOUT),
        question
    );
    wait.status_asked(100);
    assert_eq!(session.stop_next(wait, 100 + STATUS_TIMEOUT - 1), StopStep::Read);
    assert_eq!(session.stop_next(wait, 100 + STATUS_TIMEOUT), give_up(true));
    assert_eq!(
        session.take_stop_read(wait, &Incoming::TimedOut, 100 + STATUS_TIMEOUT),
        give_up(true)
    );
    assert!(session.seen.insert("r"));
}

#[test]
fn the_status_decides_between_waiting_and_cancelling() {
    let mut session = session(Some("s"));
    let mut wait = StopWait::begin(0);
    let status = |state: &str, id: Option<&str>| {
        Incoming::Text(
            ServerMessage::Status {
                state: t(state),
                session_id: id.map(t),
                owner_client_id: Some(t("c")),
            }
            .encode(),
        )
    };
    assert_eq!(session.take_stop_read(wait, &status("idle", None), 1), StopStep::Read);
    wait.status_asked(1);
    assert_eq!(
        session.take_stop_read(wait, &status("transcribing", Some("s")), 2),
        StopStep::WaitOn
    );
    assert_eq!(session.take_stop_read(wait, &status("idle", None), 2), give_up(true));
    assert_eq!(
        session.take_stop_read(wait, &status("transcribing", Some("x")), 2),
        give_up(true)
    );
    assert_eq!(
        session.take_stop_read(wait, &status("recording", Some("s")), 2),
        give_up(true)
    );
    assert_eq!(
        session.take_stop_read(wait, &result("r", "late"), 2),
        StopStep::Insert { text: t("late"), result_id: t("r") }
    );
    wait.wait_on(9);
    assert_eq!(wait, StopWait { stage: StopStage::Result, since: 9 });
    let own = Some(t("s"));
    assert_eq!(
        decide_on_status(&own, &Some(t("transcribing")), &own),
        StatusDecision::WaitOn
    );
    assert_eq!(
        decide_on_status(&None, &Some(t("transcribing")), &None),
        StatusDecision::Cancel
    );
}

#[test]
fn a_phone_without_sessions_is_not_asked() {
    let session = session(None);
    assert_eq!(session.stop_next(StopWait::begin(0), STOP_TIMEOUT), give_up(false));
}

#[test]
fn ends_are_told() {
    assert_eq!(stop_event(Ok(())), SessionEvent::Stopped);
    assert_eq!(stop_event(Err(t("e"))), SessionEvent::Failed(t("转录失败：e")));
}

#[test]
fn the_clipboard_steps_in() {
    assert_eq!(insertion_outcome(None), Ok(()));
    assert_eq!(insertion_outcome(Some(ClipboardOutcome::Copied)), Ok(()));
    assert_eq!(
        insertion_outcome(Some(ClipboardOutcome::Unavailable(t("e")))),
        Err(t("clipboard: e"))
    );
    assert_eq!(
        insertion_outcome(Some(ClipboardOutcome::Refused(t("e")))),
        Err(t("clipboard set: e"))
    );
}

#[test]
fn only_a_failed_commit_goes_to_the_clipboard() {
    assert_eq!(after_commit(&Ok(())), InsertStep::Done);
    assert_eq!(after_commit(&Err(t("no input context"))), InsertStep::Copy);
}
