use openless_remote::client::{
    choose_on_status, read_choice, resolve_address, start_flow, stop_flow, stop_not_sent,
    ClientState, Controller, KeyChoice, KeyStep, SessionEvent, Shared, StartFailure, StartStep, StopRequest,
};
use openless_remote::protocol::{Incoming, ServerMessage};
use openless_remote::hint::{
    flash_trouble, FlashStep, Hint, HintCount, AUX_RECORDING, AUX_RETRY, AUX_TRANSCRIBING,
    FLASH_TIME,
};

const NO_DEVICE: &str = "未连接手机：请确认手机端 OpenLess 已运行，等待后台扫描发现设备";
const NO_ADDRESS: &str = "未配置手机地址（--address 或 --auto-discover）";

fn t(s: &str) -> String {
    s.to_string()
}

#[test]
fn hints_have_their_texts() {
    assert_eq!(AUX_RECORDING, "🎤 正在录音…");
    assert_eq!(AUX_TRANSCRIBING, "⏳ 正在转录…");
    assert_eq!(AUX_RETRY, "连接失败，正在重试…");
    assert_eq!(flash_trouble("手机端错误"), Hint::Flash(t("❌ 手机端错误")));
}

#[test]
fn a_flash_is_cleared_only_while_it_is_the_last() {
    let mut count = HintCount::new();
    let token = count.show();
    assert_eq!(token, 1);
    assert!(count.is_last(token));
    let later = count.show();
    assert!(!count.is_last(token));
    assert!(count.is_last(later));
    let mut full = HintCount { shown: u64::MAX };
    assert_eq!(full.show(), 0);
}

#[test]
fn a_held_key_talks() {
    let mut controller = Controller::new();
    assert_eq!(controller.key(false, false), KeyStep::Ignore);
    assert_eq!(controller.key(false, true), KeyStep::Start);
    assert_eq!(controller.state, ClientState::Idle);
    controller.started(t("a"));
    assert_eq!(controller.key(false, true), KeyStep::Ignore);
    assert_eq!(controller.key(false, false), KeyStep::Stop(Some(t("a"))));
    assert_eq!(controller.state, ClientState::Stopping);
    assert_eq!(controller.key(false, false), KeyStep::Ignore);
    assert_eq!(controller.key(false, true), KeyStep::Ignore);
}

#[test]
fn a_toggled_key_starts_and_stops() {
    let mut controller = Controller::new();
    assert_eq!(controller.key(true, true), KeyStep::Start);
    controller.started(t("a"));
    assert_eq!(controller.key(true, false), KeyStep::Ignore);
    assert_eq!(controller.key(true, true), KeyStep::Stop(Some(t("a"))));
    assert_eq!(controller.session_address, None);
    assert_eq!(controller.key(true, true), KeyStep::Ignore);
}

fn after(event: SessionEvent<String>) -> (Controller<String>, Shared<String>, Hint<String>) {
    let mut controller = Controller::new();
    controller.started(t("a"));
    let mut shared = Shared { active: Some(t("a")), discovered: Some(t("a")), announce: false };
    let hint = controller.handle_session_event(&mut shared, event);
    (controller, shared, hint)
}

#[test]
fn sessions_end_in_idleness() {
    let cases = [
        (SessionEvent::Stopped, Hint::Clear, false),
        (SessionEvent::Cancelled, Hint::Clear, false),
        (SessionEvent::Failed(t("m")), Hint::Flash(t("❌ m")), false),
        (SessionEvent::Lost(t("m")), Hint::Flash(t("❌ m")), true),
    ];
    for (event, expected, announce) in cases {
        let (controller, shared, hint) = after(event);
        assert_eq!(controller, Controller::new());
        assert_eq!(
            shared,
            Shared { active: None, discovered: Some(t("a")), announce }
        );
        assert_eq!(hint, expected);
    }
}

#[test]
fn addresses_are_resolved() {
    let given = Some(t("  192.168.1.20:45678\n"));
    let found = Some(t("10.0.0.3:45678"));
    assert_eq!(resolve_address(&given, true, &found), Ok(t("192.168.1.20:45678")));
    assert_eq!(resolve_address(&Some(t("  ")), true, &found), Ok(t("10.0.0.3:45678")));
    assert_eq!(resolve_address(&None, true, &None), Err(t(NO_DEVICE)));
    assert_eq!(resolve_address(&None, false, &found), Err(t(NO_ADDRESS)));
    assert_eq!(resolve_address(&Some(t("")), false, &None), Err(t(NO_ADDRESS)));
}

#[test]
fn a_start_without_an_address_fails() {
    let mut shared = Shared::new();
    assert_eq!(
        start_flow(&mut shared, &None, true),
        Err(StartFailure { error: t(NO_DEVICE), hint: Hint::Flash(format!("❌ {NO_DEVICE}")) })
    );
    assert!(shared.announce);
}

#[test]
fn a_start_succeeds_at_the_second_attempt() {
    let mut shared = Shared::new();
    let mut flow = start_flow(&mut shared, &Some(t("a")), false).unwrap();
    assert_eq!(
        flow.attempt_ended(&mut shared, Err(t("refused"))),
        StartStep::Retry { hint: Hint::Show(t(AUX_RETRY)) }
    );
    assert_eq!(shared, Shared::new());
    assert_eq!(
        flow.attempt_ended(&mut shared, Ok(())),
        StartStep::Started { address: t("a"), hint: Hint::Show(t(AUX_RECORDING)) }
    );
    assert_eq!(
        shared,
        Shared { active: Some(t("a")), discovered: Some(t("a")), announce: false }
    );
}

#[test]
fn a_start_fails_after_two_attempts() {
    let mut shared = Shared { active: None, discovered: Some(t("a")), announce: false };
    let mut flow = start_flow(&mut shared, &None, true).unwrap();
    flow.attempt_ended(&mut shared, Err(t("first")));
    assert_eq!(
        flow.attempt_ended(&mut shared, Err(t("second"))),
        StartStep::Failed(StartFailure {
            error: t("second"),
            hint: Hint::Flash(t("❌ 连接失败：second")),
        })
    );
    assert_eq!(shared, Shared { active: None, discovered: None, announce: true });

    let mut shared = Shared { active: None, discovered: Some(t("other")), announce: false };
    let mut flow = start_flow(&mut shared, &Some(t("a")), true).unwrap();
    flow.attempt_ended(&mut shared, Err(t("first")));
    flow.attempt_ended(&mut shared, Err(t("second")));
    assert_eq!(shared.discovered, Some(t("other")));
}

#[test]
fn a_stop_goes_to_its_session() {
    let mut shared = Shared { active: Some(t("a")), discovered: None, announce: false };
    let (hint, request) = stop_flow(&shared, "a");
    assert_eq!(hint, Hint::Show(t(AUX_TRANSCRIBING)));
    assert_eq!(request, StopRequest::Send);
    assert_eq!(
        stop_flow(&shared, "b").1,
        StopRequest::Refuse(Hint::Flash(t("❌ 转录失败：当前地址与会话不一致")))
    );
    assert_eq!(
        stop_not_sent(&mut shared),
        Hint::Flash(t("❌ 转录失败：会话线程已退出"))
    );
    assert_eq!(shared.active, None);
    assert_eq!(
        stop_flow(&shared, "a").1,
        StopRequest::Refuse(Hint::Flash(t("❌ 转录失败：没有活动会话")))
    );
}

#[test]
fn a_flash_lasts_three_seconds() {
    let mut count = HintCount::new();
    let flash = count.begin_flash(7);
    assert_eq!(FLASH_TIME, 3_000_000_000);
    assert_eq!(count.flash_step(flash, 7), FlashStep::Wait(FLASH_TIME));
    assert_eq!(count.flash_step(flash, 6 + FLASH_TIME), FlashStep::Wait(1));
    assert_eq!(count.flash_step(flash, 7 + FLASH_TIME), FlashStep::Clear);
    let later = count.begin_flash(8);
    assert_eq!(count.flash_step(flash, 7 + FLASH_TIME), FlashStep::Leave);
    assert_eq!(count.flash_step(later, 8 + FLASH_TIME), FlashStep::Clear);
}

#[test]
fn the_phone_tells_what_a_key_comes_to() {
    let told = |state: &str, session: Option<&str>, owner: Option<&str>| {
        Incoming::Text(
            ServerMessage::Status {
                state: t(state),
                session_id: session.map(t),
                owner_client_id: owner.map(t),
            }
            .encode(),
        )
    };
    let own = told("recording", Some("s"), Some("c"));
    assert_eq!(read_choice(true, &own, "c"), KeyChoice::Stop);
    assert_eq!(read_choice(false, &own, "c"), KeyChoice::Recover);
    assert_eq!(read_choice(true, &own, "d"), KeyChoice::Start);
    let winding_up = told("transcribing", Some("s"), Some("c"));
    assert_eq!(read_choice(false, &winding_up, "c"), KeyChoice::Cancel);
    assert_eq!(read_choice(false, &told("idle", None, None), "c"), KeyChoice::Start);
    assert_eq!(read_choice(false, &Incoming::TimedOut, "c"), KeyChoice::Start);
    assert_eq!(read_choice(false, &Incoming::Text(t("{")), "c"), KeyChoice::Start);
    assert_eq!(
        read_choice(false, &Incoming::Text(t("{\"type\":\"pong\"}")), "c"),
        KeyChoice::Start
    );
    let (s, c) = (Some(t("s")), Some(t("c")));
    assert_eq!(choose_on_status(false, &None, &s, &c, "c"), KeyChoice::Start);
    assert_eq!(
        choose_on_status(false, &Some(t("recording")), &None, &c, "c"),
        KeyChoice::Start
    );
}
