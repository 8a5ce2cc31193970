use openless_remote::backend::{
    ensure_android_backend, initialize_android_backend, native_context_failure,
    request_android_lan_server_restart, run, Backend, Revival, StartupPlan,
};
use openless_remote::keepalive::{
    call_android_settings_method, get_android_keepalive_status, keepalive_last_check_at,
    keepalive_last_status, keepalive_status_call, open_android_battery_settings, open_android_notification_settings,
    record_keepalive_check, record_keepalive_check_at, self_test_report, settings_call_failure,
    status_from_reading, watchdog_round, KeepaliveLog, NativeStatus, SelfTest, SelfTestStep,
    ServiceFailure, Watchdog, WatchdogStep, WATCHDOG_INTERVAL,
};
use openless_remote::lan_server::{start, LanServer, LanState, Restart};

fn t(s: &str) -> String {
    s.to_string()
}

fn listening() -> LanServer<String> {
    let mut server = LanServer::new();
    start(&mut server);
    server.listener_bound();
    server
}

#[test]
fn checks_are_noted() {
    let mut log = KeepaliveLog::new();
    assert_eq!(keepalive_last_check_at(&log), None);
    assert_eq!(keepalive_last_status(&log), None);
    record_keepalive_check_at(&mut log, true, "fine", t("2026-01-02T03:04:05+00:00"));
    assert_eq!(keepalive_last_check_at(&log), Some(t("2026-01-02T03:04:05+00:00")));
    assert_eq!(keepalive_last_status(&log), Some(t("ok: fine")));
    record_keepalive_check(&mut log, false, "lost");
    assert_eq!(keepalive_last_status(&log), Some(t("failed: lost")));
    let at: Vec<char> = keepalive_last_check_at(&log).unwrap().chars().collect();
    assert!(at.len() >= 25);
    assert_eq!((at[4], at[7], at[10], at[13], at[16]), ('-', '-', 'T', ':', ':'));
    let offset = at.len() - 6;
    assert!([25, 29, 32, 35].contains(&at.len()));
    assert!(at[offset] == '+' || at[offset] == '-');
    assert_eq!(at[offset + 3], ':');
    for (i, c) in at.iter().enumerate() {
        let mark = [4, 7, 10, 13, 16, offset, offset + 3].contains(&i) || (i == 19 && *c == '.');
        assert!(mark || c.is_ascii_digit());
    }
}

#[test]
fn the_watchdog_restarts_an_idle_server() {
    let mut log = KeepaliveLog::new();
    let mut server = listening();
    assert_eq!(
        watchdog_round(&mut server, &mut log),
        Restart { signal_shutdown: false, spawn: false }
    );
    assert_eq!(keepalive_last_status(&log), Some(t("ok: lan server listening")));

    let mut server = LanServer::new();
    assert_eq!(
        watchdog_round(&mut server, &mut log),
        Restart { signal_shutdown: false, spawn: true }
    );
    assert_eq!(keepalive_last_status(&log), Some(t("failed: lan server not running")));
    assert_eq!(server.state, LanState::Starting);
    server.bind_failed("busy");
    watchdog_round(&mut server, &mut log);
    assert_eq!(
        keepalive_last_status(&log),
        Some(t("failed: bind 0.0.0.0:45678 failed: busy"))
    );
}

#[test]
fn a_drill_looks_a_hundred_and_fifty_times() {
    let mut drill = SelfTest::begin();
    let mut restarts = 0;
    let mut looks = 0;
    loop {
        looks += 1;
        match drill.look(false) {
            SelfTestStep::LookAgain => {}
            SelfTestStep::RestartAgain => restarts += 1,
            SelfTestStep::GiveUp => break,
            SelfTestStep::Recovered => panic!("nothing was found"),
        }
    }
    assert_eq!((looks, restarts), (150, 2));
    assert_eq!(SelfTest::begin().look(true), SelfTestStep::Recovered);
}

#[test]
fn drills_are_reported() {
    let value = self_test_report(true).into_value();
    assert_eq!(value.to_string(), "{\"autoRecovered\":true,\"simulatedFailure\":true}");
    let value = self_test_report(false).into_value();
    assert_eq!(value["autoRecovered"].as_bool(), Some(false));
}

#[test]
fn without_a_service_nothing_is_known() {
    let mut log = KeepaliveLog::new();
    record_keepalive_check(&mut log, true, "fine");
    let status = get_android_keepalive_status(None, &listening(), &log).into_value();
    assert_eq!(
        status.to_string(),
        "{\"autoRecoverySupported\":false,\"batteryOptimizationRestricted\":true,\
         \"foregroundServiceRunning\":false,\"lanServerRunning\":false,\"lastCheckAt\":null,\
         \"lastError\":null,\"lastStatus\":null,\"notificationKeepaliveEnabled\":false,\
         \"notificationPermissionGranted\":false,\"overlayPermissionGranted\":false}"
    );
}

#[test]
fn the_service_tells_the_status() {
    let log = KeepaliveLog::new();
    let native = NativeStatus::Text(t("{\"foregroundServiceRunning\":true}"));
    let status = get_android_keepalive_status(Some(native), &listening(), &log).into_value();
    assert_eq!(status.to_string(), "{\"foregroundServiceRunning\":true}");
}

#[test]
fn a_failing_service_is_told_of() {
    let mut log = KeepaliveLog::new();
    record_keepalive_check_at(&mut log, true, "fine", t("then"));
    let errors = [
        (NativeStatus::Unreachable(t("no env")), "no env"),
        (NativeStatus::CallFailed(t("boom")), "call getKeepaliveStatusJson: boom"),
        (NativeStatus::Null, "getKeepaliveStatusJson returned null"),
        (NativeStatus::Unreadable(t("utf")), "read keepalive status json: utf"),
        (
            NativeStatus::Text(t("")),
            "parse keepalive status json: EOF while parsing a value at line 1 column 0",
        ),
    ];
    for (native, error) in errors {
        let status = get_android_keepalive_status(Some(native), &listening(), &log).into_value();
        assert_eq!(status["lastError"].as_str(), Some(error));
        assert_eq!(status["lanServerRunning"].as_bool(), Some(true));
        assert_eq!(status["lastCheckAt"].as_str(), Some("then"));
        assert_eq!(status["lastStatus"].as_str(), Some("ok: fine"));
        assert_eq!(status["autoRecoverySupported"].as_bool(), Some(true));
        assert_eq!(status["batteryOptimizationRestricted"].as_bool(), Some(true));
    }
    let status = status_from_reading(Err(t("e")), &LanServer::new(), &log).into_value();
    assert_eq!(status["lanServerRunning"].as_bool(), Some(false));
    assert_eq!(status["lastError"].as_str(), Some("e"));
}

#[test]
fn settings_are_opened_on_android_alone() {
    let call = open_android_notification_settings(true).unwrap();
    assert_eq!(call.class, "com.openless.app.OpenLessOverlayService");
    assert_eq!(call.method, "openNotificationSettings");
    assert_eq!(call.signature, "(Landroid/content/Context;)V");
    assert_eq!(
        settings_call_failure(&call, ServiceFailure::CallFailed(t("boom"))),
        "call openNotificationSettings: boom"
    );
    assert_eq!(
        settings_call_failure(&call, ServiceFailure::Unreachable(t("no env"))),
        "no env"
    );
    assert_eq!(
        open_android_battery_settings(true).unwrap().method,
        "openBatteryOptimizationSettings"
    );
    let refusal = Err(t("Android settings are only available on Android"));
    assert_eq!(open_android_notification_settings(false), refusal);
    assert_eq!(open_android_battery_settings(false), refusal);
    assert_eq!(call_android_settings_method(false, "any"), refusal);
}

#[test]
fn parts_are_set_up_by_the_first_start() {
    let mut backend = Backend::new();
    let mut server = LanServer::new();
    assert_eq!(
        run(&mut backend, &mut server, true),
        StartupPlan {
            set_runtime: false,
            spawn_listener: true,
            promote_recording: true,
            apply_overlay: true,
            start_watchdog: true,
        }
    );
    server.listener_bound();
    assert_eq!(
        run(&mut backend, &mut server, false),
        StartupPlan {
            set_runtime: false,
            spawn_listener: false,
            promote_recording: false,
            apply_overlay: false,
            start_watchdog: false,
        }
    );
}

#[test]
fn a_revived_service_sets_up_what_is_missing() {
    let mut backend = Backend::new();
    let mut server = LanServer::new();
    let mut log = KeepaliveLog::new();
    assert_eq!(
        ensure_android_backend(&backend, &mut server, &mut log),
        Revival::Initialize
    );
    assert_eq!(keepalive_last_status(&log), None);
    assert_eq!(
        initialize_android_backend(&mut backend, &mut server, &mut log, false),
        StartupPlan {
            set_runtime: true,
            spawn_listener: true,
            promote_recording: false,
            apply_overlay: true,
            start_watchdog: true,
        }
    );
    assert_eq!(
        keepalive_last_status(&log),
        Some(t("ok: backend initialized from service"))
    );
    assert_eq!(
        ensure_android_backend(&backend, &mut server, &mut log),
        Revival::Ready { spawn_listener: false }
    );
    assert_eq!(
        keepalive_last_status(&log),
        Some(t("failed: backend ready, lan server not listening"))
    );
    server.listener_bound();
    ensure_android_backend(&backend, &mut server, &mut log);
    assert_eq!(
        keepalive_last_status(&log),
        Some(t("ok: backend ready, lan server listening"))
    );
}

#[test]
fn a_restart_takes_a_coordinator() {
    let mut server = LanServer::new();
    let mut backend = Backend::new();
    assert_eq!(
        request_android_lan_server_restart(&backend, &mut server),
        Err(t("Android backend not initialized"))
    );
    assert_eq!(server.state, LanState::Idle);
    run(&mut backend, &mut server, false);
    server.bind_failed("busy");
    assert_eq!(
        request_android_lan_server_restart(&backend, &mut server),
        Ok(Restart { signal_shutdown: false, spawn: true })
    );
}

#[test]
fn the_watchdog_goes_round_every_ten_seconds() {
    let mut watchdog = Watchdog::new(5);
    let mut log = KeepaliveLog::new();
    let mut server = LanServer::new();
    assert_eq!(WATCHDOG_INTERVAL, 10_000_000_000);
    assert_eq!(
        watchdog.step(&mut server, &mut log, 5),
        WatchdogStep::Pause(WATCHDOG_INTERVAL)
    );
    assert_eq!(
        watchdog.step(&mut server, &mut log, 4 + WATCHDOG_INTERVAL),
        WatchdogStep::Pause(1)
    );
    assert_eq!(keepalive_last_status(&log), None);
    assert_eq!(
        watchdog.step(&mut server, &mut log, 5 + WATCHDOG_INTERVAL),
        WatchdogStep::Checked(Restart { signal_shutdown: false, spawn: true })
    );
    assert_eq!(keepalive_last_status(&log), Some(t("failed: lan server not running")));
    assert_eq!(
        watchdog.step(&mut server, &mut log, 5 + WATCHDOG_INTERVAL),
        WatchdogStep::Pause(WATCHDOG_INTERVAL)
    );
}

#[test]
fn the_coordinator_is_created_once() {
    let mut backend = Backend::new();
    assert!(backend.claim_coordinator());
    assert!(!backend.claim_coordinator());
    assert!(backend.coordinator);
    let mut started = Backend::new();
    run(&mut started, &mut LanServer::new(), false);
    assert!(!started.claim_coordinator());
}

#[test]
fn nested_statuses_are_handed_on_whole() {
    let log = KeepaliveLog::new();
    for text in ["{\"a\":{\"b\":[1,-2,3.5]}}", "[1,{\"c\":null}]", "7"] {
        let native = NativeStatus::Text(t(text));
        let status = get_android_keepalive_status(Some(native), &LanServer::new(), &log);
        assert_eq!(status.into_value().to_string(), text);
    }
}

#[test]
fn a_missing_context_is_told_of() {
    assert_eq!(native_context_failure("no vm"), "get Android JVM: no vm");
}

#[test]
fn the_service_is_asked_by_its_own_call() {
    let call = keepalive_status_call();
    assert_eq!(call.class, "com.openless.app.OpenLessOverlayService");
    assert_eq!(call.method, "getKeepaliveStatusJson");
    assert_eq!(call.signature, "(Landroid/content/Context;)Ljava/lang/String;");
}
