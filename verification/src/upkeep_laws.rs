//! What keeps the phone's listener alive: how the listener comes and goes, what is noted and told of
//! it, and what each start-up calls for.

use vstd::prelude::*;

use crate::backend::{Backend, Startup};
use crate::ident::uuid_text;
use crate::json::Json;
use crate::keepalive::{
    check_text, is_settings_call, keepalive_status, noted, nothing_noted, own_status,
    reading_of_native, self_test_members, settings_outcome, status_of_reading, timestamp_text,
    trouble_of, watched, KeepaliveLog, NativeStatus, SelfTest, SelfTestStep, ServiceCall,
};
use crate::lan_server::{bind_failure, LanServer, LanState, Restart};
use crate::message_laws::has;
use crate::text::decimal;
use crate::timer::left;

verus! {

/// How a listener comes and goes: a call for it starts an idle one and leaves any other alone; a
/// port that is bound makes it listen and clears the last error; one that is not makes it idle and
/// says why, with the port; a loss makes it idle. Nothing else of it changes.
pub proof fn how_a_listener_comes_and_goes(server: LanServer<Seq<char>>, error: Seq<char>)
    ensures
        LanServer::<Seq<char>>::initial().state == LanState::Idle,
        LanServer::<Seq<char>>::initial().last_error is None,
        !LanServer::<Seq<char>>::initial().shutdown_held,
        server.state == LanState::Idle ==> server.called_for() == (LanServer {
            state: LanState::Starting,
            ..server
        }),
        server.state != LanState::Idle ==> server.called_for() == server,
        server.bound().state == LanState::Listening,
        server.bound().last_error is None,
        server.bound().shutdown_held,
        server.failed(error).state == LanState::Idle,
        server.failed(error).last_error == Some(
            "bind 0.0.0.0:"@ + decimal(45678) + " failed: "@ + error,
        ),
        server.failed(error).shutdown_held == server.shutdown_held,
        bind_failure(error) == "bind 0.0.0.0:"@ + decimal(45678) + " failed: "@ + error,
        server.state == LanState::Idle ==> server.restarted() == (LanServer {
            state: LanState::Starting,
            shutdown_held: false,
            ..server
        }),
        server.state != LanState::Idle ==> server.restarted() == server,
        server.lost().state == LanState::Idle,
        server.lost().last_error == Some("自测：模拟 LAN 服务丢失"@),
        !server.lost().shutdown_held,
        server.consistent() <==> (server.shutdown_held <==> server.state == LanState::Listening),
{
}

/// What is noted of a check: how it went, with its detail whole, and when.
pub proof fn what_is_noted_of_a_check(log: KeepaliveLog<Seq<char>>, ok: bool, detail: Seq<char>)
    ensures
        check_text(true, detail) == "ok: "@ + detail,
        check_text(false, detail) == "failed: "@ + detail,
        noted(log, ok, detail) ==> log.last_check_at is Some && timestamp_text(
            log.last_check_at->0,
        ) && log.last_status == Some(check_text(ok, detail)),
        nothing_noted().last_check_at is None,
        nothing_noted().last_status is None,
{
}

/// A timestamp has a year, and after it a date, a time of day and an offset, so that it is no shorter
/// than these take, and it ends with a digit.
pub proof fn how_a_timestamp_looks(s: Seq<char>)
    requires
        timestamp_text(s),
    ensures
        s.len() >= 25,
        '0' <= s.last() <= '9',
        s[s.len() - 3] == ':',
        s[s.len() - 6] == '+' || s[s.len() - 6] == '-',
{
    let y = choose|y: int|
        0 <= y <= s.len() && crate::keepalive::year_text(#[trigger] s.take(y))
            && crate::keepalive::after_year_text(s.skip(y));
    let t = s.skip(y);
    let n = t.len();
    let minutes = t.subrange(n - 2, n as int);
    assert(s.take(y).len() == y);
    assert(minutes[1] == s.last());
    assert(t[n - 3] == s[s.len() - 3]);
    assert(t[n - 6] == s[s.len() - 6]);
}

/// What the watchdog does with a server: one that listens is left alone, one that does not is noted
/// with its last error, and restarted where it is idle.
pub proof fn what_the_watchdog_does(
    server: LanServer<Seq<char>>,
    after: LanServer<Seq<char>>,
    log: KeepaliveLog<Seq<char>>,
    restart: Restart,
)
    requires
        watched(server, after, log, restart),
    ensures
        server.state == LanState::Listening ==> after == server && !restart.spawn
            && !restart.signal_shutdown && log.last_status == Some("ok: "@ + "lan server listening"@),
        server.state != LanState::Listening ==> log.last_status == Some(
            "failed: "@ + (match server.last_error {
                Some(error) => error,
                None => "lan server not running"@,
            }),
        ),
        server.state == LanState::Idle ==> restart.spawn && after.state == LanState::Starting
            && after.last_error == server.last_error && !after.shutdown_held
            && restart.signal_shutdown == server.shutdown_held,
        server.state == LanState::Starting ==> !restart.spawn && !restart.signal_shutdown && after
            == server,
        log.last_check_at is Some,
        trouble_of(server) == (match server.last_error {
            Some(error) => error,
            None => "lan server not running"@,
        }),
{
}

/// How a drill goes on: a server that is back ends it; otherwise it looks again until it has looked
/// fifty times, asks for another restart twice, and gives up then.
pub proof fn how_a_drill_goes_on(drill: SelfTest)
    requires
        drill.under_way(),
    ensures
        drill.look_step(true) == SelfTestStep::Recovered,
        drill.after_look(true) == drill,
        drill.look_step(false) == SelfTestStep::LookAgain <==> drill.looks < 49,
        drill.look_step(false) == SelfTestStep::RestartAgain <==> drill.looks == 49 && drill.round
            < 2,
        drill.look_step(false) == SelfTestStep::GiveUp <==> drill.looks == 49 && drill.round == 2,
        drill.after_look(false).looks_taken() == drill.looks_taken() + 1,
        drill.looks_taken() == 50 * drill.round + drill.looks,
        drill.look_step(false) != SelfTestStep::GiveUp ==> drill.after_look(false).under_way(),
{
}

/// What a drill reports.
pub proof fn what_a_drill_reports(recovered: bool)
    ensures
        has(self_test_members(recovered), "simulatedFailure"@, Json::Flag(true)),
        has(self_test_members(recovered), "autoRecovered"@, Json::Flag(recovered)),
        forall|key: Seq<char>| #[trigger]
            self_test_members(recovered).contains_key(key) ==> key == "simulatedFailure"@ || key
                == "autoRecovered"@,
{
    reveal_strlit("simulatedFailure");
    reveal_strlit("autoRecovered");
    assert("simulatedFailure"@.len() == 16 && "autoRecovered"@.len() == 13);
}

proof fn lemma_status_keys()
    ensures
        "lanServerRunning"@.len() == 16,
        "foregroundServiceRunning"@.len() == 24,
        "notificationKeepaliveEnabled"@.len() == 28,
        "notificationPermissionGranted"@.len() == 29,
        "notificationPermissionGranted"@[0] == 'n',
        "overlayPermissionGranted"@.len() == 24,
        "overlayPermissionGranted"@[0] == 'o',
        "foregroundServiceRunning"@[0] == 'f',
        "batteryOptimizationRestricted"@.len() == 29,
        "batteryOptimizationRestricted"@[0] == 'b',
        "lastError"@.len() == 9,
        "lastCheckAt"@.len() == 11,
        "lastStatus"@.len() == 10,
        "autoRecoverySupported"@.len() == 21,
{
    reveal_strlit("lanServerRunning");
    reveal_strlit("foregroundServiceRunning");
    reveal_strlit("notificationKeepaliveEnabled");
    reveal_strlit("notificationPermissionGranted");
    reveal_strlit("overlayPermissionGranted");
    reveal_strlit("batteryOptimizationRestricted");
    reveal_strlit("lastError");
    reveal_strlit("lastCheckAt");
    reveal_strlit("lastStatus");
    reveal_strlit("autoRecoverySupported");
}

/// What a status says that is made up here: whether the server listens, what went wrong, the last
/// check as it was noted, and of everything else that it is bad.
pub proof fn what_a_status_made_here_says(
    running: bool,
    error: Option<Seq<char>>,
    log: KeepaliveLog<Seq<char>>,
    recovery: bool,
)
    ensures
        ({
            let m = own_status(running, error, log, recovery);
            &&& has(m, "lanServerRunning"@, Json::Flag(running))
            &&& has(m, "foregroundServiceRunning"@, Json::Flag(false))
            &&& has(m, "notificationKeepaliveEnabled"@, Json::Flag(false))
            &&& has(m, "notificationPermissionGranted"@, Json::Flag(false))
            &&& has(m, "overlayPermissionGranted"@, Json::Flag(false))
            &&& has(m, "batteryOptimizationRestricted"@, Json::Flag(true))
            &&& has(m, "autoRecoverySupported"@, Json::Flag(recovery))
            &&& error is Some ==> has(m, "lastError"@, Json::Text(error->0))
            &&& error is None ==> has(m, "lastError"@, Json::Null)
            &&& log.last_check_at is Some ==> has(
                m,
                "lastCheckAt"@,
                Json::Text(log.last_check_at->0),
            )
            &&& log.last_check_at is None ==> has(m, "lastCheckAt"@, Json::Null)
            &&& log.last_status is Some ==> has(m, "lastStatus"@, Json::Text(log.last_status->0))
            &&& log.last_status is None ==> has(m, "lastStatus"@, Json::Null)
            &&& forall|key: Seq<char>| #[trigger]
                m.contains_key(key) ==> key == "lanServerRunning"@ || key
                    == "foregroundServiceRunning"@ || key == "notificationKeepaliveEnabled"@ || key
                    == "notificationPermissionGranted"@ || key == "overlayPermissionGranted"@ || key
                    == "batteryOptimizationRestricted"@ || key == "autoRecoverySupported"@ || key
                    == "lastError"@ || key == "lastCheckAt"@ || key == "lastStatus"@
        }),
{
    lemma_status_keys();
}

/// Which status is told: that of the service, whole, where it could be read, and one that is made
/// here, with what went wrong, where it could not; where there is no service, one that knows
/// nothing.
pub proof fn which_status_is_told(
    document: Json,
    error: Seq<char>,
    native: NativeStatus<String>,
    server: LanServer<Seq<char>>,
    log: KeepaliveLog<Seq<char>>,
)
    ensures
        status_of_reading(Ok(document), server, log) == document,
        status_of_reading(Err(error), server, log) == Json::Object(
            own_status(server.state == LanState::Listening, Some(error), log, true),
        ),
        keepalive_status(Some(native), server, log) == status_of_reading(
            reading_of_native(native@),
            server,
            log,
        ),
        keepalive_status(None, server, log) == Json::Object(
            own_status(
                false,
                None,
                KeepaliveLog { last_check_at: None, last_status: None },
                false,
            ),
        ),
{
}

/// What went wrong with the service is told in words that say where.
pub proof fn what_went_wrong_with_the_service(error: Seq<char>, text: Seq<char>)
    ensures
        reading_of_native(NativeStatus::Unreachable(error)) == Err::<Json, Seq<char>>(error),
        reading_of_native(NativeStatus::CallFailed(error)) == Err::<Json, Seq<char>>(
            "call getKeepaliveStatusJson: "@ + error,
        ),
        reading_of_native(NativeStatus::Null) == Err::<Json, Seq<char>>(
            "getKeepaliveStatusJson returned null"@,
        ),
        reading_of_native(NativeStatus::Unreadable(error)) == Err::<Json, Seq<char>>(
            "read keepalive status json: "@ + error,
        ),
        crate::json::json_read(text) is Ok ==> reading_of_native(NativeStatus::Text(text))
            == crate::json::json_read(text),
        crate::json::json_read(text) is Err ==> reading_of_native(NativeStatus::Text(text)) == Err::<
            Json,
            Seq<char>,
        >("parse keepalive status json: "@ + crate::json::json_read(text)->Err_0),
{
}

/// The settings are opened by a call on Android, with the method that was asked for, and refused
/// elsewhere.
pub proof fn when_settings_are_opened(
    r: Result<ServiceCall, String>,
    on_android: bool,
    method: Seq<char>,
)
    requires
        settings_outcome(r, on_android, method),
    ensures
        r is Ok <==> on_android,
        r is Ok ==> r->Ok_0.method@ == method && r->Ok_0.class@
            == "com.openless.app.OpenLessOverlayService"@ && r->Ok_0.signature@
            == "(Landroid/content/Context;)V"@ && is_settings_call(r->Ok_0, method),
        r is Err ==> r->Err_0@ == "Android settings are only available on Android"@,
{
}

/// What each start-up calls for: the listener where it is idle, the service in the foreground where
/// that is wanted, the watchdog where there is none; the overlay at the first start-up, and the
/// runtime once, for a revived service. After it everything is set up.
pub proof fn what_a_start_up_calls_for(
    backend: Backend,
    server: LanServer<Seq<char>>,
    enabled: bool,
)
    ensures
        ({
            let plan = backend.launch_plan(server, enabled);
            &&& plan.spawn_listener <==> server.state == LanState::Idle
            &&& plan.promote_recording <==> enabled
            &&& plan.apply_overlay <==> !backend.ready
            &&& plan.start_watchdog <==> !backend.watchdog
            &&& !plan.set_runtime
        }),
        ({
            let plan = backend.revival_plan(server, enabled);
            &&& plan.spawn_listener <==> server.state == LanState::Idle
            &&& plan.promote_recording <==> enabled
            &&& plan.apply_overlay
            &&& plan.start_watchdog <==> !backend.watchdog
            &&& plan.set_runtime <==> !backend.runtime_set
        }),
        backend.launched().coordinator && backend.launched().ready && backend.launched().watchdog,
        backend.launched().runtime_set == backend.runtime_set,
        backend.revived().coordinator && backend.revived().ready && backend.revived().watchdog
            && backend.revived().runtime_set,
        !Backend::bare().coordinator && !Backend::bare().ready && !Backend::bare().watchdog
            && !Backend::bare().runtime_set,
        backend.started(Startup::Launch) == backend.launched(),
        backend.started(Startup::Revival) == (if backend.ready {
            backend
        } else {
            backend.revived()
        }),
        backend.starts_watchdog(Startup::Launch) <==> !backend.watchdog,
        backend.starts_watchdog(Startup::Revival) <==> !backend.watchdog && !backend.ready,
{
}

/// What is left of a period is all of it until it begins, and grows less from then on, by as much as
/// time goes on, until nothing is left.
pub proof fn what_is_left_of_a_period(since: u64, period: u64, now: u64)
    ensures
        left(since, period, since) == period,
        now <= since && period > 0 ==> left(since, period, now) == period,
        since <= now && now < since + period ==> left(since, period, now) + (now - since) == period,
        now >= since + period ==> left(since, period, now) == 0,
{
}

/// An identifier has the length, the hyphens and the marks of a random UUID.
pub proof fn how_an_identifier_looks(s: Seq<char>)
    requires
        uuid_text(s),
    ensures
        s.len() == 36,
        s[8] == '-' && s[13] == '-' && s[18] == '-' && s[23] == '-',
        s[14] == '4',
        s[19] == '8' || s[19] == '9' || s[19] == 'a' || s[19] == 'b',
        forall|i: int|
            0 <= i < 36 && i != 8 && i != 13 && i != 18 && i != 23 ==> ('0' <= #[trigger] s[i]
                && s[i] <= '9') || ('a' <= s[i] && s[i] <= 'f'),
{
}

} // verus!
