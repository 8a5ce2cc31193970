//! Keeping the phone's listener alive: the log of the checks, the watchdog, the drill, and what is
//! told of it all.

use vstd::prelude::*;

use crate::json::{json_read, no_members, reading_of, Document, Json, Object, Scalar};
use crate::lan_server::{
    lan_server_is_running, lan_server_last_error, request_lan_server_restart, LanServer, LanState,
    Restart,
};
use crate::protocol::{scalar_or_null, text_or_null};
use crate::text::text_of;
use crate::timer::{left, time_left};

verus! {

/// The last check of the listener.
#[derive(Debug, PartialEq, Eq)]
pub struct KeepaliveLog<S> {
    pub last_check_at: Option<S>,
    pub last_status: Option<S>,
}

impl View for KeepaliveLog<String> {
    type V = KeepaliveLog<Seq<char>>;

    open spec fn view(&self) -> KeepaliveLog<Seq<char>> {
        KeepaliveLog {
            last_check_at: text_of(self.last_check_at),
            last_status: text_of(self.last_status),
        }
    }
}

/// The log in which nothing is noted.
pub open spec fn nothing_noted() -> KeepaliveLog<Seq<char>> {
    KeepaliveLog { last_check_at: None, last_status: None }
}

/// What is noted of a check.
pub open spec fn check_text(ok: bool, detail: Seq<char>) -> Seq<char> {
    if ok {
        "ok: "@ + detail
    } else {
        "failed: "@ + detail
    }
}

/// Whether a text is made of decimal digits alone.
pub open spec fn all_digits(s: Seq<char>) -> bool {
    forall|i: int| 0 <= i < s.len() ==> '0' <= #[trigger] s[i] <= '9'
}

/// Whether a text is a year: four digits, or a sign and at least as many.
pub open spec fn year_text(s: Seq<char>) -> bool {
    ||| s.len() == 4 && all_digits(s)
    ||| s.len() >= 5 && (s[0] == '+' || s[0] == '-') && all_digits(s.skip(1))
}

/// Whether a text is what follows the year in a timestamp: `-MM-DDThh:mm:ss`, a fraction of three,
/// six or nine digits where there is one, and the offset `+hh:mm` or `-hh:mm`.
pub open spec fn after_year_text(s: Seq<char>) -> bool {
    let n = s.len();
    &&& n == 21 || n == 25 || n == 28 || n == 31
    &&& s[0] == '-' && s[3] == '-' && s[6] == 'T' && s[9] == ':' && s[12] == ':'
    &&& all_digits(s.subrange(1, 3)) && all_digits(s.subrange(4, 6))
    &&& all_digits(s.subrange(7, 9)) && all_digits(s.subrange(10, 12))
    &&& all_digits(s.subrange(13, 15))
    &&& n > 21 ==> s[15] == '.' && all_digits(s.subrange(16, n - 6))
    &&& s[n - 6] == '+' || s[n - 6] == '-'
    &&& all_digits(s.subrange(n - 5, n - 3))
    &&& s[n - 3] == ':'
    &&& all_digits(s.subrange(n - 2, n as int))
}

/// Whether a text is a timestamp of RFC 3339 with a numeric offset.
pub open spec fn timestamp_text(s: Seq<char>) -> bool {
    exists|y: int|
        0 <= y <= s.len() && year_text(#[trigger] s.take(y)) && after_year_text(s.skip(y))
}

/// Whether a check with this outcome was noted, with the time at which it was made.
pub open spec fn noted(log: KeepaliveLog<Seq<char>>, ok: bool, detail: Seq<char>) -> bool {
    &&& log.last_check_at matches Some(at) && timestamp_text(at)
    &&& log.last_status == Some(check_text(ok, detail))
}

/// `chrono::Local::now` and its `to_rfc3339`: the present time in the time zone of the machine, as
/// date, time of day with as much of a fraction as there is, and offset. Which time it tells is left
/// open.
#[verifier::external_body]
fn local_timestamp() -> (r: String)
    ensures
        timestamp_text(r@),
{
    chrono::Local::now().to_rfc3339()
}

impl KeepaliveLog<String> {
    /// A log in which nothing is noted.
    pub fn new() -> (r: Self)
        ensures
            r@ == nothing_noted(),
    {
        KeepaliveLog { last_check_at: None, last_status: None }
    }
}

/// Notes a check that was made at this time.
pub fn record_keepalive_check_at(log: &mut KeepaliveLog<String>, ok: bool, detail: &str, at: String)
    ensures
        final(log)@ == (KeepaliveLog {
            last_check_at: Some(at@),
            last_status: Some(check_text(ok, detail@)),
        }),
{
    log.last_check_at = Some(at);
    log.last_status = Some(
        if ok {
            "ok: ".to_string().concat(detail)
        } else {
            "failed: ".to_string().concat(detail)
        },
    );
}

/// Notes a check that is made now.
pub fn record_keepalive_check(log: &mut KeepaliveLog<String>, ok: bool, detail: &str)
    ensures
        noted(final(log)@, ok, detail@),
{
    record_keepalive_check_at(log, ok, detail, local_timestamp());
}

/// When the last check was made.
pub fn keepalive_last_check_at(log: &KeepaliveLog<String>) -> (r: Option<String>)
    ensures
        text_of(r) == log@.last_check_at,
{
    log.last_check_at.clone()
}

/// How the last check went.
pub fn keepalive_last_status(log: &KeepaliveLog<String>) -> (r: Option<String>)
    ensures
        text_of(r) == log@.last_status,
{
    log.last_status.clone()
}

/// What the watchdog notes of a server that does not listen.
pub open spec fn trouble_of(server: LanServer<Seq<char>>) -> Seq<char> {
    match server.last_error {
        Some(error) => error,
        None => "lan server not running"@,
    }
}

/// One round of the watchdog: it notes whether the server listens, and asks for a restart where it
/// does not.
pub fn watchdog_round(server: &mut LanServer<String>, log: &mut KeepaliveLog<String>) -> (r: Restart)
    ensures
        watched(old(server)@, final(server)@, final(log)@, r),
{
    if lan_server_is_running(server) {
        record_keepalive_check(log, true, "lan server listening");
        return Restart { signal_shutdown: false, spawn: false };
    }
    match lan_server_last_error(server) {
        Some(error) => record_keepalive_check(log, false, error.as_str()),
        None => record_keepalive_check(log, false, "lan server not running"),
    }
    request_lan_server_restart(server)
}

/// The time between two rounds of the watchdog, in nanoseconds.
pub const WATCHDOG_INTERVAL: u64 = 10_000_000_000;

/// When the watchdog last went round, in nanoseconds of a clock that never goes back.
#[derive(Clone, Copy, Debug, PartialEq, Eq, Structural)]
pub struct Watchdog {
    pub since: u64,
}

/// What the watchdog does.
#[derive(Clone, Copy, Debug, PartialEq, Eq, Structural)]
pub enum WatchdogStep {
    /// Wait for so many nanoseconds.
    Pause(u64),
    /// It went round, and this is called for.
    Checked(Restart),
}

/// What one round of the watchdog does to the server, what it notes of it, and what it calls for.
pub open spec fn watched(
    server: LanServer<Seq<char>>,
    after: LanServer<Seq<char>>,
    log: KeepaliveLog<Seq<char>>,
    restart: Restart,
) -> bool {
    if server.state == LanState::Listening {
        &&& noted(log, true, "lan server listening"@)
        &&& after == server
        &&& restart == (Restart { signal_shutdown: false, spawn: false })
    } else {
        &&& noted(log, false, trouble_of(server))
        &&& after == server.restarted()
        &&& restart == (Restart {
            signal_shutdown: server.state == LanState::Idle && server.shutdown_held,
            spawn: server.state == LanState::Idle,
        })
    }
}

impl Watchdog {
    /// A watchdog that begins its work.
    pub fn new(now: u64) -> (r: Watchdog)
        ensures
            r.since == now,
    {
        Watchdog { since: now }
    }

    /// Goes round if the time for it has come, and says how long to wait otherwise.
    pub fn step(&mut self, server: &mut LanServer<String>, log: &mut KeepaliveLog<String>, now: u64) -> (r:
        WatchdogStep)
        ensures
            match r {
                WatchdogStep::Pause(time) => {
                    &&& time > 0
                    &&& time == left(old(self).since, WATCHDOG_INTERVAL, now)
                    &&& *final(self) == *old(self)
                    &&& final(server)@ == old(server)@
                    &&& final(log)@ == old(log)@
                },
                WatchdogStep::Checked(restart) => {
                    &&& left(old(self).since, WATCHDOG_INTERVAL, now) == 0
                    &&& final(self).since == now
                    &&& watched(old(server)@, final(server)@, final(log)@, restart)
                },
            },
    {
        let time: u64 = time_left(self.since, WATCHDOG_INTERVAL, now);
        if time > 0 {
            return WatchdogStep::Pause(time);
        }
        self.since = now;
        WatchdogStep::Checked(watchdog_round(server, log))
    }
}

/// How often the drill asks for a restart at most.
pub const SELF_TEST_ROUNDS: u8 = 3;

/// How often the drill looks for the server after each of them.
pub const SELF_TEST_LOOKS: u8 = 50;

/// The pause after a look that did not find the server, in nanoseconds.
pub const SELF_TEST_PAUSE: u64 = 100_000_000;

/// A drill: the server was declared lost, and is to come back. It counts the restarts it asked for
/// before the present one, and the looks since then.
#[derive(Clone, Copy, Debug, PartialEq, Eq, Structural)]
pub struct SelfTest {
    pub round: u8,
    pub looks: u8,
}

/// How a drill goes on after a look.
#[derive(Clone, Copy, Debug, PartialEq, Eq, Structural)]
pub enum SelfTestStep {
    /// The server is back; the drill is over.
    Recovered,
    /// Pause, then look again.
    LookAgain,
    /// Pause, then ask for another restart and look.
    RestartAgain,
    /// Pause; the drill is over, and the server is not back.
    GiveUp,
}

impl SelfTest {
    /// Whether the drill still has looks to take.
    pub open spec fn under_way(self) -> bool {
        self.round < SELF_TEST_ROUNDS && self.looks < SELF_TEST_LOOKS
    }

    /// How many looks were taken.
    pub open spec fn looks_taken(self) -> nat {
        (self.round * SELF_TEST_LOOKS + self.looks) as nat
    }

    /// The drill after a look. Fifty looks go with each restart, and three restarts with a drill.
    pub open spec fn after_look(self, running: bool) -> SelfTest {
        if running {
            self
        } else if self.looks + 1 < SELF_TEST_LOOKS {
            SelfTest { looks: (self.looks + 1) as u8, ..self }
        } else {
            SelfTest { round: (self.round + 1) as u8, looks: 0 }
        }
    }

    /// How the drill goes on after a look.
    pub open spec fn look_step(self, running: bool) -> SelfTestStep {
        if running {
            SelfTestStep::Recovered
        } else if self.looks + 1 < SELF_TEST_LOOKS {
            SelfTestStep::LookAgain
        } else if self.round + 1 < SELF_TEST_ROUNDS {
            SelfTestStep::RestartAgain
        } else {
            SelfTestStep::GiveUp
        }
    }

    /// A drill that begins: a restart is to be asked for, and then the server looked for.
    pub fn begin() -> (r: SelfTest)
        ensures
            r == (SelfTest { round: 0, looks: 0 }),
            r.under_way(),
            r.looks_taken() == 0,
    {
        SelfTest { round: 0, looks: 0 }
    }

    /// Takes a look.
    pub fn look(&mut self, running: bool) -> (r: SelfTestStep)
        requires
            old(self).under_way(),
        ensures
            r == old(self).look_step(running),
            *final(self) == old(self).after_look(running),
            r == SelfTestStep::LookAgain ==> final(self).under_way(),
            r == SelfTestStep::RestartAgain ==> final(self).under_way(),
    {
        if running {
            return SelfTestStep::Recovered;
        }
        self.looks = self.looks + 1;
        if self.looks < SELF_TEST_LOOKS {
            return SelfTestStep::LookAgain;
        }
        self.round = self.round + 1;
        self.looks = 0;
        if self.round < SELF_TEST_ROUNDS {
            SelfTestStep::RestartAgain
        } else {
            SelfTestStep::GiveUp
        }
    }
}

/// The members of the report of a drill.
pub open spec fn self_test_members(recovered: bool) -> Map<Seq<char>, Json> {
    no_members().insert("simulatedFailure"@, Json::Flag(true)).insert(
        "autoRecovered"@,
        Json::Flag(recovered),
    )
}

/// The report of a drill.
pub fn self_test_report(recovered: bool) -> (r: Document)
    ensures
        r@ == Json::Object(self_test_members(recovered)),
{
    Object::new().with("simulatedFailure", Scalar::Flag(true)).with(
        "autoRecovered",
        Scalar::Flag(recovered),
    ).into_document()
}

/// What the phone's own service answers when it is asked for the state of things.
#[derive(Debug, PartialEq, Eq)]
pub enum NativeStatus<S> {
    /// The service could not be reached, for this reason.
    Unreachable(S),
    /// The call failed.
    CallFailed(S),
    /// The call gave nothing back.
    Null,
    /// The text it gave back could not be taken.
    Unreadable(S),
    /// The text it gave back.
    Text(S),
}

impl View for NativeStatus<String> {
    type V = NativeStatus<Seq<char>>;

    open spec fn view(&self) -> NativeStatus<Seq<char>> {
        match self {
            NativeStatus::Unreachable(error) => NativeStatus::Unreachable(error@),
            NativeStatus::CallFailed(error) => NativeStatus::CallFailed(error@),
            NativeStatus::Null => NativeStatus::Null,
            NativeStatus::Unreadable(error) => NativeStatus::Unreadable(error@),
            NativeStatus::Text(text) => NativeStatus::Text(text@),
        }
    }
}

/// The members of a status that this library makes up itself: all that it does not know is told as
/// if it were bad.
pub open spec fn own_status(
    running: bool,
    last_error: Option<Seq<char>>,
    log: KeepaliveLog<Seq<char>>,
    auto_recovery: bool,
) -> Map<Seq<char>, Json> {
    no_members().insert("lanServerRunning"@, Json::Flag(running)).insert(
        "foregroundServiceRunning"@,
        Json::Flag(false),
    ).insert("notificationKeepaliveEnabled"@, Json::Flag(false)).insert(
        "notificationPermissionGranted"@,
        Json::Flag(false),
    ).insert("overlayPermissionGranted"@, Json::Flag(false)).insert(
        "batteryOptimizationRestricted"@,
        Json::Flag(true),
    ).insert("lastError"@, text_or_null(last_error)).insert(
        "lastCheckAt"@,
        text_or_null(log.last_check_at),
    ).insert("lastStatus"@, text_or_null(log.last_status)).insert(
        "autoRecoverySupported"@,
        Json::Flag(auto_recovery),
    )
}

fn make_status(
    running: bool,
    last_error: &Option<String>,
    log: &KeepaliveLog<String>,
    auto_recovery: bool,
) -> (r: Document)
    ensures
        r@ == Json::Object(own_status(running, text_of(*last_error), log@, auto_recovery)),
{
    Object::new().with("lanServerRunning", Scalar::Flag(running)).with(
        "foregroundServiceRunning",
        Scalar::Flag(false),
    ).with("notificationKeepaliveEnabled", Scalar::Flag(false)).with(
        "notificationPermissionGranted",
        Scalar::Flag(false),
    ).with("overlayPermissionGranted", Scalar::Flag(false)).with(
        "batteryOptimizationRestricted",
        Scalar::Flag(true),
    ).with("lastError", scalar_or_null(last_error)).with(
        "lastCheckAt",
        scalar_or_null(&log.last_check_at),
    ).with("lastStatus", scalar_or_null(&log.last_status)).with(
        "autoRecoverySupported",
        Scalar::Flag(auto_recovery),
    ).into_document()
}

/// The status told by the service, or, where its text could not be read as JSON or there was none,
/// one that this library makes up with what went wrong.
pub open spec fn status_of_reading(
    reading: Result<Json, Seq<char>>,
    server: LanServer<Seq<char>>,
    log: KeepaliveLog<Seq<char>>,
) -> Json {
    match reading {
        Ok(document) => document,
        Err(error) => Json::Object(
            own_status(server.state == LanState::Listening, Some(error), log, true),
        ),
    }
}

/// What the answer of the service comes to: the status it tells, or what went wrong.
pub open spec fn reading_of_native(native: NativeStatus<Seq<char>>) -> Result<Json, Seq<char>> {
    match native {
        NativeStatus::Unreachable(error) => Err(error),
        NativeStatus::CallFailed(error) => Err("call getKeepaliveStatusJson: "@ + error),
        NativeStatus::Null => Err("getKeepaliveStatusJson returned null"@),
        NativeStatus::Unreadable(error) => Err("read keepalive status json: "@ + error),
        NativeStatus::Text(text) => match json_read(text) {
            Ok(document) => Ok(document),
            Err(error) => Err("parse keepalive status json: "@ + error),
        },
    }
}

/// The status of the listener and of what keeps it alive, from what the service tells; nothing is
/// known where there is no such service.
pub open spec fn keepalive_status(
    native: Option<NativeStatus<String>>,
    server: LanServer<Seq<char>>,
    log: KeepaliveLog<Seq<char>>,
) -> Json {
    match native {
        Some(native) => status_of_reading(reading_of_native(native@), server, log),
        None => Json::Object(own_status(false, None, nothing_noted(), false)),
    }
}

/// The status as the service told it, or one with what went wrong.
pub fn status_from_reading(
    reading: Result<Document, String>,
    server: &LanServer<String>,
    log: &KeepaliveLog<String>,
) -> (r: Document)
    ensures
        r@ == status_of_reading(reading_of(reading), server@, log@),
        reading matches Ok(document) ==> r == document,
{
    match reading {
        Ok(document) => document,
        Err(error) => make_status(lan_server_is_running(server), &Some(error), log, true),
    }
}

/// The status of the listener and of what keeps it alive, from what the phone's service tells;
/// there is no such service elsewhere than on a phone.
pub fn get_android_keepalive_status(
    native: Option<NativeStatus<String>>,
    server: &LanServer<String>,
    log: &KeepaliveLog<String>,
) -> (r: Document)
    ensures
        r@ == keepalive_status(native, server@, log@),
{
    match native {
        Some(native) => status_from_reading(read_native(native), server, log),
        None => make_status(false, &None, &KeepaliveLog::new(), false),
    }
}

fn read_native(native: NativeStatus<String>) -> (r: Result<Document, String>)
    ensures
        reading_of(r) == reading_of_native(native@),
{
    match native {
        NativeStatus::Unreachable(error) => Err(error),
        NativeStatus::CallFailed(error) => Err(
            "call getKeepaliveStatusJson: ".to_string().concat(error.as_str()),
        ),
        NativeStatus::Null => Err("getKeepaliveStatusJson returned null".to_string()),
        NativeStatus::Unreadable(error) => Err(
            "read keepalive status json: ".to_string().concat(error.as_str()),
        ),
        NativeStatus::Text(text) => match Document::parse(text.as_str()) {
            Ok(document) => Ok(document),
            Err(error) => Err("parse keepalive status json: ".to_string().concat(error.as_str())),
        },
    }
}

/// A call into the phone's own service, to be made with the application's context.
#[derive(Clone, Copy, Debug, PartialEq, Eq)]
pub struct ServiceCall {
    pub class: &'static str,
    pub method: &'static str,
    pub signature: &'static str,
}

/// The call that asks the phone's service for the state of things.
pub fn keepalive_status_call() -> (r: ServiceCall)
    ensures
        r.class@ == "com.openless.app.OpenLessOverlayService"@,
        r.method@ == "getKeepaliveStatusJson"@,
        r.signature@ == "(Landroid/content/Context;)Ljava/lang/String;"@,
{
    ServiceCall {
        class: "com.openless.app.OpenLessOverlayService",
        method: "getKeepaliveStatusJson",
        signature: "(Landroid/content/Context;)Ljava/lang/String;",
    }
}

/// What such a call says.
pub open spec fn is_settings_call(call: ServiceCall, method: Seq<char>) -> bool {
    &&& call.class@ == "com.openless.app.OpenLessOverlayService"@
    &&& call.method@ == method
    &&& call.signature@ == "(Landroid/content/Context;)V"@
}

/// What opening a page of the settings comes to: a call on Android, and a refusal elsewhere.
pub open spec fn settings_outcome(
    r: Result<ServiceCall, String>,
    on_android: bool,
    method: Seq<char>,
) -> bool {
    match r {
        Ok(call) => on_android && is_settings_call(call, method),
        Err(error) => !on_android && error@ == "Android settings are only available on Android"@,
    }
}

/// The call that opens a page of the settings.
pub fn call_android_settings_method(on_android: bool, method: &'static str) -> (r: Result<
    ServiceCall,
    String,
>)
    ensures
        settings_outcome(r, on_android, method@),
{
    if on_android {
        Ok(
            ServiceCall {
                class: "com.openless.app.OpenLessOverlayService",
                method,
                signature: "(Landroid/content/Context;)V",
            },
        )
    } else {
        Err("Android settings are only available on Android".to_string())
    }
}

/// How such a call failed.
#[derive(Debug, PartialEq, Eq)]
pub enum ServiceFailure<S> {
    /// The service could not be reached, for this reason.
    Unreachable(S),
    /// The call itself failed.
    CallFailed(S),
}

/// What is told of such a call that failed.
pub fn settings_call_failure(call: &ServiceCall, failure: ServiceFailure<String>) -> (r: String)
    ensures
        r@ == match failure {
            ServiceFailure::Unreachable(error) => error@,
            ServiceFailure::CallFailed(error) => "call "@ + call.method@ + ": "@ + error@,
        },
{
    match failure {
        ServiceFailure::Unreachable(error) => error,
        ServiceFailure::CallFailed(error) => "call ".to_string().concat(call.method).concat(
            ": ",
        ).concat(error.as_str()),
    }
}

/// The call that opens the settings of the notifications.
pub fn open_android_notification_settings(on_android: bool) -> (r: Result<ServiceCall, String>)
    ensures
        settings_outcome(r, on_android, "openNotificationSettings"@),
{
    call_android_settings_method(on_android, "openNotificationSettings")
}

/// The call that opens the settings of the battery.
pub fn open_android_battery_settings(on_android: bool) -> (r: Result<ServiceCall, String>)
    ensures
        settings_outcome(r, on_android, "openBatteryOptimizationSettings"@),
{
    call_android_settings_method(on_android, "openBatteryOptimizationSettings")
}

/// How a drill ends with these looks, one after the other; nothing where it goes on after them.
pub open spec fn drill_outcome(drill: SelfTest, looks: Seq<bool>) -> Option<bool>
    decreases looks.len(),
{
    if looks.len() == 0 {
        None
    } else {
        match drill.look_step(looks.first()) {
            SelfTestStep::Recovered => Some(true),
            SelfTestStep::GiveUp => Some(false),
            _ => drill_outcome(drill.after_look(looks.first()), looks.drop_first()),
        }
    }
}

/// A drill ends well exactly where one of its looks finds the server back, and gives up after a
/// hundred and fifty looks that do not.
pub proof fn a_drill_ends(drill: SelfTest, looks: Seq<bool>)
    requires
        drill.under_way(),
        drill.looks_taken() + looks.len() >= SELF_TEST_ROUNDS * SELF_TEST_LOOKS,
    ensures
        drill_outcome(drill, looks) is Some,
        drill_outcome(drill, looks) == Some(true) <==> exists|i: int|
            0 <= i < SELF_TEST_ROUNDS * SELF_TEST_LOOKS - drill.looks_taken() && #[trigger] looks[i],
    decreases looks.len(),
{
    let last = SELF_TEST_ROUNDS * SELF_TEST_LOOKS - drill.looks_taken();
    let rest = looks.drop_first();
    if looks.first() {
        assert(looks[0]);
    } else if drill.look_step(false) == SelfTestStep::GiveUp {
        assert(last == 1);
    } else {
        let next = drill.after_look(false);
        assert(next.looks_taken() == drill.looks_taken() + 1);
        a_drill_ends(next, rest);
        assert forall|i: int| 0 <= i < last - 1 && #[trigger] rest[i] implies looks[i + 1] by {}
        assert forall|i: int| 0 <= i < last && #[trigger] looks[i] implies rest[i - 1] by {}
    }
}

/// The watchdog goes round every ten seconds: a round is due exactly once that time has passed
/// since the last.
pub proof fn the_watchdog_goes_round_in_time(watchdog: Watchdog, now: u64)
    ensures
        left(watchdog.since, WATCHDOG_INTERVAL, now) == 0 <==> now >= watchdog.since
            + WATCHDOG_INTERVAL,
{
}

} // verus!
