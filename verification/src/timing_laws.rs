//! The times and numbers on which phone and desktop rely, and how they fit together.

use vstd::prelude::*;

use crate::client::START_ATTEMPTS;
use crate::handshake::{CONNECT_TIMEOUT, HELLO_ACK_TIMEOUT, SESSION_READ_TIMEOUT, STARTED_TIMEOUT};
use crate::hint::{AUX_RECORDING, AUX_RETRY, AUX_TRANSCRIBING, FLASH_TIME};
use crate::keepalive::{SELF_TEST_LOOKS, SELF_TEST_PAUSE, SELF_TEST_ROUNDS, WATCHDOG_INTERVAL};
use crate::protocol::{DEFAULT_PORT, PROTOCOL_VERSION};
use crate::registry::HEARTBEAT_TIMEOUT;
use crate::scanner::{
    DISCOVERY_HEARTBEAT_FAIL_LIMIT, DISCOVERY_HEARTBEAT_INTERVAL, DISCOVERY_TIMEOUT, LAST_HOST,
    PROBE_CONNECT_TIMEOUT, PROBE_READ_TIMEOUT, SCAN_INTERVAL, SCAN_PAUSE,
};
use crate::server::{
    ACK_WAIT, MAX_RESULT_SENDS, RESULT_POLL_INTERVAL, RESULT_TIMEOUT, SWEEP_INTERVAL,
};
use crate::session::{SESSION_HEARTBEAT_INTERVAL, STATUS_TIMEOUT, STOP_TIMEOUT};
use crate::timer::left;

verus! {

/// A second, in nanoseconds.
pub open spec fn seconds(n: int) -> int {
    n * 1_000_000_000
}

/// A millisecond, in nanoseconds.
pub open spec fn milliseconds(n: int) -> int {
    n * 1_000_000
}

/// The times of the phone.
pub proof fn the_times_of_the_phone()
    ensures
        HEARTBEAT_TIMEOUT == seconds(3),
        RESULT_TIMEOUT == seconds(60),
        ACK_WAIT == seconds(3),
        RESULT_POLL_INTERVAL == milliseconds(150),
        SWEEP_INTERVAL == milliseconds(500),
        WATCHDOG_INTERVAL == seconds(10),
        SELF_TEST_PAUSE == milliseconds(100),
        SELF_TEST_ROUNDS * SELF_TEST_LOOKS * SELF_TEST_PAUSE == seconds(15),
        MAX_RESULT_SENDS == 2,
        DEFAULT_PORT == 45678,
        PROTOCOL_VERSION == 2,
{
}

/// The times of the desktop.
pub proof fn the_times_of_the_desktop()
    ensures
        SESSION_HEARTBEAT_INTERVAL == seconds(1),
        STOP_TIMEOUT == seconds(90),
        STATUS_TIMEOUT == seconds(5),
        HELLO_ACK_TIMEOUT == milliseconds(800),
        STARTED_TIMEOUT == seconds(5),
        CONNECT_TIMEOUT == seconds(3),
        SESSION_READ_TIMEOUT == seconds(10),
        FLASH_TIME == seconds(3),
        SCAN_INTERVAL == seconds(15),
        SCAN_PAUSE == seconds(1),
        DISCOVERY_HEARTBEAT_INTERVAL == seconds(30),
        DISCOVERY_TIMEOUT == seconds(10),
        PROBE_CONNECT_TIMEOUT == milliseconds(800),
        PROBE_READ_TIMEOUT == milliseconds(1200),
        DISCOVERY_HEARTBEAT_FAIL_LIMIT == 2,
        START_ATTEMPTS == 2,
        LAST_HOST == 254,
        AUX_RECORDING@ == "🎤 正在录音…"@,
        AUX_TRANSCRIBING@ == "⏳ 正在转录…"@,
        AUX_RETRY@ == "连接失败，正在重试…"@,
{
}

/// A phone sweeps exactly where half a second has passed since the last time, and a watchdog goes
/// round exactly where ten seconds have.
pub proof fn when_rounds_are_due(since: u64, now: u64)
    ensures
        left(since, SWEEP_INTERVAL, now) == 0 <==> now >= since + milliseconds(500),
        left(since, WATCHDOG_INTERVAL, now) == 0 <==> now >= since + seconds(10),
        left(since, SWEEP_INTERVAL, now) <= milliseconds(500),
        left(since, WATCHDOG_INTERVAL, now) <= seconds(10),
{
}

/// The times fit together: a heartbeat may be lost, and the one after it, before the phone minds;
/// the desktop waits for a text for as long as the phone looks for it and may take to send it twice;
/// and one probe is over before all of them are given up.
pub proof fn the_times_fit_together()
    ensures
        3 * SESSION_HEARTBEAT_INTERVAL <= HEARTBEAT_TIMEOUT,
        SWEEP_INTERVAL < HEARTBEAT_TIMEOUT,
        RESULT_TIMEOUT + MAX_RESULT_SENDS * ACK_WAIT < STOP_TIMEOUT,
        PROBE_CONNECT_TIMEOUT + PROBE_READ_TIMEOUT < DISCOVERY_TIMEOUT,
        SCAN_PAUSE < DISCOVERY_HEARTBEAT_INTERVAL,
{
}

} // verus!
