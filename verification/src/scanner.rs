//! The search for a phone on the local network: which addresses are probed, and when.

use vstd::prelude::*;

use crate::client::{
    after_attempt, after_event, attempt_step, SessionEvent, Shared, StartFlow,
};
use crate::hint::{flash_trouble, trouble, Hint};
use crate::scanner_laws::every_host_is_probed;
use crate::text::{
    ascending, contains_text, decimal, decimal_text, insert_ascending, occurs_in, same_optional_text,
    same_text, text_of, texts, trim, trimmed,
};

verus! {

/// The time between two searches that found nothing, in nanoseconds.
pub const SCAN_INTERVAL: u64 = 15_000_000_000;

/// The time between two pings of a phone that was found, in nanoseconds.
pub const DISCOVERY_HEARTBEAT_INTERVAL: u64 = 30_000_000_000;

/// How many pings in a row have to fail before a phone is forgotten.
pub const DISCOVERY_HEARTBEAT_FAIL_LIMIT: u32 = 2;

/// The time between two looks at what is shared, in nanoseconds.
pub const SCAN_PAUSE: u64 = 1_000_000_000;

/// How long connecting to a host that is probed may take, in nanoseconds.
pub const PROBE_CONNECT_TIMEOUT: u64 = 800_000_000;

/// How long a host that is probed may take to answer, in nanoseconds.
pub const PROBE_READ_TIMEOUT: u64 = 1_200_000_000;

/// How long all probes together are waited for, in nanoseconds.
pub const DISCOVERY_TIMEOUT: u64 = 10_000_000_000;

/// The highest number that a host has in a network of a prefix; the lowest is one.
pub const LAST_HOST: u32 = 254;

/// An address of this machine.
#[derive(Clone, Copy, Debug, PartialEq, Eq, Structural)]
pub enum LocalAddress {
    V4(u8, u8, u8, u8),
    V6,
}

/// A network interface of this machine.
#[derive(Debug, PartialEq, Eq)]
pub struct Interface<S> {
    pub address: LocalAddress,
    /// What the system says of its state, where it says anything.
    pub operstate: Option<S>,
}

impl View for Interface<String> {
    type V = Interface<Seq<char>>;

    open spec fn view(&self) -> Interface<Seq<char>> {
        Interface { address: self.address, operstate: text_of(self.operstate) }
    }
}

/// Whether an interface is up: one whose state is not known counts as up.
pub open spec fn is_up(operstate: Option<Seq<char>>) -> bool {
    match operstate {
        Some(state) => trimmed(state) == "up"@,
        None => true,
    }
}

/// Whether an interface is up.
pub fn interface_up(operstate: &Option<String>) -> (r: bool)
    ensures
        r == is_up(text_of(*operstate)),
{
    match operstate {
        Some(state) => same_text(trim(state.as_str()), "up"),
        None => true,
    }
}

/// Whether an address with these first two bytes is one of a private network.
pub open spec fn is_private(a: u8, b: u8) -> bool {
    a == 10 || (a == 172 && 16 <= b <= 31) || (a == 192 && b == 168)
}

/// The first three bytes of an address, as they are written.
pub open spec fn prefix_text(a: u8, b: u8, c: u8) -> Seq<char> {
    decimal(a as nat) + "."@ + decimal(b as nat) + "."@ + decimal(c as nat)
}

/// The prefix of the network that an interface stands in, where phones are looked for in it.
pub open spec fn prefix_of(interface: Interface<Seq<char>>) -> Option<Seq<char>> {
    match interface.address {
        LocalAddress::V4(a, b, c, _) => if is_private(a, b) && is_up(interface.operstate) {
            Some(prefix_text(a, b, c))
        } else {
            None
        },
        LocalAddress::V6 => None,
    }
}

/// The prefixes of the networks that these interfaces stand in.
pub open spec fn prefixes_of(interfaces: Seq<Interface<String>>) -> Set<Seq<char>> {
    Set::new(
        |p: Seq<char>|
            exists|i: int| 0 <= i < interfaces.len() && prefix_of((#[trigger] interfaces[i])@) == Some(p),
    )
}

fn interface_prefix(interface: &Interface<String>) -> (r: Option<String>)
    ensures
        text_of(r) == prefix_of(interface@),
{
    match interface.address {
        LocalAddress::V4(a, b, c, _) => {
            let private: bool = a == 10 || (a == 172 && 16 <= b && b <= 31) || (a == 192 && b
                == 168);
            if !private || !interface_up(&interface.operstate) {
                return None;
            }
            let text: String = decimal_text(a as u32).concat(".").concat(
                decimal_text(b as u32).as_str(),
            ).concat(".").concat(decimal_text(c as u32).as_str());
            Some(text)
        },
        LocalAddress::V6 => None,
    }
}

/// The prefixes of the private networks that this machine stands in, each once, in dictionary order.
pub fn local_private_prefixes(interfaces: &Vec<Interface<String>>) -> (r: Vec<String>)
    ensures
        ascending(texts(r@)),
        texts(r@).to_set() == prefixes_of(interfaces@),
{
    let mut prefixes: Vec<String> = Vec::new();
    assert(texts(prefixes@).to_set() =~= prefixes_of(interfaces@.take(0)));
    for i in 0..interfaces.len()
        invariant
            ascending(texts(prefixes@)),
            texts(prefixes@).to_set() == prefixes_of(interfaces@.take(i as int)),
    {
        let ghost seen = interfaces@.take(i as int);
        let ghost now = interfaces@.take(i + 1);
        let prefix: Option<String> = interface_prefix(&interfaces[i]);
        proof {
            assert forall|p: Seq<char>| prefixes_of(now).contains(p) == (prefixes_of(seen).contains(p)
                || text_of(prefix) == Some(p)) by {
                if prefixes_of(seen).contains(p) {
                    let k = choose|k: int|
                        0 <= k < seen.len() && prefix_of((#[trigger] seen[k])@) == Some(p);
                    assert(now[k] == seen[k]);
                }
                if text_of(prefix) == Some(p) {
                    assert(now[i as int] == interfaces@[i as int]);
                }
                if prefixes_of(now).contains(p) {
                    let k = choose|k: int|
                        0 <= k < now.len() && prefix_of((#[trigger] now[k])@) == Some(p);
                    if k < i {
                        assert(seen[k] == now[k]);
                    }
                }
            }
            if prefix is Some {
                assert(prefixes_of(now) =~= prefixes_of(seen).insert(prefix->0@));
            } else {
                assert(prefixes_of(now) =~= prefixes_of(seen));
            }
        }
        if let Some(text) = prefix {
            insert_ascending(&mut prefixes, text);
        }
    }
    assert(interfaces@.take(interfaces@.len() as int) =~= interfaces@);
    prefixes
}

/// The address of a host in the network of a prefix.
pub open spec fn host_address(prefix: Seq<char>, host: nat, port: u16) -> Seq<char> {
    prefix + "."@ + decimal(host) + ":"@ + decimal(port as nat)
}

/// The addresses that are probed: in the network of each prefix all hosts, one after the other.
pub open spec fn addresses(prefixes: Seq<Seq<char>>, port: u16) -> Seq<Seq<char>> {
    Seq::new(
        prefixes.len() * LAST_HOST as nat,
        |i: int|
            host_address(
                prefixes[i / LAST_HOST as int],
                (i % LAST_HOST as int + 1) as nat,
                port,
            ),
    )
}

/// The addresses at which a phone is looked for.
pub fn probe_addresses(prefixes: &Vec<String>, port: u16) -> (r: Vec<String>)
    ensures
        texts(r@) == addresses(texts(prefixes@), port),
        forall|p: int, host: nat|
            #![trigger prefixes@[p], decimal(host)]
            0 <= p < prefixes@.len() && 1 <= host <= 254 ==> texts(r@).contains(
                prefixes@[p]@ + "."@ + decimal(host) + ":"@ + decimal(port as nat),
            ),
{
    let mut found: Vec<String> = Vec::new();
    for p in 0..prefixes.len()
        invariant
            found@.len() == p * LAST_HOST,
            forall|i: int|
                0 <= i < found@.len() ==> (#[trigger] found@[i])@ == host_address(
                    prefixes@[i / LAST_HOST as int]@,
                    (i % LAST_HOST as int + 1) as nat,
                    port,
                ),
    {
        for h in 0..LAST_HOST
            invariant
                p < prefixes@.len(),
                found@.len() == p * LAST_HOST + h,
                forall|i: int|
                    0 <= i < found@.len() ==> (#[trigger] found@[i])@ == host_address(
                        prefixes@[i / LAST_HOST as int]@,
                        (i % LAST_HOST as int + 1) as nat,
                        port,
                    ),
        {
            let address: String = prefixes[p].clone().concat(".").concat(
                decimal_text(h + 1).as_str(),
            ).concat(":").concat(decimal_text(port as u32).as_str());
            found.push(address);
        }
    }
    assert(texts(found@) =~= addresses(texts(prefixes@), port));
    proof {
        assert forall|p: int, host: nat|
            #![trigger prefixes@[p], decimal(host)]
            0 <= p < prefixes@.len() && 1 <= host <= 254 implies texts(found@).contains(
            prefixes@[p]@ + "."@ + decimal(host) + ":"@ + decimal(port as nat),
        ) by {
            every_host_is_probed(texts(prefixes@), p, host, port);
        }
    }
    found
}

/// What a probe reports: of the phones that answer only the one that answers first.
pub fn probe_phone(found: &mut bool, alive: bool) -> (report: bool)
    ensures
        report == (alive && !*old(found)),
        *final(found) == (*old(found) || alive),
{
    if alive && !*found {
        *found = true;
        true
    } else {
        false
    }
}

/// Whether a text frame is the answer to a ping.
pub fn is_pong(frame: &str) -> (r: bool)
    ensures
        r == occurs_in("\"pong\""@, frame@),
{
    contains_text(frame, "\"pong\"")
}

/// The search while it goes on.
#[derive(Debug, PartialEq, Eq)]
pub struct Scanner<S> {
    /// What the last search found.
    pub last: Option<S>,
    /// When the phone that was found was pinged last, in nanoseconds of a clock that never goes
    /// back.
    pub last_heartbeat: u64,
    /// How many pings failed in a row.
    pub failures: u32,
}

impl View for Scanner<String> {
    type V = Scanner<Seq<char>>;

    open spec fn view(&self) -> Scanner<Seq<char>> {
        Scanner {
            last: text_of(self.last),
            last_heartbeat: self.last_heartbeat,
            failures: self.failures,
        }
    }
}

/// What the search does next.
#[derive(Debug, PartialEq, Eq)]
pub enum ScanStep<S> {
    /// Wait for so many nanoseconds.
    Sleep(u64),
    /// Ping the phone at this address, and report with `ping_ended`.
    Ping(S),
    /// Look for a phone, and report with `discovery_ended`.
    Discover,
}

impl View for ScanStep<String> {
    type V = ScanStep<Seq<char>>;

    open spec fn view(&self) -> ScanStep<Seq<char>> {
        match self {
            ScanStep::Sleep(time) => ScanStep::Sleep(*time),
            ScanStep::Ping(address) => ScanStep::Ping(address@),
            ScanStep::Discover => ScanStep::Discover,
        }
    }
}

/// What comes of a ping or of a search: something to show, and a time to wait.
#[derive(Debug, PartialEq, Eq)]
pub struct ScanEnd<S> {
    pub hint: Option<Hint<S>>,
    pub sleep: u64,
    /// Whether there is news for the log: a phone that is lost, or a search that found something
    /// else than the last.
    pub news: bool,
}

impl View for ScanEnd<String> {
    type V = ScanEnd<Seq<char>>;

    open spec fn view(&self) -> ScanEnd<Seq<char>> {
        ScanEnd {
            hint: match self.hint {
                Some(hint) => Some(hint@),
                None => None,
            },
            sleep: self.sleep,
            news: self.news,
        }
    }
}

/// What the search does next: nothing while there is a session; a phone that was found is pinged
/// now and then; otherwise one is looked for.
pub open spec fn scan_step(
    scanner: Scanner<Seq<char>>,
    shared: Shared<Seq<char>>,
    now: u64,
) -> ScanStep<Seq<char>> {
    if shared.active is Some {
        ScanStep::Sleep(SCAN_PAUSE)
    } else {
        match shared.discovered {
            Some(known) => if now - scanner.last_heartbeat >= DISCOVERY_HEARTBEAT_INTERVAL {
                ScanStep::Ping(known)
            } else {
                ScanStep::Sleep(SCAN_PAUSE)
            },
            None => ScanStep::Discover,
        }
    }
}

/// Whether a ping that ends like this is the one after which the phone is forgotten.
pub open spec fn gives_up(scanner: Scanner<Seq<char>>, alive: bool) -> bool {
    !alive && scanner.failures + 1 >= DISCOVERY_HEARTBEAT_FAIL_LIMIT
}

/// The search after a ping.
pub open spec fn scanner_after_ping(scanner: Scanner<Seq<char>>, alive: bool) -> Scanner<Seq<char>> {
    if alive {
        Scanner { failures: 0, ..scanner }
    } else if gives_up(scanner, alive) {
        Scanner { failures: 0, last: None, ..scanner }
    } else {
        Scanner { failures: (scanner.failures + 1) as u32, ..scanner }
    }
}

/// What is shared after a ping of this phone.
pub open spec fn shared_after_ping(
    scanner: Scanner<Seq<char>>,
    shared: Shared<Seq<char>>,
    known: Seq<char>,
    alive: bool,
) -> Shared<Seq<char>> {
    if gives_up(scanner, alive) {
        Shared { announce: true, ..shared.forgetting(known) }
    } else {
        shared
    }
}

/// What comes of a ping: where the phone is forgotten, the search goes on at once.
pub open spec fn ping_end(scanner: Scanner<Seq<char>>, alive: bool) -> ScanEnd<Seq<char>> {
    if gives_up(scanner, alive) {
        ScanEnd {
            hint: Some(trouble("手机连接断开，正在重新扫描…"@)),
            sleep: 0,
            news: true,
        }
    } else {
        ScanEnd { hint: None, sleep: SCAN_PAUSE, news: false }
    }
}

/// Whether a phone that was found is announced: the next one after a loss is, whichever it is.
pub open spec fn announces(shared: Shared<Seq<char>>, found: Option<Seq<char>>) -> bool {
    found is Some && shared.announce
}

/// The search after one look for a phone.
pub open spec fn scanner_after_discovery(
    scanner: Scanner<Seq<char>>,
    found: Option<Seq<char>>,
    now: u64,
) -> Scanner<Seq<char>> {
    Scanner {
        last: found,
        last_heartbeat: if found is Some {
            now
        } else {
            scanner.last_heartbeat
        },
        failures: scanner.failures,
    }
}

/// What is shared after one look for a phone.
pub open spec fn shared_after_discovery(
    shared: Shared<Seq<char>>,
    found: Option<Seq<char>>,
) -> Shared<Seq<char>> {
    Shared {
        discovered: found,
        announce: shared.announce && !announces(shared, found),
        ..shared
    }
}

/// The hint that a phone was found again.
pub open spec fn found_again(address: Seq<char>) -> Hint<Seq<char>> {
    Hint::Flash("✅ 已自动连接手机 "@ + address)
}

/// What comes of one look for a phone.
pub open spec fn discovery_end(
    scanner: Scanner<Seq<char>>,
    shared: Shared<Seq<char>>,
    found: Option<Seq<char>>,
) -> ScanEnd<Seq<char>> {
    ScanEnd {
        hint: if announces(shared, found) {
            Some(found_again(found->0))
        } else {
            None
        },
        sleep: if found is Some {
            SCAN_PAUSE
        } else {
            SCAN_INTERVAL
        },
        news: found != scanner.last,
    }
}

impl Scanner<Seq<char>> {
    /// Whether the failures in a row are fewer than those after which a phone is forgotten.
    pub open spec fn sound(self) -> bool {
        self.failures < DISCOVERY_HEARTBEAT_FAIL_LIMIT
    }
}

impl Scanner<String> {
    /// A search that begins.
    pub fn new(now: u64) -> (r: Self)
        ensures
            r@ == (Scanner { last: None::<Seq<char>>, last_heartbeat: now, failures: 0 }),
            r@.sound(),
    {
        Scanner { last: None, last_heartbeat: now, failures: 0 }
    }

    /// What the search does next.
    pub fn next(&mut self, shared: &Shared<String>, now: u64) -> (r: ScanStep<String>)
        ensures
            r@ == scan_step(old(self)@, shared@, now),
            final(self)@ == (Scanner {
                last_heartbeat: if r is Ping {
                    now
                } else {
                    old(self)@.last_heartbeat
                },
                ..old(self)@
            }),
    {
        if shared.active.is_some() {
            return ScanStep::Sleep(SCAN_PAUSE);
        }
        match &shared.discovered {
            Some(known) => {
                if now.saturating_sub(self.last_heartbeat) >= DISCOVERY_HEARTBEAT_INTERVAL {
                    self.last_heartbeat = now;
                    ScanStep::Ping(known.clone())
                } else {
                    ScanStep::Sleep(SCAN_PAUSE)
                }
            },
            None => ScanStep::Discover,
        }
    }

    /// Takes the end of a ping.
    pub fn ping_ended(&mut self, shared: &mut Shared<String>, known: &str, alive: bool) -> (r: ScanEnd<
        String,
    >)
        requires
            old(self)@.sound(),
        ensures
            final(self)@.sound(),
            final(self)@ == scanner_after_ping(old(self)@, alive),
            final(shared)@ == shared_after_ping(old(self)@, old(shared)@, known@, alive),
            r@ == ping_end(old(self)@, alive),
    {
        if alive {
            self.failures = 0;
        } else {
            self.failures = self.failures + 1;
            if self.failures >= DISCOVERY_HEARTBEAT_FAIL_LIMIT {
                shared.announce = true;
                shared.forget(known);
                self.failures = 0;
                self.last = None;
                return ScanEnd {
                    hint: Some(flash_trouble("手机连接断开，正在重新扫描…")),
                    sleep: 0,
                    news: true,
                };
            }
        }
        ScanEnd { hint: None, sleep: SCAN_PAUSE, news: false }
    }

    /// Takes the end of one look for a phone.
    pub fn discovery_ended(&mut self, shared: &mut Shared<String>, found: Option<String>, now: u64) -> (r:
        ScanEnd<String>)
        ensures
            final(self)@ == scanner_after_discovery(old(self)@, text_of(found), now),
            final(shared)@ == shared_after_discovery(old(shared)@, text_of(found)),
            r@ == discovery_end(old(self)@, old(shared)@, text_of(found)),
    {
        let mut hint: Option<Hint<String>> = None;
        if let Some(address) = &found {
            if shared.announce {
                shared.announce = false;
                hint = Some(
                    Hint::Flash("✅ 已自动连接手机 ".to_string().concat(address.as_str())),
                );
            }
        }
        let news: bool = !same_optional_text(&found, &self.last);
        self.last = found.clone();
        let sleep: u64 = if found.is_some() {
            self.last_heartbeat = now;
            SCAN_PAUSE
        } else {
            SCAN_INTERVAL
        };
        shared.discovered = found;
        ScanEnd { hint, sleep, news }
    }
}

/// Nothing is searched or pinged while there is a session.
pub proof fn a_session_is_left_alone(
    scanner: Scanner<Seq<char>>,
    shared: Shared<Seq<char>>,
    now: u64,
)
    requires
        shared.active is Some,
    ensures
        scan_step(scanner, shared, now) is Sleep,
{
}

/// Once a phone is found none is looked for until it is forgotten.
pub proof fn a_known_phone_is_not_looked_for(
    scanner: Scanner<Seq<char>>,
    shared: Shared<Seq<char>>,
    now: u64,
)
    requires
        shared.discovered is Some,
    ensures
        scan_step(scanner, shared, now) !is Discover,
{
}

/// Counted from a ping that was answered, a phone is forgotten after two failed pings in a row: the
/// first of them leaves it known, the second does not.
pub proof fn two_failures_in_a_row_forget_a_phone(
    scanner: Scanner<Seq<char>>,
    shared: Shared<Seq<char>>,
    known: Seq<char>,
)
    requires
        shared.discovered == Some(known),
        scanner.sound(),
    ensures
        ({
            let answered = scanner_after_ping(scanner, true);
            let failed = scanner_after_ping(answered, false);
            &&& shared_after_ping(scanner, shared, known, true) == shared
            &&& shared_after_ping(answered, shared, known, false) == shared
            &&& shared_after_ping(failed, shared, known, false).discovered is None
            &&& scanner_after_ping(failed, false).failures == 0
        }),
{
}

/// A phone is announced once: right after it was announced, no other is until a session or a
/// connection is lost again.
pub proof fn a_phone_is_announced_once(
    shared: Shared<Seq<char>>,
    found: Option<Seq<char>>,
    next: Option<Seq<char>>,
)
    requires
        announces(shared, found),
    ensures
        !announces(shared_after_discovery(shared, found), next),
{
}

/// After a start that failed, a session that was lost or a phone that was forgotten, the next phone
/// that is found is announced, though it be the one that was found before.
pub proof fn the_next_phone_after_a_loss_is_announced(
    scanner: Scanner<Seq<char>>,
    shared: Shared<Seq<char>>,
    flow: StartFlow<Seq<char>>,
    error: Seq<char>,
    known: Seq<char>,
    found: Seq<char>,
)
    ensures
        attempt_step(flow, Err(error)) is Failed ==> discovery_end(
            scanner,
            after_attempt(shared, flow, Err(error)),
            Some(found),
        ).hint == Some(found_again(found)),
        discovery_end(
            scanner,
            after_event(shared, SessionEvent::Lost(error)),
            Some(found),
        ).hint == Some(found_again(found)),
        gives_up(scanner, false) ==> discovery_end(
            scanner_after_ping(scanner, false),
            shared_after_ping(scanner, shared, known, false),
            Some(found),
        ).hint == Some(found_again(found)),
{
}

} // verus!
