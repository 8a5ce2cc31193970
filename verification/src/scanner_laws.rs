//! What holds of the search for a phone: that every host is probed, which networks are searched, and
//! when a phone is pinged, forgotten and announced.

use vstd::prelude::*;

use crate::client::Shared;
use crate::hint::Hint;
use crate::scanner::{
    addresses, discovery_end, gives_up, is_up, ping_end, prefix_of, prefixes_of, scan_step,
    scanner_after_discovery, scanner_after_ping, shared_after_discovery, shared_after_ping,
    Interface, LocalAddress, ScanStep, Scanner,
};
use crate::text::{blank, decimal, trimmed};
use crate::text_laws::{numbers_are_read_back, numbers_are_told_apart, trimming_cuts_white_ends_alone};

verus! {

/// Every host is probed: for each prefix and each host number from 1 to 254, the text
/// `prefix.host:port` is among the addresses.
pub proof fn every_host_is_probed(prefixes: Seq<Seq<char>>, p: int, host: nat, port: u16)
    requires
        0 <= p < prefixes.len(),
        1 <= host <= 254,
    ensures
        addresses(prefixes, port).contains(
            prefixes[p] + "."@ + decimal(host) + ":"@ + decimal(port as nat),
        ),
{
    let i: int = p * 254 + host - 1;
    assert(0 <= i < prefixes.len() * 254);
    assert(i / 254 == p && i % 254 == host - 1);
    assert(addresses(prefixes, port)[i] == prefixes[p] + "."@ + decimal(host) + ":"@ + decimal(
        port as nat,
    ));
}

/// Nothing else is probed: every address is that of a host with a number from 1 to 254 in the
/// network of one of the prefixes, at the port.
pub proof fn nothing_else_is_probed(prefixes: Seq<Seq<char>>, i: int, port: u16) -> (place: (int, nat))
    requires
        0 <= i < addresses(prefixes, port).len(),
    ensures
        0 <= place.0 < prefixes.len(),
        1 <= place.1 <= 254,
        addresses(prefixes, port)[i] == prefixes[place.0] + "."@ + decimal(place.1) + ":"@
            + decimal(port as nat),
{
    (i / 254, (i % 254 + 1) as nat)
}

proof fn lemma_host_is_read_back(a: Seq<char>, m: nat, b: Seq<char>, n: nat, end: Seq<char>)
    requires
        a + "."@ + decimal(m) + end == b + "."@ + decimal(n) + end,
    ensures
        a == b,
        m == n,
{
    reveal_strlit(".");
    numbers_are_read_back(m);
    numbers_are_read_back(n);
    let d = decimal(m);
    let e = decimal(n);
    let left = a + "."@ + d + end;
    let right = b + "."@ + e + end;
    assert("."@.len() == 1 && "."@[0] == '.');
    assert(left.len() == right.len());
    if d.len() < e.len() {
        assert(left[a.len() as int] == '.');
        assert(right[a.len() as int] == e[a.len() - b.len() - 1]);
        assert(false);
    }
    if e.len() < d.len() {
        assert(right[b.len() as int] == '.');
        assert(left[b.len() as int] == d[b.len() - a.len() - 1]);
        assert(false);
    }
    assert(a.len() == b.len());
    assert forall|i: int| 0 <= i < a.len() implies a[i] == b[i] by {
        assert(left[i] == right[i]);
    }
    assert(a =~= b);
    assert forall|i: int| 0 <= i < d.len() implies d[i] == e[i] by {
        assert(left[a.len() + 1 + i] == right[a.len() + 1 + i]);
    }
    assert(d =~= e);
    numbers_are_told_apart(m, n);
}

/// No host is probed twice, where no prefix stands in the list twice; and there are 254 probes for
/// each prefix.
pub proof fn no_host_is_probed_twice(prefixes: Seq<Seq<char>>, port: u16, i: int, j: int)
    requires
        forall|p: int, q: int|
            0 <= p < q < prefixes.len() ==> #[trigger] prefixes[p] != #[trigger] prefixes[q],
        0 <= i < j < addresses(prefixes, port).len(),
    ensures
        addresses(prefixes, port)[i] != addresses(prefixes, port)[j],
        addresses(prefixes, port).len() == 254 * prefixes.len(),
{
    if addresses(prefixes, port)[i] == addresses(prefixes, port)[j] {
        let a = nothing_else_is_probed(prefixes, i, port);
        let b = nothing_else_is_probed(prefixes, j, port);
        let end = ":"@ + decimal(port as nat);
        let left = prefixes[i / 254];
        let right = prefixes[j / 254];
        let m = (i % 254 + 1) as nat;
        let n = (j % 254 + 1) as nat;
        assert(addresses(prefixes, port)[i] =~= left + "."@ + decimal(m) + end);
        assert(addresses(prefixes, port)[j] =~= right + "."@ + decimal(n) + end);
        lemma_host_is_read_back(left, m, right, n, end);
        assert(i / 254 == j / 254);
        assert(i == 254 * (i / 254) + i % 254);
        assert(j == 254 * (j / 254) + j % 254);
    }
}

/// A phone beside this machine is probed: where this machine has an address `a.b.c.d` in a private
/// network, on an interface that is not told to be down, the address of each host `a.b.c.h` is among
/// those that are probed, whichever list holds the prefixes.
pub proof fn a_neighbour_is_probed(
    interfaces: Seq<Interface<String>>,
    k: int,
    a: u8,
    b: u8,
    c: u8,
    d: u8,
    list: Seq<Seq<char>>,
    h: nat,
    port: u16,
)
    requires
        0 <= k < interfaces.len(),
        interfaces[k]@.address == LocalAddress::V4(a, b, c, d),
        interfaces[k]@.operstate is None || interfaces[k]@.operstate == Some("up"@)
            || interfaces[k]@.operstate == Some("up\n"@),
        a == 10 || (a == 172 && 16 <= b <= 31) || (a == 192 && b == 168),
        list.to_set() == prefixes_of(interfaces),
        1 <= h <= 254,
    ensures
        addresses(list, port).contains(
            decimal(a as nat) + "."@ + decimal(b as nat) + "."@ + decimal(c as nat) + "."@
                + decimal(h) + ":"@ + decimal(port as nat),
        ),
{
    reveal_strlit("up");
    reveal_strlit("up\n");
    assert("up"@.len() == 2 && "up"@[0] == 'u' && "up"@[1] == 'p');
    assert("up\n"@.len() == 3 && "up\n"@[2] == '\n');
    if interfaces[k]@.operstate is Some {
        lemma_up_is_up(interfaces[k]@.operstate->0);
    }
    let prefix = decimal(a as nat) + "."@ + decimal(b as nat) + "."@ + decimal(c as nat);
    assert(prefix_of(interfaces[k]@) == Some(prefix));
    assert(prefixes_of(interfaces).contains(prefix));
    assert(list.to_set().contains(prefix));
    let p = choose|p: int| 0 <= p < list.len() && list[p] == prefix;
    every_host_is_probed(list, p, h, port);
}

proof fn lemma_up_is_up(state: Seq<char>)
    requires
        state == "up"@ || state == "up\n"@,
    ensures
        trimmed(state) == "up"@,
{
    reveal_strlit("up");
    reveal_strlit("up\n");
    assert("up"@ =~= seq!['u', 'p']);
    assert("up\n"@ =~= seq!['u', 'p', '\n']);
    let t = trimmed(state);
    let cut = trimming_cuts_white_ends_alone(state);
    assert(state.len() == cut.0.len() + t.len() + cut.1.len());
    if cut.0.len() > 0 {
        assert(cut.0[0] == state[0]);
        assert(false);
    }
    if cut.1.len() > 0 {
        let n = state.len() as int;
        assert(cut.1[cut.1.len() - 1] == state[n - 1]);
        assert(n == 3);
        if cut.1.len() > 1 {
            assert(cut.1[cut.1.len() - 2] == state[n - 2]);
            assert(false);
        }
    } else if state.len() == 3 {
        assert(t =~= state);
        assert(t.last() == '\n');
        assert(false);
    }
    assert(t =~= "up"@);
}

/// Nothing but private networks is searched: a prefix comes only of an interface with an address of
/// version four in one of the private ranges, and the prefix is the first three numbers of that.
pub proof fn only_private_networks_are_searched(interface: Interface<Seq<char>>, prefix: Seq<char>)
    requires
        prefix_of(interface) == Some(prefix),
    ensures
        interface.address matches LocalAddress::V4(a, b, c, d) && (a == 10 || (a == 172 && 16 <= b
            && b <= 31) || (a == 192 && b == 168)) && prefix == decimal(a as nat) + "."@ + decimal(
            b as nat,
        ) + "."@ + decimal(c as nat),
        is_up(interface.operstate),
{
}

/// When a network is searched: exactly where an interface that is up has an address of version four
/// in one of the private ranges.
pub proof fn when_a_network_is_searched(
    a: u8,
    b: u8,
    c: u8,
    d: u8,
    operstate: Option<Seq<char>>,
)
    ensures
        prefix_of(Interface { address: LocalAddress::V4(a, b, c, d), operstate }) is Some <==> is_up(
            operstate,
        ) && (a == 10 || (a == 172 && b >= 16 && b <= 31) || (a == 192 && b == 168)),
        prefix_of(Interface { address: LocalAddress::V6, operstate }) is None,
{
}

/// An interface is passed over exactly where its state is told and is, but for white space round it,
/// another word than `up`.
pub proof fn when_an_interface_is_up(word: Seq<char>)
    ensures
        is_up(None),
        is_up(Some(word)) <==> trimmed(word) == "up"@,
        blank(word) ==> !is_up(Some(word)),
{
    reveal_strlit("up");
    assert("up"@.len() == 2);
    crate::text::blank_is_trimmed_to_nothing(word);
}

/// The prefixes are those of the interfaces, and no others.
pub proof fn prefixes_come_of_interfaces(interfaces: Seq<Interface<String>>, prefix: Seq<char>)
    ensures
        prefixes_of(interfaces).contains(prefix) <==> exists|k: int|
            0 <= k < interfaces.len() && prefix_of((#[trigger] interfaces[k])@) == Some(prefix),
{
}

/// When the search does what: nothing for a second while there is a session; a phone that is known
/// is pinged exactly where thirty seconds have passed since the last time; and where none is known
/// one is looked for at once.
pub proof fn when_the_search_does_what(
    scanner: Scanner<Seq<char>>,
    shared: Shared<Seq<char>>,
    now: u64,
)
    ensures
        scan_step(scanner, shared, now) is Discover <==> shared.active is None
            && shared.discovered is None,
        scan_step(scanner, shared, now) is Ping <==> shared.active is None
            && shared.discovered is Some && now - scanner.last_heartbeat >= 30_000_000_000,
        scan_step(scanner, shared, now) matches ScanStep::Ping(address) ==> shared.discovered
            == Some(address),
        scan_step(scanner, shared, now) matches ScanStep::Sleep(time) ==> time == 1_000_000_000,
{
}

/// What a ping does: an answer clears the count of failures and changes nothing else; a first
/// failure is counted and changes nothing else; a second in a row forgets the phone that was pinged,
/// and only that one, tells of it, and searches on at once.
pub proof fn what_a_ping_does(
    scanner: Scanner<Seq<char>>,
    shared: Shared<Seq<char>>,
    known: Seq<char>,
)
    requires
        scanner.failures < 2,
    ensures
        scanner_after_ping(scanner, true) == (Scanner { failures: 0, ..scanner }),
        shared_after_ping(scanner, shared, known, true) == shared,
        ping_end(scanner, true).hint is None && ping_end(scanner, true).sleep == 1_000_000_000,
        !gives_up(scanner, true),
        scanner.failures == 0 ==> {
            &&& scanner_after_ping(scanner, false) == (Scanner { failures: 1, ..scanner })
            &&& shared_after_ping(scanner, shared, known, false) == shared
            &&& ping_end(scanner, false).hint is None
            &&& ping_end(scanner, false).sleep == 1_000_000_000
            &&& !ping_end(scanner, false).news
        },
        scanner.failures == 1 ==> {
            let after = shared_after_ping(scanner, shared, known, false);
            &&& scanner_after_ping(scanner, false) == (Scanner {
                failures: 0,
                last: None,
                ..scanner
            })
            &&& after.discovered == if shared.discovered == Some(known) {
                None
            } else {
                shared.discovered
            }
            &&& after.announce && after.active == shared.active
            &&& ping_end(scanner, false).hint == Some(
                Hint::Flash("❌ "@ + "手机连接断开，正在重新扫描…"@),
            )
            &&& ping_end(scanner, false).sleep == 0
            &&& ping_end(scanner, false).news
        },
{
}

/// What a search does: what it found is what is known from then on, and nothing else of what is
/// shared changes but that an announcement is used up. It is announced with its whole address where
/// an announcement was due, and it is pinged no sooner than it takes from now.
pub proof fn what_a_search_does(
    scanner: Scanner<Seq<char>>,
    shared: Shared<Seq<char>>,
    found: Option<Seq<char>>,
    now: u64,
)
    ensures
        shared_after_discovery(shared, found).discovered == found,
        shared_after_discovery(shared, found).active == shared.active,
        shared_after_discovery(shared, found).announce <==> shared.announce && found is None,
        discovery_end(scanner, shared, found).hint == (if shared.announce && found is Some {
            Some(Hint::Flash("✅ 已自动连接手机 "@ + found->0))
        } else {
            None::<Hint<Seq<char>>>
        }),
        discovery_end(scanner, shared, found).sleep == if found is Some {
            1_000_000_000u64
        } else {
            15_000_000_000u64
        },
        discovery_end(scanner, shared, found).news <==> found != scanner.last,
        scanner_after_discovery(scanner, found, now).last == found,
        scanner_after_discovery(scanner, found, now).failures == scanner.failures,
        scanner_after_discovery(scanner, found, now).last_heartbeat == if found is Some {
            now
        } else {
            scanner.last_heartbeat
        },
{
}

} // verus!
