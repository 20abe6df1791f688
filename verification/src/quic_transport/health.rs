//! Which peers keep failing, and are therefore not worth a try for a while.
//!
//! After a number of consecutive failures, sends to a peer short-circuit until
//! the retry window has passed, so that the input layer lets the cursor go at
//! once and does not freeze behind connect timeouts.

use vstd::prelude::*;
use vstd::string::StringExecFns;
use crate::table;
use crate::table::Table;
#[allow(unused_imports)]
use crate::table::TableKey;
use crate::text;

verus! {

/// How many consecutive failures make a peer fail fast.
pub const DATAGRAM_FAIL_THRESHOLD: u32 = 3;

/// How long after its last failure a peer keeps failing fast, in seconds.
pub const DATAGRAM_RETRY_WINDOW_SECS: u64 = 3;

/// The retry window in nanoseconds, the unit of every clock reading here.
pub const DATAGRAM_RETRY_WINDOW: u64 = 3_000_000_000;

/// How many peers are remembered.
pub const MAX_HEALTH_PEERS: usize = 64;

/// Consecutive-failure record of one peer address. Clock readings count
/// nanoseconds from one fixed origin.
#[derive(Debug, Clone, Copy, PartialEq, Eq, Structural)]
pub struct PeerHealth {
    pub consecutive_failures: u32,
    pub last_failure: u64,
}

/// How loudly something is said.
#[derive(Debug, Clone, Copy, PartialEq, Eq, Structural)]
pub enum NoticeLevel {
    Debug,
    Info,
    Warn,
}

/// A line for the log.
#[derive(Debug, Clone)]
pub struct Notice {
    pub level: NoticeLevel,
    pub text: String,
}

/// The failure records, by peer address.
pub struct HealthMap {
    table: Table<String, PeerHealth>,
}

impl View for HealthMap {
    type V = Map<Seq<char>, PeerHealth>;

    closed spec fn view(&self) -> Map<Seq<char>, PeerHealth> {
        self.table.map()
    }
}

impl HealthMap {
    /// One record per address, and no more records than are remembered.
    pub closed spec fn wf(&self) -> bool {
        &&& self.table.wf()
        &&& self.table.entries@.len() <= MAX_HEALTH_PEERS
    }

    /// No failures yet.
    pub fn new() -> (health: Self)
        ensures
            health.wf(),
            health@ == Map::<Seq<char>, PeerHealth>::empty(),
    {
        HealthMap { table: Table::new() }
    }
}

/// The time from `since` to `now`, or nothing if the clock reads earlier.
pub open spec fn elapsed(since: u64, now: u64) -> int {
    if now >= since {
        now - since
    } else {
        0
    }
}

/// Whether sends to `addr` are refused at time `now`.
pub open spec fn fast_fail(health: Map<Seq<char>, PeerHealth>, addr: Seq<char>, now: u64) -> bool {
    &&& health.dom().contains(addr)
    &&& health[addr].consecutive_failures >= DATAGRAM_FAIL_THRESHOLD
    &&& elapsed(health[addr].last_failure, now) < DATAGRAM_RETRY_WINDOW
}

/// Whether no record is older than that of `addr`.
pub open spec fn stalest(health: Map<Seq<char>, PeerHealth>, addr: Seq<char>) -> bool {
    &&& health.dom().contains(addr)
    &&& forall|other: Seq<char>| #[trigger]
        health.dom().contains(other) ==> health[addr].last_failure <= health[other].last_failure
}

/// The number of failures of `addr` that come in a row once one more is counted.
pub open spec fn failures_after(health: Map<Seq<char>, PeerHealth>, addr: Seq<char>) -> u32 {
    if health.dom().contains(addr) {
        if health[addr].consecutive_failures == u32::MAX {
            u32::MAX
        } else {
            (health[addr].consecutive_failures + 1) as u32
        }
    } else {
        1
    }
}

/// The records once a failure of `addr` at time `now` is counted.
pub open spec fn struck(
    health: Map<Seq<char>, PeerHealth>,
    addr: Seq<char>,
    now: u64,
) -> Map<Seq<char>, PeerHealth> {
    health.insert(
        addr,
        PeerHealth { consecutive_failures: failures_after(health, addr), last_failure: now },
    )
}

/// Whether `after` is what a failure of `addr` at time `now` makes of `before`.
/// When the records are full, a new peer takes the place of one whose last
/// failure is the oldest; which one, if several are equally old, is open.
pub open spec fn failure_recorded(
    before: Map<Seq<char>, PeerHealth>,
    addr: Seq<char>,
    now: u64,
    after: Map<Seq<char>, PeerHealth>,
) -> bool {
    if before.dom().len() >= MAX_HEALTH_PEERS && !before.dom().contains(addr) {
        exists|stale: Seq<char>| #[trigger]
            stalest(before, stale) && after == struck(before.remove(stale), addr, now)
    } else {
        after == struck(before, addr, now)
    }
}

/// How loudly the `failures`th failure in a row is reported: the first, and the
/// one that starts the fast-fail, are warnings.
pub open spec fn failure_level(failures: u32) -> NoticeLevel {
    if failures == 1 || failures == DATAGRAM_FAIL_THRESHOLD {
        NoticeLevel::Warn
    } else {
        NoticeLevel::Debug
    }
}

/// What is said of the `failures`th failure in a row.
pub open spec fn failure_text(addr: Seq<char>, failures: u32, error: Seq<char>) -> Seq<char> {
    if failures == 1 {
        "QUIC send to "@ + addr + " failed: "@ + error
    } else if failures == DATAGRAM_FAIL_THRESHOLD {
        "QUIC sends to "@ + addr + " keep failing; muting attempts to one probe per "@ + text::decimal(
            DATAGRAM_RETRY_WINDOW_SECS as nat,
        ) + "s: "@ + error
    } else {
        "QUIC send to "@ + addr + " still failing: "@ + error
    }
}

/// What is said when a peer that was failing fast can be reached again.
pub open spec fn recovery_text(addr: Seq<char>) -> Seq<char> {
    "QUIC sends to "@ + addr + " recovered"@
}

/// Whether sends to `addr` are refused at time `now`.
pub fn peer_fast_fail_active(health: &HealthMap, addr: &str, now: u64) -> (active: bool)
    requires
        health.wf(),
    ensures
        active == fast_fail(health@, addr@, now),
{
    let key: String = addr.to_owned();
    match health.table.position(&key) {
        Some(at) => {
            let entry: PeerHealth = health.table.entries[at].1;
            let quiet: u64 = if now >= entry.last_failure {
                now - entry.last_failure
            } else {
                0
            };
            entry.consecutive_failures >= DATAGRAM_FAIL_THRESHOLD && quiet < DATAGRAM_RETRY_WINDOW
        },
        None => false,
    }
}

/// Where a record with the oldest last failure stands.
fn stalest_position(table: &Table<String, PeerHealth>) -> (at: usize)
    requires
        table.wf(),
        table.entries@.len() > 0,
    ensures
        at < table.entries@.len(),
        stalest(table.map(), table.entries@[at as int].0@),
{
    let mut at: usize = 0;
    for i in 1..table.entries.len()
        invariant
            at < table.entries@.len(),
            forall|j: int|
                0 <= j < i ==> table.entries@[at as int].1.last_failure <= (
                #[trigger] table.entries@[j]).1.last_failure,
    {
        if table.entries[i].1.last_failure < table.entries[at].1.last_failure {
            at = i;
        }
    }
    proof {
        table::lemma_entries_map(table.entries@);
        assert(table.entries@[at as int].0.id() == table.entries@[at as int].0@);
        assert forall|other: Seq<char>| #[trigger]
            table.map().dom().contains(other) implies table.map()[table.entries@[at as int].0@].last_failure
            <= table.map()[other].last_failure by {
            let j = choose|j: int|
                0 <= j < table.entries@.len() && (#[trigger] table.entries@[j]).0.id() == other;
            assert(table.map()[other] == table.entries@[j].1);
        }
    }
    at
}

/// Counts a failure of `addr` at time `now` and says what to log of it.
pub fn record_peer_failure(health: &mut HealthMap, addr: &str, error: &str, now: u64) -> (notice:
    Notice)
    requires
        old(health).wf(),
    ensures
        final(health).wf(),
        failure_recorded(old(health)@, addr@, now, final(health)@),
        notice.level == failure_level(failures_after(old(health)@, addr@)),
        notice.text@ == failure_text(addr@, failures_after(old(health)@, addr@), error@),
{
    let ghost before = health@;
    let key: String = addr.to_owned();
    proof {
        table::lemma_entries_map(health.table.entries@);
    }
    let known: Option<usize> = health.table.position(&key);
    let failures: u32 = match known {
        Some(at) => health.table.entries[at].1.consecutive_failures.saturating_add(1),
        None => 1,
    };
    assert(failures == failures_after(before, addr@));
    let ghost mut base = before;
    if health.table.entries.len() >= MAX_HEALTH_PEERS && known.is_none() {
        let at: usize = stalest_position(&health.table);
        let ghost stale = health.table.entries@[at as int].0@;
        proof {
            base = before.remove(stale);
        }
        let _ = health.table.remove_at(at);
        assert(stalest(before, stale));
        assert(struck(base, addr@, now) == base.insert(
            addr@,
            PeerHealth { consecutive_failures: failures, last_failure: now },
        ));
    }
    health.table.insert(key, PeerHealth { consecutive_failures: failures, last_failure: now });
    assert(health@ == struck(base, addr@, now));
    failure_notice(addr, failures, error)
}

/// What to log of the `failures`th failure of `addr` in a row.
fn failure_notice(addr: &str, failures: u32, error: &str) -> (notice: Notice)
    ensures
        notice.level == failure_level(failures),
        notice.text@ == failure_text(addr@, failures, error@),
{
    if failures == 1 {
        let text = "QUIC send to ".to_owned().concat(addr).concat(" failed: ").concat(error);
        Notice { level: NoticeLevel::Warn, text }
    } else if failures == DATAGRAM_FAIL_THRESHOLD {
        let seconds = text::decimal_text(DATAGRAM_RETRY_WINDOW_SECS);
        let text = "QUIC sends to ".to_owned().concat(addr).concat(
            " keep failing; muting attempts to one probe per ",
        ).concat(seconds.as_str()).concat("s: ").concat(error);
        Notice { level: NoticeLevel::Warn, text }
    } else {
        let text = "QUIC send to ".to_owned().concat(addr).concat(" still failing: ").concat(error);
        Notice { level: NoticeLevel::Debug, text }
    }
}

/// Forgets the failures of `addr`; a peer that had reached the threshold is
/// reported as recovered.
pub fn record_peer_success(health: &mut HealthMap, addr: &str) -> (notice: Option<Notice>)
    requires
        old(health).wf(),
    ensures
        final(health).wf(),
        final(health)@ == old(health)@.remove(addr@),
        match notice {
            Some(n) => old(health)@.dom().contains(addr@)
                && old(health)@[addr@].consecutive_failures >= DATAGRAM_FAIL_THRESHOLD && n.level
                == NoticeLevel::Info && n.text@ == recovery_text(addr@),
            None => old(health)@.dom().contains(addr@) ==> old(
                health,
            )@[addr@].consecutive_failures < DATAGRAM_FAIL_THRESHOLD,
        },
{
    let key: String = addr.to_owned();
    match health.table.remove(&key) {
        Some(entry) => {
            if entry.consecutive_failures >= DATAGRAM_FAIL_THRESHOLD {
                let text = "QUIC sends to ".to_owned().concat(addr).concat(" recovered");
                Some(Notice { level: NoticeLevel::Info, text })
            } else {
                None
            }
        },
        None => None,
    }
}

/// A history of failures of one peer: `states[i + 1]` is what the failure at
/// `times[i]` made of `states[i]`.
pub open spec fn failure_history(
    states: Seq<Map<Seq<char>, PeerHealth>>,
    addr: Seq<char>,
    times: Seq<u64>,
) -> bool {
    &&& states.len() == times.len() + 1
    &&& forall|i: int|
        0 <= i < times.len() ==> failure_recorded(
            #[trigger] states[i],
            addr,
            times[i],
            states[i + 1],
        )
}

proof fn lemma_failures_add_up(
    states: Seq<Map<Seq<char>, PeerHealth>>,
    addr: Seq<char>,
    times: Seq<u64>,
)
    requires
        failure_history(states, addr, times),
        !states[0].dom().contains(addr),
        0 < times.len() < u32::MAX,
    ensures
        states.last().dom().contains(addr),
        states.last()[addr].consecutive_failures == times.len(),
        states.last()[addr].last_failure == times.last(),
    decreases times.len(),
{
    let n = times.len() as int;
    assert(failure_recorded(states[n - 1], addr, times[n - 1], states[n]));
    if n > 1 {
        let earlier = states.drop_last();
        let earlier_times = times.drop_last();
        assert forall|i: int| 0 <= i < earlier_times.len() implies failure_recorded(
            #[trigger] earlier[i],
            addr,
            earlier_times[i],
            earlier[i + 1],
        ) by {
            assert(failure_recorded(states[i], addr, times[i], states[i + 1]));
        }
        lemma_failures_add_up(earlier, addr, earlier_times);
        assert(earlier.last() == states[n - 1]);
    }
}

/// A peer without a record that then fails again and again is refused exactly
/// from the threshold on, and only while the last failure is recent.
pub proof fn fast_fail_starts_at_the_threshold(
    states: Seq<Map<Seq<char>, PeerHealth>>,
    addr: Seq<char>,
    times: Seq<u64>,
    now: u64,
)
    requires
        failure_history(states, addr, times),
        !states[0].dom().contains(addr),
        0 < times.len() < u32::MAX,
    ensures
        fast_fail(states.last(), addr, now) <==> times.len() >= DATAGRAM_FAIL_THRESHOLD && elapsed(
            times.last(),
            now,
        ) < DATAGRAM_RETRY_WINDOW,
{
    lemma_failures_add_up(states, addr, times);
}

/// One success ends the fast-fail of a peer, whatever came before, and the next
/// failure counts as the first.
pub proof fn success_clears_the_record(
    health: Map<Seq<char>, PeerHealth>,
    addr: Seq<char>,
    now: u64,
)
    ensures
        !fast_fail(health.remove(addr), addr, now),
        failures_after(health.remove(addr), addr) == 1,
{
}

/// A success of one peer changes nothing for another.
pub proof fn success_leaves_other_peers(
    health: Map<Seq<char>, PeerHealth>,
    addr: Seq<char>,
    other: Seq<char>,
    now: u64,
)
    requires
        other != addr,
    ensures
        fast_fail(health.remove(addr), other, now) == fast_fail(health, other, now),
{
}

/// A failure of one peer never makes another fail fast, and changes the record
/// of no other peer except that, when the records are full, one of the stalest
/// may be forgotten.
pub proof fn failure_leaves_other_peers(
    before: Map<Seq<char>, PeerHealth>,
    addr: Seq<char>,
    other: Seq<char>,
    now: u64,
    after: Map<Seq<char>, PeerHealth>,
    later: u64,
)
    requires
        failure_recorded(before, addr, now, after),
        other != addr,
    ensures
        fast_fail(after, other, later) ==> fast_fail(before, other, later),
        before.dom().contains(other) && !after.dom().contains(other) ==> stalest(before, other)
            && before.dom().len() >= MAX_HEALTH_PEERS && !before.dom().contains(addr),
        after.dom().contains(other) ==> before.dom().contains(other) && after[other]
            == before[other],
{
}

/// The number of remembered peers stays within its bound.
pub proof fn records_stay_bounded(health: HealthMap)
    requires
        health.wf(),
    ensures
        health@.dom().finite(),
        health@.dom().len() <= MAX_HEALTH_PEERS,
{
    table::lemma_entries_map(health.table.entries@);
}

/// Probes of a peer that keeps failing are spaced out: after a failure at time
/// `now` that reaches the threshold, the peer is refused for the whole window.
pub proof fn probes_are_spaced(
    before: Map<Seq<char>, PeerHealth>,
    addr: Seq<char>,
    now: u64,
    after: Map<Seq<char>, PeerHealth>,
    later: u64,
)
    requires
        failure_recorded(before, addr, now, after),
        failures_after(before, addr) >= DATAGRAM_FAIL_THRESHOLD,
        later < now + DATAGRAM_RETRY_WINDOW,
    ensures
        fast_fail(after, addr, later),
{
}

/// Once the window since the last failure has passed, the peer is probed again.
pub proof fn window_reopens(health: Map<Seq<char>, PeerHealth>, addr: Seq<char>, now: u64)
    requires
        health.dom().contains(addr) ==> elapsed(health[addr].last_failure, now)
            >= DATAGRAM_RETRY_WINDOW,
    ensures
        !fast_fail(health, addr, now),
{
}

/// A failure is counted on top of those that came before it in a row, one if
/// there were none, as far as 32 bits go, and its time is kept.
pub proof fn failures_are_counted_in_a_row(
    before: Map<Seq<char>, PeerHealth>,
    addr: Seq<char>,
    now: u64,
    after: Map<Seq<char>, PeerHealth>,
)
    requires
        failure_recorded(before, addr, now, after),
    ensures
        after.dom().contains(addr),
        after[addr].last_failure == now,
        !before.dom().contains(addr) ==> after[addr].consecutive_failures == 1,
        before.dom().contains(addr) && before[addr].consecutive_failures < 0xFFFF_FFFF
            ==> after[addr].consecutive_failures == before[addr].consecutive_failures + 1,
        before.dom().contains(addr) && before[addr].consecutive_failures == 0xFFFF_FFFF
            ==> after[addr].consecutive_failures == 0xFFFF_FFFF,
        after[addr].consecutive_failures == failures_after(before, addr),
{
}

/// A failure forgets no other peer while there is room, or if the peer is known;
/// else it forgets one and no more.
pub proof fn at_most_one_peer_is_forgotten(
    before: Map<Seq<char>, PeerHealth>,
    addr: Seq<char>,
    now: u64,
    after: Map<Seq<char>, PeerHealth>,
    one: Seq<char>,
    other: Seq<char>,
)
    requires
        failure_recorded(before, addr, now, after),
        before.dom().contains(one),
        before.dom().contains(other),
        one != addr,
        other != addr,
    ensures
        before.dom().len() < 64 || before.dom().contains(addr) ==> after.dom().contains(one)
            && after[one] == before[one],
        one != other && !after.dom().contains(one) ==> after.dom().contains(other) && after[other]
            == before[other],
        !after.dom().contains(one) ==> before[one].last_failure <= before[other].last_failure,
{
}

/// A peer fails fast exactly if it has a record of three failures in a row or
/// more, the last of them less than three seconds ago by a clock of nanoseconds.
pub proof fn peers_fail_fast_for_three_seconds(
    health: Map<Seq<char>, PeerHealth>,
    addr: Seq<char>,
    now: u64,
)
    ensures
        fast_fail(health, addr, now) <==> health.dom().contains(addr)
            && health[addr].consecutive_failures >= 3 && now < health[addr].last_failure
            + 3_000_000_000,
{
}

/// The first and the third failure in a row are warnings, all others are for
/// debugging; each is told with the address and the error.
pub proof fn failures_are_told(addr: Seq<char>, failures: u32, error: Seq<char>)
    ensures
        failure_level(failures) == NoticeLevel::Warn <==> failures == 1 || failures == 3,
        failure_level(failures) != NoticeLevel::Warn ==> failure_level(failures)
            == NoticeLevel::Debug,
        failures == 1 ==> failure_text(addr, failures, error) == "QUIC send to "@ + addr
            + " failed: "@ + error,
        failures == 3 ==> failure_text(addr, failures, error) == "QUIC sends to "@ + addr
            + " keep failing; muting attempts to one probe per "@ + text::decimal(3) + "s: "@
            + error,
        failures != 1 && failures != 3 ==> failure_text(addr, failures, error) == "QUIC send to "@
            + addr + " still failing: "@ + error,
        recovery_text(addr) == "QUIC sends to "@ + addr + " recovered"@,
{
}

} // verus!
