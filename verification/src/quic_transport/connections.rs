//! The cached connections to peers, and when a new one is dialled.
//!
//! A datagram never waits: an open connection takes it at once, and without one
//! the datagram is dropped while a connection is dialled in the background.
//! Input datagrams are latest-wins, so the next one follows within milliseconds.

use vstd::prelude::*;
use vstd::string::StringExecFns;
use crate::quic_transport::health;
use crate::quic_transport::health::HealthMap;
use crate::quic_transport::health::Notice;
use crate::table::Table;
use crate::table::TableKey;

verus! {

/// A peer as it was advertised.
#[derive(Clone, Debug)]
pub struct PeerEndpoint {
    pub addr: String,
    pub public_key: String,
    pub protocol_version: u16,
}

/// A resolved socket address; IP addresses as numbers, most significant byte
/// first.
#[derive(Clone, Copy, Debug, PartialEq, Eq, Structural)]
pub enum SocketAddress {
    V4 { ip: u32, port: u16 },
    V6 { ip: u128, port: u16, flow_info: u32, scope_id: u32 },
}

/// What a cached connection is found by: where the peer is, and the
/// certificate it has to show.
#[derive(Clone, Debug)]
pub struct PeerKey {
    pub addr: SocketAddress,
    pub public_key: String,
}

/// The identity of a `PeerKey`.
pub struct PeerId {
    pub addr: SocketAddress,
    pub public_key: Seq<char>,
}

impl View for PeerKey {
    type V = PeerId;

    open spec fn view(&self) -> PeerId {
        PeerId { addr: self.addr, public_key: self.public_key@ }
    }
}

impl TableKey for PeerKey {
    type Id = PeerId;

    open spec fn id(&self) -> PeerId {
        self@
    }

    fn same_key(&self, other: &Self) -> (same: bool) {
        self.addr == other.addr && self.public_key == other.public_key
    }
}

/// Whether `resolved` is what comes of the answer `lookup` of the resolver for
/// `addr`.
pub open spec fn resolves(
    addr: Seq<char>,
    lookup: Result<Vec<SocketAddress>, String>,
    resolved: Result<SocketAddress, Seq<char>>,
) -> bool {
    match (lookup, resolved) {
        (Ok(found), Ok(a)) => found@.len() > 0 && a == found@[0],
        (Ok(found), Err(e)) => found@.len() == 0 && e == "peer QUIC address "@ + addr
            + " did not resolve"@,
        (Err(error), Err(e)) => e == "invalid peer QUIC address "@ + addr + ": "@ + error@,
        (Err(_), Ok(_)) => false,
    }
}

/// The address that was resolved, or the text of the failure.
pub open spec fn resolution(resolved: Result<SocketAddress, String>) -> Result<
    SocketAddress,
    Seq<char>,
> {
    match resolved {
        Ok(a) => Ok(a),
        Err(e) => Err(e@),
    }
}

/// The address in a key, or the text of the failure.
pub open spec fn key_resolution(key: Result<PeerKey, String>) -> Result<SocketAddress, Seq<char>> {
    match key {
        Ok(k) => Ok(k.addr),
        Err(e) => Err(e@),
    }
}

/// Picks the address to use out of what the resolver gave for `addr`: the first
/// one.
pub fn resolve_peer_addr(addr: &str, lookup: Result<Vec<SocketAddress>, String>) -> (resolved:
    Result<SocketAddress, String>)
    ensures
        resolves(addr@, lookup, resolution(resolved)),
{
    match lookup {
        Ok(found) => {
            if found.len() > 0 {
                Ok(found[0])
            } else {
                Err("peer QUIC address ".to_owned().concat(addr).concat(" did not resolve"))
            }
        },
        Err(error) => Err(
            "invalid peer QUIC address ".to_owned().concat(addr).concat(": ").concat(
                error.as_str(),
            ),
        ),
    }
}

/// The key of a peer, given what the resolver gave for its address.
pub fn peer_key(peer: &PeerEndpoint, lookup: Result<Vec<SocketAddress>, String>) -> (key: Result<
    PeerKey,
    String,
>)
    ensures
        resolves(peer.addr@, lookup, key_resolution(key)),
        key matches Ok(k) ==> k.public_key@ == peer.public_key@,
{
    match resolve_peer_addr(peer.addr.as_str(), lookup) {
        Ok(addr) => Ok(PeerKey { addr, public_key: peer.public_key.clone() }),
        Err(error) => Err(error),
    }
}

/// A cached connection, or a mark that one is being dialled already, so that a
/// burst of mouse moves cannot start a storm of dials.
pub enum ConnectionSlot<C> {
    Connecting,
    Ready(C),
}

/// The cached connections by peer.
pub struct ConnectionMap<C> {
    table: Table<PeerKey, ConnectionSlot<C>>,
}

impl<C> View for ConnectionMap<C> {
    type V = Map<PeerId, ConnectionSlot<C>>;

    closed spec fn view(&self) -> Map<PeerId, ConnectionSlot<C>> {
        self.table.map()
    }
}

/// What `connections` holds for the peer `id`.
pub open spec fn slot_of<C>(connections: Map<PeerId, ConnectionSlot<C>>, id: PeerId) -> Option<
    ConnectionSlot<C>,
> {
    if connections.dom().contains(id) {
        Some(connections[id])
    } else {
        None
    }
}

impl<C> ConnectionMap<C> {
    /// At most one slot per peer.
    pub closed spec fn wf(&self) -> bool {
        self.table.wf()
    }

    /// No connections.
    pub fn new() -> (connections: Self)
        ensures
            connections.wf(),
            connections@ == Map::<PeerId, ConnectionSlot<C>>::empty(),
    {
        ConnectionMap { table: Table::new() }
    }

    /// The connection to the peer of `key`, if one has been established.
    pub fn ready_connection(&self, key: &PeerKey) -> (connection: Option<&C>)
        requires
            self.wf(),
        ensures
            match connection {
                Some(c) => slot_of(self@, key@) == Some(ConnectionSlot::Ready(*c)),
                None => slot_of(self@, key@) == None::<ConnectionSlot<C>> || slot_of(self@, key@)
                    == Some(ConnectionSlot::<C>::Connecting),
            },
    {
        match self.table.position(key) {
            Some(at) => match &self.table.entries[at].1 {
                ConnectionSlot::Ready(connection) => Some(connection),
                ConnectionSlot::Connecting => None,
            },
            None => None,
        }
    }
}

/// What becomes of a datagram.
#[derive(Clone, Copy, Debug, PartialEq, Eq, Structural)]
pub enum DatagramStep {
    /// It goes out on the established connection.
    Send,
    /// It is dropped.
    Drop,
    /// It is dropped, and a connection is dialled in the background.
    Dial,
}

/// What becomes of a datagram for a peer whose slot is `slot`. `open` says that
/// an established connection has not been closed, `refused` that the peer is
/// failing fast.
pub open spec fn datagram_step<C>(
    slot: Option<ConnectionSlot<C>>,
    open: bool,
    refused: bool,
) -> DatagramStep {
    match slot {
        Some(ConnectionSlot::Ready(_)) if open => DatagramStep::Send,
        Some(ConnectionSlot::Connecting) => DatagramStep::Drop,
        _ => if refused {
            DatagramStep::Drop
        } else {
            DatagramStep::Dial
        },
    }
}

/// The connections once a datagram for the peer `id` has been handled: an open
/// or pending one stays, a closed one is forgotten, a dialled one is marked.
pub open spec fn after_datagram<C>(
    connections: Map<PeerId, ConnectionSlot<C>>,
    id: PeerId,
    open: bool,
    refused: bool,
) -> Map<PeerId, ConnectionSlot<C>> {
    match slot_of(connections, id) {
        Some(ConnectionSlot::Ready(_)) if open => connections,
        Some(ConnectionSlot::Connecting) => connections,
        _ => if refused {
            connections.remove(id)
        } else {
            connections.insert(id, ConnectionSlot::Connecting)
        },
    }
}

/// What becomes of a datagram for a peer of this key: one without a key gets
/// nothing.
pub open spec fn datagram_decision<C>(
    connections: Map<PeerId, ConnectionSlot<C>>,
    key: Result<PeerKey, String>,
    open: bool,
    refused: bool,
) -> DatagramStep {
    match key {
        Ok(k) => datagram_step(slot_of(connections, k@), open, refused),
        Err(_) => DatagramStep::Drop,
    }
}

/// The connections once a datagram for a peer of this key has been handled.
pub open spec fn after_decision<C>(
    connections: Map<PeerId, ConnectionSlot<C>>,
    key: Result<PeerKey, String>,
    open: bool,
    refused: bool,
) -> Map<PeerId, ConnectionSlot<C>> {
    match key {
        Ok(k) => after_datagram(connections, k@, open, refused),
        Err(_) => connections,
    }
}

/// The failures on record, and what is logged, once a datagram for a peer of this
/// key has been handled: only that there is no key is a failure.
pub open spec fn key_recorded(
    before: Map<Seq<char>, health::PeerHealth>,
    addr: Seq<char>,
    key: Result<PeerKey, String>,
    now: u64,
    after: Map<Seq<char>, health::PeerHealth>,
    notice: Option<Notice>,
) -> bool {
    match key {
        Ok(_) => after == before && notice is None,
        Err(error) => health::failure_recorded(before, addr, now, after) && outcome_notice(
            before,
            addr,
            Some(error@),
            notice,
        ),
    }
}

/// Decides on a datagram for `peer` at time `now`, keeps the connections up to
/// date and says what to log. `key` is the key of the peer, or why it has none,
/// which counts as a failure of the peer. `open` says whether the established
/// connection, if there is one, has not been closed. A peer that fails fast is
/// not even dialled, so an unreachable machine costs nothing between probes.
pub fn send_datagram_nonblocking<C>(
    connections: &mut ConnectionMap<C>,
    health: &mut HealthMap,
    peer: &PeerEndpoint,
    key: &Result<PeerKey, String>,
    open: bool,
    now: u64,
) -> (result: (DatagramStep, Option<Notice>))
    requires
        old(connections).wf(),
        old(health).wf(),
    ensures
        final(connections).wf(),
        final(health).wf(),
        *key is Err ==> final(health)@.dom().contains(peer.addr@),
        *key is Err ==> final(health)@[peer.addr@].last_failure == now,
        result.0 == datagram_decision(
            old(connections)@,
            *key,
            open,
            health::fast_fail(old(health)@, peer.addr@, now),
        ),
        final(connections)@ == after_decision(
            old(connections)@,
            *key,
            open,
            health::fast_fail(old(health)@, peer.addr@, now),
        ),
        key_recorded(old(health)@, peer.addr@, *key, now, final(health)@, result.1),
{
    let key: &PeerKey = match key {
        Ok(key) => key,
        Err(error) => {
            let notice = health::record_peer_failure(
                health,
                peer.addr.as_str(),
                error.as_str(),
                now,
            );
            return (DatagramStep::Drop, Some(notice));
        },
    };
    match connections.table.position(key) {
        Some(at) => {
            match &connections.table.entries[at].1 {
                ConnectionSlot::Ready(_) => {
                    if open {
                        return (DatagramStep::Send, None);
                    }
                },
                ConnectionSlot::Connecting => {
                    return (DatagramStep::Drop, None);
                },
            }
        },
        None => {},
    }
    if health::peer_fast_fail_active(health, peer.addr.as_str(), now) {
        let _ = connections.table.remove(key);
        (DatagramStep::Drop, None)
    } else {
        let mark = PeerKey { addr: key.addr, public_key: key.public_key.clone() };
        connections.table.insert(mark, ConnectionSlot::Connecting);
        (DatagramStep::Dial, None)
    }
}

/// The connections after a datagram to the peer `id` was sent, or refused by the
/// connection.
pub open spec fn after_sent<C>(
    connections: Map<PeerId, ConnectionSlot<C>>,
    id: PeerId,
    ok: bool,
) -> Map<PeerId, ConnectionSlot<C>> {
    if ok {
        connections
    } else {
        connections.remove(id)
    }
}

/// The connections after a background dial of the peer `id`.
pub open spec fn after_dial<C>(
    connections: Map<PeerId, ConnectionSlot<C>>,
    id: PeerId,
    outcome: Result<C, String>,
) -> Map<PeerId, ConnectionSlot<C>> {
    match outcome {
        Ok(c) => connections.insert(id, ConnectionSlot::Ready(c)),
        Err(_) => connections.remove(id),
    }
}

/// The connections after the dial of a stream to the peer `id`.
pub open spec fn after_stream_dial<C>(
    connections: Map<PeerId, ConnectionSlot<C>>,
    id: PeerId,
    outcome: Result<C, String>,
) -> Map<PeerId, ConnectionSlot<C>> {
    match outcome {
        Ok(c) => connections.insert(id, ConnectionSlot::Ready(c)),
        Err(_) => connections,
    }
}

/// The failures on record after a send to `addr` went well or not.
pub open spec fn outcome_recorded(
    before: Map<Seq<char>, health::PeerHealth>,
    addr: Seq<char>,
    ok: bool,
    now: u64,
    after: Map<Seq<char>, health::PeerHealth>,
) -> bool {
    if ok {
        after == before.remove(addr)
    } else {
        health::failure_recorded(before, addr, now, after)
    }
}

/// What is logged after a send to `addr` went well, or failed with `error`.
pub open spec fn outcome_notice(
    before: Map<Seq<char>, health::PeerHealth>,
    addr: Seq<char>,
    error: Option<Seq<char>>,
    notice: Option<Notice>,
) -> bool {
    match error {
        None => if before.dom().contains(addr) && before[addr].consecutive_failures
            >= health::DATAGRAM_FAIL_THRESHOLD {
            notice matches Some(n) && n.level == health::NoticeLevel::Info && n.text@
                == health::recovery_text(addr)
        } else {
            notice is None
        },
        Some(e) => {
            let failures = health::failures_after(before, addr);
            notice matches Some(n) && n.level == health::failure_level(failures) && n.text@
                == health::failure_text(addr, failures, e)
        },
    }
}

/// The text of a failure, if there is one.
pub open spec fn failure_of<T>(outcome: Result<T, String>) -> Option<Seq<char>> {
    match outcome {
        Ok(_) => None,
        Err(e) => Some(e@),
    }
}

/// Takes note of how a datagram went out on the established connection: a
/// connection that refuses one is forgotten.
pub fn datagram_sent<C>(
    connections: &mut ConnectionMap<C>,
    health: &mut HealthMap,
    peer: &PeerEndpoint,
    key: &PeerKey,
    outcome: Result<(), String>,
    now: u64,
) -> (notice: Option<Notice>)
    requires
        old(connections).wf(),
        old(health).wf(),
    ensures
        final(connections).wf(),
        final(health).wf(),
        final(connections)@ == after_sent(old(connections)@, key@, outcome is Ok),
        outcome is Ok ==> !final(health)@.dom().contains(peer.addr@),
        outcome is Ok && old(health)@.dom().contains(peer.addr@) && old(health)@[peer.addr@].consecutive_failures
            >= 3 ==> (notice matches Some(n) && n.level == health::NoticeLevel::Info && n.text@
            == "QUIC sends to "@ + peer.addr@ + " recovered"@),
        outcome is Err ==> final(health)@.dom().contains(peer.addr@),
        outcome is Err ==> final(health)@[peer.addr@].last_failure == now,
        outcome is Err ==> final(health)@[peer.addr@].consecutive_failures == (if old(
            health,
        )@.dom().contains(peer.addr@) && old(health)@[peer.addr@].consecutive_failures < u32::MAX {
            old(health)@[peer.addr@].consecutive_failures + 1
        } else if old(health)@.dom().contains(peer.addr@) {
            u32::MAX as int
        } else {
            1
        }),
        outcome_recorded(old(health)@, peer.addr@, outcome is Ok, now, final(health)@),
        outcome_notice(old(health)@, peer.addr@, failure_of(outcome), notice),
{
    match outcome {
        Ok(_) => health::record_peer_success(health, peer.addr.as_str()),
        Err(error) => {
            let _ = connections.table.remove(key);
            Some(health::record_peer_failure(health, peer.addr.as_str(), error.as_str(), now))
        },
    }
}

/// Takes note of how a background dial ended: the connection is kept, or the
/// mark is taken away so that a later datagram can dial again.
pub fn dial_finished<C>(
    connections: &mut ConnectionMap<C>,
    health: &mut HealthMap,
    peer: &PeerEndpoint,
    key: PeerKey,
    outcome: Result<C, String>,
    now: u64,
) -> (notice: Option<Notice>)
    requires
        old(connections).wf(),
        old(health).wf(),
    ensures
        final(connections).wf(),
        final(health).wf(),
        final(connections)@ == after_dial(old(connections)@, key@, outcome),
        outcome is Ok ==> !final(health)@.dom().contains(peer.addr@),
        outcome is Ok && old(health)@.dom().contains(peer.addr@) && old(health)@[peer.addr@].consecutive_failures
            >= 3 ==> (notice matches Some(n) && n.level == health::NoticeLevel::Info && n.text@
            == "QUIC sends to "@ + peer.addr@ + " recovered"@),
        outcome is Err ==> final(health)@.dom().contains(peer.addr@),
        outcome is Err ==> final(health)@[peer.addr@].last_failure == now,
        outcome is Err ==> final(health)@[peer.addr@].consecutive_failures == (if old(
            health,
        )@.dom().contains(peer.addr@) && old(health)@[peer.addr@].consecutive_failures < u32::MAX {
            old(health)@[peer.addr@].consecutive_failures + 1
        } else if old(health)@.dom().contains(peer.addr@) {
            u32::MAX as int
        } else {
            1
        }),
        outcome_recorded(old(health)@, peer.addr@, outcome is Ok, now, final(health)@),
        outcome_notice(old(health)@, peer.addr@, failure_of(outcome), notice),
{
    match outcome {
        Ok(connection) => {
            connections.table.insert(key, ConnectionSlot::Ready(connection));
            health::record_peer_success(health, peer.addr.as_str())
        },
        Err(error) => {
            let _ = connections.table.remove(&key);
            Some(health::record_peer_failure(health, peer.addr.as_str(), error.as_str(), now))
        },
    }
}

/// What a stream does first.
#[derive(Clone, Debug)]
pub enum StreamStep {
    /// It fails: the peer has no key.
    Fail { error: String },
    /// It goes out on the established connection.
    Reuse,
    /// It dials a connection of its own.
    Dial,
}

/// Whether a stream to a peer whose slot is `slot` goes out on the established
/// connection; `open` says that the connection has not been closed.
pub open spec fn stream_reuses<C>(slot: Option<ConnectionSlot<C>>, open: bool) -> bool {
    open && slot matches Some(ConnectionSlot::Ready(_))
}

/// Whether a stream to a peer begins with `step`; `key` is the key of the peer, or
/// why it has none.
pub open spec fn stream_begins<C>(
    connections: Map<PeerId, ConnectionSlot<C>>,
    key: Result<PeerKey, String>,
    open: bool,
    step: StreamStep,
) -> bool {
    match (key, step) {
        (Err(reason), StreamStep::Fail { error }) => error@ == reason@,
        (Ok(k), StreamStep::Reuse) => stream_reuses(slot_of(connections, k@), open),
        (Ok(k), StreamStep::Dial) => !stream_reuses(slot_of(connections, k@), open),
        _ => false,
    }
}

/// Decides how a stream to a peer begins. `key` is the key of the peer, or why
/// it has none; `open` says whether the established connection, if there is one,
/// has not been closed. A dial that is under way for datagrams is not waited
/// for: streams are rare, and at worst one connection too many is made.
pub fn send_stream_task<C>(
    connections: &ConnectionMap<C>,
    key: &Result<PeerKey, String>,
    open: bool,
) -> (step: StreamStep)
    requires
        connections.wf(),
    ensures
        stream_begins(connections@, *key, open, step),
{
    match key {
        Ok(key) => {
            if open && connections.ready_connection(key).is_some() {
                StreamStep::Reuse
            } else {
                StreamStep::Dial
            }
        },
        Err(error) => StreamStep::Fail { error: error.clone() },
    }
}

/// Takes note of how the dial of a stream ended. A connection is kept for
/// later; a failure leaves the connections as they are and is the outcome of
/// the stream.
pub fn stream_dial_finished<C>(
    connections: &mut ConnectionMap<C>,
    health: &mut HealthMap,
    peer: &PeerEndpoint,
    key: &PeerKey,
    outcome: Result<C, String>,
    now: u64,
) -> (result: (Result<(), String>, Option<Notice>))
    requires
        old(connections).wf(),
        old(health).wf(),
    ensures
        final(connections).wf(),
        final(health).wf(),
        final(connections)@ == after_stream_dial(old(connections)@, key@, outcome),
        outcome is Ok ==> !final(health)@.dom().contains(peer.addr@),
        outcome is Ok && old(health)@.dom().contains(peer.addr@) && old(health)@[peer.addr@].consecutive_failures
            >= 3 ==> (result.1 matches Some(n) && n.level == health::NoticeLevel::Info && n.text@
            == "QUIC sends to "@ + peer.addr@ + " recovered"@),
        outcome is Err ==> final(health)@.dom().contains(peer.addr@),
        outcome is Err ==> final(health)@[peer.addr@].last_failure == now,
        outcome is Err ==> final(health)@[peer.addr@].consecutive_failures == (if old(
            health,
        )@.dom().contains(peer.addr@) && old(health)@[peer.addr@].consecutive_failures < u32::MAX {
            old(health)@[peer.addr@].consecutive_failures + 1
        } else if old(health)@.dom().contains(peer.addr@) {
            u32::MAX as int
        } else {
            1
        }),
        outcome_recorded(old(health)@, peer.addr@, outcome is Ok, now, final(health)@),
        outcome_notice(old(health)@, peer.addr@, failure_of(outcome), result.1),
        result.0 is Ok == outcome is Ok,
        failure_of(result.0) == failure_of(outcome),
{
    match outcome {
        Ok(connection) => {
            let mark = PeerKey { addr: key.addr, public_key: key.public_key.clone() };
            connections.table.insert(mark, ConnectionSlot::Ready(connection));
            let notice = health::record_peer_success(health, peer.addr.as_str());
            (Ok(()), notice)
        },
        Err(error) => {
            let notice = health::record_peer_failure(
                health,
                peer.addr.as_str(),
                error.as_str(),
                now,
            );
            (Err(error), Some(notice))
        },
    }
}

/// Takes note of how a stream ended: after a failure the connection is
/// forgotten.
pub fn stream_finished<C>(
    connections: &mut ConnectionMap<C>,
    key: &PeerKey,
    outcome: &Result<(), String>,
)
    requires
        old(connections).wf(),
    ensures
        final(connections).wf(),
        final(connections)@ == after_sent(old(connections)@, key@, *outcome is Ok),
{
    if outcome.is_err() {
        let _ = connections.table.remove(key);
    }
}

/// While a dial is under way no second one is started for the same peer:
/// whatever the caller sees of the connection and whatever the health of the
/// peer, each further datagram is dropped and the mark stays.
pub proof fn no_second_dial<C>(
    connections: Map<PeerId, ConnectionSlot<C>>,
    id: PeerId,
    open: bool,
    later_open: bool,
    later_refused: bool,
)
    requires
        datagram_step(slot_of(connections, id), open, false) == DatagramStep::Dial,
    ensures
        ({
            let dialled = after_datagram(connections, id, open, false);
            &&& datagram_step(slot_of(dialled, id), later_open, later_refused)
                == DatagramStep::Drop
            &&& after_datagram(dialled, id, later_open, later_refused) == dialled
        }),
{
}

/// A peer that fails fast is never dialled.
pub proof fn refused_peer_is_not_dialled<C>(slot: Option<ConnectionSlot<C>>, open: bool)
    ensures
        datagram_step(slot, open, true) != DatagramStep::Dial,
{
}

/// A datagram is sent only on an established connection that is still open, and
/// then the cached connections stay as they are.
pub proof fn sent_only_when_open<C>(
    connections: Map<PeerId, ConnectionSlot<C>>,
    id: PeerId,
    open: bool,
    refused: bool,
)
    requires
        datagram_step(slot_of(connections, id), open, refused) == DatagramStep::Send,
    ensures
        open,
        slot_of(connections, id) matches Some(ConnectionSlot::Ready(_)),
        after_datagram(connections, id, open, refused) == connections,
{
}

/// A datagram for one peer leaves the connections to every other peer alone.
pub proof fn other_connections_stay<C>(
    connections: Map<PeerId, ConnectionSlot<C>>,
    id: PeerId,
    other: PeerId,
    open: bool,
    refused: bool,
)
    requires
        other != id,
    ensures
        slot_of(after_datagram(connections, id, open, refused), other) == slot_of(
            connections,
            other,
        ),
{
}

/// A dial that succeeds makes the next datagram go out; one that fails lets the
/// next datagram dial again, unless the peer now fails fast.
pub proof fn dial_outcome_decides_the_next_datagram<C>(
    connections: Map<PeerId, ConnectionSlot<C>>,
    id: PeerId,
    connection: C,
    open: bool,
    refused: bool,
)
    ensures
        datagram_step(
            slot_of(connections.insert(id, ConnectionSlot::Ready(connection)), id),
            true,
            refused,
        ) == DatagramStep::Send,
        datagram_step(slot_of(connections.remove(id), id), open, false) == DatagramStep::Dial,
        datagram_step(slot_of(connections.remove(id), id), open, true) == DatagramStep::Drop,
{
}

/// Where a datagram is sent, a stream reuses the connection, and nowhere else:
/// both go by the same established connection.
pub proof fn streams_share_the_connection<C>(
    slot: Option<ConnectionSlot<C>>,
    open: bool,
    refused: bool,
)
    ensures
        stream_reuses(slot, open) <==> datagram_step(slot, open, refused) == DatagramStep::Send,
{
}

/// The connection of a stream that failed is not used again: the next stream
/// dials, and so does the next datagram, unless the peer fails fast.
pub proof fn failed_stream_drops_its_connection<C>(
    connections: Map<PeerId, ConnectionSlot<C>>,
    id: PeerId,
    open: bool,
)
    ensures
        !stream_reuses(slot_of(connections.remove(id), id), open),
        datagram_step(slot_of(connections.remove(id), id), open, false) == DatagramStep::Dial,
{
}

/// After a send that went well the peer has no failure record: it does not fail
/// fast, and its next failure counts as the first in a row. If it had reached the
/// threshold, it is reported as recovered, and else nothing is said. No other
/// peer is touched.
pub proof fn success_forgets_the_failures(
    before: Map<Seq<char>, health::PeerHealth>,
    addr: Seq<char>,
    now: u64,
    after: Map<Seq<char>, health::PeerHealth>,
    notice: Option<Notice>,
    later: u64,
    again: Map<Seq<char>, health::PeerHealth>,
    other: Seq<char>,
)
    requires
        outcome_recorded(before, addr, true, now, after),
        outcome_notice(before, addr, None, notice),
    ensures
        !after.dom().contains(addr),
        !health::fast_fail(after, addr, later),
        health::failure_recorded(after, addr, later, again) ==> again[addr].consecutive_failures
            == 1 && !health::fast_fail(again, addr, later),
        other != addr ==> after.dom().contains(other) == before.dom().contains(other)
            && after[other] == before[other],
        before.dom().contains(addr) && before[addr].consecutive_failures >= 3 ==> (notice matches
            Some(n) && n.level == health::NoticeLevel::Info && n.text@ == "QUIC sends to "@ + addr
            + " recovered"@),
        !(before.dom().contains(addr) && before[addr].consecutive_failures >= 3)
            ==> notice is None,
{
}

/// A send that failed is counted as a failure of the peer, and told as the
/// failure that it is in the row.
pub proof fn failure_is_counted_and_told(
    before: Map<Seq<char>, health::PeerHealth>,
    addr: Seq<char>,
    now: u64,
    after: Map<Seq<char>, health::PeerHealth>,
    error: Seq<char>,
    notice: Option<Notice>,
)
    requires
        outcome_recorded(before, addr, false, now, after),
        outcome_notice(before, addr, Some(error), notice),
    ensures
        health::failure_recorded(before, addr, now, after),
        after.dom().contains(addr),
        after[addr].last_failure == now,
        notice matches Some(n) && n.level == health::failure_level(
            after[addr].consecutive_failures,
        ) && n.text@ == health::failure_text(addr, after[addr].consecutive_failures, error),
{
}

/// An established connection that is open takes the datagram, even of a peer that
/// fails fast. While a connection is dialled, datagrams are dropped. Without an
/// open connection and without a dial, one is dialled, unless the peer fails
/// fast: then the datagram is dropped, and a closed connection is forgotten.
pub proof fn datagrams_are_sent_dropped_or_dialled<C>(
    connections: Map<PeerId, ConnectionSlot<C>>,
    id: PeerId,
    open: bool,
    refused: bool,
)
    ensures
        ({
            let slot = slot_of(connections, id);
            let step = datagram_step(slot, open, refused);
            let after = after_datagram(connections, id, open, refused);
            let established = connections.dom().contains(id) && connections[id] is Ready;
            let dialling = connections.dom().contains(id) && connections[id] is Connecting;
            &&& established && open ==> step == DatagramStep::Send && after == connections
            &&& dialling ==> step == DatagramStep::Drop && after == connections
            &&& !dialling && !(established && open) && refused ==> step == DatagramStep::Drop
                && !after.dom().contains(id)
            &&& !dialling && !(established && open) && !refused ==> step == DatagramStep::Dial
                && after.dom().contains(id) && after[id] is Connecting
            &&& forall|other: PeerId|
                other != id ==> (#[trigger] after.dom().contains(other)) == connections.dom().contains(
                    other,
                ) && after[other] == connections[other]
            &&& stream_reuses(slot, open) <==> established && open
        }),
{
}

/// A connection that was dialled is the one that is cached for the peer, whatever
/// was there before. A connection that refused a datagram, or whose stream
/// failed, is forgotten, and so is the mark of a dial that failed; the failed
/// dial of a stream leaves what is there. Other peers are not touched.
pub proof fn outcomes_decide_what_is_cached<C>(
    connections: Map<PeerId, ConnectionSlot<C>>,
    id: PeerId,
    connection: C,
    error: String,
    other: PeerId,
)
    ensures
        slot_of(after_dial(connections, id, Ok(connection)), id) == Some(
            ConnectionSlot::Ready(connection),
        ),
        slot_of(after_stream_dial(connections, id, Ok(connection)), id) == Some(
            ConnectionSlot::Ready(connection),
        ),
        slot_of(after_dial(connections, id, Err::<C, String>(error)), id) is None,
        slot_of(after_sent(connections, id, false), id) is None,
        after_sent(connections, id, true) == connections,
        after_stream_dial(connections, id, Err::<C, String>(error)) == connections,
        other != id ==> {
            &&& slot_of(after_dial(connections, id, Ok(connection)), other) == slot_of(
                connections,
                other,
            )
            &&& slot_of(after_stream_dial(connections, id, Ok(connection)), other) == slot_of(
                connections,
                other,
            )
            &&& slot_of(after_dial(connections, id, Err::<C, String>(error)), other) == slot_of(
                connections,
                other,
            )
            &&& slot_of(after_sent(connections, id, false), other) == slot_of(connections, other)
        },
{
}

/// Peers are told apart by where they are and by the certificate they have to
/// show, and by nothing else.
pub proof fn peers_are_told_apart(a: PeerKey, b: PeerKey)
    ensures
        a@ == b@ <==> a.addr == b.addr && a.public_key@ == b.public_key@,
        a.id() == a@,
{
    if a@ == b@ {
        assert(a@.addr == b@.addr && a@.public_key == b@.public_key);
    }
}

/// Of the addresses that were found the first one counts, whatever comes behind
/// it; where none was found, or the search failed, it is said of which name.
pub proof fn the_first_address_counts(
    addr: Seq<char>,
    found: Vec<SocketAddress>,
    error: String,
    resolved: Result<SocketAddress, Seq<char>>,
)
    ensures
        resolves(addr, Ok(found), resolved) && found@.len() > 0 ==> (resolved matches Ok(a) && a
            == found@.first()),
        resolves(addr, Ok(found), resolved) && found@.len() == 0 ==> (resolved matches Err(e) && e
            == "peer QUIC address "@ + addr + " did not resolve"@),
        resolves(addr, Err(error), resolved) ==> (resolved matches Err(e) && e
            == "invalid peer QUIC address "@ + addr + ": "@ + error@),
{
}

/// A stream to a peer without a key fails with the reason. Any other goes out on
/// the connection to that peer if there is one that is established and open, and
/// dials if not.
pub proof fn streams_begin_on_an_open_connection<C>(
    connections: Map<PeerId, ConnectionSlot<C>>,
    key: Result<PeerKey, String>,
    open: bool,
    step: StreamStep,
)
    requires
        stream_begins(connections, key, open, step),
    ensures
        step is Fail <==> key is Err,
        key is Err ==> step->error@ == key->Err_0@,
        step is Reuse <==> (key matches Ok(k) && open && connections.dom().contains(k@)
            && connections[k@] is Ready),
{
}

/// The text of a failure is that of the error, and a success has none.
pub proof fn failures_have_a_text<T>(value: T, error: String)
    ensures
        failure_of(Ok::<T, String>(value)) is None,
        failure_of(Err::<T, String>(error)) == Some(error@),
{
}

/// A datagram for a peer whose key is known goes by the slot of that key, and
/// leaves the health of every peer as it is. One for a peer without a key is
/// dropped, leaves the connections as they are, and counts as a failure of the
/// peer with the reason why there is none.
pub proof fn datagrams_without_a_key_are_failures<C>(
    connections: Map<PeerId, ConnectionSlot<C>>,
    key: PeerKey,
    reason: String,
    open: bool,
    refused: bool,
    before: Map<Seq<char>, health::PeerHealth>,
    addr: Seq<char>,
    now: u64,
    after: Map<Seq<char>, health::PeerHealth>,
    notice: Option<Notice>,
)
    ensures
        datagram_decision(connections, Ok(key), open, refused) == datagram_step(
            slot_of(connections, key@),
            open,
            refused,
        ),
        after_decision(connections, Ok(key), open, refused) == after_datagram(
            connections,
            key@,
            open,
            refused,
        ),
        datagram_decision(connections, Err(reason), open, refused) == DatagramStep::Drop,
        after_decision(connections, Err(reason), open, refused) == connections,
        key_recorded(before, addr, Ok(key), now, after, notice) ==> after == before
            && notice is None,
        key_recorded(before, addr, Err(reason), now, after, notice) ==> {
            &&& after.dom().contains(addr)
            &&& after[addr].last_failure == now
            &&& after[addr].consecutive_failures == (if !before.dom().contains(addr) {
                1
            } else if before[addr].consecutive_failures < u32::MAX {
                before[addr].consecutive_failures + 1
            } else {
                u32::MAX as int
            })
            &&& notice is Some && notice->0.text@ == health::failure_text(
                addr,
                after[addr].consecutive_failures,
                reason@,
            ) && notice->0.level == health::failure_level(after[addr].consecutive_failures)
        },
{
}

/// What was resolved is the address, alone or in a key, and what was not is the
/// text of the error.
pub proof fn resolutions_say_the_address(addr: SocketAddress, key: PeerKey, error: String)
    ensures
        resolution(Ok(addr)) == Ok::<SocketAddress, Seq<char>>(addr),
        resolution(Err(error)) == Err::<SocketAddress, Seq<char>>(error@),
        key_resolution(Ok(key)) == Ok::<SocketAddress, Seq<char>>(key.addr),
        key_resolution(Err(error)) == Err::<SocketAddress, Seq<char>>(error@),
{
}

} // verus!
