//! The caller's side of the transport, and the loop that serves it.

use vstd::prelude::*;
use vstd::string::StringExecFns;
use crate::quic_transport::connections::PeerEndpoint;
use crate::quic_transport::health;
use crate::quic_transport::health::HealthMap;
use crate::quic_transport::identity;
use crate::quic_transport::identity::LoadedIdentity;
use crate::quic_transport::identity::TransportIdentity;
use crate::quic_transport::streams;
use crate::quic_transport::streams::StreamSlot;
use crate::quic_transport::streams::StreamSlots;
use crate::quic_transport::streams::MAX_CONCURRENT_STREAMS;
use crate::text;

verus! {

/// The largest datagram that is taken.
pub const MAX_DATAGRAM_BYTES: usize = 16_384;

/// The largest stream payload that is taken: a clipboard image of 32 MiB comes
/// to about 43 MiB on the wire.
pub const MAX_STREAM_BYTES: usize = 50_331_648;

/// How many threads drive the transport.
pub const QUIC_WORKER_THREADS: usize = 2;

/// How long a stream may take before its caller stops waiting, in seconds.
pub const STREAM_WAIT_SECS: u64 = 5;

/// How long the transport may take to come up, in seconds.
pub const READY_WAIT_SECS: u64 = 3;

/// What the loop of the transport is asked to do.
pub enum TransportCommand {
    SendDatagram { peer: PeerEndpoint, payload: Vec<u8> },
    SendStream { peer: PeerEndpoint, payload: Vec<u8> },
    Shutdown,
}

/// A transport that came up.
#[derive(Clone, Debug)]
pub struct ReadyTransport {
    pub port: u16,
    pub public_key: String,
}

/// How far a transport got in coming up.
pub enum BringUp {
    /// Its threads could not be started.
    RuntimeFailed(String),
    /// No port could be bound.
    BindFailed(String),
    /// The port that was bound could not be read.
    PortUnknown(String),
    /// It listens, and advertises a public key.
    Listening { port: u16, public_key: String },
}

/// Whether `progress` is that of a transport that listens on `port` and
/// advertises the public key of `identity`.
pub open spec fn listens(progress: BringUp, identity: TransportIdentity, port: u16) -> bool {
    progress matches BringUp::Listening { port: p, public_key } && p == port && public_key@
        == identity.public_key@
}

/// A transport that listens on `port`: it advertises the public key of this
/// machine's identity.
pub fn listening(identity: &TransportIdentity, port: u16) -> (progress: BringUp)
    ensures
        listens(progress, *identity, port),
{
    BringUp::Listening { port, public_key: identity.public_key.clone() }
}

/// Whether `ready` is what a transport that came as far as `progress` reports.
pub open spec fn announces(progress: BringUp, ready: Result<ReadyTransport, String>) -> bool {
    match (progress, ready) {
        (BringUp::RuntimeFailed(error), Err(e)) => e@ == "failed to start QUIC runtime: "@ + error@,
        (BringUp::BindFailed(error), Err(e)) => e@ == error@,
        (BringUp::PortUnknown(error), Err(e)) => e@ == "failed to read QUIC port: "@ + error@,
        (BringUp::Listening { port, public_key }, Ok(r)) => r.port == port && r.public_key@
            == public_key@,
        _ => false,
    }
}

/// What a transport that comes up reports: the port it was given and the public
/// key it advertises, or why it did not come up.
pub fn announce_ready(progress: BringUp) -> (ready: Result<ReadyTransport, String>)
    ensures
        announces(progress, ready),
{
    match progress {
        BringUp::RuntimeFailed(error) => Err(
            "failed to start QUIC runtime: ".to_owned().concat(error.as_str()),
        ),
        BringUp::BindFailed(error) => Err(error),
        BringUp::PortUnknown(error) => Err(
            "failed to read QUIC port: ".to_owned().concat(error.as_str()),
        ),
        BringUp::Listening { port, public_key } => Ok(ReadyTransport { port, public_key }),
    }
}

/// The caller's handle on a running transport.
#[derive(Clone, Debug)]
pub struct TransportHandle {
    port: u16,
    public_key: String,
}

/// What a running transport is known by.
pub struct TransportAddress {
    pub port: u16,
    pub public_key: Seq<char>,
}

impl View for TransportHandle {
    type V = TransportAddress;

    closed spec fn view(&self) -> TransportAddress {
        TransportAddress { port: self.port, public_key: self.public_key@ }
    }
}

/// How far the start of a transport got.
pub enum StartProgress {
    /// This machine has no identity.
    IdentityFailed(String),
    /// The thread of the transport could not be started.
    SpawnFailed(String),
    /// The transport reported nothing in time.
    NoReport,
    /// The transport reported.
    Reported(Result<ReadyTransport, String>),
}

/// Whether `handle` is what comes of a start that got as far as `progress`.
pub open spec fn starts(progress: StartProgress, handle: Result<TransportHandle, String>) -> bool {
    match (progress, handle) {
        (StartProgress::IdentityFailed(error), Err(e)) => e@ == error@,
        (StartProgress::SpawnFailed(error), Err(e)) => e@
            == "failed to spawn QUIC transport thread: "@ + error@,
        (StartProgress::NoReport, Err(e)) => e@ == "QUIC transport did not become ready"@,
        (StartProgress::Reported(Err(error)), Err(e)) => e@ == error@,
        (StartProgress::Reported(Ok(r)), Ok(h)) => h@.port == r.port && h@.public_key
            == r.public_key@,
        _ => false,
    }
}

/// The handle on a transport that was started, or why there is none.
pub fn start(progress: StartProgress) -> (handle: Result<TransportHandle, String>)
    ensures
        starts(progress, handle),
{
    match progress {
        StartProgress::IdentityFailed(error) => Err(error),
        StartProgress::SpawnFailed(error) => Err(
            "failed to spawn QUIC transport thread: ".to_owned().concat(error.as_str()),
        ),
        StartProgress::NoReport => Err("QUIC transport did not become ready".to_owned()),
        StartProgress::Reported(Err(error)) => Err(error),
        StartProgress::Reported(Ok(r)) => Ok(
            TransportHandle { port: r.port, public_key: r.public_key },
        ),
    }
}

/// What is said of a peer that fails fast.
pub open spec fn unreachable_text(addr: Seq<char>) -> Seq<char> {
    "QUIC peer "@ + addr + " unreachable ("@ + text::decimal(health::DATAGRAM_FAIL_THRESHOLD as nat)
        + "+ consecutive failures)"@
}

fn unreachable_message(addr: &str) -> (message: String)
    ensures
        message@ == unreachable_text(addr@),
{
    let threshold = text::decimal_text(health::DATAGRAM_FAIL_THRESHOLD as u64);
    "QUIC peer ".to_owned().concat(addr).concat(" unreachable (").concat(
        threshold.as_str(),
    ).concat("+ consecutive failures)")
}

/// Why a payload of `len` bytes is not taken on for the peer at `addr`, if it is
/// not: it is larger than `limit`, or the peer fails fast. `what` names the
/// kind of payload.
pub open spec fn refusal(
    what: Seq<char>,
    limit: nat,
    len: nat,
    health: Map<Seq<char>, health::PeerHealth>,
    addr: Seq<char>,
    now: u64,
) -> Option<Seq<char>> {
    if len > limit {
        Some("QUIC "@ + what + " is too large: "@ + text::decimal(len) + " bytes"@)
    } else if health::fast_fail(health, addr, now) {
        Some(unreachable_text(addr))
    } else {
        None
    }
}

/// Why a datagram of `len` bytes is not taken on for the peer at `addr`, if it is
/// not.
pub open spec fn datagram_refusal(
    len: nat,
    health: Map<Seq<char>, health::PeerHealth>,
    addr: Seq<char>,
    now: u64,
) -> Option<Seq<char>> {
    refusal("datagram"@, MAX_DATAGRAM_BYTES as nat, len, health, addr, now)
}

/// Why a stream of `len` bytes is not taken on for the peer at `addr`, if it is
/// not.
pub open spec fn stream_refusal(
    len: nat,
    health: Map<Seq<char>, health::PeerHealth>,
    addr: Seq<char>,
    now: u64,
) -> Option<Seq<char>> {
    refusal("stream payload"@, MAX_STREAM_BYTES as nat, len, health, addr, now)
}

/// Whether `command` is what comes of handing in a payload: the command
/// `accepted`, or the reason of a refusal.
pub open spec fn taken_on(
    refusal: Option<Seq<char>>,
    accepted: TransportCommand,
    command: Result<TransportCommand, String>,
) -> bool {
    match (refusal, command) {
        (Some(text), Err(e)) => e@ == text,
        (None, Ok(c)) => c == accepted,
        _ => false,
    }
}

fn refusal_message(what: &str, limit: usize, len: usize, health: &HealthMap, addr: &str, now: u64)
    -> (message: Option<String>)
    requires
        health.wf(),
    ensures
        match (refusal(what@, limit as nat, len as nat, health@, addr@, now), message) {
            (Some(text), Some(m)) => m@ == text,
            (None, None) => true,
            _ => false,
        },
{
    if len > limit {
        let size = text::decimal_text(len as u64);
        Some(
            "QUIC ".to_owned().concat(what).concat(" is too large: ").concat(size.as_str()).concat(
                " bytes",
            ),
        )
    } else if health::peer_fast_fail_active(health, addr, now) {
        Some(unreachable_message(addr))
    } else {
        None
    }
}

impl TransportHandle {
    /// The port that the transport listens on.
    pub fn port(&self) -> (port: u16)
        ensures
            port == self@.port,
    {
        self.port
    }

    /// The public key that the transport advertises.
    pub fn public_key(&self) -> (key: &str)
        ensures
            key@ == self@.public_key,
    {
        self.public_key.as_str()
    }

    /// A peer of this transport.
    pub fn peer(&self, addr: String, public_key: String, protocol_version: u16) -> (peer:
        PeerEndpoint)
        ensures
            peer.addr@ == addr@,
            peer.public_key@ == public_key@,
            peer.protocol_version == protocol_version,
    {
        PeerEndpoint { addr, public_key, protocol_version }
    }

    /// Takes on a datagram for `peer` at time `now`: gives the command for the
    /// loop, or says why not. A peer that fails fast is refused at once, so that
    /// the input layer lets the cursor go.
    pub fn send_datagram(
        &self,
        peer: PeerEndpoint,
        payload: Vec<u8>,
        health: &HealthMap,
        now: u64,
    ) -> (command: Result<TransportCommand, String>)
        requires
            health.wf(),
        ensures
            taken_on(
                datagram_refusal(payload@.len(), health@, peer.addr@, now),
                (TransportCommand::SendDatagram { peer, payload }),
                command,
            ),
    {
        match refusal_message(
            "datagram",
            MAX_DATAGRAM_BYTES,
            payload.len(),
            health,
            peer.addr.as_str(),
            now,
        ) {
            Some(message) => Err(message),
            None => Ok(TransportCommand::SendDatagram { peer, payload }),
        }
    }

    /// Takes on a stream for `peer` at time `now`: gives the command for the
    /// loop, or says why not.
    pub fn send_stream_expect_ack(
        &self,
        peer: PeerEndpoint,
        payload: Vec<u8>,
        health: &HealthMap,
        now: u64,
    ) -> (command: Result<TransportCommand, String>)
        requires
            health.wf(),
        ensures
            taken_on(
                stream_refusal(payload@.len(), health@, peer.addr@, now),
                (TransportCommand::SendStream { peer, payload }),
                command,
            ),
    {
        match refusal_message(
            "stream payload",
            MAX_STREAM_BYTES,
            payload.len(),
            health,
            peer.addr.as_str(),
            now,
        ) {
            Some(message) => Err(message),
            None => Ok(TransportCommand::SendStream { peer, payload }),
        }
    }

    /// The command that ends the loop.
    pub fn shutdown(&self) -> (command: TransportCommand)
        ensures
            command is Shutdown,
    {
        TransportCommand::Shutdown
    }
}

/// Whether `outcome` is that of handing a command to the loop.
pub open spec fn handed_over(queued: bool, outcome: Result<(), String>) -> bool {
    match outcome {
        Ok(_) => queued,
        Err(e) => !queued && e@ == "QUIC transport is stopped"@,
    }
}

/// Whether `outcome` is what the caller of a stream is told after `answer`.
pub open spec fn told(answer: Option<Result<(), String>>, outcome: Result<(), String>) -> bool {
    match (answer, outcome) {
        (Some(Ok(_)), Ok(_)) => true,
        (Some(Err(error)), Err(e)) => e@ == error@,
        (None, Err(e)) => e@ == "QUIC stream send timed out"@,
        _ => false,
    }
}

/// The outcome of handing a command to the loop; `queued` is false when the loop
/// has ended.
pub fn queue_outcome(queued: bool) -> (outcome: Result<(), String>)
    ensures
        handed_over(queued, outcome),
{
    if queued {
        Ok(())
    } else {
        Err("QUIC transport is stopped".to_owned())
    }
}

/// The outcome of a stream for its caller; `answer` is what the loop reported of
/// it, or `None` if it reported nothing in time.
pub fn stream_outcome(answer: Option<Result<(), String>>) -> (outcome: Result<(), String>)
    ensures
        told(answer, outcome),
{
    match answer {
        Some(outcome) => outcome,
        None => Err("QUIC stream send timed out".to_owned()),
    }
}

/// What the loop does next.
pub enum LoopStep {
    /// Handle a datagram without waiting.
    Datagram { peer: PeerEndpoint, payload: Vec<u8> },
    /// Run a stream in the background, in a slot of its own.
    Stream { peer: PeerEndpoint, payload: Vec<u8>, slot: StreamSlot },
    /// Answer the caller of a stream that there is no room for it.
    RefuseStream { error: String },
    /// Close down.
    Stop,
}

/// What is said of a stream when too many are in flight.
pub open spec fn stream_queue_full() -> Seq<char> {
    "QUIC stream queue is full ("@ + text::decimal(MAX_CONCURRENT_STREAMS as nat) + " in flight)"@
}

/// Whether the loop answers a command with `step`, and what it makes of the slots
/// `before`.
pub open spec fn loop_steps(
    command: Option<TransportCommand>,
    before: Seq<bool>,
    step: LoopStep,
    after: Seq<bool>,
) -> bool {
    match command {
        Some(TransportCommand::SendDatagram { peer, payload }) => step == (LoopStep::Datagram {
            peer,
            payload,
        }) && after == before,
        Some(TransportCommand::SendStream { peer, payload }) => match step {
            LoopStep::Stream { peer: to, payload: sent, slot } => {
                let event = streams::SlotEvent::Accepted { slot: slot.number() };
                &&& to == peer
                &&& sent == payload
                &&& streams::event_allowed(before, event)
                &&& after == streams::slots_after(before, event)
            },
            LoopStep::RefuseStream { error } => {
                &&& error@ == stream_queue_full()
                &&& streams::event_allowed(before, streams::SlotEvent::Refused)
                &&& after == before
            },
            _ => false,
        },
        Some(TransportCommand::Shutdown) => step is Stop && after == before,
        None => step is Stop && after == before,
    }
}

/// What the loop does with a command; `None` stands for the end of all commands.
/// A stream is given one of the slots, or turned down at once if none is free.
/// Nothing here waits: a datagram goes out on an established connection or is
/// dropped, and streams run in the background.
pub fn run_transport(command: Option<TransportCommand>, slots: &mut StreamSlots) -> (step: LoopStep)
    requires
        old(slots).wf(),
    ensures
        final(slots).wf(),
        loop_steps(command, old(slots)@, step, final(slots)@),
{
    match command {
        Some(TransportCommand::SendDatagram { peer, payload }) => LoopStep::Datagram {
            peer,
            payload,
        },
        Some(TransportCommand::SendStream { peer, payload }) => {
            match slots.take() {
                Some(slot) => LoopStep::Stream { peer, payload, slot },
                None => {
                    let limit = text::decimal_text(MAX_CONCURRENT_STREAMS as u64);
                    let error = "QUIC stream queue is full (".to_owned().concat(
                        limit.as_str(),
                    ).concat(" in flight)");
                    LoopStep::RefuseStream { error }
                },
            }
        },
        Some(TransportCommand::Shutdown) => LoopStep::Stop,
        None => LoopStep::Stop,
    }
}

/// A transport that is started again on the files that the first start left
/// behind, those of a new identity or of a usable stored one, advertises the same public key, which is the certificate in base64;
/// each handle tells the port that its own start bound; and a new start holds
/// nothing against any peer.
pub proof fn restart_keeps_the_public_key(
    cert: Option<Seq<u8>>,
    key: Option<Seq<u8>>,
    first: LoadedIdentity,
    first_port: u16,
    first_up: BringUp,
    first_ready: Result<ReadyTransport, String>,
    first_handle: Result<TransportHandle, String>,
    second: LoadedIdentity,
    second_port: u16,
    second_up: BringUp,
    second_ready: Result<ReadyTransport, String>,
    second_handle: Result<TransportHandle, String>,
)
    requires
        identity::loaded_from(cert, key, first),
        first.fresh || identity::usable(cert, key),
        listens(first_up, first.identity, first_port),
        announces(first_up, first_ready),
        starts(StartProgress::Reported(first_ready), first_handle),
        identity::loaded_from(
            Some(first.identity.cert_der@),
            Some(first.identity.key_der@),
            second,
        ),
        listens(second_up, second.identity, second_port),
        announces(second_up, second_ready),
        starts(StartProgress::Reported(second_ready), second_handle),
    ensures
        first_handle is Ok,
        second_handle is Ok,
        second_handle->Ok_0@.public_key == first_handle->Ok_0@.public_key,
        second_handle->Ok_0@.public_key == identity::base64_text(first.identity.cert_der@),
        first_handle->Ok_0@.port == first_port,
        second_handle->Ok_0@.port == second_port,
        forall|addr: Seq<char>, now: u64|
            !(#[trigger] health::fast_fail(Map::empty(), addr, now)),
{
    identity::identity_survives_a_reload(cert, key, first, second);
}

/// While a peer fails fast, every payload for it is refused; for any other peer,
/// a payload within the limit is taken on.
pub proof fn refused_exactly_while_failing_fast(
    what: Seq<char>,
    limit: nat,
    len: nat,
    health: Map<Seq<char>, health::PeerHealth>,
    addr: Seq<char>,
    now: u64,
)
    ensures
        health::fast_fail(health, addr, now) ==> refusal(what, limit, len, health, addr, now)
            is Some,
        !health::fast_fail(health, addr, now) && len <= limit ==> refusal(
            what,
            limit,
            len,
            health,
            addr,
            now,
        ) is None,
{
}

/// A payload beyond the limit is refused with its size, whatever the peer is; one
/// within it is refused for a peer that fails fast, with the address of the peer;
/// and no other is refused.
pub proof fn refusals_say_why(
    what: Seq<char>,
    limit: nat,
    len: nat,
    health: Map<Seq<char>, health::PeerHealth>,
    addr: Seq<char>,
    now: u64,
)
    ensures
        len > limit ==> refusal(what, limit, len, health, addr, now) == Some(
            "QUIC "@ + what + " is too large: "@ + text::decimal(len) + " bytes"@,
        ),
        len <= limit && health::fast_fail(health, addr, now) ==> refusal(
            what,
            limit,
            len,
            health,
            addr,
            now,
        ) == Some(
            "QUIC peer "@ + addr + " unreachable ("@ + text::decimal(3)
                + "+ consecutive failures)"@,
        ),
        len <= limit && !health::fast_fail(health, addr, now) ==> refusal(
            what,
            limit,
            len,
            health,
            addr,
            now,
        ) is None,
{
}

/// A transport that came up reports its port and its public key, and a start that
/// was told so gives a handle with both. What failed on the way is passed on, and
/// there is no handle then.
pub proof fn starts_tell_what_came_up(
    progress: BringUp,
    ready: Result<ReadyTransport, String>,
    handle: Result<TransportHandle, String>,
)
    requires
        announces(progress, ready),
        starts(StartProgress::Reported(ready), handle),
    ensures
        match progress {
            BringUp::Listening { port, public_key } => handle matches Ok(h) && h@.port == port
                && h@.public_key == public_key@,
            BringUp::RuntimeFailed(error) => handle matches Err(e) && e@
                == "failed to start QUIC runtime: "@ + error@,
            BringUp::BindFailed(error) => handle matches Err(e) && e@ == error@,
            BringUp::PortUnknown(error) => handle matches Err(e) && e@
                == "failed to read QUIC port: "@ + error@,
        },
{
}

/// A start without a report gives no handle, and says why.
pub proof fn starts_without_a_report_fail(error: String, handle: Result<TransportHandle, String>)
    ensures
        starts(StartProgress::IdentityFailed(error), handle) ==> (handle matches Err(e) && e@
            == error@),
        starts(StartProgress::SpawnFailed(error), handle) ==> (handle matches Err(e) && e@
            == "failed to spawn QUIC transport thread: "@ + error@),
        starts(StartProgress::NoReport, handle) ==> (handle matches Err(e) && e@
            == "QUIC transport did not become ready"@),
{
}

/// A datagram may have 16 KiB and a stream 48 MiB. What is within that goes out
/// as it was handed in, to the peer that it is for, unless the peer fails fast.
pub proof fn payloads_are_taken_on_within_their_limit(
    len: nat,
    health: Map<Seq<char>, health::PeerHealth>,
    addr: Seq<char>,
    now: u64,
    accepted: TransportCommand,
    command: Result<TransportCommand, String>,
)
    ensures
        datagram_refusal(len, health, addr, now) is None <==> len <= 16 * 1024
            && !health::fast_fail(health, addr, now),
        stream_refusal(len, health, addr, now) is None <==> len <= 48 * 1024 * 1024
            && !health::fast_fail(health, addr, now),
        len > 16 * 1024 ==> datagram_refusal(len, health, addr, now) == Some(
            "QUIC "@ + "datagram"@ + " is too large: "@ + text::decimal(len) + " bytes"@,
        ),
        len > 48 * 1024 * 1024 ==> stream_refusal(len, health, addr, now) == Some(
            "QUIC "@ + "stream payload"@ + " is too large: "@ + text::decimal(len) + " bytes"@,
        ),
        len <= 16 * 1024 ==> datagram_refusal(len, health, addr, now) == stream_refusal(
            len,
            health,
            addr,
            now,
        ),
        taken_on(None, accepted, command) ==> command == Ok::<TransportCommand, String>(accepted),
        taken_on(datagram_refusal(len, health, addr, now), accepted, command) && command is Ok
            ==> command->Ok_0 == accepted && len <= 16 * 1024,
        taken_on(Some(addr), accepted, command) ==> command is Err && command->Err_0@ == addr,
{
}

/// The loop hands every datagram on, and every stream that there is a free slot
/// for, as it was given; it turns a stream down only while eight others run, and
/// says so; and it stops when it is told to or nobody can tell it anything more.
/// Only a stream that is taken on changes the slots, and it takes one that was
/// free.
pub proof fn the_loop_hands_on_what_it_is_given(
    command: Option<TransportCommand>,
    before: Seq<bool>,
    step: LoopStep,
    after: Seq<bool>,
)
    requires
        loop_steps(command, before, step, after),
        before.len() == 8,
    ensures
        step is Stop <==> (command is None || command == Some(TransportCommand::Shutdown)),
        command matches Some(TransportCommand::SendDatagram { peer, payload }) ==> (step matches
            LoopStep::Datagram { peer: to, payload: sent } && to == peer && sent == payload),
        command matches Some(TransportCommand::SendStream { peer, payload }) ==> (step matches
            LoopStep::Stream { peer: to, payload: sent, slot } ==> to == peer && sent == payload
            && 0 <= slot.number() < 8 && !before[slot.number()] && after[slot.number()]),
        step is RefuseStream ==> streams::in_flight(before) == 8,
        step is RefuseStream ==> step->error@ == "QUIC stream queue is full ("@ + text::decimal(8)
            + " in flight)"@,
        step is Stream ==> streams::in_flight(after) == streams::in_flight(before) + 1,
        command is Some && command->0 is SendStream ==> (step is Stream <==> streams::in_flight(
            before,
        ) < 8) && (step is Stream || step is RefuseStream),
        !(step is Stream) ==> after == before,
{
    streams::streams_in_flight_stay_bounded(before);
    if let LoopStep::Stream { peer, payload, slot } = step {
        streams::streams_in_flight_are_counted(before, slot.number());
        streams::streams_in_flight_stay_bounded(after);
    }
}

/// A caller is told of success only where there was one: a stream went well only
/// if the loop said so, what the loop said against it is passed on, and silence
/// is a failure; a command is handed over only to a loop that takes it.
pub proof fn callers_are_told_what_happened(
    queued: bool,
    answer: Option<Result<(), String>>,
    outcome: Result<(), String>,
)
    ensures
        handed_over(queued, outcome) ==> (outcome is Ok) == queued,
        handed_over(false, outcome) ==> outcome->Err_0@ == "QUIC transport is stopped"@,
        told(answer, outcome) ==> (outcome is Ok <==> (answer is Some && answer->0 is Ok)),
        told(answer, outcome) && answer is None ==> outcome->Err_0@ == "QUIC stream send timed out"@,
        told(answer, outcome) && answer is Some && answer->0 is Err ==> outcome->Err_0@
            == answer->0->Err_0@,
{
}

/// A transport that listens tells the port that it was given and the public key
/// of its identity.
pub proof fn listening_tells_port_and_key(
    progress: BringUp,
    identity: TransportIdentity,
    port: u16,
    ready: Result<ReadyTransport, String>,
)
    requires
        listens(progress, identity, port),
        announces(progress, ready),
    ensures
        ready is Ok,
        ready->Ok_0.port == port,
        ready->Ok_0.public_key@ == identity.public_key@,
{
}

} // verus!
