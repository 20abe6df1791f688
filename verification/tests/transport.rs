use mykvm::quic_transport::connections::{
    datagram_sent, dial_finished, peer_key, resolve_peer_addr, send_datagram_nonblocking,
    send_stream_task, stream_dial_finished, stream_finished, ConnectionMap, DatagramStep,
    PeerEndpoint, PeerKey, SocketAddress, StreamStep,
};
use mykvm::quic_transport::handle::{
    announce_ready, listening, queue_outcome, run_transport, start, stream_outcome, BringUp, LoopStep,
    ReadyTransport, StartProgress, TransportCommand, TransportHandle, MAX_DATAGRAM_BYTES,
    MAX_STREAM_BYTES, QUIC_WORKER_THREADS, READY_WAIT_SECS, STREAM_WAIT_SECS,
};
use mykvm::quic_transport::health::{
    peer_fast_fail_active, record_peer_failure, record_peer_success, HealthMap, NoticeLevel,
    DATAGRAM_FAIL_THRESHOLD, DATAGRAM_RETRY_WINDOW, DATAGRAM_RETRY_WINDOW_SECS, MAX_HEALTH_PEERS,
};
use mykvm::quic_transport::identity::{
    client_config, client_config_outcome, created_identity, fits_base64, load_or_create_identity,
    pair_verdict, pin_certificate, stored_identity, tuned_transport_config, ConfigFailure,
    KeyReading, PairVerdict, PinnedCertVerifier, PROTOCOL_VERSION, QUIC_CERT_FILE, QUIC_KEY_FILE,
    SERVER_NAME,
};
use mykvm::quic_transport::ports::{bind_endpoint, candidate_ports, BindStep, PortScan, PortTry};
use mykvm::quic_transport::streams::{
    answer_stream, establish_connection, rejection, send_stream_on_connection, stream_ack,
    verify_stream_ack, DialFailure, StreamProgress, StreamSlots, ACK_WAIT_MILLIS, CONNECT_WAIT_SECS, MAX_ACK_BYTES,
    MAX_CONCURRENT_STREAMS,
};

const SECOND: u64 = 1_000_000_000;

fn base64_of(bytes: &[u8]) -> String {
    base64::Engine::encode(&base64::engine::general_purpose::STANDARD, bytes)
}

fn make_cert() -> Vec<u8> {
    rcgen::generate_simple_self_signed(vec!["mykvm.local".to_string()])
        .unwrap()
        .cert
        .der()
        .to_vec()
}

fn endpoint(addr: &str) -> PeerEndpoint {
    PeerEndpoint {
        addr: addr.to_string(),
        public_key: "pinned-cert".to_string(),
        protocol_version: PROTOCOL_VERSION,
    }
}

fn local_address(port: u16) -> SocketAddress {
    SocketAddress::V4 { ip: 0x7F00_0001, port }
}

fn key_of(peer: &PeerEndpoint, port: u16) -> PeerKey {
    peer_key(peer, Ok(vec![local_address(port)])).expect("peer key")
}

fn running_handle() -> TransportHandle {
    start(StartProgress::Reported(Ok(ReadyTransport {
        port: 47834,
        public_key: "own-cert".to_string(),
    })))
    .expect("handle")
}

#[test]
fn peer_health_fast_fails_after_threshold_and_recovers_on_success() {
    let mut health = HealthMap::new();
    let addr = "10.0.0.9:47834";
    let now = 7 * SECOND;

    for strikes in 1..DATAGRAM_FAIL_THRESHOLD {
        record_peer_failure(&mut health, addr, "timeout", now);
        assert!(
            !peer_fast_fail_active(&health, addr, now),
            "{strikes} failures must not fast-fail yet"
        );
    }
    record_peer_failure(&mut health, addr, "timeout", now);
    assert!(
        peer_fast_fail_active(&health, addr, now),
        "reaching the threshold enters fast-fail"
    );
    assert!(
        !peer_fast_fail_active(&health, "10.0.0.8:47834", now),
        "health is tracked per peer address"
    );

    record_peer_success(&mut health, addr);
    assert!(
        !peer_fast_fail_active(&health, addr, now),
        "one successful send clears the fast-fail state"
    );
}

#[test]
fn pinned_verifier_accepts_matching_cert_and_rejects_others() {
    let pinned = make_cert();
    let other = make_cert();
    let verifier = PinnedCertVerifier::new(pinned.clone());

    assert!(
        verifier.verify_server_cert(&pinned).is_ok(),
        "the advertised certificate must be accepted"
    );
    assert!(
        verifier.verify_server_cert(&other).is_err(),
        "a different certificate must be rejected"
    );
}

#[test]
fn client_config_builds_from_advertised_public_key() {
    let peer = PeerEndpoint {
        addr: "127.0.0.1:47834".to_string(),
        public_key: base64_of(&make_cert()),
        protocol_version: PROTOCOL_VERSION,
    };
    assert!(client_config(&peer).is_ok());
}

#[test]
fn client_config_rejects_protocol_version_mismatch() {
    let peer = PeerEndpoint {
        addr: "127.0.0.1:47834".to_string(),
        public_key: base64_of(&make_cert()),
        protocol_version: PROTOCOL_VERSION + 1,
    };
    assert!(client_config(&peer).is_err());
}

#[test]
fn stream_ack_rejects_non_ok_payloads() {
    assert!(verify_stream_ack(b"ok").is_ok());
    assert!(verify_stream_ack(b"reject").is_err());
}

#[test]
fn peer_key_uses_resolved_addr_and_public_key() {
    let key = peer_key(
        &PeerEndpoint {
            addr: "127.0.0.1:47834".into(),
            public_key: "pinned-cert".into(),
            protocol_version: PROTOCOL_VERSION,
        },
        Ok(vec![SocketAddress::V4 { ip: 0x7F00_0001, port: 47834 }]),
    )
    .expect("peer key");

    assert_eq!(key.addr, SocketAddress::V4 { ip: 0x7F00_0001, port: 47834 });
    assert_eq!(key.public_key, "pinned-cert");
}

#[test]
fn quic_runtime_uses_small_worker_pool() {
    assert_eq!(QUIC_WORKER_THREADS, 2);
}

#[test]
fn identity_is_stable_across_reloads() {
    let first = load_or_create_identity(None, None).expect("first identity load");
    assert!(first.fresh);
    let stored_cert = first.identity.cert_der.clone();
    let stored_key = first.identity.key_der.clone();
    let second =
        load_or_create_identity(Some(stored_cert), Some(stored_key)).expect("second identity load");
    assert!(!second.fresh);

    assert_eq!(
        first.identity.public_key, second.identity.public_key,
        "the advertised public key must survive a reload"
    );
    assert_eq!(first.identity.cert_der, second.identity.cert_der);
    assert_eq!(first.identity.key_der, second.identity.key_der);
    assert!(!first.identity.public_key.is_empty());
}

#[test]
fn fast_fail_ends_with_the_window() {
    assert_eq!(DATAGRAM_RETRY_WINDOW, DATAGRAM_RETRY_WINDOW_SECS * SECOND);
    let mut health = HealthMap::new();
    for _ in 0..3 {
        record_peer_failure(&mut health, "a:1", "timeout", 10 * SECOND);
    }
    assert!(peer_fast_fail_active(&health, "a:1", 10 * SECOND));
    assert!(peer_fast_fail_active(&health, "a:1", 13 * SECOND - 1));
    assert!(!peer_fast_fail_active(&health, "a:1", 13 * SECOND));
    assert!(peer_fast_fail_active(&health, "a:1", 9 * SECOND));

    // One failed probe mutes the peer for another window.
    record_peer_failure(&mut health, "a:1", "timeout", 13 * SECOND);
    assert!(peer_fast_fail_active(&health, "a:1", 15 * SECOND));
}

#[test]
fn failures_are_reported_once_and_at_the_threshold() {
    let mut health = HealthMap::new();
    let first = record_peer_failure(&mut health, "a:1", "timeout", 1);
    assert_eq!(first.level, NoticeLevel::Warn);
    assert_eq!(first.text, "QUIC send to a:1 failed: timeout");
    let second = record_peer_failure(&mut health, "a:1", "timeout", 2);
    assert_eq!(second.level, NoticeLevel::Debug);
    assert_eq!(second.text, "QUIC send to a:1 still failing: timeout");
    let third = record_peer_failure(&mut health, "a:1", "timeout", 3);
    assert_eq!(third.level, NoticeLevel::Warn);
    assert_eq!(
        third.text,
        "QUIC sends to a:1 keep failing; muting attempts to one probe per 3s: timeout"
    );
    let fourth = record_peer_failure(&mut health, "a:1", "timeout", 4);
    assert_eq!(fourth.level, NoticeLevel::Debug);

    let recovered = record_peer_success(&mut health, "a:1").expect("recovery");
    assert_eq!(recovered.level, NoticeLevel::Info);
    assert_eq!(recovered.text, "QUIC sends to a:1 recovered");
    assert!(record_peer_success(&mut health, "a:1").is_none());

    record_peer_failure(&mut health, "b:1", "timeout", 5);
    assert!(record_peer_success(&mut health, "b:1").is_none());
}

#[test]
fn full_health_records_forget_the_stalest_peer() {
    let mut health = HealthMap::new();
    for peer in 0..MAX_HEALTH_PEERS {
        let addr = format!("peer-{peer}");
        for _ in 0..3 {
            record_peer_failure(&mut health, &addr, "timeout", SECOND + peer as u64);
        }
    }
    for _ in 0..3 {
        record_peer_failure(&mut health, "newcomer", "timeout", 2 * SECOND);
    }
    let now = 2 * SECOND;
    assert!(!peer_fast_fail_active(&health, "peer-0", now));
    for peer in 1..MAX_HEALTH_PEERS {
        assert!(peer_fast_fail_active(&health, &format!("peer-{peer}"), now));
    }
    assert!(peer_fast_fail_active(&health, "newcomer", now));
}

#[test]
fn handle_refuses_what_is_too_large() {
    let handle = running_handle();
    let health = HealthMap::new();
    let peer = endpoint("10.0.0.9:47834");

    let fits = vec![0_u8; MAX_DATAGRAM_BYTES];
    match handle.send_datagram(peer.clone(), fits.clone(), &health, 0) {
        Ok(TransportCommand::SendDatagram { peer: to, payload }) => {
            assert_eq!(to.addr, "10.0.0.9:47834");
            assert_eq!(payload, fits);
        }
        _ => panic!("a datagram at the limit is taken on"),
    }
    let refused = handle.send_datagram(peer.clone(), vec![0_u8; MAX_DATAGRAM_BYTES + 1], &health, 0);
    assert_eq!(refused.err().unwrap(), "QUIC datagram is too large: 16385 bytes");

    assert!(matches!(
        handle.send_stream_expect_ack(peer.clone(), vec![1, 2, 3], &health, 0),
        Ok(TransportCommand::SendStream { payload, .. }) if payload == [1, 2, 3]
    ));
    let refused =
        handle.send_stream_expect_ack(peer, vec![0_u8; MAX_STREAM_BYTES + 1], &health, 0);
    assert_eq!(
        refused.err().unwrap(),
        "QUIC stream payload is too large: 50331649 bytes"
    );
    assert_eq!(MAX_STREAM_BYTES, 48 * 1024 * 1024);
}

#[test]
fn handle_refuses_peers_that_fail_fast() {
    let handle = running_handle();
    let mut health = HealthMap::new();
    for _ in 0..3 {
        record_peer_failure(&mut health, "10.0.0.9:47834", "timeout", SECOND);
    }
    let expected = "QUIC peer 10.0.0.9:47834 unreachable (3+ consecutive failures)";
    let peer = endpoint("10.0.0.9:47834");
    let datagram = handle.send_datagram(peer.clone(), vec![1], &health, 2 * SECOND);
    assert_eq!(datagram.err().unwrap(), expected);
    let stream = handle.send_stream_expect_ack(peer.clone(), vec![1], &health, 2 * SECOND);
    assert_eq!(stream.err().unwrap(), expected);
    assert!(handle.send_datagram(peer, vec![1], &health, 4 * SECOND).is_ok());
    assert!(handle
        .send_datagram(endpoint("10.0.0.8:47834"), vec![1], &health, 2 * SECOND)
        .is_ok());
}

#[test]
fn handle_tells_port_key_and_peer() {
    let handle = running_handle();
    assert_eq!(handle.port(), 47834);
    assert_eq!(handle.public_key(), "own-cert");
    let peer = handle.peer("host:1".to_string(), "key".to_string(), 2);
    assert_eq!(peer.addr, "host:1");
    assert_eq!(peer.public_key, "key");
    assert_eq!(peer.protocol_version, 2);
    assert!(matches!(handle.shutdown(), TransportCommand::Shutdown));
}

#[test]
fn start_says_why_there_is_no_transport() {
    assert_eq!(READY_WAIT_SECS, 3);
    let identity = start(StartProgress::IdentityFailed("no identity".to_string()));
    assert_eq!(identity.err().unwrap(), "no identity");
    let spawn = start(StartProgress::SpawnFailed("no threads".to_string()));
    assert_eq!(spawn.err().unwrap(), "failed to spawn QUIC transport thread: no threads");
    let silent = start(StartProgress::NoReport);
    assert_eq!(silent.err().unwrap(), "QUIC transport did not become ready");
    let failed = start(StartProgress::Reported(Err("bind".to_string())));
    assert_eq!(failed.err().unwrap(), "bind");
}

#[test]
fn bring_up_is_announced() {
    let runtime = announce_ready(BringUp::RuntimeFailed("no memory".to_string()));
    assert_eq!(runtime.err().unwrap(), "failed to start QUIC runtime: no memory");
    let bind = announce_ready(BringUp::BindFailed("taken".to_string()));
    assert_eq!(bind.err().unwrap(), "taken");
    let port = announce_ready(BringUp::PortUnknown("closed".to_string()));
    assert_eq!(port.err().unwrap(), "failed to read QUIC port: closed");
    let ready = announce_ready(BringUp::Listening { port: 5, public_key: "k".to_string() }).unwrap();
    assert_eq!((ready.port, ready.public_key.as_str()), (5, "k"));
}

#[test]
fn queue_and_stream_outcomes_reach_the_caller() {
    assert_eq!(STREAM_WAIT_SECS, 5);
    assert!(queue_outcome(true).is_ok());
    assert_eq!(queue_outcome(false).err().unwrap(), "QUIC transport is stopped");
    assert!(stream_outcome(Some(Ok(()))).is_ok());
    assert_eq!(stream_outcome(Some(Err("no".to_string()))).err().unwrap(), "no");
    assert_eq!(stream_outcome(None).err().unwrap(), "QUIC stream send timed out");
}

#[test]
fn loop_serves_commands_in_turn() {
    let mut slots = StreamSlots::new();
    let peer = endpoint("a:1");
    let datagram = TransportCommand::SendDatagram { peer: peer.clone(), payload: vec![1] };
    assert!(matches!(
        run_transport(Some(datagram), &mut slots),
        LoopStep::Datagram { payload, .. } if payload == [1]
    ));
    let stream = TransportCommand::SendStream { peer, payload: vec![2] };
    match run_transport(Some(stream), &mut slots) {
        LoopStep::Stream { peer, payload, slot } => {
            assert_eq!((peer.addr.as_str(), payload), ("a:1", vec![2]));
            assert!(slots.holds(&slot));
        }
        _ => panic!("there is a slot for the stream"),
    }
    assert!(matches!(
        run_transport(Some(TransportCommand::Shutdown), &mut slots),
        LoopStep::Stop
    ));
    assert!(matches!(run_transport(None, &mut slots), LoopStep::Stop));
}

#[test]
fn the_ninth_stream_is_turned_down() {
    let mut slots = StreamSlots::new();
    let send = || {
        Some(TransportCommand::SendStream { peer: endpoint("a:1"), payload: vec![3] })
    };
    let mut running = Vec::new();
    for _ in 0..MAX_CONCURRENT_STREAMS {
        match run_transport(send(), &mut slots) {
            LoopStep::Stream { slot, .. } => running.push(slot),
            _ => panic!("there is a slot for the stream"),
        }
    }
    assert_eq!(running.len(), 8);
    for _ in 0..3 {
        match run_transport(send(), &mut slots) {
            LoopStep::RefuseStream { error } => {
                assert_eq!(error, "QUIC stream queue is full (8 in flight)");
            }
            _ => panic!("there is no slot for the stream"),
        }
    }
    let datagram = TransportCommand::SendDatagram { peer: endpoint("a:1"), payload: vec![1] };
    assert!(matches!(
        run_transport(Some(datagram), &mut slots),
        LoopStep::Datagram { .. }
    ));

    let done = running.remove(3);
    assert!(slots.holds(&done));
    let answer = answer_stream(&mut slots, done, Err("rejected".to_string()));
    assert_eq!(answer.err().unwrap(), "rejected");
    match run_transport(send(), &mut slots) {
        LoopStep::Stream { slot, .. } => running.push(slot),
        _ => panic!("the slot is free again"),
    }
    assert!(slots.take().is_none());
    for slot in running {
        assert!(slots.holds(&slot));
        assert!(answer_stream(&mut slots, slot, Ok(())).is_ok());
    }
    assert!(slots.take().is_some());
}

#[test]
fn candidate_ports_start_at_the_preferred_port() {
    let ports = candidate_ports(47834);
    assert_eq!(ports.len(), 65);
    assert_eq!(ports[0], 47834);
    assert_eq!(ports[63], 47897);
    assert_eq!(ports[64], 0);
    assert_eq!(candidate_ports(80)[0], 1024);
    assert_eq!(candidate_ports(0)[0], 1024);
    assert_eq!(candidate_ports(65535), [65535, 0]);
    assert_eq!(candidate_ports(65534), [65534, 65535, 0]);
}

#[test]
fn binding_walks_through_the_candidates() {
    let mut scan = PortScan::new(65534);
    assert!(matches!(
        bind_endpoint(&mut scan, PortTry::NotYet),
        BindStep::Try { port: 65534 }
    ));
    assert!(matches!(
        bind_endpoint(&mut scan, PortTry::Failed("taken".to_string())),
        BindStep::Try { port: 65535 }
    ));
    assert!(matches!(
        bind_endpoint(&mut scan, PortTry::Failed("denied".to_string())),
        BindStep::Try { port: 0 }
    ));
    match bind_endpoint(&mut scan, PortTry::Failed("no sockets".to_string())) {
        BindStep::Fail { error } => assert_eq!(error, "failed to bind QUIC port: no sockets"),
        _ => panic!("every candidate failed"),
    }
    match bind_endpoint(&mut scan, PortTry::NotYet) {
        BindStep::Fail { error } => assert_eq!(error, "failed to bind QUIC port: no sockets"),
        _ => panic!("nothing is left to try"),
    }
}

#[test]
fn binding_ends_early() {
    let mut scan = PortScan::new(47834);
    bind_endpoint(&mut scan, PortTry::NotYet);
    assert!(matches!(bind_endpoint(&mut scan, PortTry::Bound), BindStep::Done));
    match bind_endpoint(&mut scan, PortTry::ConfigFailed("bad key".to_string())) {
        BindStep::Fail { error } => {
            assert_eq!(error, "failed to build QUIC server config: bad key");
        }
        _ => panic!("there is no configuration"),
    }
    match bind_endpoint(&mut scan, PortTry::NoRuntime) {
        BindStep::Fail { error } => {
            assert_eq!(error, "no async runtime available for QUIC endpoint");
        }
        _ => panic!("there is no runtime"),
    }
}

#[test]
fn addresses_are_resolved_to_the_first_one() {
    let found = resolve_peer_addr("host:1", Ok(vec![local_address(1), local_address(2)]));
    assert_eq!(found.unwrap(), local_address(1));
    let nothing = resolve_peer_addr("host:1", Ok(vec![]));
    assert_eq!(nothing.err().unwrap(), "peer QUIC address host:1 did not resolve");
    let invalid = resolve_peer_addr("host", Err("no port".to_string()));
    assert_eq!(invalid.err().unwrap(), "invalid peer QUIC address host: no port");
    let unresolved = peer_key(&endpoint("host:1"), Ok(vec![]));
    assert_eq!(unresolved.err().unwrap(), "peer QUIC address host:1 did not resolve");
}

#[test]
fn a_burst_of_datagrams_dials_once() {
    let mut connections: ConnectionMap<u32> = ConnectionMap::new();
    let mut health = HealthMap::new();
    let peer = endpoint("127.0.0.1:47834");
    let key = Ok(key_of(&peer, 47834));

    let (first, notice) =
        send_datagram_nonblocking(&mut connections, &mut health, &peer, &key, false, 0);
    assert_eq!(first, DatagramStep::Dial);
    assert!(notice.is_none());
    for _ in 0..10 {
        let (step, _) =
            send_datagram_nonblocking(&mut connections, &mut health, &peer, &key, false, 0);
        assert_eq!(step, DatagramStep::Drop);
    }
    let other = Ok(key_of(&peer, 47835));
    let (elsewhere, _) =
        send_datagram_nonblocking(&mut connections, &mut health, &peer, &other, false, 0);
    assert_eq!(elsewhere, DatagramStep::Dial);

    assert!(dial_finished(&mut connections, &mut health, &peer, key_of(&peer, 47834), Ok(7), 0)
        .is_none());
    assert_eq!(connections.ready_connection(&key_of(&peer, 47834)), Some(&7));
    let (sent, _) = send_datagram_nonblocking(&mut connections, &mut health, &peer, &key, true, 0);
    assert_eq!(sent, DatagramStep::Send);
    let (reopened, _) =
        send_datagram_nonblocking(&mut connections, &mut health, &peer, &key, false, 0);
    assert_eq!(reopened, DatagramStep::Dial);
    assert_eq!(connections.ready_connection(&key_of(&peer, 47834)), None);
}

#[test]
fn a_peer_that_fails_fast_is_not_dialled() {
    let mut connections: ConnectionMap<u32> = ConnectionMap::new();
    let mut health = HealthMap::new();
    let peer = endpoint("127.0.0.1:47834");
    let key = Ok(key_of(&peer, 47834));
    for round in 0..3 {
        let (step, _) =
            send_datagram_nonblocking(&mut connections, &mut health, &peer, &key, false, SECOND);
        assert_eq!(step, DatagramStep::Dial);
        let notice = dial_finished(
            &mut connections,
            &mut health,
            &peer,
            key_of(&peer, 47834),
            Err(format!("round {round}")),
            SECOND,
        );
        assert!(notice.is_some());
    }
    let (muted, _) =
        send_datagram_nonblocking(&mut connections, &mut health, &peer, &key, false, 2 * SECOND);
    assert_eq!(muted, DatagramStep::Drop);
    let (probe, _) =
        send_datagram_nonblocking(&mut connections, &mut health, &peer, &key, false, 4 * SECOND);
    assert_eq!(probe, DatagramStep::Dial);
}

#[test]
fn an_unresolved_peer_counts_as_a_failure() {
    let mut connections: ConnectionMap<u32> = ConnectionMap::new();
    let mut health = HealthMap::new();
    let peer = endpoint("nowhere:1");
    let key = Err("did not resolve".to_string());
    let (step, notice) =
        send_datagram_nonblocking(&mut connections, &mut health, &peer, &key, false, 0);
    assert_eq!(step, DatagramStep::Drop);
    assert_eq!(notice.unwrap().text, "QUIC send to nowhere:1 failed: did not resolve");
    for _ in 0..2 {
        send_datagram_nonblocking(&mut connections, &mut health, &peer, &key, false, 0);
    }
    assert!(peer_fast_fail_active(&health, "nowhere:1", 0));
}

#[test]
fn a_refused_datagram_drops_the_connection() {
    let mut connections: ConnectionMap<u32> = ConnectionMap::new();
    let mut health = HealthMap::new();
    let peer = endpoint("127.0.0.1:47834");
    let key = key_of(&peer, 47834);
    dial_finished(&mut connections, &mut health, &peer, key.clone(), Ok(7), 0);

    assert!(datagram_sent(&mut connections, &mut health, &peer, &key, Ok(()), 0).is_none());
    assert_eq!(connections.ready_connection(&key), Some(&7));
    let notice = datagram_sent(
        &mut connections,
        &mut health,
        &peer,
        &key,
        Err("too large".to_string()),
        0,
    );
    assert_eq!(notice.unwrap().text, "QUIC send to 127.0.0.1:47834 failed: too large");
    assert_eq!(connections.ready_connection(&key), None);
}

#[test]
fn streams_reuse_or_dial() {
    let mut connections: ConnectionMap<u32> = ConnectionMap::new();
    let mut health = HealthMap::new();
    let peer = endpoint("127.0.0.1:47834");
    let key = Ok(key_of(&peer, 47834));
    assert!(matches!(send_stream_task(&connections, &key, true), StreamStep::Dial));
    let unresolved = Err("did not resolve".to_string());
    assert!(matches!(
        send_stream_task(&connections, &unresolved, true),
        StreamStep::Fail { error } if error == "did not resolve"
    ));

    // A dial for datagrams is under way: the stream does not wait for it.
    send_datagram_nonblocking(&mut connections, &mut health, &peer, &key, false, 0);
    assert!(matches!(send_stream_task(&connections, &key, true), StreamStep::Dial));

    let failed = stream_dial_finished(
        &mut connections,
        &mut health,
        &peer,
        &key_of(&peer, 47834),
        Err("timed out".to_string()),
        0,
    );
    assert_eq!(failed.0.err().unwrap(), "timed out");
    assert_eq!(failed.1.unwrap().text, "QUIC send to 127.0.0.1:47834 failed: timed out");
    let (still_dialling, _) =
        send_datagram_nonblocking(&mut connections, &mut health, &peer, &key, false, 0);
    assert_eq!(still_dialling, DatagramStep::Drop);

    let dialled = stream_dial_finished(
        &mut connections,
        &mut health,
        &peer,
        &key_of(&peer, 47834),
        Ok(9),
        0,
    );
    assert!(dialled.0.is_ok());
    assert!(matches!(send_stream_task(&connections, &key, true), StreamStep::Reuse));
    assert!(matches!(send_stream_task(&connections, &key, false), StreamStep::Dial));

    stream_finished(&mut connections, &key_of(&peer, 47834), &Ok(()));
    assert_eq!(connections.ready_connection(&key_of(&peer, 47834)), Some(&9));
    stream_finished(&mut connections, &key_of(&peer, 47834), &Err("rejected".to_string()));
    assert_eq!(connections.ready_connection(&key_of(&peer, 47834)), None);
}

#[test]
fn keys_differ_by_address_and_certificate() {
    let mut connections: ConnectionMap<u32> = ConnectionMap::new();
    let mut health = HealthMap::new();
    let peer = endpoint("h:1");
    let v6 = SocketAddress::V6 { ip: 1, port: 47834, flow_info: 0, scope_id: 0 };
    let scoped = SocketAddress::V6 { ip: 1, port: 47834, flow_info: 0, scope_id: 3 };
    let key = peer_key(&peer, Ok(vec![v6])).unwrap();
    dial_finished(&mut connections, &mut health, &peer, key.clone(), Ok(1), 0);
    assert_eq!(connections.ready_connection(&key), Some(&1));
    let elsewhere = peer_key(&peer, Ok(vec![scoped])).unwrap();
    assert_eq!(connections.ready_connection(&elsewhere), None);
    let recertified = PeerKey { addr: v6, public_key: "other-cert".to_string() };
    assert_eq!(connections.ready_connection(&recertified), None);
}

#[test]
fn acks_are_spelled_out() {
    assert_eq!(stream_ack(true), b"ok");
    assert_eq!(stream_ack(false), b"reject");
    assert!(verify_stream_ack(&stream_ack(true)).is_ok());
    assert_eq!(
        verify_stream_ack(&stream_ack(false)).err().unwrap(),
        "QUIC stream receiver rejected payload: reject"
    );
    assert_eq!(
        verify_stream_ack(b"o\xffk").err().unwrap(),
        "QUIC stream receiver rejected payload: o\u{FFFD}k"
    );
    assert_eq!(
        verify_stream_ack("\u{e9}t\u{e9}".as_bytes()).err().unwrap(),
        "QUIC stream receiver rejected payload: \u{e9}t\u{e9}"
    );
    assert_eq!(
        verify_stream_ack(b"").err().unwrap(),
        "QUIC stream receiver rejected payload: "
    );
    assert!(verify_stream_ack(b"okay").is_err());
    assert_eq!(rejection("full"), "QUIC stream receiver rejected payload: full");
}

#[test]
fn streams_say_how_far_they_got() {
    assert_eq!((MAX_ACK_BYTES, ACK_WAIT_MILLIS, CONNECT_WAIT_SECS), (64, 500, 2));
    let said = |progress| send_stream_on_connection(progress).err();
    assert_eq!(
        said(StreamProgress::OpenFailed("e".to_string())).unwrap(),
        "failed to open QUIC stream: e"
    );
    assert_eq!(
        said(StreamProgress::WriteFailed("e".to_string())).unwrap(),
        "failed to write QUIC stream: e"
    );
    assert_eq!(
        said(StreamProgress::FinishFailed("e".to_string())).unwrap(),
        "failed to finish QUIC stream: e"
    );
    assert_eq!(
        said(StreamProgress::AckFailed("e".to_string())).unwrap(),
        "failed to read QUIC stream ack: e"
    );
    assert_eq!(said(StreamProgress::AckTimedOut).unwrap(), "QUIC stream ack timed out");
    assert_eq!(said(StreamProgress::Answered(b"ok".to_vec())), None);
    assert_eq!(
        said(StreamProgress::Answered(b"no".to_vec())).unwrap(),
        "QUIC stream receiver rejected payload: no"
    );
}

#[test]
fn dials_say_what_went_wrong() {
    assert_eq!(establish_connection("1.2.3.4:5", Ok(8)), Ok(8));
    let said = |failure| establish_connection::<u32>("1.2.3.4:5", Err(failure)).err().unwrap();
    assert_eq!(said(DialFailure::Refused("old".to_string())), "old");
    assert_eq!(
        said(DialFailure::NotStarted("e".to_string())),
        "failed to start QUIC connection to 1.2.3.4:5: e"
    );
    assert_eq!(said(DialFailure::TimedOut), "QUIC connection to 1.2.3.4:5 timed out");
    assert_eq!(
        said(DialFailure::Failed("e".to_string())),
        "failed to connect QUIC to 1.2.3.4:5: e"
    );
}

#[test]
fn public_key_is_the_certificate_in_base64() {
    let stored = |verdict| {
        stored_identity(Some(b"certificate".to_vec()), Some(b"key".to_vec()), verdict)
    };
    for verdict in [PairVerdict::Fits, PairVerdict::Unread] {
        let identity = stored(verdict).expect("stored identity");
        assert_eq!(identity.public_key, "Y2VydGlmaWNhdGU=");
        assert_eq!(identity.cert_der, b"certificate");
        assert_eq!(identity.key_der, b"key");
    }
    assert!(stored(PairVerdict::Corrupt).is_none());
    let fits = PairVerdict::Fits;
    assert!(stored_identity(Some(vec![]), Some(b"key".to_vec()), fits).is_none());
    assert!(stored_identity(Some(b"certificate".to_vec()), Some(vec![]), fits).is_none());
    assert!(stored_identity(Some(b"certificate".to_vec()), None, fits).is_none());
    assert!(stored_identity(None, Some(b"key".to_vec()), fits).is_none());
    assert_eq!(QUIC_CERT_FILE, "quic-transport-cert.der");
    assert_eq!(QUIC_KEY_FILE, "quic-transport-key.der");
}

#[test]
fn corrupt_files_make_a_new_identity() {
    let one = load_or_create_identity(None, None).unwrap().identity;
    let other = load_or_create_identity(None, None).unwrap().identity;
    let garbage = b"garbage".to_vec();
    let mut cut = one.cert_der.clone();
    cut.pop();
    for (cert, key) in [
        (garbage.clone(), garbage.clone()),
        (one.cert_der.clone(), garbage.clone()),
        (garbage.clone(), one.key_der.clone()),
        (cut, one.key_der.clone()),
        (one.key_der.clone(), one.cert_der.clone()),
        (one.cert_der.clone(), other.key_der.clone()),
    ] {
        let loaded = load_or_create_identity(Some(cert.clone()), Some(key.clone())).unwrap();
        assert!(loaded.fresh);
        assert_ne!(loaded.identity.cert_der, cert);
        assert_ne!(loaded.identity.key_der, key);
        let cert = loaded.identity.cert_der.clone();
        let key = loaded.identity.key_der.clone();
        let reloaded = load_or_create_identity(Some(cert), Some(key)).unwrap();
        assert!(!reloaded.fresh);
        assert_eq!(reloaded.identity.public_key, loaded.identity.public_key);
    }
}

#[test]
fn a_cut_key_is_corrupt() {
    let one = load_or_create_identity(None, None).unwrap().identity;
    let mut key = one.key_der.clone();
    key.pop();
    let loaded = load_or_create_identity(Some(one.cert_der.clone()), Some(key)).unwrap();
    assert!(loaded.fresh);
    let mut key = one.key_der.clone();
    key[40] ^= 1;
    let loaded = load_or_create_identity(Some(one.cert_der.clone()), Some(key)).unwrap();
    assert!(loaded.fresh);
}

#[test]
fn stored_keys_of_other_kinds_are_kept() {
    for algorithm in [
        &rcgen::PKCS_ECDSA_P256_SHA256,
        &rcgen::PKCS_ECDSA_P384_SHA384,
        &rcgen::PKCS_ED25519,
    ] {
        let pair = rcgen::KeyPair::generate_for(algorithm).unwrap();
        let params = rcgen::CertificateParams::new(vec!["mykvm.local".to_string()]).unwrap();
        let cert = params.self_signed(&pair).unwrap().der().to_vec();
        let key = pair.serialize_der();
        let loaded = load_or_create_identity(Some(cert.clone()), Some(key.clone())).unwrap();
        assert!(!loaded.fresh);
        assert_eq!(loaded.identity.cert_der, cert);
        assert_eq!(loaded.identity.key_der, key);
    }
}

#[test]
fn pairs_are_judged_by_their_public_halves() {
    let judged = |certificate: Option<&[u8]>, reading| {
        pair_verdict(&certificate.map(|bytes| bytes.to_vec()), &reading)
    };
    assert_eq!(judged(Some(&[1, 2]), KeyReading::Public(vec![1, 2])), PairVerdict::Fits);
    assert_eq!(judged(Some(&[1, 2]), KeyReading::Public(vec![1, 3])), PairVerdict::Corrupt);
    assert_eq!(judged(Some(&[1, 2]), KeyReading::Rejected), PairVerdict::Corrupt);
    assert_eq!(judged(Some(&[1, 2]), KeyReading::Unread), PairVerdict::Unread);
    assert_eq!(judged(None, KeyReading::Unread), PairVerdict::Corrupt);
    assert_eq!(judged(None, KeyReading::Public(vec![1, 2])), PairVerdict::Corrupt);
}

#[test]
fn half_an_identity_is_not_kept() {
    let old = load_or_create_identity(None, None).unwrap().identity;
    let without_key = load_or_create_identity(Some(old.cert_der.clone()), None).unwrap();
    let without_cert = load_or_create_identity(None, Some(old.key_der.clone())).unwrap();
    for loaded in [without_key, without_cert] {
        assert!(loaded.fresh);
        assert_ne!(loaded.identity.cert_der, old.cert_der);
        assert_ne!(loaded.identity.key_der, old.key_der);
    }
}

#[test]
fn a_restart_advertises_the_same_key() {
    let first = load_or_create_identity(None, None).unwrap().identity;
    let second =
        load_or_create_identity(Some(first.cert_der.clone()), Some(first.key_der.clone()))
            .unwrap()
            .identity;
    let bring_up = |identity, port| {
        start(StartProgress::Reported(announce_ready(listening(identity, port)))).unwrap()
    };
    let before = bring_up(&first, 47834);
    let after = bring_up(&second, 47835);
    assert_eq!(before.public_key(), after.public_key());
    assert_eq!(after.public_key(), base64_of(&first.cert_der));
    assert_eq!((before.port(), after.port()), (47834, 47835));
    assert!(!peer_fast_fail_active(&HealthMap::new(), "a:1", 0));
}

#[test]
fn missing_or_empty_files_make_a_new_identity() {
    let stored = || Some(vec![1_u8, 2, 3]);
    for (cert, key) in [
        (None, None),
        (stored(), None),
        (None, stored()),
        (Some(vec![]), stored()),
        (stored(), Some(vec![])),
    ] {
        let loaded = load_or_create_identity(cert, key).expect("new identity");
        assert!(loaded.fresh);
        assert_ne!(loaded.identity.cert_der, [1, 2, 3]);
        assert!(!loaded.identity.cert_der.is_empty());
        assert!(!loaded.identity.key_der.is_empty());
        assert_eq!(loaded.identity.public_key, base64_of(&loaded.identity.cert_der));
    }
    let names = load_or_create_identity(None, None).unwrap().identity.cert_der;
    let contains = |name: &str| names.windows(name.len()).any(|part| part == name.as_bytes());
    assert!(contains(SERVER_NAME));
    assert!(contains("localhost"));
}

#[test]
fn created_identities_are_keyed_and_fresh() {
    let created = created_identity(Ok((vec![1, 2, 3, 4], vec![9])), PairVerdict::Fits).unwrap();
    assert!(created.fresh);
    assert_eq!(created.identity.public_key, "AQIDBA==");
    assert_eq!(created.identity.cert_der, [1, 2, 3, 4]);
    assert_eq!(created.identity.key_der, [9]);
    let misfit = created_identity(Ok((vec![1, 2, 3, 4], vec![9])), PairVerdict::Corrupt);
    assert_eq!(
        misfit.err().unwrap(),
        "failed to generate QUIC certificate: key does not fit the certificate"
    );
    let unread = created_identity(Ok((vec![1, 2, 3, 4], vec![9])), PairVerdict::Unread);
    assert_eq!(
        unread.err().unwrap(),
        "failed to generate QUIC certificate: key could not be read back"
    );
    let failed = created_identity(Err("no entropy".to_string()), PairVerdict::Corrupt);
    assert_eq!(failed.err().unwrap(), "failed to generate QUIC certificate: no entropy");
    assert!(fits_base64(3));
    assert!(!fits_base64(usize::MAX));
}

#[test]
fn advertised_keys_pin_their_certificate() {
    let identity = load_or_create_identity(None, None).unwrap().identity;
    let peer = PeerEndpoint {
        addr: "h:1".to_string(),
        public_key: identity.public_key.clone(),
        protocol_version: PROTOCOL_VERSION,
    };
    let verifier = client_config(&peer).unwrap();
    assert_eq!(verifier.pinned, identity.cert_der);
    assert!(verifier.verify_server_cert(&identity.cert_der).is_ok());
    assert_eq!(
        verifier.verify_server_cert(&identity.cert_der[1..]).err().unwrap(),
        "peer certificate does not match the pinned transport certificate"
    );
}

#[test]
fn bad_peers_are_turned_down() {
    let mut peer = endpoint("h:1");
    peer.public_key = "not base64!".to_string();
    let text = client_config(&peer).err().unwrap();
    assert!(text.starts_with("invalid peer transport public key: Invalid "));
    peer.protocol_version = 1;
    assert_eq!(
        client_config(&peer).err().unwrap(),
        "unsupported peer transport protocol version 1"
    );
    assert_eq!(
        pin_certificate(Err("short".to_string())).err().unwrap(),
        "invalid peer transport public key: short"
    );
    assert_eq!(pin_certificate(Ok(vec![5])).unwrap().pinned, [5]);
    assert_eq!(PROTOCOL_VERSION, 2);
}

#[test]
fn configurations_say_what_went_wrong() {
    assert_eq!(client_config_outcome(Ok(4)), Ok(4));
    let said = |failure| client_config_outcome::<u32>(Err(failure)).err().unwrap();
    assert_eq!(
        said(ConfigFailure::Crypto("e".to_string())),
        "failed to build QUIC client crypto: e"
    );
    assert_eq!(
        said(ConfigFailure::Config("e".to_string())),
        "failed to build QUIC client config: e"
    );
}

#[test]
fn connections_are_kept_alive_well_within_the_timeout() {
    let tuning = tuned_transport_config();
    assert_eq!(tuning.max_concurrent_bidi_streams, 64);
    assert_eq!(tuning.keep_alive_secs, 3);
    assert_eq!(tuning.max_idle_secs, 10);
}
