use wormhole_transfer::event::Event;
use wormhole_transfer::receiver::{ReceiveOutcome, ReceivePhase, ReceiveSession};
use wormhole_transfer::sender::{FilePayload, SendOutcome, SendPhase, SendSession};
use wormhole_transfer::{TransferDescriptor, WormholeConfig};

/// Drives a full send session against a simulated collaborator that issues
/// the given code and reports each `(current, total)` pair, returning the
/// emitted events and the outcome.
fn run_send(
    name: &str,
    data: Vec<u8>,
    issued_code: &str,
    progress_reports: &[(u64, u64)],
) -> (Vec<Event>, SendOutcome) {
    let mut events: Vec<Event> = Vec::new();
    let mut s = SendSession::new(Some(FilePayload {
        name: String::from(name),
        data,
    }));
    s.start();
    if let Some(e) = s.on_rendezvous(Ok(String::from(issued_code))) {
        events.push(e);
    }
    s.on_peer(Ok(()));
    events.push(s.on_connected());
    for &(cur, total) in progress_reports {
        events.push(s.on_progress(cur, total));
    }
    let out = s.on_send_done(Ok(()));
    (events, out)
}

/// Drives a full receive session against a simulated collaborator that
/// offers the given file and finally delivers the given bytes.
fn run_receive(
    pairing_code: &str,
    welcome: Option<String>,
    offer: TransferDescriptor,
    progress_reports: &[(u64, u64)],
    delivered: Vec<u8>,
) -> (Vec<Event>, ReceiveOutcome) {
    let mut events: Vec<Event> = Vec::new();
    let mut r = ReceiveSession::new(String::from(pairing_code));
    r.start();
    if let Some(e) = r.on_rendezvous(Ok(welcome)) {
        events.push(e);
    }
    if let Some(e) = r.on_offer(Ok(Some(offer))) {
        events.push(e);
    }
    events.push(r.on_connected());
    for &(cur, total) in progress_reports {
        events.push(r.on_progress(cur, total));
    }
    let out = r.on_stream_done(Ok(delivered));
    (events, out)
}

#[test]
fn send_scenario_ten_byte_file() {
    let data: Vec<u8> = vec![0, 1, 2, 3, 4, 5, 6, 7, 8, 9];
    let (events, out) = run_send("a.txt", data, "7-guitar-hamster", &[(4, 10), (10, 10)]);
    assert_eq!(events.len(), 4);
    match &events[0] {
        Event::Code { code } => assert_eq!(code, "7-guitar-hamster"),
        _ => panic!("first event must be the pairing code"),
    }
    assert!(matches!(events[1], Event::ConnectedToRelay));
    match &events[2] {
        Event::Progress { current, total } => {
            assert_eq!(*current, 4);
            assert_eq!(*total, 10);
        }
        _ => panic!("expected a progress event"),
    }
    match &events[3] {
        Event::Progress { current, total } => {
            assert_eq!(*current, 10);
            assert_eq!(*total, 10);
        }
        _ => panic!("expected the final progress event"),
    }
    assert!(matches!(out, SendOutcome::Completed));
}

#[test]
fn receive_scenario_ten_byte_file() {
    let data: Vec<u8> = vec![0, 1, 2, 3, 4, 5, 6, 7, 8, 9];
    let (events, out) = run_receive(
        "7-guitar-hamster",
        None,
        TransferDescriptor {
            file_name: String::from("a.txt"),
            file_size: 10,
        },
        &[(10, 10)],
        data.clone(),
    );
    assert_eq!(events.len(), 4);
    match &events[0] {
        Event::ServerWelcome { message } => assert_eq!(message, ""),
        _ => panic!("first event must be the server welcome"),
    }
    match &events[1] {
        Event::FileMetadata { file_name, file_size } => {
            assert_eq!(file_name, "a.txt");
            assert_eq!(*file_size, 10);
        }
        _ => panic!("second event must be the file metadata"),
    }
    assert!(matches!(events[2], Event::ConnectedToRelay));
    match &events[3] {
        Event::Progress { current, total } => {
            assert_eq!(*current, 10);
            assert_eq!(*total, 10);
        }
        _ => panic!("expected the final progress event"),
    }
    match out {
        ReceiveOutcome::Completed(res) => {
            assert_eq!(res.data, data);
            assert_eq!(res.filename, "a.txt");
            assert_eq!(res.filesize, 10);
        }
        _ => panic!("expected a completed receive"),
    }
}

#[test]
fn round_trip_bytes_name_and_size() {
    // A simulated rendezvous+transit collaborator pair: the offer the
    // receiver sees and the bytes it is handed are exactly the sender's.
    let payload: Vec<u8> = b"hello wormhole".to_vec();
    let sender_name = "notes.txt";
    let (send_events, send_out) = run_send(
        sender_name,
        payload.clone(),
        "4-purple-sausages",
        &[(14, 14)],
    );
    assert!(matches!(send_out, SendOutcome::Completed));
    assert_eq!(send_events.len(), 3);

    let offer = TransferDescriptor {
        file_name: String::from(sender_name),
        file_size: payload.len() as u64,
    };
    let (_recv_events, recv_out) = run_receive(
        "4-purple-sausages",
        Some(String::from("welcome!")),
        offer,
        &[(14, 14)],
        payload.clone(),
    );
    match recv_out {
        ReceiveOutcome::Completed(res) => {
            assert_eq!(res.data, payload);
            assert_eq!(res.filename, sender_name);
            assert_eq!(res.filesize, payload.len() as u64);
        }
        _ => panic!("expected a completed receive"),
    }
}

#[test]
fn empty_selection_fails_immediately_with_zero_events() {
    let mut s = SendSession::new(None);
    assert_eq!(s.phase, SendPhase::Failed);
    match s.outcome() {
        SendOutcome::Failed(m) => assert_eq!(m, "no file selected"),
        _ => panic!("an empty selection must fail"),
    }
    // Resolving cancellation afterwards changes nothing.
    s.cancel();
    assert_eq!(s.phase, SendPhase::Failed);
}

#[test]
fn unknown_code_fails_before_any_welcome_event() {
    let mut r = ReceiveSession::new(String::from("99-bogus-code"));
    r.start();
    let ev = r.on_rendezvous(Err(String::from("unknown nameplate")));
    assert!(ev.is_none());
    assert_eq!(r.phase, ReceivePhase::Failed);
    match r.outcome() {
        ReceiveOutcome::Failed(m) => assert_eq!(m, "error code: unknown nameplate"),
        _ => panic!("an unknown code must fail"),
    }
}

#[test]
fn missing_offer_fails_with_an_empty_message() {
    let mut r = ReceiveSession::new(String::from("5-some-code"));
    r.start();
    let _ = r.on_rendezvous(Ok(None));
    let ev = r.on_offer(Ok(None));
    assert!(ev.is_none());
    assert_eq!(r.phase, ReceivePhase::Failed);
    match r.outcome() {
        ReceiveOutcome::Failed(m) => assert_eq!(m, ""),
        _ => panic!("a missing offer must fail"),
    }
}

#[test]
fn sender_rendezvous_failure_is_projected() {
    let mut s = SendSession::new(Some(FilePayload {
        name: String::from("a.txt"),
        data: vec![1, 2, 3],
    }));
    s.start();
    let ev = s.on_rendezvous(Err(String::from("rendezvous down")));
    assert!(ev.is_none());
    match s.outcome() {
        SendOutcome::Failed(m) => assert_eq!(m, "error code: rendezvous down"),
        _ => panic!("a rendezvous failure must fail the session"),
    }
}

#[test]
fn sender_peer_wait_failure_is_projected() {
    let mut s = SendSession::new(Some(FilePayload {
        name: String::from("a.txt"),
        data: vec![1, 2, 3],
    }));
    s.start();
    let _ = s.on_rendezvous(Ok(String::from("1-one-two")));
    s.on_peer(Err(String::from("pake failed")));
    match s.outcome() {
        SendOutcome::Failed(m) => assert_eq!(m, "error code: pake failed"),
        _ => panic!("a peer-wait failure must fail the session"),
    }
}

#[test]
fn transit_failure_after_connection_is_projected() {
    let mut s = SendSession::new(Some(FilePayload {
        name: String::from("a.txt"),
        data: vec![1, 2, 3],
    }));
    s.start();
    let _ = s.on_rendezvous(Ok(String::from("1-one-two")));
    s.on_peer(Ok(()));
    let _ = s.on_connected();
    let out = s.on_send_done(Err(String::from("relay closed")));
    match out {
        SendOutcome::Failed(m) => assert_eq!(m, "error code: relay closed"),
        _ => panic!("a transit failure must fail the session"),
    }
}

#[test]
fn receiver_stream_failure_is_projected() {
    let mut r = ReceiveSession::new(String::from("5-some-code"));
    r.start();
    let _ = r.on_rendezvous(Ok(Some(String::from("hello"))));
    let _ = r.on_offer(Ok(Some(TransferDescriptor {
        file_name: String::from("a.txt"),
        file_size: 3,
    })));
    let _ = r.on_connected();
    let out = r.on_stream_done(Err(String::from("connection reset")));
    match out {
        ReceiveOutcome::Failed(m) => assert_eq!(m, "error code: connection reset"),
        _ => panic!("a stream failure must fail the session"),
    }
}

#[test]
fn cancel_before_transit_yields_cancelled_and_no_relay_events() {
    let mut s = SendSession::new(Some(FilePayload {
        name: String::from("a.txt"),
        data: vec![1, 2, 3],
    }));
    s.start();
    let ev = s.on_rendezvous(Ok(String::from("7-guitar-hamster")));
    assert!(matches!(ev, Some(Event::Code { .. })));
    // The cancellation token resolves while awaiting the peer: the only
    // event ever emitted was the pairing code.
    s.cancel();
    assert_eq!(s.phase, SendPhase::Cancelled);
    assert!(matches!(s.outcome(), SendOutcome::Cancelled));

    let mut r = ReceiveSession::new(String::from("7-guitar-hamster"));
    r.start();
    let _ = r.on_rendezvous(Ok(None));
    r.cancel();
    assert_eq!(r.phase, ReceivePhase::Cancelled);
    assert!(matches!(r.outcome(), ReceiveOutcome::Cancelled));
}

#[test]
fn cancel_after_completion_has_no_effect() {
    let data: Vec<u8> = vec![7; 5];
    let mut s = SendSession::new(Some(FilePayload {
        name: String::from("a.txt"),
        data,
    }));
    s.start();
    let _ = s.on_rendezvous(Ok(String::from("2-aardvark-banana")));
    s.on_peer(Ok(()));
    let _ = s.on_connected();
    let _ = s.on_progress(5, 5);
    let out = s.on_send_done(Ok(()));
    assert!(matches!(out, SendOutcome::Completed));
    s.cancel();
    assert_eq!(s.phase, SendPhase::Completed);
    assert!(matches!(s.outcome(), SendOutcome::Completed));
}

#[test]
fn config_is_reusable_across_independent_sessions() {
    let config = WormholeConfig::new(
        String::from("ws://relay.example/v1"),
        String::from("ws://transit.example/relay"),
    );

    // Two send/receive pairs in sequence, both under the same config value.
    let first: Vec<u8> = vec![1, 2, 3];
    let (e1, o1) = run_send("first.bin", first.clone(), "1-alpha-beta", &[(3, 3)]);
    let (_, r1) = run_receive(
        "1-alpha-beta",
        None,
        TransferDescriptor {
            file_name: String::from("first.bin"),
            file_size: 3,
        },
        &[(3, 3)],
        first.clone(),
    );

    let second: Vec<u8> = vec![9, 9, 9, 9];
    let (e2, o2) = run_send("second.bin", second.clone(), "2-gamma-delta", &[(4, 4)]);
    let (_, r2) = run_receive(
        "2-gamma-delta",
        None,
        TransferDescriptor {
            file_name: String::from("second.bin"),
            file_size: 4,
        },
        &[(4, 4)],
        second.clone(),
    );

    // Each stream reports its own session only.
    assert!(matches!(o1, SendOutcome::Completed));
    assert!(matches!(o2, SendOutcome::Completed));
    match (&e1[0], &e2[0]) {
        (Event::Code { code: c1 }, Event::Code { code: c2 }) => {
            assert_eq!(c1, "1-alpha-beta");
            assert_eq!(c2, "2-gamma-delta");
        }
        _ => panic!("both sessions must first emit their own code"),
    }
    match (r1, r2) {
        (ReceiveOutcome::Completed(a), ReceiveOutcome::Completed(b)) => {
            assert_eq!(a.data, first);
            assert_eq!(b.data, second);
        }
        _ => panic!("both receives must complete"),
    }
    // The config itself is untouched.
    assert_eq!(config.rendezvous_url, "ws://relay.example/v1");
    assert_eq!(config.relay_url, "ws://transit.example/relay");
}

#[test]
fn progress_totals_are_constant_within_a_session() {
    let data: Vec<u8> = vec![0; 100];
    let (events, _) = run_send(
        "big.bin",
        data,
        "3-epsilon-zeta",
        &[(0, 100), (37, 100), (99, 100), (100, 100)],
    );
    let mut totals: Vec<u64> = Vec::new();
    let mut currents: Vec<u64> = Vec::new();
    for e in &events {
        if let Event::Progress { current, total } = e {
            assert!(current <= total);
            totals.push(*total);
            currents.push(*current);
        }
    }
    assert_eq!(totals, vec![100, 100, 100, 100]);
    assert_eq!(currents, vec![0, 37, 99, 100]);
}
