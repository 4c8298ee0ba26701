use nostr_rest_api::message::{Draft, Identity, Message};
use nostr_rest_api::pool::{aggregate_success, PublishOutcome, RelayOutcome, RelayPool};
use nostr_rest_api::publisher::{validate_content, EventPublisher, PublishError};
use nostr_rest_api::relay::{
    classify_send, transition, ConnEvent, ConnState, ConnectError, RelayConnection, RelayResult,
    SendReport,
};

fn identity(byte: u8) -> Identity {
    Identity::from_secret(vec![byte; 32]).expect("a valid secret key")
}

fn pool_of(urls: &[&str]) -> RelayPool {
    let mut pool = RelayPool::new();
    for url in urls {
        assert!(pool.add(url));
    }
    pool
}

/// A publisher whose relays connected (`true`) or failed to (`false`).
fn publisher_with(reachable: &[bool]) -> EventPublisher {
    let urls: Vec<String> = (0..reachable.len()).map(|i| format!("wss://relay{}.example", i)).collect();
    let refs: Vec<&str> = urls.iter().map(|s| s.as_str()).collect();
    let mut pool = pool_of(&refs);
    let attempt = pool.begin_connect_all();
    assert_eq!(attempt, vec![true; reachable.len()]);
    for (i, ok) in reachable.iter().enumerate() {
        let outcome = if *ok { Ok(()) } else { Err(ConnectError::Unreachable) };
        pool.finish_connect(i, &outcome);
    }
    EventPublisher::new(identity(1), pool)
}

fn results(outcome: &PublishOutcome) -> Vec<RelayResult> {
    outcome.entries.iter().map(|e| e.result.clone()).collect()
}

#[test]
fn three_relays_two_reachable() {
    let mut publisher = publisher_with(&[true, true, false]);
    let message = publisher.prepare("hello", 1, vec![], 1_700_000_000).expect("prepared");
    assert!(message.verify());
    assert_eq!(publisher.pool.send_targets(), vec![true, true, false]);
    let reports = vec![Some(SendReport::Acked), None, Some(SendReport::Acked)];
    let outcome = publisher.complete(&reports);
    assert_eq!(outcome.len(), 3);
    assert_eq!(
        results(&outcome),
        vec![RelayResult::Sent, RelayResult::TimedOut, RelayResult::Unreachable]
    );
    let attempted: Vec<bool> = outcome.entries.iter().map(|e| e.attempted).collect();
    assert_eq!(attempted, vec![true, true, false]);
    assert!(outcome.is_success());
}

#[test]
fn three_relays_two_reachable_none_acknowledges() {
    let mut publisher = publisher_with(&[true, false, true]);
    let reports = vec![Some(SendReport::NoAck), None, None];
    let outcome = publisher.complete(&reports);
    assert_eq!(
        results(&outcome),
        vec![RelayResult::TimedOut, RelayResult::Unreachable, RelayResult::TimedOut]
    );
    assert!(!outcome.is_success());
}

#[test]
fn no_reachable_relay() {
    let mut publisher = publisher_with(&[false, false, false]);
    let message = publisher.prepare("hello", 1, vec![], 1_700_000_000).expect("prepared");
    assert!(message.verify());
    assert_eq!(publisher.pool.send_targets(), vec![false, false, false]);
    let outcome = publisher.complete(&vec![None, None, None]);
    assert_eq!(results(&outcome), vec![RelayResult::Unreachable; 3]);
    assert!(outcome.entries.iter().all(|e| !e.attempted));
    assert!(!outcome.is_success());
}

#[test]
fn empty_content_is_rejected_before_anything_else() {
    let publisher = publisher_with(&[true, false]);
    let states_before: Vec<ConnState> = (0..2).map(|i| publisher.pool.state_at(i)).collect();
    let r = publisher.prepare("", 1, vec![], 1_700_000_000);
    assert!(matches!(r, Err(PublishError::EmptyContent)));
    let states_after: Vec<ConnState> = (0..2).map(|i| publisher.pool.state_at(i)).collect();
    assert_eq!(states_before, states_after);
    assert_eq!(validate_content(""), Err(PublishError::EmptyContent));
    assert_eq!(validate_content("x"), Ok(()));
}

#[test]
fn unparsable_tag_is_invalid_fields() {
    let publisher = publisher_with(&[true]);
    let bad = vec![vec!["p".to_string(), "not-a-key".to_string()]];
    assert!(matches!(publisher.prepare("hello", 1, bad, 5), Err(PublishError::InvalidFields)));
    let empty_tag: Vec<Vec<String>> = vec![vec![]];
    assert!(matches!(publisher.prepare("hello", 1, empty_tag, 5), Err(PublishError::InvalidFields)));
}

#[test]
fn message_fields_are_kept() {
    let publisher = publisher_with(&[true]);
    let tags = vec![vec!["t".to_string(), "nostr".to_string()]];
    let m = publisher.prepare("hello", 1, tags.clone(), 42).expect("prepared");
    assert_eq!(m.author, identity(1).public_key());
    assert_eq!(m.created_at, 42);
    assert_eq!(m.kind, 1);
    assert_eq!(m.tags, tags);
    assert_eq!(m.content, "hello");
    assert_eq!(m.id.len(), 32);
    assert_eq!(m.sig.len(), 64);
    assert!(m.verify());
}

fn draft(content: &str, created_at: u64) -> Draft {
    Draft {
        author: identity(1).public_key(),
        created_at,
        kind: 1,
        tags: vec![vec!["t".to_string(), "x".to_string()]],
        content: content.to_string(),
    }
}

#[test]
fn identifier_is_deterministic() {
    let a = draft("hello", 10).compute_id().expect("id");
    let b = draft("hello", 10).compute_id().expect("id");
    assert_eq!(a, b);
    assert_eq!(a.len(), 32);
    assert_ne!(a, draft("hello!", 10).compute_id().expect("id"));
    assert_ne!(a, draft("hello", 11).compute_id().expect("id"));
}

#[test]
fn identifier_is_the_protocol_digest() {
    // The secret 0x0101..01 has x-only public key 1b84..078f; the identifier
    // is the SHA-256 of
    // [0,"1b84c5567b126440995d3ed5aaba0565d71e1834604819ff9c17f5e9d5dd078f",0,1,[["t","x"]],""].
    let d = draft("", 0);
    assert_eq!(
        hex(&d.author),
        "1b84c5567b126440995d3ed5aaba0565d71e1834604819ff9c17f5e9d5dd078f"
    );
    let id = d.compute_id().expect("id");
    assert_eq!(hex(&id), "5a5cb4a10faad24d1a9958ef2425e7128c9b0c56f8a101b71aaa14a6355bf19a");
}

fn hex(bytes: &[u8]) -> String {
    bytes.iter().map(|b| format!("{:02x}", b)).collect()
}

#[test]
fn identifier_needs_a_public_key_author() {
    let mut d = draft("hello", 1);
    d.author = vec![0u8; 31];
    assert!(d.compute_id().is_none());
}

#[test]
fn signature_verifies_only_under_its_author() {
    let publisher = publisher_with(&[true]);
    let m = publisher.prepare("hello", 1, vec![], 7).expect("prepared");
    assert!(m.verify());

    let other = identity(2);
    assert_ne!(other.public_key(), m.author);
    let forged = Message { author: other.public_key(), ..clone_message(&m) };
    assert!(!forged.verify());

    let mut tampered = clone_message(&m);
    tampered.content = "hullo".to_string();
    assert!(!tampered.verify());

    let mut bad_sig = clone_message(&m);
    bad_sig.sig[0] ^= 1;
    assert!(!bad_sig.verify());
}

fn clone_message(m: &Message) -> Message {
    Message {
        id: m.id.clone(),
        author: m.author.clone(),
        created_at: m.created_at,
        kind: m.kind,
        tags: m.tags.clone(),
        content: m.content.clone(),
        sig: m.sig.clone(),
    }
}

#[test]
fn identity_from_invalid_secret() {
    assert!(Identity::from_secret(vec![0u8; 32]).is_none());
    assert!(Identity::from_secret(vec![1u8; 31]).is_none());
    let a = identity(1);
    assert_eq!(a.public_key().len(), 32);
    assert_eq!(a.public_key(), identity(1).public_key());
    assert_ne!(a.public_key(), vec![1u8; 32]);
    assert_eq!(a.sign(&vec![9u8; 32]).expect("signature").len(), 64);
    assert!(a.sign(&vec![9u8; 31]).is_none());
}

#[test]
fn aggregate_success_needs_one_sent() {
    let entry = |result: RelayResult| RelayOutcome { url: "wss://r".to_string(), result, attempted: true };
    assert!(!aggregate_success(&vec![]));
    assert!(!aggregate_success(&vec![
        entry(RelayResult::Unreachable),
        entry(RelayResult::Rejected("blocked".to_string())),
        entry(RelayResult::TimedOut),
    ]));
    assert!(aggregate_success(&vec![entry(RelayResult::TimedOut), entry(RelayResult::Sent)]));
}

#[test]
fn timeout_on_one_relay_leaves_siblings_alone() {
    let mut a = publisher_with(&[true, true, true]);
    let mut b = publisher_with(&[true, true, true]);
    let acked = a.complete(&vec![
        Some(SendReport::Acked),
        Some(SendReport::Acked),
        Some(SendReport::Rejected("pow required".to_string())),
    ]);
    let timed = b.complete(&vec![
        Some(SendReport::Acked),
        None,
        Some(SendReport::Rejected("pow required".to_string())),
    ]);
    assert_eq!(
        results(&acked),
        vec![RelayResult::Sent, RelayResult::Sent, RelayResult::Rejected("pow required".to_string())]
    );
    assert_eq!(
        results(&timed),
        vec![RelayResult::Sent, RelayResult::TimedOut, RelayResult::Rejected("pow required".to_string())]
    );
    assert_eq!(b.pool.state_at(1), ConnState::Connected);
}

#[test]
fn transport_failure_marks_relay_failed_and_reconnect_is_offered() {
    let mut p = publisher_with(&[true, true]);
    let outcome = p.complete(&vec![Some(SendReport::TransportFailed), Some(SendReport::Acked)]);
    assert_eq!(results(&outcome), vec![RelayResult::Unreachable, RelayResult::Sent]);
    assert_eq!(p.pool.state_at(0), ConnState::Failed);
    assert_eq!(p.pool.state_at(1), ConnState::Connected);
    assert_eq!(p.pool.begin_connect_all(), vec![true, false]);
    assert_eq!(p.pool.state_at(0), ConnState::Connecting);
    assert_eq!(p.pool.send_targets(), vec![false, true]);
}

#[test]
fn many_publishes_keep_the_endpoints() {
    let mut p = publisher_with(&[true, false, true]);
    let urls: Vec<String> = (0..3).map(|i| p.pool.url_at(i).clone()).collect();
    for round in 0..20 {
        let r = if round % 2 == 0 { Some(SendReport::Acked) } else { Some(SendReport::TransportFailed) };
        p.complete(&vec![r.clone(), r.clone(), None]);
        assert_eq!(p.pool.len(), 3);
        let now: Vec<String> = (0..3).map(|i| p.pool.url_at(i).clone()).collect();
        assert_eq!(now, urls);
        p.pool.begin_connect_all();
        for i in 0..3 {
            p.pool.finish_connect(i, &Ok(()));
        }
    }
}

#[test]
fn endpoints_are_case_normalized_and_unique() {
    let mut pool = RelayPool::new();
    assert!(pool.add("WSS://Relay.Example.COM"));
    assert_eq!(pool.url_at(0), "wss://relay.example.com");
    assert!(!pool.add("wss://relay.example.com"));
    assert!(!pool.add("wss://RELAY.example.com"));
    assert!(pool.add("wss://other.example"));
    assert_eq!(pool.len(), 2);
    assert!(pool.contains(&"wss://other.example".to_string()));
    assert!(!pool.contains(&"wss://nowhere.example".to_string()));
    assert_eq!(pool.state_at(0), ConnState::Disconnected);
}

#[test]
fn close_all_is_terminal() {
    let mut pool = pool_of(&["wss://a", "wss://b"]);
    pool.begin_connect_all();
    pool.finish_connect(0, &Ok(()));
    pool.finish_connect(1, &Err(ConnectError::Timeout));
    pool.close_all();
    assert_eq!(pool.state_at(0), ConnState::Closed);
    assert_eq!(pool.state_at(1), ConnState::Closed);
    assert_eq!(pool.begin_connect_all(), vec![false, false]);
    assert_eq!(pool.state_at(0), ConnState::Closed);
}

#[test]
fn state_machine_transitions() {
    assert_eq!(transition(ConnState::Disconnected, ConnEvent::ConnectRequested), ConnState::Connecting);
    assert_eq!(transition(ConnState::Connecting, ConnEvent::HandshakeSucceeded), ConnState::Connected);
    assert_eq!(transition(ConnState::Connecting, ConnEvent::HandshakeFailed), ConnState::Failed);
    assert_eq!(transition(ConnState::Connected, ConnEvent::TransportError), ConnState::Failed);
    assert_eq!(transition(ConnState::Failed, ConnEvent::ConnectRequested), ConnState::Connecting);
    assert_eq!(transition(ConnState::Connected, ConnEvent::Shutdown), ConnState::Closed);
    assert_eq!(transition(ConnState::Closed, ConnEvent::ConnectRequested), ConnState::Closed);
    assert_eq!(transition(ConnState::Connected, ConnEvent::ConnectRequested), ConnState::Connected);
}

#[test]
fn relay_connection_records_sends() {
    let mut rc = RelayConnection::new("wss://a".to_string());
    assert_eq!(rc.state(), ConnState::Disconnected);
    assert_eq!(rc.record_send(&Some(SendReport::Acked)), RelayResult::Unreachable);
    rc.apply(ConnEvent::ConnectRequested);
    rc.finish_connect(&Ok(()));
    assert_eq!(rc.state(), ConnState::Connected);
    assert_eq!(
        rc.record_send(&Some(SendReport::Rejected("dup".to_string()))),
        RelayResult::Rejected("dup".to_string())
    );
    assert_eq!(rc.record_send(&Some(SendReport::NoAck)), RelayResult::TimedOut);
    assert_eq!(rc.state(), ConnState::Connected);
    assert_eq!(rc.record_send(&Some(SendReport::TransportFailed)), RelayResult::Unreachable);
    assert_eq!(rc.state(), ConnState::Failed);
    assert_eq!(rc.url(), "wss://a");
    assert_eq!(classify_send(ConnState::Connected, &None), RelayResult::TimedOut);
}
