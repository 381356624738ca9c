use silver_network::validator_sync::{
    check_message_size, decode_envelope_frame, decode_message_frame, message_hash,
    message_type_from_network_message, summarize_broadcast, ConnectOutcome, ConnectionState,
    MessageEnvelope, NetworkMessage, SendOutcome, SendRetry, SyncError, ValidatorNetworkManager,
};
use silver_network::wire::frame_payload;

fn text(e: SyncError) -> String {
    match e {
        SyncError::InvalidData(s) => s,
    }
}

#[test]
fn frames_carry_a_big_endian_length() {
    let framed = frame_payload(&[1, 2, 3]);
    assert_eq!(framed, vec![0, 0, 0, 3, 1, 2, 3]);
    assert_eq!(decode_message_frame(&framed).unwrap(), vec![1, 2, 3]);
    assert_eq!(decode_envelope_frame(&framed).unwrap(), vec![1, 2, 3]);
    let long = vec![7u8; 300];
    let framed = frame_payload(&long);
    assert_eq!(&framed[..4], &[0, 0, 1, 44]);
    assert_eq!(decode_message_frame(&framed).unwrap(), long);
}

#[test]
fn short_and_incomplete_frames_are_refused() {
    assert_eq!(text(decode_message_frame(&[0, 0, 1]).unwrap_err()), "Message too short");
    assert_eq!(text(decode_message_frame(&[0, 0, 0, 5, 1]).unwrap_err()), "Incomplete message");
    assert_eq!(text(decode_envelope_frame(&[]).unwrap_err()), "Envelope too short");
    assert_eq!(text(decode_envelope_frame(&[0, 0, 0, 2, 1]).unwrap_err()), "Incomplete envelope");
}

#[test]
fn oversized_messages_are_refused() {
    assert!(check_message_size(10 * 1024 * 1024).is_ok());
    assert_eq!(
        text(check_message_size(10 * 1024 * 1024 + 1).unwrap_err()),
        "Message too large: 10485761 bytes (max 10MB)"
    );
}

#[test]
fn envelopes_are_sealed_with_sha256() {
    let hash = message_hash(b"abc");
    let hex: String = hash.iter().map(|b| format!("{:02x}", b)).collect();
    assert_eq!(hex, "ba7816bf8f01cfea414140de5dae2223b00361a396177a9cb410ff61f20015ad");
    let mut env = MessageEnvelope::new(3, b"abc".to_vec(), "127.0.0.1:9000".to_string(), 4).unwrap();
    assert_eq!(env.hash, hash);
    assert_eq!(env.sequence, 4);
    assert!(!env.compressed);
    assert!(env.verify_integrity());
    env.data.push(0);
    assert!(!env.verify_integrity());
}

#[test]
fn message_type_identifiers() {
    assert_eq!(message_type_from_network_message(&NetworkMessage::validator_set_change(vec![1])), 1);
    assert_eq!(message_type_from_network_message(&NetworkMessage::snapshot_certificate(vec![1], 9)), 2);
    assert_eq!(
        message_type_from_network_message(&NetworkMessage::transaction_batch(vec![1], vec![2], 3)),
        3
    );
    assert_eq!(message_type_from_network_message(&NetworkMessage::Ping { timestamp: 1, nonce: 2 }), 4);
    assert_eq!(message_type_from_network_message(&NetworkMessage::Pong { timestamp: 1, nonce: 2 }), 5);
    let hs = NetworkMessage::handshake(&vec![5, 5]);
    assert_eq!(message_type_from_network_message(&hs), 6);
    match hs {
        NetworkMessage::Handshake { validator_id, version, capabilities } => {
            assert_eq!(validator_id, vec![5, 5]);
            assert_eq!(version, 1);
            assert_eq!(capabilities, vec![1, 2, 3, 4, 5, 6, 7]);
        }
        _ => panic!("not a handshake"),
    }
    assert_eq!(
        message_type_from_network_message(&NetworkMessage::Ack { message_hash: vec![], sequence: 0 }),
        7
    );
}

#[test]
fn broadcast_summaries_add_up() {
    let outcomes = vec![
        SendOutcome::Delivered { latency_ms: 10, bytes_sent: 100 },
        SendOutcome::Failed("refused".to_string()),
        SendOutcome::Delivered { latency_ms: 31, bytes_sent: 50 },
    ];
    let r = summarize_broadcast(&outcomes, 3, 77);
    assert_eq!(r.total_peers, 3);
    assert_eq!(r.successful, 2);
    assert_eq!(r.failed, 1);
    assert_eq!(r.avg_latency_ms, 20);
    assert_eq!(r.min_latency_ms, 10);
    assert_eq!(r.max_latency_ms, 31);
    assert_eq!(r.total_bytes_sent, 150);
    assert_eq!(r.duration_ms, 77);
    let none = summarize_broadcast(&vec![SendOutcome::Failed("x".to_string())], 1, 5);
    assert_eq!(none.successful, 0);
    assert_eq!(none.avg_latency_ms, 0);
    assert_eq!(none.min_latency_ms, 0);
    assert_eq!(none.max_latency_ms, 0);
}

#[test]
fn retries_double_their_wait_up_to_five_seconds() {
    let mut r = SendRetry::new(3, 100);
    assert!(r.may_attempt());
    assert_eq!(r.after_failure(), Some(100));
    assert_eq!(r.after_failure(), Some(200));
    assert_eq!(r.after_failure(), None);
    assert!(!r.may_attempt());
    let mut r = SendRetry::new(10, 3000);
    assert_eq!(r.after_failure(), Some(3000));
    assert_eq!(r.after_failure(), Some(5000));
    assert_eq!(r.after_failure(), Some(5000));
}

#[test]
fn peers_are_added_once_and_removed_once() {
    let mut m = ValidatorNetworkManager::new("127.0.0.1:9000".to_string(), vec![1]);
    assert!(m.add_peer("10.0.0.1:9000").is_ok());
    assert_eq!(text(m.add_peer("10.0.0.1:9000").unwrap_err()), "Peer 10.0.0.1:9000 already exists");
    assert_eq!(m.get_peer_count(), 1);
    assert_eq!(m.get_stats().peer_count, 1);
    assert!(m.remove_peer("10.0.0.1:9000").is_ok());
    assert_eq!(text(m.remove_peer("10.0.0.1:9000").unwrap_err()), "Peer 10.0.0.1:9000 not found");
    assert_eq!(m.get_peer_count(), 0);
    assert_eq!(m.get_stats().peer_count, 0);
}

#[test]
fn connecting_records_the_handshake() {
    let mut m = ValidatorNetworkManager::default();
    m.add_peer("10.0.0.2:9000").unwrap();
    m.begin_connect("10.0.0.2:9000").unwrap();
    assert_eq!(m.get_peer_info("10.0.0.2:9000").unwrap().state, ConnectionState::Connecting);
    let reply = ConnectOutcome::HandshakeReply { validator_id: vec![8], version: 1, capabilities: vec![1, 2] };
    assert!(m.finish_connect("10.0.0.2:9000", reply).is_ok());
    let info = m.get_peer_info("10.0.0.2:9000").unwrap();
    assert_eq!(info.state, ConnectionState::Connected);
    assert_eq!(info.validator_id, Some(vec![8]));
    assert_eq!(info.capabilities, vec![1, 2]);
    assert_eq!(m.get_connected_peer_count(), 1);
    assert_eq!(m.connected_peer_addresses(), vec!["10.0.0.2:9000".to_string()]);
    assert_eq!(m.get_stats().connected_peer_count, 1);
}

#[test]
fn failed_connections_are_counted_and_retried() {
    let mut m = ValidatorNetworkManager::new("127.0.0.1:9000".to_string(), vec![1]);
    m.add_peer("10.0.0.3:9000").unwrap();
    let r = m.finish_connect("10.0.0.3:9000", ConnectOutcome::ConnectFailed("refused".to_string()));
    assert_eq!(text(r.unwrap_err()), "Failed to connect to peer: refused");
    let info = m.get_peer_info("10.0.0.3:9000").unwrap();
    assert_eq!(info.state, ConnectionState::Failed);
    assert_eq!(info.failed_attempts, 1);
    assert_eq!(info.last_error, Some("Connection failed: refused".to_string()));
    assert_eq!(m.get_stats().connection_failures, 1);
    assert_eq!(m.reconnect_candidates(), vec!["10.0.0.3:9000".to_string()]);
    let r = m.finish_connect("10.0.0.3:9000", ConnectOutcome::ConnectTimeout);
    assert_eq!(text(r.unwrap_err()), "Connection timeout");
    assert_eq!(m.get_peer_info("10.0.0.3:9000").unwrap().failed_attempts, 2);
    assert_eq!(text(m.get_peer_info("nowhere").unwrap_err()), "Peer nowhere not found");
}

#[test]
fn sequence_numbers_count_up() {
    let mut m = ValidatorNetworkManager::new("127.0.0.1:9000".to_string(), vec![1]);
    assert_eq!(m.take_sequence_number(), 0);
    assert_eq!(m.take_sequence_number(), 1);
    assert_eq!(m.take_sequence_number(), 2);
}

#[test]
fn health_and_staleness_follow_the_silences() {
    let five_minutes: u128 = 300_000_000_000;
    let mut m = ValidatorNetworkManager::new("127.0.0.1:9000".to_string(), vec![1]);
    for a in ["10.0.0.1:1", "10.0.0.2:2", "10.0.0.3:3"] {
        m.add_peer(a).unwrap();
    }
    let reply = || ConnectOutcome::HandshakeReply { validator_id: vec![1], version: 1, capabilities: vec![] };
    m.finish_connect("10.0.0.1:1", reply()).unwrap();
    m.finish_connect("10.0.0.2:2", reply()).unwrap();
    // silences in table order
    let silence_of = |a: &str| match a {
        "10.0.0.1:1" => five_minutes,
        "10.0.0.2:2" => five_minutes + 1,
        _ => 0,
    };
    let silences: Vec<u128> = m.get_all_peers().iter().map(|p| silence_of(&p.address)).collect();
    assert_eq!(m.healthy_count_after(&silences), 1);
    let healthy = m.healthy_peers_after(&silences);
    assert_eq!(healthy.len(), 1);
    assert_eq!(healthy[0].address, "10.0.0.1:1");
    let info = m.get_peer_info("10.0.0.1:1").unwrap();
    assert!(info.is_healthy_after(five_minutes));
    assert!(!info.is_healthy_after(five_minutes + 1));
    assert!(!m.get_peer_info("10.0.0.3:3").unwrap().is_healthy_after(0));
    assert_eq!(m.get_healthy_peer_count(), 2);
    assert_eq!(m.cleanup_stale_peers(), 0);
    assert_eq!(m.cleanup_stale_peers_after(&silences), 1);
    assert!(m.get_peer_info("10.0.0.2:2").is_err());
    assert_eq!(m.get_peer_count(), 2);
    assert_eq!(m.get_stats().peer_count, 2);
}
