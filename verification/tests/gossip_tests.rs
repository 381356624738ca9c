use silver_network::gossip::topics::{BATCHES, MINER_SHARES, TRANSACTIONS, WORK_PACKAGES};
use silver_network::gossip::{topic_for, GossipProtocol, MAX_GOSSIP_MESSAGE_SIZE};
use silver_network::message::MessageType;
use silver_network::NetworkError;

fn invalid_message_text(r: Result<(), NetworkError>) -> String {
    match r {
        Err(NetworkError::InvalidMessage(s)) => s,
        other => panic!("expected an invalid message error, got {:?}", other),
    }
}

#[test]
fn subscribing_twice_keeps_one_topic() {
    let mut g = GossipProtocol::new();
    assert!(g.subscribe("blocks").is_ok());
    assert!(g.subscribe("blocks").is_ok());
    assert!(g.subscribe("txs").is_ok());
    assert_eq!(g.subscribed_topics(), vec!["blocks".to_string(), "txs".to_string()]);
    let info = g.get_topic_info("blocks").expect("subscribed");
    assert_eq!(info.name, "blocks");
    assert_eq!(info.hash, "blocks");
    assert_eq!(info.messages_sent, 0);
    assert_eq!(info.messages_received, 0);
}

#[test]
fn unsubscribing_an_unknown_topic_is_refused() {
    let mut g = GossipProtocol::default();
    assert_eq!(invalid_message_text(g.unsubscribe("nope")), "Not subscribed to topic: nope");
    g.subscribe("a").unwrap();
    assert!(g.unsubscribe("a").is_ok());
    assert!(g.get_topic_info("a").is_none());
    assert!(g.subscribed_topics().is_empty());
}

#[test]
fn preparing_a_message_counts_it() {
    let mut g = GossipProtocol::new();
    match g.prepare_message("t", vec![1, 2, 3]) {
        Err(NetworkError::InvalidMessage(s)) => assert_eq!(s, "Not subscribed to topic: t"),
        other => panic!("unexpected {:?}", other),
    }
    g.subscribe("t").unwrap();
    let data = g.prepare_message("t", vec![1, 2, 3]).expect("accepted");
    assert_eq!(data, vec![1, 2, 3]);
    assert_eq!(g.get_topic_info("t").unwrap().messages_sent, 1);
    let stats = g.stats();
    assert_eq!(stats.total_sent, 1);
    assert_eq!(stats.total_bytes_sent, 3);
}

#[test]
fn preparing_an_oversized_message_is_refused() {
    let mut g = GossipProtocol::new();
    g.subscribe("t").unwrap();
    let big = vec![0u8; MAX_GOSSIP_MESSAGE_SIZE + 1];
    match g.prepare_message("t", big) {
        Err(NetworkError::MessageTooLarge(n, max)) => {
            assert_eq!(n, 10 * 1024 * 1024 + 1);
            assert_eq!(max, 10 * 1024 * 1024);
        }
        other => panic!("unexpected {:?}", other.map(|d| d.len())),
    }
    assert_eq!(g.stats().total_sent, 0);
    let exact = vec![0u8; MAX_GOSSIP_MESSAGE_SIZE];
    assert!(g.prepare_message("t", exact).is_ok());
}

#[test]
fn a_received_message_is_delivered_once() {
    let mut g = GossipProtocol::new();
    g.subscribe("t").unwrap();
    let first = g.handle_received_message(vec![7], "t", vec![1, 2]);
    assert_eq!(first, Some(vec![1, 2]));
    let second = g.handle_received_message(vec![7], "t", vec![1, 2]);
    assert_eq!(second, None);
    let stats = g.stats();
    assert_eq!(stats.total_received, 1);
    assert_eq!(stats.total_bytes_received, 2);
    assert_eq!(stats.total_deduplicated, 1);
    assert_eq!(g.cache_size(), 1);
    assert_eq!(g.get_topic_info("t").unwrap().messages_received, 1);
    g.clear_cache();
    assert_eq!(g.cache_size(), 0);
    assert_eq!(g.handle_received_message(vec![7], "t", vec![1, 2]), Some(vec![1, 2]));
}

#[test]
fn a_full_cache_evicts_the_oldest_tenth() {
    let mut g = GossipProtocol::with_config(10, 120_000);
    for i in 0..10u8 {
        assert!(g.handle_received_message_at(vec![i], "t", vec![i], i as u128).is_some());
    }
    assert_eq!(g.cache_size(), 10);
    assert!(g.handle_received_message_at(vec![100], "t", vec![0], 10).is_some());
    assert_eq!(g.cache_size(), 10);
    // the oldest message left the cache, the next oldest did not
    assert!(g.handle_received_message_at(vec![1], "t", vec![1], 11).is_none());
    assert!(g.handle_received_message_at(vec![0], "t", vec![0], 12).is_some());
    assert_eq!(g.cache_size(), 10);
}

#[test]
fn a_full_cache_drops_stale_messages_first() {
    // one millisecond to live
    let mut g = GossipProtocol::with_config(10, 1);
    for i in 0..10u8 {
        assert!(g.handle_received_message_at(vec![i], "t", vec![i], i as u128).is_some());
    }
    assert!(g.handle_received_message_at(vec![50], "t", vec![50], 2_000_000).is_some());
    assert_eq!(g.cache_size(), 1);
}

#[test]
fn broadcasting_picks_the_topic_of_the_type() {
    let mut g = GossipProtocol::new();
    assert_eq!(
        invalid_message_text(g.broadcast(MessageType::Ping, vec![1])),
        "Unsupported message type for broadcast: Ping"
    );
    assert_eq!(
        invalid_message_text(g.broadcast(MessageType::Transaction, vec![1])),
        "Not subscribed to topic: silverbitcoin/transactions/1.0.0"
    );
    g.subscribe(TRANSACTIONS).unwrap();
    assert!(g.broadcast(MessageType::Transaction, vec![1, 2]).is_ok());
    assert_eq!(g.stats().total_sent, 1);
    assert_eq!(g.stats().total_bytes_sent, 2);
    // the same message again is not sent twice
    assert!(g.broadcast(MessageType::Transaction, vec![1, 2]).is_ok());
    assert_eq!(g.stats().total_sent, 1);
    assert_eq!(g.cache_size(), 1);
    // topic statistics are not touched by a broadcast
    assert_eq!(g.get_topic_info(TRANSACTIONS).unwrap().messages_sent, 0);
}

#[test]
fn broadcasting_into_a_full_cache_replaces_the_oldest() {
    let mut g = GossipProtocol::with_config(2, 120_000);
    g.subscribe(BATCHES).unwrap();
    assert!(g.broadcast_at(MessageType::Batch, vec![1], 5).is_ok());
    assert!(g.broadcast_at(MessageType::Batch, vec![2], 3).is_ok());
    assert!(g.broadcast_at(MessageType::Batch, vec![3], 9).is_ok());
    assert_eq!(g.cache_size(), 2);
    // the message cached at time 3 went; the others are still known
    assert!(g.handle_received_message_at(vec![1], "x", vec![1], 10).is_none());
    assert!(g.handle_received_message_at(vec![3], "x", vec![3], 10).is_none());
}

#[test]
fn message_types_map_to_their_topics() {
    assert_eq!(topic_for(MessageType::Transaction), Some(TRANSACTIONS));
    assert_eq!(topic_for(MessageType::Batch), Some(BATCHES));
    assert_eq!(topic_for(MessageType::WorkPackage), Some(WORK_PACKAGES));
    assert_eq!(topic_for(MessageType::MinerShare), Some(MINER_SHARES));
    assert_eq!(topic_for(MessageType::BatchRequest), None);
    assert_eq!(TRANSACTIONS, "silverbitcoin/transactions/1.0.0");
    assert_eq!(BATCHES, "silverbitcoin/batches/1.0.0");
    assert_eq!(WORK_PACKAGES, "silverbitcoin/work-packages/1.0.0");
    assert_eq!(MINER_SHARES, "silverbitcoin/miner-shares/1.0.0");
}
