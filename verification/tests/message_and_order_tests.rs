use silver_network::message::{MessageType, NetworkMessage};
use silver_network::peer_order::{bytes_less, sort_unique};

#[test]
fn message_types_and_sizes() {
    let tx = NetworkMessage::Transaction(vec![1, 2, 3]);
    assert_eq!(tx.message_type(), MessageType::Transaction);
    assert_eq!(tx.estimated_size(), 1024);
    let batch = NetworkMessage::Batch(vec![]);
    assert_eq!(batch.message_type(), MessageType::Batch);
    assert_eq!(batch.estimated_size(), 512 * 1024);
    let work = NetworkMessage::WorkPackage { work_id: 1, header: vec![], target: 2, chain_id: 3 };
    assert_eq!(work.message_type(), MessageType::WorkPackage);
    assert_eq!(work.estimated_size(), 256);
    let share = NetworkMessage::MinerShare { work_id: 1, nonce: 2, miner_address: vec![] };
    assert_eq!(share.message_type(), MessageType::MinerShare);
    assert_eq!(share.estimated_size(), 128);
    let req = NetworkMessage::BatchRequest { from_sequence: 1, to_sequence: 2 };
    assert_eq!(req.message_type(), MessageType::BatchRequest);
    assert_eq!(req.estimated_size(), 64);
    let resp = NetworkMessage::BatchResponse { batches: vec![vec![1], vec![2]] };
    assert_eq!(resp.message_type(), MessageType::BatchResponse);
    assert_eq!(resp.estimated_size(), 2 * 512 * 1024);
    let ping = NetworkMessage::Ping { timestamp: 1 };
    assert_eq!(ping.message_type(), MessageType::Ping);
    assert_eq!(ping.estimated_size(), 32);
    let pong = NetworkMessage::Pong { timestamp: 1 };
    assert_eq!(pong.message_type(), MessageType::Pong);
    assert_eq!(pong.estimated_size(), 32);
}

#[test]
fn message_type_names_match_their_debug_form() {
    for t in [
        MessageType::Transaction,
        MessageType::Batch,
        MessageType::WorkPackage,
        MessageType::MinerShare,
        MessageType::BatchRequest,
        MessageType::BatchResponse,
        MessageType::Ping,
        MessageType::Pong,
    ] {
        assert_eq!(t.name(), format!("{:?}", t));
    }
}

#[test]
fn byte_order_is_lexicographic() {
    assert!(bytes_less(&[1], &[2]));
    assert!(!bytes_less(&[2], &[1]));
    assert!(bytes_less(&[1], &[1, 0]));
    assert!(!bytes_less(&[1, 0], &[1]));
    assert!(!bytes_less(&[1, 2], &[1, 2]));
    assert!(bytes_less(&[], &[0]));
    assert!(bytes_less(&[0, 255], &[1]));
    let pairs: [(&[u8], &[u8]); 4] = [(&[1], &[2]), (&[1], &[1, 0]), (&[3, 1], &[3, 0, 9]), (&[], &[])];
    for (a, b) in pairs {
        assert_eq!(bytes_less(a, b), a.to_vec() < b.to_vec());
    }
}

#[test]
fn sorting_removes_duplicates() {
    let items = vec![vec![5], vec![1, 1], vec![5], vec![1], vec![]];
    assert_eq!(sort_unique(&items), vec![vec![], vec![1], vec![1, 1], vec![5]]);
    let mut reversed = items.clone();
    reversed.reverse();
    assert_eq!(sort_unique(&reversed), sort_unique(&items));
    assert!(sort_unique(&[]).is_empty());
}
