use multiaddr::Multiaddr;
use silver_network::discovery::{DiscoveryResult, PeerDiscovery, ProvidersOutcome, QueryOutcome};
use silver_network::NetworkError;

fn discovery_error(r: Result<DiscoveryResult, NetworkError>) -> String {
    match r {
        Err(NetworkError::Discovery(s)) => s,
        other => panic!("expected a discovery error, got {:?}", other),
    }
}

#[test]
fn bootstrap_is_due_until_one_starts() {
    let mut d = PeerDiscovery::new(Vec::new());
    assert!(d.needs_bootstrap());
    assert!(d.needs_bootstrap_after(0));
    d.start_bootstrap(1);
    assert_eq!(d.pending_queries_count(), 1);
    assert!(!d.needs_bootstrap_after(299));
    assert!(d.needs_bootstrap_after(300));
    assert!(!d.needs_bootstrap());
    match d.handle_query_result(1, &QueryOutcome::Bootstrap(Ok(5))) {
        Ok(DiscoveryResult::Bootstrap { num_peers }) => assert_eq!(num_peers, 5),
        other => panic!("unexpected {:?}", other),
    }
    assert_eq!(d.pending_queries_count(), 0);
}

#[test]
fn an_unknown_query_is_an_error() {
    let mut d = PeerDiscovery::new(Vec::new());
    assert_eq!(
        discovery_error(d.handle_query_result(42, &QueryOutcome::Other)),
        "Unknown query ID: QueryId(42)"
    );
}

#[test]
fn failures_quote_the_dht_error() {
    let mut d = PeerDiscovery::new(Vec::new());
    d.start_bootstrap(1);
    d.start_find_peer(2, vec![9]);
    d.start_get_providers(3, b"key".to_vec());
    assert_eq!(
        discovery_error(d.handle_query_result(1, &QueryOutcome::Bootstrap(Err("Timeout".to_string())))),
        "Bootstrap failed: Timeout"
    );
    assert_eq!(
        discovery_error(d.handle_query_result(2, &QueryOutcome::GetClosestPeers(Err("Timeout".to_string())))),
        "Find peer failed: Timeout"
    );
    assert_eq!(
        discovery_error(d.handle_query_result(3, &QueryOutcome::GetProviders(Err("Timeout".to_string())))),
        "Get providers failed: Timeout"
    );
    assert_eq!(d.pending_queries_count(), 0);
}

#[test]
fn an_outcome_of_another_kind_is_unexpected() {
    let mut d = PeerDiscovery::new(Vec::new());
    d.start_find_peer(8, vec![1]);
    assert_eq!(
        discovery_error(d.handle_query_result(8, &QueryOutcome::Bootstrap(Ok(1)))),
        "Unexpected query result"
    );
    // the query is gone all the same
    assert_eq!(
        discovery_error(d.handle_query_result(8, &QueryOutcome::Bootstrap(Ok(1)))),
        "Unknown query ID: QueryId(8)"
    );
}

#[test]
fn find_peer_reports_the_closest_peers() {
    let mut d = PeerDiscovery::new(Vec::new());
    d.start_find_peer(4, vec![7, 7]);
    let peers = vec![vec![3], vec![1]];
    match d.handle_query_result(4, &QueryOutcome::GetClosestPeers(Ok(peers))) {
        Ok(DiscoveryResult::FindPeer { target, peers }) => {
            assert_eq!(target, vec![7, 7]);
            assert_eq!(peers, vec![vec![3], vec![1]]);
        }
        other => panic!("unexpected {:?}", other),
    }
}

#[test]
fn providers_come_sorted_and_once_each() {
    let mut d = PeerDiscovery::new(Vec::new());
    d.start_get_providers(5, b"content".to_vec());
    let found = vec![vec![3], vec![1, 2], vec![1], vec![1, 2], vec![0, 255]];
    match d.handle_query_result(5, &QueryOutcome::GetProviders(Ok(ProvidersOutcome::FoundProviders(found)))) {
        Ok(DiscoveryResult::GetProviders { key, providers }) => {
            assert_eq!(key, b"content".to_vec());
            assert_eq!(providers, vec![vec![0, 255], vec![1], vec![1, 2], vec![3]]);
        }
        other => panic!("unexpected {:?}", other),
    }
    d.start_get_providers(6, b"other".to_vec());
    let closest = vec![vec![9], vec![2], vec![9]];
    match d.handle_query_result(
        6,
        &QueryOutcome::GetProviders(Ok(ProvidersOutcome::FinishedWithNoAdditionalRecord(closest))),
    ) {
        Ok(DiscoveryResult::GetProviders { providers, .. }) => {
            assert_eq!(providers, vec![vec![2], vec![9]]);
        }
        other => panic!("unexpected {:?}", other),
    }
}

#[test]
fn bootstrap_peers_are_kept_in_order() {
    let a: Multiaddr = "/ip4/127.0.0.1/tcp/4001".parse().unwrap();
    let b: Multiaddr = "/ip4/10.0.0.2/tcp/4002".parse().unwrap();
    let mut d = PeerDiscovery::new(vec![(vec![1], a.clone())]);
    d.add_bootstrap_peer(vec![2], b.clone());
    let peers = d.bootstrap_peers();
    assert_eq!(peers.len(), 2);
    assert_eq!(peers[0], (vec![1], a));
    assert_eq!(peers[1], (vec![2], b));
}
