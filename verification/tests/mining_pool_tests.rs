use silver_network::mining_pool::{MinerAccount, MinerShare, MiningPoolManager};

fn acceptance_rate(account: &MinerAccount) -> f64 {
    if account.total_shares == 0 {
        0.0
    } else {
        account.valid_shares as f64 / account.total_shares as f64
    }
}

#[test]
fn test_mining_pool_creation() {
    let pool = MiningPoolManager::new();
    assert_eq!(pool.active_miner_count(), 0);
}

#[test]
fn test_work_distribution() {
    let mut pool = MiningPoolManager::new();
    let work = pool.distribute_work(vec![1, 2, 3], 1000, 0);
    assert_eq!(work.work_id, 1);
    assert_eq!(work.target, 1000);
}

#[test]
fn test_share_submission() {
    let mut pool = MiningPoolManager::new();
    let work = pool.distribute_work(vec![1, 2, 3], 1000, 0);

    let share = MinerShare {
        work_id: work.work_id,
        nonce: 12345,
        miner_address: vec![1, 2, 3],
        submitted_at: 0,
    };

    assert!(pool.submit_share(share));
    assert_eq!(pool.active_miner_count(), 1);
}

#[test]
fn test_miner_account() {
    let mut account = MinerAccount::new(vec![1, 2, 3]);
    account.record_valid_share();
    account.record_valid_share();
    account.record_invalid_share();

    assert_eq!(account.total_shares, 3);
    assert_eq!(account.valid_shares, 2);
    assert_eq!(account.invalid_shares, 1);
    assert!((acceptance_rate(&account) - 2.0 / 3.0).abs() < 0.001);
}

#[test]
fn share_for_unknown_work_is_refused() {
    let mut pool = MiningPoolManager::new();
    let share = MinerShare { work_id: 7, nonce: 1, miner_address: vec![9], submitted_at: 0 };
    assert!(!pool.submit_share(share));
    assert_eq!(pool.active_miner_count(), 0);
    assert_eq!(pool.get_stats().total_shares, 0);
}

#[test]
fn work_ids_count_up_and_shares_accumulate() {
    let mut pool = MiningPoolManager::default();
    let first = pool.distribute_work(vec![1], 10, 2);
    let second = pool.distribute_work(vec![2], 20, 2);
    assert_eq!(first.work_id, 1);
    assert_eq!(second.work_id, 2);
    assert_eq!(second.header, vec![2]);
    assert_eq!(second.chain_id, 2);
    for nonce in 0..3 {
        let share = MinerShare {
            work_id: second.work_id,
            nonce,
            miner_address: vec![4, 4],
            submitted_at: 0,
        };
        assert!(pool.submit_share(share));
    }
    let account = pool.get_miner(&[4, 4]).expect("the miner has an account");
    assert_eq!(account.total_shares, 3);
    assert_eq!(account.valid_shares, 3);
    assert_eq!(account.invalid_shares, 0);
    assert_eq!(account.address, vec![4, 4]);
    let stats = pool.get_stats();
    assert_eq!(stats.total_work_packages, 2);
    assert_eq!(stats.total_shares, 3);
    assert_eq!(stats.valid_shares, 3);
    assert_eq!(stats.active_miners, 1);
    assert!(pool.get_miner(&[5]).is_none());
}

#[test]
fn cleanup_drops_only_old_work() {
    let mut pool = MiningPoolManager::new();
    let work = pool.distribute_work(vec![1], 10, 0);
    let now = work.created_at;
    pool.cleanup_old_work_at(now + 5, 10);
    let share = MinerShare { work_id: work.work_id, nonce: 0, miner_address: vec![1], submitted_at: 0 };
    assert!(pool.submit_share(share));
    pool.cleanup_old_work_at(now + 10, 10);
    let share = MinerShare { work_id: work.work_id, nonce: 1, miner_address: vec![1], submitted_at: 0 };
    assert!(!pool.submit_share(share));
}

#[test]
fn fresh_work_survives_cleanup_by_the_clock() {
    let mut pool = MiningPoolManager::new();
    let work = pool.distribute_work(vec![1], 10, 0);
    pool.cleanup_old_work(3600);
    let share = MinerShare { work_id: work.work_id, nonce: 0, miner_address: vec![1], submitted_at: 0 };
    assert!(pool.submit_share(share));
}
