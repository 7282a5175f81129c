use transfer_stats::engine::{compute_statistics, compute_statistics_checked};
use transfer_stats::errors::{TransferError, TransferRepoError};
use transfer_stats::generator::{TransferGenConfig, TransferGenerator};
use transfer_stats::stats_service::{aggregate_scan, StatsService};
use transfer_stats::transfer::Transfer;
use transfer_stats::transfer_repo::{InMemoryTransferRepo, TransferRepoAbstract};
use transfer_stats::user_stats::UserStats;

fn transfer(ts: u64, from: &str, to: &str, amount: u32, usd_price: u32) -> Transfer {
    Transfer {
        ts,
        from: from.to_string(),
        to: to.to_string(),
        amount,
        usd_price,
    }
}

fn assert_same_stats(a: &[UserStats], b: &[UserStats]) {
    assert_eq!(a.len(), b.len());
    for (x, y) in a.iter().zip(b.iter()) {
        assert_eq!(x.address, y.address);
        assert_eq!(x.total_volume, y.total_volume);
        assert_eq!(x.avg_buy_price, y.avg_buy_price);
        assert_eq!(x.avg_sell_price, y.avg_sell_price);
        assert_eq!(x.max_balance, y.max_balance);
    }
}

#[test]
fn empty_transfer_set_yields_empty_output() {
    let stats = compute_statistics(&Vec::new());
    assert!(stats.is_empty());
}

#[test]
fn empty_store_yields_ok_empty_via_service() {
    let service = StatsService::new(InMemoryTransferRepo::new());
    let stats = service.calculate_user_stats().unwrap();
    assert!(stats.is_empty());
}

#[test]
fn three_transfer_weighted_averages() {
    // A sends 10 to B at price 1; B sends 4 to C at price 2; C sends 4
    // back to B at price 2.
    let transfers = vec![
        transfer(1, "A", "B", 10, 1),
        transfer(2, "B", "C", 4, 2),
        transfer(3, "C", "B", 4, 2),
    ];
    let stats = compute_statistics(&transfers);
    assert_eq!(stats.len(), 3);

    // B moved 18 units in all, more than A's 10 and C's 8.
    assert_eq!(stats[0].address, "B");
    assert_eq!(stats[0].total_volume, 18);
    // B bought 10 at 1 and 4 at 2: the exact weighted average is 18/14.
    assert_eq!(stats[0].avg_buy_price.num, 18);
    assert_eq!(stats[0].avg_buy_price.den, 14);
    // B sold 4 at 2: exactly 8/4 = 2.
    assert_eq!(stats[0].avg_sell_price.num, 8);
    assert_eq!(stats[0].avg_sell_price.den, 4);
    // B's running balance is +10, then +6, then +10 again.
    assert_eq!(stats[0].max_balance, 10);

    assert_eq!(stats[1].address, "A");
    assert_eq!(stats[1].total_volume, 10);
    // A only sold, so its average buy price is the zero fallback.
    assert_eq!(stats[1].avg_buy_price.num, 0);
    assert_eq!(stats[1].avg_sell_price.num, 10);
    assert_eq!(stats[1].avg_sell_price.den, 10);
    // A's balance only ever fell, so its peak is floored at zero.
    assert_eq!(stats[1].max_balance, 0);

    assert_eq!(stats[2].address, "C");
    assert_eq!(stats[2].total_volume, 8);
    assert_eq!(stats[2].max_balance, 4);
}

#[test]
fn self_transfer_counts_both_directions() {
    let transfers = vec![transfer(1, "X", "X", 5, 1)];
    let stats = compute_statistics(&transfers);
    assert_eq!(stats.len(), 1);
    assert_eq!(stats[0].address, "X");
    // 5 bought and 5 sold: 10 units of volume in all.
    assert_eq!(stats[0].total_volume, 10);
    assert_eq!(stats[0].avg_buy_price.num, 5);
    assert_eq!(stats[0].avg_buy_price.den, 5);
    assert_eq!(stats[0].avg_sell_price.num, 5);
    assert_eq!(stats[0].avg_sell_price.den, 5);
    // The tie-break orders the sell before the buy, so the balance dips
    // to -5 and returns to 0; the peak, floored at zero, is 0.
    assert_eq!(stats[0].max_balance, 0);
}

#[test]
fn output_is_sorted_by_volume_descending() {
    let transfers = TransferGenConfig::default().generate(200).unwrap();
    let stats = compute_statistics(&transfers);
    for w in stats.windows(2) {
        assert!(w[0].total_volume >= w[1].total_volume);
    }
}

#[test]
fn emitted_stats_have_positive_volume_and_peak() {
    let transfers = TransferGenConfig::default().generate(200).unwrap();
    let stats = compute_statistics(&transfers);
    assert!(!stats.is_empty());
    for s in &stats {
        assert!(s.total_volume > 0);
        // max_balance is unsigned; what the law adds is that the value
        // stored is the peak floored at zero, never a wrapped negative.
        assert!(s.max_balance <= s.total_volume);
    }
}

#[test]
fn avg_price_zero_exactly_for_missing_direction() {
    let transfers = vec![transfer(7, "A", "B", 3, 2)];
    let stats = compute_statistics(&transfers);
    assert_eq!(stats.len(), 2);
    for s in &stats {
        if s.address == "A" {
            // Only outgoing: zero average buy price, nonzero sell.
            assert_eq!(s.avg_buy_price.num, 0);
            assert_eq!(s.avg_buy_price.den, 1);
            assert_ne!(s.avg_sell_price.num, 0);
        } else {
            assert_eq!(s.address, "B");
            assert_ne!(s.avg_buy_price.num, 0);
            assert_eq!(s.avg_sell_price.num, 0);
            assert_eq!(s.avg_sell_price.den, 1);
        }
    }
}

#[test]
fn recomputation_is_identical() {
    let mut repo = InMemoryTransferRepo::new();
    let transfers = TransferGenConfig::default().generate(100).unwrap();
    repo.save_all(&transfers).unwrap();
    let service = StatsService::new(repo);
    let first = service.calculate_user_stats().unwrap();
    let second = service.calculate_user_stats().unwrap();
    assert_same_stats(&first, &second);
}

#[test]
fn equal_timestamps_keep_input_order() {
    // Two transfers at the same timestamp: expansion order decides, so
    // B's buy of 10 lands before its sell of 10 and the peak is 10.
    let transfers = vec![
        transfer(5, "A", "B", 10, 1),
        transfer(5, "B", "C", 10, 1),
    ];
    let stats = compute_statistics(&transfers);
    assert_eq!(stats[0].address, "B");
    assert_eq!(stats[0].max_balance, 10);
}

#[test]
fn negative_balance_is_a_valid_intermediate_state() {
    // B sells before it buys: balance -3 then +2; the peak is 2.
    let transfers = vec![
        transfer(1, "B", "A", 3, 1),
        transfer(2, "A", "B", 5, 1),
    ];
    let stats = compute_statistics(&transfers);
    for s in &stats {
        if s.address == "B" {
            assert_eq!(s.max_balance, 2);
            assert_eq!(s.total_volume, 8);
        }
    }
}

#[test]
fn checked_entry_point_accepts_ordinary_sets() {
    let transfers = vec![transfer(1, "A", "B", 1, 1)];
    let stats = compute_statistics_checked(&transfers).unwrap();
    assert_eq!(stats.len(), 2);
}

#[test]
fn store_appends_batches_in_order() {
    let mut repo = InMemoryTransferRepo::new();
    repo.save_all(&vec![transfer(1, "A", "B", 1, 1)]).unwrap();
    repo.save_all(&vec![transfer(2, "B", "C", 2, 1)]).unwrap();
    let all = repo.scan_all().unwrap();
    assert_eq!(all.len(), 2);
    assert_eq!(all[0].from, "A");
    assert_eq!(all[1].from, "B");
}

#[test]
fn test_calculate_user_stats_repo_error() {
    let result = aggregate_scan(Err(TransferRepoError::QueryError("DB Error".to_string())));

    assert!(result.is_err());
    // The store's error comes through verbatim behind the one wrapper.
    match result.unwrap_err() {
        TransferError::RepositoryError(TransferRepoError::QueryError(m)) => {
            assert_eq!(m, "DB Error")
        }
        other => panic!("unexpected error: {:?}", other),
    }
}

#[test]
fn test_calculate_user_stats_success() {
    let mut repo = InMemoryTransferRepo::new();
    // 0x123 moves the most volume, so it leads the ordered output.
    let transfers = vec![
        transfer(1, "0x123", "0x456", 100, 1),
        transfer(2, "0x789", "0x123", 300, 1),
    ];
    repo.save_all(&transfers).unwrap();
    let service = StatsService::new(repo);
    let result = service.calculate_user_stats();

    assert!(result.is_ok());
    let stats = result.unwrap();
    assert_eq!(stats.len(), 3);
    assert_eq!(stats[0].address, "0x123");
}
