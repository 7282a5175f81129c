use transfer_stats::generator::{rand_address, TransferGenConfig, TransferGenerator};

fn config(
    min_amount: u32,
    max_amount: u32,
    min_price: u32,
    max_price: u32,
    max_age_secs: u64,
    address_pool_size: usize,
) -> TransferGenConfig {
    TransferGenConfig {
        min_amount,
        max_amount,
        min_price,
        max_price,
        max_age_secs,
        address_pool_size,
    }
}

#[test]
fn test_generate_count() {
    let config = TransferGenConfig::default();
    let transfers = config.generate(10).unwrap();
    assert_eq!(transfers.len(), 10);
}

#[test]
fn test_generate_zero_count() {
    let config = TransferGenConfig::default();
    let transfers = config.generate(0).unwrap();
    assert_eq!(transfers.len(), 0);
}

#[test]
fn test_generated_values_in_range() {
    let config = config(50_000, 100_000, 1_000, 2_000, 3600, 10);

    let transfers = config.generate(100).unwrap();

    for transfer in transfers {
        assert!(transfer.amount >= 50_000 && transfer.amount < 100_000);
        assert!(transfer.usd_price >= 1_000 && transfer.usd_price < 2_000);
        assert!(transfer.from.starts_with("0x"));
        assert!(transfer.to.starts_with("0x"));
        assert_eq!(transfer.from.len(), 12); // "0x" + 10 chars
        assert_eq!(transfer.to.len(), 12);
        assert!(transfer.ts > 0);
    }
}

#[test]
fn test_addresses_are_different() {
    let config = TransferGenConfig::default();
    let transfers = config.generate(100).unwrap();

    for transfer in transfers {
        assert_ne!(
            transfer.from, transfer.to,
            "From and To addresses should be different"
        );
    }
}

#[test]
fn test_address_pool_size_respected() {
    let config = config(1_000, 10_000, 1_000, 2_000, 3600, 5);

    let transfers = config.generate(50).unwrap();

    let mut all_addresses = std::collections::HashSet::new();
    for transfer in &transfers {
        all_addresses.insert(&transfer.from);
        all_addresses.insert(&transfer.to);
    }

    assert!(all_addresses.len() <= 5);
    println!(
        "Generated {} unique addresses from {} transfers",
        all_addresses.len(),
        transfers.len()
    );
}

#[test]
fn test_address_reuse() {
    let config = config(1_000, 10_000, 1_000, 2_000, 3600, 3);

    let transfers = config.generate(20).unwrap();

    let mut address_usage: std::collections::HashMap<String, usize> =
        std::collections::HashMap::new();
    for transfer in &transfers {
        *address_usage.entry(transfer.from.clone()).or_insert(0) += 1;
        *address_usage.entry(transfer.to.clone()).or_insert(0) += 1;
    }

    assert!(address_usage.len() <= 3);

    for (address, count) in address_usage {
        assert!(
            count > 1,
            "Address {} should be used more than once",
            address
        );
    }
}

#[test]
fn test_rand_address() {
    let addr1 = rand_address();
    let addr2 = rand_address();

    assert!(addr1.starts_with("0x"));
    assert!(addr2.starts_with("0x"));
    assert_eq!(addr1.len(), 12);
    assert_eq!(addr2.len(), 12);
    assert_ne!(addr1, addr2);
}

#[test]
fn test_timestamp_generation() {
    let now = std::time::SystemTime::now()
        .duration_since(std::time::UNIX_EPOCH)
        .unwrap()
        .as_secs();

    let config = config(1_000, 10_000, 1_000, 2_000, 3600, 5);

    let transfers = config.generate(10).unwrap();

    for transfer in transfers {
        assert!(transfer.ts <= now);
        assert!(transfer.ts >= now - 3600);
    }
}

#[test]
fn test_error_handling() {
    let config = TransferGenConfig::default();
    let result = config.generate(10);
    assert!(result.is_ok());
}

#[test]
fn test_result_unwrap_or_else() {
    let config = TransferGenConfig::default();
    let transfers = config.generate(5).unwrap_or_else(|e| {
        panic!("Failed to generate transfers: {:?}", e);
    });
    assert_eq!(transfers.len(), 5);
}

#[test]
fn test_default_config() {
    let config = TransferGenConfig::default();

    assert_eq!(config.min_amount, 1_000);
    assert_eq!(config.max_amount, 1_000_000);
    assert_eq!(config.min_price, 100);
    assert_eq!(config.max_price, 2_000);
    assert_eq!(config.max_age_secs, 86_400 * 30);
    assert_eq!(config.address_pool_size, 40);
}

#[test]
fn test_single_address_pool() {
    let config = config(1_000, 10_000, 1_000, 2_000, 3600, 2);

    let transfers = config.generate(10).unwrap();

    assert_eq!(transfers.len(), 10);

    for transfer in &transfers {
        assert_ne!(transfer.from, transfer.to);
    }

    let mut all_addresses = std::collections::HashSet::new();
    for transfer in &transfers {
        all_addresses.insert(&transfer.from);
        all_addresses.insert(&transfer.to);
    }
    assert_eq!(all_addresses.len(), 2);
}

#[test]
fn test_large_address_pool() {
    let config = config(1_000, 10_000, 1_000, 2_000, 3600, 100);

    let transfers = config.generate(50).unwrap();

    let mut all_addresses = std::collections::HashSet::new();
    for transfer in &transfers {
        all_addresses.insert(&transfer.from);
        all_addresses.insert(&transfer.to);
    }

    assert!(all_addresses.len() <= 100);
    assert!(all_addresses.len() >= 2);
}

#[test]
fn test_addresses_are_alphanumeric() {
    let addr = rand_address();
    assert!(addr.starts_with("0x"));
    assert!(addr.chars().skip(2).all(|c| c.is_ascii_alphanumeric()));

    let transfers = TransferGenConfig::default().generate(20).unwrap();
    for t in transfers {
        assert!(t.from.chars().skip(2).all(|c| c.is_ascii_alphanumeric()));
        assert!(t.to.chars().skip(2).all(|c| c.is_ascii_alphanumeric()));
    }
}

#[test]
fn test_generate_via_trait() {
    fn generate_with<G: TransferGenerator>(g: &G, count: usize) -> usize {
        g.generate(count).unwrap().len()
    }
    assert_eq!(generate_with(&TransferGenConfig::default(), 7), 7);
}
