use transfer_stats::config::Config;
use transfer_stats::errors::{ApiError, StoreFault, TransferError, TransferRepoError};
use transfer_stats::jobs::{DataGenerationJob, Job, JobRunner};
use transfer_stats::stats_service::StatsService;
use transfer_stats::transfer_repo::{InMemoryTransferRepo, TransferRepoAbstract};
use transfer_stats::user_stats::{AvgPrice, UserStats};

#[test]
fn network_fault_becomes_connection_error() {
    let err = TransferRepoError::from_fault(StoreFault::Network("boom".to_string()));
    match err {
        TransferRepoError::DatabaseConnectionError(m) => assert_eq!(m, "Network error: boom"),
        other => panic!("unexpected variant: {:?}", other),
    }
}

#[test]
fn row_not_found_becomes_transfer_not_found() {
    let err = TransferRepoError::from_fault(StoreFault::RowNotFound);
    match err {
        TransferRepoError::TransferNotFound { id } => assert_eq!(id, "unknown"),
        other => panic!("unexpected variant: {:?}", other),
    }
}

#[test]
fn query_faults_keep_their_detail() {
    let err = TransferRepoError::from_fault(StoreFault::InvalidParams("p".to_string()));
    match err {
        TransferRepoError::QueryError(m) => assert_eq!(m, "Invalid parameters: p"),
        other => panic!("unexpected variant: {:?}", other),
    }
    let err = TransferRepoError::from_fault(StoreFault::Custom("c".to_string()));
    match err {
        TransferRepoError::QueryError(m) => assert_eq!(m, "Custom error: c"),
        other => panic!("unexpected variant: {:?}", other),
    }
    let err = TransferRepoError::from_fault(StoreFault::Unknown);
    match err {
        TransferRepoError::QueryError(m) => assert_eq!(m, "Unknown ClickHouse error"),
        other => panic!("unexpected variant: {:?}", other),
    }
}

#[test]
fn timeout_becomes_connection_error() {
    let err = TransferRepoError::from_fault(StoreFault::TimedOut);
    match err {
        TransferRepoError::DatabaseConnectionError(m) => assert_eq!(m, "Connection timed out"),
        other => panic!("unexpected variant: {:?}", other),
    }
}

#[test]
fn error_messages_are_attributed() {
    let err = TransferError::RepositoryError(TransferRepoError::QueryError(
        "DB Error".to_string(),
    ));
    assert_eq!(
        err.message(),
        "Repository error: Database query failed: DB Error"
    );
}

#[test]
fn status_codes_follow_the_error_kind() {
    let not_found = TransferError::RepositoryError(TransferRepoError::TransferNotFound {
        id: "42".to_string(),
    });
    assert_eq!(not_found.status_code(), 404);

    let conn = TransferError::RepositoryError(TransferRepoError::DatabaseConnectionError(
        "down".to_string(),
    ));
    assert_eq!(conn.status_code(), 500);

    let query = TransferError::RepositoryError(TransferRepoError::QueryError(
        "bad".to_string(),
    ));
    assert_eq!(query.status_code(), 500);
}

#[test]
fn api_error_keeps_its_fields() {
    let e = ApiError::new("gone".to_string(), 404);
    assert_eq!(e.message, "gone");
    assert_eq!(e.status, 404);
}

#[test]
fn user_stats_new_keeps_its_fields() {
    let s = UserStats::new(
        "0xabc".to_string(),
        1000,
        AvgPrice { num: 10, den: 7 },
        AvgPrice { num: 15, den: 10 },
        500,
    );
    assert_eq!(s.address, "0xabc");
    assert_eq!(s.total_volume, 1000);
    assert_eq!(s.avg_buy_price, AvgPrice { num: 10, den: 7 });
    assert_eq!(s.avg_sell_price, AvgPrice { num: 15, den: 10 });
    assert_eq!(s.max_balance, 500);
}

#[test]
fn data_generation_job_seeds_the_store() {
    let mut job = DataGenerationJob::new(25, InMemoryTransferRepo::new());
    job.run().unwrap();
    let repo = job.into_repo();
    assert_eq!(repo.scan_all().unwrap().len(), 25);

    let service = StatsService::new(repo);
    let stats = service.calculate_user_stats().unwrap();
    assert!(!stats.is_empty());
}

fn create_test_config() -> Config {
    Config {
        port: "8081".to_string(),
        clickhouse_url: "http://localhost:8123".to_string(),
        clickhouse_user: "default".to_string(),
        clickhouse_password: "123".to_string(),
        data_generation_count: 30,
    }
}

#[test]
fn test_config() {
    println!("Testing config creation");

    let config = create_test_config();

    assert_eq!(config.port, "8081");
    assert!(!config.clickhouse_url.is_empty());
    assert!(config.data_generation_count > 0);

    println!("Config test passed");
}

#[test]
fn job_runner_runs_every_job() {
    let runner = JobRunner::new()
        .add_job(DataGenerationJob::new(3, InMemoryTransferRepo::new()))
        .add_job(DataGenerationJob::new(4, InMemoryTransferRepo::new()));
    let mut runner = runner;
    assert!(runner.run_all().is_ok());
}

#[test]
fn job_runner_keeps_its_queue() {
    let mut runner =
        JobRunner::new().add_job(DataGenerationJob::new(2, InMemoryTransferRepo::new()));
    // The queue is kept, so a second run executes the same job again.
    assert!(runner.run_all().is_ok());
    assert!(runner.run_all().is_ok());
}
