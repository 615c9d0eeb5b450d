use std::path::PathBuf;
use std::time::Duration;

use flowsurface::db::helpers::{exchange_to_id, generate_kline_id, ns_to_timestamp, timestamp_to_ns};
use flowsurface::db::metrics::PerformanceMetrics;
use flowsurface::db::migration::archive::ArchiveMigrator;
use flowsurface::db::migration::depth::DepthMigrator;
use flowsurface::db::migration::helpers;
use flowsurface::db::migration::progress::{format_duration, ProgressTracker};
use flowsurface::db::migration::timeseries::TimeSeriesMigrator;
use flowsurface::db::migration::verification::HealthCheck;
use flowsurface::db::migration::MigrationConfig;
use flowsurface::db::migrations::{Migration, MigrationManager};
use flowsurface::exchange::timeframe::{timeframe_to_interval, Timeframe};
use flowsurface::exchange::venue::Exchange;

#[test]
fn test_timestamp_conversion() {
    let ms_timestamp = 1234567890123u64;
    let ns = timestamp_to_ns(ms_timestamp);
    let back = ns_to_timestamp(ns);

    assert_eq!(ms_timestamp, back);
}

#[test]
fn test_kline_id_deterministic() {
    let id1 = generate_kline_id(123, "1m", 1000000);
    let id2 = generate_kline_id(123, "1m", 1000000);

    assert_eq!(id1, id2);
}

#[test]
fn test_exchange_id_mapping() {
    let exchanges = [
        Exchange::BinanceLinear,
        Exchange::BinanceInverse,
        Exchange::BinanceSpot,
        Exchange::BybitLinear,
        Exchange::BybitInverse,
        Exchange::BybitSpot,
        Exchange::HyperliquidLinear,
        Exchange::HyperliquidSpot,
        Exchange::OkexLinear,
        Exchange::OkexInverse,
        Exchange::OkexSpot,
        Exchange::AsterLinear,
    ];

    for (i, exchange) in exchanges.iter().enumerate() {
        let id = exchange_to_id(*exchange);
        assert_eq!(id, (i + 1) as i8);
    }
}

#[test]
fn test_metrics_creation() {
    let metrics = PerformanceMetrics::new();
    let stats = metrics.get_statistics();
    assert_eq!(stats.insert_count, 0);
    assert_eq!(stats.query_count, 0);
    assert_eq!(stats.avg_insert_latency_us, 0);
    assert_eq!(stats.avg_query_latency_us, 0);
}

#[test]
fn test_record_insert_latency() {
    let mut metrics = PerformanceMetrics::new();
    metrics.record_insert_latency(Duration::from_millis(5));
    metrics.record_insert_latency(Duration::from_millis(10));
    let stats = metrics.get_statistics();
    assert_eq!(stats.insert_count, 2);
    assert!(stats.avg_insert_latency_us > 0);
    assert_eq!(stats.max_insert_latency_us, 10_000);
}

#[test]
fn test_record_query_latency() {
    let mut metrics = PerformanceMetrics::new();
    metrics.record_query_latency(Duration::from_millis(20));
    metrics.record_query_latency(Duration::from_millis(30));
    let stats = metrics.get_statistics();
    assert_eq!(stats.query_count, 2);
    assert!(stats.avg_query_latency_us > 0);
    assert_eq!(stats.max_query_latency_us, 30_000);
}

#[test]
fn test_average_calculation() {
    let mut metrics = PerformanceMetrics::new();
    metrics.record_insert_latency(Duration::from_millis(10));
    metrics.record_insert_latency(Duration::from_millis(20));
    metrics.record_insert_latency(Duration::from_millis(30));
    let stats = metrics.get_statistics();
    assert_eq!(stats.insert_count, 3);
    assert_eq!(stats.avg_insert_latency_us, 20_000);
}

#[test]
fn test_max_latency_tracking() {
    let mut metrics = PerformanceMetrics::new();
    metrics.record_insert_latency(Duration::from_millis(5));
    metrics.record_insert_latency(Duration::from_millis(50));
    metrics.record_insert_latency(Duration::from_millis(10));
    let stats = metrics.get_statistics();
    assert_eq!(stats.max_insert_latency_us, 50_000);
}

#[test]
fn test_reset_metrics() {
    let mut metrics = PerformanceMetrics::new();
    metrics.record_insert_latency(Duration::from_millis(10));
    metrics.record_query_latency(Duration::from_millis(20));
    metrics.reset();
    let stats = metrics.get_statistics();
    assert_eq!(stats.insert_count, 0);
    assert_eq!(stats.query_count, 0);
    assert_eq!(stats.avg_insert_latency_us, 0);
    assert_eq!(stats.avg_query_latency_us, 0);
}

#[test]
fn test_performance_issues_detection() {
    let mut metrics = PerformanceMetrics::new();
    metrics.record_insert_latency(Duration::from_millis(150));
    let stats = metrics.get_statistics();
    assert!(stats.has_performance_issues());
    let warnings = stats.performance_warnings();
    assert!(!warnings.is_empty());
}

#[test]
fn test_no_performance_issues() {
    let mut metrics = PerformanceMetrics::new();
    metrics.record_insert_latency(Duration::from_millis(1));
    metrics.record_query_latency(Duration::from_millis(10));
    let stats = metrics.get_statistics();
    assert!(!stats.has_performance_issues());
    assert!(stats.performance_warnings().is_empty());
}

#[test]
fn test_archive_migrator_creation() {
    let config = MigrationConfig::default();
    let migrator = ArchiveMigrator::new(config);
    assert_eq!(migrator.config.batch_size, 1000);
}

#[test]
fn test_parse_archive_path() {
    let config = MigrationConfig::default();
    let migrator = ArchiveMigrator::new(config);

    let path = PathBuf::from(
        "market_data/binance/data/futures/um/daily/aggTrades/BTCUSDT/BTCUSDT-aggTrades-2024-01-15.zip",
    );

    let result = migrator.parse_archive_path(&path);
    assert!(result.is_ok());

    let (ticker_info, date) = result.unwrap();
    assert_eq!(ticker_info.ticker.as_str(), "BTCUSDT");
    assert_eq!(date, "2024-01-15");
}

#[test]
fn test_depth_migrator_creation() {
    let config = MigrationConfig::default();
    let migrator = DepthMigrator::new(config);
    assert_eq!(migrator.config.batch_size, 1000);
}

#[test]
fn test_generate_trade_id_deterministic() {
    let id1 = helpers::generate_trade_id(1, 1000, 0);
    let id2 = helpers::generate_trade_id(1, 1000, 0);
    assert_eq!(id1, id2, "Same inputs should produce same ID");
}

#[test]
fn test_generate_kline_id_deterministic() {
    let id1 = helpers::generate_kline_id(1, 60000, 1234567890000);
    let id2 = helpers::generate_kline_id(1, 60000, 1234567890000);
    assert_eq!(id1, id2, "Same inputs should produce same ID");
}

#[test]
fn test_timeframe_conversion() {
    assert_eq!(helpers::timeframe_to_string(60000), "1m");
    assert_eq!(helpers::timeframe_to_string(3600000), "1h");
    assert_eq!(helpers::timeframe_to_string(86400000), "1d");
}

#[test]
fn test_format_duration() {
    assert_eq!(format_duration(Duration::from_secs(30)), "30s");
    assert_eq!(format_duration(Duration::from_secs(90)), "1m 30s");
    assert_eq!(format_duration(Duration::from_secs(3660)), "1h 1m");
}

#[test]
fn test_progress_tracker() {
    let mut tracker = ProgressTracker::new(100, "Test");
    tracker.update(50);
    assert_eq!(tracker.processed_items, 50);
    tracker.finish();
}

#[test]
fn test_timeseries_migrator_creation() {
    let config = MigrationConfig::default();
    let migrator = TimeSeriesMigrator::new(config);
    assert_eq!(migrator.config.batch_size, 1000);
}

#[test]
fn test_health_check_status() {
    let passed = HealthCheck::passed();
    assert!(passed.is_passed());
    assert!(!passed.is_failed());

    let failed = HealthCheck::failed("error");
    assert!(failed.is_failed());
    assert!(!failed.is_passed());
}

#[test]
fn test_health_check_messages() {
    let mut check = HealthCheck::passed();
    check.add_message("message 1");
    check.add_message("message 2");
    assert_eq!(check.messages.len(), 2);
}

#[test]
fn test_migration_creation() {
    let migration = Migration::new(2, "Test migration", "CREATE TABLE test (id INTEGER);");
    assert_eq!(migration.version, 2);
    assert_eq!(migration.description, "Test migration");
    assert!(migration.down_sql.is_none());

    let migration_with_rollback = Migration::with_rollback(
        3,
        "Test migration with rollback",
        "CREATE TABLE test2 (id INTEGER);",
        "DROP TABLE test2;",
    );
    assert_eq!(migration_with_rollback.version, 3);
    assert!(migration_with_rollback.down_sql.is_some());
}

#[test]
fn test_migrations_sorted_by_version() {
    let migrations = vec![
        Migration::new(3, "Third", "SELECT 3;"),
        Migration::new(1, "First", "SELECT 1;"),
        Migration::new(2, "Second", "SELECT 2;"),
    ];

    let manager = MigrationManager::new(migrations);
    let sorted = manager.list_migrations();

    assert_eq!(sorted[0].version, 1);
    assert_eq!(sorted[1].version, 2);
    assert_eq!(sorted[2].version, 3);
}

#[test]
fn test_archive_migrator_parse_path() {
    let config = MigrationConfig::default();
    let migrator = ArchiveMigrator::new(config);

    let path = PathBuf::from(
        "market_data/binance/data/futures/um/daily/aggTrades/BTCUSDT/BTCUSDT-aggTrades-2024-01-15.zip",
    );

    let result = migrator.parse_archive_path(&path);
    assert!(result.is_ok());

    let (ticker_info, date) = result.unwrap();
    assert_eq!(ticker_info.ticker.as_str(), "BTCUSDT");
    assert_eq!(date, "2024-01-15");
}

#[test]
fn test_migration_config_options() {
    let config = MigrationConfig::new()
        .with_batch_size(500)
        .with_dry_run(true)
        .with_backup(false)
        .with_verification(false);

    assert_eq!(config.batch_size, 500);
    assert!(config.dry_run);
    assert!(!config.create_backup);
    assert!(!config.verify_migration);
}

#[test]
fn test_performance_metrics_tracking() {
    let mut metrics = PerformanceMetrics::new();

    metrics.record_insert_latency(Duration::from_millis(5));
    metrics.record_insert_latency(Duration::from_millis(10));
    metrics.record_query_latency(Duration::from_millis(20));

    let stats = metrics.get_statistics();

    assert_eq!(stats.insert_count, 2);
    assert_eq!(stats.query_count, 1);
    assert!(stats.avg_insert_latency_us > 0);
    assert!(stats.avg_query_latency_us > 0);

    println!("Metrics: {:?}", stats);
}

#[test]
fn test_timeframe_mapping() {
    assert_eq!(timeframe_to_interval(Timeframe::M1), Some("1m"));
    assert_eq!(timeframe_to_interval(Timeframe::M3), Some("3m"));
    assert_eq!(timeframe_to_interval(Timeframe::M5), Some("5m"));
    assert_eq!(timeframe_to_interval(Timeframe::M15), Some("15m"));
    assert_eq!(timeframe_to_interval(Timeframe::M30), Some("30m"));
    assert_eq!(timeframe_to_interval(Timeframe::H1), Some("1h"));
    assert_eq!(timeframe_to_interval(Timeframe::H2), Some("2h"));
    assert_eq!(timeframe_to_interval(Timeframe::H4), Some("4h"));
    assert_eq!(timeframe_to_interval(Timeframe::H6), Some("6h"));
    assert_eq!(timeframe_to_interval(Timeframe::H12), Some("12h"));
    assert_eq!(timeframe_to_interval(Timeframe::D1), Some("1d"));
    assert_eq!(timeframe_to_interval(Timeframe::MS100), None);
    assert_eq!(timeframe_to_interval(Timeframe::MS200), None);
}
