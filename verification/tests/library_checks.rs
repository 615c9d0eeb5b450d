use std::hash::{Hash, Hasher};
use std::path::PathBuf;
use std::time::Duration;

use flowsurface::chart::{HeatmapStudy, ProfileKind};
use flowsurface::dashboard::{fetch_plan, FetchPlan, FetchRange};
use flowsurface::exchange::aster::rest::{
    depth_snapshot_url, exchange_info_market, is_trading, klines_url, open_interest_url, ticker_stats_market,
};
use flowsurface::exchange::aster::{MessageKind, SocketAction, SocketEvent, eq_ignore_ascii_case, find_kline_stream, kline_connection_exchange, kline_message_symbol, kline_stream_path, kline_stream_step, market_stream_path, market_stream_start, market_stream_step, message_kind};
use flowsurface::db::cache::{CacheEntry, QueryCache};
use flowsurface::db::config::{temp_directory_sql, DatabaseConfig};
use flowsurface::db::crud::order_runs::generate_run_id as order_run_id;
use flowsurface::db::error::DatabaseError;
use flowsurface::db::health::HealthFindings;
use flowsurface::db::helpers::{
    exchange_to_id, generate_snapshot_id, generate_trade_id as trade_hash_id, ns_to_timestamp,
    ticker_cache_key, timestamp_to_ns, TickerCache,
};
use flowsurface::db::metrics::{MetricTimer, PerformanceMetrics, PerformanceWarning};
use flowsurface::db::migration::archive::{
    archive_file_name_readable, parse_archive_file_name, record_archive_outcome, ArchiveMigrator,
};
use flowsurface::db::migration::backup::{
    backup_dir_name, backup_expired, sort_newest_first, BackupManager, BackupMetadata,
};
use flowsurface::db::migration::helpers::{
    exchange_id_for_name, exchange_id_for_name_checked, generate_footprint_id, generate_run_id,
    generate_trade_id, timeframe_to_string,
};
use flowsurface::db::migration::progress::{format_duration, ProgressTracker};
use flowsurface::db::migration::timeseries::{record_footprints_outcome, record_klines_outcome};
use flowsurface::db::migration::verification::{
    integrity_outcome, missing_table_error, required_tables, row_count_warnings, HealthCheck,
    HealthCheckStatus, MigrationGuard, RollbackStep,
};
use flowsurface::db::migration::depth::{dry_run_total, record_batch_outcome};
use flowsurface::db::migration::{flush_due, record_error, MigrationConfig, MigrationStats};
use flowsurface::db::migrations::{Migration, MigrationManager};
use flowsurface::exchange::info::TickerInfo;
use flowsurface::exchange::price::{Price, PriceStep};
use flowsurface::exchange::stream::{ResolvedStream, StreamKind, StreamSpecs, StreamTicksize};
use flowsurface::exchange::ticker::{SerTicker, Ticker};
use flowsurface::exchange::timeframe::{InvalidTimeframe, PreferredCurrency, PushFrequency, Timeframe};
use flowsurface::exchange::unique::UniqueStreams;
use flowsurface::exchange::venue::{Exchange, MarketKind};
use flowsurface::exchange::wire::flag_from_int;
use flowsurface::modal::format_number;
use flowsurface::panel::ladder::{cleanup_cutoff, leading_expired, ChaseTracker, Config, PriceGrid};
use flowsurface::text::{join_strings, split_char, trim_end_str};

const ALL_EXCHANGES: [Exchange; 12] = [
    Exchange::AsterLinear,
    Exchange::BinanceLinear,
    Exchange::BinanceInverse,
    Exchange::BinanceSpot,
    Exchange::BybitLinear,
    Exchange::BybitInverse,
    Exchange::BybitSpot,
    Exchange::HyperliquidLinear,
    Exchange::HyperliquidSpot,
    Exchange::OkexLinear,
    Exchange::OkexInverse,
    Exchange::OkexSpot,
];

fn btc_info(exchange: Exchange) -> TickerInfo {
    TickerInfo::with_powers(Ticker::new("BTCUSDT", exchange), -2, -3, None)
}

#[test]
fn ticker_text_round_trips() {
    let t = Ticker::new("BTCUSDT", Exchange::BinanceLinear);
    let s = t.to_ser_string();
    assert_eq!(s, "BinanceLinear:BTCUSDT");
    let back = Ticker::from_ser_string(&s).unwrap();
    assert!(back.same_as(&t));

    let d = Ticker::new_with_display("BTC-PERP", Exchange::HyperliquidLinear, Some("BTC"));
    let s = d.to_ser_string();
    assert_eq!(s, "HyperliquidLinear:BTC-PERP|BTC");
    let back = Ticker::from_ser_string(&s).unwrap();
    assert!(back.same_as(&d));
    assert_eq!(back.display_symbol(), Some("BTC".to_string()));
}

#[test]
fn ticker_text_errors() {
    assert_eq!(
        Ticker::from_ser_string("BTCUSDT").unwrap_err(),
        "expected \"Exchange:Symbol\""
    );
    assert_eq!(Ticker::from_ser_string("Foo:BTC").unwrap_err(), "Unknown exchange: Foo");
}

#[test]
fn keyed_ticker_round_trips() {
    let k = SerTicker::new(Exchange::OkexSpot, "ETH-USDT");
    let s = k.to_ser_string();
    assert_eq!(s, "OkexSpot:ETH-USDT");
    let back = SerTicker::from_ser_string(&s).unwrap();
    assert_eq!(back.exchange, Exchange::OkexSpot);
    assert!(back.ticker.same_as(&k.ticker));
    assert_eq!(
        SerTicker::from_ser_string("a:b:c").unwrap_err(),
        "Invalid ExchangeTicker format: expected 'Exchange:Ticker', got 'a:b:c'"
    );
    assert_eq!(SerTicker::from_ser_string("Nope:X").unwrap_err(), "Unknown exchange: Nope");
}

#[test]
fn exchange_names_round_trip() {
    for e in ALL_EXCHANGES {
        assert_eq!(Exchange::parse(&e.to_display_name()), Ok(e));
        assert_eq!(SerTicker::string_to_exchange(SerTicker::exchange_to_string(e)), Ok(e));
    }
    assert_eq!(Exchange::parse("Nope"), Err("Invalid exchange: Nope".to_string()));
}

#[test]
fn exchange_ids_are_distinct() {
    for (i, a) in ALL_EXCHANGES.iter().enumerate() {
        for (j, b) in ALL_EXCHANGES.iter().enumerate() {
            assert_eq!(exchange_to_id(*a) == exchange_to_id(*b), i == j);
        }
    }
}

#[test]
fn timestamps_round_trip_and_saturate() {
    for ms in [0u64, 1, 1_700_000_000_000, (i64::MAX / 1_000_000) as u64] {
        assert_eq!(ns_to_timestamp(timestamp_to_ns(ms)), ms);
    }
    assert_eq!(timestamp_to_ns(u64::MAX / 2), i64::MAX);
    assert_eq!(ns_to_timestamp(-1_500_000), u64::MAX);
}

#[test]
fn migration_ids_follow_their_formulas() {
    assert_eq!(generate_trade_id(1, 1000, 0), 1i64 << 48);
    assert_eq!(generate_trade_id(2, 3 << 20, 0x1_0005), (2i64 << 48) | (3 << 16) | 5);
    assert_eq!(generate_footprint_id(5, 3), 6);
    assert_eq!(generate_run_id(1, 2, 3), generate_run_id(1, 2, 3));
    assert_ne!(generate_run_id(1, 2, 3), generate_run_id(1, 2, 4));
    assert_eq!(timeframe_to_string(300), "300ms");
    assert_eq!(timeframe_to_string(123), "123ms");
    assert_eq!(timeframe_to_string(21600000), "6h");
}

#[test]
fn exchange_ids_from_names() {
    assert_eq!(exchange_id_for_name("BinanceLinear"), 5);
    assert_eq!(exchange_id_for_name("OkexSpot"), 105);
    assert_eq!(exchange_id_for_name_checked("AsterLinear"), Some(19));
}

#[test]
fn stored_ids_depend_on_every_part() {
    let p = Price { units: 5_000_000_000_000 };
    assert_eq!(trade_hash_id(1, 10, p, 7), trade_hash_id(1, 10, p, 7));
    assert_ne!(trade_hash_id(1, 10, p, 7), trade_hash_id(1, 10, p, 8));
    assert_ne!(trade_hash_id(1, 10, p, 7), trade_hash_id(2, 10, p, 7));
    assert_ne!(generate_snapshot_id(1, 10), generate_snapshot_id(1, 11));
    let mut h = std::collections::hash_map::DefaultHasher::new();
    1i32.hash(&mut h);
    10u64.hash(&mut h);
    assert_eq!(generate_snapshot_id(1, 10), h.finish() as i64);
    let qty = 1.5f32;
    let mut h = std::collections::hash_map::DefaultHasher::new();
    1i32.hash(&mut h);
    10u64.hash(&mut h);
    p.units.hash(&mut h);
    (qty.to_bits() as u64).hash(&mut h);
    assert_eq!(trade_hash_id(1, 10, p, qty.to_bits()), h.finish() as i64);
    let mut h = std::collections::hash_map::DefaultHasher::new();
    7i32.hash(&mut h);
    "1m".hash(&mut h);
    99u64.hash(&mut h);
    assert_eq!(flowsurface::db::helpers::generate_kline_id(7, "1m", 99), h.finish() as i64);
}

#[test]
fn order_run_ids_hash_ticker_time_and_price() {
    let p = Price { units: 5_000_000 };
    let mut h = std::collections::hash_map::DefaultHasher::new();
    3i32.hash(&mut h);
    10u64.hash(&mut h);
    p.units.hash(&mut h);
    assert_eq!(order_run_id(3, 10, p), h.finish() as i64);
    assert_ne!(order_run_id(3, 10, p), order_run_id(3, 11, p));
    assert_ne!(order_run_id(3, 10, p), order_run_id(4, 10, p));
}

#[test]
fn order_run_batches_are_counted() {
    assert_eq!(dry_run_total(&[3, 0, 4]), 7);
    assert_eq!(dry_run_total(&[]), 0);
    let mut stats = MigrationStats::new();
    assert_eq!(record_batch_outcome(&mut stats, 1000, 500, false, &Ok(())), Some(1500));
    assert!(stats.errors.is_empty());
    let e = DatabaseError::Insert("disk full".to_string());
    assert_eq!(record_batch_outcome(&mut stats, 1000, 500, false, &Err(e.clone())), None);
    assert_eq!(record_batch_outcome(&mut stats, 1000, 20, true, &Err(e)), None);
    assert_eq!(
        stats.errors,
        vec![
            "Failed to insert batch: Insert error: disk full".to_string(),
            "Failed to insert final batch: Insert error: disk full".to_string(),
        ]
    );
    record_error(&mut stats, "Failed to get ticker_id: ", &DatabaseError::Query("gone".to_string()));
    assert_eq!(stats.errors[2], "Failed to get ticker_id: Query error: gone");
    assert_eq!(stats.runs_migrated, 0);
}

#[test]
fn batches_are_written_when_full() {
    assert!(!flush_due(999, 1000));
    assert!(flush_due(1000, 1000));
    assert!(flush_due(1, 0));
}

#[test]
fn text_splitting_and_trimming() {
    assert_eq!(split_char("a-b--c", '-'), vec!["a", "b", "", "c"]);
    assert_eq!(split_char("", '-'), vec![""]);
    assert_eq!(trim_end_str("x.zip.zip", ".zip"), "x");
    assert_eq!(trim_end_str("15", ".zip"), "15");
}

#[test]
fn archive_file_names() {
    let (info, date) = parse_archive_file_name("ETHUSDT-aggTrades-2023-12-31.zip.zip").unwrap();
    assert_eq!(info.ticker.as_str(), "ETHUSDT");
    assert_eq!(info.ticker.exchange, Exchange::BinanceLinear);
    assert_eq!(info.min_ticksize.power, -2);
    assert_eq!(info.min_qty.power, -3);
    assert!(info.contract_size.is_none());
    assert_eq!(date, "2023-12-31");
    assert_eq!(
        parse_archive_file_name("bad-name").unwrap_err(),
        DatabaseError::Migration("Invalid Binance archive filename format: bad-name".to_string())
    );
    assert!(!archive_file_name_readable("A-B-C-D"));
    assert!(archive_file_name_readable("A-B"));
}

#[test]
fn archive_paths_without_a_usable_name() {
    let m = ArchiveMigrator::new(MigrationConfig::default());
    assert_eq!(
        m.parse_archive_path(&PathBuf::from("/")).unwrap_err(),
        DatabaseError::Migration("Invalid file name".to_string())
    );
    assert_eq!(
        m.parse_archive_path(&PathBuf::from("dir/A-B-C-D")).unwrap_err(),
        DatabaseError::Migration("Unsupported Binance archive filename: A-B-C-D".to_string())
    );
}

#[test]
fn archive_outcomes_add_up() {
    let mut all = MigrationStats::new();
    let mut one = MigrationStats::new();
    one.trades_migrated = 7;
    one.add_error("row 3".to_string());
    record_archive_outcome(&mut all, "a.zip", Ok(one));
    record_archive_outcome(&mut all, "b.zip", Err(DatabaseError::Query("boom".to_string())));
    assert_eq!(all.files_processed, 1);
    assert_eq!(all.trades_migrated, 7);
    assert_eq!(all.errors, vec!["row 3".to_string(), "b.zip: Query error: boom".to_string()]);
}

#[test]
fn migration_report_text() {
    let mut s = MigrationStats::new();
    s.files_processed = 2;
    s.trades_migrated = 10;
    assert_eq!(
        s.report(),
        "Migration Statistics:\n  Files processed: 2\n  Trades migrated: 10\n  Klines migrated: 0\n  Footprints migrated: 0\n  Order runs migrated: 0\n"
    );
    s.add_error("first".to_string());
    s.add_error("second".to_string());
    assert!(s.has_errors());
    assert!(s.report().ends_with("  Errors encountered: 2\n    1: first\n    2: second\n"));
}

#[test]
fn timeseries_outcomes() {
    let mut s = MigrationStats::new();
    assert!(record_klines_outcome(&mut s, Ok(12)));
    record_footprints_outcome(&mut s, Err(DatabaseError::Insert("x".to_string())));
    assert_eq!(s.klines_migrated, 12);
    assert_eq!(s.footprints_migrated, 0);
    assert_eq!(s.errors, vec!["Failed to migrate footprints: Insert error: x".to_string()]);
    let mut t = MigrationStats::new();
    assert!(!record_klines_outcome(&mut t, Err(DatabaseError::LockError)));
    assert_eq!(
        t.errors,
        vec!["Failed to migrate klines: Lock error: failed to acquire database lock".to_string()]
    );
}

#[test]
fn health_checks_record_outcomes() {
    let mut h = HealthCheck::passed();
    assert!(h.record_tables(&Ok(())));
    assert!(h.record_row_counts(Ok(row_count_warnings(0, 5))));
    assert_eq!(h.status, HealthCheckStatus::Warning);
    assert_eq!(h.messages, vec!["No exchanges found in database".to_string()]);
    assert!(h.record_integrity(&integrity_outcome(0, 0)));
    h.finish();
    assert_eq!(h.messages.len(), 1);

    let mut f = HealthCheck::passed();
    assert!(!f.record_tables(&Err(missing_table_error("trades"))));
    assert!(f.is_failed());
    assert_eq!(
        f.messages,
        vec!["Table existence check failed: Migration error: Required table 'trades' does not exist"
            .to_string()]
    );

    let mut ok = HealthCheck::passed();
    ok.finish();
    assert_eq!(ok.messages, vec!["All verification checks passed".to_string()]);
    assert!(ok.is_passed());

    let w = HealthCheck::warning("careful");
    assert_eq!(w.status, HealthCheckStatus::Warning);
    assert_eq!(w.messages, vec!["careful".to_string()]);
}

#[test]
fn integrity_outcomes() {
    assert_eq!(
        integrity_outcome(2, 9),
        Err(DatabaseError::Migration("Found 2 trades with negative prices".to_string()))
    );
    assert_eq!(
        integrity_outcome(0, 3),
        Err(DatabaseError::Migration("Found 3 klines with null price fields".to_string()))
    );
    assert_eq!(integrity_outcome(0, 0), Ok(()));
    assert_eq!(row_count_warnings(1, 1), Vec::<String>::new());
    assert_eq!(row_count_warnings(0, 0).len(), 2);
    assert_eq!(required_tables().len(), 8);
    assert_eq!(required_tables()[0], "schema_version");
}

#[test]
fn rollback_steps() {
    let passed = HealthCheck::passed();
    let failed = HealthCheck::failed("bad");
    let without = MigrationGuard::new(None, PathBuf::from("db"), BackupManager::new(PathBuf::from("b")));
    assert_eq!(without.rollback_step(&passed), Ok(RollbackStep::Keep));
    assert_eq!(
        without.rollback_step(&failed),
        Err(DatabaseError::Migration("No backup available for rollback".to_string()))
    );
    let backup = BackupMetadata {
        timestamp: "20240101_000000".to_string(),
        backup_path: PathBuf::from("b/backup_20240101_000000"),
        files: Vec::new(),
        schema_version: 1,
    };
    let with = MigrationGuard::new(Some(backup), PathBuf::from("db"), BackupManager::new(PathBuf::from("b")));
    assert_eq!(with.rollback_step(&failed), Ok(RollbackStep::RestoreBackup));
    assert_eq!(with.rollback_step(&HealthCheck::warning("w")), Ok(RollbackStep::Keep));
}

fn backup_at(ts: &str) -> BackupMetadata {
    BackupMetadata {
        timestamp: ts.to_string(),
        backup_path: PathBuf::from(backup_dir_name(ts)),
        files: Vec::new(),
        schema_version: 1,
    }
}

#[test]
fn backups_sort_newest_first() {
    assert_eq!(backup_dir_name("20240101_000000"), "backup_20240101_000000");
    let sorted = sort_newest_first(vec![
        backup_at("20240101_000000"),
        backup_at("20240301_000000"),
        backup_at("20240201_120000"),
        backup_at("20240201_000000"),
    ]);
    let order: Vec<&str> = sorted.iter().map(|b| b.timestamp.as_str()).collect();
    assert_eq!(order, vec!["20240301_000000", "20240201_120000", "20240201_000000", "20240101_000000"]);
    let mut first = backup_at("20240201_000000");
    first.schema_version = 7;
    let mut second = backup_at("20240201_000000");
    second.schema_version = 8;
    let tied = sort_newest_first(vec![first, backup_at("20240101_000000"), second, backup_at("20240301_000000")]);
    let versions: Vec<(&str, i32)> = tied.iter().map(|b| (b.timestamp.as_str(), b.schema_version)).collect();
    assert_eq!(
        versions,
        vec![("20240301_000000", 1), ("20240201_000000", 7), ("20240201_000000", 8), ("20240101_000000", 1)]
    );
}

#[test]
fn backups_expire_after_retention() {
    assert!(!backup_expired(&Duration::from_secs(86_400), 1));
    assert!(backup_expired(&(Duration::from_secs(86_400) + Duration::from_nanos(1)), 1));
    assert!(backup_expired(&Duration::from_secs(1), 0));
    assert!(!backup_expired(&Duration::ZERO, 0));
}

#[test]
fn thousands_separators() {
    assert_eq!(format_number(0), "0");
    assert_eq!(format_number(999), "999");
    assert_eq!(format_number(1000), "1,000");
    assert_eq!(format_number(1234567), "1,234,567");
    assert_eq!(format_number(-123), "-,123");
    assert_eq!(format_number(-1234), "-1,234");
}

#[test]
fn unique_streams_keep_one_of_each() {
    let btc = btc_info(Exchange::BinanceLinear);
    let eth = TickerInfo::with_powers(Ticker::new("ETHUSDT", Exchange::BybitLinear), -2, -3, None);
    let k1 = StreamKind::Kline { ticker_info: btc, timeframe: Timeframe::M1 };
    let d1 = StreamKind::DepthAndTrades {
        ticker_info: eth,
        depth_aggr: StreamTicksize::Client,
        push_freq: PushFrequency::ServerDefault,
    };
    let k2 = StreamKind::Kline { ticker_info: eth, timeframe: Timeframe::H1 };
    let mut u = UniqueStreams::from(&[k1, d1, k1]);
    u.add(k2);
    u.add(d1);
    assert!(u.contains(&k1) && u.contains(&d1) && u.contains(&k2));
    assert_eq!(u.kline_streams(Some(Exchange::BinanceLinear)).len(), 1);
    assert_eq!(u.kline_streams(Some(Exchange::BybitLinear)).len(), 1);
    assert_eq!(u.kline_streams(None).len(), 2);
    assert_eq!(u.depth_streams(None).len(), 1);
    let used: Vec<Exchange> = u.combined_used().iter().map(|(e, _)| *e).collect();
    assert_eq!(used, vec![Exchange::BinanceLinear, Exchange::BybitLinear]);
    assert!(u.specs_for(Exchange::OkexSpot).is_none());
    let specs: StreamSpecs = u.specs_for(Exchange::BybitLinear).unwrap();
    assert_eq!(specs.depth.len(), 1);
    assert_eq!(specs.kline.len(), 1);
    assert!(StreamSpecs::default().depth.is_empty());
}

#[test]
fn ticker_cache_reads_back_what_was_written() {
    let key = ticker_cache_key(5, "BTCUSDT");
    assert_eq!(key, "5:BTCUSDT");
    assert_eq!(ticker_cache_key(-3, "X"), "-3:X");
    let mut c = TickerCache::new();
    assert_eq!(c.get(&key), None);
    c.insert(key.clone(), 42);
    c.insert("1:ETH".to_string(), 7);
    c.insert(key.clone(), 43);
    assert_eq!(c.get(&key), Some(43));
    assert_eq!(c.get("1:ETH"), Some(7));
    assert_eq!(c.len(), 2);
    c.clear();
    assert_eq!(c.get(&key), None);
    assert_eq!(c.len(), 0);
}

#[test]
fn ticker_cache_empties_when_full() {
    let mut c = TickerCache::new();
    for i in 0..10_000 {
        c.insert(format!("k{}", i), i);
    }
    assert_eq!(c.len(), 10_000);
    c.insert("new".to_string(), 1);
    assert_eq!(c.len(), 1);
    assert_eq!(c.get("k0"), None);
}

#[test]
fn metric_timers_count_operations() {
    let mut m = PerformanceMetrics::new();
    MetricTimer::insert().stop(&mut m);
    MetricTimer::query().stop(&mut m);
    MetricTimer::query().stop(&mut m);
    let s = m.get_statistics();
    assert_eq!(s.insert_count, 1);
    assert_eq!(s.query_count, 2);
}

#[test]
fn performance_warnings_name_each_threshold() {
    let mut m = PerformanceMetrics::new();
    m.record_insert_latency(Duration::from_millis(150));
    m.record_query_latency(Duration::from_millis(1500));
    let s = m.get_statistics();
    assert_eq!(
        s.performance_warnings(),
        vec![
            PerformanceWarning::HighAverageInsert(150_000),
            PerformanceWarning::HighMaxInsert(150_000),
            PerformanceWarning::HighAverageQuery(1_500_000),
            PerformanceWarning::HighMaxQuery(1_500_000),
        ]
    );
    let mut quick = PerformanceMetrics::new();
    quick.record_insert_latency(Duration::from_millis(10));
    assert!(!quick.get_statistics().has_performance_issues());
}

#[test]
fn durations_and_progress_lines() {
    assert_eq!(format_duration(Duration::from_secs(0)), "0s");
    assert_eq!(format_duration(Duration::from_secs(3599)), "59m 59s");
    assert_eq!(format_duration(Duration::from_secs(7322)), "2h 2m");
    let mut t = ProgressTracker::new(10, "Load");
    t.set_processed(4);
    t.update(3);
    assert_eq!(t.processed_items, 7);
    assert!(t.finish().starts_with("Load: Completed 7 items in "));
}

#[test]
fn migrations_pending_and_rollback() {
    let m = MigrationManager::new(vec![
        Migration::with_rollback(2, "two", "SELECT 2;", "SELECT -2;"),
        Migration::new(1, "one", "SELECT 1;"),
        Migration::new(3, "three", "SELECT 3;"),
    ]);
    assert_eq!(m.pending_indices(1), vec![1, 2]);
    assert!(m.has_pending_migrations(2));
    assert!(!m.has_pending_migrations(3));
    assert_eq!(m.rollback_target(2), Ok(1));
    assert_eq!(
        m.rollback_target(0),
        Err(DatabaseError::Schema("No migrations to rollback".to_string()))
    );
    assert_eq!(
        m.rollback_target(3),
        Err(DatabaseError::Schema("Migration version 3 has no rollback SQL".to_string()))
    );
    assert_eq!(
        m.rollback_target(9),
        Err(DatabaseError::Schema("Migration version 9 not found in migration list".to_string()))
    );
}

#[test]
fn chase_follows_and_fades() {
    let mut t = ChaseTracker::new();
    t.update(Some(Price { units: 100 }), true);
    assert_eq!(t.segment_steps(), None);
    t.update(Some(Price { units: 101 }), true);
    assert_eq!(t.segment_steps(), Some((Price { units: 100 }, Price { units: 101 }, 1, 0)));
    t.update(Some(Price { units: 102 }), true);
    assert_eq!(t.segment_steps(), Some((Price { units: 100 }, Price { units: 102 }, 2, 0)));
    t.update(Some(Price { units: 102 }), true);
    assert_eq!(t.segment_steps(), Some((Price { units: 100 }, Price { units: 102 }, 2, 0)));
    t.update(Some(Price { units: 102 }), true);
    assert_eq!(t.segment_steps(), Some((Price { units: 100 }, Price { units: 102 }, 2, 1)));
    t.update(None, true);
    assert_eq!(t.segment_steps(), None);
}

#[test]
fn small_values_and_labels() {
    assert_eq!(InvalidTimeframe(42).to_message(), "Invalid milliseconds value for Timeframe: 42");
    assert!(PreferredCurrency::Quote.size_in_quote());
    assert!(!PreferredCurrency::Base.size_in_quote());
    assert_eq!(flag_from_int(Some(0)), Ok(false));
    assert_eq!(flag_from_int(Some(1)), Ok(true));
    assert_eq!(flag_from_int(Some(2)), Err("expected 0 or 1"));
    assert_eq!(flag_from_int(None), Err("expected 0 or 1"));
    assert_eq!(
        HeatmapStudy::VolumeProfile(ProfileKind::VisibleRange).to_label(),
        "Volume Profile (Visible range)"
    );
    assert_eq!(ProfileKind::FixedWindow(10).to_label(), "Fixed window");
    assert_eq!(HeatmapStudy::all(), vec![HeatmapStudy::VolumeProfile(ProfileKind::VisibleRange)]);
    let c = Config::default();
    assert!(!c.show_spread);
    assert_eq!(c.trade_retention, Duration::from_secs(480));
}

#[test]
fn database_settings_statements() {
    let c = DatabaseConfig::new();
    assert_eq!(c.memory_limit_gb, Some(8));
    assert_eq!(c.memory_limit_sql(), Some("SET memory_limit='8GB'".to_string()));
    assert_eq!(c.threads_sql(), None);
    let c = c.with_memory_limit(2).with_threads(4).with_temp_directory(PathBuf::from("/tmp/x"));
    assert_eq!(c.memory_limit_sql(), Some("SET memory_limit='2GB'".to_string()));
    assert_eq!(c.threads_sql(), Some("SET threads=4".to_string()));
    assert_eq!(c.temp_directory, Some(PathBuf::from("/tmp/x")));
    assert_eq!(temp_directory_sql("/tmp/x"), "SET temp_directory='/tmp/x'");
}

#[test]
fn query_cache_bounds_and_invalidates() {
    let mut c: QueryCache<String, Vec<u32>> = QueryCache::with_config(2, Duration::from_secs(300));
    c.put_trades(1, 0, 10, vec![1]);
    c.put_trades(2, 0, 10, vec![2]);
    c.put_trades(3, 0, 10, vec![3]);
    assert_eq!(c.stats().trades_entries, 2);
    assert!(c.get_trades(1, 0, 10).is_none());
    assert_eq!(*c.get_trades(3, 0, 10).unwrap(), vec![3]);
    c.put_timeseries(3, Timeframe::M1, 0, 10, "m1".to_string());
    assert_eq!(*c.get_timeseries(3, Timeframe::M1, 0, 10).unwrap(), "m1");
    assert!(c.get_timeseries(3, Timeframe::M5, 0, 10).is_none());
    c.invalidate_ticker(3);
    assert!(c.get_trades(3, 0, 10).is_none());
    assert!(c.get_timeseries(3, Timeframe::M1, 0, 10).is_none());
    assert_eq!(*c.get_trades(2, 0, 10).unwrap(), vec![2]);
    let stats = c.stats();
    assert_eq!((stats.timeseries_entries, stats.trades_entries, stats.max_entries, stats.ttl_seconds), (0, 1, 2, 300));
    c.clear();
    assert_eq!(c.stats().trades_entries, 0);
    let d: QueryCache<u8, u8> = QueryCache::new();
    assert_eq!((d.stats().max_entries, d.stats().ttl_seconds), (100, 300));
}

#[test]
fn query_cache_entries_expire() {
    let mut c: QueryCache<u8, u8> = QueryCache::with_config(10, Duration::ZERO);
    c.put_trades(1, 0, 1, 9);
    let start = std::time::Instant::now();
    while start.elapsed() < Duration::from_millis(2) {}
    assert!(c.get_trades(1, 0, 1).is_none());
    assert_eq!(c.stats().trades_entries, 0);
}

#[test]
fn cache_entry_expires_after_its_ttl() {
    let e = CacheEntry::new(7u8);
    assert_eq!(*e.data, 7);
    assert!(!e.is_expired(&Duration::from_secs(300)));
    let start = std::time::Instant::now();
    while start.elapsed() < Duration::from_millis(2) {}
    assert!(e.is_expired(&Duration::ZERO));
}

#[test]
fn aster_stream_paths() {
    let btc = btc_info(Exchange::AsterLinear);
    let eth = TickerInfo::with_powers(Ticker::new("ETHUSDT", Exchange::AsterLinear), -2, -3, None);
    assert_eq!(market_stream_path(&btc), "/stream?streams=btcusdt@depth/btcusdt@aggTrade");
    assert_eq!(
        kline_stream_path(&[(btc, Timeframe::M1), (eth, Timeframe::MS100), (eth, Timeframe::H1)]),
        "/stream?streams=btcusdt@kline_1m/ethusdt@kline_1h"
    );
    assert_eq!(kline_stream_path(&[]), "/stream?streams=");
}

#[test]
fn aster_messages_are_told_apart() {
    assert_eq!(message_kind("btcusdt@depth"), MessageKind::Depth);
    assert_eq!(message_kind("btcusdt@aggTrade"), MessageKind::Trade);
    assert_eq!(message_kind("btcusdt@kline_1m"), MessageKind::Kline);
    assert_eq!(message_kind("depth@aggTrade"), MessageKind::Depth);
    assert_eq!(message_kind("ticker"), MessageKind::Unknown);
    assert_eq!(kline_message_symbol("btcusdt@kline_1m"), "BTCUSDT");
    assert_eq!(kline_message_symbol(""), "");
    assert!(eq_ignore_ascii_case("BTCusdt", "btcUSDT"));
    assert!(!eq_ignore_ascii_case("ab", "a"));
    assert!(!eq_ignore_ascii_case("a", "b"));
    let btc = btc_info(Exchange::AsterLinear);
    let eth = TickerInfo::with_powers(Ticker::new("ETHUSDT", Exchange::AsterLinear), -2, -3, None);
    let streams = [(btc, Timeframe::M1), (eth, Timeframe::H1), (eth, Timeframe::M5)];
    assert_eq!(find_kline_stream(&streams, "ethusdt"), Some(1));
    assert_eq!(find_kline_stream(&streams, "SOLUSDT"), None);
}

#[test]
fn aster_depth_connection_keeps_its_sequence() {
    let s = market_stream_start();
    let (s, a) = market_stream_step(s, SocketEvent::ConnectFailed("refused".to_string()));
    assert!(!s.connected);
    assert_eq!(
        a,
        SocketAction::ReportDisconnected { reason: "WebSocket connection failed: refused".to_string(), retry_later: true }
    );
    let (s, a) = market_stream_step(s, SocketEvent::SnapshotReceived(100));
    assert!(s.connected && s.last_update_id == 100);
    assert_eq!(a, SocketAction::ApplySnapshot);
    let (s, a) = market_stream_step(s, SocketEvent::DepthUpdate { first_update_id: 95, final_update_id: 105 });
    assert_eq!(a, SocketAction::ApplyUpdate(105));
    assert_eq!(s.last_update_id, 105);
    let (s, a) = market_stream_step(s, SocketEvent::Trades);
    assert_eq!(a, SocketAction::BufferTrades);
    let (s, a) = market_stream_step(s, SocketEvent::DepthUpdate { first_update_id: 107, final_update_id: 110 });
    assert!(!s.connected);
    assert_eq!(
        a,
        SocketAction::ReportDisconnected { reason: "Sequence break detected".to_string(), retry_later: false }
    );
    let (_, a) = market_stream_step(s, SocketEvent::TimedOut);
    assert_eq!(
        a,
        SocketAction::ReportDisconnected { reason: "Connection timeout".to_string(), retry_later: false }
    );
}

#[test]
fn aster_candle_connection_routes_candles() {
    let btc = btc_info(Exchange::AsterLinear);
    let streams = [(btc, Timeframe::M1)];
    assert_eq!(kline_connection_exchange(&streams), Some(Exchange::AsterLinear));
    assert_eq!(kline_connection_exchange(&[]), None);
    assert_eq!(kline_stream_step(&streams, false, SocketEvent::Opened), (true, SocketAction::ReportConnected));
    assert_eq!(
        kline_stream_step(&streams, true, SocketEvent::Kline("BTCUSDT".to_string())),
        (true, SocketAction::SendKline(0))
    );
    assert_eq!(kline_stream_step(&streams, true, SocketEvent::Kline("X".to_string())), (true, SocketAction::Ignore));
    assert_eq!(kline_stream_step(&streams, true, SocketEvent::Ping), (true, SocketAction::Pong));
    assert_eq!(
        kline_stream_step(&streams, true, SocketEvent::Closed),
        (false, SocketAction::ReportDisconnected { reason: "Connection closed".to_string(), retry_later: false })
    );
}

#[test]
fn health_findings_record_each_check() {
    let mut f = HealthFindings::new();
    assert!(!f.is_healthy());
    f.record_connection(&Ok(()));
    f.record_query_latency(&Ok(Duration::from_millis(250)));
    assert!(f.is_healthy());
    assert_eq!(f.query_latency_ms, 250);
    assert_eq!(f.summary_line(), None);
    f.record_query_latency(&Ok(Duration::from_millis(1000)));
    assert!(f.warnings.is_empty());
    f.record_query_latency(&Ok(Duration::from_micros(1_000_001)));
    assert_eq!(f.query_latency_ms, 1000);
    f.record_query_latency(&Ok(Duration::from_millis(1500)));
    assert_eq!(
        f.warnings,
        vec![
            "Slow query detected: 1000ms (threshold: 1000ms)".to_string(),
            "Slow query detected: 1500ms (threshold: 1000ms)".to_string(),
        ]
    );
    f.record_disk_failure(&DatabaseError::Configuration("no metadata".to_string()));
    assert_eq!(f.warnings[2], "Disk space check failed: Configuration error: no metadata");
    assert_eq!(
        f.summary_line(),
        Some(format!("Healthy with warnings: {}", f.warnings.join(", ")))
    );
    f.record_connection(&Err(DatabaseError::LockError));
    f.record_query_latency(&Err(DatabaseError::Query("timeout".to_string())));
    assert!(!f.is_healthy());
    assert_eq!(
        f.summary_line(),
        Some(
            "Unhealthy - errors: Connection check failed: Lock error: failed to acquire database lock, Query performance check failed: Query error: timeout"
                .to_string()
        )
    );
    assert_eq!(f.query_latency_ms, 1500);
}

#[test]
fn strings_join_with_a_separator() {
    assert_eq!(join_strings(&vec![], ", "), "");
    assert_eq!(join_strings(&vec!["a".to_string()], ", "), "a");
    assert_eq!(join_strings(&vec!["a".to_string(), "b".to_string(), "c".to_string()], "/"), "a/b/c");
}

#[test]
fn fetches_come_from_the_first_matching_stream() {
    let btc = btc_info(Exchange::BinanceLinear);
    let depth = StreamKind::DepthAndTrades {
        ticker_info: btc,
        depth_aggr: StreamTicksize::Client,
        push_freq: PushFrequency::ServerDefault,
    };
    let m1 = StreamKind::Kline { ticker_info: btc, timeframe: Timeframe::M1 };
    let h1 = StreamKind::Kline { ticker_info: btc, timeframe: Timeframe::H1 };
    let ready = ResolvedStream::Ready(vec![depth, m1, h1]);
    assert!(matches!(
        fetch_plan(&ready, FetchRange::Kline(1, 2)),
        FetchPlan::Klines { stream, from: 1, to: 2 } if stream == m1
    ));
    assert!(matches!(
        fetch_plan(&ready, FetchRange::OpenInterest(3, 4)),
        FetchPlan::OpenInterest { stream, from: 3, to: 4 } if stream == m1
    ));
    assert!(matches!(
        fetch_plan(&ready, FetchRange::Trades(5, 6)),
        FetchPlan::Trades { ticker_info, stream, from: 5, to: 6 } if ticker_info == btc && stream == depth
    ));
    let bybit = StreamKind::DepthAndTrades {
        ticker_info: btc_info(Exchange::BybitLinear),
        depth_aggr: StreamTicksize::Client,
        push_freq: PushFrequency::ServerDefault,
    };
    let only_bybit = ResolvedStream::Ready(vec![bybit]);
    assert!(matches!(fetch_plan(&only_bybit, FetchRange::Trades(5, 6)), FetchPlan::Nothing));
    assert!(matches!(fetch_plan(&only_bybit, FetchRange::Kline(1, 2)), FetchPlan::Nothing));
    let waiting = ResolvedStream::Waiting(vec![]);
    assert!(matches!(fetch_plan(&waiting, FetchRange::Kline(1, 2)), FetchPlan::Nothing));
}

#[test]
fn ladder_trades_are_cleaned_up_in_steps() {
    let retention = Config::default().retention_ms();
    assert_eq!(retention, 480_000);
    assert_eq!(cleanup_cutoff(retention, Some(0), 527_999), None);
    assert_eq!(cleanup_cutoff(retention, Some(0), 528_000), Some(48_000));
    assert_eq!(cleanup_cutoff(retention, None, 10_000_000), None);
    assert_eq!(cleanup_cutoff(0, Some(0), 10_000_000), None);
    assert_eq!(cleanup_cutoff(10_000, Some(100), 15_099), None);
    assert_eq!(cleanup_cutoff(10_000, Some(100), 15_100), Some(5_100));
    assert_eq!(cleanup_cutoff(10_000, Some(20_000), 100), None);
    assert_eq!(leading_expired(&[1, 2, 5, 3], 4), 2);
    assert_eq!(leading_expired(&[], 4), 0);
    assert_eq!(leading_expired(&[1, 2], 4), 2);
}

#[test]
fn aster_rest_requests() {
    let btc = btc_info(Exchange::AsterLinear);
    assert_eq!(
        klines_url(&btc, Timeframe::M1, None),
        Ok("https://fapi.asterdex.com/fapi/v1/klines?symbol=BTCUSDT&interval=1m&limit=500".to_string())
    );
    assert_eq!(
        klines_url(&btc, Timeframe::H4, Some((1, 2))),
        Ok("https://fapi.asterdex.com/fapi/v1/klines?symbol=BTCUSDT&interval=4h&startTime=1&endTime=2".to_string())
    );
    assert_eq!(klines_url(&btc, Timeframe::MS100, None), Err("Unsupported timeframe: MS100".to_string()));
    assert_eq!(
        klines_url(&btc_info(Exchange::BinanceSpot), Timeframe::M1, None),
        Err("Aster DEX spot markets are not supported yet".to_string())
    );
    assert_eq!(
        klines_url(&btc_info(Exchange::BinanceInverse), Timeframe::M1, None),
        Err("Unsupported market type".to_string())
    );
    assert_eq!(
        open_interest_url(&btc.ticker, Some((5, 6)), Timeframe::H1),
        Ok("https://fapi.asterdex.com/futures/data/openInterestHist?symbol=BTCUSDT&period=1h&startTime=5&endTime=6".to_string())
    );
    assert_eq!(
        open_interest_url(&Ticker::new("BTCUSDT", Exchange::BinanceLinear), None, Timeframe::H1),
        Err("Open interest only available for linear perpetuals".to_string())
    );
    assert_eq!(
        open_interest_url(&btc.ticker, None, Timeframe::MS500),
        Err("Unsupported timeframe: MS500".to_string())
    );
    assert_eq!(
        depth_snapshot_url("BTCUSDT", MarketKind::LinearPerps),
        Ok("https://fapi.asterdex.com/fapi/v1/depth?symbol=BTCUSDT&limit=1000".to_string())
    );
    assert_eq!(
        depth_snapshot_url("BTCUSDT", MarketKind::Spot),
        Ok("https://fapi.asterdex.com/api/v3/depth?symbol=BTCUSDT&limit=1000".to_string())
    );
    assert_eq!(depth_snapshot_url("BTCUSDT", MarketKind::InversePerps), Err("Unsupported market type".to_string()));
    assert_eq!(exchange_info_market(MarketKind::LinearPerps), Ok(Exchange::AsterLinear));
    assert_eq!(
        exchange_info_market(MarketKind::Spot),
        Err("Aster DEX spot markets are not supported yet (API endpoint unclear)".to_string())
    );
    assert_eq!(
        ticker_stats_market(MarketKind::InversePerps),
        Err("Aster DEX does not support inverse perpetuals".to_string())
    );
    assert_eq!(ticker_stats_market(MarketKind::Spot), Err("Aster DEX spot markets are not supported yet".to_string()));
    assert!(is_trading("TRADING"));
    assert!(!is_trading("BREAK"));
    assert_eq!(Timeframe::MS1000.debug_name(), format!("{:?}", Timeframe::MS1000));
}

#[test]
fn tickers_debug_print_with_market_and_kind() {
    assert_eq!(
        Ticker::new("BTCUSDT", Exchange::BinanceLinear).debug_text(),
        "Ticker(BinanceLinear:BTCUSDT, LinearPerps)"
    );
    assert_eq!(
        Ticker::new_with_display("@107", Exchange::HyperliquidSpot, Some("HYPE")).debug_text(),
        "Ticker(HyperliquidSpot:HYPE[@107], Spot)"
    );
    assert_eq!(
        Ticker::new("BTC", Exchange::HyperliquidLinear).debug_text(),
        "Ticker(HyperliquidLinear:BTCUSDT, LinearPerps)"
    );
    assert_eq!(
        Ticker::new_with_display("ABC", Exchange::BinanceSpot, Some("ABC")).debug_text(),
        "Ticker(BinanceSpot:ABC, Spot)"
    );
    assert_eq!(MarketKind::InversePerps.debug_name(), format!("{:?}", MarketKind::InversePerps));
}

fn pack_old(codes: &[u64]) -> [u64; 2] {
    let mut data = [0u64; 2];
    for (i, c) in codes.iter().enumerate() {
        data[i / 10] |= c << ((i % 10) * 6);
    }
    data
}

#[test]
fn old_packed_tickers_are_read() {
    let t = Ticker::from_old_packed(pack_old(&[11, 29, 12, 36, 1]), 5, "BinanceLinear").unwrap();
    assert_eq!(t.as_str(), "BTC_1");
    assert_eq!(t.exchange, Exchange::BinanceLinear);
    assert_eq!(t.display_symbol(), None);
    let codes: Vec<u64> = (10..21).collect();
    let long = Ticker::from_old_packed(pack_old(&codes), 11, "BybitSpot").unwrap();
    assert_eq!(long.as_str(), "ABCDEFGHIJK");
    assert_eq!(
        Ticker::from_old_packed(pack_old(&[1, 37, 2]), 3, "BybitSpot"),
        Err("invalid old char code 37".to_string())
    );
    assert_eq!(Ticker::from_old_packed([0, 0], 21, "BybitSpot"), Err("old Ticker.len > 20".to_string()));
    assert_eq!(
        Ticker::from_old_packed(pack_old(&[1]), 1, "Foo"),
        Err("Unknown exchange: Foo".to_string())
    );
}

#[test]
fn exchanges_parse_from_their_names() {
    assert_eq!("Binance Linear".parse::<Exchange>(), Ok(Exchange::BinanceLinear));
    assert_eq!("Aster Linear".parse::<Exchange>(), Ok(Exchange::AsterLinear));
    assert_eq!("Nope".parse::<Exchange>(), Err("Invalid exchange: Nope".to_string()));
}

#[test]
fn cached_results_expire_at_a_given_time() {
    let mut c: QueryCache<u8, u8> = QueryCache::with_config(10, Duration::from_secs(300));
    c.put_trades(1, 0, 1, 9);
    let now = std::time::Instant::now();
    assert_eq!(c.get_trades_at(1, 0, 1, &(now + Duration::from_secs(200))).map(|a| *a), Some(9));
    assert_eq!(c.get_trades_at(2, 0, 1, &(now + Duration::from_secs(200))), None);
    assert_eq!(c.get_trades_at(1, 0, 1, &(now + Duration::from_secs(400))), None);
    assert_eq!(c.stats().trades_entries, 0);
    c.put_timeseries(1, Timeframe::M1, 0, 1, 4);
    assert_eq!(c.get_timeseries_at(1, Timeframe::M1, 0, 1, &(now + Duration::from_secs(1))).map(|a| *a), Some(4));
    let e = CacheEntry::new(3u8);
    assert!(!e.is_expired_at(&(e.cached_at + Duration::from_secs(300)), &Duration::from_secs(300)));
    assert!(e.is_expired_at(&(e.cached_at + Duration::from_millis(300_001)), &Duration::from_secs(300)));
}

#[test]
fn timers_and_trackers_read_a_given_time() {
    let mut m = PerformanceMetrics::new();
    let t = MetricTimer::insert();
    let at = t.start + Duration::from_micros(5_000);
    t.stop_at(&at, &mut m);
    let q = MetricTimer::query();
    let at = q.start + Duration::from_micros(700);
    q.stop_at(&at, &mut m);
    let s = m.get_statistics();
    assert_eq!((s.insert_count, s.avg_insert_latency_us, s.query_count, s.max_query_latency_us), (1, 5_000, 1, 700));
    let mut p = ProgressTracker::new(10, "Load");
    let last = p.last_update;
    assert!(!p.throttle(last + Duration::from_millis(100)));
    assert!(p.throttle(last + Duration::from_millis(600)));
    assert_eq!(p.last_update, last + Duration::from_millis(600));
    let line = p.finish_at(&(p.start_time + Duration::from_secs(65)));
    assert_eq!(line, format!("Load: Completed 0 items in {}", format_duration(Duration::from_secs(65))));
}

#[test]
fn extending_streams_keeps_first_occurrences_in_order() {
    let btc = btc_info(Exchange::BinanceLinear);
    let k1 = StreamKind::Kline { ticker_info: btc, timeframe: Timeframe::M1 };
    let k2 = StreamKind::Kline { ticker_info: btc, timeframe: Timeframe::M5 };
    let k3 = StreamKind::Kline { ticker_info: btc, timeframe: Timeframe::H1 };
    let mut u = UniqueStreams::from(&[k1]);
    u.extend(&[k3, k1, k2, k3]);
    assert_eq!(
        u.kline_streams(Some(Exchange::BinanceLinear)),
        vec![(btc, Timeframe::M1), (btc, Timeframe::H1), (btc, Timeframe::M5)]
    );
}

#[test]
fn chase_segments_follow_the_side_and_vanish_on_a_steady_price() {
    let mut t = ChaseTracker::new();
    for p in [Some(10), Some(12), Some(15)] {
        t.update(p.map(|units| Price { units }), true);
    }
    let (s, e, n, _) = t.segment_steps().unwrap();
    assert!(s.units < e.units && n == 2);
    let mut a = ChaseTracker::new();
    for p in [Some(15), Some(12), Some(10)] {
        a.update(p.map(|units| Price { units }), false);
    }
    let (s, e, _, _) = a.segment_steps().unwrap();
    assert!(s.units > e.units);
    a.update(None, false);
    for _ in 0..3 {
        a.update(Some(Price { units: 7 }), false);
    }
    assert_eq!(a.segment_steps(), None);
}

#[test]
fn ladder_rows_map_to_prices_around_the_spread() {
    let tick = PriceStep { units: 5 };
    let grid = PriceGrid { best_bid: Price { units: 100 }, best_ask: Price { units: 105 }, tick };
    assert_eq!(grid.index_to_price(0), None);
    assert_eq!(grid.index_to_price(1), Some(Price { units: 100 }));
    assert_eq!(grid.index_to_price(3), Some(Price { units: 90 }));
    assert_eq!(grid.index_to_price(-1), Some(Price { units: 105 }));
    assert_eq!(grid.index_to_price(-3), Some(Price { units: 115 }));
    assert_eq!(Price { units: 7 }.add_steps(-2, tick), Price { units: -3 });
}
