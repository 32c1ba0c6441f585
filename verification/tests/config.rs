use db_wrap::config::{EngineSettings, RocksdbOptions};
use db_wrap::server::DbConfig;

#[test]
fn default_options_are_all_given() {
    let o = RocksdbOptions::default();
    assert!(o.create_if_missing);
    assert!(!o.atomic_flush);
    assert_eq!(o.use_fsync, Some(true));
    assert_eq!(o.log_file_num, Some(2));
    assert_eq!(o.log_file_size, Some(20_000_000));
    assert_eq!(o.max_total_wal_size, Some(10_485_760));
    assert_eq!(o.bytes_per_sync, Some(65_536));
}

#[test]
fn default_settings_have_exact_values() {
    assert_eq!(
        RocksdbOptions::default().settings(),
        EngineSettings {
            create_if_missing: true,
            atomic_flush: false,
            use_fsync: true,
            keep_log_file_num: 2,
            max_log_file_size: 20 * 1000 * 1000,
            max_total_wal_size: 10 << 20,
            bytes_per_sync: 64 * 1024,
        }
    );
}

#[test]
fn absent_entries_take_their_defaults() {
    let o = RocksdbOptions {
        create_if_missing: false,
        atomic_flush: true,
        use_fsync: None,
        log_file_num: None,
        log_file_size: None,
        max_total_wal_size: None,
        bytes_per_sync: None,
    };
    assert_eq!(
        o.settings(),
        EngineSettings {
            create_if_missing: false,
            atomic_flush: true,
            use_fsync: true,
            keep_log_file_num: 2,
            max_log_file_size: 20_000_000,
            max_total_wal_size: 10_485_760,
            bytes_per_sync: 65_536,
        }
    );
}

#[test]
fn given_entries_are_kept() {
    let o = RocksdbOptions {
        create_if_missing: true,
        atomic_flush: false,
        use_fsync: Some(false),
        log_file_num: Some(5),
        log_file_size: Some(100_000_000),
        max_total_wal_size: Some(1),
        bytes_per_sync: Some(0),
    };
    let s = o.settings();
    assert!(!s.use_fsync);
    assert_eq!(s.keep_log_file_num, 5);
    assert_eq!(s.max_log_file_size, 100_000_000);
    assert_eq!(s.max_total_wal_size, 1);
    assert_eq!(s.bytes_per_sync, 0);
}

#[test]
fn service_without_options_leaves_engine_defaults() {
    let c = DbConfig {
        port: 8000,
        num_workers: 4,
        db_path: "/data".to_string(),
        token: "t".to_string(),
        options: None,
    };
    assert_eq!(c.get_opt(), None);
}

#[test]
fn service_with_options_fills_them_in() {
    let mut o = RocksdbOptions::default();
    o.log_file_num = None;
    o.bytes_per_sync = Some(7);
    let c = DbConfig {
        port: 8000,
        num_workers: 4,
        db_path: "/data".to_string(),
        token: "t".to_string(),
        options: Some(o),
    };
    let s = c.get_opt().unwrap();
    assert_eq!(s.keep_log_file_num, 2);
    assert_eq!(s.bytes_per_sync, 7);
    assert!(s.create_if_missing);
}

#[test]
fn options_convert_into_settings() {
    let mut o = RocksdbOptions::default();
    o.use_fsync = None;
    o.max_total_wal_size = Some(42);
    let s: EngineSettings = o.clone().into();
    assert_eq!(s, o.settings());
    assert!(s.use_fsync);
    assert_eq!(s.max_total_wal_size, 42);
}
