use db_wrap::{
    bytes_to_hide_hex, debug_hash_data, is_prefix, sha2_hash256, DataLevel, DbConfig, DbError,
    DbWrap, HttpRequest, RequestType, RocksdbOptions,
};

#[test]
fn main_items_are_at_the_root() {
    let wrap: DbWrap<()> = DbWrap::new("/data");
    assert_eq!(wrap.open_count(), 0);
    assert!(RocksdbOptions::default().create_if_missing);
    assert!(is_prefix(b"k", b"key"));
    assert_eq!(vec![1u8].data_with_lv(2).data_lv(), 2);
    assert_eq!(bytes_to_hide_hex(&sha2_hash256(b"abc"), 6, 6, None), debug_hash_data(b"abc"));
    let request = HttpRequest {
        token: "t".to_string(),
        req: RequestType::GetPrefix("a/".to_string()),
        path: "s".to_string(),
    };
    assert!(request.authorized(&"t".to_string()));
    assert!(!request.authorized(&"T".to_string()));
    let config = DbConfig {
        port: 1,
        num_workers: 1,
        db_path: "/data".to_string(),
        token: "t".to_string(),
        options: Some(RocksdbOptions::default()),
    };
    assert!(config.get_opt().is_some());
    assert!(DbError::LevelConflict { attempted: 0, existing: 1 }.is_level_conflict());
}
