use datafusion_bridge::native_mem_stats::{
    allocated_bytes, set_allocated_bytes_for_test, MemStats, Reading, TickReport,
};
use datafusion_bridge::shard_view::{
    ordered_files, CustomFileMeta, FileStats, ObjectMeta, ShardView, TableAddress,
};

fn object(location: &str) -> ObjectMeta {
    ObjectMeta {
        location: location.to_string(),
        last_modified_secs: 5,
        last_modified_nanos: 999_999_999,
        size: 100,
        e_tag: None,
        version: Some("v1".to_string()),
    }
}

#[test]
fn a_file_keeps_what_it_was_made_of() {
    let file = CustomFileMeta::new(vec![3, 4], 10, object("a"));
    assert_eq!(*file.row_group_row_counts(), vec![3, 4]);
    assert_eq!(*file.row_base(), 10);
    assert_eq!(file.object_meta().location, "a");
    assert_eq!(file.object_meta().last_modified_secs, 5);
    assert_eq!(file.object_meta().last_modified_nanos, 999_999_999);
    assert_eq!(file.object_meta().version, Some("v1".to_string()));
}

#[test]
fn a_shard_keeps_what_it_was_made_of() {
    let files = vec![
        CustomFileMeta::new(vec![1], 0, object("a")),
        CustomFileMeta::new(vec![2], 1, object("b")),
    ];
    let path = TableAddress {
        url: "file:///t/".to_string(),
        glob: Some("*.parquet".to_string()),
    };
    let shard = ShardView::new(path, files);
    assert_eq!(shard.table_path().url, "file:///t/");
    assert_eq!(shard.table_path().glob, Some("*.parquet".to_string()));
    let files = shard.files_metadata();
    assert_eq!(files.len(), 2);
    assert_eq!(files[1].object_meta().location, "b");
    let plain = TableAddress { url: "s3://b/".to_string(), glob: None };
    let shard = ShardView::new(plain, Vec::new());
    assert_eq!(shard.table_path().url, "s3://b/");
    assert_eq!(shard.table_path().glob, None);
}

#[test]
fn file_stats_keep_their_figures() {
    let stats = FileStats::new(7, -1);
    assert_eq!(stats.size(), 7);
    assert_eq!(stats.num_rows(), -1);
}

#[test]
fn files_are_ordered_by_name() {
    let names = |v: &[&str]| v.iter().map(|s| s.to_string()).collect::<Vec<String>>();
    let expected = names(&["_0.parquet", "_10.parquet", "_2.parquet", "a", "a", "\u{e9}"]);
    for files in [
        names(&["\u{e9}", "a", "_2.parquet", "_10.parquet", "_0.parquet", "a"]),
        names(&["a", "_10.parquet", "a", "_0.parquet", "\u{e9}", "_2.parquet"]),
    ] {
        assert_eq!(ordered_files(files), expected);
    }
    assert_eq!(ordered_files(Vec::new()), Vec::<String>::new());
}

#[test]
fn memory_statistics_keep_the_last_positive_reading() {
    let mut stats = MemStats::new();
    assert_eq!(allocated_bytes(&stats), 0);
    assert_eq!(stats.tick(Reading::Panicked), TickReport::LogAndRetry);
    assert_eq!(stats.tick(Reading::Bytes(0)), TickReport::Quiet);
    assert_eq!(allocated_bytes(&stats), 0);
    assert_eq!(stats.tick(Reading::Bytes(4096)), TickReport::Quiet);
    assert_eq!(stats.tick(Reading::Bytes(-1)), TickReport::Quiet);
    assert_eq!(stats.tick(Reading::Panicked), TickReport::LogAndRetry);
    assert_eq!(allocated_bytes(&stats), 4096);
    set_allocated_bytes_for_test(&mut stats, 12);
    assert_eq!(allocated_bytes(&stats), 12);
}
