use celeriant_integration_tests::read_list_benchmark::{check_rotation, is_shard_name};
use celeriant_integration_tests::segments::{
    any_sealed_shrank, assert_sealed_summaries, check_shard_dir, check_summarised, count_segments,
    parse_log_id,
    proc_read_bytes, scan_log_files, sealed_ids, shard_dir, wal_files, FileEntry, SealedFault,
};

fn strings(names: &[&str]) -> Vec<String> {
    names.iter().map(|s| s.to_string()).collect()
}

fn file(name: &str, size: u64) -> FileEntry {
    FileEntry { name: name.to_string(), is_dir: false, size }
}

#[test]
fn log_files_are_told_by_their_names() {
    assert_eq!(parse_log_id("log_12.wal", ".wal"), Some(12));
    assert_eq!(parse_log_id("log_12.summary", ".wal"), None);
    assert_eq!(parse_log_id("log_x.wal", ".wal"), None);
    assert_eq!(parse_log_id("log_.wal", ".wal"), None);
    assert_eq!(
        scan_log_files(&strings(&["log_10.wal", "log_2.wal", "log_2.summary", "other"])),
        (vec![2, 10], vec![2])
    );
    assert_eq!(count_segments(&strings(&["log_10.wal", "log_2.wal", "log_2.summary"])), 2);
}

#[test]
fn every_sealed_segment_needs_a_summary() {
    assert_eq!(assert_sealed_summaries(&[1, 2, 3], &[1, 2]), Ok(()));
    assert_eq!(assert_sealed_summaries(&[3, 1, 2], &[2, 1]), Ok(()));
    assert_eq!(assert_sealed_summaries(&[1], &[]), Err(SealedFault::NoRotation));
    assert_eq!(assert_sealed_summaries(&[], &[]), Err(SealedFault::NoRotation));
    assert_eq!(
        assert_sealed_summaries(&[1, 2, 3], &[3]),
        Err(SealedFault::Missing(vec![1, 2]))
    );
    assert!(check_summarised(&strings(&["log_1.wal", "log_1.summary", "log_2.wal"])));
    assert!(!check_summarised(&strings(&["log_1.wal", "log_2.wal", "log_2.summary"])));
}

#[test]
fn only_sealed_segments_count_as_shrunk() {
    let shrunk = vec![vec![file("log_1.wal", 10), file("log_2.wal", 100)]];
    assert!(any_sealed_shrank(&shrunk, 100));
    let active = vec![vec![file("log_1.wal", 100), file("log_2.wal", 10)]];
    assert!(!any_sealed_shrank(&active, 100));
    let lone = vec![vec![file("log_1.wal", 10)], vec![file("notes.txt", 1)]];
    assert!(!any_sealed_shrank(&lone, 100));
    let second = vec![
        vec![file("log_1.wal", 100)],
        vec![file("log_9.wal", 100), file("log_10.wal", 100), file("log_3.wal", 99)],
    ];
    assert!(any_sealed_shrank(&second, 100));
}

#[test]
fn the_first_shard_is_found() {
    let dir = |name: &str| FileEntry { name: name.to_string(), is_dir: true, size: 0 };
    let entries = vec![dir("meta"), dir("shard_001"), file("shard_000", 1), dir("shard_000b")];
    assert_eq!(shard_dir(&entries), Some(3));
    assert_eq!(shard_dir(&vec![dir("meta")]), None);
    assert!(is_shard_name("shard_003"));
    assert!(!is_shard_name("my_shard_003"));
}

#[test]
fn segments_are_listed_in_order() {
    assert_eq!(
        wal_files(&strings(&["log_2.wal", "log_1.summary", ".wal", "log_10.wal", "log_1.wal"])),
        vec!["log_1.wal", "log_10.wal", "log_2.wal"]
    );
    assert_eq!(sealed_ids(4), vec![1, 2, 3]);
    assert_eq!(sealed_ids(1), Vec::<u64>::new());
    assert_eq!(sealed_ids(0), Vec::<u64>::new());
}

#[test]
fn the_counter_of_a_process_is_read() {
    assert_eq!(proc_read_bytes("rchar: 5\nread_bytes: 4096\nwrite_bytes: 1\n"), Some(4096));
    assert_eq!(proc_read_bytes("rchar: 5\nread_bytes:  77 \n"), Some(77));
    assert_eq!(proc_read_bytes("cancelled_read_bytes: 5\n"), None);
    assert_eq!(proc_read_bytes("read_bytes: many\nread_bytes: 4\n"), None);
    assert_eq!(proc_read_bytes(""), None);
}

#[test]
fn a_rotation_shows_in_the_number_of_segments() {
    let one = strings(&["log_1.wal", "log_1.summary"]);
    let two = strings(&["log_1.wal", "log_2.wal"]);
    assert!(!check_rotation(&vec![one.clone(), one.clone()]));
    assert!(check_rotation(&vec![one, two]));
    assert!(!check_rotation(&vec![]));
}

#[test]
fn a_shard_is_a_directory_with_its_name() {
    let dir = |name: &str| FileEntry { name: name.to_string(), is_dir: true, size: 0 };
    assert!(check_shard_dir(&dir("shard_000")));
    assert!(!check_shard_dir(&dir("other")));
    assert!(!check_shard_dir(&file("shard_000", 1)));
}
