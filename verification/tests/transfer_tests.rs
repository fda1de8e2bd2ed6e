use biusrv::transfer::{
    check_regular, no_callback, on_existing_directory, plan_transfer, transfer_bytes,
    transfer_kind, CopyState, Direction, PathKind, TransferConfig, TransferError, TransferKind,
    TransferPlan, TransferProgress, DEFAULT_CHUNK_SIZE, DEFAULT_PROGRESS_INTERVAL,
};
use std::cell::{Cell, RefCell};

fn config(force: bool, resume: bool) -> TransferConfig {
    TransferConfig { force, resume, ..TransferConfig::default() }
}

fn bytes(n: usize) -> Vec<u8> {
    (0..n).map(|i| (i % 251) as u8).collect()
}

fn run(
    config: &TransferConfig,
    source: &Vec<u8>,
    dest: &mut Option<Vec<u8>>,
) -> Result<u64, TransferError> {
    transfer_bytes(config, source, dest, "local.bin", "/remote.bin", || 0, no_callback).map(|t| t.copied)
}

#[test]
fn default_config_is_64_kib_chunks_and_one_second() {
    let c = TransferConfig::default();
    assert!(!c.force);
    assert!(!c.resume);
    assert_eq!(c.max_retry, 0);
    assert_eq!(c.chunk_size, 64 * 1024);
    assert_eq!(c.progress_interval, 1000);
    assert_eq!(DEFAULT_CHUNK_SIZE, 65536);
    assert_eq!(DEFAULT_PROGRESS_INTERVAL, 1000);
}

#[test]
fn plan_force_always_recreates() {
    for resume in [false, true] {
        let c = config(true, resume);
        assert_eq!(plan_transfer(&c, 10, None).unwrap(), TransferPlan::Create);
        assert_eq!(plan_transfer(&c, 10, Some(3)).unwrap(), TransferPlan::Create);
        assert_eq!(plan_transfer(&c, 10, Some(10)).unwrap(), TransferPlan::Create);
        assert_eq!(plan_transfer(&c, 10, Some(99)).unwrap(), TransferPlan::Create);
    }
}

#[test]
fn plan_without_flags_refuses_an_existing_destination() {
    let c = config(false, false);
    assert!(matches!(plan_transfer(&c, 10, Some(0)), Err(TransferError::AlreadyExists)));
    assert!(matches!(plan_transfer(&c, 10, Some(10)), Err(TransferError::AlreadyExists)));
    assert_eq!(plan_transfer(&c, 10, None).unwrap(), TransferPlan::Create);
}

#[test]
fn plan_resume_compares_sizes() {
    let c = config(false, true);
    assert_eq!(plan_transfer(&c, 10, Some(10)).unwrap(), TransferPlan::AlreadyComplete);
    assert!(matches!(plan_transfer(&c, 10, Some(11)), Err(TransferError::DestinationLarger)));
    assert_eq!(plan_transfer(&c, 10, Some(4)).unwrap(), TransferPlan::Resume { offset: 4 });
    assert_eq!(plan_transfer(&c, 10, None).unwrap(), TransferPlan::Resume { offset: 0 });
    assert_eq!(plan_transfer(&c, 0, None).unwrap(), TransferPlan::AlreadyComplete);
}

#[test]
fn resume_onto_complete_destination_transfers_nothing() {
    let source = bytes(1000);
    let mut dest = Some(source.clone());
    let calls = Cell::new(0u32);
    let result = transfer_bytes(
        &config(false, true),
        &source,
        &mut dest,
        "l",
        "r",
        || 0,
        |_p: &TransferProgress| calls.set(calls.get() + 1),
    );
    let transfer = result.unwrap();
    assert_eq!(transfer.copied, 0);
    assert!(transfer.reports.is_empty());
    assert_eq!(dest, Some(source));
    assert_eq!(calls.get(), 0);
}

#[test]
fn resume_onto_same_size_keeps_different_content() {
    let source = vec![1u8, 2, 3];
    let mut dest = Some(vec![9u8, 9, 9]);
    assert_eq!(run(&config(false, true), &source, &mut dest).unwrap(), 0);
    assert_eq!(dest, Some(vec![9u8, 9, 9]));
}

#[test]
fn resume_writes_the_remainder_from_the_offset() {
    let source = bytes(200_000);
    for k in [0usize, 1, 65535, 65536, 65537, 199_999] {
        let mut dest = Some(source[..k].to_vec());
        let copied = run(&config(false, true), &source, &mut dest).unwrap();
        assert_eq!(copied, (source.len() - k) as u64);
        assert_eq!(dest.as_ref().unwrap(), &source);
    }
}

#[test]
fn resume_appends_behind_whatever_the_destination_holds() {
    let source = vec![1u8, 2, 3, 4, 5];
    let mut dest = Some(vec![9u8, 9]);
    assert_eq!(run(&config(false, true), &source, &mut dest).unwrap(), 3);
    assert_eq!(dest, Some(vec![9u8, 9, 3, 4, 5]));
}

#[test]
fn resume_onto_absent_destination_copies_everything() {
    let source = bytes(70_000);
    let mut dest = None;
    assert_eq!(run(&config(false, true), &source, &mut dest).unwrap(), 70_000);
    assert_eq!(dest, Some(source));
}

#[test]
fn resume_of_empty_source_creates_empty_destination() {
    let source: Vec<u8> = Vec::new();
    let mut dest = None;
    assert_eq!(run(&config(false, true), &source, &mut dest).unwrap(), 0);
    assert_eq!(dest, Some(Vec::new()));
}

#[test]
fn resume_onto_larger_destination_fails() {
    let source = vec![1u8, 2, 3];
    let mut dest = Some(vec![1u8, 2, 3, 4]);
    let err = run(&config(false, true), &source, &mut dest).unwrap_err();
    assert!(matches!(err, TransferError::DestinationLarger));
    assert_eq!(dest, Some(vec![1u8, 2, 3, 4]));
}

#[test]
fn conflict_leaves_the_destination_untouched() {
    let source = bytes(5000);
    let mut dest = Some(vec![7u8; 12]);
    let err = run(&config(false, false), &source, &mut dest).unwrap_err();
    assert!(matches!(err, TransferError::AlreadyExists));
    assert_eq!(dest, Some(vec![7u8; 12]));
}

#[test]
fn fresh_transfer_copies_everything() {
    let source = bytes(150_000);
    let mut dest = None;
    assert_eq!(run(&config(false, false), &source, &mut dest).unwrap(), 150_000);
    assert_eq!(dest, Some(source));
}

#[test]
fn force_overwrites_a_longer_destination() {
    let source = vec![1u8, 2, 3];
    let mut dest = Some(vec![9u8; 50]);
    assert_eq!(run(&config(true, false), &source, &mut dest).unwrap(), 3);
    assert_eq!(dest, Some(vec![1u8, 2, 3]));
    let mut dest = Some(vec![9u8; 50]);
    assert_eq!(run(&config(true, true), &source, &mut dest).unwrap(), 3);
    assert_eq!(dest, Some(vec![1u8, 2, 3]));
}

#[test]
fn chunk_size_zero_reads_nothing() {
    let source = vec![1u8, 2, 3];
    let mut c = config(true, false);
    c.chunk_size = 0;
    let mut dest = Some(vec![9u8]);
    assert_eq!(run(&c, &source, &mut dest).unwrap(), 0);
    assert_eq!(dest, Some(Vec::new()));
}

#[test]
fn ten_mebibytes_report_progress_after_every_chunk() {
    let total: usize = 10 * 1024 * 1024;
    let source = bytes(total);
    let mut c = config(false, false);
    c.chunk_size = 64 * 1024;
    c.progress_interval = 0;
    let now = Cell::new(0u64);
    let seen: RefCell<Vec<(u64, u64)>> = RefCell::new(Vec::new());
    let mut dest = None;
    let transfer = transfer_bytes(
        &c,
        &source,
        &mut dest,
        "big.bin",
        "/tmp/big.bin",
        || {
            now.set(now.get() + 5);
            now.get()
        },
        |p: &TransferProgress| {
            seen.borrow_mut().push((p.done_bytes, p.total_bytes));
            p.done_bytes
        },
    )
    .unwrap();
    assert_eq!(transfer.copied, total as u64);
    assert_eq!(transfer.reports.len(), 160 + 1);
    for (k, report) in transfer.reports.iter().enumerate() {
        assert_eq!(report.done_bytes, report.answer);
        let expected = if k < 160 { ((k + 1) * 64 * 1024) as u64 } else { total as u64 };
        assert_eq!(report.done_bytes, expected);
    }
    assert_eq!(dest.as_ref().unwrap().len(), total);
    assert_eq!(dest.unwrap(), source);
    let seen = seen.borrow();
    assert_eq!(seen.len(), 160 + 1);
    for (k, (done, all)) in seen.iter().enumerate().take(160) {
        assert_eq!(*done, ((k + 1) * 64 * 1024) as u64);
        assert_eq!(*all, total as u64);
    }
    for pair in seen.windows(2) {
        assert!(pair[0].0 <= pair[1].0);
    }
    let last = seen.last().unwrap();
    assert_eq!(last.0, last.1);
    assert_eq!(last.0, total as u64);
}

#[test]
fn progress_waits_for_the_interval_but_always_ends_with_a_report() {
    let source = bytes(10 * 100);
    let mut c = config(false, false);
    c.chunk_size = 100;
    c.progress_interval = 1000;
    let now = Cell::new(0u64);
    let first = Cell::new(true);
    let seen: RefCell<Vec<(u64, u64)>> = RefCell::new(Vec::new());
    let mut dest = None;
    transfer_bytes(
        &c,
        &source,
        &mut dest,
        "a",
        "b",
        || {
            if first.get() {
                first.set(false);
            } else {
                now.set(now.get() + 400);
            }
            now.get()
        },
        |p: &TransferProgress| seen.borrow_mut().push((p.done_bytes, p.speed_bytes)),
    )
    .unwrap();
    // Readings: start 0, chunks at 400, 800, ..., 4000, end at 4400.
    assert_eq!(
        *seen.borrow(),
        vec![
            (300, 300 * 1000 / 1200),
            (600, 600 * 1000 / 2400),
            (900, 900 * 1000 / 3600),
            (1000, 1000 * 1000 / 4400),
        ]
    );
}

#[test]
fn progress_paths_and_totals_are_those_of_the_transfer() {
    let source = bytes(10);
    let seen: RefCell<Vec<(String, String, u64, u64, u64)>> = RefCell::new(Vec::new());
    let mut dest = Some(source[..4].to_vec());
    transfer_bytes(
        &config(false, true),
        &source,
        &mut dest,
        "here.txt",
        "/there.txt",
        || 77,
        |p: &TransferProgress| {
            seen.borrow_mut().push((
                p.local_path.clone(),
                p.remote_path.clone(),
                p.start_time,
                p.done_bytes,
                p.total_bytes,
            ))
        },
    )
    .unwrap();
    assert_eq!(
        seen.borrow().last().unwrap(),
        &("here.txt".to_string(), "/there.txt".to_string(), 77, 10, 10)
    );
}

#[test]
fn progress_update_computes_bytes_per_second() {
    let mut p = TransferProgress::new(8192, 0, "l".to_string(), "r".to_string());
    assert_eq!(p.start_time, 0);
    assert_eq!(p.speed_bytes, 0);
    assert_eq!(p.total_bytes, 8192);
    p.start_time = 1000;
    p.update(4096, 3000);
    assert_eq!(p.done_bytes, 4096);
    assert_eq!(p.speed_bytes, 2048);
    p.update(4097, 1003);
    assert_eq!(p.speed_bytes, 4097 * 1000 / 3);
    p.update(5000, 1000);
    assert_eq!(p.speed_bytes, 0);
    p.update(6000, 500);
    assert_eq!(p.speed_bytes, 0);
    p.update(u64::MAX, 1001);
    assert_eq!(p.speed_bytes, u64::MAX);
    assert_eq!(p.done_bytes, u64::MAX);
}

#[test]
fn copy_state_counts_chunks_from_the_offset() {
    let progress = TransferProgress::new(1000, 400, "l".to_string(), "r".to_string());
    let mut c = TransferConfig::default();
    c.progress_interval = 50;
    let mut state = CopyState::begin(progress, &c, 10);
    assert_eq!(state.offset, 400);
    assert_eq!(state.done_bytes, 400);
    assert_eq!(state.last_time, 10);
    assert_eq!(state.progress.start_time, 10);
    assert!(!state.on_chunk(100, 59));
    assert_eq!(state.done_bytes, 500);
    assert_eq!(state.progress.done_bytes, 400);
    assert!(state.on_chunk(100, 60));
    assert_eq!(state.progress.done_bytes, 600);
    assert_eq!(state.progress.speed_bytes, 600 * 1000 / 50);
    assert_eq!(state.last_time, 60);
    assert!(!state.on_chunk(400, 5));
    assert_eq!(state.finish(110), 600);
    assert_eq!(state.progress.done_bytes, 1000);
    assert_eq!(state.progress.speed_bytes, 1000 * 1000 / 100);
}

#[test]
fn transfer_kind_follows_the_source() {
    assert_eq!(transfer_kind(PathKind::Directory, "/d").unwrap(), TransferKind::Tree);
    assert_eq!(transfer_kind(PathKind::File, "/f").unwrap(), TransferKind::File);
    for kind in [PathKind::Symlink, PathKind::Other] {
        match transfer_kind(kind, "/dev/null") {
            Err(TransferError::InvalidPath { path }) => assert_eq!(path, "/dev/null"),
            other => panic!("unexpected {:?}", other),
        }
    }
}

#[test]
fn only_a_regular_file_can_be_written_over() {
    assert!(check_regular(PathKind::File, "/x").is_ok());
    match check_regular(PathKind::Directory, "/x") {
        Err(TransferError::NotRegularFile { path }) => assert_eq!(path, "/x"),
        other => panic!("unexpected {:?}", other),
    }
}

#[test]
fn existing_directory_is_used_only_with_force_or_resume() {
    match on_existing_directory(&config(false, false), PathKind::Directory, "/srv/a") {
        Err(TransferError::PathExists { path }) => assert_eq!(path, "/srv/a"),
        other => panic!("unexpected {:?}", other),
    }
    assert!(on_existing_directory(&config(true, false), PathKind::Directory, "/srv/a").is_ok());
    assert!(on_existing_directory(&config(false, true), PathKind::Directory, "/srv/a").is_ok());
    assert!(matches!(
        on_existing_directory(&config(false, true), PathKind::File, "/srv/a"),
        Err(TransferError::NotDirectory)
    ));
}

#[test]
fn transfer_errors_read_by_direction() {
    let up = Direction::Upload;
    let down = Direction::Download;
    assert_eq!(TransferError::AlreadyExists.message(up), "Remote file already exists");
    assert_eq!(TransferError::AlreadyExists.message(down), "Local file already exists");
    assert_eq!(
        TransferError::DestinationLarger.message(up),
        "Remote file is larger than local file"
    );
    assert_eq!(
        TransferError::DestinationLarger.message(down),
        "Local file is larger than remote file"
    );
    let e = TransferError::NotRegularFile { path: "/a".to_string() };
    assert_eq!(e.message(up), "Remote path '/a' exists but not file");
    let e = TransferError::PathExists { path: "/a/b".to_string() };
    assert_eq!(e.message(up), "Remote path already exists: /a/b");
    assert_eq!(e.message(down), "Local path already exists: /a/b");
    assert_eq!(TransferError::NotDirectory.message(up), "Failed to create remote directory");
    assert_eq!(
        TransferError::NotDirectory.message(down),
        "Local path already exists but not directory"
    );
    let e = TransferError::InvalidPath { path: "x".to_string() };
    assert_eq!(e.message(up), "Invalid local path: x");
    assert_eq!(e.message(down), "Invalid remote path: x");
}
