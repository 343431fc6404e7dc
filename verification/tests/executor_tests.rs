use libfuzzer_simple_concolic::snapshot_executor::{
    check_entry_exit, compose_guest_buffer, exit_kind_of, guest_input_file_content, snapshot_qemu_args,
    snapshot_target_function, ExitKind, QemuExit, SnapshotConcolicExecutor, SnapshotError, SnapshotSession,
    GUEST_INPUT_FILE_SIZE,
};

#[test]
fn guest_input_file_starts_with_magic() {
    let content = guest_input_file_content();
    assert_eq!(content.len(), GUEST_INPUT_FILE_SIZE);
    assert_eq!(&content[..4], b"QEMU");
    assert!(content[4..].iter().all(|&b| b == 0));
}

#[test]
fn compose_overlays_input_on_snapshot() {
    let snapshot = vec![0xEEu8; 16];
    let (buffer, len) = compose_guest_buffer(&snapshot, b"QEMU");
    assert_eq!(len, 4);
    assert_eq!(&buffer[..4], b"QEMU");
    assert_eq!(&buffer[4..], &snapshot[4..]);
}

#[test]
fn compose_truncates_long_input() {
    let snapshot = vec![0u8; 4];
    let (buffer, len) = compose_guest_buffer(&snapshot, b"QEMUB\x13\x37");
    assert_eq!(len, 4);
    assert_eq!(buffer, b"QEMU".to_vec());
}

#[test]
fn no_stale_tail_after_crashing_input() {
    let mut snapshot = vec![0u8; 4096];
    snapshot[..4].copy_from_slice(b"QEMU");
    let crash = b"QEMUB\x13\x37\xe9\x14\x7f\x80AAAAAAA";
    let (first, _) = compose_guest_buffer(&snapshot, crash);
    assert_eq!(&first[..crash.len()], &crash[..]);
    let (second, len) = compose_guest_buffer(&snapshot, &[0u8; 4]);
    assert_eq!(len, 4);
    assert_eq!(&second[..4], &[0, 0, 0, 0]);
    assert_eq!(&second[4..], &snapshot[4..]);
    let (third, _) = compose_guest_buffer(&snapshot, b"QEMU");
    assert_eq!(third, snapshot);
}

#[test]
fn session_decodes_return_address() {
    let session = SnapshotSession::new(0x401000, 0x4000, vec![1, 2, 3], &0x0040_1234u64.to_le_bytes());
    assert_eq!(session.ret_addr(), 0x0040_1234);
    assert_eq!(session.buffer(), 0x4000);
    assert_eq!(session.entry(), 0x401000);
    assert_eq!(session.buffer_size(), 3);
}

#[test]
fn executor_begins_trace_from_second_run() {
    let mut executor = SnapshotConcolicExecutor::new(7u32);
    assert!(!executor.is_initialized());
    let setup = executor.init_session(SnapshotSession::new(0x401000, 0x4000, vec![0xAA; 8], &0x401234u64.to_le_bytes()));
    assert!(setup.manual_reset);
    assert_eq!(setup.symbolic_buffer_addr, 0x4000);
    assert_eq!(setup.symbolic_buffer_size, 8);
    assert_eq!(setup.remove_breakpoint, 0x401000);
    assert_eq!(setup.set_breakpoint, 0x401234);
    assert!(executor.is_initialized());
    let first = executor.begin_run(b"hi");
    assert!(!first.begin_trace);
    assert_eq!(first.resume_at, 0x401000);
    assert_eq!(first.buffer_addr, 0x4000);
    assert_eq!(first.guest_buffer, vec![b'h', b'i', 0xAA, 0xAA, 0xAA, 0xAA, 0xAA, 0xAA]);
    assert_eq!(first.symbolic_len, 2);
    let done = executor.finish_run(QemuExit::Crash);
    assert!(done.end_trace);
    assert_eq!(done.result, Ok(ExitKind::Crash));
    let second = executor.begin_run(b"0123456789");
    assert!(second.begin_trace);
    assert_eq!(second.resume_at, 0x401000);
    assert_eq!(second.guest_buffer, b"01234567".to_vec());
    assert_eq!(second.symbolic_len, 8);
    assert_eq!(*executor.observers(), 7);
    *executor.observers_mut() = 9;
    assert_eq!(*executor.observers(), 9);
}

#[test]
fn executor_reports_every_25_runs() {
    let mut executor = SnapshotConcolicExecutor::new(());
    executor.init_session(SnapshotSession::new(0x10, 0, vec![0; 4], &[0; 8]));
    for i in 1..=50usize {
        let plan = executor.begin_run(b"x");
        assert_eq!(plan.begin_trace, i > 1);
        let outcome = executor.finish_run(QemuExit::Breakpoint(0x1234));
        assert!(outcome.end_trace);
        assert_eq!(outcome.result, Ok(ExitKind::Normal));
        assert_eq!(outcome.report_progress, i % 25 == 0);
        assert_eq!(executor.traced_count(), i);
    }
}

#[test]
fn exit_mapping() {
    assert_eq!(exit_kind_of(QemuExit::Breakpoint(1)), Ok(ExitKind::Normal));
    assert_eq!(exit_kind_of(QemuExit::Crash), Ok(ExitKind::Crash));
    assert_eq!(exit_kind_of(QemuExit::Timeout), Ok(ExitKind::Timeout));
    assert_eq!(exit_kind_of(QemuExit::UnexpectedExit), Ok(ExitKind::Crash));
    assert_eq!(exit_kind_of(QemuExit::End), Err(SnapshotError::UnexpectedExit(QemuExit::End)));
    assert_eq!(exit_kind_of(QemuExit::SyncExit), Err(SnapshotError::UnexpectedExit(QemuExit::SyncExit)));
}

#[test]
fn entry_exit_check() {
    assert_eq!(check_entry_exit(QemuExit::Breakpoint(0x10)), Ok(()));
    assert_eq!(check_entry_exit(QemuExit::End), Err(SnapshotError::GuestExitedBeforeEntry));
    assert_eq!(
        check_entry_exit(QemuExit::Crash),
        Err(SnapshotError::UnexpectedExitBeforeEntry(QemuExit::Crash))
    );
}

#[test]
fn qemu_args_default_and_traced() {
    assert_eq!(
        snapshot_qemu_args(None, false),
        vec!["qemu-x86_64".to_string(), "./target_snapshot.out".to_string(), "cur_input".to_string()]
    );
    assert_eq!(
        snapshot_qemu_args(Some("./other.out".to_string()), true),
        vec![
            "qemu-x86_64".to_string(),
            "-d".to_string(),
            "in_asm,op".to_string(),
            "-D".to_string(),
            "/tmp/opencode/guest_tcg.log".to_string(),
            "./other.out".to_string(),
            "cur_input".to_string(),
        ]
    );
}

#[test]
fn target_function_precedence() {
    assert_eq!(snapshot_target_function(Some("foo".to_string()), Some("bar")), "foo");
    assert_eq!(snapshot_target_function(None, Some("bar")), "bar");
    assert_eq!(snapshot_target_function(None, None), "LLVMFuzzerTestOneInput");
}
