use libfuzzer_simple_concolic::concolic_snapshot::{ConcolicSnapshotModule, EntryHookPlan, PreExecAction};
use libfuzzer_simple_concolic::symqemu::{SymQemuModule, SymbolicRegion};

#[test]
fn fresh_module_runs_to_snapshot() {
    let module = ConcolicSnapshotModule::new("foo".to_string(), 16);
    assert_eq!(module.target_function(), "foo");
    assert!(!module.is_snapshot_captured());
    assert_eq!(module.snapshot_address(), None);
    match module.pre_exec(b"QEMU") {
        PreExecAction::RunToSnapshot { snapshot_address } => assert_eq!(snapshot_address, None),
        _ => panic!("a fresh module must run to the snapshot"),
    }
}

#[test]
fn resolved_address_is_kept_once() {
    let mut module = ConcolicSnapshotModule::new("foo".to_string(), 16);
    let plan = module.on_target_resolved(0x1000);
    assert_eq!(plan, EntryHookPlan { hook_at: 0x1000, manual_reset: true });
    let again = module.on_target_resolved(0x2000);
    assert_eq!(again.hook_at, 0x2000);
    assert_eq!(module.snapshot_address(), Some(0x1000));
    match module.pre_exec(b"") {
        PreExecAction::RunToSnapshot { snapshot_address } => assert_eq!(snapshot_address, Some(0x1000)),
        _ => panic!("not captured yet"),
    }
}

#[test]
fn entry_captures_once_and_discovers_buffer() {
    let mut module = ConcolicSnapshotModule::new("foo".to_string(), 8);
    assert!(module.on_snapshot_entry(0x401000, Some(0x5000)));
    assert!(module.is_snapshot_captured());
    assert!(!module.on_snapshot_entry(0x402000, Some(0x6000)));
    match module.pre_exec(b"QEMU0123456789") {
        PreExecAction::Restore { resume_at, placement: Some(p) } => {
            assert_eq!(resume_at, 0x401000);
            assert_eq!(p.buffer_addr, 0x5000);
            assert_eq!(p.bytes, b"QEMU0123".to_vec());
            assert_eq!(p.symbolic, SymbolicRegion { guest_addr: 0x5000, byte_length: 8, input_offset: 0 });
        }
        _ => panic!("a captured module restores and places the input"),
    }
}

#[test]
fn short_input_is_placed_whole() {
    let mut module = ConcolicSnapshotModule::new("foo".to_string(), 4096);
    module.on_snapshot_entry(0x401000, Some(0x7000));
    match module.pre_exec(b"QEMU") {
        PreExecAction::Restore { resume_at, placement: Some(p) } => {
            assert_eq!(resume_at, 0x401000);
            assert_eq!(p.bytes, b"QEMU".to_vec());
            assert_eq!(p.symbolic.byte_length, 4);
        }
        _ => panic!("expected a placement"),
    }
}

#[test]
fn null_argument_leaves_buffer_unknown() {
    let mut module = ConcolicSnapshotModule::new("foo".to_string(), 8);
    assert!(module.on_snapshot_entry(0x401000, Some(0)));
    match module.pre_exec(b"abc") {
        PreExecAction::Restore { placement, .. } => assert!(placement.is_none()),
        _ => panic!("captured"),
    }
    let mut other = ConcolicSnapshotModule::new("foo".to_string(), 8);
    assert!(other.on_snapshot_entry(0x401000, None));
    match other.pre_exec(b"abc") {
        PreExecAction::Restore { placement, .. } => assert!(placement.is_none()),
        _ => panic!("captured"),
    }
}

#[test]
fn buffer_address_first_set_wins_for_writes() {
    let mut module = ConcolicSnapshotModule::new("foo".to_string(), 8);
    module.set_buffer_address(0x1111);
    module.set_buffer_address(0x2222);
    module.on_snapshot_entry(0x401000, Some(0x3333));
    match module.pre_exec(b"ab") {
        PreExecAction::Restore { resume_at, placement: Some(p) } => {
            assert_eq!(resume_at, 0x401000);
            assert_eq!(p.buffer_addr, 0x1111);
            assert_eq!(p.symbolic.guest_addr, 0x3333);
        }
        _ => panic!("expected a placement"),
    }
}

#[test]
fn clone_is_fresh() {
    let mut module = ConcolicSnapshotModule::new("foo".to_string(), 8);
    module.on_target_resolved(0x1000);
    module.on_snapshot_entry(0x401000, Some(0x5000));
    let copy = module.clone();
    assert!(!copy.is_snapshot_captured());
    assert_eq!(copy.snapshot_address(), None);
    assert_eq!(copy.target_function(), "foo");
    match copy.pre_exec(b"x") {
        PreExecAction::RunToSnapshot { snapshot_address } => assert_eq!(snapshot_address, None),
        _ => panic!("a clone starts over"),
    }
}

#[test]
fn symqemu_module_accessors() {
    let mut module = SymQemuModule::new(0x10, 32);
    assert_eq!(module.buffer_addr(), 0x10);
    assert_eq!(module.buffer_size(), 32);
    module.set_buffer_addr(0x20);
    module.set_buffer_size(64);
    assert_eq!(module.buffer_addr(), 0x20);
    assert_eq!(module.buffer_size(), 64);
    assert_eq!(
        module.symbolic_region(5),
        SymbolicRegion { guest_addr: 0x20, byte_length: 5, input_offset: 0 }
    );
    let copy = module.clone();
    assert_eq!(copy.buffer_addr(), 0x20);
}
