use libfuzzer_simple_concolic::command::{
    fork_server_command, ExecTimeout, MyCommandConfiguratorSymCC, MyCommandConfiguratorSymQEMU, OutputMode,
};
use libfuzzer_simple_concolic::forkserver::{continue_outcome, wait_outcome, ForkServerError};
use libfuzzer_simple_concolic::fuzz_mode::{
    select_fuzz_mode, setup_failure_decision, FuzzMode, ModeError, Opt, SetupDecision, SetupFailure, BROKER_PORT,
};
use libfuzzer_simple_concolic::symqemu_build::{
    build_symqemu, clone_symqemu, clone_symqemu_at_version, join_path, SYMQEMU_REPO_BRANCH, SYMQEMU_REPO_URL,
};

fn strs(v: &[&str]) -> Vec<String> {
    v.iter().map(|s| s.to_string()).collect()
}

fn tracing_envs(shmem: &str) -> Vec<(String, String)> {
    vec![
        ("SYMCC_INPUT_FILE".to_string(), "cur_input".to_string()),
        ("SHARED_MEMORY_MESSAGES".to_string(), shmem.to_string()),
    ]
}

#[test]
fn symqemu_child_command() {
    let configurator = MyCommandConfiguratorSymQEMU::default();
    let cmd = configurator.spawn_child_command("shm_1234");
    assert_eq!(cmd.program, "./qemu-x86_64");
    assert_eq!(cmd.args, strs(&["./target_main.out", "cur_input"]));
    assert_eq!(cmd.envs, tracing_envs("shm_1234"));
    assert_eq!(cmd.current_dir, None);
    assert_eq!(cmd.output, OutputMode::Null);
}

#[test]
fn symcc_child_command() {
    let configurator = MyCommandConfiguratorSymCC::default();
    let cmd = configurator.spawn_child_command("x");
    assert_eq!(cmd.program, "./target_symcc.out");
    assert_eq!(cmd.args, strs(&["cur_input"]));
    assert_eq!(cmd.envs, tracing_envs("x"));
    assert_eq!(cmd.output, OutputMode::Null);
}

#[test]
fn fork_server_child_command() {
    let cmd = fork_server_command("env");
    assert_eq!(cmd.program, "./qemu-x86_64");
    assert_eq!(cmd.args, strs(&["./target_forkserver.out"]));
    assert_eq!(cmd.envs, tracing_envs("env"));
}

#[test]
fn timeouts_start_at_zero_and_can_be_set() {
    let mut configurator = MyCommandConfiguratorSymQEMU::default();
    assert_eq!(configurator.exec_timeout(), ExecTimeout { secs: 0, nanos: 0 });
    *configurator.exec_timeout_mut() = ExecTimeout { secs: 5, nanos: 10 };
    assert_eq!(configurator.exec_timeout(), ExecTimeout { secs: 5, nanos: 10 });
    let mut symcc = MyCommandConfiguratorSymCC::default();
    symcc.exec_timeout_mut().secs = 2;
    assert_eq!(symcc.exec_timeout(), ExecTimeout { secs: 2, nanos: 0 });
}

#[test]
fn clone_steps_for_pinned_fork() {
    let steps = clone_symqemu("/tmp/symqemu");
    assert_eq!(steps.len(), 2);
    assert_eq!(steps[0].program, "git");
    assert_eq!(
        steps[0].args,
        strs(&["clone", "--branch", SYMQEMU_REPO_BRANCH, SYMQEMU_REPO_URL, "/tmp/symqemu"])
    );
    assert_eq!(steps[0].current_dir, None);
    assert_eq!(steps[0].output, OutputMode::Capture);
    assert_eq!(steps[1].program, "git");
    assert_eq!(
        steps[1].args,
        strs(&["submodule", "update", "--init", "--depth", "1", "subprojects/symcc-rt"])
    );
    assert_eq!(steps[1].current_dir, Some("/tmp/symqemu".to_string()));
    assert_eq!(SYMQEMU_REPO_URL, "https://github.com/ruben-hutter/symqemu.git");
    assert_eq!(SYMQEMU_REPO_BRANCH, "master");
}

#[test]
fn clone_steps_at_version() {
    let steps = clone_symqemu_at_version("dir", "https://example.org/q.git", "dev");
    assert_eq!(steps[0].args, strs(&["clone", "--branch", "dev", "https://example.org/q.git", "dir"]));
    assert_eq!(steps[1].current_dir, Some("dir".to_string()));
}

#[test]
fn join_path_cases() {
    assert_eq!(join_path("/a/b", "build"), "/a/b/build");
    assert_eq!(join_path("/a/b/", "build"), "/a/b/build");
    assert_eq!(join_path("", "build"), "build");
}

#[test]
fn build_steps_setup_then_configure() {
    let plan = build_symqemu("/s", false);
    assert_eq!(plan.build_dir, "/s/build");
    assert_eq!(plan.steps[0].program, "meson");
    assert_eq!(plan.steps[0].args, strs(&["setup", "/s/build", "-Dsymcc_rt_backend=rust"]));
    assert_eq!(plan.steps[0].current_dir, Some("/s".to_string()));
    assert_eq!(plan.steps[1].program, "ninja");
    assert_eq!(plan.steps[1].args, strs(&["-C", "/s/build"]));
    let again = build_symqemu("/s", true);
    assert_eq!(again.steps[0].args, strs(&["configure", "/s/build", "-Dsymcc_rt_backend=rust"]));
}

#[test]
fn fuzz_mode_precedence() {
    let all = Opt { concolic: true, use_symcc: true, use_snapshot: true, use_forkserver: true };
    assert_eq!(select_fuzz_mode(&all, true), Ok(FuzzMode::ConcolicForkServer));
    let snap = Opt { use_forkserver: false, ..all };
    assert_eq!(select_fuzz_mode(&snap, true), Ok(FuzzMode::ConcolicSnapshot));
    assert_eq!(select_fuzz_mode(&snap, false), Err(ModeError::SnapshotUnsupported));
    let symcc = Opt { use_snapshot: false, ..snap };
    assert_eq!(select_fuzz_mode(&symcc, false), Ok(FuzzMode::ConcolicSymCC));
    let symqemu = Opt { use_symcc: false, ..symcc };
    assert_eq!(select_fuzz_mode(&symqemu, false), Ok(FuzzMode::ConcolicSymQEMU));
    let regular = Opt { concolic: false, ..all };
    assert_eq!(select_fuzz_mode(&regular, false), Ok(FuzzMode::Regular));
    assert_eq!(BROKER_PORT, 1337);
}

#[test]
fn wait_status_interpretation() {
    assert_eq!(wait_outcome(-1, 0x137f), Err(ForkServerError::WaitFailed));
    assert_eq!(wait_outcome(42, 0x137f), Ok(()));
    assert_eq!(wait_outcome(42, 0), Err(ForkServerError::ExitedUnexpectedly));
    assert_eq!(wait_outcome(42, 0x0100), Err(ForkServerError::ExitedUnexpectedly));
    assert_eq!(wait_outcome(42, 9), Err(ForkServerError::ExitedUnexpectedly));
    assert_eq!(wait_outcome(42, 0xffff), Err(ForkServerError::UnexpectedStatus));
}

#[test]
fn continue_signal_result() {
    assert_eq!(continue_outcome(0), Ok(()));
    assert_eq!(continue_outcome(-1), Err(ForkServerError::ContinueFailed));
}

#[test]
fn setup_failure_handling() {
    assert_eq!(setup_failure_decision(SetupFailure::ShuttingDown), SetupDecision::Finish);
    assert_eq!(setup_failure_decision(SetupFailure::Other), SetupDecision::Abort);
}
