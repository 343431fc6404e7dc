//! The in-process snapshot-based concolic executor's decisions: how the
//! emulator is started, how each execution's guest input buffer is composed
//! from the snapshot-time buffer and the input, when a fresh trace begins,
//! and how an emulator exit becomes an execution result.

use vstd::prelude::*;
use vstd::string::StringExecFns;

use crate::symqemu::GuestAddr;
use crate::trace::{le_value, u64_from_le_slice};

verus! {

/// Size of the dummy input file used to boot the guest; the guest allocates
/// its input buffer from the file size, so this is also the maximum input
/// length applied per execution.
pub const GUEST_INPUT_FILE_SIZE: usize = 4096;

/// Number of traced executions between two progress reports.
pub const PROGRESS_REPORT_INTERVAL: usize = 25;

/// The magic prefix that steers the guest into the snapshot entry function.
pub open spec fn guest_magic() -> Seq<u8> {
    seq![0x51u8, 0x45u8, 0x4Du8, 0x55u8]
}

/// The content of the dummy input file: the magic prefix `QEMU`, then zero
/// bytes up to `GUEST_INPUT_FILE_SIZE`.
pub open spec fn guest_input_file_spec() -> Seq<u8> {
    guest_magic() + Seq::new((GUEST_INPUT_FILE_SIZE - 4) as nat, |i: int| 0u8)
}

/// Length of the input prefix that fits into a buffer of `buffer_len` bytes.
pub open spec fn fitted_len(input_len: nat, buffer_len: nat) -> nat {
    if input_len < buffer_len { input_len } else { buffer_len }
}

/// The guest buffer for one execution: the snapshot-time content with the
/// fitting prefix of the input laid over it.
pub open spec fn guest_buffer_for(snapshot: Seq<u8>, input: Seq<u8>) -> Seq<u8> {
    let len = fitted_len(input.len(), snapshot.len()) as int;
    input.take(len) + snapshot.skip(len)
}

/// How an emulator run ended.
#[derive(Clone, Copy, Debug, PartialEq, Eq, Structural)]
pub enum QemuExit {
    /// Stopped at a breakpoint at the given address.
    Breakpoint(GuestAddr),
    /// The guest exited.
    End,
    /// The guest crashed.
    Crash,
    /// The run timed out.
    Timeout,
    /// A synchronous exit request from the guest.
    SyncExit,
    /// The emulator exited unexpectedly.
    UnexpectedExit,
    /// Any other emulator error.
    OtherError,
}

/// The result of one execution, as seen by the fuzzer.
#[derive(Clone, Copy, Debug, PartialEq, Eq, Structural)]
pub enum ExitKind {
    /// The target returned normally.
    Normal,
    /// The target crashed.
    Crash,
    /// The target ran out of time.
    Timeout,
}

/// Errors of the snapshot executor.
#[derive(Clone, Copy, Debug, PartialEq, Eq, Structural)]
pub enum SnapshotError {
    /// The guest exited before reaching the entry function.
    GuestExitedBeforeEntry,
    /// The emulator stopped for another reason while running to the entry.
    UnexpectedExitBeforeEntry(QemuExit),
    /// The emulator stopped for a reason that is not an execution result.
    UnexpectedExit(QemuExit),
}

/// The result expected of an execution that ended with `exit`.
pub open spec fn exit_result(exit: QemuExit) -> Result<ExitKind, SnapshotError> {
    match exit {
        QemuExit::Breakpoint(_) => Ok(ExitKind::Normal),
        QemuExit::Crash => Ok(ExitKind::Crash),
        QemuExit::Timeout => Ok(ExitKind::Timeout),
        QemuExit::UnexpectedExit => Ok(ExitKind::Crash),
        _ => Err(SnapshotError::UnexpectedExit(exit)),
    }
}

/// Where the concolic trace of the session stands.
#[derive(Clone, Copy, Debug, PartialEq, Eq, Structural)]
pub enum TraceState {
    /// No execution yet; the runtime's first trace is open.
    Initial,
    /// An execution is under way and its trace is open.
    Running,
    /// The last execution's trace has been ended.
    Ended,
}

/// A call that controls the runtime's trace.
#[derive(Clone, Copy, Debug, PartialEq, Eq, Structural)]
pub enum TraceCall {
    /// Start a fresh trace.
    Begin,
    /// Finish the current trace so that it can be read.
    End,
}

/// Whether an execution starting from `t` begins a fresh trace: exactly
/// when the previous execution's trace was ended.
pub open spec fn begins_trace(t: TraceState) -> bool {
    t == TraceState::Ended
}

/// The trace calls of one execution started from `t`: a begin unless it is
/// the first execution, then the end after the run.
pub open spec fn run_calls(t: TraceState) -> Seq<TraceCall> {
    if begins_trace(t) {
        seq![TraceCall::Begin, TraceCall::End]
    } else {
        seq![TraceCall::End]
    }
}

/// The trace calls of `n` consecutive executions started from `t`.
pub open spec fn calls_of_runs(t: TraceState, n: nat) -> Seq<TraceCall>
    decreases n,
{
    if n == 0 {
        Seq::empty()
    } else {
        run_calls(t) + calls_of_runs(TraceState::Ended, (n - 1) as nat)
    }
}

proof fn lemma_calls_after_end(n: nat)
    ensures
        calls_of_runs(TraceState::Ended, n).len() == 2 * n,
        forall|i: int| 0 <= i < 2 * n ==> calls_of_runs(TraceState::Ended, n)[i]
            == if i % 2 == 0 { TraceCall::Begin } else { TraceCall::End },
    decreases n,
{
    if n > 0 {
        lemma_calls_after_end((n - 1) as nat);
        let rest = calls_of_runs(TraceState::Ended, (n - 1) as nat);
        assert forall|i: int| 0 <= i < 2 * n implies calls_of_runs(TraceState::Ended, n)[i]
            == if i % 2 == 0 { TraceCall::Begin } else { TraceCall::End } by {
            if i >= 2 {
                assert(calls_of_runs(TraceState::Ended, n)[i] == rest[i - 2]);
                assert((i - 2) % 2 == i % 2);
            }
        }
    }
}

/// Over any number of executions of one session, the trace calls strictly
/// alternate: the first execution only ends the trace the runtime opened,
/// and every later one begins a fresh trace that it ends again, so every
/// begin directly follows an end and every end follows its begin.
pub proof fn law_trace_calls_alternate(n: nat)
    requires
        n > 0,
    ensures
        calls_of_runs(TraceState::Initial, n).len() == 2 * n - 1,
        forall|i: int| 0 <= i < 2 * n - 1 ==> calls_of_runs(TraceState::Initial, n)[i]
            == if i % 2 == 0 { TraceCall::End } else { TraceCall::Begin },
{
    lemma_calls_after_end((n - 1) as nat);
    let rest = calls_of_runs(TraceState::Ended, (n - 1) as nat);
    assert forall|i: int| 0 <= i < 2 * n - 1 implies calls_of_runs(TraceState::Initial, n)[i]
        == if i % 2 == 0 { TraceCall::End } else { TraceCall::Begin } by {
        if i >= 1 {
            assert(calls_of_runs(TraceState::Initial, n)[i] == rest[i - 1]);
            assert((i - 1) % 2 == 0 <==> i % 2 == 1);
        }
    }
}

/// The state captured when the guest first reached the entry function.
pub struct SnapshotSession {
    entry: GuestAddr,
    buffer: GuestAddr,
    snapshot_buffer: Vec<u8>,
    ret_addr: u64,
    trace: TraceState,
}

/// The abstract state of a [`SnapshotSession`].
pub struct SessionView {
    /// Address of the entry function, where the CPU state was saved.
    pub entry: GuestAddr,
    /// Guest address of the input buffer.
    pub buffer: GuestAddr,
    /// Content of the input buffer at snapshot time.
    pub snapshot_buffer: Seq<u8>,
    /// Return address of the entry function.
    pub ret_addr: u64,
    /// Where the trace stands.
    pub trace: TraceState,
}

impl View for SnapshotSession {
    type V = SessionView;

    closed spec fn view(&self) -> SessionView {
        SessionView {
            entry: self.entry,
            buffer: self.buffer,
            snapshot_buffer: self.snapshot_buffer@,
            ret_addr: self.ret_addr,
            trace: self.trace,
        }
    }
}

impl SnapshotSession {
    /// A session whose CPU state was saved at the entry function `entry`,
    /// for the input buffer at `buffer`, whose content at snapshot time is
    /// `snapshot_buffer`, entered with the return address whose
    /// little-endian bytes are `return_address`.
    pub fn new(entry: GuestAddr, buffer: GuestAddr, snapshot_buffer: Vec<u8>, return_address: &[u8]) -> (session: Self)
        requires
            return_address@.len() == 8,
        ensures
            session@ == (SessionView {
                entry,
                buffer,
                snapshot_buffer: snapshot_buffer@,
                ret_addr: le_value(return_address@) as u64,
                trace: TraceState::Initial,
            }),
    {
        let ret_addr = u64_from_le_slice(return_address, 0);
        assert(return_address@.subrange(0, 8) =~= return_address@);
        SnapshotSession { entry, buffer, snapshot_buffer, ret_addr, trace: TraceState::Initial }
    }

    /// Address of the entry function.
    pub fn entry(&self) -> (addr: GuestAddr)
        ensures
            addr == self@.entry,
    {
        self.entry
    }

    /// Guest address of the input buffer.
    pub fn buffer(&self) -> (addr: GuestAddr)
        ensures
            addr == self@.buffer,
    {
        self.buffer
    }

    /// Size of the input buffer.
    pub fn buffer_size(&self) -> (size: usize)
        ensures
            size == self@.snapshot_buffer.len(),
    {
        self.snapshot_buffer.len()
    }

    /// Return address of the entry function.
    pub fn ret_addr(&self) -> (addr: u64)
        ensures
            addr == self@.ret_addr,
    {
        self.ret_addr
    }
}

/// What to do for one execution: restore the snapshot's memory, restore
/// the CPU state saved at `resume_at` and drop stale symbolic state, then
/// write the buffer, mark it symbolic and run until the entry function
/// returns.
pub struct RunPlan {
    /// The entry function whose saved CPU state execution resumes from.
    pub resume_at: GuestAddr,
    /// Start a fresh trace before running (the previous one was finished).
    pub begin_trace: bool,
    /// Guest address to write `guest_buffer` to.
    pub buffer_addr: GuestAddr,
    /// The complete content of the guest input buffer for this execution.
    pub guest_buffer: Vec<u8>,
    /// Number of leading buffer bytes to mark symbolic.
    pub symbolic_len: usize,
}

/// How to arm the emulator once the session is captured.
pub struct SessionSetup {
    /// Snapshots are reset only when asked to.
    pub manual_reset: bool,
    /// Guest address of the buffer to mark symbolic.
    pub symbolic_buffer_addr: GuestAddr,
    /// Size of the buffer to mark symbolic.
    pub symbolic_buffer_size: usize,
    /// Breakpoint to remove: the entry function.
    pub remove_breakpoint: GuestAddr,
    /// Breakpoint to set: the entry function's return address, where every
    /// execution stops.
    pub set_breakpoint: GuestAddr,
}

/// What the executor concludes after an execution.
pub struct RunOutcome {
    /// End the trace so that the observer can read it.
    pub end_trace: bool,
    /// The execution's result.
    pub result: Result<ExitKind, SnapshotError>,
    /// Whether to print a progress line now.
    pub report_progress: bool,
}

/// Builds the content of the dummy input file that boots the guest.
pub fn guest_input_file_content() -> (content: Vec<u8>)
    ensures
        content@ == guest_input_file_spec(),
{
    let mut content: Vec<u8> = Vec::new();
    content.push(0x51u8);
    content.push(0x45u8);
    content.push(0x4Du8);
    content.push(0x55u8);
    let mut i: usize = 4;
    while i < GUEST_INPUT_FILE_SIZE
        invariant
            4 <= i <= GUEST_INPUT_FILE_SIZE,
            content@ == guest_magic() + Seq::new((i - 4) as nat, |j: int| 0u8),
        decreases GUEST_INPUT_FILE_SIZE - i,
    {
        content.push(0u8);
        i = i + 1;
        assert(content@ =~= guest_magic() + Seq::new((i - 4) as nat, |j: int| 0u8));
    }
    content
}

/// Composes the guest input buffer for one execution: the snapshot-time
/// content, with the first `min(input.len(), snapshot.len())` bytes replaced
/// by the input. Returns the buffer and the number of input bytes placed.
pub fn compose_guest_buffer(snapshot: &[u8], input: &[u8]) -> (out: (Vec<u8>, usize))
    ensures
        out.0@ == guest_buffer_for(snapshot@, input@),
        out.1 == fitted_len(input@.len(), snapshot@.len()),
{
    let n = snapshot.len();
    let len = if input.len() < n { input.len() } else { n };
    let mut out: Vec<u8> = Vec::new();
    let mut i: usize = 0;
    while i < n
        invariant
            n == snapshot@.len(),
            len <= n,
            len <= input@.len(),
            len == fitted_len(input@.len(), snapshot@.len()),
            i <= n,
            out@.len() == i,
            forall|j: int| 0 <= j < i ==> out@[j] == if j < len { input@[j] } else { snapshot@[j] },
        decreases n - i,
    {
        if i < len {
            out.push(input[i]);
        } else {
            out.push(snapshot[i]);
        }
        i = i + 1;
    }
    assert(out@ =~= guest_buffer_for(snapshot@, input@));
    (out, len)
}

/// The emulator's command line for the snapshot flow: the guest binary
/// (`./target_snapshot.out` unless one is given) with the input file
/// `cur_input`, preceded by TCG logging options when `trace_tcg` is set.
pub fn snapshot_qemu_args(guest_bin: Option<String>, trace_tcg: bool) -> (args: Vec<String>)
    ensures
        args@.map_values(|a: String| a@) == {
            let bin = match guest_bin {
                Some(b) => b@,
                None => "./target_snapshot.out"@,
            };
            if trace_tcg {
                seq!["qemu-x86_64"@, "-d"@, "in_asm,op"@, "-D"@, "/tmp/opencode/guest_tcg.log"@, bin, "cur_input"@]
            } else {
                seq!["qemu-x86_64"@, bin, "cur_input"@]
            }
        },
{
    let mut args: Vec<String> = Vec::new();
    args.push(String::from_str("qemu-x86_64"));
    if trace_tcg {
        args.push(String::from_str("-d"));
        args.push(String::from_str("in_asm,op"));
        args.push(String::from_str("-D"));
        args.push(String::from_str("/tmp/opencode/guest_tcg.log"));
    }
    let bin = match guest_bin {
        Some(b) => b,
        None => String::from_str("./target_snapshot.out"),
    };
    args.push(bin);
    args.push(String::from_str("cur_input"));
    assert(args@.map_values(|a: String| a@) =~= {
        let bin = match guest_bin {
            Some(b) => b@,
            None => "./target_snapshot.out"@,
        };
        if trace_tcg {
            seq!["qemu-x86_64"@, "-d"@, "in_asm,op"@, "-D"@, "/tmp/opencode/guest_tcg.log"@, bin, "cur_input"@]
        } else {
            seq!["qemu-x86_64"@, bin, "cur_input"@]
        }
    });
    args
}


/// The name of the function at whose entry the snapshot is taken: the one
/// named in the environment, else the build-time default, else
/// `LLVMFuzzerTestOneInput`.
pub fn snapshot_target_function(from_env: Option<String>, build_default: Option<&str>) -> (name: String)
    ensures
        name@ == match from_env {
            Some(n) => n@,
            None => match build_default {
                Some(d) => d@,
                None => "LLVMFuzzerTestOneInput"@,
            },
        },
{
    match from_env {
        Some(n) => n,
        None => match build_default {
            Some(d) => String::from_str(d),
            None => String::from_str("LLVMFuzzerTestOneInput"),
        },
    }
}

/// Checks how the initial run towards the entry function ended: only a stop
/// at the entry breakpoint lets the snapshot be captured.
pub fn check_entry_exit(exit: QemuExit) -> (r: Result<(), SnapshotError>)
    ensures
        r == match exit {
            QemuExit::Breakpoint(_) => Ok(()),
            QemuExit::End => Err(SnapshotError::GuestExitedBeforeEntry),
            _ => Err(SnapshotError::UnexpectedExitBeforeEntry(exit)),
        },
{
    match exit {
        QemuExit::Breakpoint(_) => Ok(()),
        QemuExit::End => Err(SnapshotError::GuestExitedBeforeEntry),
        _ => Err(SnapshotError::UnexpectedExitBeforeEntry(exit)),
    }
}

/// Maps how an execution's emulator run ended to the execution's result:
/// the return breakpoint is a normal return, an unexpected emulator exit
/// counts as a crash, and any other stop is an error.
pub fn exit_kind_of(exit: QemuExit) -> (r: Result<ExitKind, SnapshotError>)
    ensures
        r == exit_result(exit),
{
    match exit {
        QemuExit::Breakpoint(_) => Ok(ExitKind::Normal),
        QemuExit::Crash => Ok(ExitKind::Crash),
        QemuExit::Timeout => Ok(ExitKind::Timeout),
        QemuExit::UnexpectedExit => Ok(ExitKind::Crash),
        _ => Err(SnapshotError::UnexpectedExit(exit)),
    }
}

/// Runs concolic executions in-process by restoring a snapshot taken at the
/// entry of the target function.
pub struct SnapshotConcolicExecutor<OT> {
    observers: OT,
    inner: Option<SnapshotSession>,
    traced_count: usize,
}

impl<OT> SnapshotConcolicExecutor<OT> {
    /// The observers.
    pub closed spec fn observers_view(&self) -> OT {
        self.observers
    }

    /// The captured session, once the guest reached the entry function.
    pub closed spec fn session_view(&self) -> Option<SessionView> {
        match self.inner {
            Some(s) => Some(s@),
            None => None,
        }
    }

    /// Number of executions traced so far.
    pub closed spec fn traced_count_view(&self) -> usize {
        self.traced_count
    }

    /// An executor with the given observers; the emulator is started on
    /// the first execution.
    pub fn new(observers: OT) -> (executor: Self)
        ensures
            executor.observers_view() == observers,
            executor.session_view() is None,
            executor.traced_count_view() == 0,
    {
        SnapshotConcolicExecutor { observers, inner: None, traced_count: 0 }
    }

    /// The observers.
    pub fn observers(&self) -> (o: &OT)
        ensures
            *o == self.observers_view(),
    {
        &self.observers
    }

    /// The observers, for modification.
    pub fn observers_mut(&mut self) -> (o: &mut OT)
        ensures
            *o == old(self).observers_view(),
            final(self).observers_view() == *final(o),
            final(self).session_view() == old(self).session_view(),
            final(self).traced_count_view() == old(self).traced_count_view(),
    {
        &mut self.observers
    }

    /// Whether the snapshot session has been captured.
    pub fn is_initialized(&self) -> (initialized: bool)
        ensures
            initialized == self.session_view() is Some,
    {
        self.inner.is_some()
    }

    /// Number of executions traced so far.
    pub fn traced_count(&self) -> (count: usize)
        ensures
            count == self.traced_count_view(),
    {
        self.traced_count
    }

    /// Installs the session captured at the entry function and says how to
    /// arm the emulator: manual snapshot resets, the symbolic buffer of the
    /// session, and the breakpoint moved from the entry to the return
    /// address.
    pub fn init_session(&mut self, session: SnapshotSession) -> (setup: SessionSetup)
        ensures
            final(self).session_view() == Some(session@),
            setup.manual_reset,
            setup.symbolic_buffer_addr == session@.buffer,
            setup.symbolic_buffer_size == session@.snapshot_buffer.len(),
            setup.remove_breakpoint == session@.entry,
            setup.set_breakpoint == session@.ret_addr,
            final(self).observers_view() == old(self).observers_view(),
            final(self).traced_count_view() == old(self).traced_count_view(),
    {
        let setup = SessionSetup {
            manual_reset: true,
            symbolic_buffer_addr: session.buffer,
            symbolic_buffer_size: session.snapshot_buffer.len(),
            remove_breakpoint: session.entry,
            set_breakpoint: session.ret_addr,
        };
        self.inner = Some(session);
        setup
    }

    /// Plans one execution on `input`: execution resumes at the entry
    /// function with the CPU state saved there, a fresh trace begins unless this is the first traced execution, and
    /// the guest buffer is reset to its snapshot-time content with the
    /// fitting input prefix laid over it, which is also the part marked
    /// symbolic.
    pub fn begin_run(&mut self, input: &[u8]) -> (plan: RunPlan)
        requires
            old(self).session_view() is Some,
            old(self).session_view()->0.trace != TraceState::Running,
        ensures
            ({
                let s = old(self).session_view()->0;
                &&& plan.resume_at == s.entry
                &&& plan.begin_trace == begins_trace(s.trace)
                &&& plan.buffer_addr == s.buffer
                &&& plan.guest_buffer@ == guest_buffer_for(s.snapshot_buffer, input@)
                &&& plan.symbolic_len == fitted_len(input@.len(), s.snapshot_buffer.len())
                &&& final(self).session_view() == Some(session_after_begin(s))
            }),
            final(self).observers_view() == old(self).observers_view(),
            final(self).traced_count_view() == old(self).traced_count_view(),
    {
        let mut session = self.inner.take().unwrap();
        let begin_trace = match session.trace {
            TraceState::Ended => true,
            _ => false,
        };
        session.trace = TraceState::Running;
        let (guest_buffer, symbolic_len) = compose_guest_buffer(session.snapshot_buffer.as_slice(), input);
        let buffer_addr = session.buffer;
        let resume_at = session.entry;
        self.inner = Some(session);
        RunPlan { resume_at, begin_trace, buffer_addr, guest_buffer, symbolic_len }
    }

    /// Concludes the running execution, which ended with `exit`: its trace
    /// is ended, it is counted, progress is reported every
    /// `PROGRESS_REPORT_INTERVAL` executions, and the exit is mapped to the
    /// execution's result.
    pub fn finish_run(&mut self, exit: QemuExit) -> (outcome: RunOutcome)
        requires
            old(self).session_view() is Some,
            old(self).session_view()->0.trace == TraceState::Running,
            old(self).traced_count_view() < usize::MAX,
        ensures
            outcome.end_trace,
            final(self).traced_count_view() == old(self).traced_count_view() + 1,
            outcome.report_progress == (final(self).traced_count_view() % PROGRESS_REPORT_INTERVAL == 0),
            outcome.result == exit_result(exit),
            final(self).session_view() == Some(session_after_finish(old(self).session_view()->0)),
            final(self).observers_view() == old(self).observers_view(),
    {
        let mut session = self.inner.take().unwrap();
        session.trace = TraceState::Ended;
        self.inner = Some(session);
        self.traced_count = self.traced_count + 1;
        let report_progress = self.traced_count % PROGRESS_REPORT_INTERVAL == 0;
        RunOutcome { end_trace: true, result: exit_kind_of(exit), report_progress }
    }
}

/// Laying an input over the snapshot-time buffer keeps the buffer's size,
/// puts the fitting input prefix first, and leaves every byte behind it at
/// its snapshot-time value, so nothing of an earlier input reaches a later
/// execution.
pub proof fn law_guest_buffer_restores_tail(snapshot: Seq<u8>, input: Seq<u8>)
    ensures
        guest_buffer_for(snapshot, input).len() == snapshot.len(),
        forall|i: int| 0 <= i < fitted_len(input.len(), snapshot.len()) ==> guest_buffer_for(snapshot, input)[i] == input[i],
        forall|i: int| fitted_len(input.len(), snapshot.len()) <= i < snapshot.len() ==> guest_buffer_for(snapshot, input)[i] == snapshot[i],
{
}

/// The session after an execution has been planned.
pub open spec fn session_after_begin(s: SessionView) -> SessionView {
    SessionView { trace: TraceState::Running, ..s }
}

/// The session after an execution has been concluded.
pub open spec fn session_after_finish(s: SessionView) -> SessionView {
    SessionView { trace: TraceState::Ended, ..s }
}

/// An execution leaves the snapshot-time buffer untouched: the next
/// execution on any input gets the same guest buffer it would have got
/// without the earlier one.
pub proof fn law_run_keeps_snapshot(s: SessionView, input: Seq<u8>)
    ensures
        guest_buffer_for(session_after_finish(session_after_begin(s)).snapshot_buffer, input)
            == guest_buffer_for(s.snapshot_buffer, input),
        begins_trace(session_after_finish(session_after_begin(s)).trace),
{
}

/// A run changes only where the trace stands: the entry, the input buffer's
/// address, the return address and the snapshot-time buffer stay as the
/// session was installed, so every later run resumes at the same entry and
/// writes to the same buffer. Planning opens the trace, concluding ends it.
pub proof fn law_run_changes_only_trace(s: SessionView)
    ensures
        session_after_begin(s).entry == s.entry,
        session_after_begin(s).buffer == s.buffer,
        session_after_begin(s).ret_addr == s.ret_addr,
        session_after_begin(s).snapshot_buffer == s.snapshot_buffer,
        session_after_begin(s).trace == TraceState::Running,
        session_after_finish(s).entry == s.entry,
        session_after_finish(s).buffer == s.buffer,
        session_after_finish(s).ret_addr == s.ret_addr,
        session_after_finish(s).snapshot_buffer == s.snapshot_buffer,
        session_after_finish(s).trace == TraceState::Ended,
{
}

/// An execution ending at a breakpoint (the entry function's return)
/// completed normally; a crash or an unexpected emulator exit is a crash; a
/// timeout is a timeout; every other stop is an error that names it.
pub proof fn law_exit_result(exit: QemuExit)
    ensures
        (exit_result(exit) == Ok::<ExitKind, SnapshotError>(ExitKind::Normal)) <==> exit is Breakpoint,
        (exit_result(exit) == Ok::<ExitKind, SnapshotError>(ExitKind::Crash)) <==> (exit is Crash || exit is UnexpectedExit),
        (exit_result(exit) == Ok::<ExitKind, SnapshotError>(ExitKind::Timeout)) <==> exit is Timeout,
        exit_result(exit) is Err ==> exit_result(exit) == Err::<ExitKind, SnapshotError>(SnapshotError::UnexpectedExit(exit)),
        exit_result(exit) is Err <==> (exit is End || exit is SyncExit || exit is OtherError),
{
}

/// The number of input bytes placed is the input's length when it fits and
/// the buffer's length otherwise.
pub proof fn law_fitted_len(input_len: nat, buffer_len: nat)
    ensures
        fitted_len(input_len, buffer_len) <= input_len,
        fitted_len(input_len, buffer_len) <= buffer_len,
        input_len <= buffer_len ==> fitted_len(input_len, buffer_len) == input_len,
        buffer_len <= input_len ==> fitted_len(input_len, buffer_len) == buffer_len,
{
}

/// The guest's dummy input file holds `GUEST_INPUT_FILE_SIZE` bytes: the
/// bytes of `QEMU`, then zeros.
pub proof fn law_guest_input_file()
    ensures
        guest_input_file_spec().len() == GUEST_INPUT_FILE_SIZE,
        guest_input_file_spec()[0] == 0x51u8,
        guest_input_file_spec()[1] == 0x45u8,
        guest_input_file_spec()[2] == 0x4Du8,
        guest_input_file_spec()[3] == 0x55u8,
        forall|i: int| 4 <= i < GUEST_INPUT_FILE_SIZE ==> guest_input_file_spec()[i] == 0u8,
{
}

} // verus!
