//! Snapshot-based symbolic execution, as a state machine: the first execution
//! runs the target up to the resolved target function, where a snapshot
//! (memory and the CPU state at the function's entry) is captured and the
//! input buffer is discovered from the first argument register; every later
//! execution restores the snapshot, resumes at the entry with the CPU state
//! captured there, writes the new input into that buffer and marks it
//! symbolic. The emulator performs the actions;
//! this module decides them.

use vstd::prelude::*;

use crate::symqemu::{GuestAddr, SymQemuModule, SymbolicRegion};

verus! {

/// The value of a write-once cell after an attempt to store `value` in it:
/// the first value stored stays.
pub open spec fn set_once(cell: Option<GuestAddr>, value: GuestAddr) -> Option<GuestAddr> {
    if cell is Some {
        cell
    } else {
        Some(value)
    }
}

/// The abstract state of a [`ConcolicSnapshotModule`].
pub struct SnapshotModuleView {
    pub target_function: Seq<char>,
    pub snapshot_address: Option<GuestAddr>,
    pub input_buffer_addr: Option<GuestAddr>,
    pub input_buffer_size: usize,
    pub snapshot_captured: bool,
    pub first_execution: bool,
    /// The instruction address at which the snapshot, including the CPU
    /// state, was captured.
    pub entry_pc: Option<GuestAddr>,
    /// Buffer address held by the symbolic-marking module.
    pub symbolic_buffer_addr: GuestAddr,
    /// Buffer size held by the symbolic-marking module.
    pub symbolic_buffer_size: usize,
}

/// Where and what to write into the guest before a restored execution.
pub struct InputPlacement {
    /// Guest address of the input buffer.
    pub buffer_addr: GuestAddr,
    /// The bytes to write there.
    pub bytes: Vec<u8>,
    /// The region to mark symbolic afterwards.
    pub symbolic: SymbolicRegion,
}

/// How to arm the emulator once the target function is resolved.
#[derive(Clone, Copy, Debug, PartialEq, Eq, Structural)]
pub struct EntryHookPlan {
    /// Address at which the snapshot entry hook is registered.
    pub hook_at: GuestAddr,
    /// Snapshots are reset only when asked to.
    pub manual_reset: bool,
}

/// What to do before an execution.
pub enum PreExecAction {
    /// First execution: run normally until the snapshot trigger fires.
    RunToSnapshot { snapshot_address: Option<GuestAddr> },
    /// No snapshot was captured yet: run normally.
    RunWithoutSnapshot,
    /// Restore the snapshot's memory, restore the CPU state captured at
    /// `resume_at` (the target function's entry) so that execution resumes
    /// there, then place the input (when the buffer is known).
    Restore { resume_at: GuestAddr, placement: Option<InputPlacement> },
}

/// Coordinates snapshotting and symbolic marking for snapshot-based concolic
/// execution.
pub struct ConcolicSnapshotModule {
    symqemu_module: SymQemuModule,
    target_function: String,
    snapshot_address: Option<GuestAddr>,
    input_buffer_addr: Option<GuestAddr>,
    input_buffer_size: usize,
    snapshot_captured: bool,
    first_execution: bool,
    entry_pc: Option<GuestAddr>,
}

impl View for ConcolicSnapshotModule {
    type V = SnapshotModuleView;

    closed spec fn view(&self) -> SnapshotModuleView {
        SnapshotModuleView {
            target_function: self.target_function@,
            snapshot_address: self.snapshot_address,
            input_buffer_addr: self.input_buffer_addr,
            input_buffer_size: self.input_buffer_size,
            snapshot_captured: self.snapshot_captured,
            first_execution: self.first_execution,
            entry_pc: self.entry_pc,
            symbolic_buffer_addr: self.symqemu_module.addr_view(),
            symbolic_buffer_size: self.symqemu_module.size_view(),
        }
    }
}

/// The state of a module right after creation for `target_function` and a
/// buffer of `buffer_size` bytes.
pub open spec fn fresh_module_view(target_function: Seq<char>, buffer_size: usize, symbolic_buffer_addr: GuestAddr) -> SnapshotModuleView {
    SnapshotModuleView {
        target_function,
        snapshot_address: None,
        input_buffer_addr: None,
        input_buffer_size: buffer_size,
        snapshot_captured: false,
        first_execution: true,
        entry_pc: None,
        symbolic_buffer_addr,
        symbolic_buffer_size: buffer_size,
    }
}

/// The bytes written into the guest buffer for `input`: its first
/// `min(input.len(), buffer_size)` bytes.
pub open spec fn placed_input(input: Seq<u8>, buffer_size: usize) -> Seq<u8> {
    input.take(if input.len() < buffer_size { input.len() as int } else { buffer_size as int })
}

/// The state after execution reached the target function at `pc` with
/// `first_argument` in the first argument register (where available):
/// unchanged once a snapshot exists; otherwise the snapshot, with the CPU
/// state at `pc`, counts as captured and a non-null argument becomes the
/// input buffer.
pub open spec fn after_entry(v: SnapshotModuleView, pc: GuestAddr, first_argument: Option<GuestAddr>) -> SnapshotModuleView {
    if v.snapshot_captured {
        v
    } else {
        let discovered = match first_argument {
            Some(a) => a != 0,
            None => false,
        };
        SnapshotModuleView {
            input_buffer_addr: if discovered {
                set_once(v.input_buffer_addr, first_argument->0)
            } else {
                v.input_buffer_addr
            },
            symbolic_buffer_addr: if discovered { first_argument->0 } else { v.symbolic_buffer_addr },
            snapshot_captured: true,
            first_execution: false,
            entry_pc: Some(pc),
            ..v
        }
    }
}

/// The state after recording `addr` as the input buffer address.
pub open spec fn after_set_buffer_address(v: SnapshotModuleView, addr: GuestAddr) -> SnapshotModuleView {
    SnapshotModuleView {
        input_buffer_addr: set_once(v.input_buffer_addr, addr),
        symbolic_buffer_addr: addr,
        ..v
    }
}

/// Whether an execution from state `v` restores the snapshot first.
pub open spec fn restores_snapshot(v: SnapshotModuleView) -> bool {
    !v.first_execution && v.snapshot_captured
}

/// The snapshot is captured at most once: after the first time execution
/// reaches the target function, reaching it again changes nothing and
/// takes no snapshot.
pub proof fn law_capture_once(
    v: SnapshotModuleView,
    pc1: GuestAddr,
    first: Option<GuestAddr>,
    pc2: GuestAddr,
    second: Option<GuestAddr>,
)
    ensures
        after_entry(v, pc1, first).snapshot_captured,
        after_entry(after_entry(v, pc1, first), pc2, second) == after_entry(v, pc1, first),
{
}

/// Starting from a fresh module, once execution has reached the target
/// function every further execution restores the snapshot and resumes at
/// the entry where it was captured, and a non-null first argument is where
/// the input is written and marked symbolic.
pub proof fn law_entry_enables_restore(target_function: Seq<char>, buffer_size: usize, pc: GuestAddr, first_argument: GuestAddr)
    ensures
        !restores_snapshot(fresh_module_view(target_function, buffer_size, 0)),
        restores_snapshot(after_entry(fresh_module_view(target_function, buffer_size, 0), pc, Some(first_argument))),
        after_entry(fresh_module_view(target_function, buffer_size, 0), pc, Some(first_argument)).entry_pc == Some(pc),
        first_argument != 0 ==> after_entry(fresh_module_view(target_function, buffer_size, 0), pc, Some(first_argument)).input_buffer_addr
            == Some(first_argument),
        first_argument != 0 ==> after_entry(fresh_module_view(target_function, buffer_size, 0), pc, Some(first_argument)).symbolic_buffer_addr
            == first_argument,
{
}

/// The input buffer address is written once: later addresses only move the
/// symbolic marking.
pub proof fn law_buffer_address_set_once(v: SnapshotModuleView, a: GuestAddr, b: GuestAddr)
    ensures
        after_set_buffer_address(after_set_buffer_address(v, a), b).input_buffer_addr
            == after_set_buffer_address(v, a).input_buffer_addr,
        after_set_buffer_address(after_set_buffer_address(v, a), b).symbolic_buffer_addr == b,
        v.input_buffer_addr is None ==> after_set_buffer_address(v, a).input_buffer_addr == Some(a),
{
}

/// Reaching the target function for the first time captures the snapshot
/// whatever happened before (a resolved address, a recorded buffer): the
/// module leaves its first execution, so the next execution restores the
/// snapshot and resumes at `pc`. The configuration stays; a non-null first
/// argument becomes the symbolic buffer, and the input buffer unless one was
/// recorded already; otherwise both buffers stay.
pub proof fn law_entry_captures(v: SnapshotModuleView, pc: GuestAddr, first_argument: Option<GuestAddr>)
    requires
        !v.snapshot_captured,
    ensures
        after_entry(v, pc, first_argument).snapshot_captured,
        !after_entry(v, pc, first_argument).first_execution,
        restores_snapshot(after_entry(v, pc, first_argument)),
        after_entry(v, pc, first_argument).entry_pc == Some(pc),
        after_entry(v, pc, first_argument).target_function == v.target_function,
        after_entry(v, pc, first_argument).snapshot_address == v.snapshot_address,
        after_entry(v, pc, first_argument).input_buffer_size == v.input_buffer_size,
        after_entry(v, pc, first_argument).symbolic_buffer_size == v.symbolic_buffer_size,
        forall|a: GuestAddr| first_argument == Some(a) && a != 0 ==> {
            &&& after_entry(v, pc, first_argument).symbolic_buffer_addr == a
            &&& after_entry(v, pc, first_argument).input_buffer_addr == match v.input_buffer_addr {
                Some(old_addr) => Some(old_addr),
                None => Some(a),
            }
        },
        (first_argument is None || first_argument == Some(0u64)) ==> {
            &&& after_entry(v, pc, first_argument).symbolic_buffer_addr == v.symbolic_buffer_addr
            &&& after_entry(v, pc, first_argument).input_buffer_addr == v.input_buffer_addr
        },
{
}

/// Once the snapshot is captured, reaching the target function again
/// changes nothing.
pub proof fn law_entry_after_capture_is_noop(v: SnapshotModuleView, pc: GuestAddr, first_argument: Option<GuestAddr>)
    requires
        v.snapshot_captured,
    ensures
        after_entry(v, pc, first_argument) == v,
{
}

/// An execution restores the snapshot exactly when one has been captured
/// and the module has left its first execution.
pub proof fn law_restores_exactly_when_captured(v: SnapshotModuleView)
    ensures
        restores_snapshot(v) <==> (v.snapshot_captured && !v.first_execution),
{
}

/// A fresh module has captured nothing and resolved nothing, is in its
/// first execution, and uses the given buffer size for both buffers.
pub proof fn law_fresh_module(target_function: Seq<char>, buffer_size: usize, symbolic_buffer_addr: GuestAddr)
    ensures
        fresh_module_view(target_function, buffer_size, symbolic_buffer_addr).target_function == target_function,
        fresh_module_view(target_function, buffer_size, symbolic_buffer_addr).snapshot_address is None,
        fresh_module_view(target_function, buffer_size, symbolic_buffer_addr).input_buffer_addr is None,
        fresh_module_view(target_function, buffer_size, symbolic_buffer_addr).entry_pc is None,
        !fresh_module_view(target_function, buffer_size, symbolic_buffer_addr).snapshot_captured,
        fresh_module_view(target_function, buffer_size, symbolic_buffer_addr).first_execution,
        fresh_module_view(target_function, buffer_size, symbolic_buffer_addr).input_buffer_size == buffer_size,
        fresh_module_view(target_function, buffer_size, symbolic_buffer_addr).symbolic_buffer_size == buffer_size,
        fresh_module_view(target_function, buffer_size, symbolic_buffer_addr).symbolic_buffer_addr == symbolic_buffer_addr,
{
}

/// A write-once cell keeps its first value: storing into a full cell leaves
/// it, storing into an empty one fills it.
pub proof fn law_set_once(cell: Option<GuestAddr>, value: GuestAddr)
    ensures
        cell is Some ==> set_once(cell, value) == cell,
        cell is None ==> set_once(cell, value) == Some(value),
{
}

/// Recording a buffer address changes only the two buffer addresses: the
/// symbolic one becomes `addr`, the input one becomes `addr` only if none
/// was recorded.
pub proof fn law_set_buffer_address(v: SnapshotModuleView, addr: GuestAddr)
    ensures
        after_set_buffer_address(v, addr).symbolic_buffer_addr == addr,
        after_set_buffer_address(v, addr).input_buffer_addr == match v.input_buffer_addr {
            Some(a) => Some(a),
            None => Some(addr),
        },
        after_set_buffer_address(v, addr) == (SnapshotModuleView {
            symbolic_buffer_addr: addr,
            input_buffer_addr: after_set_buffer_address(v, addr).input_buffer_addr,
            ..v
        }),
{
}

/// The placed input is the longest prefix of the input that fits into the
/// buffer.
pub proof fn law_placed_input(input: Seq<u8>, buffer_size: usize)
    ensures
        placed_input(input, buffer_size).len() <= input.len(),
        placed_input(input, buffer_size).len() <= buffer_size,
        placed_input(input, buffer_size).len() == input.len() || placed_input(input, buffer_size).len() == buffer_size,
        forall|i: int| 0 <= i < placed_input(input, buffer_size).len() ==> placed_input(input, buffer_size)[i] == input[i],
{
}

impl ConcolicSnapshotModule {
    /// A captured snapshot always has its entry address.
    #[verifier::type_invariant]
    spec fn inv(self) -> bool {
        self.snapshot_captured ==> self.entry_pc is Some
    }

    /// Creates the module for the function named `target_function`, whose
    /// input buffer holds `buffer_size` bytes.
    pub fn new(target_function: String, buffer_size: usize) -> (module: Self)
        ensures
            module@ == fresh_module_view(target_function@, buffer_size, 0),
    {
        ConcolicSnapshotModule {
            symqemu_module: SymQemuModule::new(0, buffer_size),
            target_function,
            snapshot_address: None,
            input_buffer_addr: None,
            input_buffer_size: buffer_size,
            snapshot_captured: false,
            first_execution: true,
            entry_pc: None,
        }
    }

    /// The name of the function at whose entry the snapshot is taken.
    pub fn target_function(&self) -> (name: &str)
        ensures
            name@ == self@.target_function,
    {
        self.target_function.as_str()
    }

    /// Records the input buffer address. The first recorded address is the
    /// one the input is written to; the symbolic marking always follows the
    /// latest one.
    pub fn set_buffer_address(&mut self, addr: GuestAddr)
        ensures
            final(self)@ == after_set_buffer_address(old(self)@, addr),
    {
        proof {
            use_type_invariant(&*self);
        }
        if self.input_buffer_addr.is_none() {
            self.input_buffer_addr = Some(addr);
        }
        self.symqemu_module.set_buffer_addr(addr);
    }

    /// The resolved address of the target function, once known.
    pub fn snapshot_address(&self) -> (addr: Option<GuestAddr>)
        ensures
            addr == self@.snapshot_address,
    {
        self.snapshot_address
    }

    /// Whether the snapshot has been captured.
    pub fn is_snapshot_captured(&self) -> (captured: bool)
        ensures
            captured == self@.snapshot_captured,
    {
        self.snapshot_captured
    }

    /// Records the resolved address of the target function (on the first
    /// execution); an address recorded earlier stays. The entry hook is to
    /// be armed at `addr`, with snapshots reset only on request.
    pub fn on_target_resolved(&mut self, addr: GuestAddr) -> (plan: EntryHookPlan)
        ensures
            plan == (EntryHookPlan { hook_at: addr, manual_reset: true }),
            final(self)@ == (SnapshotModuleView {
                snapshot_address: set_once(old(self)@.snapshot_address, addr),
                ..old(self)@
            }),
    {
        proof {
            use_type_invariant(&*self);
        }
        if self.snapshot_address.is_none() {
            self.snapshot_address = Some(addr);
        }
        EntryHookPlan { hook_at: addr, manual_reset: true }
    }

    /// Decides what the entry hook does when execution reaches the target
    /// function at `pc`. `first_argument` is the first argument register,
    /// where the architecture exposes one. Returns whether a snapshot (memory
    /// and CPU state) must be taken now: only the first time. A non-null first
    /// argument is recorded as the input buffer.
    pub fn on_snapshot_entry(&mut self, pc: GuestAddr, first_argument: Option<GuestAddr>) -> (take_snapshot: bool)
        ensures
            take_snapshot == !old(self)@.snapshot_captured,
            final(self)@ == after_entry(old(self)@, pc, first_argument),
    {
        proof {
            use_type_invariant(&*self);
        }
        if self.snapshot_captured {
            return false;
        }
        if let Some(a) = first_argument {
            if a != 0 {
                if self.input_buffer_addr.is_none() {
                    self.input_buffer_addr = Some(a);
                }
                self.symqemu_module.set_buffer_addr(a);
            }
        }
        self.entry_pc = Some(pc);
        self.snapshot_captured = true;
        self.first_execution = false;
        true
    }

    /// Decides what happens before an execution on `input`: on the first
    /// execution run to the snapshot trigger; without a snapshot run
    /// normally; otherwise restore the snapshot, resume at the captured
    /// entry with its CPU state and, if the buffer address is known, write the first `min(input.len(), buffer size)` input bytes
    /// there and mark exactly that many bytes symbolic.
    pub fn pre_exec(&self, input: &[u8]) -> (action: PreExecAction)
        ensures
            self@.first_execution ==> action == (PreExecAction::RunToSnapshot {
                snapshot_address: self@.snapshot_address,
            }),
            !self@.first_execution && !self@.snapshot_captured ==> action is RunWithoutSnapshot,
            restores_snapshot(self@) ==> {
                &&& action is Restore
                &&& match action {
                    PreExecAction::Restore { resume_at, placement } => Some(resume_at) == self@.entry_pc
                        && match self@.input_buffer_addr {
                        None => placement is None,
                        Some(addr) => placement matches Some(p) && {
                            &&& p.buffer_addr == addr
                            &&& p.bytes@ == placed_input(input@, self@.input_buffer_size)
                            &&& p.symbolic == (SymbolicRegion {
                                guest_addr: self@.symbolic_buffer_addr,
                                byte_length: p.bytes@.len() as usize,
                                input_offset: 0,
                            })
                        },
                    },
                    _ => true,
                }
            },
    {
        if self.first_execution {
            return PreExecAction::RunToSnapshot { snapshot_address: self.snapshot_address };
        }
        if !self.snapshot_captured {
            return PreExecAction::RunWithoutSnapshot;
        }
        proof {
            use_type_invariant(self);
        }
        let resume_at = self.entry_pc.unwrap();
        match self.input_buffer_addr {
            Some(addr) => {
                let len = if input.len() < self.input_buffer_size {
                    input.len()
                } else {
                    self.input_buffer_size
                };
                let mut bytes: Vec<u8> = Vec::new();
                let mut i: usize = 0;
                while i < len
                    invariant
                        i <= len,
                        len <= input@.len(),
                        bytes@ == input@.take(i as int),
                    decreases len - i,
                {
                    bytes.push(input[i]);
                    i = i + 1;
                    assert(bytes@ =~= input@.take(i as int));
                }
                let symbolic = self.symqemu_module.symbolic_region(len);
                PreExecAction::Restore {
                    resume_at,
                    placement: Some(InputPlacement { buffer_addr: addr, bytes, symbolic }),
                }
            },
            None => PreExecAction::Restore { resume_at, placement: None },
        }
    }
}

impl Clone for ConcolicSnapshotModule {
    /// A module with the same target function, buffer size and symbolic
    /// buffer, in the state of a fresh module: nothing resolved, nothing
    /// captured.
    fn clone(&self) -> (copy: Self)
        ensures
            copy@ == (SnapshotModuleView {
                snapshot_address: None,
                input_buffer_addr: None,
                snapshot_captured: false,
                first_execution: true,
                entry_pc: None,
                ..self@
            }),
    {
        ConcolicSnapshotModule {
            symqemu_module: self.symqemu_module,
            target_function: self.target_function.clone(),
            snapshot_address: None,
            input_buffer_addr: None,
            input_buffer_size: self.input_buffer_size,
            snapshot_captured: false,
            first_execution: true,
            entry_pc: None,
        }
    }
}

} // verus!
