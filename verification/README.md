# libfuzzer_simple_concolic

The verified core of a concolic fuzzing setup over SymQEMU and SymCC.

`src/` (verified with Verus):

- `trace`: the length-prefixed trace format in the shared memory region,
  its decoding, and the concolic metadata built from it.
- `observer`: the concolic observer over the shared memory region.
- `symqemu`: the bookkeeping of the guest input buffer that is marked symbolic.
- `concolic_snapshot`: the snapshot-based execution state machine
  (capture once at the target function, then restore, place input, mark symbolic).
- `snapshot_executor`: the in-process snapshot executor's decisions
  (emulator command line, guest buffer composition, trace start, exit mapping).
- `command`: the processes started for SymQEMU/SymCC tracing and the fork server.
- `symqemu_build`: the commands that clone and build SymQEMU.
- `forkserver`: interpretation of wait and signal results of the fork server.
- `fuzz_mode`: choice of the fuzzing mode from the command-line options.

`app/` runs the process, file and environment parts that need no crate of
the fuzzing framework: the SymQEMU clone and build commands, the tracing
children, the fork server, command-line parsing and serialization.

Not run anywhere here, because the crates they need are not available:
- the fuzzing loop (needs `libafl`);
- the snapshot executor's and snapshot module's plans (need the emulator of
  `libafl_qemu` and the symbolic runtime of `symcc_runtime`);
- observer hooks and exit kinds in the fork-server executor (`libafl` types);
- parsing of the trace messages (the parser belongs to `libafl`);
- the symbolic runtime's exported functions (forward to `symcc_runtime`).
