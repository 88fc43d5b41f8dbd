# baseline_jit

A verified executor for baseline-tier generated code of a JavaScript engine. Given a
generated-code artifact, the code block it was compiled from and the interpreter's
state, it checks the artifact and its planner metadata against the code block, finds
the active frame, and runs the bytecode the body's opcode subset covers. It stops when
the code returns, when it hands a call, a property access or a runtime-helper crossing
to the VM, when it falls back to the interpreter, or when it fails.

Execution sidecars may finish calls and property accesses without the VM: planner
tables (property-load plans, guarded and megamorphic candidates, store candidates,
call-link candidates) together with a `DispatchHost` that the embedding VM implements.

Every function is verified with Verus except five trusted wrappers in `src/double.rs`,
which call `rustc_apfloat` for binary64 add, subtract, multiply, divide and remainder
and name their results; integer-to-double conversion, exact for the integers the
executor converts, is computed on the bits and verified. The run itself is specified exactly
(`spec_run` in `src/executor.rs`); runs with sidecars are specified by what holds
whatever the host answers, and are the plain run when the code never consults them.
The property sidecars keep ghost logs of what they asked the host and what it answered
(loads, stores, `in` checks and native-intrinsic calls). Their contracts say what each
request carries, which records each answer adds, and how the answers decide the result
in both directions: what the host reported for a load or an `in` check that hit is
written into the destination, a store probe the host hit is followed by its commit, and
a commit the host performed ends the step. The call-link sidecar's host is passed to it
directly and keeps no log; its contract states what holds whatever the host answers.

## Layout

- `src/value.rs`, `src/double.rs`, `src/semantics.rs`: runtime values, binary64
  arithmetic on bit patterns, and the value semantics the executor applies locally.
- `src/bytecode.rs`, `src/runtime.rs`: code blocks and the interpreter state.
- `src/plan.rs`, `src/sites.rs`: the artifact and the planner metadata it carries.
- `src/operands.rs`, `src/ops.rs`, `src/instruction.rs`: one instruction step.
- `src/handoff.rs`: fallbacks and the handoffs to the VM.
- `src/executor.rs`, `src/native_entry.rs`: whole runs.
- `src/ic.rs`, `src/host.rs`, `src/sidecars.rs`, `src/sidecar_dispatch.rs`,
  `src/sidecar_executor.rs`: execution sidecars and runs that use them.
- `src/laws.rs`: properties that relate several operations.
- `tests/`: scenarios run against the compiled library.
