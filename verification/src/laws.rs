//! Properties of the executor that hold across its operations and all their inputs.

use vstd::prelude::*;
use crate::bytecode::{spec_decoded_instruction_at, CodeBlock, CoreOpcode, TypedInstruction, VirtualRegister};
use crate::handoff::{spec_fallback_site, BaselineGeneratedFallbackSite};
use crate::instruction::{spec_execute_instruction, InstructionEnv};
use crate::operands::{BaselineInstructionAbort, BaselineInstructionOutcome};
use crate::double::{double_is_negative, double_magnitude, spec_double_is_nan, DOUBLE_SIGN_MASK};
use crate::executor::{
    lemma_run_loop_step, spec_loop_iteration, spec_mark_frames, spec_run_loop, ExecutorLoopState, ExecutorRun,
    LoopIteration, BaselineGeneratedExecutionWithRuntimeHelpersResult,
    spec_is_first_hint, spec_record_loop_hint, spec_run, spec_run_preflight, spec_validate_snapshot,
    BaselineGeneratedExecutionRequest, BaselineGeneratedLoopHintObservation,
    BaselineGeneratedExecutionValidation,
};
use crate::plan::{
    spec_fingerprint_code_block_snapshot, spec_subset_branch_false, spec_subset_branch_nullish,
    spec_subset_level, spec_subset_supports, BaselineGeneratedCodeArtifact,
};
use crate::runtime::{spec_last_frame, CallFrameId, CodeBlockId, BaselineFallbackRequest, ExecutionView, spec_execution_view, spec_read_register, spec_write_register, InterpreterExecutionState, RegisterWindow};
use crate::semantics::spec_local_no_call_loose_equals;
use crate::sites::{spec_repeats_earlier_index, spec_runtime_helper_plan_metadata, BaselineGeneratedRuntimeHelperPlan, BaselineGeneratedRuntimeHelperProof};
use crate::value::{spec_as_number, spec_strict_equals, NumberValue, RuntimeValue};
use crate::executor::{spec_request_env, spec_run_consults, spec_run_loop_consults, spec_sidecar_free};

verus! {

/// Strict equality (`===`) gives the same answer whichever operand comes first.
pub proof fn law_strict_equals_is_symmetric(left: RuntimeValue, right: RuntimeValue)
    ensures
        spec_strict_equals(left, right) == spec_strict_equals(right, left),
{
}

/// Every value is strictly equal to itself, except a NaN double.
pub proof fn law_strict_equals_is_reflexive_except_nan(value: RuntimeValue)
    requires
        !(value matches RuntimeValue::Double(bits) && spec_double_is_nan(bits)),
    ensures
        spec_strict_equals(value, value),
{
}

/// The executor's call-free loose equality (`==`) is symmetric, in whether it decides
/// and in what it decides.
pub proof fn law_loose_equals_is_symmetric(left: RuntimeValue, right: RuntimeValue)
    ensures
        spec_local_no_call_loose_equals(left, right) == spec_local_no_call_loose_equals(right, left),
{
}

/// Negating a double twice gives back the same bits, and negation keeps NaN-ness and
/// magnitude while flipping the sign.
pub proof fn law_double_negation_is_an_involution(bits: u64)
    ensures
        (bits ^ DOUBLE_SIGN_MASK) ^ DOUBLE_SIGN_MASK == bits,
{
    assert((bits ^ 0x8000_0000_0000_0000u64) ^ 0x8000_0000_0000_0000u64 == bits) by (bit_vector);
}

/// A register that was written reads back the value written to it.
pub proof fn law_register_reads_back_what_was_written(
    slots: Seq<RuntimeValue>,
    code_block: CodeBlock,
    window: RegisterWindow,
    register: VirtualRegister,
    value: RuntimeValue,
)
    requires
        spec_write_register(slots, window, register, value) is Ok,
    ensures
        spec_read_register(spec_write_register(slots, window, register, value)->Ok_0, code_block, window, register)
            == Ok::<RuntimeValue, crate::runtime::ExecutionError>(value),
{
}

/// The opcode subsets without a branch variant are nested: a subset supports every
/// opcode that a subset of a lower level supports.
pub proof fn law_opcode_subsets_are_nested(
    lower: crate::plan::BaselineSupportedOpcodeSubset,
    higher: crate::plan::BaselineSupportedOpcodeSubset,
    opcode: CoreOpcode,
)
    requires
        spec_subset_level(lower) <= spec_subset_level(higher),
        !spec_subset_branch_nullish(lower),
        !spec_subset_branch_nullish(higher),
        spec_subset_supports(lower, opcode),
    ensures
        spec_subset_supports(higher, opcode),
{
}

/// Recording a loop hint keeps one observation per bytecode index, and afterwards the
/// index has an observation.
pub proof fn law_loop_hint_observations_stay_unique(
    hints: Seq<BaselineGeneratedLoopHintObservation>,
    bytecode_index: crate::bytecode::BytecodeIndex,
)
    requires
        forall|i: int, j: int|
            0 <= i < j < hints.len() ==> #[trigger] hints[i].bytecode_index != #[trigger] hints[j].bytecode_index,
    ensures
        ({
            let after = spec_record_loop_hint(hints, bytecode_index);
            &&& forall|i: int, j: int|
                0 <= i < j < after.len() ==> #[trigger] after[i].bytecode_index != #[trigger] after[j].bytecode_index
            &&& exists|i: int| 0 <= i < after.len() && #[trigger] after[i].bytecode_index == bytecode_index
                && after[i].count >= 1
        }),
{
    let after = spec_record_loop_hint(hints, bytecode_index);
    if exists|i: int| spec_is_first_hint(hints, bytecode_index, i) {
        let i = choose|i: int| spec_is_first_hint(hints, bytecode_index, i);
        assert(after[i].bytecode_index == bytecode_index);
        assert forall|a: int, b: int| 0 <= a < b < after.len() implies #[trigger] after[a].bytecode_index
            != #[trigger] after[b].bytecode_index by {
            assert(hints[a].bytecode_index != hints[b].bytecode_index);
        }
    } else {
        assert forall|k: int| 0 <= k < hints.len() implies #[trigger] hints[k].bytecode_index != bytecode_index by {
            if hints[k].bytecode_index == bytecode_index {
                assert(spec_is_first_hint(hints, bytecode_index, k));
            }
        }
        assert(after[hints.len() as int].bytecode_index == bytecode_index);
    }
}

/// Runtime-helper plan metadata that was accepted holds at most one proof per bytecode
/// index.
pub proof fn law_accepted_runtime_helper_metadata_has_one_proof_per_index(
    code_block: CodeBlock,
    proofs: Seq<BaselineGeneratedRuntimeHelperProof>,
)
    requires
        spec_runtime_helper_plan_metadata(code_block, proofs) is Ok,
    ensures
        forall|i: int, j: int|
            0 <= i < j < proofs.len() ==> #[trigger] proofs[i].bytecode_index != #[trigger] proofs[j].bytecode_index,
{
    assert forall|i: int, j: int| 0 <= i < j < proofs.len() implies #[trigger] proofs[i].bytecode_index
        != #[trigger] proofs[j].bytecode_index by {
        if proofs[i].bytecode_index == proofs[j].bytecode_index {
            assert(spec_repeats_earlier_index(proofs, j));
        }
    }
}

/// A code block that has not changed since its snapshot was taken matches that snapshot.
pub proof fn law_unchanged_code_block_matches_its_snapshot(code_block: CodeBlock)
    requires
        spec_fingerprint_code_block_snapshot(code_block) is Ok,
    ensures
        spec_validate_snapshot(code_block, spec_fingerprint_code_block_snapshot(code_block)->Ok_0)
            == Ok::<(), crate::operands::BaselineGeneratedExecutionError>(()),
{
}

/// A run that fails a check before its first instruction reports that failure and
/// leaves the registers, the frames and the metrics as they were.
pub proof fn law_rejected_run_changes_nothing(
    request: BaselineGeneratedExecutionRequest,
    execution: InterpreterExecutionState,
    executed: u64,
    hints: Seq<BaselineGeneratedLoopHintObservation>,
    plan: Option<BaselineGeneratedRuntimeHelperPlan>,
    record: bool,
    validation: BaselineGeneratedExecutionValidation,
)
    requires
        spec_run_preflight(request, execution, plan, validation) is Err,
    ensures
        ({
            let run = spec_run(request, execution, executed, hints, plan, record, validation);
            &&& run.result == Err::<crate::executor::BaselineGeneratedExecutionWithRuntimeHelpersResult,
                crate::operands::BaselineGeneratedExecutionError>(
                spec_run_preflight(request, execution, plan, validation)->Err_0,
            )
            &&& run.view == spec_execution_view(execution)
            &&& run.executed == executed
            &&& run.hints == hints
        }),
{
    reveal(spec_run);
}

/// A run without runtime helpers does not depend on the runtime-helper metadata the
/// artifact carries: two artifacts that differ only there run alike.
pub proof fn law_plain_run_ignores_runtime_helper_metadata(
    request: BaselineGeneratedExecutionRequest,
    other: BaselineGeneratedExecutionRequest,
    execution: InterpreterExecutionState,
    executed: u64,
    hints: Seq<BaselineGeneratedLoopHintObservation>,
    record: bool,
    validation: BaselineGeneratedExecutionValidation,
)
    requires
        *other.artifact == (BaselineGeneratedCodeArtifact {
            runtime_helper_plan: other.artifact.runtime_helper_plan,
            ..*request.artifact
        }),
        other.owner == request.owner,
        *other.code_block == *request.code_block,
        other.expected_frame == request.expected_frame,
    ensures
        spec_run(other, execution, executed, hints, None, record, validation) == spec_run(
            request,
            execution,
            executed,
            hints,
            None,
            record,
            validation,
        ),
{
    reveal(spec_run);
    assert(spec_run_preflight(other, execution, None, validation) == spec_run_preflight(
        request,
        execution,
        None,
        validation,
    ));
    assert(crate::executor::spec_request_env(other) == crate::executor::spec_request_env(request));
}

/// Whether a step that gave up handed the interpreter `site`: the frame, the bytecode
/// index to resume at, and the opcode of the instruction that stopped.
pub open spec fn spec_falls_back_at(
    outcome: Result<BaselineInstructionOutcome, BaselineInstructionAbort>,
    site: BaselineGeneratedFallbackSite,
) -> bool {
    match outcome {
        Ok(BaselineInstructionOutcome::Fallback(fallback)) | Err(BaselineInstructionAbort::Fallback(fallback)) => {
            &&& fallback.request == site.request
            &&& fallback.reason.bytecode_index == site.bytecode_index
            &&& fallback.reason.opcode == site.opcode
        },
        _ => true,
    }
}

/// Generated code gives up only where it stands: every fallback of an instruction step
/// asks the interpreter to resume the running frame at that instruction's own bytecode
/// index, naming its opcode.
#[verifier::rlimit(100)]
pub proof fn law_fallback_resumes_at_the_instruction(
    env: InstructionEnv,
    window: RegisterWindow,
    execution: ExecutionView,
    instruction: TypedInstruction,
)
    ensures
        spec_falls_back_at(
            spec_execute_instruction(env, window, execution, instruction).0,
            spec_fallback_site(env.owner, env.frame, instruction),
        ),
        spec_fallback_site(env.owner, env.frame, instruction).request == (BaselineFallbackRequest {
            code_block: env.owner,
            frame: env.frame,
            bytecode_index: instruction.bytecode_index,
        }),
{
}

/// Whether a finished run that fell back left the running frame marked at the
/// instruction it asks the interpreter to resume at.
pub open spec fn spec_fallback_marks_frame(run: ExecutorRun, owner: CodeBlockId, frame: CallFrameId) -> bool {
    match run.result {
        Ok(BaselineGeneratedExecutionWithRuntimeHelpersResult::Fallback(fallback)) => {
            &&& fallback.request.code_block == owner
            &&& fallback.request.frame == frame
            &&& spec_last_frame(run.view.frames) is Some
            &&& spec_last_frame(run.view.frames)->Some_0.bytecode_index == Some(fallback.request.bytecode_index)
        },
        _ => true,
    }
}

proof fn lemma_loop_fallback_marks_frame(
    env: InstructionEnv,
    window: RegisterWindow,
    plan: Option<BaselineGeneratedRuntimeHelperPlan>,
    record: bool,
    state: ExecutorLoopState,
    fuel: nat,
)
    requires
        state.view.frames.len() > 0,
    ensures
        spec_fallback_marks_frame(spec_run_loop(env, window, plan, record, state, fuel), env.owner, env.frame),
    decreases fuel,
{
    if fuel == 0 {
        reveal(spec_run_loop);
    } else {
        lemma_run_loop_step(env, window, plan, record, state, fuel);
        reveal(spec_loop_iteration);
        let pc = state.pc;
        if pc.offset < env.code_block.instructions@.len() {
            if let Ok(instruction) = spec_decoded_instruction_at(env.code_block, pc) {
                let marked = ExecutionView {
                    frames: spec_mark_frames(state.view.frames, instruction.bytecode_index),
                    ..state.view
                };
                law_fallback_resumes_at_the_instruction(env, window, marked, instruction);
            }
        }
        match spec_loop_iteration(env, window, plan, record, state) {
            LoopIteration::Finished(_) => {},
            LoopIteration::Next(next) => {
                lemma_loop_fallback_marks_frame(env, window, plan, record, next, (fuel - 1) as nat);
            },
        }
    }
}

/// A run that ends in a fallback leaves the running frame marked at the very instruction
/// the interpreter is asked to resume at, so the interpreter picks up exactly there.
pub proof fn law_fallback_run_marks_the_resume_point(
    request: BaselineGeneratedExecutionRequest,
    execution: InterpreterExecutionState,
    executed: u64,
    hints: Seq<BaselineGeneratedLoopHintObservation>,
    plan: Option<BaselineGeneratedRuntimeHelperPlan>,
    record: bool,
    validation: BaselineGeneratedExecutionValidation,
)
    ensures
        spec_fallback_marks_frame(
            spec_run(request, execution, executed, hints, plan, record, validation),
            request.owner,
            request.expected_frame,
        ),
{
    reveal(spec_run);
    if let Ok(Some((window, pc))) = spec_run_preflight(request, execution, plan, validation) {
        let state = ExecutorLoopState { view: spec_execution_view(execution), executed, hints, pc };
        assert(spec_execution_view(execution).frames == execution.stack.frames@);
        lemma_loop_fallback_marks_frame(
            crate::executor::spec_request_env(request),
            window,
            plan,
            record,
            state,
            crate::executor::spec_run_budget(),
        );
    }
}


proof fn lemma_sidecar_free_loop_never_consults(
    env: InstructionEnv,
    window: RegisterWindow,
    plan: Option<BaselineGeneratedRuntimeHelperPlan>,
    record: bool,
    state: ExecutorLoopState,
    fuel: nat,
)
    requires
        spec_sidecar_free(env.subset, env.code_block),
    ensures
        !spec_run_loop_consults(env, window, plan, record, state, fuel),
    decreases fuel,
{
    reveal(spec_run_loop_consults);
    if fuel > 0 {
        match spec_decoded_instruction_at(env.code_block, state.pc) {
            Ok(instruction) => {
                assert(instruction == env.code_block.instructions@[state.pc.offset as int]);
            },
            Err(_) => {},
        }
        match spec_loop_iteration(env, window, plan, record, state) {
            LoopIteration::Next(next) => {
                lemma_sidecar_free_loop_never_consults(env, window, plan, record, next, (fuel - 1) as nat);
            },
            LoopIteration::Finished(_) => {},
        }
    }
}

/// Code with no call and no property access outside the body's subset never reaches a
/// sidecar: whatever sidecars a run is given, it is the plain run.
pub proof fn law_sidecar_free_code_never_consults_sidecars(
    request: BaselineGeneratedExecutionRequest,
    execution: InterpreterExecutionState,
    executed: u64,
    hints: Seq<BaselineGeneratedLoopHintObservation>,
    plan: Option<BaselineGeneratedRuntimeHelperPlan>,
    record: bool,
    validation: BaselineGeneratedExecutionValidation,
)
    requires
        spec_sidecar_free(request.artifact.eligibility_proof.opcode_subset, *request.code_block),
    ensures
        !spec_run_consults(request, execution, executed, hints, plan, record, validation),
{
    match spec_run_preflight(request, execution, plan, validation) {
        Ok(Some((window, pc))) => {
            lemma_sidecar_free_loop_never_consults(
                spec_request_env(request),
                window,
                plan,
                record,
                ExecutorLoopState { view: spec_execution_view(execution), executed, hints, pc },
                crate::executor::spec_run_budget(),
            );
        },
        _ => {},
    }
}

/// A call handoff resumes the owner at the call itself, in the frame it left.
pub proof fn law_js_call_handoff_resumes_at_the_call(
    owner: CodeBlockId,
    frame: CallFrameId,
    window: RegisterWindow,
    code_block: CodeBlock,
    execution: ExecutionView,
    instruction: TypedInstruction,
)
    ensures
        crate::handoff::spec_js_call_handoff(owner, frame, window, code_block, execution, instruction) matches Ok(
            handoff,
        ) ==> {
            &&& handoff.resume.owner == owner
            &&& handoff.resume.frame == frame
            &&& handoff.resume.bytecode_index == instruction.bytecode_index
            &&& instruction.opcode == crate::bytecode::Opcode::Core(handoff.resume.opcode)
            &&& handoff.direct_call is None
        },
{
}

/// A property handoff resumes the owner at the access itself and carries the access's
/// own site.
pub proof fn law_property_handoff_resumes_at_the_access(
    owner: CodeBlockId,
    frame: CallFrameId,
    instruction: TypedInstruction,
    site: crate::sites::BaselineGeneratedPropertyHandoffSite,
)
    ensures
        crate::handoff::spec_property_handoff(owner, frame, instruction, site) matches Ok(handoff) ==> {
            &&& handoff.resume.owner == owner
            &&& handoff.resume.frame == frame
            &&& handoff.resume.bytecode_index == instruction.bytecode_index
            &&& handoff.site == site
            &&& site.owner == owner
            &&& site.bytecode_index == instruction.bytecode_index
        },
{
}

/// A runtime-helper handoff resumes the owner at the instruction that crosses into the
/// helper, with the safepoint its proof names.
pub proof fn law_runtime_helper_handoff_resumes_at_the_instruction(
    owner: CodeBlockId,
    frame: CallFrameId,
    instruction: TypedInstruction,
    proof: crate::sites::BaselineGeneratedRuntimeBoundaryProof,
)
    ensures
        crate::handoff::spec_runtime_helper_handoff(owner, frame, instruction, proof) matches Ok(handoff) ==> {
            &&& handoff.resume.owner == owner
            &&& handoff.resume.frame == frame
            &&& handoff.resume.bytecode_index == instruction.bytecode_index
            &&& handoff.safepoint == proof.safepoint
            &&& handoff.may_throw == proof.may_throw
        },
{
}

/// An instruction that cannot read an operand gives up at its own site: the fallback asks
/// the interpreter to resume where the site says.
pub proof fn law_operand_fallback_keeps_the_site(
    site: BaselineGeneratedFallbackSite,
    error: crate::bytecode::OperandAccessError,
)
    ensures
        crate::operands::spec_operand_fallback(site, error) matches BaselineInstructionAbort::Fallback(fallback) && {
            &&& fallback.request == site.request
            &&& fallback.reason.bytecode_index == site.bytecode_index
            &&& fallback.reason.opcode == site.opcode
        },
{
}

/// Int32 add, subtract and multiply are exact: they give the mathematical result when it
/// fits in an int32, and nothing (so the step leaves the int32 path) when it does not.
pub proof fn law_int32_arithmetic_is_exact_or_overflows(left: i32, right: i32)
    ensures
        crate::semantics::spec_checked_int32_arithmetic(CoreOpcode::AddInt32, left, right) == if i32::MIN <= left
            + right <= i32::MAX {
            Some((left + right) as i32)
        } else {
            None::<i32>
        },
        crate::semantics::spec_checked_int32_arithmetic(CoreOpcode::SubInt32, left, right) == if i32::MIN <= left
            - right <= i32::MAX {
            Some((left - right) as i32)
        } else {
            None::<i32>
        },
        crate::semantics::spec_checked_int32_arithmetic(CoreOpcode::MulInt32, left, right) == if i32::MIN <= left
            * right <= i32::MAX {
            Some((left * right) as i32)
        } else {
            None::<i32>
        },
{
}

/// Strict equality of two int32 values is equality of the integers.
pub proof fn law_int32_strict_equality_is_integer_equality(left: i32, right: i32)
    ensures
        spec_strict_equals(RuntimeValue::Int32(left), RuntimeValue::Int32(right)) == (left == right),
{
}

/// Logical not answers with the negated truthiness of a primitive, and applying it twice
/// gives the primitive's truthiness as a boolean.
pub proof fn law_logical_not_negates_truthiness(value: RuntimeValue)
    ensures
        crate::semantics::spec_local_primitive_truthiness(value) matches Some(truthy) ==> {
            &&& crate::semantics::spec_local_primitive_truthiness(RuntimeValue::Boolean(!truthy)) == Some(!truthy)
            &&& crate::semantics::spec_local_primitive_truthiness(RuntimeValue::Boolean(!!truthy)) == Some(truthy)
        },
        crate::semantics::spec_local_primitive_truthiness(value) is None <==> (value is Cell || value is Unknown),
{
}

/// The executed-bytecode counter never goes down: a step counts one more, and adding a
/// run's count saturates at the counter's limit.
pub proof fn law_executed_count_never_decreases(count: u64, more: u64)
    ensures
        crate::executor::spec_saturating_increment_u64(count) >= count,
        count < u64::MAX ==> crate::executor::spec_saturating_increment_u64(count) == count + 1,
        crate::executor::spec_saturating_add_u64(count, more) >= count,
        count + more <= u64::MAX ==> crate::executor::spec_saturating_add_u64(count, more) == count + more,
{
}

/// Recording a loop hint adds at most one observation, and only for an index not seen
/// before; an index already seen has its count raised by one (saturating).
pub proof fn law_loop_hint_counts_grow_by_one(
    hints: Seq<BaselineGeneratedLoopHintObservation>,
    bytecode_index: crate::bytecode::BytecodeIndex,
    i: int,
)
    requires
        spec_is_first_hint(hints, bytecode_index, i),
    ensures
        spec_record_loop_hint(hints, bytecode_index).len() == hints.len(),
        spec_record_loop_hint(hints, bytecode_index)[i].count == crate::executor::spec_saturating_increment_u64(
            hints[i].count,
        ),
{
    let j = choose|j: int| spec_is_first_hint(hints, bytecode_index, j);
    assert(spec_is_first_hint(hints, bytecode_index, j));
    if j < i {
        assert(hints[j].bytecode_index != bytecode_index);
    } else if i < j {
        assert(hints[i].bytecode_index != bytecode_index);
    }
}

/// Recording a loop hint for an index not seen before appends one observation with count
/// one.
pub proof fn law_new_loop_hint_starts_at_one(
    hints: Seq<BaselineGeneratedLoopHintObservation>,
    bytecode_index: crate::bytecode::BytecodeIndex,
)
    requires
        forall|k: int| 0 <= k < hints.len() ==> #[trigger] hints[k].bytecode_index != bytecode_index,
    ensures
        spec_record_loop_hint(hints, bytecode_index) == hints.push(
            BaselineGeneratedLoopHintObservation { bytecode_index, count: 1 },
        ),
{
}

} // verus!
