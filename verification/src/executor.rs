//! The generated-code run: check the artifact and its plans against the code block,
//! find the active frame, then step instruction by instruction until the code
//! returns, hands off, falls back or fails.
use vstd::prelude::*;
use crate::bytecode::{
    BytecodeIndex, CodeBlock, CoreOpcode, Opcode, TypedInstruction, spec_bytecode_index_is_valid,
    spec_decoded_instruction_at,
};
use crate::handoff::{
    BaselineGeneratedFallback, BaselineGeneratedFallbackCause, BaselineGeneratedJsCallHandoff,
    BaselineGeneratedPropertyHandoff, BaselineGeneratedRuntimeHelperHandoff,
    baseline_generated_runtime_helper_handoff, spec_runtime_helper_handoff,
};
use crate::instruction::{
    BaselineInstructionContext, InstructionEnv, execute_instruction, spec_context_env,
    spec_execute_instruction,
};
use crate::operands::{BaselineGeneratedExecutionError, BaselineInstructionAbort, BaselineInstructionOutcome};
use crate::plan::{
    BaselineBytecodeSnapshotFingerprint, BaselineGeneratedCodeArtifact, BaselineSupportedOpcodeSubset,
    fingerprint_code_block_snapshot, spec_artifact_validation, spec_fingerprint_code_block_snapshot,
};
use crate::runtime::{
    CallFrameId, CodeBlockId, ExecutionCompletion, ExecutionError, ExecutionView, Frame,
    InterpreterExecutionState, RegisterWindow, baseline_active_frame, spec_active_frame,
    spec_execution_view,
};
use crate::semantics::{baseline_generated_executor_supports_subset, spec_executor_supports_subset};
use crate::sites::{
    BaselineGeneratedPropertyHandoffPlanMetadata, BaselineGeneratedRuntimeBoundaryProof,
    BaselineGeneratedRuntimeHelperPlan, spec_proof_lookup,
};
use crate::value::RuntimeValue;
use crate::sidecar_dispatch::{
    GeneratedExecutionSidecars, NoGeneratedSidecars, execute_instruction_with_sidecars, spec_consults_sidecars,
    spec_no_sidecars, spec_sidecars_kept,
};

verus! {

/// How a run of generated code ends when it does not fail.
#[derive(Clone, Copy, Debug, PartialEq, Eq, Structural)]
pub enum BaselineGeneratedExecutionResult {
    Completed(ExecutionCompletion),
    Fallback(BaselineGeneratedFallback),
    JsCall(BaselineGeneratedJsCallHandoff),
    Property(BaselineGeneratedPropertyHandoff),
}

/// How a run with runtime helpers ends: also possibly at a runtime-helper crossing.
#[derive(Clone, Copy, Debug, PartialEq, Eq, Structural)]
pub enum BaselineGeneratedExecutionWithRuntimeHelpersResult {
    Completed(ExecutionCompletion),
    Fallback(BaselineGeneratedFallback),
    JsCall(BaselineGeneratedJsCallHandoff),
    Property(BaselineGeneratedPropertyHandoff),
    RuntimeHelper(BaselineGeneratedRuntimeHelperHandoff),
}

/// How often the loop hint at one bytecode index was reached.
#[derive(Clone, Copy, Debug, PartialEq, Eq, Structural)]
pub struct BaselineGeneratedLoopHintObservation {
    pub bytecode_index: BytecodeIndex,
    pub count: u64,
}

/// What a run counted: the instructions it executed and the loop hints it reached,
/// one observation per bytecode index, in the order they were first reached.
#[derive(Clone, Debug, PartialEq, Eq)]
pub struct BaselineGeneratedExecutionMetrics {
    pub executed_bytecode_count: u64,
    pub loop_hint_observations: Vec<BaselineGeneratedLoopHintObservation>,
}

pub open spec fn spec_saturating_increment_u64(value: u64) -> u64 {
    if value == u64::MAX {
        u64::MAX
    } else {
        (value + 1) as u64
    }
}

pub open spec fn spec_saturating_add_u64(left: u64, right: u64) -> u64 {
    if left + right > u64::MAX {
        u64::MAX
    } else {
        (left + right) as u64
    }
}

/// Whether `i` is the first observation of `bytecode_index`.
pub open spec fn spec_is_first_hint(
    hints: Seq<BaselineGeneratedLoopHintObservation>,
    bytecode_index: BytecodeIndex,
    i: int,
) -> bool {
    &&& 0 <= i < hints.len()
    &&& hints[i].bytecode_index == bytecode_index
    &&& forall|j: int| 0 <= j < i ==> #[trigger] hints[j].bytecode_index != bytecode_index
}

/// Reaching a loop hint: its observation counts one more (saturating), or a new
/// observation with count one is appended.
pub open spec fn spec_record_loop_hint(
    hints: Seq<BaselineGeneratedLoopHintObservation>,
    bytecode_index: BytecodeIndex,
) -> Seq<BaselineGeneratedLoopHintObservation> {
    if exists|i: int| spec_is_first_hint(hints, bytecode_index, i) {
        let i = choose|i: int| spec_is_first_hint(hints, bytecode_index, i);
        hints.update(
            i,
            BaselineGeneratedLoopHintObservation {
                bytecode_index,
                count: spec_saturating_increment_u64(hints[i].count),
            },
        )
    } else {
        hints.push(BaselineGeneratedLoopHintObservation { bytecode_index, count: 1 })
    }
}

impl BaselineGeneratedExecutionMetrics {
    pub fn new() -> (r: BaselineGeneratedExecutionMetrics)
        ensures
            r.executed_bytecode_count == 0,
            r.loop_hint_observations@.len() == 0,
    {
        BaselineGeneratedExecutionMetrics { executed_bytecode_count: 0, loop_hint_observations: Vec::new() }
    }

    pub fn record_loop_hint(&mut self, bytecode_index: BytecodeIndex)
        ensures
            final(self).executed_bytecode_count == old(self).executed_bytecode_count,
            final(self).loop_hint_observations@ == spec_record_loop_hint(
                old(self).loop_hint_observations@,
                bytecode_index,
            ),
    {
        let mut i: usize = 0;
        while i < self.loop_hint_observations.len()
            invariant
                i <= self.loop_hint_observations@.len(),
                self.loop_hint_observations@ == old(self).loop_hint_observations@,
                self.executed_bytecode_count == old(self).executed_bytecode_count,
                forall|j: int| 0 <= j < i ==> #[trigger] self.loop_hint_observations@[j].bytecode_index != bytecode_index,
            decreases self.loop_hint_observations@.len() - i,
        {
            if self.loop_hint_observations[i].bytecode_index == bytecode_index {
                let ghost hints = self.loop_hint_observations@;
                assert(spec_is_first_hint(hints, bytecode_index, i as int));
                let ghost chosen = choose|k: int| spec_is_first_hint(hints, bytecode_index, k);
                assert(chosen == i as int) by {
                    if chosen < i as int {
                    } else if chosen > i as int {
                        assert(hints[i as int].bytecode_index == bytecode_index);
                    }
                }
                let count = self.loop_hint_observations[i].count;
                let count = if count == u64::MAX { u64::MAX } else { count + 1 };
                self.loop_hint_observations.set(i, BaselineGeneratedLoopHintObservation { bytecode_index, count });
                return;
            }
            i = i + 1;
        }
        self.loop_hint_observations.push(BaselineGeneratedLoopHintObservation { bytecode_index, count: 1 });
    }

    pub fn loop_hint_observations(&self) -> (r: &Vec<BaselineGeneratedLoopHintObservation>)
        ensures
            r@ == self.loop_hint_observations@,
    {
        &self.loop_hint_observations
    }
}

/// How much of the artifact and plan checking a run does: everything, or only the
/// header when the caller has already checked the code block against a snapshot.
#[derive(Clone, Copy, Debug, PartialEq, Eq, Structural)]
pub enum BaselineGeneratedExecutionValidation {
    Full,
    Prevalidated { bytecode_snapshot: BaselineBytecodeSnapshotFingerprint },
}

/// What a run of generated code is asked to run: an artifact for a code block, in the
/// frame the caller expects to be active.
#[derive(Clone, Copy, Debug)]
pub struct BaselineGeneratedExecutionRequest<'a> {
    pub artifact: &'a BaselineGeneratedCodeArtifact,
    pub owner: CodeBlockId,
    pub code_block: &'a CodeBlock,
    pub expected_frame: CallFrameId,
}

/// The artifact header: live and consistent, built for `owner`, for a subset this
/// executor runs.
pub open spec fn spec_validate_artifact_header(artifact: BaselineGeneratedCodeArtifact, owner: CodeBlockId) -> Result<
    (),
    BaselineGeneratedExecutionError,
> {
    match spec_artifact_validation(artifact) {
        Err(error) => Err(BaselineGeneratedExecutionError::ArtifactValidation(error)),
        Ok(()) => if artifact.owner != owner {
            Err(BaselineGeneratedExecutionError::OwnerMismatch { expected: artifact.owner, actual: owner })
        } else if !spec_executor_supports_subset(artifact.eligibility_proof.opcode_subset) {
            Err(
                BaselineGeneratedExecutionError::UnsupportedOpcodeSubset {
                    expected: BaselineSupportedOpcodeSubset::P6ConstantsMovesReturnInt32ArithmeticBitwiseRelationalJumpsPrimitiveTruthinessPrimitiveBooleanPrimitiveNumberPrimitiveToNumberVoidPureNumberBinary,
                    actual: artifact.eligibility_proof.opcode_subset,
                },
            )
        } else {
            Ok(())
        },
    }
}

pub fn validate_generated_artifact_header(artifact: &BaselineGeneratedCodeArtifact, owner: CodeBlockId) -> (r:
    Result<(), BaselineGeneratedExecutionError>)
    ensures
        r == spec_validate_artifact_header(*artifact, owner),
{
    if let Err(error) = artifact.validate() {
        return Err(BaselineGeneratedExecutionError::ArtifactValidation(error));
    }
    if artifact.owner != owner {
        return Err(BaselineGeneratedExecutionError::OwnerMismatch { expected: artifact.owner, actual: owner });
    }
    let actual = artifact.eligibility_proof.opcode_subset();
    if !baseline_generated_executor_supports_subset(actual) {
        return Err(
            BaselineGeneratedExecutionError::UnsupportedOpcodeSubset {
                expected: BaselineSupportedOpcodeSubset::P6ConstantsMovesReturnInt32ArithmeticBitwiseRelationalJumpsPrimitiveTruthinessPrimitiveBooleanPrimitiveNumberPrimitiveToNumberVoidPureNumberBinary,
                actual,
            },
        );
    }
    Ok(())
}

/// The code block, as it is now, against the snapshot something was made for.
pub open spec fn spec_validate_snapshot(code_block: CodeBlock, expected: BaselineBytecodeSnapshotFingerprint) -> Result<
    (),
    BaselineGeneratedExecutionError,
> {
    match spec_fingerprint_code_block_snapshot(code_block) {
        Err(error) => Err(BaselineGeneratedExecutionError::CodeBlockSnapshotValidation(error)),
        Ok(actual) => if actual != expected {
            Err(BaselineGeneratedExecutionError::CodeBlockSnapshotMismatch { expected, actual })
        } else {
            Ok(())
        },
    }
}

fn validate_snapshot(code_block: &CodeBlock, expected: BaselineBytecodeSnapshotFingerprint) -> (r: Result<
    (),
    BaselineGeneratedExecutionError,
>)
    ensures
        r == spec_validate_snapshot(*code_block, expected),
{
    let actual = match fingerprint_code_block_snapshot(code_block) {
        Err(error) => {
            return Err(BaselineGeneratedExecutionError::CodeBlockSnapshotValidation(error));
        },
        Ok(actual) => actual,
    };
    if actual != expected {
        return Err(BaselineGeneratedExecutionError::CodeBlockSnapshotMismatch { expected, actual });
    }
    Ok(())
}

pub fn validate_generated_artifact_snapshot(artifact: &BaselineGeneratedCodeArtifact, code_block: &CodeBlock) -> (r:
    Result<(), BaselineGeneratedExecutionError>)
    ensures
        r == spec_validate_snapshot(*code_block, artifact.eligibility_proof.bytecode_snapshot),
{
    validate_snapshot(code_block, artifact.eligibility_proof.bytecode_snapshot)
}

pub fn validate_runtime_helper_plan_snapshot(code_block: &CodeBlock, plan: &BaselineGeneratedRuntimeHelperPlan) -> (r:
    Result<(), BaselineGeneratedExecutionError>)
    ensures
        r == spec_validate_snapshot(*code_block, plan.bytecode_snapshot),
{
    validate_snapshot(code_block, plan.bytecode_snapshot)
}

pub fn validate_property_handoff_plan_snapshot(
    code_block: &CodeBlock,
    plan: &BaselineGeneratedPropertyHandoffPlanMetadata,
) -> (r: Result<(), BaselineGeneratedExecutionError>)
    ensures
        r == spec_validate_snapshot(*code_block, plan.bytecode_snapshot),
{
    validate_snapshot(code_block, plan.bytecode_snapshot)
}

pub open spec fn spec_validate_generated_artifact(
    artifact: BaselineGeneratedCodeArtifact,
    owner: CodeBlockId,
    code_block: CodeBlock,
) -> Result<(), BaselineGeneratedExecutionError> {
    match spec_validate_artifact_header(artifact, owner) {
        Err(error) => Err(error),
        Ok(()) => spec_validate_snapshot(code_block, artifact.eligibility_proof.bytecode_snapshot),
    }
}

pub fn validate_generated_artifact(
    artifact: &BaselineGeneratedCodeArtifact,
    owner: CodeBlockId,
    code_block: &CodeBlock,
) -> (r: Result<(), BaselineGeneratedExecutionError>)
    ensures
        r == spec_validate_generated_artifact(*artifact, owner, *code_block),
{
    validate_generated_artifact_header(artifact, owner)?;
    validate_generated_artifact_snapshot(artifact, code_block)
}

/// Every instruction must have a valid bytecode index and a core opcode; the first
/// one that does not is reported.
pub open spec fn spec_runtime_helper_coverage(instructions: Seq<TypedInstruction>) -> Result<
    (),
    BaselineGeneratedExecutionError,
>
    decreases instructions.len(),
{
    if instructions.len() == 0 {
        Ok(())
    } else {
        match spec_runtime_helper_coverage(instructions.drop_last()) {
            Err(error) => Err(error),
            Ok(()) => {
                let instruction = instructions.last();
                if !spec_bytecode_index_is_valid(instruction.bytecode_index) {
                    Err(
                        BaselineGeneratedExecutionError::Execution(
                            ExecutionError::InvalidBytecodeIndex(instruction.bytecode_index),
                        ),
                    )
                } else if instruction.opcode is Generated {
                    Err(BaselineGeneratedExecutionError::Execution(ExecutionError::UnsupportedOpcode(instruction.opcode)))
                } else {
                    Ok(())
                }
            },
        }
    }
}

proof fn lemma_coverage_error_persists(instructions: Seq<TypedInstruction>, n: int)
    requires
        0 <= n <= instructions.len(),
        spec_runtime_helper_coverage(instructions.take(n)) is Err,
    ensures
        spec_runtime_helper_coverage(instructions) == spec_runtime_helper_coverage(instructions.take(n)),
    decreases instructions.len() - n,
{
    if n < instructions.len() {
        assert(instructions.take(n + 1).drop_last() == instructions.take(n));
        lemma_coverage_error_persists(instructions, n + 1);
    } else {
        assert(instructions.take(n) == instructions);
    }
}

pub fn validate_runtime_helper_code_block_coverage(
    code_block: &CodeBlock,
    opcode_subset: BaselineSupportedOpcodeSubset,
) -> (r: Result<(), BaselineGeneratedExecutionError>)
    ensures
        r == spec_runtime_helper_coverage(code_block.instructions@),
{
    let mut i: usize = 0;
    while i < code_block.instructions.len()
        invariant
            i <= code_block.instructions@.len(),
            spec_runtime_helper_coverage(code_block.instructions@.take(i as int)) == Ok::<
                (),
                BaselineGeneratedExecutionError,
            >(()),
        decreases code_block.instructions@.len() - i,
    {
        let instruction = &code_block.instructions[i];
        assert(code_block.instructions@.take(i + 1).drop_last() == code_block.instructions@.take(i as int));
        if !instruction.bytecode_index.is_valid() {
            proof {
                lemma_coverage_error_persists(code_block.instructions@, i as int + 1);
            }
            return Err(
                BaselineGeneratedExecutionError::Execution(
                    ExecutionError::InvalidBytecodeIndex(instruction.bytecode_index),
                ),
            );
        }
        if let Opcode::Generated(_) = instruction.opcode {
            proof {
                lemma_coverage_error_persists(code_block.instructions@, i as int + 1);
            }
            return Err(BaselineGeneratedExecutionError::Execution(ExecutionError::UnsupportedOpcode(instruction.opcode)));
        }
        i = i + 1;
    }
    assert(code_block.instructions@.take(i as int) == code_block.instructions@);
    Ok(())
}

pub open spec fn spec_validate_generated_artifact_with_runtime_helpers(
    artifact: BaselineGeneratedCodeArtifact,
    owner: CodeBlockId,
    code_block: CodeBlock,
    plan: BaselineGeneratedRuntimeHelperPlan,
) -> Result<(), BaselineGeneratedExecutionError> {
    match spec_validate_artifact_header(artifact, owner) {
        Err(error) => Err(error),
        Ok(()) => match spec_validate_snapshot(code_block, plan.bytecode_snapshot) {
            Err(error) => Err(error),
            Ok(()) => spec_runtime_helper_coverage(code_block.instructions@),
        },
    }
}

/// With runtime helpers, the plan (not the artifact's own snapshot) must match the
/// code block, and every instruction must be a core one.
pub fn validate_generated_artifact_with_runtime_helpers(
    artifact: &BaselineGeneratedCodeArtifact,
    owner: CodeBlockId,
    code_block: &CodeBlock,
    plan: &BaselineGeneratedRuntimeHelperPlan,
) -> (r: Result<(), BaselineGeneratedExecutionError>)
    ensures
        r == spec_validate_generated_artifact_with_runtime_helpers(*artifact, owner, *code_block, *plan),
{
    validate_generated_artifact_header(artifact, owner)?;
    validate_runtime_helper_plan_snapshot(code_block, plan)?;
    validate_runtime_helper_code_block_coverage(code_block, artifact.eligibility_proof.opcode_subset())
}

pub open spec fn spec_validate_for_execution(
    artifact: BaselineGeneratedCodeArtifact,
    owner: CodeBlockId,
    code_block: CodeBlock,
    plan: Option<BaselineGeneratedRuntimeHelperPlan>,
    validation: BaselineGeneratedExecutionValidation,
) -> Result<(), BaselineGeneratedExecutionError> {
    match validation {
        BaselineGeneratedExecutionValidation::Full => match plan {
            Some(plan) => spec_validate_generated_artifact_with_runtime_helpers(artifact, owner, code_block, plan),
            None => spec_validate_generated_artifact(artifact, owner, code_block),
        },
        BaselineGeneratedExecutionValidation::Prevalidated { bytecode_snapshot } => match spec_validate_artifact_header(
            artifact,
            owner,
        ) {
            Err(error) => Err(error),
            Ok(()) => if artifact.eligibility_proof.bytecode_snapshot != bytecode_snapshot {
                Err(
                    BaselineGeneratedExecutionError::CodeBlockSnapshotMismatch {
                        expected: artifact.eligibility_proof.bytecode_snapshot,
                        actual: bytecode_snapshot,
                    },
                )
            } else {
                match plan {
                    Some(plan) => if plan.bytecode_snapshot != bytecode_snapshot {
                        Err(
                            BaselineGeneratedExecutionError::CodeBlockSnapshotMismatch {
                                expected: bytecode_snapshot,
                                actual: plan.bytecode_snapshot,
                            },
                        )
                    } else {
                        Ok(())
                    },
                    None => Ok(()),
                }
            },
        },
    }
}

pub open spec fn spec_optional_plan(plan: Option<&BaselineGeneratedRuntimeHelperPlan>) -> Option<
    BaselineGeneratedRuntimeHelperPlan,
> {
    match plan {
        Some(p) => Some(*p),
        None => None,
    }
}

pub fn validate_generated_artifact_for_execution(
    artifact: &BaselineGeneratedCodeArtifact,
    owner: CodeBlockId,
    code_block: &CodeBlock,
    plan: Option<&BaselineGeneratedRuntimeHelperPlan>,
    validation: BaselineGeneratedExecutionValidation,
) -> (r: Result<(), BaselineGeneratedExecutionError>)
    ensures
        r == spec_validate_for_execution(*artifact, owner, *code_block, spec_optional_plan(plan), validation),
{
    match validation {
        BaselineGeneratedExecutionValidation::Full => match plan {
            Some(plan) => validate_generated_artifact_with_runtime_helpers(artifact, owner, code_block, plan),
            None => validate_generated_artifact(artifact, owner, code_block),
        },
        BaselineGeneratedExecutionValidation::Prevalidated { bytecode_snapshot } => {
            validate_generated_artifact_header(artifact, owner)?;
            let expected = *artifact.eligibility_proof.bytecode_snapshot_fingerprint();
            if expected != bytecode_snapshot {
                return Err(
                    BaselineGeneratedExecutionError::CodeBlockSnapshotMismatch { expected, actual: bytecode_snapshot },
                );
            }
            if let Some(plan) = plan {
                if plan.bytecode_snapshot != bytecode_snapshot {
                    return Err(
                        BaselineGeneratedExecutionError::CodeBlockSnapshotMismatch {
                            expected: bytecode_snapshot,
                            actual: plan.bytecode_snapshot,
                        },
                    );
                }
            }
            Ok(())
        },
    }
}

/// The runtime-boundary proof for an instruction: none for a non-core opcode, and an
/// error when the plan holds several for its bytecode index.
pub open spec fn spec_runtime_helper_proof_for_instruction(
    instruction: TypedInstruction,
    plan: BaselineGeneratedRuntimeHelperPlan,
) -> Result<Option<BaselineGeneratedRuntimeBoundaryProof>, BaselineGeneratedExecutionError> {
    match instruction.opcode {
        Opcode::Generated(_) => Ok(None),
        Opcode::Core(opcode) => match spec_proof_lookup(plan.proofs@, instruction.bytecode_index) {
            Err(()) => Err(
                BaselineGeneratedExecutionError::RuntimeHelperProofAmbiguous {
                    bytecode_index: instruction.bytecode_index,
                    opcode,
                },
            ),
            Ok(proof) => Ok(proof),
        },
    }
}

pub fn runtime_helper_proof_for_instruction<'p>(
    instruction: &TypedInstruction,
    plan: &'p BaselineGeneratedRuntimeHelperPlan,
) -> (r: Result<Option<&'p BaselineGeneratedRuntimeBoundaryProof>, BaselineGeneratedExecutionError>)
    ensures
        match spec_runtime_helper_proof_for_instruction(*instruction, *plan) {
            Ok(Some(proof)) => r is Ok && r->Ok_0 is Some && *r->Ok_0->Some_0 == proof,
            Ok(None) => r is Ok && r->Ok_0 is None,
            Err(error) => r == Err::<Option<&BaselineGeneratedRuntimeBoundaryProof>, BaselineGeneratedExecutionError>(error),
        },
{
    let opcode = match CoreOpcode::from_opcode(instruction.opcode) {
        None => {
            return Ok(None);
        },
        Some(opcode) => opcode,
    };
    match plan.proof_for_bytecode_index(instruction.bytecode_index) {
        Err(()) => Err(
            BaselineGeneratedExecutionError::RuntimeHelperProofAmbiguous {
                bytecode_index: instruction.bytecode_index,
                opcode,
            },
        ),
        Ok(proof) => Ok(proof),
    }
}

/// A fallback for an unsupported opcode becomes a runtime-helper crossing when the plan
/// holds a proof for the instruction; any other fallback stays a fallback.
pub open spec fn spec_runtime_helper_handoff_for_fallback(
    owner: CodeBlockId,
    frame: CallFrameId,
    instruction: TypedInstruction,
    fallback: BaselineGeneratedFallback,
    plan: Option<BaselineGeneratedRuntimeHelperPlan>,
) -> Result<Option<BaselineGeneratedRuntimeHelperHandoff>, BaselineGeneratedExecutionError> {
    if fallback.reason.cause != BaselineGeneratedFallbackCause::UnsupportedOpcode {
        Ok(None)
    } else {
        match plan {
            None => Ok(None),
            Some(plan) => match spec_runtime_helper_proof_for_instruction(instruction, plan) {
                Err(error) => Err(error),
                Ok(None) => Ok(None),
                Ok(Some(proof)) => match spec_runtime_helper_handoff(owner, frame, instruction, proof) {
                    Ok(handoff) => Ok(Some(handoff)),
                    Err(error) => Err(
                        BaselineGeneratedExecutionError::RuntimeHelperHandoff {
                            bytecode_index: instruction.bytecode_index,
                            opcode: fallback.reason.opcode,
                            error,
                        },
                    ),
                },
            },
        }
    }
}

pub fn runtime_helper_handoff_for_fallback(
    owner: CodeBlockId,
    frame: CallFrameId,
    instruction: &TypedInstruction,
    fallback: BaselineGeneratedFallback,
    plan: Option<&BaselineGeneratedRuntimeHelperPlan>,
) -> (r: Result<Option<BaselineGeneratedRuntimeHelperHandoff>, BaselineGeneratedExecutionError>)
    ensures
        r == spec_runtime_helper_handoff_for_fallback(owner, frame, *instruction, fallback, spec_optional_plan(plan)),
{
    if fallback.reason.cause != BaselineGeneratedFallbackCause::UnsupportedOpcode {
        return Ok(None);
    }
    let plan = match plan {
        None => {
            return Ok(None);
        },
        Some(plan) => plan,
    };
    let proof = match runtime_helper_proof_for_instruction(instruction, plan)? {
        None => {
            return Ok(None);
        },
        Some(proof) => proof,
    };
    match baseline_generated_runtime_helper_handoff(owner, frame, instruction, proof) {
        Ok(handoff) => Ok(Some(handoff)),
        Err(error) => Err(
            BaselineGeneratedExecutionError::RuntimeHelperHandoff {
                bytecode_index: instruction.bytecode_index,
                opcode: fallback.reason.opcode,
                error,
            },
        ),
    }
}


/// The state a run carries from one instruction to the next.
#[verifier::ext_equal]
pub struct ExecutorLoopState {
    pub view: ExecutionView,
    pub executed: u64,
    pub hints: Seq<BaselineGeneratedLoopHintObservation>,
    pub pc: BytecodeIndex,
}

/// How a run ends, and the state it leaves.
#[verifier::ext_equal]
pub struct ExecutorRun {
    pub result: Result<BaselineGeneratedExecutionWithRuntimeHelpersResult, BaselineGeneratedExecutionError>,
    pub view: ExecutionView,
    pub executed: u64,
    pub hints: Seq<BaselineGeneratedLoopHintObservation>,
}

pub enum LoopIteration {
    Finished(ExecutorRun),
    Next(ExecutorLoopState),
}

/// The frames after the active one records that it is at `bytecode_index`.
pub open spec fn spec_mark_frames(frames: Seq<Frame>, bytecode_index: BytecodeIndex) -> Seq<Frame> {
    if frames.len() == 0 {
        frames
    } else {
        frames.update(frames.len() - 1, Frame { bytecode_index: Some(bytecode_index), ..frames.last() })
    }
}

pub open spec fn spec_finished(
    result: Result<BaselineGeneratedExecutionWithRuntimeHelpersResult, BaselineGeneratedExecutionError>,
    view: ExecutionView,
    executed: u64,
    hints: Seq<BaselineGeneratedLoopHintObservation>,
) -> LoopIteration {
    LoopIteration::Finished(ExecutorRun { result, view, executed, hints })
}

pub open spec fn spec_invalid_index(bytecode_index: BytecodeIndex) -> Result<
    BaselineGeneratedExecutionWithRuntimeHelpersResult,
    BaselineGeneratedExecutionError,
> {
    Err(BaselineGeneratedExecutionError::Execution(ExecutionError::InvalidBytecodeIndex(bytecode_index)))
}

/// One iteration of a run at `state.pc`: the active frame is marked at the instruction,
/// the metrics (when recorded) count it, the instruction steps, and its outcome either
/// ends the run or names the next instruction.
#[verifier::opaque]
pub open spec fn spec_loop_iteration(
    env: InstructionEnv,
    window: RegisterWindow,
    plan: Option<BaselineGeneratedRuntimeHelperPlan>,
    record: bool,
    state: ExecutorLoopState,
) -> LoopIteration {
    let code_block = env.code_block;
    let count = code_block.instructions@.len();
    let pc = state.pc;
    if pc.offset >= count {
        spec_finished(spec_invalid_index(pc), state.view, state.executed, state.hints)
    } else {
        match spec_decoded_instruction_at(code_block, pc) {
            Err(error) => spec_finished(
                Err(BaselineGeneratedExecutionError::InstructionDecode { bytecode_index: pc, error }),
                state.view,
                state.executed,
                state.hints,
            ),
            Ok(instruction) => {
                let bytecode_index = instruction.bytecode_index;
                if !spec_bytecode_index_is_valid(bytecode_index) {
                    spec_finished(spec_invalid_index(bytecode_index), state.view, state.executed, state.hints)
                } else {
                    let marked = ExecutionView {
                        frames: spec_mark_frames(state.view.frames, bytecode_index),
                        ..state.view
                    };
                    let executed = if record {
                        spec_saturating_increment_u64(state.executed)
                    } else {
                        state.executed
                    };
                    let hints = if record && instruction.opcode == Opcode::Core(CoreOpcode::LoopHint) {
                        spec_record_loop_hint(state.hints, bytecode_index)
                    } else {
                        state.hints
                    };
                    let step = spec_execute_instruction(env, window, marked, instruction);
                    let view = ExecutionView { slots: step.1, ..marked };
                    let outcome = match step.0 {
                        Ok(outcome) => Ok(outcome),
                        Err(BaselineInstructionAbort::Fallback(fallback)) => Ok(
                            BaselineInstructionOutcome::Fallback(fallback),
                        ),
                        Err(BaselineInstructionAbort::Error(error)) => Err(error),
                    };
                    match outcome {
                        Err(error) => spec_finished(Err(error), view, executed, hints),
                        Ok(BaselineInstructionOutcome::Continue) => if pc.offset + 1 >= count {
                            spec_finished(
                                Ok(BaselineGeneratedExecutionWithRuntimeHelpersResult::Completed(
                                    ExecutionCompletion::Returned(RuntimeValue::Undefined),
                                )),
                                view,
                                executed,
                                hints,
                            )
                        } else {
                            LoopIteration::Next(
                                ExecutorLoopState {
                                    view,
                                    executed,
                                    hints,
                                    pc: BytecodeIndex { offset: (pc.offset + 1) as u32 },
                                },
                            )
                        },
                        Ok(BaselineInstructionOutcome::ContinueTo(target)) => if target.offset >= count {
                            spec_finished(spec_invalid_index(target), view, executed, hints)
                        } else {
                            let skipped: u64 = if target.offset > pc.offset + 1 {
                                (target.offset - pc.offset - 1) as u64
                            } else {
                                0
                            };
                            LoopIteration::Next(
                                ExecutorLoopState {
                                    view,
                                    executed: if record {
                                        spec_saturating_add_u64(executed, skipped)
                                    } else {
                                        executed
                                    },
                                    hints,
                                    pc: target,
                                },
                            )
                        },
                        Ok(BaselineInstructionOutcome::Jump(target)) => if target.offset >= count {
                            spec_finished(spec_invalid_index(target), view, executed, hints)
                        } else {
                            LoopIteration::Next(ExecutorLoopState { view, executed, hints, pc: target })
                        },
                        Ok(BaselineInstructionOutcome::Return(value)) => spec_finished(
                            Ok(BaselineGeneratedExecutionWithRuntimeHelpersResult::Completed(
                                ExecutionCompletion::Returned(value),
                            )),
                            view,
                            executed,
                            hints,
                        ),
                        Ok(BaselineInstructionOutcome::JsCall(handoff)) => spec_finished(
                            Ok(BaselineGeneratedExecutionWithRuntimeHelpersResult::JsCall(handoff)),
                            view,
                            executed,
                            hints,
                        ),
                        Ok(BaselineInstructionOutcome::Property(handoff)) => spec_finished(
                            Ok(BaselineGeneratedExecutionWithRuntimeHelpersResult::Property(handoff)),
                            view,
                            executed,
                            hints,
                        ),
                        Ok(BaselineInstructionOutcome::Fallback(fallback)) => match spec_runtime_helper_handoff_for_fallback(
                            env.owner,
                            env.frame,
                            instruction,
                            fallback,
                            plan,
                        ) {
                            Err(error) => spec_finished(Err(error), view, executed, hints),
                            Ok(Some(handoff)) => spec_finished(
                                Ok(BaselineGeneratedExecutionWithRuntimeHelpersResult::RuntimeHelper(handoff)),
                                view,
                                executed,
                                hints,
                            ),
                            Ok(None) => spec_finished(
                                Ok(BaselineGeneratedExecutionWithRuntimeHelpersResult::Fallback(fallback)),
                                view,
                                executed,
                                hints,
                            ),
                        },
                    }
                }
            },
        }
    }
}

/// A run of at most `fuel` iterations from `state`; out of fuel, it stops with
/// `ExecutionBudgetExhausted`.
#[verifier::opaque]
pub open spec fn spec_run_loop(
    env: InstructionEnv,
    window: RegisterWindow,
    plan: Option<BaselineGeneratedRuntimeHelperPlan>,
    record: bool,
    state: ExecutorLoopState,
    fuel: nat,
) -> ExecutorRun
    decreases fuel,
{
    if fuel == 0 {
        ExecutorRun {
            result: Err(BaselineGeneratedExecutionError::Execution(ExecutionError::ExecutionBudgetExhausted)),
            view: state.view,
            executed: state.executed,
            hints: state.hints,
        }
    } else {
        match spec_loop_iteration(env, window, plan, record, state) {
            LoopIteration::Finished(run) => run,
            LoopIteration::Next(next) => spec_run_loop(env, window, plan, record, next, (fuel - 1) as nat),
        }
    }
}

/// A run with fuel left is its first iteration, then the rest of the run.
pub proof fn lemma_run_loop_step(
    env: InstructionEnv,
    window: RegisterWindow,
    plan: Option<BaselineGeneratedRuntimeHelperPlan>,
    record: bool,
    state: ExecutorLoopState,
    fuel: nat,
)
    requires
        fuel > 0,
    ensures
        match spec_loop_iteration(env, window, plan, record, state) {
            LoopIteration::Finished(run) => spec_run_loop(env, window, plan, record, state, fuel) == run,
            LoopIteration::Next(next) => spec_run_loop(env, window, plan, record, state, fuel) == spec_run_loop(
                env,
                window,
                plan,
                record,
                next,
                (fuel - 1) as nat,
            ),
        },
{
    reveal(spec_run_loop);
}

/// What one iteration tells the loop.
pub enum LoopControl {
    Finished(Result<BaselineGeneratedExecutionWithRuntimeHelpersResult, BaselineGeneratedExecutionError>),
    Next(BytecodeIndex),
}

pub open spec fn spec_loop_state(
    execution: InterpreterExecutionState,
    metrics: BaselineGeneratedExecutionMetrics,
    pc: BytecodeIndex,
) -> ExecutorLoopState {
    ExecutorLoopState {
        view: spec_execution_view(execution),
        executed: metrics.executed_bytecode_count,
        hints: metrics.loop_hint_observations@,
        pc,
    }
}

/// `after` is `before` with, at most, other bytecode indices recorded in its frames.
pub open spec fn spec_frames_repositioned(before: Seq<Frame>, after: Seq<Frame>) -> bool {
    &&& after.len() == before.len()
    &&& forall|i: int|
        0 <= i < before.len() ==> #[trigger] after[i] == Frame { bytecode_index: after[i].bytecode_index, ..before[i] }
}

proof fn lemma_frames_repositioned_chain(a: Seq<Frame>, b: Seq<Frame>, c: Seq<Frame>)
    requires
        spec_frames_repositioned(a, b),
        spec_frames_repositioned(b, c),
    ensures
        spec_frames_repositioned(a, c),
{
    assert forall|i: int| 0 <= i < a.len() implies #[trigger] c[i] == Frame {
        bytecode_index: c[i].bytecode_index,
        ..a[i]
    } by {
        assert(b[i] == Frame { bytecode_index: b[i].bytecode_index, ..a[i] });
        assert(c[i] == Frame { bytecode_index: c[i].bytecode_index, ..b[i] });
    }
}

/// What every run leaves of the interpreter state it was given: the heap, the frame
/// stack's shape and identities, and the realm's global `this`.
pub open spec fn spec_state_kept(before: InterpreterExecutionState, after: InterpreterExecutionState) -> bool {
    &&& after.heap == before.heap
    &&& after.stack.next_frame_id == before.stack.next_frame_id
    &&& after.stack.global_this_value == before.stack.global_this_value
    &&& spec_frames_repositioned(before.stack.frames@, after.stack.frames@)
}

proof fn lemma_state_kept_chain(a: InterpreterExecutionState, b: InterpreterExecutionState, c: InterpreterExecutionState)
    requires
        spec_state_kept(a, b),
        spec_state_kept(b, c),
    ensures
        spec_state_kept(a, c),
{
    lemma_frames_repositioned_chain(a.stack.frames@, b.stack.frames@, c.stack.frames@);
}

/// Whether no instruction of `code_block` would consult a sidecar when run with `subset`.
pub open spec fn spec_sidecar_free(subset: BaselineSupportedOpcodeSubset, code_block: CodeBlock) -> bool {
    forall|i: int|
        0 <= i < code_block.instructions@.len() ==> !spec_consults_sidecars(subset, #[trigger] code_block.instructions@[i])
}

/// Whether the iteration at `pc` would consult a sidecar.
pub open spec fn spec_iteration_consults(env: InstructionEnv, pc: BytecodeIndex) -> bool {
    match spec_decoded_instruction_at(env.code_block, pc) {
        Ok(instruction) => spec_consults_sidecars(env.subset, instruction),
        Err(_) => false,
    }
}

/// Whether the plain run of at most `fuel` iterations from `state` reaches an instruction
/// that would consult a sidecar.
#[verifier::opaque]
pub open spec fn spec_run_loop_consults(
    env: InstructionEnv,
    window: RegisterWindow,
    plan: Option<BaselineGeneratedRuntimeHelperPlan>,
    record: bool,
    state: ExecutorLoopState,
    fuel: nat,
) -> bool
    decreases fuel,
{
    if fuel == 0 {
        false
    } else if spec_iteration_consults(env, state.pc) {
        true
    } else {
        match spec_loop_iteration(env, window, plan, record, state) {
            LoopIteration::Finished(_) => false,
            LoopIteration::Next(next) => spec_run_loop_consults(env, window, plan, record, next, (fuel - 1) as nat),
        }
    }
}

/// A run with fuel left consults a sidecar at its first iteration or in the rest of it.
pub proof fn lemma_run_loop_consults_step(
    env: InstructionEnv,
    window: RegisterWindow,
    plan: Option<BaselineGeneratedRuntimeHelperPlan>,
    record: bool,
    state: ExecutorLoopState,
    fuel: nat,
)
    requires
        fuel > 0,
    ensures
        spec_run_loop_consults(env, window, plan, record, state, fuel) == (spec_iteration_consults(env, state.pc)
            || match spec_loop_iteration(env, window, plan, record, state) {
            LoopIteration::Finished(_) => false,
            LoopIteration::Next(next) => spec_run_loop_consults(env, window, plan, record, next, (fuel - 1) as nat),
        }),
{
    reveal(spec_run_loop_consults);
}

/// Whether the plain run of `request` reaches an instruction that would consult a sidecar.
pub open spec fn spec_run_consults(
    request: BaselineGeneratedExecutionRequest,
    execution: InterpreterExecutionState,
    executed: u64,
    hints: Seq<BaselineGeneratedLoopHintObservation>,
    plan: Option<BaselineGeneratedRuntimeHelperPlan>,
    record: bool,
    validation: BaselineGeneratedExecutionValidation,
) -> bool {
    match spec_run_preflight(request, execution, plan, validation) {
        Ok(Some((window, pc))) => spec_run_loop_consults(
            spec_request_env(request),
            window,
            plan,
            record,
            ExecutorLoopState { view: spec_execution_view(execution), executed, hints, pc },
            spec_run_budget(),
        ),
        _ => false,
    }
}

/// Whether a run with these sidecars is bound to be the plain run: there are none, or the
/// plain run never reaches an instruction that would consult them.
pub open spec fn spec_runs_plain<P: GeneratedExecutionSidecars, C: GeneratedExecutionSidecars>(
    property: P,
    call_link: C,
    request: BaselineGeneratedExecutionRequest,
    execution: InterpreterExecutionState,
    executed: u64,
    hints: Seq<BaselineGeneratedLoopHintObservation>,
    plan: Option<BaselineGeneratedRuntimeHelperPlan>,
    record: bool,
    validation: BaselineGeneratedExecutionValidation,
) -> bool {
    spec_no_sidecars(property, call_link) || !spec_run_consults(request, execution, executed, hints, plan, record, validation)
}

fn run_iteration<P: GeneratedExecutionSidecars, C: GeneratedExecutionSidecars>(
    context: BaselineInstructionContext,
    window: RegisterWindow,
    plan: Option<&BaselineGeneratedRuntimeHelperPlan>,
    record: bool,
    execution: &mut InterpreterExecutionState,
    metrics: &mut BaselineGeneratedExecutionMetrics,
    pc: BytecodeIndex,
    property: &mut P,
    call_link: &mut C,
) -> (r: LoopControl)
    ensures
        spec_state_kept(*old(execution), *final(execution)),
        spec_sidecars_kept(*old(property), *final(property), *old(call_link), *final(call_link)),
        !record ==> *final(metrics) == *old(metrics),
        spec_no_sidecars(*old(property), *old(call_link)) || !spec_iteration_consults(spec_context_env(context), pc) ==> {
            &&& *final(property) == *old(property)
            &&& *final(call_link) == *old(call_link)
        },
        spec_no_sidecars(*old(property), *old(call_link)) || !spec_iteration_consults(spec_context_env(context), pc)
            ==> match spec_loop_iteration(
            spec_context_env(context),
            window,
            spec_optional_plan(plan),
            record,
            spec_loop_state(*old(execution), *old(metrics), pc),
        ) {
            LoopIteration::Finished(run) => r == LoopControl::Finished(run.result)
                && spec_execution_view(*final(execution)) == run.view
                && final(metrics).executed_bytecode_count == run.executed
                && final(metrics).loop_hint_observations@ == run.hints,
            LoopIteration::Next(next) => r == LoopControl::Next(next.pc)
                && spec_execution_view(*final(execution)) == next.view
                && final(metrics).executed_bytecode_count == next.executed
                && final(metrics).loop_hint_observations@ == next.hints,
        },
{
    proof {
        reveal(spec_loop_iteration);
        P::lemma_keeps_reflexive(property);
        C::lemma_keeps_reflexive(call_link);
    }
    let code_block = context.code_block;
    let count = code_block.instructions.len();
    let ordinal = pc.offset as usize;
    if ordinal >= count {
        return LoopControl::Finished(Err(BaselineGeneratedExecutionError::Execution(ExecutionError::InvalidBytecodeIndex(pc))));
    }
    let instruction = match code_block.decoded_instruction_at(pc) {
        Err(error) => {
            return LoopControl::Finished(Err(BaselineGeneratedExecutionError::InstructionDecode { bytecode_index: pc, error }));
        },
        Ok(instruction) => instruction,
    };
    let bytecode_index = instruction.bytecode_index;
    if !bytecode_index.is_valid() {
        return LoopControl::Finished(
            Err(BaselineGeneratedExecutionError::Execution(ExecutionError::InvalidBytecodeIndex(bytecode_index))),
        );
    }
    execution.stack.mark_top_bytecode_index(bytecode_index);
    if record {
        let count_so_far = metrics.executed_bytecode_count;
        metrics.executed_bytecode_count = if count_so_far == u64::MAX { u64::MAX } else { count_so_far + 1 };
        if instruction.opcode == Opcode::Core(CoreOpcode::LoopHint) {
            metrics.record_loop_hint(bytecode_index);
        }
    }
    proof {
        assert(spec_frames_repositioned(old(execution).stack.frames@, execution.stack.frames@));
    }
    let outcome = match execute_instruction_with_sidecars(context, window, execution, instruction, property, call_link) {
        Ok(outcome) => outcome,
        Err(BaselineInstructionAbort::Fallback(fallback)) => BaselineInstructionOutcome::Fallback(fallback),
        Err(BaselineInstructionAbort::Error(error)) => {
            return LoopControl::Finished(Err(error));
        },
    };
    match outcome {
        BaselineInstructionOutcome::Continue => {
            let next = ordinal + 1;
            if next >= count {
                LoopControl::Finished(
                    Ok(BaselineGeneratedExecutionWithRuntimeHelpersResult::Completed(
                        ExecutionCompletion::Returned(RuntimeValue::Undefined),
                    )),
                )
            } else {
                LoopControl::Next(BytecodeIndex::from_offset(#[verifier::truncate] (next as u32)))
            }
        },
        BaselineInstructionOutcome::ContinueTo(target) => {
            let target_ordinal = target.offset as usize;
            if target_ordinal >= count {
                return LoopControl::Finished(
                    Err(BaselineGeneratedExecutionError::Execution(ExecutionError::InvalidBytecodeIndex(target))),
                );
            }
            if record {
                let skipped: u64 = if target_ordinal > ordinal + 1 {
                    (target_ordinal - ordinal - 1) as u64
                } else {
                    0
                };
                let so_far = metrics.executed_bytecode_count;
                metrics.executed_bytecode_count = if so_far > u64::MAX - skipped { u64::MAX } else { so_far + skipped };
            }
            LoopControl::Next(target)
        },
        BaselineInstructionOutcome::Jump(target) => {
            if target.offset as usize >= count {
                return LoopControl::Finished(
                    Err(BaselineGeneratedExecutionError::Execution(ExecutionError::InvalidBytecodeIndex(target))),
                );
            }
            LoopControl::Next(target)
        },
        BaselineInstructionOutcome::Return(value) => LoopControl::Finished(
            Ok(BaselineGeneratedExecutionWithRuntimeHelpersResult::Completed(ExecutionCompletion::Returned(value))),
        ),
        BaselineInstructionOutcome::JsCall(handoff) => LoopControl::Finished(
            Ok(BaselineGeneratedExecutionWithRuntimeHelpersResult::JsCall(handoff)),
        ),
        BaselineInstructionOutcome::Property(handoff) => LoopControl::Finished(
            Ok(BaselineGeneratedExecutionWithRuntimeHelpersResult::Property(handoff)),
        ),
        BaselineInstructionOutcome::Fallback(fallback) => match runtime_helper_handoff_for_fallback(
            context.owner,
            context.frame,
            instruction,
            fallback,
            plan,
        ) {
            Err(error) => LoopControl::Finished(Err(error)),
            Ok(Some(handoff)) => LoopControl::Finished(
                Ok(BaselineGeneratedExecutionWithRuntimeHelpersResult::RuntimeHelper(handoff)),
            ),
            Ok(None) => LoopControl::Finished(Ok(BaselineGeneratedExecutionWithRuntimeHelpersResult::Fallback(fallback))),
        },
    }
}


/// The artifact's property plan, checked as the validation mode asks.
pub open spec fn spec_property_plan_check(
    plan: Option<BaselineGeneratedPropertyHandoffPlanMetadata>,
    code_block: CodeBlock,
    validation: BaselineGeneratedExecutionValidation,
) -> Result<(), BaselineGeneratedExecutionError> {
    match plan {
        None => Ok(()),
        Some(plan) => match validation {
            BaselineGeneratedExecutionValidation::Full => spec_validate_snapshot(code_block, plan.bytecode_snapshot),
            BaselineGeneratedExecutionValidation::Prevalidated { bytecode_snapshot } => if plan.bytecode_snapshot
                != bytecode_snapshot {
                Err(
                    BaselineGeneratedExecutionError::CodeBlockSnapshotMismatch {
                        expected: bytecode_snapshot,
                        actual: plan.bytecode_snapshot,
                    },
                )
            } else {
                Ok(())
            },
        },
    }
}

/// Everything a run checks before its first instruction; `Ok(None)` for an empty code
/// block, otherwise the active frame's window and the bytecode index to start at.
pub open spec fn spec_run_preflight(
    request: BaselineGeneratedExecutionRequest,
    execution: InterpreterExecutionState,
    plan: Option<BaselineGeneratedRuntimeHelperPlan>,
    validation: BaselineGeneratedExecutionValidation,
) -> Result<Option<(RegisterWindow, BytecodeIndex)>, BaselineGeneratedExecutionError> {
    let artifact = *request.artifact;
    let code_block = *request.code_block;
    match spec_validate_for_execution(artifact, request.owner, code_block, plan, validation) {
        Err(error) => Err(error),
        Ok(()) => match spec_property_plan_check(artifact.property_handoff_plan, code_block, validation) {
            Err(error) => Err(error),
            Ok(()) => match spec_active_frame(execution.stack, request.expected_frame, request.owner) {
                Err(error) => Err(BaselineGeneratedExecutionError::Execution(error)),
                Ok((frame, window)) => if code_block.instructions@.len() == 0 {
                    Ok(None)
                } else {
                    Ok(
                        Some(
                            (
                                window,
                                match frame.bytecode_index {
                                    Some(index) => index,
                                    None => BytecodeIndex { offset: 0 },
                                },
                            ),
                        ),
                    )
                },
            },
        },
    }
}

/// The values every step of a run for `request` depends on.
pub open spec fn spec_request_env(request: BaselineGeneratedExecutionRequest) -> InstructionEnv {
    InstructionEnv {
        subset: request.artifact.eligibility_proof.opcode_subset,
        owner: request.owner,
        frame: request.expected_frame,
        code_block: *request.code_block,
        property_plan: request.artifact.property_handoff_plan,
        continuation_map: request.artifact.owner_continuation_map,
    }
}

/// The largest number of instructions one run executes.
pub open spec fn spec_run_budget() -> nat {
    u64::MAX as nat
}

/// A whole run: the preflight, then the loop from the start index.
#[verifier::opaque]
pub open spec fn spec_run(
    request: BaselineGeneratedExecutionRequest,
    execution: InterpreterExecutionState,
    executed: u64,
    hints: Seq<BaselineGeneratedLoopHintObservation>,
    plan: Option<BaselineGeneratedRuntimeHelperPlan>,
    record: bool,
    validation: BaselineGeneratedExecutionValidation,
) -> ExecutorRun {
    let unchanged = |result| ExecutorRun { result, view: spec_execution_view(execution), executed, hints };
    match spec_run_preflight(request, execution, plan, validation) {
        Err(error) => unchanged(Err(error)),
        Ok(None) => unchanged(
            Ok(BaselineGeneratedExecutionWithRuntimeHelpersResult::Completed(
                ExecutionCompletion::Returned(RuntimeValue::Undefined),
            )),
        ),
        Ok(Some((window, pc))) => spec_run_loop(
            spec_request_env(request),
            window,
            plan,
            record,
            ExecutorLoopState { view: spec_execution_view(execution), executed, hints, pc },
            spec_run_budget(),
        ),
    }
}

fn run_preflight(
    request: BaselineGeneratedExecutionRequest,
    execution: &InterpreterExecutionState,
    plan: Option<&BaselineGeneratedRuntimeHelperPlan>,
    validation: BaselineGeneratedExecutionValidation,
) -> (r: Result<Option<(RegisterWindow, BytecodeIndex)>, BaselineGeneratedExecutionError>)
    ensures
        r == spec_run_preflight(request, *execution, spec_optional_plan(plan), validation),
{
    let artifact = request.artifact;
    let code_block = request.code_block;
    let owner = request.owner;
    validate_generated_artifact_for_execution(artifact, owner, code_block, plan, validation)?;
    if let Some(property_plan) = artifact.property_handoff_plan() {
        match validation {
            BaselineGeneratedExecutionValidation::Full => {
                validate_property_handoff_plan_snapshot(code_block, property_plan)?;
            },
            BaselineGeneratedExecutionValidation::Prevalidated { bytecode_snapshot } => {
                if property_plan.bytecode_snapshot != bytecode_snapshot {
                    return Err(
                        BaselineGeneratedExecutionError::CodeBlockSnapshotMismatch {
                            expected: bytecode_snapshot,
                            actual: property_plan.bytecode_snapshot,
                        },
                    );
                }
            },
        }
    }
    let (frame, window) = match baseline_active_frame(&execution.stack, request.expected_frame, owner) {
        Err(error) => {
            return Err(BaselineGeneratedExecutionError::Execution(error));
        },
        Ok(active) => active,
    };
    if code_block.instructions.len() == 0 {
        return Ok(None);
    }
    let pc = match frame.bytecode_index {
        Some(index) => index,
        None => BytecodeIndex::from_offset(0),
    };
    Ok(Some((window, pc)))
}

/// Whether a run that consulted no sidecar left them as they were.
pub open spec fn spec_sidecars_untouched<P, C>(old_property: P, new_property: P, old_call_link: C, new_call_link: C) -> bool {
    new_property == old_property && new_call_link == old_call_link
}

/// Runs generated code for `request` against the interpreter state, consulting the
/// property sidecars and the call-link sidecar for what the body's subset leaves out.
/// Whatever the sidecars answer, the run keeps the heap and the frames (only their
/// bytecode indices move), and each sidecar keeps its tables and records. A run that
/// fails its checks, or has nothing to run, changes nothing. With no sidecar at all the
/// run's result, register slots, frames and metrics are those of `spec_run`. Metrics
/// change only when `record` is set.
#[verifier::rlimit(60)]
pub fn execute_baseline_generated_code_internal<P: GeneratedExecutionSidecars, C: GeneratedExecutionSidecars>(
    request: BaselineGeneratedExecutionRequest,
    execution: &mut InterpreterExecutionState,
    plan: Option<&BaselineGeneratedRuntimeHelperPlan>,
    property: &mut P,
    call_link: &mut C,
    metrics: &mut BaselineGeneratedExecutionMetrics,
    record: bool,
    validation: BaselineGeneratedExecutionValidation,
) -> (r: Result<BaselineGeneratedExecutionWithRuntimeHelpersResult, BaselineGeneratedExecutionError>)
    ensures
        spec_state_kept(*old(execution), *final(execution)),
        spec_sidecars_kept(*old(property), *final(property), *old(call_link), *final(call_link)),
        !record ==> *final(metrics) == *old(metrics),
        match spec_run_preflight(request, *old(execution), spec_optional_plan(plan), validation) {
            Err(error) => {
                &&& r == Err::<BaselineGeneratedExecutionWithRuntimeHelpersResult, BaselineGeneratedExecutionError>(error)
                &&& *final(execution) == *old(execution)
                &&& *final(metrics) == *old(metrics)
                &&& spec_sidecars_untouched(*old(property), *final(property), *old(call_link), *final(call_link))
            },
            Ok(None) => {
                &&& r == Ok::<BaselineGeneratedExecutionWithRuntimeHelpersResult, BaselineGeneratedExecutionError>(
                    BaselineGeneratedExecutionWithRuntimeHelpersResult::Completed(
                        ExecutionCompletion::Returned(RuntimeValue::Undefined),
                    ),
                )
                &&& *final(execution) == *old(execution)
                &&& *final(metrics) == *old(metrics)
                &&& spec_sidecars_untouched(*old(property), *final(property), *old(call_link), *final(call_link))
            },
            Ok(Some(_)) => true,
        },
        spec_runs_plain(
            *old(property),
            *old(call_link),
            request,
            *old(execution),
            old(metrics).executed_bytecode_count,
            old(metrics).loop_hint_observations@,
            spec_optional_plan(plan),
            record,
            validation,
        ) ==> spec_sidecars_untouched(*old(property), *final(property), *old(call_link), *final(call_link)),
        spec_runs_plain(
            *old(property),
            *old(call_link),
            request,
            *old(execution),
            old(metrics).executed_bytecode_count,
            old(metrics).loop_hint_observations@,
            spec_optional_plan(plan),
            record,
            validation,
        ) ==> ({
            let run = spec_run(
                request,
                *old(execution),
                old(metrics).executed_bytecode_count,
                old(metrics).loop_hint_observations@,
                spec_optional_plan(plan),
                record,
                validation,
            );
            &&& r == run.result
            &&& spec_execution_view(*final(execution)) == run.view
            &&& final(metrics).executed_bytecode_count == run.executed
            &&& final(metrics).loop_hint_observations@ == run.hints
        }),
{
    proof {
        P::lemma_keeps_reflexive(property);
        C::lemma_keeps_reflexive(call_link);
    }
    let (window, start_pc) = match run_preflight(request, execution, plan, validation) {
        Err(error) => {
            proof {
                reveal(spec_run);
            }
            return Err(error);
        },
        Ok(None) => {
            proof {
                reveal(spec_run);
            }
            return Ok(
                BaselineGeneratedExecutionWithRuntimeHelpersResult::Completed(
                    ExecutionCompletion::Returned(RuntimeValue::Undefined),
                ),
            );
        },
        Ok(Some(start)) => start,
    };
    let artifact = request.artifact;
    let context = BaselineInstructionContext::new(
        artifact.eligibility_proof.opcode_subset(),
        request.owner,
        request.expected_frame,
        request.code_block,
        artifact.property_handoff_plan(),
    ).with_owner_continuation_map(artifact.owner_continuation_map());
    let ghost env = spec_request_env(request);
    assert(spec_context_env(context) == env);
    let mut pc = start_pc;
    let ghost absent = spec_runs_plain(
        *old(property),
        *old(call_link),
        request,
        *old(execution),
        old(metrics).executed_bytecode_count,
        old(metrics).loop_hint_observations@,
        spec_optional_plan(plan),
        record,
        validation,
    );
    let ghost no_sidecars = spec_no_sidecars(*old(property), *old(call_link));
    let ghost start = spec_loop_state(*old(execution), *old(metrics), pc);
    let ghost whole = spec_run(
        request,
        *old(execution),
        old(metrics).executed_bytecode_count,
        old(metrics).loop_hint_observations@,
        spec_optional_plan(plan),
        record,
        validation,
    );
    assert(whole == spec_run_loop(env, window, spec_optional_plan(plan), record, start, spec_run_budget())) by {
        reveal(spec_run);
    }
    let mut budget: u64 = u64::MAX;
    loop
        invariant
            whole == spec_run(
                request,
                *old(execution),
                old(metrics).executed_bytecode_count,
                old(metrics).loop_hint_observations@,
                spec_optional_plan(plan),
                record,
                validation,
            ),
            whole == spec_run_loop(env, window, spec_optional_plan(plan), record, start, spec_run_budget()),
            spec_context_env(context) == env,
            env == spec_request_env(request),
            absent == spec_runs_plain(
                *old(property),
                *old(call_link),
                request,
                *old(execution),
                old(metrics).executed_bytecode_count,
                old(metrics).loop_hint_observations@,
                spec_optional_plan(plan),
                record,
                validation,
            ),
            no_sidecars == spec_no_sidecars(*old(property), *old(call_link)),
            absent ==> *property == *old(property) && *call_link == *old(call_link),
            absent ==> no_sidecars || !spec_run_loop_consults(
                env,
                window,
                spec_optional_plan(plan),
                record,
                spec_loop_state(*execution, *metrics, pc),
                budget as nat,
            ),
            spec_run_preflight(request, *old(execution), spec_optional_plan(plan), validation) matches Ok(Some(_)),
            spec_state_kept(*old(execution), *execution),
            spec_sidecars_kept(*old(property), *property, *old(call_link), *call_link),
            !record ==> *metrics == *old(metrics),
            absent ==> spec_run_loop(env, window, spec_optional_plan(plan), record, start, spec_run_budget())
                == spec_run_loop(
                env,
                window,
                spec_optional_plan(plan),
                record,
                spec_loop_state(*execution, *metrics, pc),
                budget as nat,
            ),
        decreases budget,
    {
        if budget == 0 {
            proof {
                reveal(spec_run_loop);
            }
            return Err(BaselineGeneratedExecutionError::Execution(ExecutionError::ExecutionBudgetExhausted));
        }
        let ghost current = spec_loop_state(*execution, *metrics, pc);
        let ghost execution_before = *execution;
        let ghost property_before = *property;
        let ghost call_link_before = *call_link;
        proof {
            lemma_run_loop_step(env, window, spec_optional_plan(plan), record, current, budget as nat);
            lemma_run_loop_consults_step(env, window, spec_optional_plan(plan), record, current, budget as nat);
        }
        let control = run_iteration(context, window, plan, record, execution, metrics, pc, property, call_link);
        proof {
            lemma_state_kept_chain(*old(execution), execution_before, *execution);
            P::lemma_keeps_transitive(old(property), &property_before, property);
            C::lemma_keeps_transitive(old(call_link), &call_link_before, call_link);
        }
        match control {
            LoopControl::Finished(result) => {
                proof {
                    if absent {
                        match spec_loop_iteration(env, window, spec_optional_plan(plan), record, current) {
                            LoopIteration::Finished(run) => {
                                assert(whole == run);
                            },
                            LoopIteration::Next(_) => {
                                assert(false);
                            },
                        }
                    }
                }
                return result;
            },
            LoopControl::Next(next) => {
                pc = next;
            },
        }
        proof {
            if absent {
                match spec_loop_iteration(env, window, spec_optional_plan(plan), record, current) {
                    LoopIteration::Next(next_state) => {
                        assert(spec_loop_state(*execution, *metrics, pc) =~= next_state);
                    },
                    LoopIteration::Finished(_) => {},
                }
            }
        }
        budget = budget - 1;
    }
}

/// A run's result without runtime helpers: a runtime-helper crossing is an error.
pub open spec fn spec_without_runtime_helpers(
    result: Result<BaselineGeneratedExecutionWithRuntimeHelpersResult, BaselineGeneratedExecutionError>,
) -> Result<BaselineGeneratedExecutionResult, BaselineGeneratedExecutionError> {
    match result {
        Err(error) => Err(error),
        Ok(BaselineGeneratedExecutionWithRuntimeHelpersResult::Completed(c)) => Ok(
            BaselineGeneratedExecutionResult::Completed(c),
        ),
        Ok(BaselineGeneratedExecutionWithRuntimeHelpersResult::Fallback(f)) => Ok(
            BaselineGeneratedExecutionResult::Fallback(f),
        ),
        Ok(BaselineGeneratedExecutionWithRuntimeHelpersResult::JsCall(h)) => Ok(
            BaselineGeneratedExecutionResult::JsCall(h),
        ),
        Ok(BaselineGeneratedExecutionWithRuntimeHelpersResult::Property(h)) => Ok(
            BaselineGeneratedExecutionResult::Property(h),
        ),
        Ok(BaselineGeneratedExecutionWithRuntimeHelpersResult::RuntimeHelper(h)) => Err(
            BaselineGeneratedExecutionError::UnexpectedRuntimeHelper(h),
        ),
    }
}

pub(crate) fn without_runtime_helpers(
    result: Result<BaselineGeneratedExecutionWithRuntimeHelpersResult, BaselineGeneratedExecutionError>,
) -> (r: Result<BaselineGeneratedExecutionResult, BaselineGeneratedExecutionError>)
    ensures
        r == spec_without_runtime_helpers(result),
{
    match result {
        Err(error) => Err(error),
        Ok(BaselineGeneratedExecutionWithRuntimeHelpersResult::Completed(c)) => Ok(
            BaselineGeneratedExecutionResult::Completed(c),
        ),
        Ok(BaselineGeneratedExecutionWithRuntimeHelpersResult::Fallback(f)) => Ok(
            BaselineGeneratedExecutionResult::Fallback(f),
        ),
        Ok(BaselineGeneratedExecutionWithRuntimeHelpersResult::JsCall(h)) => Ok(
            BaselineGeneratedExecutionResult::JsCall(h),
        ),
        Ok(BaselineGeneratedExecutionWithRuntimeHelpersResult::Property(h)) => Ok(
            BaselineGeneratedExecutionResult::Property(h),
        ),
        Ok(BaselineGeneratedExecutionWithRuntimeHelpersResult::RuntimeHelper(h)) => Err(
            BaselineGeneratedExecutionError::UnexpectedRuntimeHelper(h),
        ),
    }
}

/// Runs generated code with full validation, no runtime helpers and no metrics.
pub fn execute_baseline_generated_code(
    request: BaselineGeneratedExecutionRequest,
    execution: &mut InterpreterExecutionState,
) -> (r: Result<BaselineGeneratedExecutionResult, BaselineGeneratedExecutionError>)
    ensures
        ({
            let run = spec_run(
                request,
                *old(execution),
                0,
                Seq::empty(),
                None,
                false,
                BaselineGeneratedExecutionValidation::Full,
            );
            &&& r == spec_without_runtime_helpers(run.result)
            &&& spec_execution_view(*final(execution)) == run.view
        }),
        spec_state_kept(*old(execution), *final(execution)),
{
    let mut metrics = BaselineGeneratedExecutionMetrics::new();
    assert(metrics.loop_hint_observations@ =~= Seq::empty());
    let result = execute_baseline_generated_code_internal(
        request,
        execution,
        None,
        &mut NoGeneratedSidecars,
        &mut NoGeneratedSidecars,
        &mut metrics,
        false,
        BaselineGeneratedExecutionValidation::Full,
    );
    without_runtime_helpers(result)
}


/// Runs generated code with full validation and no runtime helpers, counting into
/// `metrics`.
pub fn execute_baseline_generated_code_with_metrics(
    request: BaselineGeneratedExecutionRequest,
    execution: &mut InterpreterExecutionState,
    metrics: &mut BaselineGeneratedExecutionMetrics,
) -> (r: Result<BaselineGeneratedExecutionResult, BaselineGeneratedExecutionError>)
    ensures
        ({
            let run = spec_run(
                request,
                *old(execution),
                old(metrics).executed_bytecode_count,
                old(metrics).loop_hint_observations@,
                None,
                true,
                BaselineGeneratedExecutionValidation::Full,
            );
            &&& r == spec_without_runtime_helpers(run.result)
            &&& spec_execution_view(*final(execution)) == run.view
            &&& final(metrics).executed_bytecode_count == run.executed
            &&& final(metrics).loop_hint_observations@ == run.hints
        }),
        spec_state_kept(*old(execution), *final(execution)),
{
    execute_baseline_generated_code_with_metrics_and_validation(
        request,
        execution,
        metrics,
        BaselineGeneratedExecutionValidation::Full,
    )
}

/// Runs generated code with the given validation and no runtime helpers, counting
/// into `metrics`.
pub fn execute_baseline_generated_code_with_metrics_and_validation(
    request: BaselineGeneratedExecutionRequest,
    execution: &mut InterpreterExecutionState,
    metrics: &mut BaselineGeneratedExecutionMetrics,
    validation: BaselineGeneratedExecutionValidation,
) -> (r: Result<BaselineGeneratedExecutionResult, BaselineGeneratedExecutionError>)
    ensures
        ({
            let run = spec_run(
                request,
                *old(execution),
                old(metrics).executed_bytecode_count,
                old(metrics).loop_hint_observations@,
                None,
                true,
                validation,
            );
            &&& r == spec_without_runtime_helpers(run.result)
            &&& spec_execution_view(*final(execution)) == run.view
            &&& final(metrics).executed_bytecode_count == run.executed
            &&& final(metrics).loop_hint_observations@ == run.hints
        }),
        spec_state_kept(*old(execution), *final(execution)),
{
    let result = execute_baseline_generated_code_internal(
        request,
        execution,
        None,
        &mut NoGeneratedSidecars,
        &mut NoGeneratedSidecars,
        metrics,
        true,
        validation,
    );
    without_runtime_helpers(result)
}

/// Runs generated code with full validation against a runtime-helper plan.
pub fn execute_baseline_generated_code_with_runtime_helpers(
    request: BaselineGeneratedExecutionRequest,
    execution: &mut InterpreterExecutionState,
    plan: &BaselineGeneratedRuntimeHelperPlan,
) -> (r: Result<BaselineGeneratedExecutionWithRuntimeHelpersResult, BaselineGeneratedExecutionError>)
    ensures
        ({
            let run = spec_run(
                request,
                *old(execution),
                0,
                Seq::empty(),
                Some(*plan),
                false,
                BaselineGeneratedExecutionValidation::Full,
            );
            &&& r == run.result
            &&& spec_execution_view(*final(execution)) == run.view
        }),
        spec_state_kept(*old(execution), *final(execution)),
{
    let mut metrics = BaselineGeneratedExecutionMetrics::new();
    assert(metrics.loop_hint_observations@ =~= Seq::empty());
    execute_baseline_generated_code_internal(
        request,
        execution,
        Some(plan),
        &mut NoGeneratedSidecars,
        &mut NoGeneratedSidecars,
        &mut metrics,
        false,
        BaselineGeneratedExecutionValidation::Full,
    )
}

/// Runs generated code with full validation against a runtime-helper plan, counting
/// into `metrics`.
pub fn execute_baseline_generated_code_with_runtime_helpers_and_metrics(
    request: BaselineGeneratedExecutionRequest,
    execution: &mut InterpreterExecutionState,
    plan: &BaselineGeneratedRuntimeHelperPlan,
    metrics: &mut BaselineGeneratedExecutionMetrics,
) -> (r: Result<BaselineGeneratedExecutionWithRuntimeHelpersResult, BaselineGeneratedExecutionError>)
    ensures
        ({
            let run = spec_run(
                request,
                *old(execution),
                old(metrics).executed_bytecode_count,
                old(metrics).loop_hint_observations@,
                Some(*plan),
                true,
                BaselineGeneratedExecutionValidation::Full,
            );
            &&& r == run.result
            &&& spec_execution_view(*final(execution)) == run.view
            &&& final(metrics).executed_bytecode_count == run.executed
            &&& final(metrics).loop_hint_observations@ == run.hints
        }),
        spec_state_kept(*old(execution), *final(execution)),
{
    execute_baseline_generated_code_with_runtime_helpers_and_metrics_and_validation(
        request,
        execution,
        plan,
        metrics,
        BaselineGeneratedExecutionValidation::Full,
    )
}

/// Runs generated code with the given validation against a runtime-helper plan,
/// counting into `metrics`.
pub fn execute_baseline_generated_code_with_runtime_helpers_and_metrics_and_validation(
    request: BaselineGeneratedExecutionRequest,
    execution: &mut InterpreterExecutionState,
    plan: &BaselineGeneratedRuntimeHelperPlan,
    metrics: &mut BaselineGeneratedExecutionMetrics,
    validation: BaselineGeneratedExecutionValidation,
) -> (r: Result<BaselineGeneratedExecutionWithRuntimeHelpersResult, BaselineGeneratedExecutionError>)
    ensures
        ({
            let run = spec_run(
                request,
                *old(execution),
                old(metrics).executed_bytecode_count,
                old(metrics).loop_hint_observations@,
                Some(*plan),
                true,
                validation,
            );
            &&& r == run.result
            &&& spec_execution_view(*final(execution)) == run.view
            &&& final(metrics).executed_bytecode_count == run.executed
            &&& final(metrics).loop_hint_observations@ == run.hints
        }),
        spec_state_kept(*old(execution), *final(execution)),
{
    execute_baseline_generated_code_internal(
        request,
        execution,
        Some(plan),
        &mut NoGeneratedSidecars,
        &mut NoGeneratedSidecars,
        metrics,
        true,
        validation,
    )
}

} // verus!
