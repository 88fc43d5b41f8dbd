//! The native entry shim: generated code entered directly through a callable
//! authority, running only the opcodes of its own subset and handing everything else
//! back to the interpreter as a fallback.
use vstd::prelude::*;
use crate::bytecode::{BytecodeIndex, CodeBlock, InstructionDecodeError, spec_bytecode_index_is_valid, spec_decoded_instruction_at};
use crate::executor::{spec_invalid_index, spec_mark_frames};
use crate::handoff::{BaselineGeneratedFallback, BaselineGeneratedFallbackCause, fallback_site, spec_fallback_site, spec_with_cause};
use crate::instruction::{
    BaselineInstructionContext, InstructionEnv, execute_native_entry_shim_instruction, spec_context_env,
    spec_execute_instruction,
};
use crate::operands::{BaselineGeneratedExecutionError, BaselineInstructionAbort, BaselineInstructionOutcome};
use crate::plan::{BaselineSupportedOpcodeSubset, spec_subset_supports};
use crate::runtime::{
    CallFrameId, CodeBlockId, ExecutionCompletion, ExecutionError, ExecutionView, InterpreterExecutionState,
    RegisterWindow, baseline_active_frame, spec_active_frame, spec_execution_view,
};
use crate::bytecode::Opcode;
use crate::value::RuntimeValue;

verus! {

/// What a native entry was published for: its owner and the subset its body runs.
#[derive(Clone, Copy, Debug, PartialEq, Eq, Structural)]
pub struct BaselineNativeEntryDescriptor {
    pub owner: CodeBlockId,
    pub opcode_subset: BaselineSupportedOpcodeSubset,
}

#[derive(Clone, Copy, Debug, PartialEq, Eq, Structural)]
pub enum BaselineNativeEntryCallableValidationError {
    Revoked,
    DescriptorMismatch,
    OwnerMismatch { expected: CodeBlockId, actual: CodeBlockId },
}

/// The right to enter a published native entry, as long as it is not revoked.
#[derive(Clone, Copy, Debug, PartialEq, Eq, Structural)]
pub struct BaselineNativeEntryCallableAuthority {
    pub descriptor: BaselineNativeEntryDescriptor,
    pub revoked: bool,
}

pub open spec fn spec_validate_callable(
    callable: BaselineNativeEntryCallableAuthority,
    descriptor: BaselineNativeEntryDescriptor,
) -> Result<(), BaselineNativeEntryCallableValidationError> {
    if callable.revoked {
        Err(BaselineNativeEntryCallableValidationError::Revoked)
    } else if callable.descriptor != descriptor {
        Err(BaselineNativeEntryCallableValidationError::DescriptorMismatch)
    } else {
        Ok(())
    }
}

impl BaselineNativeEntryCallableAuthority {
    pub fn descriptor(&self) -> (r: BaselineNativeEntryDescriptor)
        ensures
            r == self.descriptor,
    {
        self.descriptor
    }

    /// Checks that the authority is live and was issued for `descriptor`.
    pub fn validate_for_descriptor(&self, descriptor: &BaselineNativeEntryDescriptor) -> (r: Result<
        (),
        BaselineNativeEntryCallableValidationError,
    >)
        ensures
            r == spec_validate_callable(*self, *descriptor),
    {
        if self.revoked {
            return Err(BaselineNativeEntryCallableValidationError::Revoked);
        }
        if self.descriptor != *descriptor {
            return Err(BaselineNativeEntryCallableValidationError::DescriptorMismatch);
        }
        Ok(())
    }
}

/// What the shim is asked to run.
#[derive(Clone, Copy, Debug)]
pub struct BaselineNativeEntryShimExecutionRequest<'a> {
    pub callable: BaselineNativeEntryCallableAuthority,
    pub owner: CodeBlockId,
    pub code_block: &'a CodeBlock,
    pub expected_frame: CallFrameId,
}

#[derive(Clone, Copy, Debug, PartialEq, Eq, Structural)]
pub enum BaselineNativeEntryShimExecutionResult {
    Completed(ExecutionCompletion),
    Fallback(BaselineGeneratedFallback),
}

#[derive(Clone, Copy, Debug, PartialEq, Eq, Structural)]
pub enum BaselineNativeEntryShimExecutionError {
    CallableAuthority(BaselineNativeEntryCallableValidationError),
    InstructionDecode { bytecode_index: BytecodeIndex, error: InstructionDecodeError },
    Execution(ExecutionError),
    Generated(BaselineGeneratedExecutionError),
}

/// An interpreter error met while running the shim.
impl From<ExecutionError> for BaselineNativeEntryShimExecutionError {
    fn from(error: ExecutionError) -> (r: BaselineNativeEntryShimExecutionError) {
        BaselineNativeEntryShimExecutionError::Execution(error)
    }
}

impl vstd::std_specs::convert::FromSpecImpl<ExecutionError> for BaselineNativeEntryShimExecutionError {
    open spec fn obeys_from_spec() -> bool {
        true
    }

    open spec fn from_spec(error: ExecutionError) -> BaselineNativeEntryShimExecutionError {
        BaselineNativeEntryShimExecutionError::Execution(error)
    }
}

/// How a shim run ends, and the state it leaves.
#[verifier::ext_equal]
pub struct ShimRun {
    pub result: Result<BaselineNativeEntryShimExecutionResult, BaselineNativeEntryShimExecutionError>,
    pub view: ExecutionView,
}

pub enum ShimIteration {
    Finished(ShimRun),
    Next(ExecutionView, BytecodeIndex),
}

pub open spec fn spec_shim_finished(
    result: Result<BaselineNativeEntryShimExecutionResult, BaselineNativeEntryShimExecutionError>,
    view: ExecutionView,
) -> ShimIteration {
    ShimIteration::Finished(ShimRun { result, view })
}

pub open spec fn spec_shim_invalid_index(bytecode_index: BytecodeIndex) -> Result<
    BaselineNativeEntryShimExecutionResult,
    BaselineNativeEntryShimExecutionError,
> {
    Err(BaselineNativeEntryShimExecutionError::Execution(ExecutionError::InvalidBytecodeIndex(bytecode_index)))
}

/// The step the shim takes for an instruction: the body's own subset runs, anything
/// else falls back.
pub open spec fn spec_shim_step(
    env: InstructionEnv,
    window: RegisterWindow,
    view: ExecutionView,
    instruction: crate::bytecode::TypedInstruction,
) -> crate::operands::StepResult {
    let unsupported = (
        Ok(BaselineInstructionOutcome::Fallback(spec_with_cause(
            spec_fallback_site(env.owner, env.frame, instruction),
            BaselineGeneratedFallbackCause::UnsupportedOpcode,
        ))),
        view.slots,
    );
    match instruction.opcode {
        Opcode::Core(opcode) => if spec_subset_supports(env.subset, opcode) {
            spec_execute_instruction(env, window, view, instruction)
        } else {
            unsupported
        },
        Opcode::Generated(_) => unsupported,
    }
}

/// One iteration of the shim at `pc`.
#[verifier::opaque]
pub open spec fn spec_shim_iteration(
    env: InstructionEnv,
    window: RegisterWindow,
    view: ExecutionView,
    pc: BytecodeIndex,
) -> ShimIteration {
    let code_block = env.code_block;
    let count = code_block.instructions@.len();
    if pc.offset >= count {
        spec_shim_finished(spec_shim_invalid_index(pc), view)
    } else {
        match spec_decoded_instruction_at(code_block, pc) {
            Err(error) => spec_shim_finished(
                Err(BaselineNativeEntryShimExecutionError::InstructionDecode { bytecode_index: pc, error }),
                view,
            ),
            Ok(instruction) => {
                let bytecode_index = instruction.bytecode_index;
                if !spec_bytecode_index_is_valid(bytecode_index) {
                    spec_shim_finished(spec_shim_invalid_index(bytecode_index), view)
                } else {
                    let marked = ExecutionView { frames: spec_mark_frames(view.frames, bytecode_index), ..view };
                    let step = spec_shim_step(env, window, marked, instruction);
                    let after = ExecutionView { slots: step.1, ..marked };
                    let outcome = match step.0 {
                        Ok(outcome) => Ok(outcome),
                        Err(BaselineInstructionAbort::Fallback(fallback)) => Ok(
                            BaselineInstructionOutcome::Fallback(fallback),
                        ),
                        Err(BaselineInstructionAbort::Error(error)) => Err(error),
                    };
                    match outcome {
                        Err(error) => spec_shim_finished(
                            Err(BaselineNativeEntryShimExecutionError::Generated(error)),
                            after,
                        ),
                        Ok(BaselineInstructionOutcome::Continue) => if pc.offset + 1 >= count {
                            spec_shim_finished(
                                Ok(BaselineNativeEntryShimExecutionResult::Completed(
                                    ExecutionCompletion::Returned(RuntimeValue::Undefined),
                                )),
                                after,
                            )
                        } else {
                            ShimIteration::Next(after, BytecodeIndex { offset: (pc.offset + 1) as u32 })
                        },
                        Ok(BaselineInstructionOutcome::ContinueTo(target)) => if target.offset >= count {
                            spec_shim_finished(spec_shim_invalid_index(target), after)
                        } else {
                            ShimIteration::Next(after, target)
                        },
                        Ok(BaselineInstructionOutcome::Jump(target)) => if target.offset >= count {
                            spec_shim_finished(spec_shim_invalid_index(target), after)
                        } else {
                            ShimIteration::Next(after, target)
                        },
                        Ok(BaselineInstructionOutcome::Return(value)) => spec_shim_finished(
                            Ok(BaselineNativeEntryShimExecutionResult::Completed(ExecutionCompletion::Returned(value))),
                            after,
                        ),
                        Ok(BaselineInstructionOutcome::Fallback(fallback)) => spec_shim_finished(
                            Ok(BaselineNativeEntryShimExecutionResult::Fallback(fallback)),
                            after,
                        ),
                        Ok(BaselineInstructionOutcome::JsCall(_)) | Ok(BaselineInstructionOutcome::Property(_)) => spec_shim_finished(
                            Ok(BaselineNativeEntryShimExecutionResult::Fallback(spec_with_cause(
                                spec_fallback_site(env.owner, env.frame, instruction),
                                BaselineGeneratedFallbackCause::UnsupportedOpcode,
                            ))),
                            after,
                        ),
                    }
                }
            },
        }
    }
}

/// A shim run of at most `fuel` iterations.
#[verifier::opaque]
pub open spec fn spec_shim_loop(
    env: InstructionEnv,
    window: RegisterWindow,
    view: ExecutionView,
    pc: BytecodeIndex,
    fuel: nat,
) -> ShimRun
    decreases fuel,
{
    if fuel == 0 {
        ShimRun {
            result: Err(BaselineNativeEntryShimExecutionError::Execution(ExecutionError::ExecutionBudgetExhausted)),
            view,
        }
    } else {
        match spec_shim_iteration(env, window, view, pc) {
            ShimIteration::Finished(run) => run,
            ShimIteration::Next(next_view, next_pc) => spec_shim_loop(env, window, next_view, next_pc, (fuel - 1) as nat),
        }
    }
}

proof fn lemma_shim_loop_step(env: InstructionEnv, window: RegisterWindow, view: ExecutionView, pc: BytecodeIndex, fuel: nat)
    requires
        fuel > 0,
    ensures
        match spec_shim_iteration(env, window, view, pc) {
            ShimIteration::Finished(run) => spec_shim_loop(env, window, view, pc, fuel) == run,
            ShimIteration::Next(next_view, next_pc) => spec_shim_loop(env, window, view, pc, fuel)
                == spec_shim_loop(env, window, next_view, next_pc, (fuel - 1) as nat),
        },
{
    reveal(spec_shim_loop);
}

pub enum ShimControl {
    Finished(Result<BaselineNativeEntryShimExecutionResult, BaselineNativeEntryShimExecutionError>),
    Next(BytecodeIndex),
}

fn shim_iteration(
    context: BaselineInstructionContext,
    window: RegisterWindow,
    execution: &mut InterpreterExecutionState,
    pc: BytecodeIndex,
) -> (r: ShimControl)
    ensures
        final(execution).heap == old(execution).heap,
        final(execution).stack.next_frame_id == old(execution).stack.next_frame_id,
        final(execution).stack.global_this_value == old(execution).stack.global_this_value,
        match spec_shim_iteration(spec_context_env(context), window, spec_execution_view(*old(execution)), pc) {
            ShimIteration::Finished(run) => r == ShimControl::Finished(run.result)
                && spec_execution_view(*final(execution)) == run.view,
            ShimIteration::Next(next_view, next_pc) => r == ShimControl::Next(next_pc)
                && spec_execution_view(*final(execution)) == next_view,
        },
{
    proof {
        reveal(spec_shim_iteration);
    }
    let code_block = context.code_block;
    let count = code_block.instructions.len();
    let ordinal = pc.offset as usize;
    if ordinal >= count {
        return ShimControl::Finished(Err(BaselineNativeEntryShimExecutionError::Execution(ExecutionError::InvalidBytecodeIndex(pc))));
    }
    let instruction = match code_block.decoded_instruction_at(pc) {
        Err(error) => {
            return ShimControl::Finished(Err(BaselineNativeEntryShimExecutionError::InstructionDecode { bytecode_index: pc, error }));
        },
        Ok(instruction) => instruction,
    };
    let bytecode_index = instruction.bytecode_index;
    if !bytecode_index.is_valid() {
        return ShimControl::Finished(
            Err(BaselineNativeEntryShimExecutionError::Execution(ExecutionError::InvalidBytecodeIndex(bytecode_index))),
        );
    }
    execution.stack.mark_top_bytecode_index(bytecode_index);
    let outcome = match execute_native_entry_shim_instruction(context, window, execution, instruction) {
        Ok(outcome) => outcome,
        Err(BaselineInstructionAbort::Fallback(fallback)) => BaselineInstructionOutcome::Fallback(fallback),
        Err(BaselineInstructionAbort::Error(error)) => {
            return ShimControl::Finished(Err(BaselineNativeEntryShimExecutionError::Generated(error)));
        },
    };
    match outcome {
        BaselineInstructionOutcome::Continue => {
            let next = ordinal + 1;
            if next >= count {
                ShimControl::Finished(
                    Ok(BaselineNativeEntryShimExecutionResult::Completed(ExecutionCompletion::Returned(RuntimeValue::Undefined))),
                )
            } else {
                ShimControl::Next(BytecodeIndex::from_offset(#[verifier::truncate] (next as u32)))
            }
        },
        BaselineInstructionOutcome::ContinueTo(target) | BaselineInstructionOutcome::Jump(target) => {
            if target.offset as usize >= count {
                return ShimControl::Finished(
                    Err(BaselineNativeEntryShimExecutionError::Execution(ExecutionError::InvalidBytecodeIndex(target))),
                );
            }
            ShimControl::Next(target)
        },
        BaselineInstructionOutcome::Return(value) => ShimControl::Finished(
            Ok(BaselineNativeEntryShimExecutionResult::Completed(ExecutionCompletion::Returned(value))),
        ),
        BaselineInstructionOutcome::Fallback(fallback) => ShimControl::Finished(
            Ok(BaselineNativeEntryShimExecutionResult::Fallback(fallback)),
        ),
        BaselineInstructionOutcome::JsCall(_) | BaselineInstructionOutcome::Property(_) => {
            let fallback = fallback_site(context.owner, context.frame, instruction).with_cause(
                BaselineGeneratedFallbackCause::UnsupportedOpcode,
            );
            ShimControl::Finished(Ok(BaselineNativeEntryShimExecutionResult::Fallback(fallback)))
        },
    }
}

/// The checks before the shim's first instruction; `Ok(None)` for an empty code block.
pub open spec fn spec_shim_preflight(
    request: BaselineNativeEntryShimExecutionRequest,
    execution: InterpreterExecutionState,
) -> Result<Option<(RegisterWindow, BytecodeIndex)>, BaselineNativeEntryShimExecutionError> {
    let descriptor = request.callable.descriptor;
    match spec_validate_callable(request.callable, descriptor) {
        Err(error) => Err(BaselineNativeEntryShimExecutionError::CallableAuthority(error)),
        Ok(()) => if descriptor.owner != request.owner {
            Err(
                BaselineNativeEntryShimExecutionError::CallableAuthority(
                    BaselineNativeEntryCallableValidationError::OwnerMismatch {
                        expected: request.owner,
                        actual: descriptor.owner,
                    },
                ),
            )
        } else {
            match spec_active_frame(execution.stack, request.expected_frame, request.owner) {
                Err(error) => Err(BaselineNativeEntryShimExecutionError::Execution(error)),
                Ok((frame, window)) => if request.code_block.instructions@.len() == 0 {
                    Ok(None)
                } else {
                    Ok(
                        Some(
                            (
                                window,
                                match frame.bytecode_index {
                                    Some(index) => index,
                                    None => BytecodeIndex { offset: 0 },
                                },
                            ),
                        ),
                    )
                },
            }
        },
    }
}

pub open spec fn spec_shim_env(request: BaselineNativeEntryShimExecutionRequest) -> InstructionEnv {
    InstructionEnv {
        subset: request.callable.descriptor.opcode_subset,
        owner: request.owner,
        frame: request.expected_frame,
        code_block: *request.code_block,
        property_plan: None,
        continuation_map: None,
    }
}

/// A whole shim run.
#[verifier::opaque]
pub open spec fn spec_shim_run(
    request: BaselineNativeEntryShimExecutionRequest,
    execution: InterpreterExecutionState,
) -> ShimRun {
    let view = spec_execution_view(execution);
    match spec_shim_preflight(request, execution) {
        Err(error) => ShimRun { result: Err(error), view },
        Ok(None) => ShimRun {
            result: Ok(BaselineNativeEntryShimExecutionResult::Completed(
                ExecutionCompletion::Returned(RuntimeValue::Undefined),
            )),
            view,
        },
        Ok(Some((window, pc))) => spec_shim_loop(spec_shim_env(request), window, view, pc, u64::MAX as nat),
    }
}

fn shim_preflight(
    request: BaselineNativeEntryShimExecutionRequest,
    execution: &InterpreterExecutionState,
) -> (r: Result<Option<(RegisterWindow, BytecodeIndex)>, BaselineNativeEntryShimExecutionError>)
    ensures
        r == spec_shim_preflight(request, *execution),
{
    let callable = request.callable;
    let descriptor = callable.descriptor();
    if let Err(error) = callable.validate_for_descriptor(&descriptor) {
        return Err(BaselineNativeEntryShimExecutionError::CallableAuthority(error));
    }
    if descriptor.owner != request.owner {
        return Err(
            BaselineNativeEntryShimExecutionError::CallableAuthority(
                BaselineNativeEntryCallableValidationError::OwnerMismatch {
                    expected: request.owner,
                    actual: descriptor.owner,
                },
            ),
        );
    }
    let (frame, window) = match baseline_active_frame(&execution.stack, request.expected_frame, request.owner) {
        Err(error) => {
            return Err(BaselineNativeEntryShimExecutionError::Execution(error));
        },
        Ok(active) => active,
    };
    if request.code_block.instructions.len() == 0 {
        return Ok(None);
    }
    let pc = match frame.bytecode_index {
        Some(index) => index,
        None => BytecodeIndex::from_offset(0),
    };
    Ok(Some((window, pc)))
}

/// Enters generated code through a native entry; the result and the state left are
/// those of `spec_shim_run`, and the heap is left as it was.
pub fn execute_baseline_p6_native_entry_shim(
    request: BaselineNativeEntryShimExecutionRequest,
    execution: &mut InterpreterExecutionState,
) -> (r: Result<BaselineNativeEntryShimExecutionResult, BaselineNativeEntryShimExecutionError>)
    ensures
        r == spec_shim_run(request, *old(execution)).result,
        spec_execution_view(*final(execution)) == spec_shim_run(request, *old(execution)).view,
        final(execution).heap == old(execution).heap,
        final(execution).stack.next_frame_id == old(execution).stack.next_frame_id,
        final(execution).stack.global_this_value == old(execution).stack.global_this_value,
        !(spec_shim_preflight(request, *old(execution)) matches Ok(Some(_))) ==> *final(execution) == *old(execution),
{
    let (window, start_pc) = match shim_preflight(request, execution) {
        Err(error) => {
            proof {
                reveal(spec_shim_run);
            }
            return Err(error);
        },
        Ok(None) => {
            proof {
                reveal(spec_shim_run);
            }
            return Ok(BaselineNativeEntryShimExecutionResult::Completed(ExecutionCompletion::Returned(RuntimeValue::Undefined)));
        },
        Ok(Some(start)) => start,
    };
    let context = BaselineInstructionContext::new(
        request.callable.descriptor.opcode_subset,
        request.owner,
        request.expected_frame,
        request.code_block,
        None,
    );
    let ghost env = spec_shim_env(request);
    assert(spec_context_env(context) == env);
    let ghost whole = spec_shim_run(request, *old(execution));
    assert(whole == spec_shim_loop(env, window, spec_execution_view(*old(execution)), start_pc, u64::MAX as nat)) by {
        reveal(spec_shim_run);
    }
    let mut pc = start_pc;
    let mut budget: u64 = u64::MAX;
    loop
        invariant
            whole == spec_shim_run(request, *old(execution)),
            whole == spec_shim_loop(env, window, spec_execution_view(*execution), pc, budget as nat),
            spec_context_env(context) == env,
            execution.heap == old(execution).heap,
            execution.stack.next_frame_id == old(execution).stack.next_frame_id,
            execution.stack.global_this_value == old(execution).stack.global_this_value,
            spec_shim_preflight(request, *old(execution)) matches Ok(Some(_)),
        decreases budget,
    {
        if budget == 0 {
            proof {
                reveal(spec_shim_loop);
            }
            return Err(BaselineNativeEntryShimExecutionError::Execution(ExecutionError::ExecutionBudgetExhausted));
        }
        let ghost current = spec_execution_view(*execution);
        let ghost current_pc = pc;
        proof {
            lemma_shim_loop_step(env, window, current, current_pc, budget as nat);
        }
        match shim_iteration(context, window, execution, pc) {
            ShimControl::Finished(result) => {
                proof {
                    match spec_shim_iteration(env, window, current, current_pc) {
                        ShimIteration::Finished(run) => {
                            assert(whole == run);
                        },
                        ShimIteration::Next(_, _) => {
                            assert(false);
                        },
                    }
                }
                return result;
            },
            ShimControl::Next(next) => {
                pc = next;
            },
        }
        budget = budget - 1;
    }
}

} // verus!
