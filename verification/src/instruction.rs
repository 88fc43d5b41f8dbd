//! One step of generated code: the instruction at the current bytecode index is run
//! itself when the body's opcode subset covers it, handed off when it is a call or a
//! property access, and given back to the interpreter otherwise.
use vstd::prelude::*;
use crate::bytecode::{
    CodeBlock, CoreOpcode, Opcode, TypedInstruction, spec_signed_immediate_operand,
    spec_unsigned_immediate_operand,
};
use crate::handoff::{
    BaselineGeneratedFallbackCause, BaselineGeneratedFallbackSite, BaselineGeneratedJsCallHandoff,
    BaselineGeneratedPropertyHandoffError, baseline_generated_js_call_handoff,
    baseline_generated_property_handoff, fallback_opcode, fallback_site, spec_continuation_argument_count,
    spec_continuation_destination, spec_continuation_resume_bytecode_index, spec_fallback_opcode,
    spec_fallback_site, spec_js_call_handoff, spec_property_handoff, spec_with_cause,
};
use crate::operands::{
    BaselineGeneratedExecutionError, BaselineInstructionAbort, BaselineInstructionOutcome, StepResult,
    bytecode_index_operand_or_fallback, read_register_or_outcome, read_return_register_or_fallback,
    register_operand_or_fallback, spec_bytecode_index_operand_or_fallback, spec_read_register_or_outcome,
    spec_read_return_register_or_fallback, spec_register_operand_or_fallback, spec_write_step,
    write_register_or_outcome,
};
use crate::ops::{
    execute_int32_arithmetic, execute_int32_bit_not, execute_int32_bitwise, execute_int32_relational,
    execute_jump_if_false, execute_jump_if_not_nullish, execute_local_loose_equality, execute_logical_not,
    execute_negate_number, execute_number_arithmetic, execute_pure_number_arithmetic,
    execute_pure_number_bitwise, execute_pure_number_relational, execute_strict_equality, execute_to_number,
    execute_void, spec_fallback_step, spec_int32_arithmetic_step, spec_int32_bit_not_step,
    spec_int32_bitwise_step, spec_int32_relational_step, spec_jump_if_false_step,
    spec_jump_if_not_nullish_step, spec_logical_not_step, spec_loose_equality_step,
    spec_negate_number_step, spec_number_division_step, spec_pure_number_arithmetic_step,
    spec_pure_number_bitwise_step, spec_pure_number_relational_step, spec_strict_equality_step,
    spec_to_number_step, spec_void_step,
};
use crate::plan::{BaselineSupportedOpcodeSubset, spec_subset_supports};
use crate::runtime::{
    CallFrameId, CodeBlockId, ExecutionView, InterpreterExecutionState, RegisterWindow, spec_execution_view,
    spec_last_frame,
};
use crate::semantics::{baseline_subset_uses_pure_number_binary, spec_subset_uses_pure_number_binary};
use crate::sites::{
    BaselineGeneratedOwnerContinuationMapMetadata, BaselineGeneratedOwnerContinuationSite,
    BaselineGeneratedPropertyHandoffPlanMetadata, BaselineGeneratedPropertyHandoffSite,
    derive_baseline_generated_property_handoff_plan_from_code_block, spec_derive_property_handoff_plan,
    spec_first_call_site, spec_first_site, spec_is_js_call_opcode, spec_is_property_opcode,
    spec_site_lookup, spec_validate_property_site_against_code_block,
    validate_baseline_generated_property_handoff_site_against_current_code_block,
};
use crate::value::RuntimeValue;

verus! {

/// What every instruction step of one run shares.
#[derive(Clone, Copy, Debug)]
pub struct BaselineInstructionContext<'a> {
    pub opcode_subset: BaselineSupportedOpcodeSubset,
    pub owner: CodeBlockId,
    pub frame: CallFrameId,
    pub code_block: &'a CodeBlock,
    pub property_handoff_plan: Option<&'a BaselineGeneratedPropertyHandoffPlanMetadata>,
    pub owner_continuation_map: Option<&'a BaselineGeneratedOwnerContinuationMapMetadata>,
}

impl<'a> BaselineInstructionContext<'a> {
    pub fn new(
        opcode_subset: BaselineSupportedOpcodeSubset,
        owner: CodeBlockId,
        frame: CallFrameId,
        code_block: &'a CodeBlock,
        property_handoff_plan: Option<&'a BaselineGeneratedPropertyHandoffPlanMetadata>,
    ) -> (r: BaselineInstructionContext<'a>)
        ensures
            r.opcode_subset == opcode_subset,
            r.owner == owner,
            r.frame == frame,
            *r.code_block == *code_block,
            r.property_handoff_plan == property_handoff_plan,
            r.owner_continuation_map is None,
    {
        BaselineInstructionContext {
            opcode_subset,
            owner,
            frame,
            code_block,
            property_handoff_plan,
            owner_continuation_map: None,
        }
    }

    pub fn with_owner_continuation_map(
        self,
        owner_continuation_map: Option<&'a BaselineGeneratedOwnerContinuationMapMetadata>,
    ) -> (r: BaselineInstructionContext<'a>)
        ensures
            r.opcode_subset == self.opcode_subset,
            r.owner == self.owner,
            r.frame == self.frame,
            *r.code_block == *self.code_block,
            r.property_handoff_plan == self.property_handoff_plan,
            r.owner_continuation_map == owner_continuation_map,
    {
        BaselineInstructionContext { owner_continuation_map, ..self }
    }
}

/// The site of a property instruction: from the plan when there is one (and it must
/// still match the code block), otherwise derived from the code block.
pub open spec fn spec_property_handoff_site_for_instruction(
    owner: CodeBlockId,
    code_block: CodeBlock,
    instruction: TypedInstruction,
    plan: Option<BaselineGeneratedPropertyHandoffPlanMetadata>,
) -> Result<BaselineGeneratedPropertyHandoffSite, BaselineGeneratedPropertyHandoffError> {
    let bytecode_index = instruction.bytecode_index;
    match plan {
        Some(plan) => match spec_site_lookup(plan.sites@, bytecode_index) {
            Err(()) => Err(BaselineGeneratedPropertyHandoffError::SiteMetadataAmbiguous { bytecode_index }),
            Ok(None) => Err(BaselineGeneratedPropertyHandoffError::MissingSiteMetadata { bytecode_index }),
            Ok(Some(site)) => match spec_validate_property_site_against_code_block(code_block, owner, site) {
                Err(error) => Err(BaselineGeneratedPropertyHandoffError::SiteMetadata(error)),
                Ok(()) => Ok(site),
            },
        },
        None => match spec_derive_property_handoff_plan(code_block, owner) {
            Err(error) => Err(BaselineGeneratedPropertyHandoffError::SiteMetadata(error)),
            Ok(None) => Err(BaselineGeneratedPropertyHandoffError::MissingSiteMetadata { bytecode_index }),
            Ok(Some((_, sites))) => match spec_first_site(sites, bytecode_index) {
                None => Err(BaselineGeneratedPropertyHandoffError::MissingSiteMetadata { bytecode_index }),
                Some(site) => Ok(site),
            },
        },
    }
}

pub fn property_handoff_site_for_instruction(
    owner: CodeBlockId,
    code_block: &CodeBlock,
    instruction: &TypedInstruction,
    plan: Option<&BaselineGeneratedPropertyHandoffPlanMetadata>,
) -> (r: Result<BaselineGeneratedPropertyHandoffSite, BaselineGeneratedPropertyHandoffError>)
    ensures
        r == spec_property_handoff_site_for_instruction(
            owner,
            *code_block,
            *instruction,
            match plan {
                Some(p) => Some(*p),
                None => None,
            },
        ),
{
    let bytecode_index = instruction.bytecode_index;
    match plan {
        Some(plan) => {
            let site = match plan.site_for_bytecode_index(bytecode_index) {
                Err(()) => {
                    return Err(BaselineGeneratedPropertyHandoffError::SiteMetadataAmbiguous { bytecode_index });
                },
                Ok(None) => {
                    return Err(BaselineGeneratedPropertyHandoffError::MissingSiteMetadata { bytecode_index });
                },
                Ok(Some(site)) => *site,
            };
            match validate_baseline_generated_property_handoff_site_against_current_code_block(
                code_block,
                owner,
                &site,
            ) {
                Err(error) => Err(BaselineGeneratedPropertyHandoffError::SiteMetadata(error)),
                Ok(()) => Ok(site),
            }
        },
        None => match derive_baseline_generated_property_handoff_plan_from_code_block(code_block, owner) {
            Err(error) => Err(BaselineGeneratedPropertyHandoffError::SiteMetadata(error)),
            Ok(None) => Err(BaselineGeneratedPropertyHandoffError::MissingSiteMetadata { bytecode_index }),
            Ok(Some(metadata)) => match metadata.first_site_for_bytecode_index(bytecode_index) {
                None => Err(BaselineGeneratedPropertyHandoffError::MissingSiteMetadata { bytecode_index }),
                Some(site) => Ok(*site),
            },
        },
    }
}

/// The owner's continuation site for a call handoff, when it describes that very call.
pub open spec fn spec_owner_continuation_site_for_handoff(
    map: Option<BaselineGeneratedOwnerContinuationMapMetadata>,
    handoff: BaselineGeneratedJsCallHandoff,
) -> Option<BaselineGeneratedOwnerContinuationSite> {
    match map {
        None => None,
        Some(map) => match spec_first_call_site(map.sites@, handoff.resume.bytecode_index) {
            None => None,
            Some(site) => if site.owner == handoff.resume.owner && site.call_bytecode_index
                == handoff.resume.bytecode_index && site.opcode == handoff.resume.opcode
                && site.destination == spec_continuation_destination(handoff.continuation)
                && site.argument_count_including_this == spec_continuation_argument_count(
                handoff.continuation,
            ) && site.resume_bytecode_index == spec_continuation_resume_bytecode_index(
                handoff.continuation,
            ) {
                Some(site)
            } else {
                None
            },
        },
    }
}

pub fn owner_continuation_site_for_handoff(
    map: Option<&BaselineGeneratedOwnerContinuationMapMetadata>,
    handoff: &BaselineGeneratedJsCallHandoff,
) -> (r: Option<BaselineGeneratedOwnerContinuationSite>)
    ensures
        r == spec_owner_continuation_site_for_handoff(
            match map {
                Some(m) => Some(*m),
                None => None,
            },
            *handoff,
        ),
{
    let map = match map {
        None => {
            return None;
        },
        Some(map) => map,
    };
    let site = match map.call_site_for_bytecode_index(handoff.resume.bytecode_index) {
        None => {
            return None;
        },
        Some(site) => *site,
    };
    if site.owner == handoff.resume.owner && site.call_bytecode_index == handoff.resume.bytecode_index
        && site.opcode == handoff.resume.opcode && site.destination == handoff.continuation.destination()
        && site.argument_count_including_this == handoff.continuation.argument_count_including_this()
        && site.resume_bytecode_index == handoff.continuation.resume_bytecode_index() {
        Some(site)
    } else {
        None
    }
}

/// The values an instruction step depends on besides the interpreter state.
pub struct InstructionEnv {
    pub subset: BaselineSupportedOpcodeSubset,
    pub owner: CodeBlockId,
    pub frame: CallFrameId,
    pub code_block: CodeBlock,
    pub property_plan: Option<BaselineGeneratedPropertyHandoffPlanMetadata>,
    pub continuation_map: Option<BaselineGeneratedOwnerContinuationMapMetadata>,
}

pub open spec fn spec_context_env(context: BaselineInstructionContext) -> InstructionEnv {
    InstructionEnv {
        subset: context.opcode_subset,
        owner: context.owner,
        frame: context.frame,
        code_block: *context.code_block,
        property_plan: spec_context_plan(context),
        continuation_map: spec_context_map(context),
    }
}

pub open spec fn spec_context_plan(context: BaselineInstructionContext) -> Option<
    BaselineGeneratedPropertyHandoffPlanMetadata,
> {
    match context.property_handoff_plan {
        Some(p) => Some(*p),
        None => None,
    }
}

pub open spec fn spec_context_map(context: BaselineInstructionContext) -> Option<
    BaselineGeneratedOwnerContinuationMapMetadata,
> {
    match context.owner_continuation_map {
        Some(m) => Some(*m),
        None => None,
    }
}

/// What an instruction outside the body's subset becomes: a call handoff, a property
/// handoff, or a fallback.
pub open spec fn spec_unsupported_instruction(
    env: InstructionEnv,
    window: RegisterWindow,
    execution: ExecutionView,
    instruction: TypedInstruction,
    opcode: CoreOpcode,
    site: BaselineGeneratedFallbackSite,
) -> Result<BaselineInstructionOutcome, BaselineInstructionAbort> {
    if spec_is_js_call_opcode(opcode) {
        match spec_js_call_handoff(env.owner, env.frame, window, env.code_block, execution, instruction) {
            Err(error) => Err(
                BaselineInstructionAbort::Error(
                    BaselineGeneratedExecutionError::JsCallHandoff {
                        bytecode_index: instruction.bytecode_index,
                        opcode: spec_fallback_opcode(instruction.opcode),
                        error,
                    },
                ),
            ),
            Ok(handoff) => Ok(
                BaselineInstructionOutcome::JsCall(
                    BaselineGeneratedJsCallHandoff {
                        owner_continuation: spec_owner_continuation_site_for_handoff(
                            env.continuation_map,
                            handoff,
                        ),
                        ..handoff
                    },
                ),
            ),
        }
    } else if spec_is_property_opcode(opcode) {
        match spec_property_handoff_site_for_instruction(
            env.owner,
            env.code_block,
            instruction,
            env.property_plan,
        ) {
            Err(error) => Err(
                BaselineInstructionAbort::Error(
                    BaselineGeneratedExecutionError::PropertyHandoff {
                        bytecode_index: instruction.bytecode_index,
                        opcode: spec_fallback_opcode(instruction.opcode),
                        error,
                    },
                ),
            ),
            Ok(property_site) => match spec_property_handoff(env.owner, env.frame, instruction, property_site) {
                Err(error) => Err(
                    BaselineInstructionAbort::Error(
                        BaselineGeneratedExecutionError::PropertyHandoff {
                            bytecode_index: instruction.bytecode_index,
                            opcode: spec_fallback_opcode(instruction.opcode),
                            error,
                        },
                    ),
                ),
                Ok(handoff) => Ok(BaselineInstructionOutcome::Property(handoff)),
            },
        }
    } else {
        Ok(
            BaselineInstructionOutcome::Fallback(
                spec_with_cause(site, BaselineGeneratedFallbackCause::UnsupportedOpcode),
            ),
        )
    }
}

/// Loading a constant into the destination register.
pub open spec fn spec_load_constant_step(
    slots: Seq<RuntimeValue>,
    window: RegisterWindow,
    instruction: TypedInstruction,
    site: BaselineGeneratedFallbackSite,
    value: RuntimeValue,
) -> StepResult {
    match spec_register_operand_or_fallback(instruction, 0, site) {
        Err(abort) => (Err(abort), slots),
        Ok(destination) => spec_write_step(slots, window, destination, value, site),
    }
}

/// The double whose bits are `high:low`.
pub open spec fn spec_double_bits_from_halves(low: u32, high: u32) -> u64 {
    (low as u64) | ((high as u64) << 32u64)
}

pub open spec fn spec_load_immediate_step(
    opcode: CoreOpcode,
    slots: Seq<RuntimeValue>,
    window: RegisterWindow,
    instruction: TypedInstruction,
    site: BaselineGeneratedFallbackSite,
) -> StepResult {
    match spec_register_operand_or_fallback(instruction, 0, site) {
        Err(abort) => (Err(abort), slots),
        Ok(destination) => if opcode == CoreOpcode::LoadInt32 {
            match spec_signed_immediate_operand(instruction, 1) {
                Err(error) => spec_fallback_step(
                    slots,
                    site,
                    BaselineGeneratedFallbackCause::BadImmediate { operand_index: 1, error },
                ),
                Ok(value) => spec_write_step(slots, window, destination, RuntimeValue::Int32(value), site),
            }
        } else {
            match spec_unsigned_immediate_operand(instruction, 1) {
                Err(error) => spec_fallback_step(
                    slots,
                    site,
                    BaselineGeneratedFallbackCause::BadImmediate { operand_index: 1, error },
                ),
                Ok(low) => if opcode == CoreOpcode::LoadBool {
                    spec_write_step(slots, window, destination, RuntimeValue::Boolean(low != 0), site)
                } else {
                    match spec_unsigned_immediate_operand(instruction, 2) {
                        Err(error) => spec_fallback_step(
                            slots,
                            site,
                            BaselineGeneratedFallbackCause::BadImmediate { operand_index: 2, error },
                        ),
                        Ok(high) => spec_write_step(
                            slots,
                            window,
                            destination,
                            RuntimeValue::Double(spec_double_bits_from_halves(low, high)),
                            site,
                        ),
                    }
                },
            }
        },
    }
}

fn execute_load_immediate(
    opcode: CoreOpcode,
    window: RegisterWindow,
    execution: &mut InterpreterExecutionState,
    instruction: &TypedInstruction,
    site: BaselineGeneratedFallbackSite,
) -> (r: Result<BaselineInstructionOutcome, BaselineInstructionAbort>)
    ensures
        (r, final(execution).registers.slots@) == spec_load_immediate_step(
            opcode, old(execution).registers.slots@, window, *instruction, site),
        final(execution).stack == old(execution).stack,
        final(execution).heap == old(execution).heap,
{
    let destination = register_operand_or_fallback(instruction, 0, site)?;
    if opcode == CoreOpcode::LoadInt32 {
        return match instruction.signed_immediate_operand(1) {
            Err(error) => Ok(BaselineInstructionOutcome::Fallback(
                site.with_cause(BaselineGeneratedFallbackCause::BadImmediate { operand_index: 1, error }),
            )),
            Ok(value) => write_register_or_outcome(execution, window, destination, RuntimeValue::Int32(value), site),
        };
    }
    let low = match instruction.unsigned_immediate_operand(1) {
        Err(error) => {
            return Ok(BaselineInstructionOutcome::Fallback(
                site.with_cause(BaselineGeneratedFallbackCause::BadImmediate { operand_index: 1, error }),
            ));
        },
        Ok(value) => value,
    };
    if opcode == CoreOpcode::LoadBool {
        return write_register_or_outcome(execution, window, destination, RuntimeValue::Boolean(low != 0), site);
    }
    let high = match instruction.unsigned_immediate_operand(2) {
        Err(error) => {
            return Ok(BaselineInstructionOutcome::Fallback(
                site.with_cause(BaselineGeneratedFallbackCause::BadImmediate { operand_index: 2, error }),
            ));
        },
        Ok(value) => value,
    };
    let bits: u64 = (low as u64) | ((high as u64) << 32u64);
    write_register_or_outcome(execution, window, destination, RuntimeValue::Double(bits), site)
}

pub open spec fn spec_move_step(
    slots: Seq<RuntimeValue>,
    code_block: CodeBlock,
    window: RegisterWindow,
    instruction: TypedInstruction,
    site: BaselineGeneratedFallbackSite,
) -> StepResult {
    match spec_register_operand_or_fallback(instruction, 0, site) {
        Err(abort) => (Err(abort), slots),
        Ok(destination) => match spec_register_operand_or_fallback(instruction, 1, site) {
            Err(abort) => (Err(abort), slots),
            Ok(source) => match spec_read_register_or_outcome(slots, code_block, window, source, site) {
                Err(abort) => (Err(abort), slots),
                Ok(value) => spec_write_step(slots, window, destination, value, site),
            },
        },
    }
}

/// `load callee`: the callee value of the active frame; without one, it falls back.
pub open spec fn spec_load_callee_step(
    execution: ExecutionView,
    window: RegisterWindow,
    instruction: TypedInstruction,
    site: BaselineGeneratedFallbackSite,
) -> StepResult {
    let slots = execution.slots;
    match spec_register_operand_or_fallback(instruction, 0, site) {
        Err(abort) => (Err(abort), slots),
        Ok(destination) => match spec_last_frame(execution.frames) {
            Some(frame) => match frame.callee_value {
                Some(callee) => spec_write_step(slots, window, destination, callee, site),
                None => spec_fallback_step(slots, site, BaselineGeneratedFallbackCause::UnsupportedOpcode),
            },
            None => spec_fallback_step(slots, site, BaselineGeneratedFallbackCause::UnsupportedOpcode),
        },
    }
}

pub open spec fn spec_return_step(
    slots: Seq<RuntimeValue>,
    code_block: CodeBlock,
    window: RegisterWindow,
    instruction: TypedInstruction,
    site: BaselineGeneratedFallbackSite,
) -> StepResult {
    match spec_register_operand_or_fallback(instruction, 0, site) {
        Err(abort) => (Err(abort), slots),
        Ok(source) => match spec_read_return_register_or_fallback(slots, code_block, window, source, site) {
            Err(abort) => (Err(abort), slots),
            Ok(value) => (Ok(BaselineInstructionOutcome::Return(value)), slots),
        },
    }
}

pub open spec fn spec_jump_step(
    slots: Seq<RuntimeValue>,
    instruction: TypedInstruction,
    site: BaselineGeneratedFallbackSite,
) -> StepResult {
    match spec_bytecode_index_operand_or_fallback(instruction, 0, site) {
        Err(abort) => (Err(abort), slots),
        Ok(target) => (Ok(BaselineInstructionOutcome::Jump(target)), slots),
    }
}

/// An instruction of the body's subset, run by generated code itself.
pub open spec fn spec_supported_step(
    subset: BaselineSupportedOpcodeSubset,
    code_block: CodeBlock,
    window: RegisterWindow,
    execution: ExecutionView,
    instruction: TypedInstruction,
    opcode: CoreOpcode,
    site: BaselineGeneratedFallbackSite,
) -> StepResult {
    let slots = execution.slots;
    let pure = spec_subset_uses_pure_number_binary(subset);
    match opcode {
        CoreOpcode::LoadUndefined => spec_load_constant_step(slots, window, instruction, site, RuntimeValue::Undefined),
        CoreOpcode::LoadNull => spec_load_constant_step(slots, window, instruction, site, RuntimeValue::Null),
        CoreOpcode::LoadBool | CoreOpcode::LoadInt32 | CoreOpcode::LoadDouble => spec_load_immediate_step(
            opcode,
            slots,
            window,
            instruction,
            site,
        ),
        CoreOpcode::Move => spec_move_step(slots, code_block, window, instruction, site),
        CoreOpcode::LoadCallee => spec_load_callee_step(execution, window, instruction, site),
        CoreOpcode::ToNumber => spec_to_number_step(slots, code_block, window, instruction, site),
        CoreOpcode::Void => spec_void_step(slots, code_block, window, instruction, site),
        CoreOpcode::Return => spec_return_step(slots, code_block, window, instruction, site),
        CoreOpcode::AddInt32 | CoreOpcode::SubInt32 | CoreOpcode::MulInt32 => if pure {
            spec_pure_number_arithmetic_step(opcode, slots, code_block, window, instruction, site)
        } else {
            spec_int32_arithmetic_step(opcode, slots, code_block, window, instruction, site)
        },
        CoreOpcode::NegateNumber => spec_negate_number_step(slots, code_block, window, instruction, site),
        CoreOpcode::DivNumber | CoreOpcode::ModNumber => spec_number_division_step(
            opcode,
            slots,
            code_block,
            window,
            instruction,
            site,
        ),
        CoreOpcode::BitNotInt32 => spec_int32_bit_not_step(slots, code_block, window, instruction, site),
        CoreOpcode::BitOrInt32 | CoreOpcode::BitXorInt32 | CoreOpcode::BitAndInt32
        | CoreOpcode::LeftShiftInt32 | CoreOpcode::RightShiftInt32
        | CoreOpcode::UnsignedRightShiftInt32 => if pure {
            spec_pure_number_bitwise_step(opcode, slots, code_block, window, instruction, site)
        } else {
            spec_int32_bitwise_step(opcode, slots, code_block, window, instruction, site)
        },
        CoreOpcode::LessThanInt32 | CoreOpcode::LessEqualInt32 | CoreOpcode::GreaterThanInt32
        | CoreOpcode::GreaterEqualInt32 => if pure {
            spec_pure_number_relational_step(opcode, slots, code_block, window, instruction, site)
        } else {
            spec_int32_relational_step(opcode, slots, code_block, window, instruction, site)
        },
        CoreOpcode::Jump => spec_jump_step(slots, instruction, site),
        CoreOpcode::JumpIfFalse => spec_jump_if_false_step(slots, code_block, window, instruction, site),
        CoreOpcode::JumpIfNotNullish => spec_jump_if_not_nullish_step(slots, code_block, window, instruction, site),
        CoreOpcode::LoopHint => (Ok(BaselineInstructionOutcome::Continue), slots),
        CoreOpcode::LogicalNot => spec_logical_not_step(slots, code_block, window, instruction, site),
        CoreOpcode::StrictEqual | CoreOpcode::StrictNotEqual => spec_strict_equality_step(
            opcode,
            slots,
            code_block,
            window,
            instruction,
            site,
        ),
        CoreOpcode::Equal | CoreOpcode::NotEqual => spec_loose_equality_step(
            opcode,
            slots,
            code_block,
            window,
            instruction,
            site,
        ),
        _ => spec_fallback_step(slots, site, BaselineGeneratedFallbackCause::UnsupportedOpcode),
    }
}

/// One instruction step: its outcome and the register slots after it.
pub open spec fn spec_execute_instruction(
    env: InstructionEnv,
    window: RegisterWindow,
    execution: ExecutionView,
    instruction: TypedInstruction,
) -> StepResult {
    let site = spec_fallback_site(env.owner, env.frame, instruction);
    let slots = execution.slots;
    match instruction.opcode {
        Opcode::Generated(_) => spec_fallback_step(slots, site, BaselineGeneratedFallbackCause::UnsupportedOpcode),
        Opcode::Core(opcode) => if !spec_subset_supports(env.subset, opcode) {
            (spec_unsupported_instruction(env, window, execution, instruction, opcode, site), slots)
        } else {
            spec_supported_step(
                env.subset,
                env.code_block,
                window,
                execution,
                instruction,
                opcode,
                site,
            )
        },
    }
}


fn execute_unsupported_instruction(
    context: BaselineInstructionContext,
    window: RegisterWindow,
    execution: &InterpreterExecutionState,
    instruction: &TypedInstruction,
    opcode: CoreOpcode,
    site: BaselineGeneratedFallbackSite,
) -> (r: Result<BaselineInstructionOutcome, BaselineInstructionAbort>)
    ensures
        r == spec_unsupported_instruction(spec_context_env(context), window, spec_execution_view(*execution), *instruction, opcode, site),
{
    if opcode == CoreOpcode::Call || opcode == CoreOpcode::CallWithThis || opcode == CoreOpcode::Construct {
        return match baseline_generated_js_call_handoff(
            context.owner,
            context.frame,
            window,
            context.code_block,
            execution,
            instruction,
        ) {
            Err(error) => Err(
                BaselineInstructionAbort::Error(
                    BaselineGeneratedExecutionError::JsCallHandoff {
                        bytecode_index: instruction.bytecode_index,
                        opcode: fallback_opcode(instruction.opcode),
                        error,
                    },
                ),
            ),
            Ok(handoff) => {
                let owner_continuation = owner_continuation_site_for_handoff(
                    context.owner_continuation_map,
                    &handoff,
                );
                Ok(BaselineInstructionOutcome::JsCall(BaselineGeneratedJsCallHandoff { owner_continuation, ..handoff }))
            },
        };
    }
    match opcode {
        CoreOpcode::GetByName | CoreOpcode::GetGlobalObjectProperty | CoreOpcode::GetLength
        | CoreOpcode::PutByName | CoreOpcode::PutGlobalObjectProperty | CoreOpcode::GetByValue
        | CoreOpcode::PutByValue | CoreOpcode::InById | CoreOpcode::InByVal => {
            let property_site = match property_handoff_site_for_instruction(
                context.owner,
                context.code_block,
                instruction,
                context.property_handoff_plan,
            ) {
                Err(error) => {
                    return Err(
                        BaselineInstructionAbort::Error(
                            BaselineGeneratedExecutionError::PropertyHandoff {
                                bytecode_index: instruction.bytecode_index,
                                opcode: fallback_opcode(instruction.opcode),
                                error,
                            },
                        ),
                    );
                },
                Ok(property_site) => property_site,
            };
            match baseline_generated_property_handoff(context.owner, context.frame, instruction, &property_site) {
                Err(error) => Err(
                    BaselineInstructionAbort::Error(
                        BaselineGeneratedExecutionError::PropertyHandoff {
                            bytecode_index: instruction.bytecode_index,
                            opcode: fallback_opcode(instruction.opcode),
                            error,
                        },
                    ),
                ),
                Ok(handoff) => Ok(BaselineInstructionOutcome::Property(handoff)),
            }
        },
        _ => Ok(BaselineInstructionOutcome::Fallback(site.with_cause(BaselineGeneratedFallbackCause::UnsupportedOpcode))),
    }
}

fn execute_load_callee(
    window: RegisterWindow,
    execution: &mut InterpreterExecutionState,
    instruction: &TypedInstruction,
    site: BaselineGeneratedFallbackSite,
) -> (r: Result<BaselineInstructionOutcome, BaselineInstructionAbort>)
    ensures
        (r, final(execution).registers.slots@) == spec_load_callee_step(spec_execution_view(*old(execution)), window, *instruction, site),
        final(execution).stack == old(execution).stack,
        final(execution).heap == old(execution).heap,
{
    let destination = register_operand_or_fallback(instruction, 0, site)?;
    let callee = match execution.stack.top_frame() {
        Some(frame) => frame.callee_value,
        None => None,
    };
    match callee {
        Some(callee) => write_register_or_outcome(execution, window, destination, callee, site),
        None => Ok(BaselineInstructionOutcome::Fallback(site.with_cause(BaselineGeneratedFallbackCause::UnsupportedOpcode))),
    }
}

pub(crate) fn execute_supported_instruction(
    subset: BaselineSupportedOpcodeSubset,
    code_block: &CodeBlock,
    window: RegisterWindow,
    execution: &mut InterpreterExecutionState,
    instruction: &TypedInstruction,
    opcode: CoreOpcode,
    site: BaselineGeneratedFallbackSite,
) -> (r: Result<BaselineInstructionOutcome, BaselineInstructionAbort>)
    ensures
        (r, final(execution).registers.slots@) == spec_supported_step(
            subset, *code_block, window, spec_execution_view(*old(execution)), *instruction, opcode, site),
        final(execution).stack == old(execution).stack,
        final(execution).heap == old(execution).heap,
{
    let pure = baseline_subset_uses_pure_number_binary(subset);
    match opcode {
        CoreOpcode::LoadUndefined => {
            let destination = register_operand_or_fallback(instruction, 0, site)?;
            write_register_or_outcome(execution, window, destination, RuntimeValue::Undefined, site)
        },
        CoreOpcode::LoadNull => {
            let destination = register_operand_or_fallback(instruction, 0, site)?;
            write_register_or_outcome(execution, window, destination, RuntimeValue::Null, site)
        },
        CoreOpcode::LoadBool | CoreOpcode::LoadInt32 | CoreOpcode::LoadDouble => execute_load_immediate(
            opcode,
            window,
            execution,
            instruction,
            site,
        ),
        CoreOpcode::Move => {
            let destination = register_operand_or_fallback(instruction, 0, site)?;
            let source = register_operand_or_fallback(instruction, 1, site)?;
            let value = read_register_or_outcome(execution, code_block, window, source, site)?;
            write_register_or_outcome(execution, window, destination, value, site)
        },
        CoreOpcode::LoadCallee => execute_load_callee(window, execution, instruction, site),
        CoreOpcode::ToNumber => execute_to_number(code_block, window, execution, instruction, site),
        CoreOpcode::Void => execute_void(code_block, window, execution, instruction, site),
        CoreOpcode::Return => {
            let source = register_operand_or_fallback(instruction, 0, site)?;
            let value = read_return_register_or_fallback(execution, code_block, window, source, site)?;
            Ok(BaselineInstructionOutcome::Return(value))
        },
        CoreOpcode::AddInt32 | CoreOpcode::SubInt32 | CoreOpcode::MulInt32 => if pure {
            execute_pure_number_arithmetic(opcode, code_block, window, execution, instruction, site)
        } else {
            execute_int32_arithmetic(opcode, code_block, window, execution, instruction, site)
        },
        CoreOpcode::NegateNumber => execute_negate_number(code_block, window, execution, instruction, site),
        CoreOpcode::DivNumber | CoreOpcode::ModNumber => execute_number_arithmetic(
            opcode,
            code_block,
            window,
            execution,
            instruction,
            site,
        ),
        CoreOpcode::BitNotInt32 => execute_int32_bit_not(code_block, window, execution, instruction, site),
        CoreOpcode::BitOrInt32 | CoreOpcode::BitXorInt32 | CoreOpcode::BitAndInt32
        | CoreOpcode::LeftShiftInt32 | CoreOpcode::RightShiftInt32
        | CoreOpcode::UnsignedRightShiftInt32 => if pure {
            execute_pure_number_bitwise(opcode, code_block, window, execution, instruction, site)
        } else {
            execute_int32_bitwise(opcode, code_block, window, execution, instruction, site)
        },
        CoreOpcode::LessThanInt32 | CoreOpcode::LessEqualInt32 | CoreOpcode::GreaterThanInt32
        | CoreOpcode::GreaterEqualInt32 => if pure {
            execute_pure_number_relational(opcode, code_block, window, execution, instruction, site)
        } else {
            execute_int32_relational(opcode, code_block, window, execution, instruction, site)
        },
        CoreOpcode::Jump => {
            let target = bytecode_index_operand_or_fallback(instruction, 0, site)?;
            Ok(BaselineInstructionOutcome::Jump(target))
        },
        CoreOpcode::JumpIfFalse => execute_jump_if_false(code_block, window, execution, instruction, site),
        CoreOpcode::JumpIfNotNullish => execute_jump_if_not_nullish(code_block, window, execution, instruction, site),
        CoreOpcode::LoopHint => Ok(BaselineInstructionOutcome::Continue),
        CoreOpcode::LogicalNot => execute_logical_not(code_block, window, execution, instruction, site),
        CoreOpcode::StrictEqual | CoreOpcode::StrictNotEqual => execute_strict_equality(
            opcode,
            code_block,
            window,
            execution,
            instruction,
            site,
        ),
        CoreOpcode::Equal | CoreOpcode::NotEqual => execute_local_loose_equality(
            opcode,
            code_block,
            window,
            execution,
            instruction,
            site,
        ),
        _ => Ok(BaselineInstructionOutcome::Fallback(site.with_cause(BaselineGeneratedFallbackCause::UnsupportedOpcode))),
    }
}

/// Runs one instruction of generated code against the interpreter state. Only the
/// register slots can change; the frame stack and the heap are left as they were.
pub fn execute_instruction(
    context: BaselineInstructionContext,
    window: RegisterWindow,
    execution: &mut InterpreterExecutionState,
    instruction: &TypedInstruction,
) -> (r: Result<BaselineInstructionOutcome, BaselineInstructionAbort>)
    ensures
        (r, final(execution).registers.slots@) == spec_execute_instruction(spec_context_env(context), window, spec_execution_view(*old(execution)), *instruction),
        final(execution).stack == old(execution).stack,
        final(execution).heap == old(execution).heap,
{
    let site = fallback_site(context.owner, context.frame, instruction);
    let opcode = match CoreOpcode::from_opcode(instruction.opcode) {
        None => {
            return Ok(BaselineInstructionOutcome::Fallback(site.with_cause(BaselineGeneratedFallbackCause::UnsupportedOpcode)));
        },
        Some(opcode) => opcode,
    };
    if !context.opcode_subset.supports(opcode) {
        return execute_unsupported_instruction(context, window, execution, instruction, opcode, site);
    }
    execute_supported_instruction(context.opcode_subset, context.code_block, window, execution, instruction, opcode, site)
}

/// The native entry shim runs only the body's own subset: anything else falls back.
pub fn execute_native_entry_shim_instruction(
    context: BaselineInstructionContext,
    window: RegisterWindow,
    execution: &mut InterpreterExecutionState,
    instruction: &TypedInstruction,
) -> (r: Result<BaselineInstructionOutcome, BaselineInstructionAbort>)
    ensures
        match instruction.opcode {
            Opcode::Core(opcode) => if spec_subset_supports(context.opcode_subset, opcode) {
                (r, final(execution).registers.slots@) == spec_execute_instruction(
                    spec_context_env(context), window, spec_execution_view(*old(execution)), *instruction)
            } else {
                r == Ok::<BaselineInstructionOutcome, BaselineInstructionAbort>(
                    BaselineInstructionOutcome::Fallback(spec_with_cause(
                        spec_fallback_site(context.owner, context.frame, *instruction),
                        BaselineGeneratedFallbackCause::UnsupportedOpcode,
                    )),
                ) && *final(execution) == *old(execution)
            },
            Opcode::Generated(_) => r == Ok::<BaselineInstructionOutcome, BaselineInstructionAbort>(
                BaselineInstructionOutcome::Fallback(spec_with_cause(
                    spec_fallback_site(context.owner, context.frame, *instruction),
                    BaselineGeneratedFallbackCause::UnsupportedOpcode,
                )),
            ) && *final(execution) == *old(execution),
        },
        final(execution).stack == old(execution).stack,
        final(execution).heap == old(execution).heap,
{
    let site = fallback_site(context.owner, context.frame, instruction);
    let opcode = match CoreOpcode::from_opcode(instruction.opcode) {
        None => {
            return Ok(BaselineInstructionOutcome::Fallback(site.with_cause(BaselineGeneratedFallbackCause::UnsupportedOpcode)));
        },
        Some(opcode) => opcode,
    };
    if !context.opcode_subset.supports(opcode) {
        return Ok(BaselineInstructionOutcome::Fallback(site.with_cause(BaselineGeneratedFallbackCause::UnsupportedOpcode)));
    }
    execute_instruction(context, window, execution, instruction)
}

} // verus!
