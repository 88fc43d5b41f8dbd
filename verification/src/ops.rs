//! One executor per family of register opcodes. Each reads its operands, computes its
//! result with the value semantics, and writes the destination; every step is stated
//! as a function from the register slots before it to its outcome and the slots after.
use vstd::prelude::*;
use crate::bytecode::{CodeBlock, CoreOpcode, TypedInstruction};
use crate::handoff::{BaselineGeneratedFallbackCause, BaselineGeneratedFallbackSite, spec_with_cause};
use crate::operands::{
    BaselineInstructionAbort, BaselineInstructionOutcome, StepResult, bytecode_index_operand_or_fallback,
    int32_operand_or_fallback, number_operand_or_fallback, primitive_numeric_operand_or_fallback,
    read_register_or_outcome, register_operand_or_fallback, spec_bytecode_index_operand_or_fallback,
    spec_int32_operand_or_fallback, spec_number_operand_or_fallback,
    spec_primitive_numeric_operand_or_fallback, spec_read_register_or_outcome,
    spec_register_operand_or_fallback, spec_write_step, write_register_or_outcome,
};
use crate::runtime::{InterpreterExecutionState, RegisterWindow};
use crate::semantics::{
    checked_int32_arithmetic, double_division_result, double_relational_result, int32_bitwise_result,
    int32_relational_result, local_no_call_loose_equals, local_primitive_strict_equals,
    local_primitive_truthiness, negate_number, number_to_int32, pure_number_arithmetic_result,
    spec_checked_int32_arithmetic, spec_double_division_result, spec_double_relational_result,
    spec_int32_bitwise_result, spec_int32_relational_result, spec_is_nullish,
    spec_local_no_call_loose_equals, spec_local_primitive_strict_equals,
    spec_local_primitive_truthiness, spec_negate_number, spec_number_to_int32,
    spec_pure_number_arithmetic_result, spec_unsupported_strict_equality_value,
    unsupported_strict_equality_value,
};
use crate::value::{
    NumberValue, RuntimeValue, ValueKind, number_to_double_bits, spec_as_number,
    spec_number_to_double_bits, spec_value_kind,
};

verus! {

pub open spec fn spec_fallback_step(
    slots: Seq<RuntimeValue>,
    site: BaselineGeneratedFallbackSite,
    cause: BaselineGeneratedFallbackCause,
) -> StepResult {
    (Ok(BaselineInstructionOutcome::Fallback(spec_with_cause(site, cause))), slots)
}

/// `to number`: the source converted by the primitive ToNumber rules.
pub open spec fn spec_to_number_step(
    slots: Seq<RuntimeValue>,
    code_block: CodeBlock,
    window: RegisterWindow,
    instruction: TypedInstruction,
    site: BaselineGeneratedFallbackSite,
) -> StepResult {
    match spec_register_operand_or_fallback(instruction, 0, site) {
        Err(abort) => (Err(abort), slots),
        Ok(destination) => match spec_primitive_numeric_operand_or_fallback(slots, code_block, window, instruction, 1, site) {
            Err(abort) => (Err(abort), slots),
            Ok(operand) => spec_write_step(slots, window, destination, operand.value, site),
        },
    }
}

pub fn execute_to_number(
    code_block: &CodeBlock,
    window: RegisterWindow,
    execution: &mut InterpreterExecutionState,
    instruction: &TypedInstruction,
    site: BaselineGeneratedFallbackSite,
) -> (r: Result<BaselineInstructionOutcome, BaselineInstructionAbort>)
    ensures
        (r, final(execution).registers.slots@) == spec_to_number_step(
            old(execution).registers.slots@, *code_block, window, *instruction, site),
        final(execution).stack == old(execution).stack,
        final(execution).heap == old(execution).heap,
{
    let destination = register_operand_or_fallback(instruction, 0, site)?;
    let operand = primitive_numeric_operand_or_fallback(execution, code_block, window, instruction, 1, site)?;
    write_register_or_outcome(execution, window, destination, operand.value, site)
}

/// `void`: the source is read (and must be readable), and undefined is written.
pub open spec fn spec_void_step(
    slots: Seq<RuntimeValue>,
    code_block: CodeBlock,
    window: RegisterWindow,
    instruction: TypedInstruction,
    site: BaselineGeneratedFallbackSite,
) -> StepResult {
    match spec_register_operand_or_fallback(instruction, 0, site) {
        Err(abort) => (Err(abort), slots),
        Ok(destination) => match spec_register_operand_or_fallback(instruction, 1, site) {
            Err(abort) => (Err(abort), slots),
            Ok(source) => match spec_read_register_or_outcome(slots, code_block, window, source, site) {
                Err(abort) => (Err(abort), slots),
                Ok(_) => spec_write_step(slots, window, destination, RuntimeValue::Undefined, site),
            },
        },
    }
}

pub fn execute_void(
    code_block: &CodeBlock,
    window: RegisterWindow,
    execution: &mut InterpreterExecutionState,
    instruction: &TypedInstruction,
    site: BaselineGeneratedFallbackSite,
) -> (r: Result<BaselineInstructionOutcome, BaselineInstructionAbort>)
    ensures
        (r, final(execution).registers.slots@) == spec_void_step(
            old(execution).registers.slots@, *code_block, window, *instruction, site),
        final(execution).stack == old(execution).stack,
        final(execution).heap == old(execution).heap,
{
    let destination = register_operand_or_fallback(instruction, 0, site)?;
    let source = register_operand_or_fallback(instruction, 1, site)?;
    let _ = read_register_or_outcome(execution, code_block, window, source, site)?;
    write_register_or_outcome(execution, window, destination, RuntimeValue::Undefined, site)
}

/// Int32 add, subtract and multiply: both operands must be int32s, and a result that
/// does not fit falls back.
pub open spec fn spec_int32_arithmetic_step(
    opcode: CoreOpcode,
    slots: Seq<RuntimeValue>,
    code_block: CodeBlock,
    window: RegisterWindow,
    instruction: TypedInstruction,
    site: BaselineGeneratedFallbackSite,
) -> StepResult {
    match spec_register_operand_or_fallback(instruction, 0, site) {
        Err(abort) => (Err(abort), slots),
        Ok(destination) => match spec_int32_operand_or_fallback(slots, code_block, window, instruction, 1, site) {
            Err(abort) => (Err(abort), slots),
            Ok(left) => match spec_int32_operand_or_fallback(slots, code_block, window, instruction, 2, site) {
                Err(abort) => (Err(abort), slots),
                Ok(right) => match spec_checked_int32_arithmetic(opcode, left, right) {
                    None => spec_fallback_step(slots, site, BaselineGeneratedFallbackCause::Int32Overflow),
                    Some(result) => spec_write_step(slots, window, destination, RuntimeValue::Int32(result), site),
                },
            },
        },
    }
}

pub fn execute_int32_arithmetic(
    opcode: CoreOpcode,
    code_block: &CodeBlock,
    window: RegisterWindow,
    execution: &mut InterpreterExecutionState,
    instruction: &TypedInstruction,
    site: BaselineGeneratedFallbackSite,
) -> (r: Result<BaselineInstructionOutcome, BaselineInstructionAbort>)
    ensures
        (r, final(execution).registers.slots@) == spec_int32_arithmetic_step(
            opcode, old(execution).registers.slots@, *code_block, window, *instruction, site),
        final(execution).stack == old(execution).stack,
        final(execution).heap == old(execution).heap,
{
    let destination = register_operand_or_fallback(instruction, 0, site)?;
    let left = int32_operand_or_fallback(execution, code_block, window, instruction, 1, site)?;
    let right = int32_operand_or_fallback(execution, code_block, window, instruction, 2, site)?;
    match checked_int32_arithmetic(opcode, left, right) {
        None => Ok(BaselineInstructionOutcome::Fallback(site.with_cause(BaselineGeneratedFallbackCause::Int32Overflow))),
        Some(result) => write_register_or_outcome(execution, window, destination, RuntimeValue::Int32(result), site),
    }
}

/// Add, subtract and multiply on any two numbers.
pub open spec fn spec_pure_number_arithmetic_step(
    opcode: CoreOpcode,
    slots: Seq<RuntimeValue>,
    code_block: CodeBlock,
    window: RegisterWindow,
    instruction: TypedInstruction,
    site: BaselineGeneratedFallbackSite,
) -> StepResult {
    match spec_register_operand_or_fallback(instruction, 0, site) {
        Err(abort) => (Err(abort), slots),
        Ok(destination) => match spec_number_operand_or_fallback(slots, code_block, window, instruction, 1, site) {
            Err(abort) => (Err(abort), slots),
            Ok(left) => match spec_number_operand_or_fallback(slots, code_block, window, instruction, 2, site) {
                Err(abort) => (Err(abort), slots),
                Ok(right) => match spec_pure_number_arithmetic_result(opcode, left, right) {
                    None => (
                        Err(BaselineInstructionAbort::Fallback(
                            spec_with_cause(site, BaselineGeneratedFallbackCause::UnsupportedOpcode),
                        )),
                        slots,
                    ),
                    Some(result) => spec_write_step(slots, window, destination, result, site),
                },
            },
        },
    }
}

pub fn execute_pure_number_arithmetic(
    opcode: CoreOpcode,
    code_block: &CodeBlock,
    window: RegisterWindow,
    execution: &mut InterpreterExecutionState,
    instruction: &TypedInstruction,
    site: BaselineGeneratedFallbackSite,
) -> (r: Result<BaselineInstructionOutcome, BaselineInstructionAbort>)
    ensures
        (r, final(execution).registers.slots@) == spec_pure_number_arithmetic_step(
            opcode, old(execution).registers.slots@, *code_block, window, *instruction, site),
        final(execution).stack == old(execution).stack,
        final(execution).heap == old(execution).heap,
{
    let destination = register_operand_or_fallback(instruction, 0, site)?;
    let left = number_operand_or_fallback(execution, code_block, window, instruction, 1, site)?;
    let right = number_operand_or_fallback(execution, code_block, window, instruction, 2, site)?;
    match pure_number_arithmetic_result(opcode, left, right) {
        None => Err(BaselineInstructionAbort::Fallback(site.with_cause(BaselineGeneratedFallbackCause::UnsupportedOpcode))),
        Some(result) => write_register_or_outcome(execution, window, destination, result, site),
    }
}

pub open spec fn spec_coercion_fallback(site: BaselineGeneratedFallbackSite, operand: crate::operands::PrimitiveNumericOperand) -> BaselineGeneratedFallbackCause {
    BaselineGeneratedFallbackCause::UnsupportedPrimitiveNumericCoercionOperand {
        operand_index: 1,
        register: operand.register,
        value_kind: spec_value_kind(operand.value),
    }
}

/// Numeric negation of the source after primitive ToNumber.
pub open spec fn spec_negate_number_step(
    slots: Seq<RuntimeValue>,
    code_block: CodeBlock,
    window: RegisterWindow,
    instruction: TypedInstruction,
    site: BaselineGeneratedFallbackSite,
) -> StepResult {
    match spec_register_operand_or_fallback(instruction, 0, site) {
        Err(abort) => (Err(abort), slots),
        Ok(destination) => match spec_primitive_numeric_operand_or_fallback(slots, code_block, window, instruction, 1, site) {
            Err(abort) => (Err(abort), slots),
            Ok(operand) => match spec_as_number(operand.value) {
                None => spec_fallback_step(slots, site, spec_coercion_fallback(site, operand)),
                Some(number) => spec_write_step(slots, window, destination, spec_negate_number(number), site),
            },
        },
    }
}

pub fn execute_negate_number(
    code_block: &CodeBlock,
    window: RegisterWindow,
    execution: &mut InterpreterExecutionState,
    instruction: &TypedInstruction,
    site: BaselineGeneratedFallbackSite,
) -> (r: Result<BaselineInstructionOutcome, BaselineInstructionAbort>)
    ensures
        (r, final(execution).registers.slots@) == spec_negate_number_step(
            old(execution).registers.slots@, *code_block, window, *instruction, site),
        final(execution).stack == old(execution).stack,
        final(execution).heap == old(execution).heap,
{
    let destination = register_operand_or_fallback(instruction, 0, site)?;
    let operand = primitive_numeric_operand_or_fallback(execution, code_block, window, instruction, 1, site)?;
    match operand.value.as_number() {
        None => Ok(BaselineInstructionOutcome::Fallback(site.with_cause(
            BaselineGeneratedFallbackCause::UnsupportedPrimitiveNumericCoercionOperand {
                operand_index: 1,
                register: operand.register,
                value_kind: operand.value.kind(),
            },
        ))),
        Some(number) => write_register_or_outcome(execution, window, destination, negate_number(number), site),
    }
}

/// Divide and remainder on numbers: an int32 remainder that fits stays an int32, every
/// other case is computed on doubles.
pub open spec fn spec_number_division_step(
    opcode: CoreOpcode,
    slots: Seq<RuntimeValue>,
    code_block: CodeBlock,
    window: RegisterWindow,
    instruction: TypedInstruction,
    site: BaselineGeneratedFallbackSite,
) -> StepResult {
    match spec_register_operand_or_fallback(instruction, 0, site) {
        Err(abort) => (Err(abort), slots),
        Ok(destination) => match spec_number_operand_or_fallback(slots, code_block, window, instruction, 1, site) {
            Err(abort) => (Err(abort), slots),
            Ok(left) => match spec_number_operand_or_fallback(slots, code_block, window, instruction, 2, site) {
                Err(abort) => (Err(abort), slots),
                Ok(right) => {
                    let int_remainder = match (left, right) {
                        (NumberValue::Int32(l), NumberValue::Int32(r)) => if opcode == CoreOpcode::ModNumber {
                            l.checked_rem(r)
                        } else {
                            None
                        },
                        _ => None,
                    };
                    match int_remainder {
                        Some(result) => spec_write_step(slots, window, destination, RuntimeValue::Int32(result), site),
                        None => match spec_double_division_result(
                            opcode,
                            spec_number_to_double_bits(left),
                            spec_number_to_double_bits(right),
                        ) {
                            None => spec_fallback_step(slots, site, BaselineGeneratedFallbackCause::UnsupportedOpcode),
                            Some(bits) => spec_write_step(slots, window, destination, RuntimeValue::Double(bits), site),
                        },
                    }
                },
            },
        },
    }
}

pub fn execute_number_arithmetic(
    opcode: CoreOpcode,
    code_block: &CodeBlock,
    window: RegisterWindow,
    execution: &mut InterpreterExecutionState,
    instruction: &TypedInstruction,
    site: BaselineGeneratedFallbackSite,
) -> (r: Result<BaselineInstructionOutcome, BaselineInstructionAbort>)
    ensures
        (r, final(execution).registers.slots@) == spec_number_division_step(
            opcode, old(execution).registers.slots@, *code_block, window, *instruction, site),
        final(execution).stack == old(execution).stack,
        final(execution).heap == old(execution).heap,
{
    let destination = register_operand_or_fallback(instruction, 0, site)?;
    let left = number_operand_or_fallback(execution, code_block, window, instruction, 1, site)?;
    let right = number_operand_or_fallback(execution, code_block, window, instruction, 2, site)?;
    if let (NumberValue::Int32(l), NumberValue::Int32(r)) = (left, right) {
        if opcode == CoreOpcode::ModNumber {
            if let Some(result) = l.checked_rem(r) {
                return write_register_or_outcome(execution, window, destination, RuntimeValue::Int32(result), site);
            }
        }
    }
    match double_division_result(opcode, number_to_double_bits(left), number_to_double_bits(right)) {
        None => Ok(BaselineInstructionOutcome::Fallback(site.with_cause(BaselineGeneratedFallbackCause::UnsupportedOpcode))),
        Some(bits) => write_register_or_outcome(execution, window, destination, RuntimeValue::Double(bits), site),
    }
}

/// Bitwise not of the source's ToInt32 after primitive ToNumber.
pub open spec fn spec_int32_bit_not_step(
    slots: Seq<RuntimeValue>,
    code_block: CodeBlock,
    window: RegisterWindow,
    instruction: TypedInstruction,
    site: BaselineGeneratedFallbackSite,
) -> StepResult {
    match spec_register_operand_or_fallback(instruction, 0, site) {
        Err(abort) => (Err(abort), slots),
        Ok(destination) => match spec_primitive_numeric_operand_or_fallback(slots, code_block, window, instruction, 1, site) {
            Err(abort) => (Err(abort), slots),
            Ok(operand) => match spec_as_number(operand.value) {
                None => spec_fallback_step(slots, site, spec_coercion_fallback(site, operand)),
                Some(number) => spec_write_step(
                    slots,
                    window,
                    destination,
                    RuntimeValue::Int32(!spec_number_to_int32(number)),
                    site,
                ),
            },
        },
    }
}

pub fn execute_int32_bit_not(
    code_block: &CodeBlock,
    window: RegisterWindow,
    execution: &mut InterpreterExecutionState,
    instruction: &TypedInstruction,
    site: BaselineGeneratedFallbackSite,
) -> (r: Result<BaselineInstructionOutcome, BaselineInstructionAbort>)
    ensures
        (r, final(execution).registers.slots@) == spec_int32_bit_not_step(
            old(execution).registers.slots@, *code_block, window, *instruction, site),
        final(execution).stack == old(execution).stack,
        final(execution).heap == old(execution).heap,
{
    let destination = register_operand_or_fallback(instruction, 0, site)?;
    let operand = primitive_numeric_operand_or_fallback(execution, code_block, window, instruction, 1, site)?;
    match operand.value.as_number() {
        None => Ok(BaselineInstructionOutcome::Fallback(site.with_cause(
            BaselineGeneratedFallbackCause::UnsupportedPrimitiveNumericCoercionOperand {
                operand_index: 1,
                register: operand.register,
                value_kind: operand.value.kind(),
            },
        ))),
        Some(number) => write_register_or_outcome(
            execution,
            window,
            destination,
            RuntimeValue::Int32(!number_to_int32(number)),
            site,
        ),
    }
}

/// Bitwise and shift opcodes on two int32 operands.
pub open spec fn spec_int32_bitwise_step(
    opcode: CoreOpcode,
    slots: Seq<RuntimeValue>,
    code_block: CodeBlock,
    window: RegisterWindow,
    instruction: TypedInstruction,
    site: BaselineGeneratedFallbackSite,
) -> StepResult {
    match spec_register_operand_or_fallback(instruction, 0, site) {
        Err(abort) => (Err(abort), slots),
        Ok(destination) => match spec_int32_operand_or_fallback(slots, code_block, window, instruction, 1, site) {
            Err(abort) => (Err(abort), slots),
            Ok(left) => match spec_int32_operand_or_fallback(slots, code_block, window, instruction, 2, site) {
                Err(abort) => (Err(abort), slots),
                Ok(right) => match spec_int32_bitwise_result(opcode, left, right) {
                    None => spec_fallback_step(slots, site, BaselineGeneratedFallbackCause::UnsupportedOpcode),
                    Some(result) => spec_write_step(slots, window, destination, result, site),
                },
            },
        },
    }
}

pub fn execute_int32_bitwise(
    opcode: CoreOpcode,
    code_block: &CodeBlock,
    window: RegisterWindow,
    execution: &mut InterpreterExecutionState,
    instruction: &TypedInstruction,
    site: BaselineGeneratedFallbackSite,
) -> (r: Result<BaselineInstructionOutcome, BaselineInstructionAbort>)
    ensures
        (r, final(execution).registers.slots@) == spec_int32_bitwise_step(
            opcode, old(execution).registers.slots@, *code_block, window, *instruction, site),
        final(execution).stack == old(execution).stack,
        final(execution).heap == old(execution).heap,
{
    let destination = register_operand_or_fallback(instruction, 0, site)?;
    let left = int32_operand_or_fallback(execution, code_block, window, instruction, 1, site)?;
    let right = int32_operand_or_fallback(execution, code_block, window, instruction, 2, site)?;
    match int32_bitwise_result(opcode, left, right) {
        None => Ok(BaselineInstructionOutcome::Fallback(site.with_cause(BaselineGeneratedFallbackCause::UnsupportedOpcode))),
        Some(result) => write_register_or_outcome(execution, window, destination, result, site),
    }
}

/// Bitwise and shift opcodes on any two numbers, through ToInt32.
pub open spec fn spec_pure_number_bitwise_step(
    opcode: CoreOpcode,
    slots: Seq<RuntimeValue>,
    code_block: CodeBlock,
    window: RegisterWindow,
    instruction: TypedInstruction,
    site: BaselineGeneratedFallbackSite,
) -> StepResult {
    match spec_register_operand_or_fallback(instruction, 0, site) {
        Err(abort) => (Err(abort), slots),
        Ok(destination) => match spec_number_operand_or_fallback(slots, code_block, window, instruction, 1, site) {
            Err(abort) => (Err(abort), slots),
            Ok(left) => match spec_number_operand_or_fallback(slots, code_block, window, instruction, 2, site) {
                Err(abort) => (Err(abort), slots),
                Ok(right) => match spec_int32_bitwise_result(
                    opcode,
                    spec_number_to_int32(left),
                    spec_number_to_int32(right),
                ) {
                    None => (
                        Err(BaselineInstructionAbort::Fallback(
                            spec_with_cause(site, BaselineGeneratedFallbackCause::UnsupportedOpcode),
                        )),
                        slots,
                    ),
                    Some(result) => spec_write_step(slots, window, destination, result, site),
                },
            },
        },
    }
}

pub fn execute_pure_number_bitwise(
    opcode: CoreOpcode,
    code_block: &CodeBlock,
    window: RegisterWindow,
    execution: &mut InterpreterExecutionState,
    instruction: &TypedInstruction,
    site: BaselineGeneratedFallbackSite,
) -> (r: Result<BaselineInstructionOutcome, BaselineInstructionAbort>)
    ensures
        (r, final(execution).registers.slots@) == spec_pure_number_bitwise_step(
            opcode, old(execution).registers.slots@, *code_block, window, *instruction, site),
        final(execution).stack == old(execution).stack,
        final(execution).heap == old(execution).heap,
{
    let destination = register_operand_or_fallback(instruction, 0, site)?;
    let left = number_operand_or_fallback(execution, code_block, window, instruction, 1, site)?;
    let right = number_operand_or_fallback(execution, code_block, window, instruction, 2, site)?;
    match int32_bitwise_result(opcode, number_to_int32(left), number_to_int32(right)) {
        None => Err(BaselineInstructionAbort::Fallback(site.with_cause(BaselineGeneratedFallbackCause::UnsupportedOpcode))),
        Some(result) => write_register_or_outcome(execution, window, destination, result, site),
    }
}

/// Relational opcodes on two int32 operands.
pub open spec fn spec_int32_relational_step(
    opcode: CoreOpcode,
    slots: Seq<RuntimeValue>,
    code_block: CodeBlock,
    window: RegisterWindow,
    instruction: TypedInstruction,
    site: BaselineGeneratedFallbackSite,
) -> StepResult {
    match spec_register_operand_or_fallback(instruction, 0, site) {
        Err(abort) => (Err(abort), slots),
        Ok(destination) => match spec_int32_operand_or_fallback(slots, code_block, window, instruction, 1, site) {
            Err(abort) => (Err(abort), slots),
            Ok(left) => match spec_int32_operand_or_fallback(slots, code_block, window, instruction, 2, site) {
                Err(abort) => (Err(abort), slots),
                Ok(right) => match spec_int32_relational_result(opcode, left, right) {
                    None => spec_fallback_step(slots, site, BaselineGeneratedFallbackCause::UnsupportedOpcode),
                    Some(result) => spec_write_step(slots, window, destination, RuntimeValue::Boolean(result), site),
                },
            },
        },
    }
}

pub fn execute_int32_relational(
    opcode: CoreOpcode,
    code_block: &CodeBlock,
    window: RegisterWindow,
    execution: &mut InterpreterExecutionState,
    instruction: &TypedInstruction,
    site: BaselineGeneratedFallbackSite,
) -> (r: Result<BaselineInstructionOutcome, BaselineInstructionAbort>)
    ensures
        (r, final(execution).registers.slots@) == spec_int32_relational_step(
            opcode, old(execution).registers.slots@, *code_block, window, *instruction, site),
        final(execution).stack == old(execution).stack,
        final(execution).heap == old(execution).heap,
{
    let destination = register_operand_or_fallback(instruction, 0, site)?;
    let left = int32_operand_or_fallback(execution, code_block, window, instruction, 1, site)?;
    let right = int32_operand_or_fallback(execution, code_block, window, instruction, 2, site)?;
    match int32_relational_result(opcode, left, right) {
        None => Ok(BaselineInstructionOutcome::Fallback(site.with_cause(BaselineGeneratedFallbackCause::UnsupportedOpcode))),
        Some(result) => write_register_or_outcome(execution, window, destination, RuntimeValue::Boolean(result), site),
    }
}

/// Relational opcodes on any two numbers, compared as doubles.
pub open spec fn spec_pure_number_relational_step(
    opcode: CoreOpcode,
    slots: Seq<RuntimeValue>,
    code_block: CodeBlock,
    window: RegisterWindow,
    instruction: TypedInstruction,
    site: BaselineGeneratedFallbackSite,
) -> StepResult {
    match spec_register_operand_or_fallback(instruction, 0, site) {
        Err(abort) => (Err(abort), slots),
        Ok(destination) => match spec_number_operand_or_fallback(slots, code_block, window, instruction, 1, site) {
            Err(abort) => (Err(abort), slots),
            Ok(left) => match spec_number_operand_or_fallback(slots, code_block, window, instruction, 2, site) {
                Err(abort) => (Err(abort), slots),
                Ok(right) => match spec_double_relational_result(
                    opcode,
                    spec_number_to_double_bits(left),
                    spec_number_to_double_bits(right),
                ) {
                    None => spec_fallback_step(slots, site, BaselineGeneratedFallbackCause::UnsupportedOpcode),
                    Some(result) => spec_write_step(slots, window, destination, RuntimeValue::Boolean(result), site),
                },
            },
        },
    }
}

pub fn execute_pure_number_relational(
    opcode: CoreOpcode,
    code_block: &CodeBlock,
    window: RegisterWindow,
    execution: &mut InterpreterExecutionState,
    instruction: &TypedInstruction,
    site: BaselineGeneratedFallbackSite,
) -> (r: Result<BaselineInstructionOutcome, BaselineInstructionAbort>)
    ensures
        (r, final(execution).registers.slots@) == spec_pure_number_relational_step(
            opcode, old(execution).registers.slots@, *code_block, window, *instruction, site),
        final(execution).stack == old(execution).stack,
        final(execution).heap == old(execution).heap,
{
    let destination = register_operand_or_fallback(instruction, 0, site)?;
    let left = number_operand_or_fallback(execution, code_block, window, instruction, 1, site)?;
    let right = number_operand_or_fallback(execution, code_block, window, instruction, 2, site)?;
    match double_relational_result(opcode, number_to_double_bits(left), number_to_double_bits(right)) {
        None => Ok(BaselineInstructionOutcome::Fallback(site.with_cause(BaselineGeneratedFallbackCause::UnsupportedOpcode))),
        Some(result) => write_register_or_outcome(execution, window, destination, RuntimeValue::Boolean(result), site),
    }
}


/// `jump if false`: branches when the condition is falsy; cells and unknown values,
/// whose truthiness needs the runtime, fall back.
pub open spec fn spec_jump_if_false_step(
    slots: Seq<RuntimeValue>,
    code_block: CodeBlock,
    window: RegisterWindow,
    instruction: TypedInstruction,
    site: BaselineGeneratedFallbackSite,
) -> StepResult {
    match spec_register_operand_or_fallback(instruction, 0, site) {
        Err(abort) => (Err(abort), slots),
        Ok(register) => match spec_read_register_or_outcome(slots, code_block, window, register, site) {
            Err(abort) => (Err(abort), slots),
            Ok(value) => match spec_bytecode_index_operand_or_fallback(instruction, 1, site) {
                Err(abort) => (Err(abort), slots),
                Ok(target) => match spec_local_primitive_truthiness(value) {
                    None => spec_fallback_step(
                        slots,
                        site,
                        BaselineGeneratedFallbackCause::UnsupportedTruthinessOperand {
                            operand_index: 0,
                            register,
                            value_kind: spec_value_kind(value),
                        },
                    ),
                    Some(truthy) => if truthy {
                        (Ok(BaselineInstructionOutcome::Continue), slots)
                    } else {
                        (Ok(BaselineInstructionOutcome::Jump(target)), slots)
                    },
                },
            },
        },
    }
}

pub fn execute_jump_if_false(
    code_block: &CodeBlock,
    window: RegisterWindow,
    execution: &mut InterpreterExecutionState,
    instruction: &TypedInstruction,
    site: BaselineGeneratedFallbackSite,
) -> (r: Result<BaselineInstructionOutcome, BaselineInstructionAbort>)
    ensures
        (r, final(execution).registers.slots@) == spec_jump_if_false_step(
            old(execution).registers.slots@, *code_block, window, *instruction, site),
        *final(execution) == *old(execution),
{
    let register = register_operand_or_fallback(instruction, 0, site)?;
    let value = read_register_or_outcome(execution, code_block, window, register, site)?;
    let target = bytecode_index_operand_or_fallback(instruction, 1, site)?;
    match local_primitive_truthiness(value) {
        None => Ok(BaselineInstructionOutcome::Fallback(site.with_cause(
            BaselineGeneratedFallbackCause::UnsupportedTruthinessOperand {
                operand_index: 0,
                register,
                value_kind: value.kind(),
            },
        ))),
        Some(truthy) => if truthy {
            Ok(BaselineInstructionOutcome::Continue)
        } else {
            Ok(BaselineInstructionOutcome::Jump(target))
        },
    }
}

/// `jump if not nullish`: branches unless the condition is undefined or null.
pub open spec fn spec_jump_if_not_nullish_step(
    slots: Seq<RuntimeValue>,
    code_block: CodeBlock,
    window: RegisterWindow,
    instruction: TypedInstruction,
    site: BaselineGeneratedFallbackSite,
) -> StepResult {
    match spec_register_operand_or_fallback(instruction, 0, site) {
        Err(abort) => (Err(abort), slots),
        Ok(register) => match spec_read_register_or_outcome(slots, code_block, window, register, site) {
            Err(abort) => (Err(abort), slots),
            Ok(value) => match spec_bytecode_index_operand_or_fallback(instruction, 1, site) {
                Err(abort) => (Err(abort), slots),
                Ok(target) => if spec_is_nullish(value) {
                    (Ok(BaselineInstructionOutcome::Continue), slots)
                } else {
                    (Ok(BaselineInstructionOutcome::Jump(target)), slots)
                },
            },
        },
    }
}

pub fn execute_jump_if_not_nullish(
    code_block: &CodeBlock,
    window: RegisterWindow,
    execution: &mut InterpreterExecutionState,
    instruction: &TypedInstruction,
    site: BaselineGeneratedFallbackSite,
) -> (r: Result<BaselineInstructionOutcome, BaselineInstructionAbort>)
    ensures
        (r, final(execution).registers.slots@) == spec_jump_if_not_nullish_step(
            old(execution).registers.slots@, *code_block, window, *instruction, site),
        *final(execution) == *old(execution),
{
    let register = register_operand_or_fallback(instruction, 0, site)?;
    let value = read_register_or_outcome(execution, code_block, window, register, site)?;
    let target = bytecode_index_operand_or_fallback(instruction, 1, site)?;
    match value.kind() {
        ValueKind::Undefined | ValueKind::Null => Ok(BaselineInstructionOutcome::Continue),
        _ => Ok(BaselineInstructionOutcome::Jump(target)),
    }
}

/// Logical not of the source's truthiness.
pub open spec fn spec_logical_not_step(
    slots: Seq<RuntimeValue>,
    code_block: CodeBlock,
    window: RegisterWindow,
    instruction: TypedInstruction,
    site: BaselineGeneratedFallbackSite,
) -> StepResult {
    match spec_register_operand_or_fallback(instruction, 0, site) {
        Err(abort) => (Err(abort), slots),
        Ok(destination) => match spec_register_operand_or_fallback(instruction, 1, site) {
            Err(abort) => (Err(abort), slots),
            Ok(source) => match spec_read_register_or_outcome(slots, code_block, window, source, site) {
                Err(abort) => (Err(abort), slots),
                Ok(value) => match spec_local_primitive_truthiness(value) {
                    None => spec_fallback_step(
                        slots,
                        site,
                        BaselineGeneratedFallbackCause::UnsupportedTruthinessOperand {
                            operand_index: 1,
                            register: source,
                            value_kind: spec_value_kind(value),
                        },
                    ),
                    Some(truthy) => spec_write_step(slots, window, destination, RuntimeValue::Boolean(!truthy), site),
                },
            },
        },
    }
}

pub fn execute_logical_not(
    code_block: &CodeBlock,
    window: RegisterWindow,
    execution: &mut InterpreterExecutionState,
    instruction: &TypedInstruction,
    site: BaselineGeneratedFallbackSite,
) -> (r: Result<BaselineInstructionOutcome, BaselineInstructionAbort>)
    ensures
        (r, final(execution).registers.slots@) == spec_logical_not_step(
            old(execution).registers.slots@, *code_block, window, *instruction, site),
        final(execution).stack == old(execution).stack,
        final(execution).heap == old(execution).heap,
{
    let destination = register_operand_or_fallback(instruction, 0, site)?;
    let source = register_operand_or_fallback(instruction, 1, site)?;
    let value = read_register_or_outcome(execution, code_block, window, source, site)?;
    match local_primitive_truthiness(value) {
        None => Ok(BaselineInstructionOutcome::Fallback(site.with_cause(
            BaselineGeneratedFallbackCause::UnsupportedTruthinessOperand {
                operand_index: 1,
                register: source,
                value_kind: value.kind(),
            },
        ))),
        Some(truthy) => write_register_or_outcome(execution, window, destination, RuntimeValue::Boolean(!truthy), site),
    }
}

/// `===` and `!==` on two primitives; a cell or unknown operand falls back, the left
/// one first.
pub open spec fn spec_strict_equality_step(
    opcode: CoreOpcode,
    slots: Seq<RuntimeValue>,
    code_block: CodeBlock,
    window: RegisterWindow,
    instruction: TypedInstruction,
    site: BaselineGeneratedFallbackSite,
) -> StepResult {
    match spec_register_operand_or_fallback(instruction, 0, site) {
        Err(abort) => (Err(abort), slots),
        Ok(destination) => match spec_register_operand_or_fallback(instruction, 1, site) {
            Err(abort) => (Err(abort), slots),
            Ok(left_register) => match spec_read_register_or_outcome(slots, code_block, window, left_register, site) {
                Err(abort) => (Err(abort), slots),
                Ok(left) => if spec_unsupported_strict_equality_value(left) {
                    spec_fallback_step(
                        slots,
                        site,
                        BaselineGeneratedFallbackCause::UnsupportedStrictEqualityOperand {
                            operand_index: 1,
                            register: left_register,
                            value_kind: spec_value_kind(left),
                        },
                    )
                } else {
                    match spec_register_operand_or_fallback(instruction, 2, site) {
                        Err(abort) => (Err(abort), slots),
                        Ok(right_register) => match spec_read_register_or_outcome(
                            slots,
                            code_block,
                            window,
                            right_register,
                            site,
                        ) {
                            Err(abort) => (Err(abort), slots),
                            Ok(right) => if spec_unsupported_strict_equality_value(right) {
                                spec_fallback_step(
                                    slots,
                                    site,
                                    BaselineGeneratedFallbackCause::UnsupportedStrictEqualityOperand {
                                        operand_index: 2,
                                        register: right_register,
                                        value_kind: spec_value_kind(right),
                                    },
                                )
                            } else {
                                match spec_local_primitive_strict_equals(left, right) {
                                    None => spec_fallback_step(
                                        slots,
                                        site,
                                        BaselineGeneratedFallbackCause::UnsupportedStrictEqualityOperand {
                                            operand_index: 1,
                                            register: left_register,
                                            value_kind: spec_value_kind(left),
                                        },
                                    ),
                                    Some(equals) => spec_write_step(
                                        slots,
                                        window,
                                        destination,
                                        RuntimeValue::Boolean((opcode == CoreOpcode::StrictEqual) == equals),
                                        site,
                                    ),
                                }
                            },
                        },
                    }
                },
            },
        },
    }
}

pub fn execute_strict_equality(
    opcode: CoreOpcode,
    code_block: &CodeBlock,
    window: RegisterWindow,
    execution: &mut InterpreterExecutionState,
    instruction: &TypedInstruction,
    site: BaselineGeneratedFallbackSite,
) -> (r: Result<BaselineInstructionOutcome, BaselineInstructionAbort>)
    ensures
        (r, final(execution).registers.slots@) == spec_strict_equality_step(
            opcode, old(execution).registers.slots@, *code_block, window, *instruction, site),
        final(execution).stack == old(execution).stack,
        final(execution).heap == old(execution).heap,
{
    let destination = register_operand_or_fallback(instruction, 0, site)?;
    let left_register = register_operand_or_fallback(instruction, 1, site)?;
    let left = read_register_or_outcome(execution, code_block, window, left_register, site)?;
    if unsupported_strict_equality_value(left) {
        return Ok(BaselineInstructionOutcome::Fallback(site.with_cause(
            BaselineGeneratedFallbackCause::UnsupportedStrictEqualityOperand {
                operand_index: 1,
                register: left_register,
                value_kind: left.kind(),
            },
        )));
    }
    let right_register = register_operand_or_fallback(instruction, 2, site)?;
    let right = read_register_or_outcome(execution, code_block, window, right_register, site)?;
    if unsupported_strict_equality_value(right) {
        return Ok(BaselineInstructionOutcome::Fallback(site.with_cause(
            BaselineGeneratedFallbackCause::UnsupportedStrictEqualityOperand {
                operand_index: 2,
                register: right_register,
                value_kind: right.kind(),
            },
        )));
    }
    match local_primitive_strict_equals(left, right) {
        None => Ok(BaselineInstructionOutcome::Fallback(site.with_cause(
            BaselineGeneratedFallbackCause::UnsupportedStrictEqualityOperand {
                operand_index: 1,
                register: left_register,
                value_kind: left.kind(),
            },
        ))),
        Some(equals) => write_register_or_outcome(
            execution,
            window,
            destination,
            RuntimeValue::Boolean((opcode == CoreOpcode::StrictEqual) == equals),
            site,
        ),
    }
}

/// `==` and `!=` where no conversion needs a call; otherwise the first operand that is
/// not an int32 is reported.
pub open spec fn spec_loose_equality_step(
    opcode: CoreOpcode,
    slots: Seq<RuntimeValue>,
    code_block: CodeBlock,
    window: RegisterWindow,
    instruction: TypedInstruction,
    site: BaselineGeneratedFallbackSite,
) -> StepResult {
    match spec_register_operand_or_fallback(instruction, 0, site) {
        Err(abort) => (Err(abort), slots),
        Ok(destination) => match spec_register_operand_or_fallback(instruction, 1, site) {
            Err(abort) => (Err(abort), slots),
            Ok(left_register) => match spec_read_register_or_outcome(slots, code_block, window, left_register, site) {
                Err(abort) => (Err(abort), slots),
                Ok(left) => match spec_register_operand_or_fallback(instruction, 2, site) {
                    Err(abort) => (Err(abort), slots),
                    Ok(right_register) => match spec_read_register_or_outcome(
                        slots,
                        code_block,
                        window,
                        right_register,
                        site,
                    ) {
                        Err(abort) => (Err(abort), slots),
                        Ok(right) => match spec_local_no_call_loose_equals(left, right) {
                            None => spec_fallback_step(
                                slots,
                                site,
                                if !(left is Int32) {
                                    BaselineGeneratedFallbackCause::NonInt32Operand {
                                        operand_index: 1,
                                        register: left_register,
                                    }
                                } else {
                                    BaselineGeneratedFallbackCause::NonInt32Operand {
                                        operand_index: 2,
                                        register: right_register,
                                    }
                                },
                            ),
                            Some(equals) => spec_write_step(
                                slots,
                                window,
                                destination,
                                RuntimeValue::Boolean((opcode == CoreOpcode::Equal) == equals),
                                site,
                            ),
                        },
                    },
                },
            },
        },
    }
}

pub fn execute_local_loose_equality(
    opcode: CoreOpcode,
    code_block: &CodeBlock,
    window: RegisterWindow,
    execution: &mut InterpreterExecutionState,
    instruction: &TypedInstruction,
    site: BaselineGeneratedFallbackSite,
) -> (r: Result<BaselineInstructionOutcome, BaselineInstructionAbort>)
    ensures
        (r, final(execution).registers.slots@) == spec_loose_equality_step(
            opcode, old(execution).registers.slots@, *code_block, window, *instruction, site),
        final(execution).stack == old(execution).stack,
        final(execution).heap == old(execution).heap,
{
    let destination = register_operand_or_fallback(instruction, 0, site)?;
    let left_register = register_operand_or_fallback(instruction, 1, site)?;
    let left = read_register_or_outcome(execution, code_block, window, left_register, site)?;
    let right_register = register_operand_or_fallback(instruction, 2, site)?;
    let right = read_register_or_outcome(execution, code_block, window, right_register, site)?;
    match local_no_call_loose_equals(left, right) {
        None => {
            let left_is_int32 = match left.as_number() {
                Some(NumberValue::Int32(_)) => true,
                _ => false,
            };
            let cause = if !left_is_int32 {
                BaselineGeneratedFallbackCause::NonInt32Operand { operand_index: 1, register: left_register }
            } else {
                BaselineGeneratedFallbackCause::NonInt32Operand { operand_index: 2, register: right_register }
            };
            Ok(BaselineInstructionOutcome::Fallback(site.with_cause(cause)))
        },
        Some(equals) => write_register_or_outcome(
            execution,
            window,
            destination,
            RuntimeValue::Boolean((opcode == CoreOpcode::Equal) == equals),
            site,
        ),
    }
}

} // verus!
