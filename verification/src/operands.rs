//! What one instruction step produces, and how operands and registers are read and
//! written on the way, with every failure turned into a fallback or an error.
use vstd::prelude::*;
use crate::bytecode::{
    BytecodeIndex, CodeBlock, InstructionDecodeError, TypedInstruction, VirtualRegister,
    spec_bytecode_index_operand, spec_register_operand, spec_unsigned_immediate_operand,
};
use crate::handoff::{
    BaselineGeneratedFallback, BaselineGeneratedFallbackCause, BaselineGeneratedFallbackOpcode,
    BaselineGeneratedFallbackSite, BaselineGeneratedJsCallHandoff, BaselineGeneratedJsCallHandoffError,
    BaselineGeneratedPropertyHandoff, BaselineGeneratedPropertyHandoffError,
    BaselineGeneratedRegisterFallbackCause, BaselineGeneratedRuntimeHelperHandoff,
    BaselineGeneratedRuntimeHelperHandoffError, spec_with_cause,
};
use crate::plan::{
    BaselineBytecodeSnapshotFingerprint, BaselineSupportedOpcodeSubset, JitCodeValidationError,
    JitPlanValidationError,
};
use crate::runtime::{
    CodeBlockId, ExecutionError, InterpreterExecutionState, RegisterWindow, baseline_read_register,
    baseline_return_register, baseline_write_register, spec_read_register, spec_write_register,
};
use crate::value::{NumberValue, RuntimeValue, spec_as_number, spec_value_kind};

verus! {

/// Why generated code could not run, or stopped with an error.
#[allow(inconsistent_fields)]
#[derive(Clone, Copy, Debug, PartialEq, Eq, Structural)]
pub enum BaselineGeneratedExecutionError {
    ArtifactValidation(JitCodeValidationError),
    OwnerMismatch { expected: CodeBlockId, actual: CodeBlockId },
    UnsupportedOpcodeSubset {
        expected: BaselineSupportedOpcodeSubset,
        actual: BaselineSupportedOpcodeSubset,
    },
    CodeBlockSnapshotValidation(JitPlanValidationError),
    CodeBlockSnapshotMismatch {
        expected: BaselineBytecodeSnapshotFingerprint,
        actual: BaselineBytecodeSnapshotFingerprint,
    },
    InstructionDecode { bytecode_index: BytecodeIndex, error: InstructionDecodeError },
    RuntimeHelperHandoff {
        bytecode_index: BytecodeIndex,
        opcode: BaselineGeneratedFallbackOpcode,
        error: BaselineGeneratedRuntimeHelperHandoffError,
    },
    JsCallHandoff {
        bytecode_index: BytecodeIndex,
        opcode: BaselineGeneratedFallbackOpcode,
        error: BaselineGeneratedJsCallHandoffError,
    },
    PropertyHandoff {
        bytecode_index: BytecodeIndex,
        opcode: BaselineGeneratedFallbackOpcode,
        error: BaselineGeneratedPropertyHandoffError,
    },
    RuntimeHelperProofAmbiguous { bytecode_index: BytecodeIndex, opcode: crate::bytecode::CoreOpcode },
    UnexpectedRuntimeHelper(BaselineGeneratedRuntimeHelperHandoff),
    Execution(ExecutionError),
}

/// An interpreter error met while running generated code.
impl From<ExecutionError> for BaselineGeneratedExecutionError {
    fn from(error: ExecutionError) -> (r: BaselineGeneratedExecutionError) {
        BaselineGeneratedExecutionError::Execution(error)
    }
}

impl vstd::std_specs::convert::FromSpecImpl<ExecutionError> for BaselineGeneratedExecutionError {
    open spec fn obeys_from_spec() -> bool {
        true
    }

    open spec fn from_spec(error: ExecutionError) -> BaselineGeneratedExecutionError {
        BaselineGeneratedExecutionError::Execution(error)
    }
}

/// How one instruction step ends when it does not abort.
#[derive(Clone, Copy, Debug, PartialEq, Eq, Structural)]
pub enum BaselineInstructionOutcome {
    /// Go on with the next instruction.
    Continue,
    /// Go on at the given instruction, the ones between having been done already.
    ContinueTo(BytecodeIndex),
    /// Branch to the given instruction.
    Jump(BytecodeIndex),
    Return(RuntimeValue),
    JsCall(BaselineGeneratedJsCallHandoff),
    Property(BaselineGeneratedPropertyHandoff),
    Fallback(BaselineGeneratedFallback),
}

/// How one instruction step aborts: with a fallback, or with an error.
#[derive(Clone, Copy, Debug, PartialEq, Eq, Structural)]
pub enum BaselineInstructionAbort {
    Fallback(BaselineGeneratedFallback),
    Error(BaselineGeneratedExecutionError),
}

/// What an instruction step returns, and the register slots after it.
pub type StepResult = (Result<BaselineInstructionOutcome, BaselineInstructionAbort>, Seq<RuntimeValue>);

pub open spec fn spec_operand_fallback(
    site: BaselineGeneratedFallbackSite,
    error: crate::bytecode::OperandAccessError,
) -> BaselineInstructionAbort {
    BaselineInstructionAbort::Fallback(
        spec_with_cause(site, BaselineGeneratedFallbackCause::OperandAccess { error }),
    )
}

pub open spec fn spec_register_operand_or_fallback(
    instruction: TypedInstruction,
    index: int,
    site: BaselineGeneratedFallbackSite,
) -> Result<VirtualRegister, BaselineInstructionAbort> {
    match spec_register_operand(instruction, index) {
        Ok(register) => Ok(register),
        Err(error) => Err(spec_operand_fallback(site, error)),
    }
}

pub fn register_operand_or_fallback(
    instruction: &TypedInstruction,
    index: usize,
    site: BaselineGeneratedFallbackSite,
) -> (r: Result<VirtualRegister, BaselineInstructionAbort>)
    ensures
        r == spec_register_operand_or_fallback(*instruction, index as int, site),
{
    match instruction.register_operand(index) {
        Ok(register) => Ok(register),
        Err(error) => Err(
            BaselineInstructionAbort::Fallback(
                site.with_cause(BaselineGeneratedFallbackCause::OperandAccess { error }),
            ),
        ),
    }
}

pub open spec fn spec_bytecode_index_operand_or_fallback(
    instruction: TypedInstruction,
    index: int,
    site: BaselineGeneratedFallbackSite,
) -> Result<BytecodeIndex, BaselineInstructionAbort> {
    match spec_bytecode_index_operand(instruction, index) {
        Ok(target) => Ok(target),
        Err(error) => Err(spec_operand_fallback(site, error)),
    }
}

pub fn bytecode_index_operand_or_fallback(
    instruction: &TypedInstruction,
    index: usize,
    site: BaselineGeneratedFallbackSite,
) -> (r: Result<BytecodeIndex, BaselineInstructionAbort>)
    ensures
        r == spec_bytecode_index_operand_or_fallback(*instruction, index as int, site),
{
    match instruction.bytecode_index_operand(index) {
        Ok(target) => Ok(target),
        Err(error) => Err(
            BaselineInstructionAbort::Fallback(
                site.with_cause(BaselineGeneratedFallbackCause::OperandAccess { error }),
            ),
        ),
    }
}

pub open spec fn spec_unsigned_immediate_operand_or_fallback(
    instruction: TypedInstruction,
    index: int,
    site: BaselineGeneratedFallbackSite,
) -> Result<u32, BaselineInstructionAbort> {
    match spec_unsigned_immediate_operand(instruction, index) {
        Ok(value) => Ok(value),
        Err(error) => Err(spec_operand_fallback(site, error)),
    }
}

pub fn unsigned_immediate_operand_or_fallback(
    instruction: &TypedInstruction,
    index: usize,
    site: BaselineGeneratedFallbackSite,
) -> (r: Result<u32, BaselineInstructionAbort>)
    ensures
        r == spec_unsigned_immediate_operand_or_fallback(*instruction, index as int, site),
{
    match instruction.unsigned_immediate_operand(index) {
        Ok(value) => Ok(value),
        Err(error) => Err(
            BaselineInstructionAbort::Fallback(
                site.with_cause(BaselineGeneratedFallbackCause::OperandAccess { error }),
            ),
        ),
    }
}

/// The register errors that generated code answers with a fallback; others are errors.
pub open spec fn spec_register_fallback_cause(error: ExecutionError) -> Option<BaselineGeneratedRegisterFallbackCause> {
    match error {
        ExecutionError::InvalidRegister => Some(BaselineGeneratedRegisterFallbackCause::InvalidRegister),
        ExecutionError::CannotWriteConstant => Some(BaselineGeneratedRegisterFallbackCause::CannotWriteConstant),
        ExecutionError::CannotAddressHeaderAsValue => Some(
            BaselineGeneratedRegisterFallbackCause::CannotAddressHeaderAsValue,
        ),
        ExecutionError::MissingConstantPool => Some(BaselineGeneratedRegisterFallbackCause::MissingConstantPool),
        ExecutionError::DeferredConstant => Some(BaselineGeneratedRegisterFallbackCause::DeferredConstant),
        ExecutionError::RegisterOutOfBounds => Some(BaselineGeneratedRegisterFallbackCause::RegisterOutOfBounds),
        _ => None,
    }
}

pub fn register_fallback_cause(error: &ExecutionError) -> (r: Option<BaselineGeneratedRegisterFallbackCause>)
    ensures
        r == spec_register_fallback_cause(*error),
{
    match error {
        ExecutionError::InvalidRegister => Some(BaselineGeneratedRegisterFallbackCause::InvalidRegister),
        ExecutionError::CannotWriteConstant => Some(BaselineGeneratedRegisterFallbackCause::CannotWriteConstant),
        ExecutionError::CannotAddressHeaderAsValue => Some(
            BaselineGeneratedRegisterFallbackCause::CannotAddressHeaderAsValue,
        ),
        ExecutionError::MissingConstantPool => Some(BaselineGeneratedRegisterFallbackCause::MissingConstantPool),
        ExecutionError::DeferredConstant => Some(BaselineGeneratedRegisterFallbackCause::DeferredConstant),
        ExecutionError::RegisterOutOfBounds => Some(BaselineGeneratedRegisterFallbackCause::RegisterOutOfBounds),
        _ => None,
    }
}

pub fn execution_error_abort(error: ExecutionError) -> (r: BaselineInstructionAbort)
    ensures
        r == BaselineInstructionAbort::Error(BaselineGeneratedExecutionError::Execution(error)),
{
    BaselineInstructionAbort::Error(BaselineGeneratedExecutionError::Execution(error))
}

/// Which register access failed.
#[derive(Clone, Copy, Debug, PartialEq, Eq, Structural)]
pub enum RegisterAccess {
    Read,
    Write,
    Return,
}

pub open spec fn spec_register_abort(
    access: RegisterAccess,
    error: ExecutionError,
    site: BaselineGeneratedFallbackSite,
    register: VirtualRegister,
) -> BaselineInstructionAbort {
    match spec_register_fallback_cause(error) {
        None => BaselineInstructionAbort::Error(BaselineGeneratedExecutionError::Execution(error)),
        Some(cause) => BaselineInstructionAbort::Fallback(
            spec_with_cause(
                site,
                match access {
                    RegisterAccess::Read => BaselineGeneratedFallbackCause::RegisterRead { register, error: cause },
                    RegisterAccess::Write => BaselineGeneratedFallbackCause::RegisterWrite { register, error: cause },
                    RegisterAccess::Return => BaselineGeneratedFallbackCause::BadReturnRegister {
                        register,
                        error: cause,
                    },
                },
            ),
        ),
    }
}

pub fn register_read_abort(
    error: ExecutionError,
    site: BaselineGeneratedFallbackSite,
    register: VirtualRegister,
) -> (r: BaselineInstructionAbort)
    ensures
        r == spec_register_abort(RegisterAccess::Read, error, site, register),
{
    match register_fallback_cause(&error) {
        None => execution_error_abort(error),
        Some(cause) => BaselineInstructionAbort::Fallback(
            site.with_cause(BaselineGeneratedFallbackCause::RegisterRead { register, error: cause }),
        ),
    }
}

pub fn register_write_abort(
    error: ExecutionError,
    site: BaselineGeneratedFallbackSite,
    register: VirtualRegister,
) -> (r: BaselineInstructionAbort)
    ensures
        r == spec_register_abort(RegisterAccess::Write, error, site, register),
{
    match register_fallback_cause(&error) {
        None => execution_error_abort(error),
        Some(cause) => BaselineInstructionAbort::Fallback(
            site.with_cause(BaselineGeneratedFallbackCause::RegisterWrite { register, error: cause }),
        ),
    }
}

pub fn bad_return_register_abort(
    error: ExecutionError,
    site: BaselineGeneratedFallbackSite,
    register: VirtualRegister,
) -> (r: BaselineInstructionAbort)
    ensures
        r == spec_register_abort(RegisterAccess::Return, error, site, register),
{
    match register_fallback_cause(&error) {
        None => execution_error_abort(error),
        Some(cause) => BaselineInstructionAbort::Fallback(
            site.with_cause(BaselineGeneratedFallbackCause::BadReturnRegister { register, error: cause }),
        ),
    }
}

pub open spec fn spec_read_register_or_outcome(
    slots: Seq<RuntimeValue>,
    code_block: CodeBlock,
    window: RegisterWindow,
    register: VirtualRegister,
    site: BaselineGeneratedFallbackSite,
) -> Result<RuntimeValue, BaselineInstructionAbort> {
    match spec_read_register(slots, code_block, window, register) {
        Ok(value) => Ok(value),
        Err(error) => Err(spec_register_abort(RegisterAccess::Read, error, site, register)),
    }
}

pub fn read_register_or_outcome(
    execution: &InterpreterExecutionState,
    code_block: &CodeBlock,
    window: RegisterWindow,
    register: VirtualRegister,
    site: BaselineGeneratedFallbackSite,
) -> (r: Result<RuntimeValue, BaselineInstructionAbort>)
    ensures
        r == spec_read_register_or_outcome(execution.registers.slots@, *code_block, window, register, site),
{
    match baseline_read_register(&execution.registers, code_block, window, register) {
        Ok(value) => Ok(value),
        Err(error) => Err(register_read_abort(error, site, register)),
    }
}

pub open spec fn spec_read_return_register_or_fallback(
    slots: Seq<RuntimeValue>,
    code_block: CodeBlock,
    window: RegisterWindow,
    register: VirtualRegister,
    site: BaselineGeneratedFallbackSite,
) -> Result<RuntimeValue, BaselineInstructionAbort> {
    match spec_read_register(slots, code_block, window, register) {
        Ok(value) => Ok(value),
        Err(error) => Err(spec_register_abort(RegisterAccess::Return, error, site, register)),
    }
}

pub fn read_return_register_or_fallback(
    execution: &InterpreterExecutionState,
    code_block: &CodeBlock,
    window: RegisterWindow,
    register: VirtualRegister,
    site: BaselineGeneratedFallbackSite,
) -> (r: Result<RuntimeValue, BaselineInstructionAbort>)
    ensures
        r == spec_read_return_register_or_fallback(execution.registers.slots@, *code_block, window, register, site),
{
    match baseline_return_register(&execution.registers, code_block, window, register) {
        Ok(value) => Ok(value),
        Err(error) => Err(bad_return_register_abort(error, site, register)),
    }
}

/// Writing the result of an instruction: on success the step continues with the new
/// value in place; on failure nothing changes and the step aborts.
pub open spec fn spec_write_step(
    slots: Seq<RuntimeValue>,
    window: RegisterWindow,
    register: VirtualRegister,
    value: RuntimeValue,
    site: BaselineGeneratedFallbackSite,
) -> StepResult {
    match spec_write_register(slots, window, register, value) {
        Ok(new_slots) => (Ok(BaselineInstructionOutcome::Continue), new_slots),
        Err(error) => (Err(spec_register_abort(RegisterAccess::Write, error, site, register)), slots),
    }
}

pub fn write_register_or_outcome(
    execution: &mut InterpreterExecutionState,
    window: RegisterWindow,
    register: VirtualRegister,
    value: RuntimeValue,
    site: BaselineGeneratedFallbackSite,
) -> (r: Result<BaselineInstructionOutcome, BaselineInstructionAbort>)
    ensures
        (r, final(execution).registers.slots@) == spec_write_step(
            old(execution).registers.slots@,
            window,
            register,
            value,
            site,
        ),
        final(execution).stack == old(execution).stack,
        final(execution).heap == old(execution).heap,
{
    match baseline_write_register(&mut execution.registers, window, register, value) {
        Ok(()) => Ok(BaselineInstructionOutcome::Continue),
        Err(error) => Err(register_write_abort(error, site, register)),
    }
}

pub open spec fn spec_int32_operand_or_fallback(
    slots: Seq<RuntimeValue>,
    code_block: CodeBlock,
    window: RegisterWindow,
    instruction: TypedInstruction,
    index: int,
    site: BaselineGeneratedFallbackSite,
) -> Result<i32, BaselineInstructionAbort> {
    match spec_register_operand_or_fallback(instruction, index, site) {
        Err(abort) => Err(abort),
        Ok(register) => match spec_read_register_or_outcome(slots, code_block, window, register, site) {
            Err(abort) => Err(abort),
            Ok(RuntimeValue::Int32(value)) => Ok(value),
            Ok(_) => Err(
                BaselineInstructionAbort::Fallback(
                    spec_with_cause(
                        site,
                        BaselineGeneratedFallbackCause::NonInt32Operand { operand_index: index as u32, register },
                    ),
                ),
            ),
        },
    }
}

pub fn int32_operand_or_fallback(
    execution: &InterpreterExecutionState,
    code_block: &CodeBlock,
    window: RegisterWindow,
    instruction: &TypedInstruction,
    index: usize,
    site: BaselineGeneratedFallbackSite,
) -> (r: Result<i32, BaselineInstructionAbort>)
    ensures
        r == spec_int32_operand_or_fallback(
            execution.registers.slots@,
            *code_block,
            window,
            *instruction,
            index as int,
            site,
        ),
{
    let register = register_operand_or_fallback(instruction, index, site)?;
    let value = read_register_or_outcome(execution, code_block, window, register, site)?;
    match value.as_number() {
        Some(NumberValue::Int32(value)) => Ok(value),
        _ => Err(
            BaselineInstructionAbort::Fallback(
                site.with_cause(
                    BaselineGeneratedFallbackCause::NonInt32Operand {
                        operand_index: index as u32,
                        register,
                    },
                ),
            ),
        ),
    }
}

pub open spec fn spec_number_operand_or_fallback(
    slots: Seq<RuntimeValue>,
    code_block: CodeBlock,
    window: RegisterWindow,
    instruction: TypedInstruction,
    index: int,
    site: BaselineGeneratedFallbackSite,
) -> Result<NumberValue, BaselineInstructionAbort> {
    match spec_register_operand_or_fallback(instruction, index, site) {
        Err(abort) => Err(abort),
        Ok(register) => match spec_read_register_or_outcome(slots, code_block, window, register, site) {
            Err(abort) => Err(abort),
            Ok(value) => match spec_as_number(value) {
                Some(number) => Ok(number),
                None => Err(
                    BaselineInstructionAbort::Fallback(
                        spec_with_cause(
                            site,
                            BaselineGeneratedFallbackCause::NonNumberOperand {
                                operand_index: index as u32,
                                register,
                                value_kind: spec_value_kind(value),
                            },
                        ),
                    ),
                ),
            },
        },
    }
}

pub fn number_operand_or_fallback(
    execution: &InterpreterExecutionState,
    code_block: &CodeBlock,
    window: RegisterWindow,
    instruction: &TypedInstruction,
    index: usize,
    site: BaselineGeneratedFallbackSite,
) -> (r: Result<NumberValue, BaselineInstructionAbort>)
    ensures
        r == spec_number_operand_or_fallback(
            execution.registers.slots@,
            *code_block,
            window,
            *instruction,
            index as int,
            site,
        ),
{
    let register = register_operand_or_fallback(instruction, index, site)?;
    let value = read_register_or_outcome(execution, code_block, window, register, site)?;
    match value.as_number() {
        Some(number) => Ok(number),
        None => Err(
            BaselineInstructionAbort::Fallback(
                site.with_cause(
                    BaselineGeneratedFallbackCause::NonNumberOperand {
                        operand_index: index as u32,
                        register,
                        value_kind: value.kind(),
                    },
                ),
            ),
        ),
    }
}

/// An operand read for a numeric opcode, with the register it came from.
#[derive(Clone, Copy, Debug, PartialEq, Eq, Structural)]
pub struct PrimitiveNumericOperand {
    pub register: VirtualRegister,
    pub value: RuntimeValue,
}

/// ToNumber on the primitives generated code converts itself: a boolean gives 0 or 1,
/// null gives 0 and undefined gives NaN; cells and unknown encodings are refused.
pub open spec fn spec_primitive_to_number(value: RuntimeValue) -> Option<RuntimeValue> {
    match value {
        RuntimeValue::Int32(_) | RuntimeValue::Double(_) => Some(value),
        RuntimeValue::Boolean(b) => Some(RuntimeValue::Int32(if b { 1 } else { 0 })),
        RuntimeValue::Null => Some(RuntimeValue::Int32(0)),
        RuntimeValue::Undefined => Some(RuntimeValue::Double(crate::double::DOUBLE_NAN_BITS)),
        RuntimeValue::Cell(_) | RuntimeValue::Unknown(_) => None,
    }
}

pub open spec fn spec_primitive_numeric_operand_or_fallback(
    slots: Seq<RuntimeValue>,
    code_block: CodeBlock,
    window: RegisterWindow,
    instruction: TypedInstruction,
    index: int,
    site: BaselineGeneratedFallbackSite,
) -> Result<PrimitiveNumericOperand, BaselineInstructionAbort> {
    match spec_register_operand_or_fallback(instruction, index, site) {
        Err(abort) => Err(abort),
        Ok(register) => match spec_read_register_or_outcome(slots, code_block, window, register, site) {
            Err(abort) => Err(abort),
            Ok(value) => match spec_primitive_to_number(value) {
                Some(converted) => Ok(PrimitiveNumericOperand { register, value: converted }),
                None => Err(
                    BaselineInstructionAbort::Fallback(
                        spec_with_cause(
                            site,
                            BaselineGeneratedFallbackCause::UnsupportedPrimitiveNumericCoercionOperand {
                                operand_index: index as u32,
                                register,
                                value_kind: spec_value_kind(value),
                            },
                        ),
                    ),
                ),
            },
        },
    }
}

pub fn primitive_numeric_operand_or_fallback(
    execution: &InterpreterExecutionState,
    code_block: &CodeBlock,
    window: RegisterWindow,
    instruction: &TypedInstruction,
    index: usize,
    site: BaselineGeneratedFallbackSite,
) -> (r: Result<PrimitiveNumericOperand, BaselineInstructionAbort>)
    ensures
        r == spec_primitive_numeric_operand_or_fallback(
            execution.registers.slots@,
            *code_block,
            window,
            *instruction,
            index as int,
            site,
        ),
{
    let register = register_operand_or_fallback(instruction, index, site)?;
    let value = read_register_or_outcome(execution, code_block, window, register, site)?;
    let converted = match value {
        RuntimeValue::Int32(_) | RuntimeValue::Double(_) => value,
        RuntimeValue::Boolean(b) => RuntimeValue::Int32(if b { 1 } else { 0 }),
        RuntimeValue::Null => RuntimeValue::Int32(0),
        RuntimeValue::Undefined => RuntimeValue::Double(crate::double::DOUBLE_NAN_BITS),
        RuntimeValue::Cell(_) | RuntimeValue::Unknown(_) => {
            return Err(
                BaselineInstructionAbort::Fallback(
                    site.with_cause(
                        BaselineGeneratedFallbackCause::UnsupportedPrimitiveNumericCoercionOperand {
                            operand_index: index as u32,
                            register,
                            value_kind: value.kind(),
                        },
                    ),
                ),
            );
        },
    };
    Ok(PrimitiveNumericOperand { register, value: converted })
}

} // verus!
