//! How generated code leaves: fallbacks to the interpreter, and the handoffs for
//! runtime helpers, JavaScript calls and property accesses.
use vstd::prelude::*;
use crate::bytecode::{
    BytecodeIndex, CodeBlock, CoreOpcode, Opcode, OperandAccessError, TypedInstruction,
    VirtualRegister, spec_bytecode_index_is_valid, spec_register_operand,
    spec_unsigned_immediate_operand,
};
use crate::plan::JitPlanValidationError;
use crate::runtime::{
    BaselineFallbackRequest, CallFrameId, CallReturnContinuation, CallReturnContinuationRequest,
    CallReturnKind, CodeBlockId, ExecutionError, ExecutionView, InterpreterExecutionState, ObjectId,
    RegisterWindow, baseline_read_register, caller_continuation_check, create_call_return_continuation,
    object_id_for_runtime_value, spec_call_return_kind, spec_caller_continuation_check,
    spec_create_call_return_continuation, spec_execution_view, spec_object_id_for_runtime_value,
    spec_read_register,
};
use crate::sites::{
    BaselineGeneratedOwnerContinuationSite, BaselineGeneratedPropertyHandoffSite,
    BaselineGeneratedRuntimeBoundaryProof, BytecodeRootMapId, CompilerSafepointId,
    InlineCacheFallbackSemantics, InlineCacheKind, next_decoded_bytecode_index,
    property_cache_kind, spec_is_property_opcode, spec_next_decoded_bytecode_index,
    spec_property_cache_kind, spec_saturating_increment, saturating_increment,
    spec_validate_property_site_metadata, validate_baseline_generated_property_handoff_site_metadata,
};
use crate::value::{RuntimeValue, ValueKind};

use crate::ic::{GeneratedCallLinkCandidate, GeneratedCallLinkDirectCall};

verus! {

/// The opcode a fallback reports: a core opcode, or one outside the core set.
#[derive(Clone, Copy, Debug, PartialEq, Eq, Structural)]
pub enum BaselineGeneratedFallbackOpcode {
    Core(CoreOpcode),
    NonCore(Opcode),
}

/// A register error that generated code answers with a fallback.
#[derive(Clone, Copy, Debug, PartialEq, Eq, Structural)]
pub enum BaselineGeneratedRegisterFallbackCause {
    InvalidRegister,
    CannotWriteConstant,
    CannotAddressHeaderAsValue,
    MissingConstantPool,
    DeferredConstant,
    RegisterOutOfBounds,
}

/// Why generated code gave an instruction back to the interpreter.
#[derive(Clone, Copy, Debug, PartialEq, Eq, Structural)]
pub enum BaselineGeneratedFallbackCause {
    UnsupportedOpcode,
    NonInt32Operand { operand_index: u32, register: VirtualRegister },
    NonNumberOperand { operand_index: u32, register: VirtualRegister, value_kind: ValueKind },
    UnsupportedPrimitiveNumericCoercionOperand {
        operand_index: u32,
        register: VirtualRegister,
        value_kind: ValueKind,
    },
    UnsupportedTruthinessOperand { operand_index: u32, register: VirtualRegister, value_kind: ValueKind },
    UnsupportedStrictEqualityOperand {
        operand_index: u32,
        register: VirtualRegister,
        value_kind: ValueKind,
    },
    Int32Overflow,
    OperandAccess { error: OperandAccessError },
    BadImmediate { operand_index: u32, error: OperandAccessError },
    RegisterRead { register: VirtualRegister, error: BaselineGeneratedRegisterFallbackCause },
    RegisterWrite { register: VirtualRegister, error: BaselineGeneratedRegisterFallbackCause },
    BadReturnRegister { register: VirtualRegister, error: BaselineGeneratedRegisterFallbackCause },
}

#[derive(Clone, Copy, Debug, PartialEq, Eq, Structural)]
pub struct BaselineGeneratedFallbackReason {
    pub bytecode_index: BytecodeIndex,
    pub opcode: BaselineGeneratedFallbackOpcode,
    pub cause: BaselineGeneratedFallbackCause,
}

/// A fallback: where the interpreter resumes, and why.
#[derive(Clone, Copy, Debug, PartialEq, Eq, Structural)]
pub struct BaselineGeneratedFallback {
    pub request: BaselineFallbackRequest,
    pub reason: BaselineGeneratedFallbackReason,
}

/// Everything a fallback at one instruction carries except its cause.
#[derive(Clone, Copy, Debug, PartialEq, Eq, Structural)]
pub struct BaselineGeneratedFallbackSite {
    pub request: BaselineFallbackRequest,
    pub bytecode_index: BytecodeIndex,
    pub opcode: BaselineGeneratedFallbackOpcode,
}

pub open spec fn spec_with_cause(
    site: BaselineGeneratedFallbackSite,
    cause: BaselineGeneratedFallbackCause,
) -> BaselineGeneratedFallback {
    BaselineGeneratedFallback {
        request: site.request,
        reason: BaselineGeneratedFallbackReason {
            bytecode_index: site.bytecode_index,
            opcode: site.opcode,
            cause,
        },
    }
}

impl BaselineGeneratedFallbackSite {
    pub fn with_cause(self, cause: BaselineGeneratedFallbackCause) -> (r: BaselineGeneratedFallback)
        ensures
            r == spec_with_cause(self, cause),
    {
        BaselineGeneratedFallback {
            request: self.request,
            reason: BaselineGeneratedFallbackReason {
                bytecode_index: self.bytecode_index,
                opcode: self.opcode,
                cause,
            },
        }
    }
}

pub open spec fn spec_fallback_opcode(opcode: Opcode) -> BaselineGeneratedFallbackOpcode {
    match opcode {
        Opcode::Core(core) => BaselineGeneratedFallbackOpcode::Core(core),
        Opcode::Generated(_) => BaselineGeneratedFallbackOpcode::NonCore(opcode),
    }
}

pub fn fallback_opcode(opcode: Opcode) -> (r: BaselineGeneratedFallbackOpcode)
    ensures
        r == spec_fallback_opcode(opcode),
{
    match CoreOpcode::from_opcode(opcode) {
        Some(core) => BaselineGeneratedFallbackOpcode::Core(core),
        None => BaselineGeneratedFallbackOpcode::NonCore(opcode),
    }
}

pub fn fallback_request(code_block: CodeBlockId, frame: CallFrameId, bytecode_index: BytecodeIndex) -> (r:
    BaselineFallbackRequest)
    ensures
        r == (BaselineFallbackRequest { code_block, frame, bytecode_index }),
{
    BaselineFallbackRequest::new(code_block, frame, bytecode_index)
}

/// The fallback site of an instruction: the interpreter resumes at that very instruction.
pub open spec fn spec_fallback_site(
    code_block: CodeBlockId,
    frame: CallFrameId,
    instruction: TypedInstruction,
) -> BaselineGeneratedFallbackSite {
    BaselineGeneratedFallbackSite {
        request: BaselineFallbackRequest {
            code_block,
            frame,
            bytecode_index: instruction.bytecode_index,
        },
        bytecode_index: instruction.bytecode_index,
        opcode: spec_fallback_opcode(instruction.opcode),
    }
}

pub fn fallback_site(code_block: CodeBlockId, frame: CallFrameId, instruction: &TypedInstruction) -> (r:
    BaselineGeneratedFallbackSite)
    ensures
        r == spec_fallback_site(code_block, frame, *instruction),
{
    let bytecode_index = instruction.bytecode_index;
    BaselineGeneratedFallbackSite {
        request: fallback_request(code_block, frame, bytecode_index),
        bytecode_index,
        opcode: fallback_opcode(instruction.opcode),
    }
}

/// Where generated code resumes after a runtime helper.
#[derive(Clone, Copy, Debug, PartialEq, Eq, Structural)]
pub struct BaselineGeneratedRuntimeHelperResume {
    pub owner: CodeBlockId,
    pub frame: CallFrameId,
    pub bytecode_index: BytecodeIndex,
    pub opcode: CoreOpcode,
}

/// A crossing into a runtime helper, with the safepoint and roots it publishes.
#[derive(Clone, Copy, Debug, PartialEq, Eq, Structural)]
pub struct BaselineGeneratedRuntimeHelperHandoff {
    pub resume: BaselineGeneratedRuntimeHelperResume,
    pub safepoint: CompilerSafepointId,
    pub root_map: BytecodeRootMapId,
    pub root_count: usize,
    pub requires_no_gc_exit_reentry: bool,
    pub may_throw: bool,
}

#[derive(Clone, Copy, Debug, PartialEq, Eq, Structural)]
pub enum BaselineGeneratedRuntimeHelperHandoffError {
    NonCoreOpcode { opcode: Opcode },
    InvalidBytecodeIndex { bytecode_index: BytecodeIndex },
    OpcodeMismatch { instruction: CoreOpcode, proof: CoreOpcode },
    MissingNoGcExitReentry { opcode: CoreOpcode },
    MissingCompleteSafepointRootMap { opcode: CoreOpcode },
    MissingRootMap { opcode: CoreOpcode, safepoint: CompilerSafepointId },
    ContractDoesNotCallRuntimeHelper { opcode: CoreOpcode },
    ContractDoesNotTouchGcRoots { opcode: CoreOpcode },
    MayThrowMismatch { opcode: CoreOpcode, proof_may_throw: bool, contract_may_throw: bool },
}

/// The runtime-helper handoff of an instruction under a proof; the checks come in a
/// fixed order and the first that fails is reported.
pub open spec fn spec_runtime_helper_handoff(
    owner: CodeBlockId,
    frame: CallFrameId,
    instruction: TypedInstruction,
    proof: BaselineGeneratedRuntimeBoundaryProof,
) -> Result<BaselineGeneratedRuntimeHelperHandoff, BaselineGeneratedRuntimeHelperHandoffError> {
    match instruction.opcode {
        Opcode::Generated(_) => Err(
            BaselineGeneratedRuntimeHelperHandoffError::NonCoreOpcode { opcode: instruction.opcode },
        ),
        Opcode::Core(opcode) => {
            let bytecode_index = instruction.bytecode_index;
            if !spec_bytecode_index_is_valid(bytecode_index) {
                Err(BaselineGeneratedRuntimeHelperHandoffError::InvalidBytecodeIndex { bytecode_index })
            } else if proof.contract.opcode != opcode {
                Err(
                    BaselineGeneratedRuntimeHelperHandoffError::OpcodeMismatch {
                        instruction: opcode,
                        proof: proof.contract.opcode,
                    },
                )
            } else if !proof.contract.effects.calls_runtime_helper {
                Err(BaselineGeneratedRuntimeHelperHandoffError::ContractDoesNotCallRuntimeHelper { opcode })
            } else if !proof.contract.effects.touches_gc_roots {
                Err(BaselineGeneratedRuntimeHelperHandoffError::ContractDoesNotTouchGcRoots { opcode })
            } else if proof.may_throw != proof.contract.effects.may_throw {
                Err(
                    BaselineGeneratedRuntimeHelperHandoffError::MayThrowMismatch {
                        opcode,
                        proof_may_throw: proof.may_throw,
                        contract_may_throw: proof.contract.effects.may_throw,
                    },
                )
            } else if !proof.contract.requirements.no_gc_exit_reentry || !proof.no_gc_exit_reentry {
                Err(BaselineGeneratedRuntimeHelperHandoffError::MissingNoGcExitReentry { opcode })
            } else if !proof.contract.requirements.complete_safepoint_root_map {
                Err(BaselineGeneratedRuntimeHelperHandoffError::MissingCompleteSafepointRootMap { opcode })
            } else {
                match proof.root_map {
                    None => Err(
                        BaselineGeneratedRuntimeHelperHandoffError::MissingRootMap {
                            opcode,
                            safepoint: proof.safepoint,
                        },
                    ),
                    Some(root_map) => Ok(
                        BaselineGeneratedRuntimeHelperHandoff {
                            resume: BaselineGeneratedRuntimeHelperResume {
                                owner,
                                frame,
                                bytecode_index,
                                opcode,
                            },
                            safepoint: proof.safepoint,
                            root_map,
                            root_count: proof.root_count,
                            requires_no_gc_exit_reentry: proof.no_gc_exit_reentry,
                            may_throw: proof.may_throw,
                        },
                    ),
                }
            }
        },
    }
}

pub fn baseline_generated_runtime_helper_handoff(
    owner: CodeBlockId,
    frame: CallFrameId,
    instruction: &TypedInstruction,
    proof: &BaselineGeneratedRuntimeBoundaryProof,
) -> (r: Result<BaselineGeneratedRuntimeHelperHandoff, BaselineGeneratedRuntimeHelperHandoffError>)
    ensures
        r == spec_runtime_helper_handoff(owner, frame, *instruction, *proof),
{
    let opcode = match CoreOpcode::from_opcode(instruction.opcode) {
        Some(opcode) => opcode,
        None => {
            return Err(
                BaselineGeneratedRuntimeHelperHandoffError::NonCoreOpcode { opcode: instruction.opcode },
            );
        },
    };
    let bytecode_index = instruction.bytecode_index;
    if !bytecode_index.is_valid() {
        return Err(BaselineGeneratedRuntimeHelperHandoffError::InvalidBytecodeIndex { bytecode_index });
    }
    if proof.contract.opcode != opcode {
        return Err(
            BaselineGeneratedRuntimeHelperHandoffError::OpcodeMismatch {
                instruction: opcode,
                proof: proof.contract.opcode,
            },
        );
    }
    if !proof.contract.effects.calls_runtime_helper {
        return Err(BaselineGeneratedRuntimeHelperHandoffError::ContractDoesNotCallRuntimeHelper { opcode });
    }
    if !proof.contract.effects.touches_gc_roots {
        return Err(BaselineGeneratedRuntimeHelperHandoffError::ContractDoesNotTouchGcRoots { opcode });
    }
    if proof.may_throw != proof.contract.effects.may_throw {
        return Err(
            BaselineGeneratedRuntimeHelperHandoffError::MayThrowMismatch {
                opcode,
                proof_may_throw: proof.may_throw,
                contract_may_throw: proof.contract.effects.may_throw,
            },
        );
    }
    if !proof.contract.requirements.no_gc_exit_reentry || !proof.no_gc_exit_reentry {
        return Err(BaselineGeneratedRuntimeHelperHandoffError::MissingNoGcExitReentry { opcode });
    }
    if !proof.contract.requirements.complete_safepoint_root_map {
        return Err(BaselineGeneratedRuntimeHelperHandoffError::MissingCompleteSafepointRootMap { opcode });
    }
    let root_map = match proof.root_map {
        Some(root_map) => root_map,
        None => {
            return Err(
                BaselineGeneratedRuntimeHelperHandoffError::MissingRootMap {
                    opcode,
                    safepoint: proof.safepoint,
                },
            );
        },
    };
    Ok(
        BaselineGeneratedRuntimeHelperHandoff {
            resume: BaselineGeneratedRuntimeHelperResume { owner, frame, bytecode_index, opcode },
            safepoint: proof.safepoint,
            root_map,
            root_count: proof.root_count,
            requires_no_gc_exit_reentry: proof.no_gc_exit_reentry,
            may_throw: proof.may_throw,
        },
    )
}


/// Where the owner resumes after the JavaScript call generated code handed off.
#[derive(Clone, Copy, Debug, PartialEq, Eq, Structural)]
pub struct BaselineGeneratedJsCallResume {
    pub owner: CodeBlockId,
    pub frame: CallFrameId,
    pub bytecode_index: BytecodeIndex,
    pub opcode: CoreOpcode,
}

/// How the caller resumes after a `construct` returns.
#[derive(Clone, Copy, Debug, PartialEq, Eq, Structural)]
pub struct BaselineGeneratedJsConstructContinuation {
    pub caller_frame: CallFrameId,
    pub caller_window: RegisterWindow,
    pub owner: CodeBlockId,
    pub construct_bytecode_index: BytecodeIndex,
    pub resume_bytecode_index: Option<BytecodeIndex>,
    pub destination: VirtualRegister,
    pub argument_count_including_this: u32,
    pub callee_value: RuntimeValue,
    pub callee_object: Option<ObjectId>,
}

#[derive(Clone, Copy, Debug, PartialEq, Eq, Structural)]
pub enum BaselineGeneratedJsCallHandoffContinuation {
    Call(CallReturnContinuation),
    Construct(BaselineGeneratedJsConstructContinuation),
}

pub open spec fn spec_continuation_destination(continuation: BaselineGeneratedJsCallHandoffContinuation) -> VirtualRegister {
    match continuation {
        BaselineGeneratedJsCallHandoffContinuation::Call(c) => c.destination,
        BaselineGeneratedJsCallHandoffContinuation::Construct(c) => c.destination,
    }
}

pub open spec fn spec_continuation_resume_bytecode_index(
    continuation: BaselineGeneratedJsCallHandoffContinuation,
) -> Option<BytecodeIndex> {
    match continuation {
        BaselineGeneratedJsCallHandoffContinuation::Call(c) => c.resume_bytecode_index,
        BaselineGeneratedJsCallHandoffContinuation::Construct(c) => c.resume_bytecode_index,
    }
}

pub open spec fn spec_continuation_argument_count(continuation: BaselineGeneratedJsCallHandoffContinuation) -> u32 {
    match continuation {
        BaselineGeneratedJsCallHandoffContinuation::Call(c) => c.argument_count_including_this,
        BaselineGeneratedJsCallHandoffContinuation::Construct(c) => c.argument_count_including_this,
    }
}

impl BaselineGeneratedJsCallHandoffContinuation {
    pub fn as_call(&self) -> (r: Option<&CallReturnContinuation>)
        ensures
            match *self {
                BaselineGeneratedJsCallHandoffContinuation::Call(c) => r == Some(&c),
                BaselineGeneratedJsCallHandoffContinuation::Construct(_) => r is None,
            },
    {
        match self {
            BaselineGeneratedJsCallHandoffContinuation::Call(c) => Some(c),
            BaselineGeneratedJsCallHandoffContinuation::Construct(_) => None,
        }
    }

    pub fn as_construct(&self) -> (r: Option<&BaselineGeneratedJsConstructContinuation>)
        ensures
            match *self {
                BaselineGeneratedJsCallHandoffContinuation::Call(_) => r is None,
                BaselineGeneratedJsCallHandoffContinuation::Construct(c) => r == Some(&c),
            },
    {
        match self {
            BaselineGeneratedJsCallHandoffContinuation::Call(_) => None,
            BaselineGeneratedJsCallHandoffContinuation::Construct(c) => Some(c),
        }
    }

    pub fn destination(&self) -> (r: VirtualRegister)
        ensures
            r == spec_continuation_destination(*self),
    {
        match self {
            BaselineGeneratedJsCallHandoffContinuation::Call(c) => c.destination,
            BaselineGeneratedJsCallHandoffContinuation::Construct(c) => c.destination,
        }
    }

    pub fn resume_bytecode_index(&self) -> (r: Option<BytecodeIndex>)
        ensures
            r == spec_continuation_resume_bytecode_index(*self),
    {
        match self {
            BaselineGeneratedJsCallHandoffContinuation::Call(c) => c.resume_bytecode_index,
            BaselineGeneratedJsCallHandoffContinuation::Construct(c) => c.resume_bytecode_index,
        }
    }

    pub fn argument_count_including_this(&self) -> (r: u32)
        ensures
            r == spec_continuation_argument_count(*self),
    {
        match self {
            BaselineGeneratedJsCallHandoffContinuation::Call(c) => c.argument_count_including_this,
            BaselineGeneratedJsCallHandoffContinuation::Construct(c) => c.argument_count_including_this,
        }
    }
}

/// A call that a linked call site may make directly into its target's code: the linked
/// candidate, the host's leave to do so, and the values of the call.
#[derive(Clone, Copy, Debug, PartialEq, Eq, Structural)]
pub struct BaselineGeneratedJsDirectCall {
    pub candidate: GeneratedCallLinkCandidate,
    pub authorization: GeneratedCallLinkDirectCall,
    pub callee_value: RuntimeValue,
    pub callee_object: ObjectId,
    pub this_value: RuntimeValue,
    pub this_object: Option<ObjectId>,
    pub argument_count_including_this: u32,
}

/// A direct call that is already known to succeed for one callee and argument count.
#[derive(Clone, Copy, Debug, PartialEq, Eq, Structural)]
pub struct BaselineGeneratedJsDirectCallHotSlot {
    pub candidate: GeneratedCallLinkCandidate,
    pub authorization: GeneratedCallLinkDirectCall,
    pub callee_object: ObjectId,
    pub argument_count_including_this: u32,
}

/// A JavaScript call handed to the interpreter, with how the owner resumes.
#[derive(Clone, Copy, Debug, PartialEq, Eq, Structural)]
pub struct BaselineGeneratedJsCallHandoff {
    pub resume: BaselineGeneratedJsCallResume,
    pub continuation: BaselineGeneratedJsCallHandoffContinuation,
    pub owner_continuation: Option<BaselineGeneratedOwnerContinuationSite>,
    pub direct_call: Option<BaselineGeneratedJsDirectCall>,
    pub requires_no_gc_exit_reentry: bool,
    pub may_throw: bool,
}

#[derive(Clone, Copy, Debug, PartialEq, Eq, Structural)]
pub enum BaselineGeneratedJsCallHandoffError {
    NonCoreOpcode { opcode: Opcode },
    InvalidBytecodeIndex { bytecode_index: BytecodeIndex },
    UnsupportedOpcode { opcode: CoreOpcode },
    OperandAccess { error: OperandAccessError },
    RegisterRead { error: ExecutionError },
    Continuation { error: ExecutionError },
}

pub open spec fn spec_construct_continuation(
    owner: CodeBlockId,
    frame: CallFrameId,
    window: RegisterWindow,
    construct_bytecode_index: BytecodeIndex,
    resume_bytecode_index: Option<BytecodeIndex>,
    destination: VirtualRegister,
    argument_count_including_this: u32,
    callee_value: RuntimeValue,
    execution: ExecutionView,
) -> Result<BaselineGeneratedJsConstructContinuation, ExecutionError> {
    match spec_caller_continuation_check(
        execution,
        frame,
        owner,
        window,
        argument_count_including_this,
        destination,
    ) {
        Err(error) => Err(error),
        Ok(()) => Ok(
            BaselineGeneratedJsConstructContinuation {
                caller_frame: frame,
                caller_window: window,
                owner,
                construct_bytecode_index,
                resume_bytecode_index,
                destination,
                argument_count_including_this,
                callee_value,
                callee_object: spec_object_id_for_runtime_value(execution, callee_value),
            },
        ),
    }
}

/// Makes the continuation through which a `construct` returns to the active caller frame.
pub fn create_generated_js_construct_continuation(
    owner: CodeBlockId,
    frame: CallFrameId,
    window: RegisterWindow,
    construct_bytecode_index: BytecodeIndex,
    resume_bytecode_index: Option<BytecodeIndex>,
    destination: VirtualRegister,
    argument_count_including_this: u32,
    callee_value: RuntimeValue,
    execution: &InterpreterExecutionState,
) -> (r: Result<BaselineGeneratedJsConstructContinuation, ExecutionError>)
    ensures
        r == spec_construct_continuation(
            owner,
            frame,
            window,
            construct_bytecode_index,
            resume_bytecode_index,
            destination,
            argument_count_including_this,
            callee_value,
            spec_execution_view(*execution),
        ),
{
    caller_continuation_check(execution, frame, owner, window, argument_count_including_this, destination)?;
    let callee_object = object_id_for_runtime_value(execution, callee_value);
    Ok(
        BaselineGeneratedJsConstructContinuation {
            caller_frame: frame,
            caller_window: window,
            owner,
            construct_bytecode_index,
            resume_bytecode_index,
            destination,
            argument_count_including_this,
            callee_value,
            callee_object,
        },
    )
}

/// The operand that carries the provided argument count of a call instruction.
pub open spec fn spec_js_call_argument_count_operand(opcode: CoreOpcode) -> int {
    if opcode == CoreOpcode::CallWithThis {
        3
    } else {
        2
    }
}

/// The continuation part of a JavaScript call handoff, once the operands are read.
pub open spec fn spec_js_call_continuation(
    owner: CodeBlockId,
    frame: CallFrameId,
    window: RegisterWindow,
    execution: ExecutionView,
    opcode: CoreOpcode,
    bytecode_index: BytecodeIndex,
    resume_bytecode_index: Option<BytecodeIndex>,
    destination: VirtualRegister,
    argument_count_including_this: u32,
    callee_value: RuntimeValue,
) -> Result<BaselineGeneratedJsCallHandoffContinuation, BaselineGeneratedJsCallHandoffError> {
    if opcode == CoreOpcode::Construct {
        match spec_construct_continuation(
            owner,
            frame,
            window,
            bytecode_index,
            resume_bytecode_index,
            destination,
            argument_count_including_this,
            callee_value,
            execution,
        ) {
            Err(error) => Err(BaselineGeneratedJsCallHandoffError::Continuation { error }),
            Ok(c) => Ok(BaselineGeneratedJsCallHandoffContinuation::Construct(c)),
        }
    } else {
        match spec_call_return_kind(opcode) {
            None => Err(BaselineGeneratedJsCallHandoffError::UnsupportedOpcode { opcode }),
            Some(kind) => match spec_create_call_return_continuation(
                execution,
                CallReturnContinuationRequest {
                    caller_frame: frame,
                    caller_window: window,
                    owner,
                    call_bytecode_index: bytecode_index,
                    resume_bytecode_index,
                    destination,
                    argument_count_including_this,
                    callee_value: Some(callee_value),
                    kind,
                },
            ) {
                Err(error) => Err(BaselineGeneratedJsCallHandoffError::Continuation { error }),
                Ok(c) => Ok(BaselineGeneratedJsCallHandoffContinuation::Call(c)),
            },
        }
    }
}

/// The handoff of a `call`, `call with this` or `construct` instruction: its destination
/// and callee, the argument count it provides plus `this`, and where the owner resumes.
pub open spec fn spec_js_call_handoff(
    owner: CodeBlockId,
    frame: CallFrameId,
    window: RegisterWindow,
    code_block: CodeBlock,
    execution: ExecutionView,
    instruction: TypedInstruction,
) -> Result<BaselineGeneratedJsCallHandoff, BaselineGeneratedJsCallHandoffError> {
    match instruction.opcode {
        Opcode::Generated(_) => Err(
            BaselineGeneratedJsCallHandoffError::NonCoreOpcode { opcode: instruction.opcode },
        ),
        Opcode::Core(opcode) => {
            let bytecode_index = instruction.bytecode_index;
            if !spec_bytecode_index_is_valid(bytecode_index) {
                Err(BaselineGeneratedJsCallHandoffError::InvalidBytecodeIndex { bytecode_index })
            } else if !(opcode == CoreOpcode::Call || opcode == CoreOpcode::CallWithThis || opcode
                == CoreOpcode::Construct) {
                Err(BaselineGeneratedJsCallHandoffError::UnsupportedOpcode { opcode })
            } else {
                match spec_register_operand(instruction, 0) {
                    Err(error) => Err(BaselineGeneratedJsCallHandoffError::OperandAccess { error }),
                    Ok(destination) => match spec_register_operand(instruction, 1) {
                        Err(error) => Err(BaselineGeneratedJsCallHandoffError::OperandAccess { error }),
                        Ok(callee_register) => match spec_read_register(
                            execution.slots,
                            code_block,
                            window,
                            callee_register,
                        ) {
                            Err(error) => Err(BaselineGeneratedJsCallHandoffError::RegisterRead { error }),
                            Ok(callee_value) => match spec_unsigned_immediate_operand(
                                instruction,
                                spec_js_call_argument_count_operand(opcode),
                            ) {
                                Err(error) => Err(BaselineGeneratedJsCallHandoffError::OperandAccess { error }),
                                Ok(provided) => match spec_next_decoded_bytecode_index(
                                    code_block,
                                    bytecode_index,
                                ) {
                                    Err(error) => Err(
                                        BaselineGeneratedJsCallHandoffError::Continuation { error },
                                    ),
                                    Ok(resume_bytecode_index) => match spec_js_call_continuation(
                                        owner,
                                        frame,
                                        window,
                                        execution,
                                        opcode,
                                        bytecode_index,
                                        resume_bytecode_index,
                                        destination,
                                        spec_saturating_increment(provided),
                                        callee_value,
                                    ) {
                                        Err(error) => Err(error),
                                        Ok(continuation) => Ok(
                                            BaselineGeneratedJsCallHandoff {
                                                resume: BaselineGeneratedJsCallResume {
                                                    owner,
                                                    frame,
                                                    bytecode_index,
                                                    opcode,
                                                },
                                                continuation,
                                                owner_continuation: None,
                                                direct_call: None,
                                                requires_no_gc_exit_reentry: true,
                                                may_throw: true,
                                            },
                                        ),
                                    },
                                },
                            },
                        },
                    },
                }
            }
        },
    }
}

pub fn baseline_generated_js_call_handoff(
    owner: CodeBlockId,
    frame: CallFrameId,
    window: RegisterWindow,
    code_block: &CodeBlock,
    execution: &InterpreterExecutionState,
    instruction: &TypedInstruction,
) -> (r: Result<BaselineGeneratedJsCallHandoff, BaselineGeneratedJsCallHandoffError>)
    ensures
        r == spec_js_call_handoff(owner, frame, window, *code_block, spec_execution_view(*execution), *instruction),
{
    let opcode = match CoreOpcode::from_opcode(instruction.opcode) {
        Some(opcode) => opcode,
        None => {
            return Err(BaselineGeneratedJsCallHandoffError::NonCoreOpcode { opcode: instruction.opcode });
        },
    };
    let bytecode_index = instruction.bytecode_index;
    if !bytecode_index.is_valid() {
        return Err(BaselineGeneratedJsCallHandoffError::InvalidBytecodeIndex { bytecode_index });
    }
    if !(opcode == CoreOpcode::Call || opcode == CoreOpcode::CallWithThis || opcode == CoreOpcode::Construct) {
        return Err(BaselineGeneratedJsCallHandoffError::UnsupportedOpcode { opcode });
    }
    let destination = match instruction.register_operand(0) {
        Ok(register) => register,
        Err(error) => {
            return Err(BaselineGeneratedJsCallHandoffError::OperandAccess { error });
        },
    };
    let callee_register = match instruction.register_operand(1) {
        Ok(register) => register,
        Err(error) => {
            return Err(BaselineGeneratedJsCallHandoffError::OperandAccess { error });
        },
    };
    let callee_value = match baseline_read_register(&execution.registers, code_block, window, callee_register) {
        Ok(value) => value,
        Err(error) => {
            return Err(BaselineGeneratedJsCallHandoffError::RegisterRead { error });
        },
    };
    let count_operand: usize = if opcode == CoreOpcode::CallWithThis { 3 } else { 2 };
    let provided = match instruction.unsigned_immediate_operand(count_operand) {
        Ok(value) => value,
        Err(error) => {
            return Err(BaselineGeneratedJsCallHandoffError::OperandAccess { error });
        },
    };
    let resume_bytecode_index = match next_decoded_bytecode_index(code_block, bytecode_index) {
        Ok(resume) => resume,
        Err(error) => {
            return Err(BaselineGeneratedJsCallHandoffError::Continuation { error });
        },
    };
    let argument_count_including_this = saturating_increment(provided);
    let continuation = if opcode == CoreOpcode::Construct {
        match create_generated_js_construct_continuation(
            owner,
            frame,
            window,
            bytecode_index,
            resume_bytecode_index,
            destination,
            argument_count_including_this,
            callee_value,
            execution,
        ) {
            Err(error) => {
                return Err(BaselineGeneratedJsCallHandoffError::Continuation { error });
            },
            Ok(c) => BaselineGeneratedJsCallHandoffContinuation::Construct(c),
        }
    } else {
        let kind = match CallReturnKind::from_opcode(opcode) {
            Some(kind) => kind,
            None => {
                return Err(BaselineGeneratedJsCallHandoffError::UnsupportedOpcode { opcode });
            },
        };
        match create_call_return_continuation(
            execution,
            CallReturnContinuationRequest {
                caller_frame: frame,
                caller_window: window,
                owner,
                call_bytecode_index: bytecode_index,
                resume_bytecode_index,
                destination,
                argument_count_including_this,
                callee_value: Some(callee_value),
                kind,
            },
        ) {
            Err(error) => {
                return Err(BaselineGeneratedJsCallHandoffError::Continuation { error });
            },
            Ok(c) => BaselineGeneratedJsCallHandoffContinuation::Call(c),
        }
    };
    Ok(
        BaselineGeneratedJsCallHandoff {
            resume: BaselineGeneratedJsCallResume { owner, frame, bytecode_index, opcode },
            continuation,
            owner_continuation: None,
            direct_call: None,
            requires_no_gc_exit_reentry: true,
            may_throw: true,
        },
    )
}

/// Where the owner resumes after the property access generated code handed off.
#[derive(Clone, Copy, Debug, PartialEq, Eq, Structural)]
pub struct BaselineGeneratedPropertyResume {
    pub owner: CodeBlockId,
    pub frame: CallFrameId,
    pub bytecode_index: BytecodeIndex,
    pub opcode: CoreOpcode,
}

/// A property access handed to the interpreter at a planned site.
#[derive(Clone, Copy, Debug, PartialEq, Eq, Structural)]
pub struct BaselineGeneratedPropertyHandoff {
    pub resume: BaselineGeneratedPropertyResume,
    pub site: BaselineGeneratedPropertyHandoffSite,
    pub requires_no_gc_exit_reentry: bool,
    pub may_throw: bool,
}

#[derive(Clone, Copy, Debug, PartialEq, Eq, Structural)]
pub enum BaselineGeneratedPropertyHandoffError {
    NonCoreOpcode { opcode: Opcode },
    InvalidBytecodeIndex { bytecode_index: BytecodeIndex },
    UnsupportedOpcode { opcode: CoreOpcode },
    MissingSiteMetadata { bytecode_index: BytecodeIndex },
    SiteMetadataAmbiguous { bytecode_index: BytecodeIndex },
    SiteMetadata(JitPlanValidationError),
    SiteOwnerMismatch { expected: CodeBlockId, actual: CodeBlockId },
    SiteBytecodeIndexMismatch { instruction: BytecodeIndex, site: BytecodeIndex },
    SiteOpcodeMismatch { instruction: CoreOpcode, site: CoreOpcode },
    SiteCacheKindMismatch { opcode: CoreOpcode, cache_kind: InlineCacheKind },
    SiteFallbackMismatch { opcode: CoreOpcode, fallback: InlineCacheFallbackSemantics },
}

/// The handoff of a property instruction at `site`: the site must belong to the owner,
/// sit at the instruction, name its opcode and cache kind, and fall back to the slow path.
pub open spec fn spec_property_handoff(
    owner: CodeBlockId,
    frame: CallFrameId,
    instruction: TypedInstruction,
    site: BaselineGeneratedPropertyHandoffSite,
) -> Result<BaselineGeneratedPropertyHandoff, BaselineGeneratedPropertyHandoffError> {
    match instruction.opcode {
        Opcode::Generated(_) => Err(
            BaselineGeneratedPropertyHandoffError::NonCoreOpcode { opcode: instruction.opcode },
        ),
        Opcode::Core(opcode) => {
            let bytecode_index = instruction.bytecode_index;
            if !spec_bytecode_index_is_valid(bytecode_index) {
                Err(BaselineGeneratedPropertyHandoffError::InvalidBytecodeIndex { bytecode_index })
            } else if !spec_is_property_opcode(opcode) {
                Err(BaselineGeneratedPropertyHandoffError::UnsupportedOpcode { opcode })
            } else if site.owner != owner {
                Err(BaselineGeneratedPropertyHandoffError::SiteOwnerMismatch { expected: owner, actual: site.owner })
            } else if site.bytecode_index != bytecode_index {
                Err(
                    BaselineGeneratedPropertyHandoffError::SiteBytecodeIndexMismatch {
                        instruction: bytecode_index,
                        site: site.bytecode_index,
                    },
                )
            } else if site.opcode != opcode {
                Err(BaselineGeneratedPropertyHandoffError::SiteOpcodeMismatch { instruction: opcode, site: site.opcode })
            } else if site.cache_kind != spec_property_cache_kind(opcode) {
                Err(BaselineGeneratedPropertyHandoffError::SiteCacheKindMismatch { opcode, cache_kind: site.cache_kind })
            } else if site.fallback != InlineCacheFallbackSemantics::SlowPathLookup {
                Err(BaselineGeneratedPropertyHandoffError::SiteFallbackMismatch { opcode, fallback: site.fallback })
            } else {
                match spec_validate_property_site_metadata(site) {
                    Err(error) => Err(BaselineGeneratedPropertyHandoffError::SiteMetadata(error)),
                    Ok(()) => Ok(
                        BaselineGeneratedPropertyHandoff {
                            resume: BaselineGeneratedPropertyResume { owner, frame, bytecode_index, opcode },
                            site,
                            requires_no_gc_exit_reentry: site.requires_no_gc_exit_reentry,
                            may_throw: site.may_throw,
                        },
                    ),
                }
            }
        },
    }
}

pub fn baseline_generated_property_handoff(
    owner: CodeBlockId,
    frame: CallFrameId,
    instruction: &TypedInstruction,
    site: &BaselineGeneratedPropertyHandoffSite,
) -> (r: Result<BaselineGeneratedPropertyHandoff, BaselineGeneratedPropertyHandoffError>)
    ensures
        r == spec_property_handoff(owner, frame, *instruction, *site),
{
    let opcode = match CoreOpcode::from_opcode(instruction.opcode) {
        Some(opcode) => opcode,
        None => {
            return Err(BaselineGeneratedPropertyHandoffError::NonCoreOpcode { opcode: instruction.opcode });
        },
    };
    let bytecode_index = instruction.bytecode_index;
    if !bytecode_index.is_valid() {
        return Err(BaselineGeneratedPropertyHandoffError::InvalidBytecodeIndex { bytecode_index });
    }
    match opcode {
        CoreOpcode::GetByName | CoreOpcode::GetGlobalObjectProperty | CoreOpcode::GetLength
        | CoreOpcode::PutByName | CoreOpcode::PutGlobalObjectProperty | CoreOpcode::GetByValue
        | CoreOpcode::PutByValue | CoreOpcode::InById | CoreOpcode::InByVal => {},
        _ => {
            return Err(BaselineGeneratedPropertyHandoffError::UnsupportedOpcode { opcode });
        },
    }
    if site.owner != owner {
        return Err(BaselineGeneratedPropertyHandoffError::SiteOwnerMismatch { expected: owner, actual: site.owner });
    }
    if site.bytecode_index != bytecode_index {
        return Err(
            BaselineGeneratedPropertyHandoffError::SiteBytecodeIndexMismatch {
                instruction: bytecode_index,
                site: site.bytecode_index,
            },
        );
    }
    if site.opcode != opcode {
        return Err(BaselineGeneratedPropertyHandoffError::SiteOpcodeMismatch { instruction: opcode, site: site.opcode });
    }
    if site.cache_kind != property_cache_kind(opcode) {
        return Err(BaselineGeneratedPropertyHandoffError::SiteCacheKindMismatch { opcode, cache_kind: site.cache_kind });
    }
    if site.fallback != InlineCacheFallbackSemantics::SlowPathLookup {
        return Err(BaselineGeneratedPropertyHandoffError::SiteFallbackMismatch { opcode, fallback: site.fallback });
    }
    match validate_baseline_generated_property_handoff_site_metadata(site) {
        Err(error) => Err(BaselineGeneratedPropertyHandoffError::SiteMetadata(error)),
        Ok(()) => Ok(
            BaselineGeneratedPropertyHandoff {
                resume: BaselineGeneratedPropertyResume { owner, frame, bytecode_index, opcode },
                site: *site,
                requires_no_gc_exit_reentry: site.requires_no_gc_exit_reentry,
                may_throw: site.may_throw,
            },
        ),
    }
}

} // verus!
