use baseline_jit::double::double_from_integer;
use baseline_jit::bytecode::{
    BytecodeIndex, CodeBlock, CoreOpcode, Opcode, OpcodeId, Operand, OperandAccessError, OperandKind,
    RegisterFrameShape, TypedInstruction, VirtualRegister,
};
use baseline_jit::executor::{
    execute_baseline_generated_code, execute_baseline_generated_code_with_runtime_helpers,
    BaselineGeneratedExecutionRequest, BaselineGeneratedExecutionResult,
    BaselineGeneratedExecutionWithRuntimeHelpersResult,
};
use baseline_jit::handoff::{
    BaselineGeneratedFallback, BaselineGeneratedFallbackCause, BaselineGeneratedFallbackOpcode,
    BaselineGeneratedFallbackReason, BaselineGeneratedRegisterFallbackCause,
    BaselineGeneratedRuntimeHelperHandoff, BaselineGeneratedRuntimeHelperHandoffError,
    BaselineGeneratedRuntimeHelperResume, BaselineGeneratedJsCallHandoff, BaselineGeneratedJsCallHandoffContinuation,
    BaselineGeneratedJsCallHandoffError, BaselineGeneratedJsCallResume, BaselineGeneratedJsConstructContinuation,
    BaselineGeneratedPropertyHandoff, BaselineGeneratedPropertyHandoffError, BaselineGeneratedPropertyResume,
    baseline_generated_js_call_handoff, baseline_generated_property_handoff,
    baseline_generated_runtime_helper_handoff,
};
use baseline_jit::instruction::{execute_instruction, BaselineInstructionContext};
use baseline_jit::operands::{BaselineGeneratedExecutionError, BaselineInstructionOutcome};
use baseline_jit::semantics::local_primitive_truthiness;
use baseline_jit::plan::{
    BaselineBytecodeEligibilityProof, BaselineGeneratedCodeArtifact, BaselineGeneratedCodeBody,
    BaselineSupportedOpcodeSubset, CodeLiveness, JitCodeValidationError, JitPlanValidationError,
    fingerprint_code_block_snapshot,
};
use baseline_jit::sites::{
    BaselineGeneratedRuntimeBoundaryCandidate, BaselineGeneratedRuntimeBoundaryProof,
    BaselineGeneratedRuntimeHelperPlan, BaselineGeneratedRuntimeHelperPlanMetadata,
    BaselineGeneratedRuntimeHelperProof, BytecodeRootMap, BytecodeRootMapId, CompilerSafepointDescriptor,
    CompilerSafepointId, BaselineGeneratedOwnerContinuationMapMetadata, BaselineGeneratedOwnerContinuationSite,
    BaselineGeneratedPropertyHandoffSite, InlineCacheSlotId,
    derive_baseline_generated_property_handoff_plan_from_code_block,
};
use baseline_jit::runtime::{
    BaselineFallbackRequest, CallFrameId, CodeBlockId, ExecutionCompletion, ExecutionError,
    FramePushRequest, InterpreterExecutionState, RegisterWindow, CallReturnContinuation, CallReturnKind,
};
use baseline_jit::value::{RuntimeValue, ValueKind};

fn owner() -> CodeBlockId {
    CodeBlockId(11)
}

fn other_owner() -> CodeBlockId {
    CodeBlockId(12)
}

fn local(index: u32) -> VirtualRegister {
    VirtualRegister::local(index)
}

fn frame_shape() -> RegisterFrameShape {
    RegisterFrameShape { num_parameters_including_this: 1, num_vars: 8 }
}

fn code_block(instructions: Vec<TypedInstruction>) -> CodeBlock {
    CodeBlock::new(instructions, frame_shape())
}

fn core_typed(offset: u32, opcode: CoreOpcode, operands: Vec<Operand>) -> TypedInstruction {
    TypedInstruction::new(opcode.opcode(), BytecodeIndex::from_offset(offset), operands)
}

fn typed(offset: u32, opcode: Opcode, operands: Vec<Operand>) -> TypedInstruction {
    TypedInstruction::new(opcode, BytecodeIndex::from_offset(offset), operands)
}

fn double(value: f64) -> RuntimeValue {
    RuntimeValue::from_double_bits(value.to_bits())
}

fn load_double_instruction(offset: u32, destination: VirtualRegister, value: f64) -> TypedInstruction {
    let bits = value.to_bits();
    core_typed(
        offset,
        CoreOpcode::LoadDouble,
        vec![
            Operand::Register(destination),
            Operand::UnsignedImmediate((bits & u64::from(u32::MAX)) as u32),
            Operand::UnsignedImmediate((bits >> 32) as u32),
        ],
    )
}

fn artifact_for_block_with_subset(
    owner: CodeBlockId,
    code_block: &CodeBlock,
    subset: BaselineSupportedOpcodeSubset,
) -> BaselineGeneratedCodeArtifact {
    let proof = BaselineBytecodeEligibilityProof::from_code_block_snapshot(code_block, owner, subset).unwrap();
    BaselineGeneratedCodeArtifact::new(
        101,
        owner,
        proof,
        BaselineGeneratedCodeBody::new(202, subset),
        CodeLiveness::Live,
    )
    .unwrap()
}

fn artifact_for_block(owner: CodeBlockId, code_block: &CodeBlock) -> BaselineGeneratedCodeArtifact {
    artifact_for_block_with_subset(owner, code_block, BaselineSupportedOpcodeSubset::P6ConstantsMovesReturnInt32ArithmeticBitwise)
}

fn primitive_truthiness_artifact(code_block: &CodeBlock) -> BaselineGeneratedCodeArtifact {
    artifact_for_block_with_subset(
        owner(),
        code_block,
        BaselineSupportedOpcodeSubset::P6ConstantsMovesReturnInt32ArithmeticBitwiseRelationalJumpsPrimitiveTruthiness,
    )
}

fn primitive_boolean_artifact(code_block: &CodeBlock) -> BaselineGeneratedCodeArtifact {
    artifact_for_block_with_subset(
        owner(),
        code_block,
        BaselineSupportedOpcodeSubset::P6ConstantsMovesReturnInt32ArithmeticBitwiseRelationalJumpsPrimitiveTruthinessPrimitiveBoolean,
    )
}

fn primitive_number_artifact(code_block: &CodeBlock) -> BaselineGeneratedCodeArtifact {
    artifact_for_block_with_subset(
        owner(),
        code_block,
        BaselineSupportedOpcodeSubset::P6ConstantsMovesReturnInt32ArithmeticBitwiseRelationalJumpsPrimitiveTruthinessPrimitiveBooleanPrimitiveNumber,
    )
}

fn primitive_to_number_void_artifact(code_block: &CodeBlock) -> BaselineGeneratedCodeArtifact {
    artifact_for_block_with_subset(
        owner(),
        code_block,
        BaselineSupportedOpcodeSubset::P6ConstantsMovesReturnInt32ArithmeticBitwiseRelationalJumpsPrimitiveTruthinessPrimitiveBooleanPrimitiveNumberPrimitiveToNumberVoid,
    )
}

fn pure_number_binary_artifact(code_block: &CodeBlock) -> BaselineGeneratedCodeArtifact {
    artifact_for_block_with_subset(
        owner(),
        code_block,
        BaselineSupportedOpcodeSubset::P6ConstantsMovesReturnInt32ArithmeticBitwiseRelationalJumpsPrimitiveTruthinessPrimitiveBooleanPrimitiveNumberPrimitiveToNumberVoidPureNumberBinary,
    )
}

fn enter_program_frame(state: &mut InterpreterExecutionState, owner: CodeBlockId, code_block: &CodeBlock) -> CallFrameId {
    state
        .stack
        .push_frame(
            &mut state.registers,
            FramePushRequest {
                code_block: Some(owner),
                callee_value: None,
                num_arguments_including_this: code_block.frame.num_parameters_including_this,
                num_locals: code_block.frame.num_vars,
                start_bytecode_index: Some(BytecodeIndex::from_offset(0)),
            },
        )
        .unwrap()
}

fn execute_generated_with_initial_locals(
    owner: CodeBlockId,
    code_block: &CodeBlock,
    artifact: &BaselineGeneratedCodeArtifact,
    initial_locals: &[(VirtualRegister, RuntimeValue)],
) -> (Result<BaselineGeneratedExecutionResult, BaselineGeneratedExecutionError>, InterpreterExecutionState) {
    let mut state = InterpreterExecutionState::new();
    let frame = enter_program_frame(&mut state, owner, code_block);
    let window = state.stack.top_frame().unwrap().register_window;
    for (register, value) in initial_locals {
        state.registers.write(window, *register, *value).unwrap();
    }
    let result = execute_baseline_generated_code(
        BaselineGeneratedExecutionRequest { artifact, owner, code_block, expected_frame: frame },
        &mut state,
    );
    (result, state)
}

fn execute_generated(
    owner: CodeBlockId,
    code_block: &CodeBlock,
    artifact: &BaselineGeneratedCodeArtifact,
) -> (Result<BaselineGeneratedExecutionResult, BaselineGeneratedExecutionError>, InterpreterExecutionState) {
    execute_generated_with_initial_locals(owner, code_block, artifact, &[])
}

fn read_local(state: &InterpreterExecutionState, index: u32) -> RuntimeValue {
    let frame = state.stack.top_frame().unwrap();
    state.registers.read(frame.register_window, local(index), &code_block(Vec::new())).unwrap()
}

fn top_frame_id(state: &InterpreterExecutionState) -> CallFrameId {
    state.stack.top_frame().unwrap().id
}

fn cell_runtime_value() -> RuntimeValue {
    RuntimeValue::from_cell_payload(0x1234)
}

fn unknown_runtime_value() -> RuntimeValue {
    let value = RuntimeValue::Unknown(0xff);
    assert_eq!(value.kind(), ValueKind::Unknown);
    value
}

fn completed(value: RuntimeValue) -> Result<BaselineGeneratedExecutionResult, BaselineGeneratedExecutionError> {
    Ok(BaselineGeneratedExecutionResult::Completed(ExecutionCompletion::Returned(value)))
}

fn is_double_nan(value: RuntimeValue) -> bool {
    match value {
        RuntimeValue::Double(bits) => f64::from_bits(bits).is_nan(),
        _ => false,
    }
}

fn is_returned_double_nan(result: &Result<BaselineGeneratedExecutionResult, BaselineGeneratedExecutionError>) -> bool {
    matches!(result, Ok(BaselineGeneratedExecutionResult::Completed(ExecutionCompletion::Returned(value))) if is_double_nan(*value))
}

fn assert_generated_fallback(
    result: &Result<BaselineGeneratedExecutionResult, BaselineGeneratedExecutionError>,
    request: BaselineFallbackRequest,
    reason: BaselineGeneratedFallbackReason,
) {
    assert_eq!(result, &Ok(BaselineGeneratedExecutionResult::Fallback(BaselineGeneratedFallback { request, reason })));
}

fn core_fallback_reason(
    bytecode_index: BytecodeIndex,
    opcode: CoreOpcode,
    cause: BaselineGeneratedFallbackCause,
) -> BaselineGeneratedFallbackReason {
    BaselineGeneratedFallbackReason { bytecode_index, opcode: BaselineGeneratedFallbackOpcode::Core(opcode), cause }
}

fn binary_block(opcode: CoreOpcode) -> CodeBlock {
    code_block(vec![
        core_typed(
            0,
            opcode,
            vec![Operand::Register(local(2)), Operand::Register(local(0)), Operand::Register(local(1))],
        ),
        core_typed(1, CoreOpcode::Return, vec![Operand::Register(local(2))]),
    ])
}

fn unary_block(opcode: CoreOpcode) -> CodeBlock {
    code_block(vec![
        core_typed(0, opcode, vec![Operand::Register(local(1)), Operand::Register(local(0))]),
        core_typed(1, CoreOpcode::Return, vec![Operand::Register(local(1))]),
    ])
}

fn jump_if_false_block() -> CodeBlock {
    code_block(vec![
        core_typed(
            0,
            CoreOpcode::JumpIfFalse,
            vec![Operand::Register(local(0)), Operand::BytecodeIndex(BytecodeIndex::from_offset(3))],
        ),
        core_typed(1, CoreOpcode::LoadInt32, vec![Operand::Register(local(1)), Operand::SignedImmediate(11)]),
        core_typed(2, CoreOpcode::Return, vec![Operand::Register(local(1))]),
        core_typed(3, CoreOpcode::LoadInt32, vec![Operand::Register(local(1)), Operand::SignedImmediate(22)]),
        core_typed(4, CoreOpcode::Return, vec![Operand::Register(local(1))]),
    ])
}

#[test]
fn plain_generated_execution_remains_independent_of_runtime_helper_metadata() {
    let block = code_block(vec![
        core_typed(0, CoreOpcode::LoadInt32, vec![Operand::Register(local(0)), Operand::SignedImmediate(13)]),
        core_typed(1, CoreOpcode::Return, vec![Operand::Register(local(0))]),
    ]);
    let artifact = artifact_for_block(owner(), &block);
    let (result, _) = execute_generated(owner(), &block, &artifact);
    assert_eq!(result, completed(RuntimeValue::from_i32(13)));
}

#[test]
fn constants_move_and_return_match_interpreter() {
    let block = code_block(vec![
        core_typed(0, CoreOpcode::LoadUndefined, vec![Operand::Register(local(0))]),
        core_typed(1, CoreOpcode::LoadNull, vec![Operand::Register(local(1))]),
        core_typed(2, CoreOpcode::LoadBool, vec![Operand::Register(local(2)), Operand::UnsignedImmediate(1)]),
        core_typed(3, CoreOpcode::LoadInt32, vec![Operand::Register(local(3)), Operand::SignedImmediate(7)]),
        core_typed(4, CoreOpcode::Move, vec![Operand::Register(local(4)), Operand::Register(local(3))]),
        core_typed(5, CoreOpcode::Return, vec![Operand::Register(local(4))]),
    ]);
    let artifact = artifact_for_block(owner(), &block);
    let (result, state) = execute_generated(owner(), &block, &artifact);
    assert_eq!(result, completed(RuntimeValue::from_i32(7)));
    let expected = [
        RuntimeValue::undefined(),
        RuntimeValue::null(),
        RuntimeValue::from_bool(true),
        RuntimeValue::from_i32(7),
        RuntimeValue::from_i32(7),
    ];
    for (index, value) in expected.iter().enumerate() {
        assert_eq!(read_local(&state, index as u32), *value);
    }
}

#[test]
fn int32_arithmetic_matches_interpreter() {
    let block = code_block(vec![
        core_typed(0, CoreOpcode::LoadInt32, vec![Operand::Register(local(0)), Operand::SignedImmediate(6)]),
        core_typed(1, CoreOpcode::LoadInt32, vec![Operand::Register(local(1)), Operand::SignedImmediate(7)]),
        core_typed(
            2,
            CoreOpcode::AddInt32,
            vec![Operand::Register(local(2)), Operand::Register(local(0)), Operand::Register(local(1))],
        ),
        core_typed(
            3,
            CoreOpcode::SubInt32,
            vec![Operand::Register(local(3)), Operand::Register(local(2)), Operand::Register(local(1))],
        ),
        core_typed(
            4,
            CoreOpcode::MulInt32,
            vec![Operand::Register(local(4)), Operand::Register(local(3)), Operand::Register(local(1))],
        ),
        core_typed(5, CoreOpcode::Return, vec![Operand::Register(local(4))]),
    ]);
    let artifact = artifact_for_block(owner(), &block);
    let (result, _) = execute_generated(owner(), &block, &artifact);
    assert_eq!(result, completed(RuntimeValue::from_i32(42)));
}

#[test]
fn load_double_decodes_low_high_immediates() {
    let value = -40.5f64;
    let block = code_block(vec![
        load_double_instruction(0, local(0), value),
        core_typed(1, CoreOpcode::Return, vec![Operand::Register(local(0))]),
    ]);
    let artifact = primitive_number_artifact(&block);
    let (result, state) = execute_generated(owner(), &block, &artifact);
    assert_eq!(result, completed(double(value)));
    assert_eq!(read_local(&state, 0), RuntimeValue::from_double_bits(value.to_bits()));
}

#[test]
fn to_number_primitive_cases_match_interpreter() {
    let cases = [
        ("int32", RuntimeValue::from_i32(-7), Some(RuntimeValue::from_i32(-7))),
        ("double", double(-0.0), Some(double(-0.0))),
        ("true", RuntimeValue::from_bool(true), Some(RuntimeValue::from_i32(1))),
        ("false", RuntimeValue::from_bool(false), Some(RuntimeValue::from_i32(0))),
        ("null", RuntimeValue::null(), Some(RuntimeValue::from_i32(0))),
        ("undefined", RuntimeValue::undefined(), None),
    ];
    let block = unary_block(CoreOpcode::ToNumber);
    let artifact = primitive_to_number_void_artifact(&block);
    for (case_index, (name, value, expected)) in cases.into_iter().enumerate() {
        let (result, _) = execute_generated_with_initial_locals(owner(), &block, &artifact, &[(local(0), value)]);
        match expected {
            Some(expected) => assert_eq!(result, completed(expected), "case {case_index}: {name}"),
            None => assert!(is_returned_double_nan(&result), "case {case_index}: {name}"),
        }
    }
}

#[test]
fn void_reads_source_and_writes_undefined() {
    let block = unary_block(CoreOpcode::Void);
    let artifact = primitive_to_number_void_artifact(&block);
    for (name, value) in [("cell", cell_runtime_value()), ("unknown", unknown_runtime_value())] {
        let (result, state) = execute_generated_with_initial_locals(owner(), &block, &artifact, &[(local(0), value)]);
        assert_eq!(result, completed(RuntimeValue::undefined()), "{name}");
        assert_eq!(read_local(&state, 1), RuntimeValue::undefined(), "{name}");
    }

    let block = code_block(vec![
        core_typed(
            0,
            CoreOpcode::Void,
            vec![Operand::Register(local(1)), Operand::Register(VirtualRegister::argument_or_header(0))],
        ),
        core_typed(1, CoreOpcode::Return, vec![Operand::Register(local(1))]),
    ]);
    let artifact = primitive_to_number_void_artifact(&block);
    let (result, state) = execute_generated(owner(), &block, &artifact);
    let frame = top_frame_id(&state);
    let bytecode_index = BytecodeIndex::from_offset(0);
    assert_generated_fallback(
        &result,
        BaselineFallbackRequest::new(owner(), frame, bytecode_index),
        core_fallback_reason(
            bytecode_index,
            CoreOpcode::Void,
            BaselineGeneratedFallbackCause::RegisterRead {
                register: VirtualRegister::argument_or_header(0),
                error: BaselineGeneratedRegisterFallbackCause::CannotAddressHeaderAsValue,
            },
        ),
    );
}

#[test]
fn negate_number_matches_numeric_only_interpreter_results() {
    let cases = [
        ("zero", 0, double(-0.0)),
        ("normal", 7, RuntimeValue::from_i32(-7)),
        ("min", i32::MIN, double(2_147_483_648.0)),
    ];
    for (case_index, (name, value, expected)) in cases.into_iter().enumerate() {
        let block = code_block(vec![
            core_typed(0, CoreOpcode::LoadInt32, vec![Operand::Register(local(0)), Operand::SignedImmediate(value)]),
            core_typed(1, CoreOpcode::NegateNumber, vec![Operand::Register(local(1)), Operand::Register(local(0))]),
            core_typed(2, CoreOpcode::Return, vec![Operand::Register(local(1))]),
        ]);
        let artifact = primitive_number_artifact(&block);
        let (result, _) = execute_generated(owner(), &block, &artifact);
        assert_eq!(result, completed(expected), "case {case_index}: {name}");
    }

    let block = code_block(vec![
        load_double_instruction(0, local(0), 40.5),
        core_typed(1, CoreOpcode::NegateNumber, vec![Operand::Register(local(1)), Operand::Register(local(0))]),
        core_typed(2, CoreOpcode::Return, vec![Operand::Register(local(1))]),
    ]);
    let artifact = primitive_number_artifact(&block);
    let (result, _) = execute_generated(owner(), &block, &artifact);
    assert_eq!(result, completed(double(-40.5)));
}

#[test]
fn negate_number_primitive_coercions_match_interpreter() {
    let cases = [
        ("true", RuntimeValue::from_bool(true), Some(RuntimeValue::from_i32(-1))),
        ("false", RuntimeValue::from_bool(false), Some(double(-0.0))),
        ("null", RuntimeValue::null(), Some(double(-0.0))),
        ("undefined", RuntimeValue::undefined(), None),
    ];
    let block = unary_block(CoreOpcode::NegateNumber);
    let artifact = primitive_number_artifact(&block);
    for (case_index, (name, value, expected)) in cases.into_iter().enumerate() {
        let (result, _) = execute_generated_with_initial_locals(owner(), &block, &artifact, &[(local(0), value)]);
        match expected {
            Some(expected) => assert_eq!(result, completed(expected), "case {case_index}: {name}"),
            None => assert!(is_returned_double_nan(&result), "case {case_index}: {name}"),
        }
    }
}

#[test]
fn div_number_writes_double_result() {
    let block = code_block(vec![
        core_typed(0, CoreOpcode::LoadInt32, vec![Operand::Register(local(0)), Operand::SignedImmediate(7)]),
        core_typed(1, CoreOpcode::LoadInt32, vec![Operand::Register(local(1)), Operand::SignedImmediate(2)]),
        core_typed(
            2,
            CoreOpcode::DivNumber,
            vec![Operand::Register(local(2)), Operand::Register(local(0)), Operand::Register(local(1))],
        ),
        core_typed(3, CoreOpcode::Return, vec![Operand::Register(local(2))]),
    ]);
    let artifact = primitive_number_artifact(&block);
    let (result, _) = execute_generated(owner(), &block, &artifact);
    assert_eq!(result, completed(double(3.5)));
}

#[test]
fn mod_number_keeps_int32_remainder_when_checked_result_succeeds() {
    let block = code_block(vec![
        core_typed(0, CoreOpcode::LoadInt32, vec![Operand::Register(local(0)), Operand::SignedImmediate(7)]),
        core_typed(1, CoreOpcode::LoadInt32, vec![Operand::Register(local(1)), Operand::SignedImmediate(4)]),
        core_typed(
            2,
            CoreOpcode::ModNumber,
            vec![Operand::Register(local(2)), Operand::Register(local(0)), Operand::Register(local(1))],
        ),
        core_typed(3, CoreOpcode::Return, vec![Operand::Register(local(2))]),
    ]);
    let artifact = primitive_number_artifact(&block);
    let (result, _) = execute_generated(owner(), &block, &artifact);
    assert_eq!(result, completed(RuntimeValue::from_i32(3)));
}

#[test]
fn mod_number_falls_through_to_f64_result_for_divisor_zero_overflow_and_double() {
    let cases = [
        ("divisor zero", RuntimeValue::from_i32(7), RuntimeValue::from_i32(0), None),
        ("overflow", RuntimeValue::from_i32(i32::MIN), RuntimeValue::from_i32(-1), Some(double(-0.0))),
        ("double", double(7.5), RuntimeValue::from_i32(2), Some(double(1.5))),
    ];
    for (case_index, (name, left, right, expected)) in cases.into_iter().enumerate() {
        let block = binary_block(CoreOpcode::ModNumber);
        let artifact = primitive_number_artifact(&block);
        let (result, _) =
            execute_generated_with_initial_locals(owner(), &block, &artifact, &[(local(0), left), (local(1), right)]);
        match expected {
            Some(expected) => assert_eq!(result, completed(expected), "case {case_index}: {name}"),
            None => assert!(is_returned_double_nan(&result), "case {case_index}: {name}"),
        }
    }
}

#[test]
fn pure_number_binary_add_sub_mul_write_double_for_double_and_overflow_inputs() {
    let cases = [
        ("add mixed", CoreOpcode::AddInt32, RuntimeValue::from_i32(1), double(2.5), double(3.5)),
        ("sub mixed", CoreOpcode::SubInt32, double(5.5), RuntimeValue::from_i32(2), double(3.5)),
        ("mul double integral", CoreOpcode::MulInt32, double(1.5), RuntimeValue::from_i32(2), double(3.0)),
        ("add overflow", CoreOpcode::AddInt32, RuntimeValue::from_i32(i32::MAX), RuntimeValue::from_i32(1), double(2_147_483_648.0)),
        ("sub overflow", CoreOpcode::SubInt32, RuntimeValue::from_i32(i32::MIN), RuntimeValue::from_i32(1), double(-2_147_483_649.0)),
        ("mul overflow", CoreOpcode::MulInt32, RuntimeValue::from_i32(1_073_741_824), RuntimeValue::from_i32(4), double(4_294_967_296.0)),
    ];
    for (case_index, (name, opcode, left, right, expected)) in cases.into_iter().enumerate() {
        let block = binary_block(opcode);
        let artifact = pure_number_binary_artifact(&block);
        let (result, _) =
            execute_generated_with_initial_locals(owner(), &block, &artifact, &[(local(0), left), (local(1), right)]);
        assert_eq!(result, completed(expected), "case {case_index}: {name}");
    }
}

#[test]
fn pure_number_binary_div_mod_edges_match_interpreter() {
    let cases = [
        ("division by zero", CoreOpcode::DivNumber, RuntimeValue::from_i32(1), RuntimeValue::from_i32(0), Some(double(f64::INFINITY))),
        ("zero divided by zero", CoreOpcode::DivNumber, RuntimeValue::from_i32(0), RuntimeValue::from_i32(0), None),
        ("modulo zero", CoreOpcode::ModNumber, RuntimeValue::from_i32(7), RuntimeValue::from_i32(0), None),
        ("min modulo negative one", CoreOpcode::ModNumber, RuntimeValue::from_i32(i32::MIN), RuntimeValue::from_i32(-1), Some(double(-0.0))),
        ("double modulo", CoreOpcode::ModNumber, double(7.5), RuntimeValue::from_i32(2), Some(double(1.5))),
    ];
    for (case_index, (name, opcode, left, right, expected)) in cases.into_iter().enumerate() {
        let block = binary_block(opcode);
        let artifact = pure_number_binary_artifact(&block);
        let (result, _) =
            execute_generated_with_initial_locals(owner(), &block, &artifact, &[(local(0), left), (local(1), right)]);
        match expected {
            Some(expected) => assert_eq!(result, completed(expected), "case {case_index}: {name}"),
            None => assert!(is_returned_double_nan(&result), "case {case_index}: {name}"),
        }
    }
}

#[test]
fn pure_number_binary_relational_handles_mixed_double_and_nan_cases() {
    let cases = [
        ("less than mixed", CoreOpcode::LessThanInt32, double(1.5), RuntimeValue::from_i32(2), true),
        ("less equal mixed", CoreOpcode::LessEqualInt32, RuntimeValue::from_i32(2), double(2.5), true),
        ("greater than mixed", CoreOpcode::GreaterThanInt32, double(3.5), RuntimeValue::from_i32(3), true),
        ("greater equal false", CoreOpcode::GreaterEqualInt32, RuntimeValue::from_i32(3), double(3.5), false),
        ("nan less than", CoreOpcode::LessThanInt32, double(f64::NAN), RuntimeValue::from_i32(1), false),
        ("nan less equal", CoreOpcode::LessEqualInt32, RuntimeValue::from_i32(1), double(f64::NAN), false),
        ("nan greater than", CoreOpcode::GreaterThanInt32, double(f64::NAN), double(f64::NAN), false),
    ];
    for (case_index, (name, opcode, left, right, expected)) in cases.into_iter().enumerate() {
        let block = binary_block(opcode);
        let artifact = pure_number_binary_artifact(&block);
        let (result, _) =
            execute_generated_with_initial_locals(owner(), &block, &artifact, &[(local(0), left), (local(1), right)]);
        assert_eq!(result, completed(RuntimeValue::from_bool(expected)), "case {case_index}: {name}");
    }
}

#[test]
fn pure_number_binary_bitwise_applies_double_to_int32_conversion() {
    let cases = [
        ("fractional or", CoreOpcode::BitOrInt32, double(1.5), RuntimeValue::from_i32(2), RuntimeValue::from_i32(3)),
        ("nan and", CoreOpcode::BitAndInt32, double(f64::NAN), RuntimeValue::from_i32(7), RuntimeValue::from_i32(0)),
        ("infinity xor", CoreOpcode::BitXorInt32, double(f64::INFINITY), RuntimeValue::from_i32(5), RuntimeValue::from_i32(5)),
        (
            "negative fractional unsigned shift",
            CoreOpcode::UnsignedRightShiftInt32,
            double(-1.5),
            RuntimeValue::from_i32(0),
            double(4_294_967_295.0),
        ),
    ];
    for (case_index, (name, opcode, left, right, expected)) in cases.into_iter().enumerate() {
        let block = binary_block(opcode);
        let artifact = pure_number_binary_artifact(&block);
        let (result, _) =
            execute_generated_with_initial_locals(owner(), &block, &artifact, &[(local(0), left), (local(1), right)]);
        assert_eq!(result, completed(expected), "case {case_index}: {name}");
    }
}

#[test]
fn pure_number_binary_non_number_operands_fall_back_with_value_kind() {
    let cases = vec![
        ("add boolean left", CoreOpcode::AddInt32, RuntimeValue::from_bool(true), RuntimeValue::from_i32(1), 1, local(0), ValueKind::Boolean),
        ("sub null right", CoreOpcode::SubInt32, RuntimeValue::from_i32(1), RuntimeValue::null(), 2, local(1), ValueKind::Null),
        ("bit and undefined left", CoreOpcode::BitAndInt32, RuntimeValue::undefined(), RuntimeValue::from_i32(7), 1, local(0), ValueKind::Undefined),
        ("unsigned shift cell right", CoreOpcode::UnsignedRightShiftInt32, RuntimeValue::from_i32(-1), cell_runtime_value(), 2, local(1), ValueKind::Cell),
        ("less than unknown left", CoreOpcode::LessThanInt32, unknown_runtime_value(), RuntimeValue::from_i32(1), 1, local(0), ValueKind::Unknown),
        ("greater equal boolean right", CoreOpcode::GreaterEqualInt32, RuntimeValue::from_i32(1), RuntimeValue::from_bool(false), 2, local(1), ValueKind::Boolean),
    ];
    for (case_index, (name, opcode, left, right, operand_index, register, value_kind)) in cases.into_iter().enumerate() {
        let block = binary_block(opcode);
        let artifact = pure_number_binary_artifact(&block);
        let (result, state) =
            execute_generated_with_initial_locals(owner(), &block, &artifact, &[(local(0), left), (local(1), right)]);
        let frame = top_frame_id(&state);
        let bytecode_index = BytecodeIndex::from_offset(0);
        assert_generated_fallback(
            &result,
            BaselineFallbackRequest::new(owner(), frame, bytecode_index),
            core_fallback_reason(
                bytecode_index,
                opcode,
                BaselineGeneratedFallbackCause::NonNumberOperand { operand_index, register, value_kind },
            ),
        );
        assert_eq!(state.stack.top_frame().unwrap().bytecode_index, Some(bytecode_index), "case {case_index}: {name}");
    }
}

#[test]
fn int32_bitwise_matches_interpreter() {
    let cases = [
        (CoreOpcode::BitNotInt32, -43, 0, RuntimeValue::from_i32(42)),
        (CoreOpcode::BitOrInt32, 8, 2, RuntimeValue::from_i32(10)),
        (CoreOpcode::BitXorInt32, 7, 3, RuntimeValue::from_i32(4)),
        (CoreOpcode::BitAndInt32, 5, 3, RuntimeValue::from_i32(1)),
        (CoreOpcode::LeftShiftInt32, 1, 5, RuntimeValue::from_i32(32)),
        (CoreOpcode::RightShiftInt32, -8, 1, RuntimeValue::from_i32(-4)),
        (CoreOpcode::UnsignedRightShiftInt32, 8, 33, RuntimeValue::from_i32(4)),
        (CoreOpcode::UnsignedRightShiftInt32, i32::MIN, 0, double(2_147_483_648.0)),
        (CoreOpcode::UnsignedRightShiftInt32, -1, 0, double(4_294_967_295.0)),
    ];
    for (case_index, (opcode, left, right, expected)) in cases.into_iter().enumerate() {
        let mut instructions =
            vec![core_typed(0, CoreOpcode::LoadInt32, vec![Operand::Register(local(0)), Operand::SignedImmediate(left)])];
        if opcode == CoreOpcode::BitNotInt32 {
            instructions.push(core_typed(1, opcode, vec![Operand::Register(local(2)), Operand::Register(local(0))]));
            instructions.push(core_typed(2, CoreOpcode::Return, vec![Operand::Register(local(2))]));
        } else {
            instructions.push(core_typed(
                1,
                CoreOpcode::LoadInt32,
                vec![Operand::Register(local(1)), Operand::SignedImmediate(right)],
            ));
            instructions.push(core_typed(
                2,
                opcode,
                vec![Operand::Register(local(2)), Operand::Register(local(0)), Operand::Register(local(1))],
            ));
            instructions.push(core_typed(3, CoreOpcode::Return, vec![Operand::Register(local(2))]));
        }
        let block = code_block(instructions);
        let artifact = artifact_for_block(owner(), &block);
        let (result, _) = execute_generated(owner(), &block, &artifact);
        assert_eq!(result, completed(expected), "case {case_index}: {opcode:?}");
    }
}

#[test]
fn bit_not_int32_primitive_coercions_match_interpreter() {
    let cases = [
        ("true", RuntimeValue::from_bool(true), RuntimeValue::from_i32(-2)),
        ("false", RuntimeValue::from_bool(false), RuntimeValue::from_i32(-1)),
        ("null", RuntimeValue::null(), RuntimeValue::from_i32(-1)),
        ("undefined", RuntimeValue::undefined(), RuntimeValue::from_i32(-1)),
        ("double positive", double(1.5), RuntimeValue::from_i32(-2)),
        ("double negative", double(-1.5), RuntimeValue::from_i32(0)),
        ("double nan", double(f64::NAN), RuntimeValue::from_i32(-1)),
    ];
    let block = unary_block(CoreOpcode::BitNotInt32);
    let artifact = artifact_for_block(owner(), &block);
    for (case_index, (name, value, expected)) in cases.into_iter().enumerate() {
        let (result, _) = execute_generated_with_initial_locals(owner(), &block, &artifact, &[(local(0), value)]);
        assert_eq!(result, completed(expected), "case {case_index}: {name}");
    }
}

#[test]
fn int32_relational_matches_interpreter() {
    let cases = [
        (CoreOpcode::LessThanInt32, 1, 2, true),
        (CoreOpcode::LessEqualInt32, 2, 2, true),
        (CoreOpcode::GreaterThanInt32, 5, 3, true),
        (CoreOpcode::GreaterEqualInt32, 3, 4, false),
    ];
    for (case_index, (opcode, left, right, expected)) in cases.into_iter().enumerate() {
        let block = code_block(vec![
            core_typed(0, CoreOpcode::LoadInt32, vec![Operand::Register(local(0)), Operand::SignedImmediate(left)]),
            core_typed(1, CoreOpcode::LoadInt32, vec![Operand::Register(local(1)), Operand::SignedImmediate(right)]),
            core_typed(
                2,
                opcode,
                vec![Operand::Register(local(2)), Operand::Register(local(0)), Operand::Register(local(1))],
            ),
            core_typed(3, CoreOpcode::Return, vec![Operand::Register(local(2))]),
        ]);
        let artifact = artifact_for_block_with_subset(
            owner(),
            &block,
            BaselineSupportedOpcodeSubset::P6ConstantsMovesReturnInt32ArithmeticBitwiseRelational,
        );
        let (result, _) = execute_generated(owner(), &block, &artifact);
        assert_eq!(result, completed(RuntimeValue::from_bool(expected)), "case {case_index}: {opcode:?}");
    }
}

#[test]
fn unconditional_jump_sets_generated_pc() {
    let block = code_block(vec![
        core_typed(0, CoreOpcode::Jump, vec![Operand::BytecodeIndex(BytecodeIndex::from_offset(2))]),
        core_typed(1, CoreOpcode::LoadInt32, vec![Operand::Register(local(0)), Operand::SignedImmediate(11)]),
        core_typed(2, CoreOpcode::LoadInt32, vec![Operand::Register(local(0)), Operand::SignedImmediate(22)]),
        core_typed(3, CoreOpcode::Return, vec![Operand::Register(local(0))]),
    ]);
    let artifact = artifact_for_block_with_subset(
        owner(),
        &block,
        BaselineSupportedOpcodeSubset::P6ConstantsMovesReturnInt32ArithmeticBitwiseRelationalJumps,
    );
    let (result, _) = execute_generated(owner(), &block, &artifact);
    assert_eq!(result, completed(RuntimeValue::from_i32(22)));
}

fn jump_if_not_nullish_block(load: TypedInstruction) -> CodeBlock {
    code_block(vec![
        load,
        core_typed(
            1,
            CoreOpcode::JumpIfNotNullish,
            vec![Operand::Register(local(0)), Operand::BytecodeIndex(BytecodeIndex::from_offset(4))],
        ),
        core_typed(2, CoreOpcode::LoadInt32, vec![Operand::Register(local(1)), Operand::SignedImmediate(11)]),
        core_typed(3, CoreOpcode::Return, vec![Operand::Register(local(1))]),
        core_typed(4, CoreOpcode::LoadInt32, vec![Operand::Register(local(1)), Operand::SignedImmediate(22)]),
        core_typed(5, CoreOpcode::Return, vec![Operand::Register(local(1))]),
    ])
}

#[test]
fn jump_if_not_nullish_taken_sets_generated_pc() {
    let block = jump_if_not_nullish_block(core_typed(
        0,
        CoreOpcode::LoadInt32,
        vec![Operand::Register(local(0)), Operand::SignedImmediate(7)],
    ));
    let artifact = artifact_for_block_with_subset(
        owner(),
        &block,
        BaselineSupportedOpcodeSubset::P6ConstantsMovesReturnInt32ArithmeticBitwiseRelationalJumps,
    );
    let (result, _) = execute_generated(owner(), &block, &artifact);
    assert_eq!(result, completed(RuntimeValue::from_i32(22)));
}

#[test]
fn jump_if_not_nullish_falls_through_for_nullish_values() {
    for (case_index, load_opcode) in [CoreOpcode::LoadUndefined, CoreOpcode::LoadNull].into_iter().enumerate() {
        let block = jump_if_not_nullish_block(core_typed(0, load_opcode, vec![Operand::Register(local(0))]));
        let artifact = artifact_for_block_with_subset(
            owner(),
            &block,
            BaselineSupportedOpcodeSubset::P6ConstantsMovesReturnInt32ArithmeticBitwiseRelationalJumps,
        );
        let (result, _) = execute_generated(owner(), &block, &artifact);
        assert_eq!(result, completed(RuntimeValue::from_i32(11)), "case {case_index}: {load_opcode:?}");
    }
}

#[test]
fn jump_if_false_falsy_primitives_take_branch() {
    let cases = [
        ("undefined", RuntimeValue::undefined()),
        ("null", RuntimeValue::null()),
        ("false", RuntimeValue::from_bool(false)),
        ("int32 zero", RuntimeValue::from_i32(0)),
        ("double positive zero", double(0.0)),
        ("double negative zero", double(-0.0)),
        ("double nan", double(f64::NAN)),
    ];
    for (case_index, (name, value)) in cases.into_iter().enumerate() {
        let block = jump_if_false_block();
        let artifact = primitive_truthiness_artifact(&block);
        let (result, _) = execute_generated_with_initial_locals(owner(), &block, &artifact, &[(local(0), value)]);
        assert_eq!(result, completed(RuntimeValue::from_i32(22)), "case {case_index}: {name}");
    }
}

#[test]
fn jump_if_false_truthy_primitives_fall_through() {
    let cases = [
        ("true", RuntimeValue::from_bool(true)),
        ("nonzero int32", RuntimeValue::from_i32(-7)),
        ("nonzero double", double(3.5)),
    ];
    for (case_index, (name, value)) in cases.into_iter().enumerate() {
        let block = jump_if_false_block();
        let artifact = primitive_truthiness_artifact(&block);
        let (result, _) = execute_generated_with_initial_locals(owner(), &block, &artifact, &[(local(0), value)]);
        assert_eq!(result, completed(RuntimeValue::from_i32(11)), "case {case_index}: {name}");
    }
}

fn assert_jump_if_false_truthiness_fallback(value: RuntimeValue, value_kind: ValueKind) {
    let block = jump_if_false_block();
    let artifact = primitive_truthiness_artifact(&block);
    let (result, state) = execute_generated_with_initial_locals(owner(), &block, &artifact, &[(local(0), value)]);
    let frame = top_frame_id(&state);
    let bytecode_index = BytecodeIndex::from_offset(0);
    assert_generated_fallback(
        &result,
        BaselineFallbackRequest::new(owner(), frame, bytecode_index),
        core_fallback_reason(
            bytecode_index,
            CoreOpcode::JumpIfFalse,
            BaselineGeneratedFallbackCause::UnsupportedTruthinessOperand { operand_index: 0, register: local(0), value_kind },
        ),
    );
    assert_eq!(state.stack.top_frame().unwrap().bytecode_index, Some(bytecode_index));
}

#[test]
fn jump_if_false_cell_condition_falls_back_at_current_bytecode_index() {
    assert_jump_if_false_truthiness_fallback(cell_runtime_value(), ValueKind::Cell);
}

#[test]
fn jump_if_false_unknown_condition_falls_back_at_current_bytecode_index() {
    let value = unknown_runtime_value();
    assert_eq!(value.kind(), ValueKind::Unknown);
    assert_jump_if_false_truthiness_fallback(value, ValueKind::Unknown);
}

#[test]
fn malformed_jump_if_false_target_falls_back_at_current_bytecode_index() {
    let block = code_block(vec![
        core_typed(0, CoreOpcode::JumpIfFalse, vec![Operand::Register(local(0)), Operand::UnsignedImmediate(3)]),
        core_typed(1, CoreOpcode::Return, vec![Operand::Register(local(0))]),
    ]);
    let artifact = primitive_truthiness_artifact(&block);
    let (result, state) =
        execute_generated_with_initial_locals(owner(), &block, &artifact, &[(local(0), RuntimeValue::from_bool(true))]);
    let frame = top_frame_id(&state);
    let bytecode_index = BytecodeIndex::from_offset(0);
    assert_generated_fallback(
        &result,
        BaselineFallbackRequest::new(owner(), frame, bytecode_index),
        core_fallback_reason(
            bytecode_index,
            CoreOpcode::JumpIfFalse,
            BaselineGeneratedFallbackCause::OperandAccess {
                error: OperandAccessError::UnexpectedOperandKind {
                    opcode: CoreOpcode::JumpIfFalse.opcode(),
                    index: 1,
                    expected: OperandKind::BytecodeIndex,
                    actual: OperandKind::UnsignedImmediate,
                },
            },
        ),
    );
    assert_eq!(state.stack.top_frame().unwrap().bytecode_index, Some(bytecode_index));
}

fn binary_register_block(opcode: CoreOpcode) -> CodeBlock {
    binary_block(opcode)
}

#[test]
fn primitive_strict_equality_matrix_matches_interpreter() {
    let values = [
        RuntimeValue::undefined(),
        RuntimeValue::null(),
        RuntimeValue::from_bool(false),
        RuntimeValue::from_bool(true),
        RuntimeValue::from_i32(0),
        RuntimeValue::from_i32(1),
        double(0.0),
        double(-0.0),
        double(1.0),
        double(f64::NAN),
    ];
    for opcode in [CoreOpcode::StrictEqual, CoreOpcode::StrictNotEqual] {
        let block = binary_register_block(opcode);
        let artifact = primitive_boolean_artifact(&block);
        for (left_index, left) in values.iter().copied().enumerate() {
            for (right_index, right) in values.iter().copied().enumerate() {
                let initial_locals = [(local(0), left), (local(1), right)];
                let (generated_result, _) =
                    execute_generated_with_initial_locals(owner(), &block, &artifact, &initial_locals);
                let equals = left.strict_equals(&right);
                let expected = matches!(opcode, CoreOpcode::StrictEqual) == equals;
                assert_eq!(
                    generated_result,
                    completed(RuntimeValue::from_bool(expected)),
                    "case {left_index}/{right_index}: {opcode:?}"
                );
            }
        }
    }
}

#[test]
fn logical_not_primitive_cases_match_interpreter() {
    let cases = [
        (RuntimeValue::undefined(), true),
        (RuntimeValue::null(), true),
        (RuntimeValue::from_bool(false), true),
        (RuntimeValue::from_bool(true), false),
        (RuntimeValue::from_i32(0), true),
        (RuntimeValue::from_i32(-7), false),
        (double(0.0), true),
        (double(-0.0), true),
        (double(f64::NAN), true),
        (double(3.5), false),
    ];
    let block = unary_block(CoreOpcode::LogicalNot);
    let artifact = primitive_boolean_artifact(&block);
    for (case_index, (value, expected)) in cases.into_iter().enumerate() {
        let (generated_result, _) =
            execute_generated_with_initial_locals(owner(), &block, &artifact, &[(local(0), value)]);
        assert_eq!(expected, !local_primitive_truthiness(value).unwrap(), "case {case_index}");
        assert_eq!(generated_result, completed(RuntimeValue::from_bool(expected)), "case {case_index}");
    }
}

#[test]
fn strict_equality_cell_and_unknown_operands_fall_back_at_current_bytecode_index() {
    let cases = [
        (CoreOpcode::StrictEqual, cell_runtime_value(), RuntimeValue::from_i32(7), 1, local(0), ValueKind::Cell),
        (CoreOpcode::StrictNotEqual, unknown_runtime_value(), RuntimeValue::from_i32(7), 1, local(0), ValueKind::Unknown),
        (CoreOpcode::StrictEqual, RuntimeValue::from_bool(true), cell_runtime_value(), 2, local(1), ValueKind::Cell),
        (CoreOpcode::StrictNotEqual, RuntimeValue::from_bool(true), unknown_runtime_value(), 2, local(1), ValueKind::Unknown),
    ];
    for (case_index, (opcode, left, right, operand_index, register, value_kind)) in cases.into_iter().enumerate() {
        let block = binary_register_block(opcode);
        let artifact = primitive_boolean_artifact(&block);
        let (result, state) =
            execute_generated_with_initial_locals(owner(), &block, &artifact, &[(local(0), left), (local(1), right)]);
        let frame = top_frame_id(&state);
        let bytecode_index = BytecodeIndex::from_offset(0);
        assert_generated_fallback(
            &result,
            BaselineFallbackRequest::new(owner(), frame, bytecode_index),
            core_fallback_reason(
                bytecode_index,
                opcode,
                BaselineGeneratedFallbackCause::UnsupportedStrictEqualityOperand { operand_index, register, value_kind },
            ),
        );
        assert_eq!(state.stack.top_frame().unwrap().bytecode_index, Some(bytecode_index), "case {case_index}");
    }
}

#[test]
fn logical_not_cell_and_unknown_operands_fall_back_at_source_operand_index() {
    let cases = [(cell_runtime_value(), ValueKind::Cell), (unknown_runtime_value(), ValueKind::Unknown)];
    let block = unary_block(CoreOpcode::LogicalNot);
    let artifact = primitive_boolean_artifact(&block);
    for (case_index, (value, value_kind)) in cases.into_iter().enumerate() {
        let (result, state) = execute_generated_with_initial_locals(owner(), &block, &artifact, &[(local(0), value)]);
        let frame = top_frame_id(&state);
        let bytecode_index = BytecodeIndex::from_offset(0);
        assert_generated_fallback(
            &result,
            BaselineFallbackRequest::new(owner(), frame, bytecode_index),
            core_fallback_reason(
                bytecode_index,
                CoreOpcode::LogicalNot,
                BaselineGeneratedFallbackCause::UnsupportedTruthinessOperand {
                    operand_index: 1,
                    register: local(0),
                    value_kind,
                },
            ),
        );
        assert_eq!(state.stack.top_frame().unwrap().bytecode_index, Some(bytecode_index), "case {case_index}");
    }
}

#[test]
fn invalid_taken_branch_target_returns_execution_error() {
    let invalid_target = BytecodeIndex::from_offset(99);
    let block = code_block(vec![
        core_typed(0, CoreOpcode::Jump, vec![Operand::BytecodeIndex(invalid_target)]),
        core_typed(1, CoreOpcode::Return, vec![Operand::Register(local(0))]),
    ]);
    let artifact = artifact_for_block_with_subset(
        owner(),
        &block,
        BaselineSupportedOpcodeSubset::P6ConstantsMovesReturnInt32ArithmeticBitwiseRelationalJumps,
    );
    let (result, state) = execute_generated(owner(), &block, &artifact);
    assert_eq!(
        result,
        Err(BaselineGeneratedExecutionError::Execution(ExecutionError::InvalidBytecodeIndex(invalid_target)))
    );
    assert_eq!(state.stack.top_frame().unwrap().bytecode_index, Some(BytecodeIndex::from_offset(0)));
}

#[test]
fn malformed_branch_target_falls_back_at_current_bytecode_index() {
    let block = code_block(vec![
        core_typed(0, CoreOpcode::JumpIfNotNullish, vec![Operand::Register(local(0)), Operand::UnsignedImmediate(2)]),
        core_typed(1, CoreOpcode::Return, vec![Operand::Register(local(0))]),
    ]);
    let artifact = artifact_for_block_with_subset(
        owner(),
        &block,
        BaselineSupportedOpcodeSubset::P6ConstantsMovesReturnInt32ArithmeticBitwiseRelationalJumps,
    );
    let (result, state) = execute_generated(owner(), &block, &artifact);
    let frame = top_frame_id(&state);
    let bytecode_index = BytecodeIndex::from_offset(0);
    assert_generated_fallback(
        &result,
        BaselineFallbackRequest::new(owner(), frame, bytecode_index),
        core_fallback_reason(
            bytecode_index,
            CoreOpcode::JumpIfNotNullish,
            BaselineGeneratedFallbackCause::OperandAccess {
                error: OperandAccessError::UnexpectedOperandKind {
                    opcode: CoreOpcode::JumpIfNotNullish.opcode(),
                    index: 1,
                    expected: OperandKind::BytecodeIndex,
                    actual: OperandKind::UnsignedImmediate,
                },
            },
        ),
    );
    assert_eq!(state.stack.top_frame().unwrap().bytecode_index, Some(bytecode_index));
}

fn state_with_program_frame(block: &CodeBlock) -> (InterpreterExecutionState, CallFrameId, RegisterWindow) {
    let mut state = InterpreterExecutionState::new();
    let frame = enter_program_frame(&mut state, owner(), block);
    let window = state.stack.top_frame().unwrap().register_window;
    (state, frame, window)
}

#[test]
fn old_generated_subsets_reject_branch_opcodes() {
    let block = code_block(Vec::new());
    let (mut state, frame, window) = state_with_program_frame(&block);
    let bytecode_index = BytecodeIndex::from_offset(0);
    let instruction = core_typed(0, CoreOpcode::Jump, vec![Operand::BytecodeIndex(BytecodeIndex::from_offset(0))]);
    assert_eq!(
        execute_instruction(
            BaselineInstructionContext::new(
                BaselineSupportedOpcodeSubset::P6ConstantsMovesReturnInt32ArithmeticBitwiseRelational,
                owner(),
                frame,
                &block,
                None,
            ),
            window,
            &mut state,
            &instruction,
        ),
        Ok(BaselineInstructionOutcome::Fallback(BaselineGeneratedFallback {
            request: BaselineFallbackRequest::new(owner(), frame, bytecode_index),
            reason: core_fallback_reason(bytecode_index, CoreOpcode::Jump, BaselineGeneratedFallbackCause::UnsupportedOpcode),
        }))
    );
}

#[test]
fn binary_non_int32_bitwise_falls_back_at_current_bytecode_index() {
    let block = code_block(vec![
        core_typed(0, CoreOpcode::LoadInt32, vec![Operand::Register(local(0)), Operand::SignedImmediate(1)]),
        core_typed(1, CoreOpcode::LoadBool, vec![Operand::Register(local(1)), Operand::UnsignedImmediate(1)]),
        core_typed(
            2,
            CoreOpcode::BitAndInt32,
            vec![Operand::Register(local(2)), Operand::Register(local(0)), Operand::Register(local(1))],
        ),
        core_typed(3, CoreOpcode::Return, vec![Operand::Register(local(2))]),
    ]);
    let artifact = artifact_for_block(owner(), &block);
    let (result, state) = execute_generated(owner(), &block, &artifact);
    let frame = top_frame_id(&state);
    let bytecode_index = BytecodeIndex::from_offset(2);
    assert_generated_fallback(
        &result,
        BaselineFallbackRequest::new(owner(), frame, bytecode_index),
        core_fallback_reason(
            bytecode_index,
            CoreOpcode::BitAndInt32,
            BaselineGeneratedFallbackCause::NonInt32Operand { operand_index: 2, register: local(1) },
        ),
    );

    let block = code_block(vec![
        core_typed(0, CoreOpcode::LoadInt32, vec![Operand::Register(local(1)), Operand::SignedImmediate(0)]),
        core_typed(
            1,
            CoreOpcode::UnsignedRightShiftInt32,
            vec![Operand::Register(local(2)), Operand::Register(local(0)), Operand::Register(local(1))],
        ),
        core_typed(2, CoreOpcode::Return, vec![Operand::Register(local(2))]),
    ]);
    let artifact = artifact_for_block(owner(), &block);
    let (result, state) = execute_generated_with_initial_locals(owner(), &block, &artifact, &[(local(0), double(1.5))]);
    let frame = top_frame_id(&state);
    let bytecode_index = BytecodeIndex::from_offset(1);
    assert_generated_fallback(
        &result,
        BaselineFallbackRequest::new(owner(), frame, bytecode_index),
        core_fallback_reason(
            bytecode_index,
            CoreOpcode::UnsignedRightShiftInt32,
            BaselineGeneratedFallbackCause::NonInt32Operand { operand_index: 1, register: local(0) },
        ),
    );
}

#[test]
fn non_int32_relational_falls_back_at_current_bytecode_index() {
    let cases = [
        (CoreOpcode::LessThanInt32, true, 1, local(0)),
        (CoreOpcode::GreaterEqualInt32, false, 2, local(1)),
    ];
    for (opcode, boolean_on_left, operand_index, register) in cases {
        let (left, right) = if boolean_on_left {
            (
                core_typed(0, CoreOpcode::LoadBool, vec![Operand::Register(local(0)), Operand::UnsignedImmediate(1)]),
                core_typed(1, CoreOpcode::LoadInt32, vec![Operand::Register(local(1)), Operand::SignedImmediate(1)]),
            )
        } else {
            (
                core_typed(0, CoreOpcode::LoadInt32, vec![Operand::Register(local(0)), Operand::SignedImmediate(1)]),
                core_typed(1, CoreOpcode::LoadBool, vec![Operand::Register(local(1)), Operand::UnsignedImmediate(1)]),
            )
        };
        let block = code_block(vec![
            left,
            right,
            core_typed(
                2,
                opcode,
                vec![Operand::Register(local(2)), Operand::Register(local(0)), Operand::Register(local(1))],
            ),
            core_typed(3, CoreOpcode::Return, vec![Operand::Register(local(2))]),
        ]);
        let artifact = artifact_for_block_with_subset(
            owner(),
            &block,
            BaselineSupportedOpcodeSubset::P6ConstantsMovesReturnInt32ArithmeticBitwiseRelational,
        );
        let (result, state) = execute_generated(owner(), &block, &artifact);
        let frame = top_frame_id(&state);
        let bytecode_index = BytecodeIndex::from_offset(2);
        assert_generated_fallback(
            &result,
            BaselineFallbackRequest::new(owner(), frame, bytecode_index),
            core_fallback_reason(
                bytecode_index,
                opcode,
                BaselineGeneratedFallbackCause::NonInt32Operand { operand_index, register },
            ),
        );
    }
}

#[test]
fn int32_overflow_falls_back_at_current_bytecode_index() {
    let block = code_block(vec![
        core_typed(0, CoreOpcode::LoadInt32, vec![Operand::Register(local(0)), Operand::SignedImmediate(i32::MAX)]),
        core_typed(1, CoreOpcode::LoadInt32, vec![Operand::Register(local(1)), Operand::SignedImmediate(1)]),
        core_typed(
            2,
            CoreOpcode::AddInt32,
            vec![Operand::Register(local(2)), Operand::Register(local(0)), Operand::Register(local(1))],
        ),
        core_typed(3, CoreOpcode::Return, vec![Operand::Register(local(2))]),
    ]);
    let artifact = artifact_for_block(owner(), &block);
    let (result, state) = execute_generated(owner(), &block, &artifact);
    let frame = top_frame_id(&state);
    let bytecode_index = BytecodeIndex::from_offset(2);
    assert_generated_fallback(
        &result,
        BaselineFallbackRequest::new(owner(), frame, bytecode_index),
        core_fallback_reason(bytecode_index, CoreOpcode::AddInt32, BaselineGeneratedFallbackCause::Int32Overflow),
    );
    assert_eq!(state.stack.top_frame().unwrap().bytecode_index, Some(bytecode_index));
}

#[test]
fn non_int32_arithmetic_falls_back_at_current_bytecode_index() {
    let block = code_block(vec![
        core_typed(0, CoreOpcode::LoadBool, vec![Operand::Register(local(0)), Operand::UnsignedImmediate(1)]),
        core_typed(1, CoreOpcode::LoadInt32, vec![Operand::Register(local(1)), Operand::SignedImmediate(1)]),
        core_typed(
            2,
            CoreOpcode::AddInt32,
            vec![Operand::Register(local(2)), Operand::Register(local(0)), Operand::Register(local(1))],
        ),
        core_typed(3, CoreOpcode::Return, vec![Operand::Register(local(2))]),
    ]);
    let artifact = artifact_for_block(owner(), &block);
    let (result, state) = execute_generated(owner(), &block, &artifact);
    let frame = top_frame_id(&state);
    let bytecode_index = BytecodeIndex::from_offset(2);
    assert_generated_fallback(
        &result,
        BaselineFallbackRequest::new(owner(), frame, bytecode_index),
        core_fallback_reason(
            bytecode_index,
            CoreOpcode::AddInt32,
            BaselineGeneratedFallbackCause::NonInt32Operand { operand_index: 1, register: local(0) },
        ),
    );
    assert_eq!(state.stack.top_frame().unwrap().bytecode_index, Some(bytecode_index));
}

#[test]
fn primitive_numeric_coercion_cell_and_unknown_fall_back_with_value_kind() {
    let values = [(cell_runtime_value(), ValueKind::Cell), (unknown_runtime_value(), ValueKind::Unknown)];
    for opcode in [CoreOpcode::ToNumber, CoreOpcode::NegateNumber, CoreOpcode::BitNotInt32] {
        for (case_index, (value, value_kind)) in values.into_iter().enumerate() {
            let block = unary_block(opcode);
            let artifact = if opcode == CoreOpcode::ToNumber {
                primitive_to_number_void_artifact(&block)
            } else if opcode == CoreOpcode::NegateNumber {
                primitive_number_artifact(&block)
            } else {
                artifact_for_block(owner(), &block)
            };
            let (result, state) =
                execute_generated_with_initial_locals(owner(), &block, &artifact, &[(local(0), value)]);
            let frame = top_frame_id(&state);
            let bytecode_index = BytecodeIndex::from_offset(0);
            assert_generated_fallback(
                &result,
                BaselineFallbackRequest::new(owner(), frame, bytecode_index),
                core_fallback_reason(
                    bytecode_index,
                    opcode,
                    BaselineGeneratedFallbackCause::UnsupportedPrimitiveNumericCoercionOperand {
                        operand_index: 1,
                        register: local(0),
                        value_kind,
                    },
                ),
            );
            assert_eq!(
                state.stack.top_frame().unwrap().bytecode_index,
                Some(bytecode_index),
                "case {case_index}: {opcode:?}"
            );
        }
    }

    let block = binary_block(CoreOpcode::DivNumber);
    let artifact = primitive_number_artifact(&block);
    let (result, state) = execute_generated_with_initial_locals(
        owner(),
        &block,
        &artifact,
        &[(local(0), RuntimeValue::from_i32(1)), (local(1), RuntimeValue::null())],
    );
    let frame = top_frame_id(&state);
    let bytecode_index = BytecodeIndex::from_offset(0);
    assert_generated_fallback(
        &result,
        BaselineFallbackRequest::new(owner(), frame, bytecode_index),
        core_fallback_reason(
            bytecode_index,
            CoreOpcode::DivNumber,
            BaselineGeneratedFallbackCause::NonNumberOperand {
                operand_index: 2,
                register: local(1),
                value_kind: ValueKind::Null,
            },
        ),
    );
}

#[test]
fn mismatched_unsupported_opcode_rejects_before_executing() {
    let supported_shape = code_block(vec![
        core_typed(0, CoreOpcode::LoadInt32, vec![Operand::Register(local(0)), Operand::SignedImmediate(1)]),
        core_typed(1, CoreOpcode::Move, vec![Operand::Register(local(1)), Operand::Register(local(0))]),
        core_typed(2, CoreOpcode::Return, vec![Operand::Register(local(1))]),
    ]);
    let artifact = artifact_for_block(owner(), &supported_shape);
    let block = code_block(vec![
        core_typed(0, CoreOpcode::LoadInt32, vec![Operand::Register(local(0)), Operand::SignedImmediate(1)]),
        core_typed(
            1,
            CoreOpcode::PowNumber,
            vec![Operand::Register(local(1)), Operand::Register(local(0)), Operand::Register(local(0))],
        ),
        core_typed(2, CoreOpcode::Return, vec![Operand::Register(local(1))]),
    ]);
    let (result, _) = execute_generated(owner(), &block, &artifact);
    assert!(matches!(result, Err(BaselineGeneratedExecutionError::CodeBlockSnapshotMismatch { .. })));
}

#[test]
fn unsupported_opcode_instruction_fallback_carries_opcode_reason() {
    let block = code_block(Vec::new());
    let (mut state, frame, window) = state_with_program_frame(&block);
    let bytecode_index = BytecodeIndex::from_offset(0);
    let core_instruction = core_typed(0, CoreOpcode::PowNumber, Vec::new());
    for subset in [
        BaselineSupportedOpcodeSubset::P6ConstantsMovesReturnInt32ArithmeticBitwiseRelationalJumpsPrimitiveTruthinessPrimitiveBooleanPrimitiveNumber,
        BaselineSupportedOpcodeSubset::P6ConstantsMovesReturnInt32ArithmeticBitwiseRelationalJumpsPrimitiveTruthinessPrimitiveBooleanPrimitiveNumberPrimitiveToNumberVoidPureNumberBinary,
    ] {
        assert_eq!(
            execute_instruction(
                BaselineInstructionContext::new(subset, owner(), frame, &block, None),
                window,
                &mut state,
                &core_instruction,
            ),
            Ok(BaselineInstructionOutcome::Fallback(BaselineGeneratedFallback {
                request: BaselineFallbackRequest::new(owner(), frame, bytecode_index),
                reason: core_fallback_reason(
                    bytecode_index,
                    CoreOpcode::PowNumber,
                    BaselineGeneratedFallbackCause::UnsupportedOpcode,
                ),
            }))
        );
    }

    let bytecode_index = BytecodeIndex::from_offset(1);
    let raw_opcode = Opcode::Generated(OpcodeId::from_generated_index(4095));
    let raw_instruction = typed(1, raw_opcode, Vec::new());
    assert_eq!(
        execute_instruction(
            BaselineInstructionContext::new(
                BaselineSupportedOpcodeSubset::P6ConstantsMovesReturnInt32ArithmeticBitwiseRelationalJumpsPrimitiveTruthinessPrimitiveBooleanPrimitiveNumber,
                owner(),
                frame,
                &block,
                None,
            ),
            window,
            &mut state,
            &raw_instruction,
        ),
        Ok(BaselineInstructionOutcome::Fallback(BaselineGeneratedFallback {
            request: BaselineFallbackRequest::new(owner(), frame, bytecode_index),
            reason: BaselineGeneratedFallbackReason {
                bytecode_index,
                opcode: BaselineGeneratedFallbackOpcode::NonCore(raw_opcode),
                cause: BaselineGeneratedFallbackCause::UnsupportedOpcode,
            },
        }))
    );
}

#[test]
fn bad_operand_falls_back_at_current_bytecode_index() {
    let block = code_block(vec![
        core_typed(0, CoreOpcode::LoadInt32, vec![Operand::Register(local(0))]),
        core_typed(1, CoreOpcode::Return, vec![Operand::Register(local(0))]),
    ]);
    let artifact = artifact_for_block(owner(), &block);
    let (result, state) = execute_generated(owner(), &block, &artifact);
    let frame = top_frame_id(&state);
    let bytecode_index = BytecodeIndex::from_offset(0);
    assert_generated_fallback(
        &result,
        BaselineFallbackRequest::new(owner(), frame, bytecode_index),
        core_fallback_reason(
            bytecode_index,
            CoreOpcode::LoadInt32,
            BaselineGeneratedFallbackCause::BadImmediate {
                operand_index: 1,
                error: OperandAccessError::MissingOperand { opcode: CoreOpcode::LoadInt32.opcode(), index: 1 },
            },
        ),
    );
    assert_eq!(state.stack.top_frame().unwrap().bytecode_index, Some(bytecode_index));
}

fn load_and_return_block(first_offset: u32, value: i32) -> CodeBlock {
    code_block(vec![
        core_typed(first_offset, CoreOpcode::LoadInt32, vec![Operand::Register(local(0)), Operand::SignedImmediate(value)]),
        core_typed(first_offset + 1, CoreOpcode::Return, vec![Operand::Register(local(0))]),
    ])
}

#[test]
fn mismatched_same_owner_operand_snapshot_fails_before_executing() {
    let installed = load_and_return_block(0, 9);
    let artifact = artifact_for_block(owner(), &installed);
    let current = load_and_return_block(0, 10);
    let (result, _) = execute_generated(owner(), &current, &artifact);
    assert!(matches!(result, Err(BaselineGeneratedExecutionError::CodeBlockSnapshotMismatch { .. })));
}

#[test]
fn mismatched_same_owner_bytecode_indices_fail_before_executing() {
    let installed = load_and_return_block(0, 9);
    let artifact = artifact_for_block(owner(), &installed);
    let current = load_and_return_block(4, 9);
    let (result, _) = execute_generated(owner(), &current, &artifact);
    assert!(matches!(result, Err(BaselineGeneratedExecutionError::CodeBlockSnapshotMismatch { .. })));
}

#[test]
fn wrong_owner_artifact_and_frame_fail_before_executing() {
    let block = load_and_return_block(0, 9);
    let artifact = artifact_for_block(owner(), &block);

    let (owner_result, _) = execute_generated(other_owner(), &block, &artifact);
    assert_eq!(
        owner_result,
        Err(BaselineGeneratedExecutionError::OwnerMismatch { expected: owner(), actual: other_owner() })
    );

    let mut invalid_artifact = artifact.clone();
    invalid_artifact.liveness = CodeLiveness::Unallocated;
    let (artifact_result, _) = execute_generated(owner(), &block, &invalid_artifact);
    assert_eq!(
        artifact_result,
        Err(BaselineGeneratedExecutionError::ArtifactValidation(JitCodeValidationError::BaselineGeneratedCodeNotLive))
    );

    let mut invalid_effect_artifact = artifact.clone();
    invalid_effect_artifact.body.effect_contract = None;
    let (effect_result, _) = execute_generated(owner(), &block, &invalid_effect_artifact);
    assert_eq!(
        effect_result,
        Err(BaselineGeneratedExecutionError::ArtifactValidation(
            JitCodeValidationError::BaselineGeneratedCodeEffectContractMismatch
        ))
    );

    let mut other_state = InterpreterExecutionState::new();
    let other_frame = enter_program_frame(&mut other_state, other_owner(), &block);
    let code_block_result = execute_baseline_generated_code(
        BaselineGeneratedExecutionRequest {
            artifact: &artifact,
            owner: owner(),
            code_block: &block,
            expected_frame: other_frame,
        },
        &mut other_state,
    );
    assert_eq!(
        code_block_result,
        Err(BaselineGeneratedExecutionError::Execution(ExecutionError::CodeBlockMismatch {
            expected: owner(),
            actual: Some(other_owner()),
        }))
    );

    let mut state = InterpreterExecutionState::new();
    let frame = enter_program_frame(&mut state, owner(), &block);
    let result = execute_baseline_generated_code(
        BaselineGeneratedExecutionRequest {
            artifact: &artifact,
            owner: owner(),
            code_block: &block,
            expected_frame: CallFrameId(frame.0 + 1),
        },
        &mut state,
    );
    assert_eq!(
        result,
        Err(BaselineGeneratedExecutionError::Execution(ExecutionError::FrameMismatch {
            expected: CallFrameId(frame.0 + 1),
            actual: Some(frame),
        }))
    );
}

fn new_object_block() -> CodeBlock {
    code_block(vec![
        core_typed(0, CoreOpcode::NewObject, vec![Operand::Register(local(0))]),
        core_typed(1, CoreOpcode::Return, vec![Operand::Register(local(0))]),
    ])
}

fn new_array_block() -> CodeBlock {
    code_block(vec![
        core_typed(0, CoreOpcode::NewArray, vec![Operand::Register(local(0))]),
        core_typed(1, CoreOpcode::Return, vec![Operand::Register(local(0))]),
    ])
}

fn type_of_block() -> CodeBlock {
    code_block(vec![
        core_typed(0, CoreOpcode::TypeOf, vec![Operand::Register(local(0)), Operand::Register(local(1))]),
        core_typed(1, CoreOpcode::Return, vec![Operand::Register(local(0))]),
    ])
}

fn load_string_block() -> CodeBlock {
    code_block(vec![
        core_typed(0, CoreOpcode::LoadString, vec![Operand::Register(local(0)), Operand::IdentifierIndex(9)]),
        core_typed(1, CoreOpcode::Return, vec![Operand::Register(local(0))]),
    ])
}

fn load_bigint_block() -> CodeBlock {
    code_block(vec![
        core_typed(0, CoreOpcode::LoadBigInt, vec![Operand::Register(local(0)), Operand::IdentifierIndex(10)]),
        core_typed(1, CoreOpcode::Return, vec![Operand::Register(local(0))]),
    ])
}

fn load_undefined_return_block() -> CodeBlock {
    code_block(vec![
        core_typed(0, CoreOpcode::LoadUndefined, vec![Operand::Register(local(0))]),
        core_typed(1, CoreOpcode::Return, vec![Operand::Register(local(0))]),
    ])
}

fn new_object_shadow_artifact() -> BaselineGeneratedCodeArtifact {
    artifact_for_block(owner(), &load_undefined_return_block())
}

fn runtime_helper_safepoint(index: BytecodeIndex, root_map: BytecodeRootMapId) -> CompilerSafepointDescriptor {
    CompilerSafepointDescriptor {
        id: CompilerSafepointId(7),
        owner: Some(owner()),
        bytecode_index: Some(index),
        root_map: Some(root_map),
        may_call: true,
        may_allocate: true,
    }
}

fn runtime_helper_root_map(index: BytecodeIndex, id: BytecodeRootMapId, slots: Vec<VirtualRegister>) -> BytecodeRootMap {
    BytecodeRootMap {
        id,
        owner: Some(owner()),
        bytecode_range_start: index,
        bytecode_range_end: index,
        slots,
        complete: true,
    }
}

fn runtime_boundary_proof(opcode: CoreOpcode, index: BytecodeIndex) -> BaselineGeneratedRuntimeBoundaryProof {
    let root_map_id = BytecodeRootMapId(42);
    BaselineGeneratedRuntimeBoundaryCandidate {
        opcode,
        safepoint: runtime_helper_safepoint(index, root_map_id),
        root_map: Some(runtime_helper_root_map(index, root_map_id, vec![local(0)])),
        no_gc_exit_reentry: true,
    }
    .validate()
    .unwrap()
}

fn new_object_runtime_boundary_proof_at(index: BytecodeIndex) -> BaselineGeneratedRuntimeBoundaryProof {
    runtime_boundary_proof(CoreOpcode::NewObject, index)
}

fn type_of_runtime_boundary_proof_at(index: BytecodeIndex) -> BaselineGeneratedRuntimeBoundaryProof {
    let root_map_id = BytecodeRootMapId(42);
    BaselineGeneratedRuntimeBoundaryCandidate {
        opcode: CoreOpcode::TypeOf,
        safepoint: runtime_helper_safepoint(index, root_map_id),
        root_map: Some(runtime_helper_root_map(index, root_map_id, vec![local(0), local(1)])),
        no_gc_exit_reentry: true,
    }
    .validate()
    .unwrap()
}

fn runtime_helper_metadata_for_block(
    code_block: &CodeBlock,
    proofs: Vec<BaselineGeneratedRuntimeHelperProof>,
) -> BaselineGeneratedRuntimeHelperPlanMetadata {
    BaselineGeneratedRuntimeHelperPlanMetadata::from_code_block_snapshot(code_block, proofs).unwrap()
}

fn runtime_helper_plan_for_block(
    code_block: &CodeBlock,
    proofs: Vec<BaselineGeneratedRuntimeHelperProof>,
) -> BaselineGeneratedRuntimeHelperPlan {
    BaselineGeneratedRuntimeHelperPlan::new(fingerprint_code_block_snapshot(code_block).unwrap(), proofs)
}

fn artifact_for_block_with_runtime_helper_metadata(
    owner: CodeBlockId,
    code_block: &CodeBlock,
    opcode_subset: BaselineSupportedOpcodeSubset,
    metadata: BaselineGeneratedRuntimeHelperPlanMetadata,
) -> BaselineGeneratedCodeArtifact {
    let proof = BaselineBytecodeEligibilityProof::from_code_block_snapshot(code_block, owner, opcode_subset).unwrap();
    BaselineGeneratedCodeArtifact::new_with_runtime_helper_plan(
        101,
        owner,
        proof,
        BaselineGeneratedCodeBody::new(202, opcode_subset),
        metadata,
        CodeLiveness::Live,
    )
    .unwrap()
}

fn execute_generated_with_runtime_helper_table(
    owner: CodeBlockId,
    code_block: &CodeBlock,
    artifact: &BaselineGeneratedCodeArtifact,
    plan: &BaselineGeneratedRuntimeHelperPlan,
) -> (Result<BaselineGeneratedExecutionWithRuntimeHelpersResult, BaselineGeneratedExecutionError>, InterpreterExecutionState) {
    let mut state = InterpreterExecutionState::new();
    let frame = enter_program_frame(&mut state, owner, code_block);
    let result = execute_baseline_generated_code_with_runtime_helpers(
        BaselineGeneratedExecutionRequest { artifact, owner, code_block, expected_frame: frame },
        &mut state,
        plan,
    );
    (result, state)
}

fn expected_runtime_helper_handoff(
    frame: CallFrameId,
    bytecode_index: BytecodeIndex,
    opcode: CoreOpcode,
    root_count: usize,
) -> Result<BaselineGeneratedExecutionWithRuntimeHelpersResult, BaselineGeneratedExecutionError> {
    Ok(BaselineGeneratedExecutionWithRuntimeHelpersResult::RuntimeHelper(BaselineGeneratedRuntimeHelperHandoff {
        resume: BaselineGeneratedRuntimeHelperResume { owner: owner(), frame, bytecode_index, opcode },
        safepoint: CompilerSafepointId(7),
        root_map: BytecodeRootMapId(42),
        root_count,
        requires_no_gc_exit_reentry: true,
        may_throw: true,
    }))
}

fn assert_instruction_without_helper_table_falls_back(opcode: CoreOpcode, operands: Vec<Operand>) {
    let block = code_block(Vec::new());
    let (mut state, frame, window) = state_with_program_frame(&block);
    let bytecode_index = BytecodeIndex::from_offset(0);
    let subset = BaselineSupportedOpcodeSubset::P6ConstantsMovesReturnInt32ArithmeticBitwiseRelationalJumpsPrimitiveTruthinessPrimitiveBooleanPrimitiveNumberPrimitiveToNumberVoidPureNumberBinary;
    assert!(!subset.supports(opcode));
    let instruction = core_typed(0, opcode, operands);
    assert_eq!(
        execute_instruction(BaselineInstructionContext::new(subset, owner(), frame, &block, None), window, &mut state, &instruction),
        Ok(BaselineInstructionOutcome::Fallback(BaselineGeneratedFallback {
            request: BaselineFallbackRequest::new(owner(), frame, bytecode_index),
            reason: core_fallback_reason(bytecode_index, opcode, BaselineGeneratedFallbackCause::UnsupportedOpcode),
        }))
    );
}

#[test]
fn generated_instruction_without_runtime_helper_table_falls_back_for_new_object() {
    assert_instruction_without_helper_table_falls_back(CoreOpcode::NewObject, vec![Operand::Register(local(0))]);
}

#[test]
fn generated_instruction_without_runtime_helper_table_falls_back_for_load_string() {
    assert_instruction_without_helper_table_falls_back(
        CoreOpcode::LoadString,
        vec![Operand::Register(local(0)), Operand::IdentifierIndex(9)],
    );
}

#[test]
fn generated_instruction_without_runtime_helper_table_falls_back_for_load_bigint() {
    assert_instruction_without_helper_table_falls_back(
        CoreOpcode::LoadBigInt,
        vec![Operand::Register(local(0)), Operand::IdentifierIndex(10)],
    );
}

fn assert_explicit_runtime_helper_handoff(
    block: CodeBlock,
    opcode: CoreOpcode,
    proof: BaselineGeneratedRuntimeBoundaryProof,
    root_count: usize,
) {
    let bytecode_index = BytecodeIndex::from_offset(0);
    let metadata = runtime_helper_metadata_for_block(&block, vec![BaselineGeneratedRuntimeHelperProof::new(bytecode_index, proof)]);
    let artifact = artifact_for_block_with_runtime_helper_metadata(
        owner(),
        &block,
        BaselineSupportedOpcodeSubset::P6ConstantsMovesReturnInt32ArithmeticBitwise,
        metadata,
    );
    let (result, state) =
        execute_generated_with_runtime_helper_table(owner(), &block, &artifact, artifact.runtime_helper_plan().unwrap());
    let frame = top_frame_id(&state);
    assert_eq!(result, expected_runtime_helper_handoff(frame, bytecode_index, opcode, root_count));
    assert_eq!(state.stack.top_frame().unwrap().bytecode_index, Some(bytecode_index));
}

#[test]
fn explicit_runtime_helper_entrypoint_returns_handoff_for_new_object_proof() {
    let index = BytecodeIndex::from_offset(0);
    assert_explicit_runtime_helper_handoff(new_object_block(), CoreOpcode::NewObject, new_object_runtime_boundary_proof_at(index), 1);
}

#[test]
fn explicit_runtime_helper_entrypoint_returns_handoff_for_new_array_proof() {
    let index = BytecodeIndex::from_offset(0);
    assert_explicit_runtime_helper_handoff(new_array_block(), CoreOpcode::NewArray, runtime_boundary_proof(CoreOpcode::NewArray, index), 1);
}

#[test]
fn explicit_runtime_helper_entrypoint_returns_handoff_for_typeof_proof() {
    let index = BytecodeIndex::from_offset(0);
    assert_explicit_runtime_helper_handoff(type_of_block(), CoreOpcode::TypeOf, type_of_runtime_boundary_proof_at(index), 2);
}

#[test]
fn explicit_runtime_helper_entrypoint_returns_handoff_for_load_string_proof() {
    let index = BytecodeIndex::from_offset(0);
    assert_explicit_runtime_helper_handoff(load_string_block(), CoreOpcode::LoadString, runtime_boundary_proof(CoreOpcode::LoadString, index), 1);
}

#[test]
fn explicit_runtime_helper_entrypoint_returns_handoff_for_load_bigint_proof() {
    let index = BytecodeIndex::from_offset(0);
    assert_explicit_runtime_helper_handoff(load_bigint_block(), CoreOpcode::LoadBigInt, runtime_boundary_proof(CoreOpcode::LoadBigInt, index), 1);
}

#[test]
fn explicit_runtime_helper_entrypoint_rejects_invalid_and_mismatched_proofs() {
    let block = new_object_block();
    let artifact = new_object_shadow_artifact();
    let bytecode_index = BytecodeIndex::from_offset(0);
    let mut invalid = new_object_runtime_boundary_proof_at(bytecode_index);
    invalid.no_gc_exit_reentry = false;
    let invalid_plan = runtime_helper_plan_for_block(&block, vec![BaselineGeneratedRuntimeHelperProof::new(bytecode_index, invalid)]);
    let (invalid_result, _) = execute_generated_with_runtime_helper_table(owner(), &block, &artifact, &invalid_plan);
    assert_eq!(
        invalid_result,
        Err(BaselineGeneratedExecutionError::RuntimeHelperHandoff {
            bytecode_index,
            opcode: BaselineGeneratedFallbackOpcode::Core(CoreOpcode::NewObject),
            error: BaselineGeneratedRuntimeHelperHandoffError::MissingNoGcExitReentry { opcode: CoreOpcode::NewObject },
        })
    );

    let new_array = runtime_boundary_proof(CoreOpcode::NewArray, bytecode_index);
    let mismatched_plan = runtime_helper_plan_for_block(&block, vec![BaselineGeneratedRuntimeHelperProof::new(bytecode_index, new_array)]);
    let (mismatched_result, _) = execute_generated_with_runtime_helper_table(owner(), &block, &artifact, &mismatched_plan);
    assert_eq!(
        mismatched_result,
        Err(BaselineGeneratedExecutionError::RuntimeHelperHandoff {
            bytecode_index,
            opcode: BaselineGeneratedFallbackOpcode::Core(CoreOpcode::NewObject),
            error: BaselineGeneratedRuntimeHelperHandoffError::OpcodeMismatch {
                instruction: CoreOpcode::NewObject,
                proof: CoreOpcode::NewArray,
            },
        })
    );
}

fn assert_mismatched_new_object_proof_rejected(block: CodeBlock, opcode: CoreOpcode) {
    let artifact = new_object_shadow_artifact();
    let bytecode_index = BytecodeIndex::from_offset(0);
    let proof = new_object_runtime_boundary_proof_at(bytecode_index);
    let plan = runtime_helper_plan_for_block(&block, vec![BaselineGeneratedRuntimeHelperProof::new(bytecode_index, proof)]);
    let (result, _) = execute_generated_with_runtime_helper_table(owner(), &block, &artifact, &plan);
    assert_eq!(
        result,
        Err(BaselineGeneratedExecutionError::RuntimeHelperHandoff {
            bytecode_index,
            opcode: BaselineGeneratedFallbackOpcode::Core(opcode),
            error: BaselineGeneratedRuntimeHelperHandoffError::OpcodeMismatch {
                instruction: opcode,
                proof: CoreOpcode::NewObject,
            },
        })
    );
}

#[test]
fn explicit_runtime_helper_entrypoint_rejects_new_array_mismatched_proof() {
    assert_mismatched_new_object_proof_rejected(new_array_block(), CoreOpcode::NewArray);
}

#[test]
fn explicit_runtime_helper_entrypoint_rejects_typeof_mismatched_proof() {
    assert_mismatched_new_object_proof_rejected(type_of_block(), CoreOpcode::TypeOf);
}

fn assert_runtime_helper_absent_falls_back(block: CodeBlock, opcode: CoreOpcode) {
    let artifact = new_object_shadow_artifact();
    let plan = runtime_helper_plan_for_block(&block, Vec::new());
    let (result, state) = execute_generated_with_runtime_helper_table(owner(), &block, &artifact, &plan);
    let frame = top_frame_id(&state);
    let bytecode_index = BytecodeIndex::from_offset(0);
    assert_eq!(
        result,
        Ok(BaselineGeneratedExecutionWithRuntimeHelpersResult::Fallback(BaselineGeneratedFallback {
            request: BaselineFallbackRequest::new(owner(), frame, bytecode_index),
            reason: core_fallback_reason(bytecode_index, opcode, BaselineGeneratedFallbackCause::UnsupportedOpcode),
        }))
    );
}

#[test]
fn explicit_runtime_helper_entrypoint_falls_back_when_proof_absent() {
    assert_runtime_helper_absent_falls_back(new_object_block(), CoreOpcode::NewObject);
}

#[test]
fn explicit_runtime_helper_entrypoint_falls_back_when_new_array_proof_absent() {
    assert_runtime_helper_absent_falls_back(new_array_block(), CoreOpcode::NewArray);
}

#[test]
fn explicit_runtime_helper_entrypoint_falls_back_when_typeof_proof_absent() {
    assert_runtime_helper_absent_falls_back(type_of_block(), CoreOpcode::TypeOf);
}

#[test]
fn explicit_runtime_helper_entrypoint_falls_back_when_load_string_proof_absent() {
    assert_runtime_helper_absent_falls_back(load_string_block(), CoreOpcode::LoadString);
}

#[test]
fn explicit_runtime_helper_entrypoint_falls_back_when_load_bigint_proof_absent() {
    assert_runtime_helper_absent_falls_back(load_bigint_block(), CoreOpcode::LoadBigInt);
}

#[test]
fn explicit_runtime_helper_entrypoint_rejects_stale_helper_plan_snapshot() {
    let block = new_object_block();
    let stale = load_undefined_return_block();
    let bytecode_index = BytecodeIndex::from_offset(0);
    let proof = new_object_runtime_boundary_proof_at(bytecode_index);
    let stale_metadata = runtime_helper_metadata_for_block(&stale, vec![BaselineGeneratedRuntimeHelperProof::new(bytecode_index, proof)]);
    let artifact = artifact_for_block_with_runtime_helper_metadata(
        owner(),
        &stale,
        BaselineSupportedOpcodeSubset::P6ConstantsMovesReturnInt32ArithmeticBitwise,
        stale_metadata,
    );
    let (result, _) =
        execute_generated_with_runtime_helper_table(owner(), &block, &artifact, artifact.runtime_helper_plan().unwrap());
    assert!(matches!(result, Err(BaselineGeneratedExecutionError::CodeBlockSnapshotMismatch { .. })));
}

#[test]
fn owned_runtime_helper_metadata_rejects_duplicate_bytecode_proofs() {
    let block = new_object_block();
    let bytecode_index = BytecodeIndex::from_offset(0);
    let proof = new_object_runtime_boundary_proof_at(bytecode_index);
    assert_eq!(
        BaselineGeneratedRuntimeHelperPlanMetadata::from_code_block_snapshot(
            &block,
            vec![
                BaselineGeneratedRuntimeHelperProof::new(bytecode_index, proof),
                BaselineGeneratedRuntimeHelperProof::new(bytecode_index, proof),
            ],
        ),
        Err(JitPlanValidationError::BaselineGeneratedRuntimeHelperPlanDuplicateProof { bytecode_index })
    );
}

#[test]
fn explicit_runtime_helper_entrypoint_executes_current_no_heap_subset_normally() {
    let block = code_block(vec![
        core_typed(0, CoreOpcode::LoadInt32, vec![Operand::Register(local(0)), Operand::SignedImmediate(41)]),
        core_typed(
            1,
            CoreOpcode::AddInt32,
            vec![Operand::Register(local(1)), Operand::Register(local(0)), Operand::Register(local(0))],
        ),
        core_typed(2, CoreOpcode::Return, vec![Operand::Register(local(1))]),
    ]);
    let artifact = artifact_for_block(owner(), &block);
    let plan = runtime_helper_plan_for_block(&block, Vec::new());
    let (result, _) = execute_generated_with_runtime_helper_table(owner(), &block, &artifact, &plan);
    assert_eq!(
        result,
        Ok(BaselineGeneratedExecutionWithRuntimeHelpersResult::Completed(ExecutionCompletion::Returned(
            RuntimeValue::from_i32(82)
        )))
    );
}

fn runtime_helper_handoff_frame() -> CallFrameId {
    CallFrameId(33)
}

fn decoded_core_handoff_instruction(bytecode_index: BytecodeIndex, opcode: CoreOpcode) -> TypedInstruction {
    TypedInstruction::new(opcode.opcode(), bytecode_index, Vec::new())
}

fn decoded_handoff_instruction(bytecode_index: BytecodeIndex, opcode: Opcode) -> TypedInstruction {
    TypedInstruction::new(opcode, bytecode_index, Vec::new())
}

fn new_object_runtime_boundary_proof() -> BaselineGeneratedRuntimeBoundaryProof {
    runtime_boundary_proof(CoreOpcode::NewObject, BytecodeIndex::from_offset(20))
}

fn assert_runtime_helper_boundary_accepted(
    opcode: CoreOpcode,
    proof: BaselineGeneratedRuntimeBoundaryProof,
    root_count: usize,
) {
    let owner = owner();
    let frame = runtime_helper_handoff_frame();
    let index = BytecodeIndex::from_offset(20);
    let instruction = decoded_core_handoff_instruction(index, opcode);
    let handoff = baseline_generated_runtime_helper_handoff(owner, frame, &instruction, &proof).unwrap();
    assert_eq!(handoff.resume, BaselineGeneratedRuntimeHelperResume { owner, frame, bytecode_index: index, opcode });
    assert_eq!(handoff.safepoint, CompilerSafepointId(7));
    assert_eq!(handoff.root_map, BytecodeRootMapId(42));
    assert_eq!(handoff.root_count, root_count);
    assert!(handoff.requires_no_gc_exit_reentry);
    assert!(handoff.may_throw);
}

#[test]
fn runtime_helper_handoff_accepts_planner_new_object_boundary() {
    assert_runtime_helper_boundary_accepted(CoreOpcode::NewObject, new_object_runtime_boundary_proof(), 1);
}

#[test]
fn runtime_helper_handoff_rejects_opcode_mismatch() {
    let proof = new_object_runtime_boundary_proof();
    let instruction = decoded_core_handoff_instruction(BytecodeIndex::from_offset(20), CoreOpcode::NewArray);
    assert_eq!(
        baseline_generated_runtime_helper_handoff(owner(), runtime_helper_handoff_frame(), &instruction, &proof),
        Err(BaselineGeneratedRuntimeHelperHandoffError::OpcodeMismatch {
            instruction: CoreOpcode::NewArray,
            proof: CoreOpcode::NewObject,
        })
    );
}

#[test]
fn runtime_helper_handoff_accepts_planner_typeof_boundary() {
    let index = BytecodeIndex::from_offset(20);
    assert_runtime_helper_boundary_accepted(CoreOpcode::TypeOf, type_of_runtime_boundary_proof_at(index), 2);
}

#[test]
fn runtime_helper_handoff_accepts_planner_load_string_boundary() {
    let index = BytecodeIndex::from_offset(20);
    assert_runtime_helper_boundary_accepted(CoreOpcode::LoadString, runtime_boundary_proof(CoreOpcode::LoadString, index), 1);
}

#[test]
fn runtime_helper_handoff_accepts_planner_load_bigint_boundary() {
    let index = BytecodeIndex::from_offset(20);
    assert_runtime_helper_boundary_accepted(CoreOpcode::LoadBigInt, runtime_boundary_proof(CoreOpcode::LoadBigInt, index), 1);
}

#[test]
fn runtime_helper_handoff_rejects_missing_no_gc_exit_reentry() {
    let mut proof = new_object_runtime_boundary_proof();
    proof.no_gc_exit_reentry = false;
    let instruction = decoded_core_handoff_instruction(BytecodeIndex::from_offset(20), CoreOpcode::NewObject);
    assert_eq!(
        baseline_generated_runtime_helper_handoff(owner(), runtime_helper_handoff_frame(), &instruction, &proof),
        Err(BaselineGeneratedRuntimeHelperHandoffError::MissingNoGcExitReentry { opcode: CoreOpcode::NewObject })
    );
}

#[test]
fn runtime_helper_handoff_rejects_stale_may_throw_metadata() {
    let mut proof = new_object_runtime_boundary_proof();
    proof.may_throw = false;
    let instruction = decoded_core_handoff_instruction(BytecodeIndex::from_offset(20), CoreOpcode::NewObject);
    assert_eq!(
        baseline_generated_runtime_helper_handoff(owner(), runtime_helper_handoff_frame(), &instruction, &proof),
        Err(BaselineGeneratedRuntimeHelperHandoffError::MayThrowMismatch {
            opcode: CoreOpcode::NewObject,
            proof_may_throw: false,
            contract_may_throw: true,
        })
    );
}

#[test]
fn runtime_helper_handoff_rejects_current_no_heap_contracts() {
    let mut proof = new_object_runtime_boundary_proof();
    proof.contract.opcode = CoreOpcode::LoadInt32;
    proof.contract.effects.calls_runtime_helper = false;
    let instruction = decoded_core_handoff_instruction(BytecodeIndex::from_offset(20), CoreOpcode::LoadInt32);
    assert_eq!(
        baseline_generated_runtime_helper_handoff(owner(), runtime_helper_handoff_frame(), &instruction, &proof),
        Err(BaselineGeneratedRuntimeHelperHandoffError::ContractDoesNotCallRuntimeHelper { opcode: CoreOpcode::LoadInt32 })
    );
    proof.contract.effects.calls_runtime_helper = true;
    proof.contract.effects.touches_gc_roots = false;
    assert_eq!(
        baseline_generated_runtime_helper_handoff(owner(), runtime_helper_handoff_frame(), &instruction, &proof),
        Err(BaselineGeneratedRuntimeHelperHandoffError::ContractDoesNotTouchGcRoots { opcode: CoreOpcode::LoadInt32 })
    );
}

#[test]
fn runtime_helper_handoff_rejects_invalid_instruction_and_root_map_metadata() {
    let proof = new_object_runtime_boundary_proof();
    let invalid_instruction = decoded_core_handoff_instruction(BytecodeIndex::invalid(), CoreOpcode::NewObject);
    assert_eq!(
        baseline_generated_runtime_helper_handoff(owner(), runtime_helper_handoff_frame(), &invalid_instruction, &proof),
        Err(BaselineGeneratedRuntimeHelperHandoffError::InvalidBytecodeIndex { bytecode_index: BytecodeIndex::invalid() })
    );
    let generated = Opcode::Generated(OpcodeId::from_generated_index(4095));
    let non_core_instruction = decoded_handoff_instruction(BytecodeIndex::from_offset(20), generated);
    assert_eq!(
        baseline_generated_runtime_helper_handoff(owner(), runtime_helper_handoff_frame(), &non_core_instruction, &proof),
        Err(BaselineGeneratedRuntimeHelperHandoffError::NonCoreOpcode { opcode: generated })
    );
    let mut proof = proof;
    proof.root_map = None;
    let instruction = decoded_core_handoff_instruction(BytecodeIndex::from_offset(20), CoreOpcode::NewObject);
    assert_eq!(
        baseline_generated_runtime_helper_handoff(owner(), runtime_helper_handoff_frame(), &instruction, &proof),
        Err(BaselineGeneratedRuntimeHelperHandoffError::MissingRootMap {
            opcode: CoreOpcode::NewObject,
            safepoint: CompilerSafepointId(7),
        })
    );
    proof.root_map = Some(BytecodeRootMapId(42));
    proof.contract.requirements.complete_safepoint_root_map = false;
    assert_eq!(
        baseline_generated_runtime_helper_handoff(owner(), runtime_helper_handoff_frame(), &instruction, &proof),
        Err(BaselineGeneratedRuntimeHelperHandoffError::MissingCompleteSafepointRootMap { opcode: CoreOpcode::NewObject })
    );
}

fn js_call_handoff_instruction(opcode: CoreOpcode) -> TypedInstruction {
    let operands = match opcode {
        CoreOpcode::Call | CoreOpcode::Construct => {
            vec![Operand::Register(local(1)), Operand::Register(local(2)), Operand::UnsignedImmediate(0)]
        }
        CoreOpcode::CallWithThis => vec![
            Operand::Register(local(1)),
            Operand::Register(local(2)),
            Operand::Register(local(3)),
            Operand::UnsignedImmediate(0),
        ],
        _ => Vec::new(),
    };
    core_typed(0, opcode, operands)
}

#[allow(clippy::too_many_arguments)]
fn expected_js_call_continuation(
    owner: CodeBlockId,
    frame: CallFrameId,
    opcode: CoreOpcode,
    call_bytecode_index: BytecodeIndex,
    resume_bytecode_index: Option<BytecodeIndex>,
    destination: VirtualRegister,
    argument_count_including_this: u32,
    callee_value: RuntimeValue,
) -> BaselineGeneratedJsCallHandoffContinuation {
    BaselineGeneratedJsCallHandoffContinuation::Call(CallReturnContinuation {
        caller_frame: frame,
        callee_frame: None,
        owner,
        call_bytecode_index,
        resume_bytecode_index,
        destination,
        argument_count_including_this,
        callee_value: Some(callee_value),
        callee_object: None,
        kind: CallReturnKind::from_opcode(opcode).unwrap(),
    })
}

fn baseline_generated_js_call_handoff_for_test(
    owner: CodeBlockId,
    code_block: &CodeBlock,
    instruction: &TypedInstruction,
) -> Result<BaselineGeneratedJsCallHandoff, BaselineGeneratedJsCallHandoffError> {
    let mut state = InterpreterExecutionState::new();
    let frame = enter_program_frame(&mut state, owner, code_block);
    let window = state.stack.top_frame().unwrap().register_window;
    baseline_generated_js_call_handoff(owner, frame, window, code_block, &state, instruction)
}

#[test]
fn js_call_handoff_accepts_core_call_call_with_this_and_construct() {
    let owner = owner();
    for opcode in [CoreOpcode::Call, CoreOpcode::CallWithThis] {
        let block = code_block(vec![js_call_handoff_instruction(opcode)]);
        let instruction = block.decoded_instruction_at(BytecodeIndex::from_offset(0)).unwrap();
        let handoff = baseline_generated_js_call_handoff_for_test(owner, &block, instruction).unwrap();
        let frame = handoff.resume.frame;
        assert_eq!(
            handoff,
            BaselineGeneratedJsCallHandoff {
                resume: BaselineGeneratedJsCallResume {
                    owner,
                    frame,
                    bytecode_index: BytecodeIndex::from_offset(0),
                    opcode,
                },
                continuation: expected_js_call_continuation(
                    owner,
                    frame,
                    opcode,
                    BytecodeIndex::from_offset(0),
                    None,
                    local(1),
                    1,
                    RuntimeValue::undefined(),
                ),
                owner_continuation: None,
                direct_call: None,
                requires_no_gc_exit_reentry: true,
                may_throw: true,
            }
        );
    }

    let construct_block = code_block(vec![js_call_handoff_instruction(CoreOpcode::Construct)]);
    let construct_instruction = construct_block.decoded_instruction_at(BytecodeIndex::from_offset(0)).unwrap();
    let construct_handoff =
        baseline_generated_js_call_handoff_for_test(owner, &construct_block, construct_instruction).unwrap();
    let construct_frame = construct_handoff.resume.frame;
    let construct_window = construct_handoff.continuation.as_construct().expect("construct continuation").caller_window;
    assert_eq!(
        construct_handoff,
        BaselineGeneratedJsCallHandoff {
            resume: BaselineGeneratedJsCallResume {
                owner,
                frame: construct_frame,
                bytecode_index: BytecodeIndex::from_offset(0),
                opcode: CoreOpcode::Construct,
            },
            continuation: BaselineGeneratedJsCallHandoffContinuation::Construct(BaselineGeneratedJsConstructContinuation {
                caller_frame: construct_frame,
                caller_window: construct_window,
                owner,
                construct_bytecode_index: BytecodeIndex::from_offset(0),
                resume_bytecode_index: None,
                destination: local(1),
                argument_count_including_this: 1,
                callee_value: RuntimeValue::undefined(),
                callee_object: None,
            }),
            owner_continuation: None,
            direct_call: None,
            requires_no_gc_exit_reentry: true,
            may_throw: true,
        }
    );

    let block = code_block(vec![js_call_handoff_instruction(CoreOpcode::Call)]);
    let index = BytecodeIndex::from_offset(20);
    for opcode in [CoreOpcode::CallDirect, CoreOpcode::ConstructSuper] {
        assert_eq!(
            baseline_generated_js_call_handoff_for_test(owner, &block, &decoded_core_handoff_instruction(index, opcode)),
            Err(BaselineGeneratedJsCallHandoffError::UnsupportedOpcode { opcode })
        );
    }
    assert_eq!(
        baseline_generated_js_call_handoff_for_test(
            owner,
            &block,
            &decoded_core_handoff_instruction(BytecodeIndex::invalid(), CoreOpcode::Call),
        ),
        Err(BaselineGeneratedJsCallHandoffError::InvalidBytecodeIndex { bytecode_index: BytecodeIndex::invalid() })
    );
    let generated = Opcode::Generated(OpcodeId::from_generated_index(4095));
    assert_eq!(
        baseline_generated_js_call_handoff_for_test(owner, &block, &decoded_handoff_instruction(index, generated)),
        Err(BaselineGeneratedJsCallHandoffError::NonCoreOpcode { opcode: generated })
    );
}

fn property_handoff_site(owner: CodeBlockId, index: BytecodeIndex, identifier: u32) -> BaselineGeneratedPropertyHandoffSite {
    BaselineGeneratedPropertyHandoffSite::get_by_name_property_load(owner, InlineCacheSlotId(0), index, identifier)
}

fn property_store_handoff_site(owner: CodeBlockId, index: BytecodeIndex, identifier: u32) -> BaselineGeneratedPropertyHandoffSite {
    BaselineGeneratedPropertyHandoffSite::put_by_name_property_store(owner, InlineCacheSlotId(0), index, identifier)
}

fn expected_property_handoff(
    owner: CodeBlockId,
    frame: CallFrameId,
    index: BytecodeIndex,
    opcode: CoreOpcode,
    site: BaselineGeneratedPropertyHandoffSite,
) -> BaselineGeneratedPropertyHandoff {
    BaselineGeneratedPropertyHandoff {
        resume: BaselineGeneratedPropertyResume { owner, frame, bytecode_index: index, opcode },
        site,
        requires_no_gc_exit_reentry: site.requires_no_gc_exit_reentry,
        may_throw: site.may_throw,
    }
}

#[test]
fn property_handoff_accepts_named_property_load_and_store() {
    let owner = owner();
    let frame = runtime_helper_handoff_frame();
    let index = BytecodeIndex::from_offset(20);
    let slot = InlineCacheSlotId(0);
    let cases = [
        (CoreOpcode::GetByName, property_handoff_site(owner, index, 11)),
        (CoreOpcode::PutByName, property_store_handoff_site(owner, index, 11)),
        (CoreOpcode::GetByValue, BaselineGeneratedPropertyHandoffSite::get_by_value_element_load(owner, slot, index, local(3))),
        (CoreOpcode::PutByValue, BaselineGeneratedPropertyHandoffSite::put_by_value_element_store(owner, slot, index, local(3))),
        (CoreOpcode::GetLength, BaselineGeneratedPropertyHandoffSite::get_length_property_load(owner, slot, index, 11)),
        (CoreOpcode::InById, BaselineGeneratedPropertyHandoffSite::in_by_id_has(owner, slot, index, 11)),
        (CoreOpcode::InByVal, BaselineGeneratedPropertyHandoffSite::in_by_value_has(owner, slot, index, local(3))),
    ];
    let mut last_site = cases[0].1;
    for (opcode, site) in cases {
        let instruction = decoded_core_handoff_instruction(index, opcode);
        let handoff = baseline_generated_property_handoff(owner, frame, &instruction, &site).unwrap();
        assert_eq!(handoff, expected_property_handoff(owner, frame, index, opcode, site));
        last_site = site;
    }
    for opcode in [
        CoreOpcode::DeleteByName,
        CoreOpcode::DeleteByValue,
        CoreOpcode::ArrayLength,
        CoreOpcode::CallWithThis,
        CoreOpcode::Construct,
    ] {
        assert_eq!(
            baseline_generated_property_handoff(owner, frame, &decoded_core_handoff_instruction(index, opcode), &last_site),
            Err(BaselineGeneratedPropertyHandoffError::UnsupportedOpcode { opcode })
        );
    }
    assert_eq!(
        baseline_generated_property_handoff(
            owner,
            frame,
            &decoded_core_handoff_instruction(BytecodeIndex::invalid(), CoreOpcode::GetByName),
            &last_site,
        ),
        Err(BaselineGeneratedPropertyHandoffError::InvalidBytecodeIndex { bytecode_index: BytecodeIndex::invalid() })
    );
    let generated = Opcode::Generated(OpcodeId::from_generated_index(4095));
    assert_eq!(
        baseline_generated_property_handoff(owner, frame, &decoded_handoff_instruction(index, generated), &last_site),
        Err(BaselineGeneratedPropertyHandoffError::NonCoreOpcode { opcode: generated })
    );
}

fn mixed_artifact_for_block(owner: CodeBlockId, code_block: &CodeBlock) -> BaselineGeneratedCodeArtifact {
    let artifact = pure_number_binary_artifact(code_block);
    assert_eq!(artifact.owner, owner);
    let property_plan = derive_baseline_generated_property_handoff_plan_from_code_block(code_block, owner).unwrap();
    artifact
        .with_property_handoff_plan(property_plan)
        .with_owner_continuation_map(Some(BaselineGeneratedOwnerContinuationMapMetadata::from_code_block(code_block, owner)))
}

fn expected_owner_continuation_site(
    artifact: &BaselineGeneratedCodeArtifact,
    bytecode_index: BytecodeIndex,
) -> Option<BaselineGeneratedOwnerContinuationSite> {
    artifact.owner_continuation_map().and_then(|map| map.call_site_for_bytecode_index(bytecode_index)).copied()
}

#[test]
fn generated_executor_load_callee_reads_active_frame_callee_without_fallback() {
    let block = code_block(vec![
        core_typed(0, CoreOpcode::LoadCallee, vec![Operand::Register(local(0))]),
        core_typed(1, CoreOpcode::Return, vec![Operand::Register(local(0))]),
    ]);
    let artifact = mixed_artifact_for_block(owner(), &block);
    let callee = cell_runtime_value();
    let mut state = InterpreterExecutionState::new();
    let frame = state
        .stack
        .push_frame(
            &mut state.registers,
            FramePushRequest {
                code_block: Some(owner()),
                callee_value: Some(callee),
                num_arguments_including_this: block.frame.num_parameters_including_this,
                num_locals: block.frame.num_vars,
                start_bytecode_index: Some(BytecodeIndex::from_offset(0)),
            },
        )
        .unwrap();
    let result = execute_baseline_generated_code(
        BaselineGeneratedExecutionRequest { artifact: &artifact, owner: owner(), code_block: &block, expected_frame: frame },
        &mut state,
    );
    assert_eq!(result, completed(callee));
    assert_eq!(read_local(&state, 0), callee);
}

fn call_prefix_block(opcode: CoreOpcode) -> CodeBlock {
    let call_operands = if opcode == CoreOpcode::CallWithThis {
        vec![
            Operand::Register(local(1)),
            Operand::Register(local(2)),
            Operand::Register(local(3)),
            Operand::UnsignedImmediate(0),
        ]
    } else {
        vec![Operand::Register(local(1)), Operand::Register(local(2)), Operand::UnsignedImmediate(0)]
    };
    code_block(vec![
        core_typed(0, CoreOpcode::LoadInt32, vec![Operand::Register(local(0)), Operand::SignedImmediate(7)]),
        core_typed(1, opcode, call_operands),
        core_typed(2, CoreOpcode::Return, vec![Operand::Register(local(1))]),
    ])
}

fn assert_js_call_handoff_after_prefix(opcode: CoreOpcode) {
    let bytecode_index = BytecodeIndex::from_offset(1);
    let block = call_prefix_block(opcode);
    let artifact = mixed_artifact_for_block(owner(), &block);
    let (result, state) = execute_generated(owner(), &block, &artifact);
    let frame = state.stack.top_frame().unwrap();
    assert_eq!(
        result,
        Ok(BaselineGeneratedExecutionResult::JsCall(BaselineGeneratedJsCallHandoff {
            resume: BaselineGeneratedJsCallResume { owner: owner(), frame: frame.id, bytecode_index, opcode },
            continuation: expected_js_call_continuation(
                owner(),
                frame.id,
                opcode,
                bytecode_index,
                Some(BytecodeIndex::from_offset(2)),
                local(1),
                1,
                RuntimeValue::undefined(),
            ),
            owner_continuation: expected_owner_continuation_site(&artifact, bytecode_index),
            direct_call: None,
            requires_no_gc_exit_reentry: true,
            may_throw: true,
        }))
    );
    assert!(expected_owner_continuation_site(&artifact, bytecode_index).is_some());
    assert_eq!(frame.bytecode_index, Some(bytecode_index));
    assert_eq!(read_local(&state, 0), RuntimeValue::from_i32(7));
}

#[test]
fn generated_executor_returns_js_call_handoff_after_generated_prefix() {
    assert_js_call_handoff_after_prefix(CoreOpcode::Call);
}

#[test]
fn generated_executor_returns_call_with_this_handoff_after_generated_prefix() {
    assert_js_call_handoff_after_prefix(CoreOpcode::CallWithThis);
}

#[test]
fn generated_call_link_no_sidecar_preserves_existing_call_handoff_behavior() {
    assert_js_call_handoff_after_prefix(CoreOpcode::Call);
}

#[test]
fn generated_executor_returns_property_handoff_after_generated_prefix() {
    let block = code_block(vec![
        core_typed(0, CoreOpcode::LoadInt32, vec![Operand::Register(local(0)), Operand::SignedImmediate(7)]),
        core_typed(
            1,
            CoreOpcode::GetByName,
            vec![Operand::Register(local(1)), Operand::Register(local(2)), Operand::IdentifierIndex(11)],
        ),
        core_typed(2, CoreOpcode::Return, vec![Operand::Register(local(1))]),
    ]);
    let artifact = mixed_artifact_for_block(owner(), &block);
    let (result, state) = execute_generated(owner(), &block, &artifact);
    let frame = state.stack.top_frame().unwrap();
    let index = BytecodeIndex::from_offset(1);
    let site = property_handoff_site(owner(), index, 11);
    assert_eq!(
        result,
        Ok(BaselineGeneratedExecutionResult::Property(expected_property_handoff(
            owner(),
            frame.id,
            index,
            CoreOpcode::GetByName,
            site
        )))
    );
    assert_eq!(frame.bytecode_index, Some(index));
    assert_eq!(read_local(&state, 0), RuntimeValue::from_i32(7));
}

#[test]
fn generated_executor_returns_put_by_name_property_handoff_after_generated_prefix() {
    let block = code_block(vec![
        core_typed(0, CoreOpcode::LoadInt32, vec![Operand::Register(local(0)), Operand::SignedImmediate(7)]),
        core_typed(
            1,
            CoreOpcode::PutByName,
            vec![Operand::Register(local(2)), Operand::IdentifierIndex(11), Operand::Register(local(0))],
        ),
        core_typed(2, CoreOpcode::Return, vec![Operand::Register(local(0))]),
    ]);
    let artifact = mixed_artifact_for_block(owner(), &block);
    let (result, state) = execute_generated(owner(), &block, &artifact);
    let frame = state.stack.top_frame().unwrap();
    let index = BytecodeIndex::from_offset(1);
    let site = property_store_handoff_site(owner(), index, 11);
    assert_eq!(
        result,
        Ok(BaselineGeneratedExecutionResult::Property(expected_property_handoff(
            owner(),
            frame.id,
            index,
            CoreOpcode::PutByName,
            site
        )))
    );
    assert_eq!(frame.bytecode_index, Some(index));
    assert_eq!(read_local(&state, 0), RuntimeValue::from_i32(7));
}

#[test]
fn generated_get_by_name_without_sidecar_remains_handoff_only() {
    let block = code_block(vec![
        core_typed(
            0,
            CoreOpcode::GetByName,
            vec![Operand::Register(local(0)), Operand::Register(local(1)), Operand::IdentifierIndex(11)],
        ),
        core_typed(1, CoreOpcode::Return, vec![Operand::Register(local(0))]),
    ]);
    let artifact = mixed_artifact_for_block(owner(), &block);
    let initial_destination = RuntimeValue::from_i32(17);
    let (result, state) = execute_generated_with_initial_locals(
        owner(),
        &block,
        &artifact,
        &[(local(0), initial_destination), (local(1), cell_runtime_value())],
    );
    let frame = state.stack.top_frame().unwrap();
    let index = BytecodeIndex::from_offset(0);
    let site = property_handoff_site(owner(), index, 11);
    assert_eq!(
        result,
        Ok(BaselineGeneratedExecutionResult::Property(expected_property_handoff(
            owner(),
            frame.id,
            index,
            CoreOpcode::GetByName,
            site
        )))
    );
    assert_eq!(read_local(&state, 0), initial_destination);
}

#[test]
fn integer_to_double_bits_are_exact() {
    assert_eq!(double_from_integer(0), 0);
    assert_eq!(double_from_integer(1), 0x3ff0_0000_0000_0000);
    assert_eq!(double_from_integer(-1), 0xbff0_0000_0000_0000);
    assert_eq!(double_from_integer(3), 0x4008_0000_0000_0000);
    assert_eq!(double_from_integer(i64::from(i32::MIN)), 0xc1e0_0000_0000_0000);
    assert_eq!(double_from_integer(i64::from(u32::MAX)), 0x41ef_ffff_ffe0_0000);
    let samples: [i64; 12] = [2, 5, 7, 41, -42, 1000, -65535, 123_456_789, -987_654_321, 2_147_483_647, 4_294_967_296, (1 << 53) - 1];
    for value in samples {
        assert_eq!(double_from_integer(value), (value as f64).to_bits());
    }
}
