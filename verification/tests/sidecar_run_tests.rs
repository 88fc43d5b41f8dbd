use baseline_jit::bytecode::{BytecodeIndex, CodeBlock, CoreOpcode, Operand, RegisterFrameShape, TypedInstruction, VirtualRegister};
use baseline_jit::executor::{
    BaselineGeneratedExecutionMetrics, BaselineGeneratedExecutionRequest, BaselineGeneratedExecutionResult,
    BaselineGeneratedExecutionValidation, execute_baseline_generated_code_with_runtime_helpers,
};
use baseline_jit::host::DispatchHost;
use baseline_jit::ic::{
    GeneratedCallLinkCandidateTable, GeneratedNativeIntrinsicCallRequest, GeneratedNativeIntrinsicCallResult,
};
use baseline_jit::native_entry::BaselineNativeEntryShimExecutionError;
use baseline_jit::operands::BaselineGeneratedExecutionError;
use baseline_jit::plan::{
    BaselineBytecodeEligibilityProof, BaselineGeneratedCodeArtifact, BaselineGeneratedCodeBody,
    BaselineSupportedOpcodeSubset, CodeLiveness, fingerprint_code_block_snapshot,
};
use baseline_jit::runtime::{
    CallFrameId, CodeBlockId, ExecutionCompletion, ExecutionError, FramePushRequest, InterpreterExecutionState,
};
use baseline_jit::sidecar_dispatch::NoGeneratedSidecars;
use baseline_jit::sidecar_executor::{
    execute_baseline_generated_code_with_generated_call_link_sidecar_and_metrics,
    execute_baseline_generated_code_with_property_and_call_link_sidecars,
    execute_baseline_generated_code_with_property_sidecars,
    execute_baseline_generated_code_with_property_sidecars_and_metrics_and_validation,
    execute_baseline_generated_code_with_runtime_helpers_and_sidecars,
};
use baseline_jit::sidecars::{BaselineGeneratedCallLinkExecutionSidecar, BaselineGeneratedPropertyExecutionSidecars};
use baseline_jit::sites::BaselineGeneratedRuntimeHelperPlan;
use baseline_jit::value::RuntimeValue;
use baseline_jit::handoff::fallback_site;
use baseline_jit::ic::{DestinationRootSync, GeneratedPropertyLoadProbeHit};
use baseline_jit::operands::BaselineInstructionOutcome;
use baseline_jit::sidecars::{
    BaselineGeneratedPropertyIncrementNumericMode, BaselineGeneratedPropertyLoadDestinationRootSyncRequest,
    GeneratedCallLinkSidecarAttempt, PropertySidecarAttempt, finish_property_load_hit, finish_property_load_or_increment,
    finish_native_intrinsic_call, finish_property_has_lookup, native_intrinsic_call_request,
};
use baseline_jit::ic::GeneratedPropertyHasMegamorphicLookup;

fn owner() -> CodeBlockId {
    CodeBlockId(11)
}

fn local(index: u32) -> VirtualRegister {
    VirtualRegister::local(index)
}

fn code_block(instructions: Vec<TypedInstruction>) -> CodeBlock {
    CodeBlock::new(instructions, RegisterFrameShape { num_parameters_including_this: 1, num_vars: 8 })
}

fn core_typed(offset: u32, opcode: CoreOpcode, operands: Vec<Operand>) -> TypedInstruction {
    TypedInstruction::new(opcode.opcode(), BytecodeIndex::from_offset(offset), operands)
}

fn artifact_for_block(code_block: &CodeBlock) -> BaselineGeneratedCodeArtifact {
    let subset = BaselineSupportedOpcodeSubset::P6ConstantsMovesReturnInt32ArithmeticBitwiseRelationalJumpsPrimitiveTruthinessPrimitiveBooleanPrimitiveNumberPrimitiveToNumberVoidPureNumberBinary;
    let proof = BaselineBytecodeEligibilityProof::from_code_block_snapshot(code_block, owner(), subset).unwrap();
    BaselineGeneratedCodeArtifact::new(101, owner(), proof, BaselineGeneratedCodeBody::new(202, subset), CodeLiveness::Live)
        .unwrap()
}

fn prepared_state(code_block: &CodeBlock, initial_locals: &[(VirtualRegister, RuntimeValue)]) -> (InterpreterExecutionState, CallFrameId) {
    let mut state = InterpreterExecutionState::new();
    let frame = state
        .stack
        .push_frame(
            &mut state.registers,
            FramePushRequest {
                code_block: Some(owner()),
                callee_value: None,
                num_arguments_including_this: code_block.frame.num_parameters_including_this,
                num_locals: code_block.frame.num_vars,
                start_bytecode_index: Some(BytecodeIndex::from_offset(0)),
            },
        )
        .unwrap();
    let window = state.stack.top_frame().unwrap().register_window;
    for (register, value) in initial_locals {
        state.registers.write(window, *register, *value).unwrap();
    }
    (state, frame)
}

/// A host whose only service is one native intrinsic answer for every call.
#[derive(Debug, Default)]
struct IntrinsicHost {
    answer: Option<RuntimeValue>,
    requests: Vec<GeneratedNativeIntrinsicCallRequest>,
}

impl DispatchHost for IntrinsicHost {
    fn dispatch_generated_native_intrinsic_call(
        &mut self,
        request: GeneratedNativeIntrinsicCallRequest,
    ) -> GeneratedNativeIntrinsicCallResult {
        self.requests.push(request);
        match self.answer {
            Some(value) => GeneratedNativeIntrinsicCallResult::Hit { value },
            None => GeneratedNativeIntrinsicCallResult::Miss,
        }
    }
}

fn call_block() -> CodeBlock {
    code_block(vec![
        core_typed(0, CoreOpcode::LoadInt32, vec![Operand::Register(local(3)), Operand::SignedImmediate(5)]),
        core_typed(
            1,
            CoreOpcode::Call,
            vec![
                Operand::Register(local(1)),
                Operand::Register(local(2)),
                Operand::UnsignedImmediate(1),
                Operand::Register(local(3)),
            ],
        ),
        core_typed(2, CoreOpcode::Return, vec![Operand::Register(local(1))]),
    ])
}

fn arithmetic_block() -> CodeBlock {
    code_block(vec![
        core_typed(0, CoreOpcode::LoadInt32, vec![Operand::Register(local(0)), Operand::SignedImmediate(20)]),
        core_typed(1, CoreOpcode::LoadInt32, vec![Operand::Register(local(1)), Operand::SignedImmediate(22)]),
        core_typed(
            2,
            CoreOpcode::AddInt32,
            vec![Operand::Register(local(2)), Operand::Register(local(0)), Operand::Register(local(1))],
        ),
        core_typed(3, CoreOpcode::Return, vec![Operand::Register(local(2))]),
    ])
}

#[test]
fn runtime_helper_run_without_sidecars_is_the_plain_run() {
    let block = arithmetic_block();
    let artifact = artifact_for_block(&block);
    let plan = BaselineGeneratedRuntimeHelperPlan::new(fingerprint_code_block_snapshot(&block).unwrap(), Vec::new());
    let (mut plain_state, frame) = prepared_state(&block, &[]);
    let plain = execute_baseline_generated_code_with_runtime_helpers(
        BaselineGeneratedExecutionRequest { artifact: &artifact, owner: owner(), code_block: &block, expected_frame: frame },
        &mut plain_state,
        &plan,
    );
    let (mut state, frame) = prepared_state(&block, &[]);
    let with_sidecars = execute_baseline_generated_code_with_runtime_helpers_and_sidecars(
        BaselineGeneratedExecutionRequest { artifact: &artifact, owner: owner(), code_block: &block, expected_frame: frame },
        &mut state,
        &plan,
        &mut NoGeneratedSidecars,
        &mut NoGeneratedSidecars,
    );
    assert_eq!(with_sidecars, plain);
    assert_eq!(state, plain_state);
}

#[test]
fn property_sidecar_host_answers_call_with_native_intrinsic() {
    let block = call_block();
    let artifact = artifact_for_block(&block);
    let callee = RuntimeValue::from_cell_payload(0x4000);
    let (mut state, frame) = prepared_state(&block, &[(local(2), callee)]);
    let host = IntrinsicHost { answer: Some(RuntimeValue::from_i32(77)), requests: Vec::new() };
    let mut sidecars = BaselineGeneratedPropertyExecutionSidecars::new(host, None, None);
    let result = execute_baseline_generated_code_with_property_sidecars(
        BaselineGeneratedExecutionRequest { artifact: &artifact, owner: owner(), code_block: &block, expected_frame: frame },
        &mut state,
        &mut sidecars,
    );
    assert_eq!(result, Ok(BaselineGeneratedExecutionResult::Completed(ExecutionCompletion::Returned(RuntimeValue::from_i32(77)))));
    let requests = &sidecars.dispatch_host.requests;
    assert_eq!(requests.len(), 1);
    assert_eq!(requests[0].callee_value, callee);
    assert_eq!(requests[0].this_value, RuntimeValue::undefined());
    assert_eq!(requests[0].provided_argument_count, 1);
    assert_eq!(requests[0].first_argument, Some(RuntimeValue::from_i32(5)));
    assert_eq!(requests[0].second_argument, None);
}

#[test]
fn call_link_sidecar_is_asked_before_property_sidecars() {
    let block = call_block();
    let artifact = artifact_for_block(&block);
    let callee = RuntimeValue::from_cell_payload(0x4000);
    let (mut state, frame) = prepared_state(&block, &[(local(2), callee)]);
    let property_host = IntrinsicHost { answer: Some(RuntimeValue::from_i32(77)), requests: Vec::new() };
    let call_link_host = IntrinsicHost { answer: None, requests: Vec::new() };
    let candidates = GeneratedCallLinkCandidateTable::new(owner(), Vec::new());
    let mut property_sidecars = BaselineGeneratedPropertyExecutionSidecars::new(property_host, None, None);
    let mut call_link = BaselineGeneratedCallLinkExecutionSidecar::new(&candidates, call_link_host);
    let result = execute_baseline_generated_code_with_property_and_call_link_sidecars(
        BaselineGeneratedExecutionRequest { artifact: &artifact, owner: owner(), code_block: &block, expected_frame: frame },
        &mut state,
        &mut property_sidecars,
        &mut call_link,
    );
    assert!(matches!(result, Ok(BaselineGeneratedExecutionResult::JsCall(_))));
    assert!(property_sidecars.dispatch_host.requests.is_empty());
    assert_eq!(call_link.dispatch_host.requests.len(), 1);
    assert_eq!(call_link.probe_miss_records().len(), 1);
}

#[test]
fn sidecar_run_that_fails_its_checks_changes_nothing() {
    let block = arithmetic_block();
    let artifact = artifact_for_block(&block);
    let (mut state, frame) = prepared_state(&block, &[]);
    let before = state.clone();
    let host = IntrinsicHost::default();
    let mut sidecars = BaselineGeneratedPropertyExecutionSidecars::new(host, None, None);
    let mut metrics = BaselineGeneratedExecutionMetrics::new();
    let result = execute_baseline_generated_code_with_property_sidecars_and_metrics_and_validation(
        BaselineGeneratedExecutionRequest {
            artifact: &artifact,
            owner: CodeBlockId(99),
            code_block: &block,
            expected_frame: frame,
        },
        &mut state,
        &mut sidecars,
        &mut metrics,
        BaselineGeneratedExecutionValidation::Full,
    );
    assert!(result.is_err());
    assert_eq!(state, before);
    assert_eq!(metrics.executed_bytecode_count, 0);
    assert!(sidecars.dispatch_host.requests.is_empty());
}

#[test]
fn call_link_sidecar_run_counts_executed_instructions() {
    let block = arithmetic_block();
    let artifact = artifact_for_block(&block);
    let (mut state, frame) = prepared_state(&block, &[]);
    let candidates = GeneratedCallLinkCandidateTable::new(owner(), Vec::new());
    let mut call_link = BaselineGeneratedCallLinkExecutionSidecar::new(&candidates, IntrinsicHost::default());
    let mut metrics = BaselineGeneratedExecutionMetrics::new();
    let result = execute_baseline_generated_code_with_generated_call_link_sidecar_and_metrics(
        BaselineGeneratedExecutionRequest { artifact: &artifact, owner: owner(), code_block: &block, expected_frame: frame },
        &mut state,
        &mut call_link,
        &mut metrics,
    );
    assert_eq!(result, Ok(BaselineGeneratedExecutionResult::Completed(ExecutionCompletion::Returned(RuntimeValue::from_i32(42)))));
    assert_eq!(metrics.executed_bytecode_count, 4);
    assert!(call_link.probe_miss_records().is_empty());
}

#[test]
fn interpreter_errors_convert_into_execution_errors() {
    assert_eq!(
        BaselineGeneratedExecutionError::from(ExecutionError::NoActiveFrame),
        BaselineGeneratedExecutionError::Execution(ExecutionError::NoActiveFrame)
    );
    assert_eq!(
        BaselineNativeEntryShimExecutionError::from(ExecutionError::RegisterOutOfBounds),
        BaselineNativeEntryShimExecutionError::Execution(ExecutionError::RegisterOutOfBounds)
    );
}

use baseline_jit::handoff::{BaselineGeneratedFallbackCause, BaselineGeneratedFallbackOpcode};
use baseline_jit::ic::{
    AccessCaseDescriptor, CacheKey, GeneratedPropertyHasMegamorphicCacheEntry, GeneratedPropertyHasMegamorphicCandidateTable,
    GeneratedPropertyLoadProbeRequest, GeneratedPropertyLoadProbeResult, MegamorphicSite, PropertyKey,
    PropertyLoadAccessCasePlan, PropertyLoadAccessCasePlanKind, PropertyLoadAccessCasePlanTable,
    PropertyLoadGuardedCandidateTable, PropertyOffset, StructureId,
};
use baseline_jit::native_entry::{
    BaselineNativeEntryCallableAuthority, BaselineNativeEntryCallableValidationError, BaselineNativeEntryDescriptor,
    BaselineNativeEntryShimExecutionRequest, BaselineNativeEntryShimExecutionResult, execute_baseline_p6_native_entry_shim,
};
use baseline_jit::sidecars::{
    BaselineGeneratedPropertyLoadSidecarProbeAttempt, execute_baseline_generated_property_has_sidecar_probe,
    execute_baseline_generated_property_load_sidecar_probe,
};
use baseline_jit::sites::{BaselineGeneratedPropertyHandoffSite, InlineCacheSlotId};

fn shim_request(block: &CodeBlock, frame: CallFrameId, revoked: bool) -> BaselineNativeEntryShimExecutionRequest<'_> {
    BaselineNativeEntryShimExecutionRequest {
        callable: BaselineNativeEntryCallableAuthority {
            descriptor: BaselineNativeEntryDescriptor {
                owner: owner(),
                opcode_subset: BaselineSupportedOpcodeSubset::P6ConstantsMovesReturnInt32ArithmeticBitwise,
            },
            revoked,
        },
        owner: owner(),
        code_block: block,
        expected_frame: frame,
    }
}

#[test]
fn native_entry_shim_runs_its_subset_to_completion() {
    let block = arithmetic_block();
    let (mut state, frame) = prepared_state(&block, &[]);
    let result = execute_baseline_p6_native_entry_shim(shim_request(&block, frame, false), &mut state);
    assert_eq!(result, Ok(BaselineNativeEntryShimExecutionResult::Completed(ExecutionCompletion::Returned(RuntimeValue::from_i32(42)))));
}

#[test]
fn native_entry_shim_falls_back_outside_its_subset_and_refuses_revoked_authority() {
    let block = call_block();
    let (mut state, frame) = prepared_state(&block, &[]);
    let result = execute_baseline_p6_native_entry_shim(shim_request(&block, frame, false), &mut state);
    match result {
        Ok(BaselineNativeEntryShimExecutionResult::Fallback(fallback)) => {
            assert_eq!(fallback.request.bytecode_index, BytecodeIndex::from_offset(1));
            assert_eq!(fallback.reason.opcode, BaselineGeneratedFallbackOpcode::Core(CoreOpcode::Call));
            assert_eq!(fallback.reason.cause, BaselineGeneratedFallbackCause::UnsupportedOpcode);
        },
        other => panic!("expected a fallback at the call, got {:?}", other),
    }
    let (mut state, frame) = prepared_state(&block, &[]);
    let before = state.clone();
    let result = execute_baseline_p6_native_entry_shim(shim_request(&block, frame, true), &mut state);
    assert_eq!(
        result,
        Err(BaselineNativeEntryShimExecutionError::CallableAuthority(BaselineNativeEntryCallableValidationError::Revoked))
    );
    assert_eq!(state, before);
}

/// A host whose every load and `in` question has one answer.
#[derive(Debug, Default)]
struct AnsweringHost {
    structure: Option<StructureId>,
    load_requests: Vec<GeneratedPropertyLoadProbeRequest>,
}

impl DispatchHost for AnsweringHost {
    fn generated_property_has_sidecar_base_structure(&mut self, _base: RuntimeValue) -> Option<StructureId> {
        self.structure
    }

    fn probe_generated_property_load(&mut self, request: GeneratedPropertyLoadProbeRequest) -> GeneratedPropertyLoadProbeResult {
        self.load_requests.push(request);
        GeneratedPropertyLoadProbeResult::hit(RuntimeValue::from_i32(8))
    }
}

fn get_by_name_block() -> CodeBlock {
    code_block(vec![
        core_typed(
            0,
            CoreOpcode::GetByName,
            vec![Operand::Register(local(0)), Operand::Register(local(1)), Operand::IdentifierIndex(11)],
        ),
        core_typed(1, CoreOpcode::Return, vec![Operand::Register(local(0))]),
    ])
}

#[test]
fn property_load_sidecar_probe_reports_the_next_bytecode_index() {
    let block = get_by_name_block();
    let key = CacheKey::Property(PropertyKey::Identifier(11));
    let plan = PropertyLoadAccessCasePlan {
        plan_kind: PropertyLoadAccessCasePlanKind::DataOnlyOwnLoad,
        owner: owner(),
        slot: InlineCacheSlotId(0),
        bytecode_index: 0,
        key,
        access_case: AccessCaseDescriptor {
            key,
            base_structure: Some(StructureId::new(1)),
            new_structure: None,
            holder: None,
            offset: Some(PropertyOffset::new(0)),
        },
    };
    let plan_table = PropertyLoadAccessCasePlanTable::new(owner(), vec![plan]);
    let guarded_table = PropertyLoadGuardedCandidateTable::new(owner(), Vec::new());
    let base = RuntimeValue::from_cell_payload(0x1234);
    let (mut state, frame) = prepared_state(&block, &[(local(1), base)]);
    let window = state.stack.top_frame().unwrap().register_window;
    let mut sidecars =
        BaselineGeneratedPropertyExecutionSidecars::new(AnsweringHost::default(), Some((&plan_table, &guarded_table)), None);
    let instruction = block.decoded_instruction_at(BytecodeIndex::from_offset(0)).unwrap();
    let hit = execute_baseline_generated_property_load_sidecar_probe(
        &mut sidecars,
        &mut state,
        BaselineGeneratedPropertyLoadSidecarProbeAttempt {
            owner: owner(),
            frame,
            window,
            code_block: &block,
            instruction,
            site: BaselineGeneratedPropertyHandoffSite::get_by_name_property_load(
                owner(),
                InlineCacheSlotId(0),
                BytecodeIndex::from_offset(0),
                11,
            ),
        },
    )
    .unwrap()
    .expect("the host answers the load");
    assert_eq!(hit.next_bytecode_index, Some(BytecodeIndex::from_offset(1)));
    assert_eq!(state.registers.read(window, local(0), &block).unwrap(), RuntimeValue::from_i32(8));
    assert_eq!(sidecars.dispatch_host.load_requests.len(), 1);
    assert_eq!(sidecars.dispatch_host.load_requests[0].base, base);
}

#[test]
fn property_has_sidecar_probe_without_table_leaves_the_instruction() {
    let block = code_block(vec![
        core_typed(
            0,
            CoreOpcode::InById,
            vec![Operand::Register(local(0)), Operand::Register(local(1)), Operand::IdentifierIndex(11)],
        ),
        core_typed(1, CoreOpcode::Return, vec![Operand::Register(local(0))]),
    ]);
    let key = CacheKey::Property(PropertyKey::Identifier(11));
    let base = RuntimeValue::from_cell_payload(0x1234);
    let (mut state, frame) = prepared_state(&block, &[(local(1), base)]);
    let window = state.stack.top_frame().unwrap().register_window;
    let instruction = block.decoded_instruction_at(BytecodeIndex::from_offset(0)).unwrap();
    let attempt = BaselineGeneratedPropertyLoadSidecarProbeAttempt {
        owner: owner(),
        frame,
        window,
        code_block: &block,
        instruction,
        site: BaselineGeneratedPropertyHandoffSite::in_by_id_has(owner(), InlineCacheSlotId(0), BytecodeIndex::from_offset(0), 11),
    };
    let host = AnsweringHost { structure: Some(StructureId::new(2)), load_requests: Vec::new() };
    let mut sidecars = BaselineGeneratedPropertyExecutionSidecars::new(host, None, None);
    let before = state.clone();
    assert_eq!(execute_baseline_generated_property_has_sidecar_probe(&mut sidecars, &mut state, attempt), Ok(None));
    assert_eq!(state, before);

    let table = GeneratedPropertyHasMegamorphicCandidateTable::with_primary_entry(
        owner(),
        1,
        MegamorphicSite { owner: owner(), slot: InlineCacheSlotId(0), bytecode_index: 0, key },
        GeneratedPropertyHasMegamorphicCacheEntry { key, base_structure: StructureId::new(2), epoch: 1, result: true },
    );
    let mut sidecars = sidecars.with_property_has_megamorphic_candidate_table(Some(&table));
    let hit = execute_baseline_generated_property_has_sidecar_probe(&mut sidecars, &mut state, attempt)
        .unwrap()
        .expect("the table answers for the structure");
    assert_eq!(hit.next_bytecode_index, Some(BytecodeIndex::from_offset(1)));
    assert_eq!(state.registers.read(window, local(0), &block).unwrap(), RuntimeValue::from_bool(true));
}

/// A host that must never be asked anything.
struct SilentHost;

impl DispatchHost for SilentHost {
    fn dispatch_generated_native_intrinsic_call(
        &mut self,
        _request: GeneratedNativeIntrinsicCallRequest,
    ) -> GeneratedNativeIntrinsicCallResult {
        panic!("code that never calls must not reach the host")
    }

    fn probe_generated_property_load(&mut self, _request: GeneratedPropertyLoadProbeRequest) -> GeneratedPropertyLoadProbeResult {
        panic!("code without property accesses must not reach the host")
    }
}

#[test]
fn sidecar_free_code_runs_as_without_sidecars() {
    let block = arithmetic_block();
    let artifact = artifact_for_block(&block);
    let (mut plain_state, frame) = prepared_state(&block, &[]);
    let plain = baseline_jit::executor::execute_baseline_generated_code(
        BaselineGeneratedExecutionRequest { artifact: &artifact, owner: owner(), code_block: &block, expected_frame: frame },
        &mut plain_state,
    );
    let (mut state, frame) = prepared_state(&block, &[]);
    let mut sidecars = BaselineGeneratedPropertyExecutionSidecars::new(SilentHost, None, None);
    let result = execute_baseline_generated_code_with_property_sidecars(
        BaselineGeneratedExecutionRequest { artifact: &artifact, owner: owner(), code_block: &block, expected_frame: frame },
        &mut state,
        &mut sidecars,
    );
    assert_eq!(result, plain);
    assert_eq!(state, plain_state);
    assert!(sidecars.property_load_probe_miss_records().is_empty());
}

#[test]
fn sidecars_are_not_consulted_when_the_call_is_never_reached() {
    let block = code_block(vec![
        core_typed(0, CoreOpcode::LoadInt32, vec![Operand::Register(local(0)), Operand::SignedImmediate(3)]),
        core_typed(1, CoreOpcode::Return, vec![Operand::Register(local(0))]),
        core_typed(
            2,
            CoreOpcode::Call,
            vec![Operand::Register(local(1)), Operand::Register(local(2)), Operand::UnsignedImmediate(0)],
        ),
    ]);
    let artifact = artifact_for_block(&block);
    let (mut state, frame) = prepared_state(&block, &[]);
    let mut sidecars = BaselineGeneratedPropertyExecutionSidecars::new(SilentHost, None, None);
    let result = execute_baseline_generated_code_with_property_sidecars(
        BaselineGeneratedExecutionRequest { artifact: &artifact, owner: owner(), code_block: &block, expected_frame: frame },
        &mut state,
        &mut sidecars,
    );
    assert_eq!(result, Ok(BaselineGeneratedExecutionResult::Completed(ExecutionCompletion::Returned(RuntimeValue::from_i32(3)))));
}

#[test]
fn property_load_sidecar_for_another_code_block_leaves_the_instruction() {
    let block = get_by_name_block();
    let key = CacheKey::Property(PropertyKey::Identifier(11));
    let other_owner = CodeBlockId(12);
    let plan = PropertyLoadAccessCasePlan {
        plan_kind: PropertyLoadAccessCasePlanKind::DataOnlyOwnLoad,
        owner: other_owner,
        slot: InlineCacheSlotId(0),
        bytecode_index: 0,
        key,
        access_case: AccessCaseDescriptor {
            key,
            base_structure: Some(StructureId::new(1)),
            new_structure: None,
            holder: None,
            offset: Some(PropertyOffset::new(0)),
        },
    };
    let plan_table = PropertyLoadAccessCasePlanTable::new(other_owner, vec![plan]);
    let guarded_table = PropertyLoadGuardedCandidateTable::new(other_owner, Vec::new());
    let base = RuntimeValue::from_cell_payload(0x1234);
    let (mut state, frame) = prepared_state(&block, &[(local(1), base)]);
    let window = state.stack.top_frame().unwrap().register_window;
    let mut sidecars =
        BaselineGeneratedPropertyExecutionSidecars::new(AnsweringHost::default(), Some((&plan_table, &guarded_table)), None);
    let instruction = block.decoded_instruction_at(BytecodeIndex::from_offset(0)).unwrap();
    let before = state.clone();
    let result = execute_baseline_generated_property_load_sidecar_probe(
        &mut sidecars,
        &mut state,
        BaselineGeneratedPropertyLoadSidecarProbeAttempt {
            owner: owner(),
            frame,
            window,
            code_block: &block,
            instruction,
            site: BaselineGeneratedPropertyHandoffSite::get_by_name_property_load(
                owner(),
                InlineCacheSlotId(0),
                BytecodeIndex::from_offset(0),
                11,
            ),
        },
    );
    assert_eq!(result, Ok(None));
    assert_eq!(state, before);
    assert!(sidecars.dispatch_host.load_requests.is_empty());
    assert!(sidecars.property_load_probe_miss_records().is_empty());
}

#[test]
fn property_load_hit_writes_the_value_and_asks_for_a_targeted_root_sync() {
    let block = get_by_name_block();
    let (mut state, frame) = prepared_state(&block, &[]);
    let window = state.stack.top_frame().unwrap().register_window;
    let instruction = block.decoded_instruction_at(BytecodeIndex::from_offset(0)).unwrap();
    let fallback = fallback_site(owner(), frame, instruction);
    let mut sidecars = BaselineGeneratedPropertyExecutionSidecars::new(AnsweringHost::default(), None, None);

    let plain = GeneratedPropertyLoadProbeHit {
        value: RuntimeValue::from_i32(4),
        destination_root_sync: DestinationRootSync::NotRequired,
    };
    let result = finish_property_load_hit(
        &mut sidecars,
        &mut state,
        window,
        local(0),
        plain,
        frame,
        BytecodeIndex::from_offset(0),
        fallback,
    );
    assert_eq!(result, Ok(Some(BaselineInstructionOutcome::Continue)));
    assert_eq!(state.registers.read(window, local(0), &block).unwrap(), RuntimeValue::from_i32(4));
    assert!(sidecars.destination_root_sync_requests().is_empty());

    let rooted = GeneratedPropertyLoadProbeHit {
        value: RuntimeValue::from_cell_payload(0x40),
        destination_root_sync: DestinationRootSync::TargetedRegisterSync,
    };
    let result = finish_property_load_hit(
        &mut sidecars,
        &mut state,
        window,
        local(2),
        rooted,
        frame,
        BytecodeIndex::from_offset(0),
        fallback,
    );
    assert_eq!(result, Ok(Some(BaselineInstructionOutcome::Continue)));
    assert_eq!(state.registers.read(window, local(2), &block).unwrap(), RuntimeValue::from_cell_payload(0x40));
    assert_eq!(
        sidecars.destination_root_sync_requests().as_slice(),
        &[BaselineGeneratedPropertyLoadDestinationRootSyncRequest {
            frame,
            bytecode_index: BytecodeIndex::from_offset(0),
            destination: local(2),
        }]
    );
}

#[test]
fn load_or_increment_passes_on_what_the_load_answered_when_no_increment_follows() {
    let block = get_by_name_block();
    let (mut state, frame) = prepared_state(&block, &[]);
    let window = state.stack.top_frame().unwrap().register_window;
    let instruction = block.decoded_instruction_at(BytecodeIndex::from_offset(0)).unwrap();
    let fallback = fallback_site(owner(), frame, instruction);
    let attempt = PropertySidecarAttempt {
        window,
        code_block: &block,
        fallback,
        frame,
        instruction,
        site: BaselineGeneratedPropertyHandoffSite::get_by_name_property_load(
            owner(),
            InlineCacheSlotId(0),
            BytecodeIndex::from_offset(0),
            11,
        ),
    };
    let mut sidecars = BaselineGeneratedPropertyExecutionSidecars::new(AnsweringHost::default(), None, None);
    let before = state.clone();
    for load in [Ok(None), Ok(Some(BaselineInstructionOutcome::Continue))] {
        let result = finish_property_load_or_increment(
            &mut sidecars,
            &mut state,
            attempt,
            owner(),
            None,
            local(0),
            load,
            BaselineGeneratedPropertyIncrementNumericMode::AnyNumber,
        );
        assert_eq!(result, load);
        assert_eq!(state, before);
    }
}

#[test]
fn native_intrinsic_request_carries_the_callee_this_and_the_passed_arguments() {
    let block = call_block();
    let callee = RuntimeValue::from_cell_payload(0x77);
    let (state, frame) = prepared_state(&block, &[(local(2), callee), (local(3), RuntimeValue::from_i32(5))]);
    let window = state.stack.top_frame().unwrap().register_window;
    let instruction = block.decoded_instruction_at(BytecodeIndex::from_offset(1)).unwrap();
    let attempt = GeneratedCallLinkSidecarAttempt {
        window,
        code_block: &block,
        fallback: fallback_site(owner(), frame, instruction),
        owner: owner(),
        opcode: CoreOpcode::Call,
        instruction,
    };
    let (destination, request) = native_intrinsic_call_request(&state, attempt).unwrap().expect("a call builds a request");
    assert_eq!(destination, local(1));
    assert_eq!(
        request,
        GeneratedNativeIntrinsicCallRequest {
            owner: owner(),
            bytecode_index: BytecodeIndex::from_offset(1),
            opcode: CoreOpcode::Call,
            callee_value: callee,
            this_value: RuntimeValue::undefined(),
            provided_argument_count: 1,
            first_argument: Some(RuntimeValue::from_i32(5)),
            second_argument: None,
        }
    );

    let as_construct = GeneratedCallLinkSidecarAttempt { opcode: CoreOpcode::Construct, ..attempt };
    assert_eq!(native_intrinsic_call_request(&state, as_construct), Ok(None));
}

/// A host that offers no service of its own.
struct ServicelessHost;

impl DispatchHost for ServicelessHost {}

#[test]
fn a_host_without_services_answers_unavailable_everywhere() {
    let mut host = ServicelessHost;
    let base = RuntimeValue::from_cell_payload(0x10);
    assert_eq!(host.generated_property_sidecar_base_structure(base), None);
    assert_eq!(host.generated_property_has_sidecar_base_structure(base), None);
    assert_eq!(host.generated_property_has_sidecar_runtime_key(base), None);
    assert!(!host.has_pending_structure_chain_invalidation_events());
    let request = GeneratedNativeIntrinsicCallRequest {
        owner: owner(),
        bytecode_index: BytecodeIndex::from_offset(1),
        opcode: CoreOpcode::Call,
        callee_value: base,
        this_value: RuntimeValue::undefined(),
        provided_argument_count: 0,
        first_argument: None,
        second_argument: None,
    };
    assert_eq!(host.dispatch_generated_native_intrinsic_call(request), GeneratedNativeIntrinsicCallResult::Miss);
}

#[test]
fn host_answers_are_written_only_on_a_hit() {
    let block = get_by_name_block();
    let (mut state, frame) = prepared_state(&block, &[]);
    let window = state.stack.top_frame().unwrap().register_window;
    let instruction = block.decoded_instruction_at(BytecodeIndex::from_offset(0)).unwrap();
    let fallback = fallback_site(owner(), frame, instruction);
    let before = state.clone();
    assert_eq!(
        finish_native_intrinsic_call(&mut state, window, local(0), GeneratedNativeIntrinsicCallResult::Miss, fallback),
        Ok(None)
    );
    assert_eq!(state, before);
    assert_eq!(
        finish_property_has_lookup(&mut state, window, local(0), GeneratedPropertyHasMegamorphicLookup::Miss, fallback),
        Ok(None)
    );
    assert_eq!(state, before);
    assert_eq!(
        finish_native_intrinsic_call(
            &mut state,
            window,
            local(0),
            GeneratedNativeIntrinsicCallResult::Hit { value: RuntimeValue::from_i32(7) },
            fallback,
        ),
        Ok(Some(BaselineInstructionOutcome::Continue))
    );
    assert_eq!(state.registers.read(window, local(0), &block).unwrap(), RuntimeValue::from_i32(7));
    assert_eq!(
        finish_property_has_lookup(&mut state, window, local(1), GeneratedPropertyHasMegamorphicLookup::Hit(false), fallback),
        Ok(Some(BaselineInstructionOutcome::Continue))
    );
    assert_eq!(state.registers.read(window, local(1), &block).unwrap(), RuntimeValue::from_bool(false));
}
