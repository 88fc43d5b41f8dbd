use baseline_jit::bytecode::{
    BytecodeIndex, CodeBlock, CoreOpcode, Operand, RegisterFrameShape, TypedInstruction, VirtualRegister,
};
use baseline_jit::executor::{
    BaselineGeneratedExecutionRequest, BaselineGeneratedExecutionResult, execute_baseline_generated_code,
};
use baseline_jit::handoff::{
    BaselineGeneratedJsCallHandoff, BaselineGeneratedJsCallHandoffContinuation, BaselineGeneratedJsCallResume,
    BaselineGeneratedJsDirectCallHotSlot, BaselineGeneratedPropertyHandoff, BaselineGeneratedPropertyResume,
    fallback_site,
};
use baseline_jit::host::DispatchHost;
use baseline_jit::ic::{
    AccessCaseDescriptor, CacheKey, CallBoundary, CallBoundaryId, CallLinkAttachmentTarget,
    GeneratedCallLinkCandidate, GeneratedCallLinkCandidateTable, GeneratedCallLinkDirectCall,
    GeneratedCallLinkDirectCallStatus, GeneratedCallLinkProbeMissReason, GeneratedCallLinkProbeRequest,
    GeneratedCallLinkProbeResult, GeneratedGuardedPropertyLoadProbeMissReason, GeneratedGuardedPropertyLoadProbeRequest,
    GeneratedGuardedPropertyLoadProbeResult, GeneratedPropertyHasMegamorphicCacheEntry,
    GeneratedPropertyHasMegamorphicCandidateTable, GeneratedPropertyLoadMegamorphicCacheEntry,
    GeneratedPropertyLoadMegamorphicCacheEntryKind, GeneratedPropertyLoadMegamorphicCandidateTable,
    GeneratedPropertyLoadMegamorphicHolderProbeRequest, GeneratedPropertyLoadProbeMissReason,
    GeneratedPropertyLoadProbeRequest, GeneratedPropertyLoadProbeResult, GeneratedPropertyStoreMegamorphicCacheEntry,
    GeneratedPropertyStoreMegamorphicCandidateTable, GeneratedPropertyStoreMutationCommit,
    GeneratedPropertyStoreMutationMissReason, GeneratedPropertyStoreMutationRequest,
    GeneratedPropertyStoreMutationResult, GeneratedPropertyStoreProbeHit, GeneratedPropertyStoreProbeMiss,
    GeneratedPropertyStoreProbeMissReason, GeneratedPropertyStoreProbeRequest,
    GeneratedPropertyStoreProbeResult, MegamorphicSite, PropertyKey, PropertyLoadAccessCasePlan,
    PropertyLoadAccessCasePlanKind, PropertyLoadAccessCasePlanTable, PropertyLoadGuardChainOutcome,
    PropertyLoadGuardDescriptor, PropertyLoadGuardPlan, PropertyLoadGuardRequirement, PropertyLoadGuardedCandidate,
    PropertyLoadGuardedCandidateKind, PropertyLoadGuardedCandidateTable, PropertyOffset, PropertyStoreAccessCasePlan,
    PropertyStoreAccessCasePlanKind, PropertyStoreMutationCandidate, PropertyStoreMutationCandidateTable, StructureId,
    WatchpointSetId,
};
use baseline_jit::plan::{
    BaselineBytecodeEligibilityProof, BaselineGeneratedCodeArtifact, BaselineGeneratedCodeBody,
    BaselineSupportedOpcodeSubset, CodeLiveness,
};
use baseline_jit::runtime::{
    CallFrameId, CallReturnContinuation, CallReturnKind, CodeBlockId, ExecutableId, ExecutionCompletion,
    FramePushRequest, InterpreterExecutionState, ObjectId,
};
use baseline_jit::sidecar_executor::{
    execute_baseline_generated_code_with_generated_call_link_sidecar,
    execute_baseline_generated_code_with_property_load_sidecar,
    execute_baseline_generated_code_with_property_sidecars,
    execute_baseline_generated_code_with_property_store_sidecar,
};
use baseline_jit::sidecars::{
    BaselineGeneratedCallLinkExecutionSidecar, BaselineGeneratedCallLinkProbeBlockedRecord,
    BaselineGeneratedCallLinkProbeMissRecord, BaselineGeneratedGuardedPropertyLoadProbeMissRecord,
    BaselineGeneratedPropertyExecutionSidecars, BaselineGeneratedPropertyLoadDestinationRootSyncRequest,
    BaselineGeneratedPropertyLoadExecutionSidecar, BaselineGeneratedPropertyLoadProbeMissRecord,
    BaselineGeneratedPropertyStoreExecutionSidecar, BaselineGeneratedPropertyStoreMutationCommitRecord,
    BaselineGeneratedPropertyStoreMutationRejectionRecord, BaselineGeneratedPropertyStoreProbeMissRecord,
    GeneratedCallLinkSidecarAttempt, execute_generated_call_link_sidecar_probe_with_host, property_store_commit_request,
};
use baseline_jit::sites::{
    BaselineGeneratedOwnerContinuationMapMetadata, BaselineGeneratedOwnerContinuationSite,
    BaselineGeneratedPropertyHandoffSite, InlineCacheSlotId,
    derive_baseline_generated_property_handoff_plan_from_code_block,
};
use baseline_jit::value::{RuntimeValue, ValueKind};

fn owner() -> CodeBlockId {
    CodeBlockId(11)
}

fn local(index: u32) -> VirtualRegister {
    VirtualRegister::local(index)
}

fn code_block(instructions: Vec<TypedInstruction>) -> CodeBlock {
    CodeBlock::new(instructions, RegisterFrameShape { num_parameters_including_this: 1, num_vars: 8 })
}

fn core_typed(offset: u32, opcode: CoreOpcode, operands: Vec<Operand>) -> TypedInstruction {
    TypedInstruction::new(opcode.opcode(), BytecodeIndex::from_offset(offset), operands)
}

fn mixed_artifact_for_block(owner: CodeBlockId, code_block: &CodeBlock) -> BaselineGeneratedCodeArtifact {
    let subset = BaselineSupportedOpcodeSubset::P6ConstantsMovesReturnInt32ArithmeticBitwiseRelationalJumpsPrimitiveTruthinessPrimitiveBooleanPrimitiveNumberPrimitiveToNumberVoidPureNumberBinary;
    let proof = BaselineBytecodeEligibilityProof::from_code_block_snapshot(code_block, owner, subset).unwrap();
    let artifact =
        BaselineGeneratedCodeArtifact::new(101, owner, proof, BaselineGeneratedCodeBody::new(202, subset), CodeLiveness::Live)
            .unwrap();
    let property_plan = derive_baseline_generated_property_handoff_plan_from_code_block(code_block, owner).unwrap();
    artifact
        .with_property_handoff_plan(property_plan)
        .with_owner_continuation_map(Some(BaselineGeneratedOwnerContinuationMapMetadata::from_code_block(code_block, owner)))
}

fn expected_owner_continuation_site(
    artifact: &BaselineGeneratedCodeArtifact,
    bytecode_index: BytecodeIndex,
) -> Option<BaselineGeneratedOwnerContinuationSite> {
    artifact.owner_continuation_map().and_then(|map| map.call_site_for_bytecode_index(bytecode_index)).copied()
}

fn expected_js_call_continuation(
    owner: CodeBlockId,
    frame: CallFrameId,
    opcode: CoreOpcode,
    call_bytecode_index: BytecodeIndex,
    resume_bytecode_index: Option<BytecodeIndex>,
    destination: VirtualRegister,
    argument_count_including_this: u32,
    callee_value: RuntimeValue,
) -> BaselineGeneratedJsCallHandoffContinuation {
    BaselineGeneratedJsCallHandoffContinuation::Call(CallReturnContinuation {
        caller_frame: frame,
        callee_frame: None,
        owner,
        call_bytecode_index,
        resume_bytecode_index,
        destination,
        argument_count_including_this,
        callee_value: Some(callee_value),
        callee_object: None,
        kind: CallReturnKind::from_opcode(opcode).unwrap(),
    })
}

fn expected_js_call_handoff(
    artifact: &BaselineGeneratedCodeArtifact,
    frame: CallFrameId,
    opcode: CoreOpcode,
    bytecode_index: BytecodeIndex,
    destination: VirtualRegister,
    callee_value: RuntimeValue,
) -> BaselineGeneratedJsCallHandoff {
    BaselineGeneratedJsCallHandoff {
        resume: BaselineGeneratedJsCallResume { owner: owner(), frame, bytecode_index, opcode },
        continuation: expected_js_call_continuation(
            owner(),
            frame,
            opcode,
            bytecode_index,
            Some(BytecodeIndex::from_offset(bytecode_index.offset() + 1)),
            destination,
            1,
            callee_value,
        ),
        owner_continuation: expected_owner_continuation_site(artifact, bytecode_index),
        direct_call: None,
        requires_no_gc_exit_reentry: true,
        may_throw: true,
    }
}

fn expected_property_handoff(
    frame: CallFrameId,
    index: BytecodeIndex,
    opcode: CoreOpcode,
    site: BaselineGeneratedPropertyHandoffSite,
) -> BaselineGeneratedPropertyHandoff {
    BaselineGeneratedPropertyHandoff {
        resume: BaselineGeneratedPropertyResume { owner: owner(), frame, bytecode_index: index, opcode },
        site,
        requires_no_gc_exit_reentry: site.requires_no_gc_exit_reentry,
        may_throw: site.may_throw,
    }
}

fn enter_program_frame(state: &mut InterpreterExecutionState, owner: CodeBlockId, code_block: &CodeBlock) -> CallFrameId {
    state
        .stack
        .push_frame(
            &mut state.registers,
            FramePushRequest {
                code_block: Some(owner),
                callee_value: None,
                num_arguments_including_this: code_block.frame.num_parameters_including_this,
                num_locals: code_block.frame.num_vars,
                start_bytecode_index: Some(BytecodeIndex::from_offset(0)),
            },
        )
        .unwrap()
}

/// A fresh interpreter state with the program frame entered and `initial_locals` written.
fn prepared_state(
    code_block: &CodeBlock,
    initial_locals: &[(VirtualRegister, RuntimeValue)],
) -> (InterpreterExecutionState, CallFrameId) {
    let mut state = InterpreterExecutionState::new();
    let frame = enter_program_frame(&mut state, owner(), code_block);
    let window = state.stack.top_frame().unwrap().register_window;
    for (register, value) in initial_locals {
        state.registers.write(window, *register, *value).unwrap();
    }
    (state, frame)
}

fn read_local(state: &InterpreterExecutionState, index: u32) -> RuntimeValue {
    let frame = state.stack.top_frame().unwrap();
    state.registers.read(frame.register_window, local(index), &code_block(Vec::new())).unwrap()
}

fn cell_runtime_value() -> RuntimeValue {
    RuntimeValue::from_cell_payload(0x1234)
}

fn generated_call_link_cell_value(payload: u64) -> RuntimeValue {
    RuntimeValue::from_cell_payload(payload)
}

fn allocate_test_object_cell(state: &mut InterpreterExecutionState, payload: u64) -> u64 {
    state.heap.allocate(payload)
}

fn property_handoff_site(owner: CodeBlockId, index: BytecodeIndex, identifier: u32) -> BaselineGeneratedPropertyHandoffSite {
    BaselineGeneratedPropertyHandoffSite::get_by_name_property_load(owner, InlineCacheSlotId(0), index, identifier)
}

fn property_store_handoff_site(owner: CodeBlockId, index: BytecodeIndex, identifier: u32) -> BaselineGeneratedPropertyHandoffSite {
    BaselineGeneratedPropertyHandoffSite::put_by_name_property_store(owner, InlineCacheSlotId(0), index, identifier)
}

fn property_cache_key(identifier_index: u32) -> CacheKey {
    CacheKey::Property(PropertyKey::Identifier(identifier_index))
}

fn indexed_property_cache_key(index: u32) -> CacheKey {
    CacheKey::Property(PropertyKey::Index(index))
}

fn property_has_megamorphic_candidate_table(
    owner: CodeBlockId,
    site_bytecode_index: BytecodeIndex,
    key: CacheKey,
    base_structure: StructureId,
    table_epoch: u16,
    entry_epoch: u16,
    result: bool,
) -> GeneratedPropertyHasMegamorphicCandidateTable {
    GeneratedPropertyHasMegamorphicCandidateTable::with_primary_entry(
        owner,
        table_epoch,
        MegamorphicSite { owner, slot: InlineCacheSlotId(0), bytecode_index: site_bytecode_index.offset(), key },
        GeneratedPropertyHasMegamorphicCacheEntry { key, base_structure, epoch: entry_epoch, result },
    )
}

fn property_load_plan(
    owner: CodeBlockId,
    bytecode_index: BytecodeIndex,
    identifier_index: u32,
    base_structure: StructureId,
    offset: PropertyOffset,
) -> PropertyLoadAccessCasePlan {
    let key = property_cache_key(identifier_index);
    PropertyLoadAccessCasePlan {
        plan_kind: PropertyLoadAccessCasePlanKind::DataOnlyOwnLoad,
        owner,
        slot: InlineCacheSlotId(0),
        bytecode_index: bytecode_index.offset(),
        key,
        access_case: AccessCaseDescriptor {
            key,
            base_structure: Some(base_structure),
            new_structure: None,
            holder: None,
            offset: Some(offset),
        },
    }
}

fn property_load_plan_table(owner: CodeBlockId, plans: Vec<PropertyLoadAccessCasePlan>) -> PropertyLoadAccessCasePlanTable {
    PropertyLoadAccessCasePlanTable::new(owner, plans)
}

fn property_load_guarded_candidate_table(
    owner: CodeBlockId,
    candidates: Vec<PropertyLoadGuardedCandidate>,
) -> PropertyLoadGuardedCandidateTable {
    PropertyLoadGuardedCandidateTable::new(owner, candidates)
}

fn empty_property_load_guarded_candidate_table(owner: CodeBlockId) -> PropertyLoadGuardedCandidateTable {
    property_load_guarded_candidate_table(owner, Vec::new())
}

fn property_store_plan(
    owner: CodeBlockId,
    bytecode_index: BytecodeIndex,
    identifier_index: u32,
    base_structure: StructureId,
    offset: PropertyOffset,
) -> PropertyStoreAccessCasePlan {
    let key = property_cache_key(identifier_index);
    PropertyStoreAccessCasePlan {
        plan_kind: PropertyStoreAccessCasePlanKind::DataOnlyReplace,
        owner,
        slot: InlineCacheSlotId(0),
        bytecode_index: bytecode_index.offset(),
        key,
        access_case: AccessCaseDescriptor {
            key,
            base_structure: Some(base_structure),
            new_structure: None,
            holder: None,
            offset: Some(offset),
        },
    }
}

fn property_store_indexed_plan(
    owner: CodeBlockId,
    bytecode_index: BytecodeIndex,
    index: u32,
    base_structure: StructureId,
) -> PropertyStoreAccessCasePlan {
    let key = indexed_property_cache_key(index);
    PropertyStoreAccessCasePlan {
        plan_kind: PropertyStoreAccessCasePlanKind::DataOnlyIndexedStore,
        owner,
        slot: InlineCacheSlotId(0),
        bytecode_index: bytecode_index.offset(),
        key,
        access_case: AccessCaseDescriptor {
            key,
            base_structure: Some(base_structure),
            new_structure: None,
            holder: None,
            offset: None,
        },
    }
}

fn property_store_mutation_candidate_table(
    owner: CodeBlockId,
    candidates: Vec<PropertyStoreMutationCandidate>,
) -> PropertyStoreMutationCandidateTable {
    PropertyStoreMutationCandidateTable::new(owner, candidates)
}

fn property_store_mutation_candidate(plan: PropertyStoreAccessCasePlan, store_plan_ordinal: u64) -> PropertyStoreMutationCandidate {
    PropertyStoreMutationCandidate {
        plan,
        store_plan_ordinal,
        install_recheck_ordinal: store_plan_ordinal + 100,
        readiness_ordinal: store_plan_ordinal + 300,
        observation_ordinal: store_plan_ordinal + 200,
        stored_value_kind: ValueKind::Int32,
    }
}

fn generated_call_link_candidate(
    opcode: CoreOpcode,
    slot: InlineCacheSlotId,
    bytecode_index: BytecodeIndex,
    executable_cell: u32,
    callee_cell: u32,
    target_code_block_cell: u32,
    attachment_ordinal: u64,
) -> GeneratedCallLinkCandidate {
    generated_call_link_candidate_for_target(
        opcode,
        slot,
        bytecode_index,
        ExecutableId(u64::from(executable_cell)),
        ObjectId(u64::from(callee_cell)),
        CodeBlockId(u64::from(target_code_block_cell)),
        attachment_ordinal,
    )
}

fn generated_call_link_candidate_for_target(
    opcode: CoreOpcode,
    slot: InlineCacheSlotId,
    bytecode_index: BytecodeIndex,
    executable: ExecutableId,
    callee: ObjectId,
    target_code_block: CodeBlockId,
    attachment_ordinal: u64,
) -> GeneratedCallLinkCandidate {
    GeneratedCallLinkCandidate {
        owner: owner(),
        opcode,
        slot,
        bytecode_index: bytecode_index.offset(),
        target: CallLinkAttachmentTarget { executable, target_code_block, callee },
        boundary: CallBoundary { id: CallBoundaryId(10_000 + u64::from(slot.0)) },
        attachment_ordinal,
        attachment_plan_ordinal: attachment_ordinal + 100,
        install_recheck_ordinal: attachment_ordinal + 200,
        boundary_validation_ordinal: Some(attachment_ordinal + 300),
        descriptor_ordinal: Some(attachment_ordinal + 400),
        observation_ordinal: Some(attachment_ordinal + 500),
        readiness_ordinal: Some(attachment_ordinal + 600),
        direct_call_status: GeneratedCallLinkDirectCallStatus::Disallowed,
    }
}

fn generated_call_link_candidate_table(
    owner: CodeBlockId,
    candidates: Vec<GeneratedCallLinkCandidate>,
) -> GeneratedCallLinkCandidateTable {
    GeneratedCallLinkCandidateTable::new(owner, candidates)
}

fn guarded_candidate(
    plan: PropertyLoadGuardPlan,
    candidate_kind: PropertyLoadGuardedCandidateKind,
    guard_plan_ordinal: u64,
    chain_length: u64,
) -> PropertyLoadGuardedCandidate {
    PropertyLoadGuardedCandidate {
        plan,
        guard_plan_ordinal,
        materialization_ordinal: guard_plan_ordinal + 100,
        dependency_ordinals: (0..chain_length).map(|index| guard_plan_ordinal + 1_000 + index).collect(),
        binding_set_ids: (0..chain_length).map(|index| WatchpointSetId(guard_plan_ordinal + 2_000 + index)).collect(),
        candidate_kind,
    }
}

fn prototype_data_guarded_candidate(
    owner: CodeBlockId,
    bytecode_index: BytecodeIndex,
    identifier_index: u32,
    guard_plan_ordinal: u64,
) -> PropertyLoadGuardedCandidate {
    let offset = PropertyOffset::new(0);
    let plan = PropertyLoadGuardPlan {
        owner,
        slot: InlineCacheSlotId(0),
        bytecode_index: bytecode_index.offset(),
        descriptor: PropertyLoadGuardDescriptor {
            requirement: PropertyLoadGuardRequirement::PrototypeChain,
            key: property_cache_key(identifier_index),
            base_object: ObjectId(101),
            holder_object: Some(ObjectId(102)),
            base_structure: StructureId::new(1),
            offset: Some(offset),
            prototype_depth: 1,
            outcome: PropertyLoadGuardChainOutcome::PrototypeData { holder_index: 1, offset },
        },
    };
    guarded_candidate(plan, PropertyLoadGuardedCandidateKind::PrototypeData, guard_plan_ordinal, 2)
}

fn negative_lookup_guarded_candidate(
    owner: CodeBlockId,
    bytecode_index: BytecodeIndex,
    identifier_index: u32,
    guard_plan_ordinal: u64,
) -> PropertyLoadGuardedCandidate {
    let plan = PropertyLoadGuardPlan {
        owner,
        slot: InlineCacheSlotId(0),
        bytecode_index: bytecode_index.offset(),
        descriptor: PropertyLoadGuardDescriptor {
            requirement: PropertyLoadGuardRequirement::NegativeLookup,
            key: property_cache_key(identifier_index),
            base_object: ObjectId(201),
            holder_object: None,
            base_structure: StructureId::new(3),
            offset: None,
            prototype_depth: 0,
            outcome: PropertyLoadGuardChainOutcome::Missing { terminal_null: true },
        },
    };
    guarded_candidate(plan, PropertyLoadGuardedCandidateKind::NegativeLookup, guard_plan_ordinal, 1)
}

#[derive(Clone, Copy, Debug, Eq, PartialEq)]
struct GeneratedCallLinkProbeSnapshot {
    owner: CodeBlockId,
    opcode: CoreOpcode,
    bytecode_index: u32,
    argument_count_including_this: u32,
    candidate_slot: InlineCacheSlotId,
    candidate_attachment_ordinal: u64,
    callee_value: RuntimeValue,
    callee_value_kind: ValueKind,
    callee_object: Option<ObjectId>,
    this_value: RuntimeValue,
    this_value_kind: ValueKind,
    this_object: Option<ObjectId>,
}

fn call_link_snapshot(request: &GeneratedCallLinkProbeRequest) -> GeneratedCallLinkProbeSnapshot {
    GeneratedCallLinkProbeSnapshot {
        owner: request.owner,
        opcode: request.opcode,
        bytecode_index: request.bytecode_index,
        argument_count_including_this: request.argument_count_including_this,
        candidate_slot: request.candidate.slot,
        candidate_attachment_ordinal: request.candidate.attachment_ordinal,
        callee_value: request.callee_value,
        callee_value_kind: request.callee_value_kind,
        callee_object: request.callee_object,
        this_value: request.this_value,
        this_value_kind: request.this_value_kind,
        this_object: request.this_object,
    }
}

#[derive(Debug, Default)]
struct SequencedPropertyLoadProbeHost {
    results: Vec<GeneratedPropertyLoadProbeResult>,
    holder_results: Vec<GeneratedPropertyLoadProbeResult>,
    guarded_results: Vec<GeneratedGuardedPropertyLoadProbeResult>,
    call_link_results: Vec<GeneratedCallLinkProbeResult>,
    probed_base_values: Vec<RuntimeValue>,
    probed_plan_keys: Vec<CacheKey>,
    probed_base_structures: Vec<Option<StructureId>>,
    holder_requests: Vec<GeneratedPropertyLoadMegamorphicHolderProbeRequest>,
    guarded_probed_base_values: Vec<RuntimeValue>,
    guarded_probed_plan_keys: Vec<CacheKey>,
    guarded_probed_base_structures: Vec<StructureId>,
    call_link_requests: Vec<GeneratedCallLinkProbeSnapshot>,
    sidecar_base_structure: Option<StructureId>,
    sidecar_base_structure_queries: Vec<RuntimeValue>,
    has_sidecar_runtime_key_results: Vec<Option<CacheKey>>,
    has_sidecar_runtime_key_queries: Vec<RuntimeValue>,
    pending_structure_chain_invalidations: bool,
}

impl SequencedPropertyLoadProbeHost {
    fn new(results: Vec<GeneratedPropertyLoadProbeResult>) -> Self {
        Self { results, ..Self::default() }
    }

    fn new_guarded(results: Vec<GeneratedGuardedPropertyLoadProbeResult>) -> Self {
        Self { guarded_results: results, ..Self::default() }
    }
}

impl DispatchHost for SequencedPropertyLoadProbeHost {
    fn generated_property_sidecar_base_structure(&mut self, base: RuntimeValue) -> Option<StructureId> {
        self.sidecar_base_structure_queries.push(base);
        self.sidecar_base_structure
    }

    fn generated_property_has_sidecar_base_structure(&mut self, base: RuntimeValue) -> Option<StructureId> {
        self.sidecar_base_structure_queries.push(base);
        base.as_cell_payload().and(self.sidecar_base_structure)
    }

    fn generated_property_has_sidecar_runtime_key(&mut self, property: RuntimeValue) -> Option<CacheKey> {
        self.has_sidecar_runtime_key_queries.push(property);
        if self.has_sidecar_runtime_key_results.is_empty() {
            return None;
        }
        self.has_sidecar_runtime_key_results.remove(0)
    }

    fn has_pending_structure_chain_invalidation_events(&mut self) -> bool {
        self.pending_structure_chain_invalidations
    }

    fn probe_generated_property_load(&mut self, request: GeneratedPropertyLoadProbeRequest) -> GeneratedPropertyLoadProbeResult {
        self.probed_base_values.push(request.base);
        self.probed_plan_keys.push(request.plan.key);
        self.probed_base_structures.push(request.plan.access_case.base_structure);
        if self.results.is_empty() {
            return GeneratedPropertyLoadProbeResult::miss(GeneratedPropertyLoadProbeMissReason::HostUnavailable);
        }
        self.results.remove(0)
    }

    fn probe_generated_property_load_megamorphic_holder(
        &mut self,
        request: GeneratedPropertyLoadMegamorphicHolderProbeRequest,
    ) -> GeneratedPropertyLoadProbeResult {
        self.holder_requests.push(request);
        if self.holder_results.is_empty() {
            return GeneratedPropertyLoadProbeResult::miss(GeneratedPropertyLoadProbeMissReason::HostUnavailable);
        }
        self.holder_results.remove(0)
    }

    fn probe_generated_guarded_property_load(
        &mut self,
        request: GeneratedGuardedPropertyLoadProbeRequest,
    ) -> GeneratedGuardedPropertyLoadProbeResult {
        self.guarded_probed_base_values.push(request.base);
        self.guarded_probed_plan_keys.push(request.plan.descriptor.key);
        self.guarded_probed_base_structures.push(request.plan.descriptor.base_structure);
        if self.guarded_results.is_empty() {
            return GeneratedGuardedPropertyLoadProbeResult::miss_for_plan(
                GeneratedGuardedPropertyLoadProbeMissReason::HostUnavailable,
                &request.plan,
                None,
            );
        }
        self.guarded_results.remove(0)
    }

    fn probe_generated_call_link(&mut self, request: GeneratedCallLinkProbeRequest) -> GeneratedCallLinkProbeResult {
        self.call_link_requests.push(call_link_snapshot(&request));
        if self.call_link_results.is_empty() {
            return GeneratedCallLinkProbeResult::miss(GeneratedCallLinkProbeMissReason::HostUnavailable);
        }
        self.call_link_results.remove(0)
    }
}

#[derive(Debug, Default)]
struct SequencedPropertyStoreMutationHost {
    load_results: Vec<GeneratedPropertyLoadProbeResult>,
    probe_results: Vec<GeneratedPropertyStoreProbeResult>,
    mutation_results: Vec<GeneratedPropertyStoreMutationResult>,
    load_probed_base_values: Vec<RuntimeValue>,
    load_probed_plan_keys: Vec<CacheKey>,
    probed_base_values: Vec<RuntimeValue>,
    probed_stored_values: Vec<RuntimeValue>,
    probed_plan_keys: Vec<CacheKey>,
    probed_base_structures: Vec<Option<StructureId>>,
    committed_base_values: Vec<RuntimeValue>,
    committed_keys: Vec<CacheKey>,
    committed_stored_values: Vec<RuntimeValue>,
    sidecar_base_structure: Option<StructureId>,
    sidecar_base_structure_queries: Vec<RuntimeValue>,
}

impl SequencedPropertyStoreMutationHost {
    fn new(
        probe_results: Vec<GeneratedPropertyStoreProbeResult>,
        mutation_results: Vec<GeneratedPropertyStoreMutationResult>,
    ) -> Self {
        Self { probe_results, mutation_results, ..Self::default() }
    }
}

impl DispatchHost for SequencedPropertyStoreMutationHost {
    fn generated_property_sidecar_base_structure(&mut self, base: RuntimeValue) -> Option<StructureId> {
        self.sidecar_base_structure_queries.push(base);
        self.sidecar_base_structure
    }

    fn probe_generated_property_load(&mut self, request: GeneratedPropertyLoadProbeRequest) -> GeneratedPropertyLoadProbeResult {
        self.load_probed_base_values.push(request.base);
        self.load_probed_plan_keys.push(request.plan.key);
        if self.load_results.is_empty() {
            return GeneratedPropertyLoadProbeResult::miss(GeneratedPropertyLoadProbeMissReason::HostUnavailable);
        }
        self.load_results.remove(0)
    }

    fn probe_generated_property_store(&mut self, request: GeneratedPropertyStoreProbeRequest) -> GeneratedPropertyStoreProbeResult {
        self.probed_base_values.push(request.base);
        self.probed_stored_values.push(request.stored_value);
        self.probed_plan_keys.push(request.plan.key);
        self.probed_base_structures.push(request.plan.access_case.base_structure);
        if self.probe_results.is_empty() {
            return GeneratedPropertyStoreProbeResult::hit_for_plan(&request.plan, request.stored_value);
        }
        self.probe_results.remove(0)
    }

    fn commit_generated_property_store(
        &mut self,
        request: GeneratedPropertyStoreMutationRequest,
    ) -> GeneratedPropertyStoreMutationResult {
        self.committed_base_values.push(request.base);
        self.committed_keys.push(request.key());
        self.committed_stored_values.push(request.probe_hit.stored_value);
        if self.mutation_results.is_empty() {
            return GeneratedPropertyStoreMutationResult::committed(
                GeneratedPropertyStoreMutationCommit::host_confirmed_for_request(&request),
            );
        }
        self.mutation_results.remove(0)
    }
}

#[derive(Debug, Default)]
struct SequencedGeneratedCallLinkProbeHost {
    results: Vec<GeneratedCallLinkProbeResult>,
    requests: Vec<GeneratedCallLinkProbeSnapshot>,
}

impl SequencedGeneratedCallLinkProbeHost {
    fn new(results: Vec<GeneratedCallLinkProbeResult>) -> Self {
        Self { results, requests: Vec::new() }
    }
}

impl DispatchHost for SequencedGeneratedCallLinkProbeHost {
    fn probe_generated_call_link(&mut self, request: GeneratedCallLinkProbeRequest) -> GeneratedCallLinkProbeResult {
        self.requests.push(call_link_snapshot(&request));
        if self.results.is_empty() {
            return GeneratedCallLinkProbeResult::miss(GeneratedCallLinkProbeMissReason::HostUnavailable);
        }
        self.results.remove(0)
    }
}

type RunResult = Result<BaselineGeneratedExecutionResult, baseline_jit::operands::BaselineGeneratedExecutionError>;

fn execute_generated_with_generated_call_link_sidecar(
    code_block: &CodeBlock,
    artifact: &BaselineGeneratedCodeArtifact,
    candidate_table: &GeneratedCallLinkCandidateTable,
    host: SequencedGeneratedCallLinkProbeHost,
    initial_locals: &[(VirtualRegister, RuntimeValue)],
) -> (
    RunResult,
    InterpreterExecutionState,
    Vec<BaselineGeneratedCallLinkProbeMissRecord>,
    Vec<BaselineGeneratedCallLinkProbeBlockedRecord>,
    SequencedGeneratedCallLinkProbeHost,
) {
    let (mut state, frame) = prepared_state(code_block, initial_locals);
    let mut sidecar = BaselineGeneratedCallLinkExecutionSidecar::new(candidate_table, host);
    let result = execute_baseline_generated_code_with_generated_call_link_sidecar(
        BaselineGeneratedExecutionRequest { artifact, owner: owner(), code_block, expected_frame: frame },
        &mut state,
        &mut sidecar,
    );
    let miss_records = sidecar.probe_miss_records().to_vec();
    let blocked_records = sidecar.probe_blocked_records().to_vec();
    (result, state, miss_records, blocked_records, sidecar.dispatch_host)
}

fn execute_generated_with_property_load_sidecar_tables(
    code_block: &CodeBlock,
    artifact: &BaselineGeneratedCodeArtifact,
    plan_table: &PropertyLoadAccessCasePlanTable,
    guarded_candidate_table: &PropertyLoadGuardedCandidateTable,
    host: SequencedPropertyLoadProbeHost,
    initial_locals: &[(VirtualRegister, RuntimeValue)],
) -> (
    RunResult,
    InterpreterExecutionState,
    Vec<BaselineGeneratedPropertyLoadDestinationRootSyncRequest>,
    Vec<BaselineGeneratedPropertyLoadProbeMissRecord>,
    Vec<BaselineGeneratedGuardedPropertyLoadProbeMissRecord>,
    SequencedPropertyLoadProbeHost,
) {
    let (mut state, frame) = prepared_state(code_block, initial_locals);
    let mut sidecar = BaselineGeneratedPropertyLoadExecutionSidecar::new(plan_table, guarded_candidate_table, host);
    let result = execute_baseline_generated_code_with_property_load_sidecar(
        BaselineGeneratedExecutionRequest { artifact, owner: owner(), code_block, expected_frame: frame },
        &mut state,
        &mut sidecar,
    );
    let root_sync_requests = sidecar.destination_root_sync_requests().to_vec();
    let probe_miss_records = sidecar.probe_miss_records().to_vec();
    let guarded_probe_miss_records = sidecar.guarded_probe_miss_records().to_vec();
    (result, state, root_sync_requests, probe_miss_records, guarded_probe_miss_records, sidecar.sidecars.dispatch_host)
}

fn execute_generated_with_property_load_sidecar(
    code_block: &CodeBlock,
    artifact: &BaselineGeneratedCodeArtifact,
    plan_table: &PropertyLoadAccessCasePlanTable,
    host: SequencedPropertyLoadProbeHost,
    initial_locals: &[(VirtualRegister, RuntimeValue)],
) -> (
    RunResult,
    InterpreterExecutionState,
    Vec<BaselineGeneratedPropertyLoadDestinationRootSyncRequest>,
    Vec<BaselineGeneratedPropertyLoadProbeMissRecord>,
    SequencedPropertyLoadProbeHost,
) {
    let guarded_candidate_table = empty_property_load_guarded_candidate_table(owner());
    let (result, state, root_sync_requests, probe_miss_records, guarded_records, host) =
        execute_generated_with_property_load_sidecar_tables(
            code_block,
            artifact,
            plan_table,
            &guarded_candidate_table,
            host,
            initial_locals,
        );
    assert!(guarded_records.is_empty());
    (result, state, root_sync_requests, probe_miss_records, host)
}

fn execute_generated_with_megamorphic_property_load_sidecar(
    code_block: &CodeBlock,
    artifact: &BaselineGeneratedCodeArtifact,
    megamorphic_table: &GeneratedPropertyLoadMegamorphicCandidateTable,
    host: SequencedPropertyLoadProbeHost,
    initial_locals: &[(VirtualRegister, RuntimeValue)],
) -> (
    RunResult,
    InterpreterExecutionState,
    Vec<BaselineGeneratedPropertyLoadDestinationRootSyncRequest>,
    Vec<BaselineGeneratedPropertyLoadProbeMissRecord>,
    Vec<BaselineGeneratedGuardedPropertyLoadProbeMissRecord>,
    SequencedPropertyLoadProbeHost,
) {
    let plan_table = property_load_plan_table(owner(), Vec::new());
    let guarded_candidate_table = empty_property_load_guarded_candidate_table(owner());
    let (mut state, frame) = prepared_state(code_block, initial_locals);
    let mut sidecars =
        BaselineGeneratedPropertyExecutionSidecars::new(host, Some((&plan_table, &guarded_candidate_table)), None)
            .with_property_load_megamorphic_candidate_table(Some(megamorphic_table));
    let result = execute_baseline_generated_code_with_property_sidecars(
        BaselineGeneratedExecutionRequest { artifact, owner: owner(), code_block, expected_frame: frame },
        &mut state,
        &mut sidecars,
    );
    let root_sync_requests = sidecars.destination_root_sync_requests().to_vec();
    let probe_miss_records = sidecars.property_load_probe_miss_records().to_vec();
    let guarded_probe_miss_records = sidecars.guarded_property_load_probe_miss_records().to_vec();
    (result, state, root_sync_requests, probe_miss_records, guarded_probe_miss_records, sidecars.dispatch_host)
}

fn execute_generated_with_property_store_sidecar(
    code_block: &CodeBlock,
    artifact: &BaselineGeneratedCodeArtifact,
    candidate_table: &PropertyStoreMutationCandidateTable,
    host: SequencedPropertyStoreMutationHost,
    initial_locals: &[(VirtualRegister, RuntimeValue)],
) -> (
    RunResult,
    InterpreterExecutionState,
    Vec<BaselineGeneratedPropertyStoreProbeMissRecord>,
    Vec<BaselineGeneratedPropertyStoreMutationRejectionRecord>,
    Vec<BaselineGeneratedPropertyStoreMutationCommitRecord>,
    SequencedPropertyStoreMutationHost,
) {
    let (mut state, frame) = prepared_state(code_block, initial_locals);
    let mut sidecar = BaselineGeneratedPropertyStoreExecutionSidecar::new(candidate_table, host);
    let result = execute_baseline_generated_code_with_property_store_sidecar(
        BaselineGeneratedExecutionRequest { artifact, owner: owner(), code_block, expected_frame: frame },
        &mut state,
        &mut sidecar,
    );
    let probe_miss_records = sidecar.probe_miss_records().to_vec();
    let rejection_records = sidecar.mutation_rejection_records().to_vec();
    let commit_records = sidecar.mutation_commit_records().to_vec();
    (result, state, probe_miss_records, rejection_records, commit_records, sidecar.sidecars.dispatch_host)
}

fn execute_generated_with_megamorphic_property_store_sidecar(
    code_block: &CodeBlock,
    artifact: &BaselineGeneratedCodeArtifact,
    megamorphic_table: &GeneratedPropertyStoreMegamorphicCandidateTable,
    host: SequencedPropertyStoreMutationHost,
    initial_locals: &[(VirtualRegister, RuntimeValue)],
) -> (RunResult, InterpreterExecutionState, SequencedPropertyStoreMutationHost) {
    let (mut state, frame) = prepared_state(code_block, initial_locals);
    let mut sidecars = BaselineGeneratedPropertyExecutionSidecars::new(host, None, None)
        .with_property_store_megamorphic_candidate_table(Some(megamorphic_table));
    let result = execute_baseline_generated_code_with_property_sidecars(
        BaselineGeneratedExecutionRequest { artifact, owner: owner(), code_block, expected_frame: frame },
        &mut state,
        &mut sidecars,
    );
    (result, state, sidecars.dispatch_host)
}

fn execute_generated_with_megamorphic_property_has_sidecar(
    code_block: &CodeBlock,
    artifact: &BaselineGeneratedCodeArtifact,
    megamorphic_table: &GeneratedPropertyHasMegamorphicCandidateTable,
    host: SequencedPropertyLoadProbeHost,
    initial_locals: &[(VirtualRegister, RuntimeValue)],
) -> (RunResult, InterpreterExecutionState, SequencedPropertyLoadProbeHost) {
    let (mut state, frame) = prepared_state(code_block, initial_locals);
    let mut sidecars = BaselineGeneratedPropertyExecutionSidecars::new(host, None, None)
        .with_property_has_megamorphic_candidate_table(Some(megamorphic_table));
    let result = execute_baseline_generated_code_with_property_sidecars(
        BaselineGeneratedExecutionRequest { artifact, owner: owner(), code_block, expected_frame: frame },
        &mut state,
        &mut sidecars,
    );
    (result, state, sidecars.dispatch_host)
}

fn call_block(opcode: CoreOpcode) -> CodeBlock {
    let call_operands = if opcode == CoreOpcode::CallWithThis {
        vec![
            Operand::Register(local(1)),
            Operand::Register(local(2)),
            Operand::Register(local(3)),
            Operand::UnsignedImmediate(0),
        ]
    } else {
        vec![Operand::Register(local(1)), Operand::Register(local(2)), Operand::UnsignedImmediate(0)]
    };
    code_block(vec![
        core_typed(0, CoreOpcode::LoadInt32, vec![Operand::Register(local(0)), Operand::SignedImmediate(7)]),
        core_typed(1, opcode, call_operands),
        core_typed(2, CoreOpcode::Return, vec![Operand::Register(local(1))]),
    ])
}

fn blocked_record(
    candidate: &GeneratedCallLinkCandidate,
    bytecode_index: BytecodeIndex,
    reason: GeneratedCallLinkProbeMissReason,
) -> BaselineGeneratedCallLinkProbeBlockedRecord {
    BaselineGeneratedCallLinkProbeBlockedRecord {
        owner: candidate.owner,
        bytecode_index,
        slot: candidate.slot,
        attachment_ordinal: candidate.attachment_ordinal,
        attachment_plan_ordinal: candidate.attachment_plan_ordinal,
        install_recheck_ordinal: candidate.install_recheck_ordinal,
        boundary_validation_ordinal: candidate.boundary_validation_ordinal,
        descriptor_ordinal: candidate.descriptor_ordinal,
        observation_ordinal: candidate.observation_ordinal,
        readiness_ordinal: candidate.readiness_ordinal,
        target_executable: candidate.target.executable,
        target_callee: candidate.target.callee,
        target_code_block: candidate.target.target_code_block,
        target_boundary: candidate.boundary.id,
        direct_call_status: candidate.direct_call_status,
        reason,
    }
}

fn miss_record(
    candidate: Option<&GeneratedCallLinkCandidate>,
    bytecode_index: BytecodeIndex,
    reason: GeneratedCallLinkProbeMissReason,
) -> BaselineGeneratedCallLinkProbeMissRecord {
    BaselineGeneratedCallLinkProbeMissRecord {
        owner: owner(),
        bytecode_index,
        slot: candidate.map(|c| c.slot),
        attachment_ordinal: candidate.map(|c| c.attachment_ordinal),
        attachment_plan_ordinal: candidate.map(|c| c.attachment_plan_ordinal),
        install_recheck_ordinal: candidate.map(|c| c.install_recheck_ordinal),
        boundary_validation_ordinal: candidate.and_then(|c| c.boundary_validation_ordinal),
        descriptor_ordinal: candidate.and_then(|c| c.descriptor_ordinal),
        observation_ordinal: candidate.and_then(|c| c.observation_ordinal),
        readiness_ordinal: candidate.and_then(|c| c.readiness_ordinal),
        target_executable: candidate.map(|c| c.target.executable),
        target_callee: candidate.map(|c| c.target.callee),
        target_code_block: candidate.map(|c| c.target.target_code_block),
        target_boundary: candidate.map(|c| c.boundary.id),
        direct_call_status: candidate.map(|c| c.direct_call_status),
        reason,
    }
}

#[test]
fn generated_call_link_sidecar_records_blocked_probe_and_preserves_js_call_handoff() {
    let bytecode_index = BytecodeIndex::from_offset(1);
    let block = call_block(CoreOpcode::CallWithThis);
    let artifact = mixed_artifact_for_block(owner(), &block);
    let candidate = generated_call_link_candidate(CoreOpcode::CallWithThis, InlineCacheSlotId(71), bytecode_index, 81, 91, 101, 11);
    let table = generated_call_link_candidate_table(owner(), vec![candidate]);
    let callee_value = generated_call_link_cell_value(0x5001);
    let this_value = generated_call_link_cell_value(0x5002);
    let host = SequencedGeneratedCallLinkProbeHost::new(vec![GeneratedCallLinkProbeResult::blocked(
        GeneratedCallLinkProbeMissReason::DirectCallDisallowed,
    )]);

    let (result, state, miss_records, blocked_records, host) = execute_generated_with_generated_call_link_sidecar(
        &block,
        &artifact,
        &table,
        host,
        &[(local(2), callee_value), (local(3), this_value)],
    );
    let frame = state.stack.top_frame().unwrap();

    assert_eq!(
        result,
        Ok(BaselineGeneratedExecutionResult::JsCall(expected_js_call_handoff(
            &artifact,
            frame.id,
            CoreOpcode::CallWithThis,
            bytecode_index,
            local(1),
            callee_value,
        )))
    );
    assert_eq!(frame.bytecode_index, Some(bytecode_index));
    assert_eq!(read_local(&state, 0), RuntimeValue::from_i32(7));
    assert!(miss_records.is_empty());
    assert_eq!(
        blocked_records,
        vec![blocked_record(&candidate, bytecode_index, GeneratedCallLinkProbeMissReason::DirectCallDisallowed)]
    );
    assert_eq!(
        host.requests,
        vec![GeneratedCallLinkProbeSnapshot {
            owner: owner(),
            opcode: CoreOpcode::CallWithThis,
            bytecode_index: bytecode_index.offset(),
            argument_count_including_this: 1,
            candidate_slot: candidate.slot,
            candidate_attachment_ordinal: candidate.attachment_ordinal,
            callee_value,
            callee_value_kind: ValueKind::Cell,
            callee_object: None,
            this_value,
            this_value_kind: ValueKind::Cell,
            this_object: None,
        }]
    );
}

#[test]
fn generated_call_link_sidecar_records_bounded_miss_or_candidate_not_found_and_hands_off() {
    let bytecode_index = BytecodeIndex::from_offset(1);
    let block = call_block(CoreOpcode::Call);
    let artifact = mixed_artifact_for_block(owner(), &block);
    let first_candidate = generated_call_link_candidate(CoreOpcode::Call, InlineCacheSlotId(72), bytecode_index, 82, 92, 102, 21);
    let second_candidate = generated_call_link_candidate(CoreOpcode::Call, InlineCacheSlotId(73), bytecode_index, 83, 93, 103, 22);
    let table = generated_call_link_candidate_table(owner(), vec![first_candidate, second_candidate]);
    let callee_value = generated_call_link_cell_value(0x6001);
    let host = SequencedGeneratedCallLinkProbeHost::new(vec![
        GeneratedCallLinkProbeResult::miss(GeneratedCallLinkProbeMissReason::CalleeMismatch),
        GeneratedCallLinkProbeResult::miss(GeneratedCallLinkProbeMissReason::HostUnavailable),
    ]);

    let (result, state, miss_records, blocked_records, host) =
        execute_generated_with_generated_call_link_sidecar(&block, &artifact, &table, host, &[(local(2), callee_value)]);
    let frame = state.stack.top_frame().unwrap();
    let expected = Ok(BaselineGeneratedExecutionResult::JsCall(expected_js_call_handoff(
        &artifact,
        frame.id,
        CoreOpcode::Call,
        bytecode_index,
        local(1),
        callee_value,
    )));
    assert_eq!(result, expected);
    assert!(blocked_records.is_empty());
    assert_eq!(host.requests.len(), 2);
    assert_eq!(
        miss_records,
        vec![
            miss_record(Some(&first_candidate), bytecode_index, GeneratedCallLinkProbeMissReason::CalleeMismatch),
            miss_record(Some(&second_candidate), bytecode_index, GeneratedCallLinkProbeMissReason::HostUnavailable),
        ]
    );

    let no_candidate =
        generated_call_link_candidate(CoreOpcode::Call, InlineCacheSlotId(74), BytecodeIndex::from_offset(9), 84, 94, 104, 23);
    let table = generated_call_link_candidate_table(owner(), vec![no_candidate]);
    let host = SequencedGeneratedCallLinkProbeHost::new(vec![GeneratedCallLinkProbeResult::blocked(
        GeneratedCallLinkProbeMissReason::DirectCallDisallowed,
    )]);

    let (result, state, miss_records, blocked_records, host) =
        execute_generated_with_generated_call_link_sidecar(&block, &artifact, &table, host, &[(local(2), callee_value)]);
    let frame = state.stack.top_frame().unwrap();
    assert_eq!(
        result,
        Ok(BaselineGeneratedExecutionResult::JsCall(expected_js_call_handoff(
            &artifact,
            frame.id,
            CoreOpcode::Call,
            bytecode_index,
            local(1),
            callee_value,
        )))
    );
    assert!(blocked_records.is_empty());
    assert!(host.requests.is_empty());
    assert_eq!(miss_records, vec![miss_record(None, bytecode_index, GeneratedCallLinkProbeMissReason::CandidateNotFound)]);
}

#[test]
fn generated_call_link_sidecar_skips_nonmatching_candidates_for_known_callee() {
    let bytecode_index = BytecodeIndex::from_offset(1);
    let block = call_block(CoreOpcode::Call);
    let nonmatching_candidate =
        generated_call_link_candidate(CoreOpcode::Call, InlineCacheSlotId(75), bytecode_index, 85, 95, 105, 24);
    let matching_payload = 0x6002;
    let matching_value = generated_call_link_cell_value(matching_payload);
    let (mut state, frame) = prepared_state(&block, &[]);
    let matching_cell = allocate_test_object_cell(&mut state, matching_payload);
    let matching_candidate = generated_call_link_candidate_for_target(
        CoreOpcode::Call,
        InlineCacheSlotId(76),
        bytecode_index,
        ExecutableId(86),
        ObjectId(matching_cell),
        CodeBlockId(106),
        25,
    );
    let table = generated_call_link_candidate_table(owner(), vec![nonmatching_candidate, matching_candidate]);
    let window = state.stack.top_frame().unwrap().register_window;
    state.registers.write(window, local(2), matching_value).unwrap();
    let instruction = block.decoded_instruction_at(bytecode_index).unwrap();
    let fallback = fallback_site(owner(), frame, instruction);
    let mut miss_records = Vec::new();
    let mut blocked_records = Vec::new();
    let mut hot_slot_hits = 0;
    let mut host = SequencedGeneratedCallLinkProbeHost::new(vec![GeneratedCallLinkProbeResult::DirectCall(
        GeneratedCallLinkDirectCall::from_candidate(&matching_candidate),
    )]);

    let direct_call = execute_generated_call_link_sidecar_probe_with_host(
        &table,
        &Vec::new(),
        &mut host,
        &mut miss_records,
        &mut blocked_records,
        &mut hot_slot_hits,
        &state,
        GeneratedCallLinkSidecarAttempt {
            window,
            code_block: &block,
            fallback,
            owner: owner(),
            opcode: CoreOpcode::Call,
            instruction,
        },
    )
    .expect("call-link sidecar probe");

    assert_eq!(direct_call.as_ref().map(|direct| direct.candidate.slot), Some(matching_candidate.slot));
    assert_eq!(
        host.requests,
        vec![GeneratedCallLinkProbeSnapshot {
            owner: owner(),
            opcode: CoreOpcode::Call,
            bytecode_index: bytecode_index.offset(),
            argument_count_including_this: 1,
            candidate_slot: matching_candidate.slot,
            candidate_attachment_ordinal: matching_candidate.attachment_ordinal,
            callee_value: matching_value,
            callee_value_kind: ValueKind::Cell,
            callee_object: Some(ObjectId(matching_cell)),
            this_value: RuntimeValue::undefined(),
            this_value_kind: ValueKind::Undefined,
            this_object: None,
        }]
    );
    assert!(miss_records.is_empty());
    assert!(blocked_records.is_empty());
}

#[test]
fn generated_call_link_sidecar_uses_hot_slot_before_host_probe() {
    let bytecode_index = BytecodeIndex::from_offset(1);
    let block = call_block(CoreOpcode::Call);
    let matching_payload = 0x6102;
    let matching_value = generated_call_link_cell_value(matching_payload);
    let (mut state, frame) = prepared_state(&block, &[]);
    let matching_cell = allocate_test_object_cell(&mut state, matching_payload);
    let mut candidate = generated_call_link_candidate_for_target(
        CoreOpcode::Call,
        InlineCacheSlotId(77),
        bytecode_index,
        ExecutableId(87),
        ObjectId(matching_cell),
        CodeBlockId(107),
        26,
    );
    candidate.direct_call_status = GeneratedCallLinkDirectCallStatus::Authorized;
    candidate.observation_ordinal = Some(100);
    candidate.descriptor_ordinal = Some(200);
    candidate.readiness_ordinal = Some(300);
    candidate.boundary_validation_ordinal = Some(400);
    candidate.attachment_plan_ordinal = 500;
    candidate.install_recheck_ordinal = 600;
    candidate.attachment_ordinal = 700;
    let authorization = GeneratedCallLinkDirectCall::from_candidate(&candidate);
    let hot_slots = vec![BaselineGeneratedJsDirectCallHotSlot {
        candidate,
        authorization,
        callee_object: ObjectId(matching_cell),
        argument_count_including_this: 1,
    }];
    let table = generated_call_link_candidate_table(owner(), vec![candidate]);
    let window = state.stack.top_frame().unwrap().register_window;
    state.registers.write(window, local(2), matching_value).unwrap();
    let instruction = block.decoded_instruction_at(bytecode_index).unwrap();
    let fallback = fallback_site(owner(), frame, instruction);
    let mut miss_records = Vec::new();
    let mut blocked_records = Vec::new();
    let mut hot_slot_hits = 0;
    let mut host = SequencedGeneratedCallLinkProbeHost::new(Vec::new());

    let direct_call = execute_generated_call_link_sidecar_probe_with_host(
        &table,
        &hot_slots,
        &mut host,
        &mut miss_records,
        &mut blocked_records,
        &mut hot_slot_hits,
        &state,
        GeneratedCallLinkSidecarAttempt {
            window,
            code_block: &block,
            fallback,
            owner: owner(),
            opcode: CoreOpcode::Call,
            instruction,
        },
    )
    .expect("call-link hot-slot sidecar probe")
    .expect("hot-slot direct call");

    assert_eq!(direct_call.candidate, candidate);
    assert_eq!(direct_call.authorization, authorization);
    assert_eq!(direct_call.callee_value, matching_value);
    assert_eq!(direct_call.callee_object, ObjectId(matching_cell));
    assert_eq!(direct_call.this_value, RuntimeValue::undefined());
    assert_eq!(direct_call.argument_count_including_this, 1);
    assert_eq!(hot_slot_hits, 1);
    assert!(host.requests.is_empty(), "a hot slot hit answers without probing the host");
    assert!(miss_records.is_empty());
    assert!(blocked_records.is_empty());
}

#[test]
fn generated_call_link_sidecar_probes_when_property_sidecars_are_present() {
    let property_index = BytecodeIndex::from_offset(0);
    let call_index = BytecodeIndex::from_offset(1);
    let block = code_block(vec![
        core_typed(
            property_index.offset(),
            CoreOpcode::GetByName,
            vec![Operand::Register(local(1)), Operand::Register(local(0)), Operand::IdentifierIndex(11)],
        ),
        core_typed(
            call_index.offset(),
            CoreOpcode::Call,
            vec![Operand::Register(local(2)), Operand::Register(local(3)), Operand::UnsignedImmediate(0)],
        ),
        core_typed(2, CoreOpcode::Return, vec![Operand::Register(local(2))]),
    ]);
    let artifact = mixed_artifact_for_block(owner(), &block);
    let load_table = property_load_plan_table(
        owner(),
        vec![property_load_plan(owner(), property_index, 11, StructureId::new(1), PropertyOffset::new(0))],
    );
    let guarded_table = empty_property_load_guarded_candidate_table(owner());
    let candidate = generated_call_link_candidate(CoreOpcode::Call, InlineCacheSlotId(75), call_index, 85, 95, 105, 31);
    let call_table = generated_call_link_candidate_table(owner(), vec![candidate]);
    let base = cell_runtime_value();
    let loaded_value = RuntimeValue::from_i32(42);
    let callee_value = generated_call_link_cell_value(0x7001);
    let mut property_host = SequencedPropertyLoadProbeHost::new(vec![GeneratedPropertyLoadProbeResult::hit(loaded_value)]);
    property_host
        .call_link_results
        .push(GeneratedCallLinkProbeResult::blocked(GeneratedCallLinkProbeMissReason::DirectCallDisallowed));

    let (mut state, frame) = prepared_state(&block, &[(local(0), base), (local(3), callee_value)]);
    let mut property_sidecars = BaselineGeneratedPropertyExecutionSidecars::new_with_generated_call_link(
        property_host,
        Some((&load_table, &guarded_table)),
        None,
        &call_table,
    );
    let result = execute_baseline_generated_code_with_property_sidecars(
        BaselineGeneratedExecutionRequest { artifact: &artifact, owner: owner(), code_block: &block, expected_frame: frame },
        &mut state,
        &mut property_sidecars,
    );
    let frame = state.stack.top_frame().unwrap();

    assert_eq!(
        result,
        Ok(BaselineGeneratedExecutionResult::JsCall(expected_js_call_handoff(
            &artifact,
            frame.id,
            CoreOpcode::Call,
            call_index,
            local(2),
            callee_value,
        )))
    );
    assert_eq!(frame.bytecode_index, Some(call_index));
    assert_eq!(read_local(&state, 1), loaded_value);
    assert!(property_sidecars.destination_root_sync_requests().is_empty());
    assert!(property_sidecars.property_load_probe_miss_records().is_empty());
    assert!(property_sidecars.guarded_property_load_probe_miss_records().is_empty());
    let property_host = &property_sidecars.dispatch_host;
    assert_eq!(property_host.probed_base_values, vec![base]);
    assert_eq!(property_host.probed_plan_keys, vec![property_cache_key(11)]);
    assert!(property_sidecars.generated_call_link_probe_miss_records().is_empty());
    assert_eq!(
        property_sidecars.generated_call_link_probe_blocked_records(),
        &vec![blocked_record(&candidate, call_index, GeneratedCallLinkProbeMissReason::DirectCallDisallowed)]
    );
    assert_eq!(
        property_host.call_link_requests,
        vec![GeneratedCallLinkProbeSnapshot {
            owner: owner(),
            opcode: CoreOpcode::Call,
            bytecode_index: call_index.offset(),
            argument_count_including_this: 1,
            candidate_slot: candidate.slot,
            candidate_attachment_ordinal: candidate.attachment_ordinal,
            callee_value,
            callee_value_kind: ValueKind::Cell,
            callee_object: None,
            this_value: RuntimeValue::undefined(),
            this_value_kind: ValueKind::Undefined,
            this_object: None,
        }]
    );
}

fn get_by_name_block() -> CodeBlock {
    code_block(vec![
        core_typed(
            0,
            CoreOpcode::GetByName,
            vec![Operand::Register(local(0)), Operand::Register(local(1)), Operand::IdentifierIndex(11)],
        ),
        core_typed(1, CoreOpcode::Return, vec![Operand::Register(local(0))]),
    ])
}

fn completed(value: RuntimeValue) -> RunResult {
    Ok(BaselineGeneratedExecutionResult::Completed(ExecutionCompletion::Returned(value)))
}

fn load_megamorphic_table(
    site_bytecode_index: u32,
    base_structure: StructureId,
    kind: GeneratedPropertyLoadMegamorphicCacheEntryKind,
) -> GeneratedPropertyLoadMegamorphicCandidateTable {
    let key = property_cache_key(11);
    GeneratedPropertyLoadMegamorphicCandidateTable::with_primary_entry(
        owner(),
        1,
        MegamorphicSite { owner: owner(), slot: InlineCacheSlotId(0), bytecode_index: site_bytecode_index, key },
        GeneratedPropertyLoadMegamorphicCacheEntry { key, base_structure, epoch: 1, kind },
    )
}

#[test]
fn generated_get_by_name_sidecar_hit_with_immediate_continues_to_return() {
    let block = get_by_name_block();
    let artifact = mixed_artifact_for_block(owner(), &block);
    let table = property_load_plan_table(
        owner(),
        vec![
            property_load_plan(owner(), BytecodeIndex::from_offset(0), 11, StructureId::new(1), PropertyOffset::new(0)),
            property_load_plan(owner(), BytecodeIndex::from_offset(0), 11, StructureId::new(2), PropertyOffset::new(1)),
        ],
    );
    let host = SequencedPropertyLoadProbeHost::new(vec![
        GeneratedPropertyLoadProbeResult::miss(GeneratedPropertyLoadProbeMissReason::StructureMismatch),
        GeneratedPropertyLoadProbeResult::hit(RuntimeValue::from_i32(42)),
    ]);

    let (result, _, root_sync_requests, probe_miss_records, host) =
        execute_generated_with_property_load_sidecar(&block, &artifact, &table, host, &[(local(1), cell_runtime_value())]);

    assert_eq!(result, completed(RuntimeValue::from_i32(42)));
    assert!(root_sync_requests.is_empty());
    assert_eq!(host.probed_base_structures, vec![Some(StructureId::new(2)), Some(StructureId::new(1))]);
    assert_eq!(host.probed_plan_keys, vec![property_cache_key(11), property_cache_key(11)]);
    assert_eq!(
        probe_miss_records,
        vec![BaselineGeneratedPropertyLoadProbeMissRecord {
            owner: owner(),
            bytecode_index: BytecodeIndex::from_offset(0),
            key: property_cache_key(11),
            base_structure: Some(StructureId::new(2)),
            offset: Some(PropertyOffset::new(1)),
            reason: GeneratedPropertyLoadProbeMissReason::StructureMismatch,
        }]
    );
}

#[test]
fn generated_get_by_name_sidecar_skips_known_structure_mismatch_before_host_probe() {
    let block = get_by_name_block();
    let artifact = mixed_artifact_for_block(owner(), &block);
    let table = property_load_plan_table(
        owner(),
        vec![
            property_load_plan(owner(), BytecodeIndex::from_offset(0), 11, StructureId::new(2), PropertyOffset::new(1)),
            property_load_plan(owner(), BytecodeIndex::from_offset(0), 11, StructureId::new(1), PropertyOffset::new(0)),
        ],
    );
    let base = cell_runtime_value();
    let mut host = SequencedPropertyLoadProbeHost::new(vec![GeneratedPropertyLoadProbeResult::hit(RuntimeValue::from_i32(42))]);
    host.sidecar_base_structure = Some(StructureId::new(2));

    let (result, _, root_sync_requests, probe_miss_records, host) =
        execute_generated_with_property_load_sidecar(&block, &artifact, &table, host, &[(local(1), base)]);

    assert_eq!(result, completed(RuntimeValue::from_i32(42)));
    assert!(root_sync_requests.is_empty());
    assert_eq!(host.sidecar_base_structure_queries, vec![base]);
    assert_eq!(host.probed_base_values, vec![base]);
    assert_eq!(host.probed_base_structures, vec![Some(StructureId::new(2))]);
    assert!(probe_miss_records.is_empty());
}

#[test]
fn generated_get_by_name_megamorphic_sidecar_hits_by_active_structure() {
    let block = get_by_name_block();
    let artifact = mixed_artifact_for_block(owner(), &block);
    let key = property_cache_key(11);
    let table = load_megamorphic_table(
        0,
        StructureId::new(2),
        GeneratedPropertyLoadMegamorphicCacheEntryKind::OwnData { offset: PropertyOffset::new(7) },
    );
    let base = cell_runtime_value();
    let mut host = SequencedPropertyLoadProbeHost::new(vec![GeneratedPropertyLoadProbeResult::hit(RuntimeValue::from_i32(42))]);
    host.sidecar_base_structure = Some(StructureId::new(2));

    let (result, _, root_sync_requests, probe_miss_records, guarded_records, host) =
        execute_generated_with_megamorphic_property_load_sidecar(&block, &artifact, &table, host, &[(local(1), base)]);

    assert_eq!(result, completed(RuntimeValue::from_i32(42)));
    assert!(root_sync_requests.is_empty());
    assert!(probe_miss_records.is_empty());
    assert!(guarded_records.is_empty());
    assert_eq!(host.sidecar_base_structure_queries, vec![base]);
    assert_eq!(host.probed_base_values, vec![base]);
    assert_eq!(host.probed_plan_keys, vec![key]);
    assert_eq!(host.probed_base_structures, vec![Some(StructureId::new(2))]);
}

#[test]
fn generated_get_by_name_megamorphic_sidecar_needs_base_structure_before_probe() {
    let block = get_by_name_block();
    let artifact = mixed_artifact_for_block(owner(), &block);
    let table = load_megamorphic_table(
        0,
        StructureId::new(2),
        GeneratedPropertyLoadMegamorphicCacheEntryKind::OwnData { offset: PropertyOffset::new(7) },
    );
    let base = cell_runtime_value();
    let host = SequencedPropertyLoadProbeHost::new(vec![GeneratedPropertyLoadProbeResult::hit(RuntimeValue::from_i32(42))]);

    let (result, _, root_sync_requests, probe_miss_records, guarded_records, host) =
        execute_generated_with_megamorphic_property_load_sidecar(&block, &artifact, &table, host, &[(local(1), base)]);

    assert!(matches!(result, Ok(BaselineGeneratedExecutionResult::Property(_))));
    assert!(root_sync_requests.is_empty());
    assert!(probe_miss_records.is_empty());
    assert!(guarded_records.is_empty());
    assert_eq!(host.sidecar_base_structure_queries, vec![base]);
    assert!(host.probed_base_values.is_empty());
}

#[test]
fn generated_get_by_name_megamorphic_sidecar_skips_pending_structure_chain_invalidation() {
    let block = get_by_name_block();
    let artifact = mixed_artifact_for_block(owner(), &block);
    let table = load_megamorphic_table(
        0,
        StructureId::new(2),
        GeneratedPropertyLoadMegamorphicCacheEntryKind::OwnData { offset: PropertyOffset::new(7) },
    );
    let base = cell_runtime_value();
    let mut host = SequencedPropertyLoadProbeHost::new(vec![GeneratedPropertyLoadProbeResult::hit(RuntimeValue::from_i32(42))]);
    host.sidecar_base_structure = Some(StructureId::new(2));
    host.pending_structure_chain_invalidations = true;

    let (result, _, root_sync_requests, probe_miss_records, guarded_records, host) =
        execute_generated_with_megamorphic_property_load_sidecar(&block, &artifact, &table, host, &[(local(1), base)]);

    assert!(matches!(result, Ok(BaselineGeneratedExecutionResult::Property(_))));
    assert!(root_sync_requests.is_empty());
    assert!(probe_miss_records.is_empty());
    assert!(guarded_records.is_empty());
    assert!(host.sidecar_base_structure_queries.is_empty());
    assert!(host.probed_base_values.is_empty());
}

#[test]
fn generated_get_by_name_megamorphic_sidecar_missing_entry_writes_undefined_without_host_probe() {
    let block = get_by_name_block();
    let artifact = mixed_artifact_for_block(owner(), &block);
    let table = load_megamorphic_table(0, StructureId::new(2), GeneratedPropertyLoadMegamorphicCacheEntryKind::Missing);
    let base = cell_runtime_value();
    let mut host = SequencedPropertyLoadProbeHost::new(vec![GeneratedPropertyLoadProbeResult::hit(RuntimeValue::from_i32(42))]);
    host.sidecar_base_structure = Some(StructureId::new(2));

    let (result, _, root_sync_requests, probe_miss_records, guarded_records, host) =
        execute_generated_with_megamorphic_property_load_sidecar(&block, &artifact, &table, host, &[(local(1), base)]);

    assert_eq!(result, completed(RuntimeValue::undefined()));
    assert!(root_sync_requests.is_empty());
    assert!(probe_miss_records.is_empty());
    assert!(guarded_records.is_empty());
    assert_eq!(host.sidecar_base_structure_queries, vec![base]);
    assert!(host.probed_base_values.is_empty());
}

#[test]
fn generated_get_by_name_megamorphic_sidecar_prototype_entry_uses_holder_probe() {
    let block = get_by_name_block();
    let artifact = mixed_artifact_for_block(owner(), &block);
    let key = property_cache_key(11);
    let holder = ObjectId(902);
    let offset = PropertyOffset::new(5);
    let base_structure = StructureId::new(2);
    let table = load_megamorphic_table(
        0,
        base_structure,
        GeneratedPropertyLoadMegamorphicCacheEntryKind::PrototypeData { holder, offset },
    );
    let base = cell_runtime_value();
    let loaded = RuntimeValue::from_i32(84);
    let mut host = SequencedPropertyLoadProbeHost::new(Vec::new());
    host.holder_results = vec![GeneratedPropertyLoadProbeResult::hit(loaded)];
    host.sidecar_base_structure = Some(base_structure);

    let (result, _, root_sync_requests, probe_miss_records, guarded_records, host) =
        execute_generated_with_megamorphic_property_load_sidecar(&block, &artifact, &table, host, &[(local(1), base)]);

    assert_eq!(result, completed(loaded));
    assert!(root_sync_requests.is_empty());
    assert!(probe_miss_records.is_empty());
    assert!(guarded_records.is_empty());
    assert_eq!(host.sidecar_base_structure_queries, vec![base]);
    assert!(host.probed_base_values.is_empty());
    assert!(host.guarded_probed_base_values.is_empty());
    assert_eq!(
        host.holder_requests,
        vec![GeneratedPropertyLoadMegamorphicHolderProbeRequest { key, base_structure, holder, offset }]
    );
}

#[test]
fn generated_get_by_name_megamorphic_sidecar_ignores_unrelated_sites_without_host_query() {
    let block = get_by_name_block();
    let artifact = mixed_artifact_for_block(owner(), &block);
    let table = load_megamorphic_table(
        99,
        StructureId::new(2),
        GeneratedPropertyLoadMegamorphicCacheEntryKind::OwnData { offset: PropertyOffset::new(7) },
    );
    let base = cell_runtime_value();
    let mut host = SequencedPropertyLoadProbeHost::new(vec![GeneratedPropertyLoadProbeResult::hit(RuntimeValue::from_i32(42))]);
    host.sidecar_base_structure = Some(StructureId::new(2));

    let (result, _, root_sync_requests, probe_miss_records, guarded_records, host) =
        execute_generated_with_megamorphic_property_load_sidecar(&block, &artifact, &table, host, &[(local(1), base)]);

    assert!(matches!(result, Ok(BaselineGeneratedExecutionResult::Property(_))));
    assert!(root_sync_requests.is_empty());
    assert!(probe_miss_records.is_empty());
    assert!(guarded_records.is_empty());
    assert!(host.sidecar_base_structure_queries.is_empty());
    assert!(host.probed_base_values.is_empty());
}

#[test]
fn generated_get_by_name_sidecar_probes_newest_matching_candidate_first() {
    let block = get_by_name_block();
    let artifact = mixed_artifact_for_block(owner(), &block);
    let table = property_load_plan_table(
        owner(),
        vec![
            property_load_plan(owner(), BytecodeIndex::from_offset(0), 11, StructureId::new(1), PropertyOffset::new(0)),
            property_load_plan(owner(), BytecodeIndex::from_offset(0), 11, StructureId::new(2), PropertyOffset::new(1)),
        ],
    );
    let base = cell_runtime_value();
    let host = SequencedPropertyLoadProbeHost::new(vec![GeneratedPropertyLoadProbeResult::hit(RuntimeValue::from_i32(42))]);

    let (result, _, root_sync_requests, probe_miss_records, host) =
        execute_generated_with_property_load_sidecar(&block, &artifact, &table, host, &[(local(1), base)]);

    assert_eq!(result, completed(RuntimeValue::from_i32(42)));
    assert!(root_sync_requests.is_empty());
    assert_eq!(host.sidecar_base_structure_queries, vec![base]);
    assert_eq!(host.probed_base_values, vec![base]);
    assert_eq!(host.probed_base_structures, vec![Some(StructureId::new(2))]);
    assert_eq!(host.probed_plan_keys, vec![property_cache_key(11)]);
    assert!(probe_miss_records.is_empty());
}

#[test]
fn generated_get_by_name_sidecar_cell_hit_records_destination_root_sync() {
    let block = get_by_name_block();
    let artifact = mixed_artifact_for_block(owner(), &block);
    let table = property_load_plan_table(
        owner(),
        vec![property_load_plan(owner(), BytecodeIndex::from_offset(0), 11, StructureId::new(1), PropertyOffset::new(0))],
    );
    let cell_value = cell_runtime_value();
    let host = SequencedPropertyLoadProbeHost::new(vec![GeneratedPropertyLoadProbeResult::hit(cell_value)]);

    let (result, state, root_sync_requests, _, _) =
        execute_generated_with_property_load_sidecar(&block, &artifact, &table, host, &[(local(1), cell_runtime_value())]);
    let frame = state.stack.top_frame().unwrap();

    assert_eq!(result, completed(cell_value));
    assert_eq!(
        root_sync_requests,
        vec![BaselineGeneratedPropertyLoadDestinationRootSyncRequest {
            frame: frame.id,
            bytecode_index: BytecodeIndex::from_offset(0),
            destination: local(0),
        }]
    );
}

#[test]
fn generated_get_by_name_sidecar_host_unavailable_keeps_property_handoff() {
    let block = get_by_name_block();
    let artifact = mixed_artifact_for_block(owner(), &block);
    let table = property_load_plan_table(
        owner(),
        vec![property_load_plan(owner(), BytecodeIndex::from_offset(0), 11, StructureId::new(1), PropertyOffset::new(0))],
    );
    let initial_destination = RuntimeValue::from_i32(17);
    let host = SequencedPropertyLoadProbeHost::default();

    let (result, state, root_sync_requests, probe_miss_records, host) = execute_generated_with_property_load_sidecar(
        &block,
        &artifact,
        &table,
        host,
        &[(local(0), initial_destination), (local(1), cell_runtime_value())],
    );
    let frame = state.stack.top_frame().unwrap();
    let site = property_handoff_site(owner(), BytecodeIndex::from_offset(0), 11);

    assert_eq!(
        result,
        Ok(BaselineGeneratedExecutionResult::Property(expected_property_handoff(
            frame.id,
            BytecodeIndex::from_offset(0),
            CoreOpcode::GetByName,
            site,
        )))
    );
    assert_eq!(read_local(&state, 0), initial_destination);
    assert!(root_sync_requests.is_empty());
    assert_eq!(host.probed_plan_keys, vec![property_cache_key(11)]);
    assert_eq!(
        probe_miss_records,
        vec![BaselineGeneratedPropertyLoadProbeMissRecord {
            owner: owner(),
            bytecode_index: BytecodeIndex::from_offset(0),
            key: property_cache_key(11),
            base_structure: Some(StructureId::new(1)),
            offset: Some(PropertyOffset::new(0)),
            reason: GeneratedPropertyLoadProbeMissReason::HostUnavailable,
        }]
    );
}

fn put_by_name_block() -> CodeBlock {
    code_block(vec![
        core_typed(
            0,
            CoreOpcode::PutByName,
            vec![Operand::Register(local(0)), Operand::IdentifierIndex(11), Operand::Register(local(2))],
        ),
        core_typed(1, CoreOpcode::Return, vec![Operand::Register(local(3))]),
    ])
}

fn in_by_id_block() -> CodeBlock {
    code_block(vec![
        core_typed(
            0,
            CoreOpcode::InById,
            vec![Operand::Register(local(0)), Operand::Register(local(1)), Operand::IdentifierIndex(11)],
        ),
        core_typed(1, CoreOpcode::Return, vec![Operand::Register(local(0))]),
    ])
}

fn in_by_val_block() -> CodeBlock {
    code_block(vec![
        core_typed(
            0,
            CoreOpcode::InByVal,
            vec![Operand::Register(local(0)), Operand::Register(local(1)), Operand::Register(local(3))],
        ),
        core_typed(1, CoreOpcode::Return, vec![Operand::Register(local(0))]),
    ])
}

fn in_by_id_handoff_site(owner: CodeBlockId, index: BytecodeIndex, identifier: u32) -> BaselineGeneratedPropertyHandoffSite {
    BaselineGeneratedPropertyHandoffSite::in_by_id_has(owner, InlineCacheSlotId(0), index, identifier)
}

fn in_by_value_handoff_site(
    owner: CodeBlockId,
    index: BytecodeIndex,
    property_register: VirtualRegister,
) -> BaselineGeneratedPropertyHandoffSite {
    BaselineGeneratedPropertyHandoffSite::in_by_value_has(owner, InlineCacheSlotId(0), index, property_register)
}

fn assert_in_handoff(result: &RunResult, state: &InterpreterExecutionState, opcode: CoreOpcode) {
    let frame = state.stack.top_frame().unwrap();
    let index = BytecodeIndex::from_offset(0);
    let site = if opcode == CoreOpcode::InById {
        in_by_id_handoff_site(owner(), index, 11)
    } else {
        in_by_value_handoff_site(owner(), index, local(3))
    };
    assert_eq!(result, &Ok(BaselineGeneratedExecutionResult::Property(expected_property_handoff(frame.id, index, opcode, site))));
}

fn has_host(base_structure: StructureId) -> SequencedPropertyLoadProbeHost {
    let mut host = SequencedPropertyLoadProbeHost::default();
    host.sidecar_base_structure = Some(base_structure);
    host
}

fn default_has_table(site_bytecode_index: u32, table_epoch: u16, result: bool) -> GeneratedPropertyHasMegamorphicCandidateTable {
    property_has_megamorphic_candidate_table(
        owner(),
        BytecodeIndex::from_offset(site_bytecode_index),
        property_cache_key(11),
        StructureId::new(2),
        table_epoch,
        1,
        result,
    )
}

#[test]
fn baseline_generated_property_store_sidecar_hit_commits_through_host() {
    let block = put_by_name_block();
    let artifact = mixed_artifact_for_block(owner(), &block);
    let candidate = property_store_mutation_candidate(
        property_store_plan(owner(), BytecodeIndex::from_offset(0), 11, StructureId::new(1), PropertyOffset::new(0)),
        1,
    );
    let table = property_store_mutation_candidate_table(owner(), vec![candidate]);
    let base = cell_runtime_value();
    let stored_value = RuntimeValue::from_i32(99);
    let return_value = RuntimeValue::from_i32(13);
    let host = SequencedPropertyStoreMutationHost::default();

    let (result, state, probe_miss_records, rejection_records, commit_records, host) = execute_generated_with_property_store_sidecar(
        &block,
        &artifact,
        &table,
        host,
        &[(local(0), base), (local(2), stored_value), (local(3), return_value)],
    );

    assert_eq!(result, completed(return_value));
    assert_eq!(read_local(&state, 2), stored_value);
    assert!(probe_miss_records.is_empty());
    assert!(rejection_records.is_empty());
    assert_eq!(host.probed_base_values, vec![base]);
    assert_eq!(host.probed_stored_values, vec![stored_value]);
    assert_eq!(host.committed_base_values, vec![base]);
    assert_eq!(host.committed_stored_values, vec![stored_value]);
    assert_eq!(host.committed_keys, vec![property_cache_key(11)]);
    assert_eq!(commit_records.len(), 1);
    assert_eq!(commit_records[0].owner, owner());
    assert_eq!(commit_records[0].bytecode_index, BytecodeIndex::from_offset(0));
    assert_eq!(commit_records[0].slot, InlineCacheSlotId(0));
    assert_eq!(commit_records[0].key, property_cache_key(11));
    assert_eq!(commit_records[0].store_plan_ordinal, 1);
    assert_eq!(commit_records[0].readiness_ordinal, 301);
    assert_eq!(commit_records[0].commit.stored_value, stored_value);
}

#[test]
fn baseline_generated_property_store_megamorphic_sidecar_hits_by_active_structure() {
    let block = put_by_name_block();
    let artifact = mixed_artifact_for_block(owner(), &block);
    let key = property_cache_key(11);
    let table = GeneratedPropertyStoreMegamorphicCandidateTable::with_primary_entry(
        owner(),
        1,
        MegamorphicSite { owner: owner(), slot: InlineCacheSlotId(0), bytecode_index: 0, key },
        GeneratedPropertyStoreMegamorphicCacheEntry {
            key,
            old_structure: StructureId::new(2),
            new_structure: StructureId::new(2),
            epoch: 1,
            offset: PropertyOffset::new(7),
            reallocating: false,
        },
    );
    let base = cell_runtime_value();
    let stored_value = RuntimeValue::from_i32(99);
    let return_value = RuntimeValue::from_i32(13);
    let mut host = SequencedPropertyStoreMutationHost::default();
    host.sidecar_base_structure = Some(StructureId::new(2));

    let (result, state, host) = execute_generated_with_megamorphic_property_store_sidecar(
        &block,
        &artifact,
        &table,
        host,
        &[(local(0), base), (local(2), stored_value), (local(3), return_value)],
    );

    assert_eq!(result, completed(return_value));
    assert_eq!(read_local(&state, 2), stored_value);
    assert_eq!(host.sidecar_base_structure_queries, vec![base]);
    assert_eq!(host.probed_base_values, vec![base]);
    assert_eq!(host.probed_stored_values, vec![stored_value]);
    assert_eq!(host.probed_plan_keys, vec![key]);
    assert_eq!(host.probed_base_structures, vec![Some(StructureId::new(2))]);
    assert_eq!(host.committed_base_values, vec![base]);
    assert_eq!(host.committed_keys, vec![key]);
    assert_eq!(host.committed_stored_values, vec![stored_value]);
}

#[test]
fn baseline_generated_property_has_megamorphic_sidecar_hits_true_by_active_structure() {
    let block = in_by_id_block();
    let artifact = mixed_artifact_for_block(owner(), &block);
    let table = default_has_table(0, 1, true);
    let base = cell_runtime_value();

    let (result, state, host) =
        execute_generated_with_megamorphic_property_has_sidecar(&block, &artifact, &table, has_host(StructureId::new(2)), &[(local(1), base)]);

    assert_eq!(result, completed(RuntimeValue::from_bool(true)));
    assert_eq!(read_local(&state, 0), RuntimeValue::from_bool(true));
    assert_eq!(host.sidecar_base_structure_queries, vec![base]);
}

#[test]
fn baseline_generated_property_has_megamorphic_sidecar_hits_false_by_active_structure() {
    let block = in_by_id_block();
    let artifact = mixed_artifact_for_block(owner(), &block);
    let table = default_has_table(0, 1, false);
    let base = cell_runtime_value();

    let (result, state, host) =
        execute_generated_with_megamorphic_property_has_sidecar(&block, &artifact, &table, has_host(StructureId::new(2)), &[(local(1), base)]);

    assert_eq!(result, completed(RuntimeValue::from_bool(false)));
    assert_eq!(read_local(&state, 0), RuntimeValue::from_bool(false));
    assert_eq!(host.sidecar_base_structure_queries, vec![base]);
}

#[test]
fn baseline_generated_property_has_megamorphic_sidecar_stale_entry_falls_back() {
    let block = in_by_id_block();
    let artifact = mixed_artifact_for_block(owner(), &block);
    let table = default_has_table(0, 2, true);
    let base = cell_runtime_value();
    let initial_destination = RuntimeValue::from_i32(17);

    let (result, state, host) = execute_generated_with_megamorphic_property_has_sidecar(
        &block,
        &artifact,
        &table,
        has_host(StructureId::new(2)),
        &[(local(0), initial_destination), (local(1), base)],
    );

    assert_in_handoff(&result, &state, CoreOpcode::InById);
    assert_eq!(read_local(&state, 0), initial_destination);
    assert_eq!(host.sidecar_base_structure_queries, vec![base]);
}

#[test]
fn baseline_generated_property_has_megamorphic_sidecar_skips_pending_structure_chain_invalidation() {
    let block = in_by_id_block();
    let artifact = mixed_artifact_for_block(owner(), &block);
    let table = default_has_table(0, 1, true);
    let base = cell_runtime_value();
    let mut host = SequencedPropertyLoadProbeHost { pending_structure_chain_invalidations: true, ..Default::default() };
    host.sidecar_base_structure = Some(StructureId::new(2));

    let (result, state, host) =
        execute_generated_with_megamorphic_property_has_sidecar(&block, &artifact, &table, host, &[(local(1), base)]);

    assert_in_handoff(&result, &state, CoreOpcode::InById);
    assert!(host.sidecar_base_structure_queries.is_empty());
}

#[test]
fn baseline_generated_property_has_megamorphic_sidecar_ignores_unrelated_sites_without_host_query() {
    let block = in_by_id_block();
    let artifact = mixed_artifact_for_block(owner(), &block);
    let table = default_has_table(9, 1, true);

    let (result, state, host) = execute_generated_with_megamorphic_property_has_sidecar(
        &block,
        &artifact,
        &table,
        has_host(StructureId::new(2)),
        &[(local(1), cell_runtime_value())],
    );

    assert_in_handoff(&result, &state, CoreOpcode::InById);
    assert!(host.sidecar_base_structure_queries.is_empty());
}

#[test]
fn baseline_generated_property_has_megamorphic_sidecar_keeps_primitive_base_on_handoff() {
    let block = in_by_id_block();
    let artifact = mixed_artifact_for_block(owner(), &block);
    let table = default_has_table(0, 1, true);
    let base = RuntimeValue::from_i32(7);

    let (result, state, host) =
        execute_generated_with_megamorphic_property_has_sidecar(&block, &artifact, &table, has_host(StructureId::new(2)), &[(local(1), base)]);

    assert_in_handoff(&result, &state, CoreOpcode::InById);
    assert_eq!(host.sidecar_base_structure_queries, vec![base]);
}

#[test]
fn baseline_generated_property_has_megamorphic_sidecar_hits_in_by_val_atom_key() {
    let block = in_by_val_block();
    let artifact = mixed_artifact_for_block(owner(), &block);
    let table = default_has_table(0, 1, true);
    let mut host = has_host(StructureId::new(2));
    host.has_sidecar_runtime_key_results = vec![Some(property_cache_key(11))];
    let base = cell_runtime_value();
    let runtime_key = generated_call_link_cell_value(0x5678);

    let (result, state, host) = execute_generated_with_megamorphic_property_has_sidecar(
        &block,
        &artifact,
        &table,
        host,
        &[(local(1), base), (local(3), runtime_key)],
    );

    assert_eq!(result, completed(RuntimeValue::from_bool(true)));
    assert_eq!(read_local(&state, 0), RuntimeValue::from_bool(true));
    assert_eq!(host.has_sidecar_runtime_key_queries, vec![runtime_key]);
    assert_eq!(host.sidecar_base_structure_queries, vec![base]);
}

#[test]
fn baseline_generated_property_has_megamorphic_sidecar_hits_in_by_val_cached_false() {
    let block = in_by_val_block();
    let artifact = mixed_artifact_for_block(owner(), &block);
    let table = default_has_table(0, 1, false);
    let base = cell_runtime_value();
    let runtime_key = generated_call_link_cell_value(0x5678);
    let mut host = has_host(StructureId::new(2));
    host.has_sidecar_runtime_key_results = vec![Some(property_cache_key(11))];

    let (result, state, host) = execute_generated_with_megamorphic_property_has_sidecar(
        &block,
        &artifact,
        &table,
        host,
        &[(local(1), base), (local(3), runtime_key)],
    );

    assert_eq!(result, completed(RuntimeValue::from_bool(false)));
    assert_eq!(read_local(&state, 0), RuntimeValue::from_bool(false));
    assert_eq!(host.has_sidecar_runtime_key_queries, vec![runtime_key]);
    assert_eq!(host.sidecar_base_structure_queries, vec![base]);
}

#[test]
fn baseline_generated_property_has_megamorphic_sidecar_in_by_val_pending_invalidation_skips_base_query() {
    let block = in_by_val_block();
    let artifact = mixed_artifact_for_block(owner(), &block);
    let table = default_has_table(0, 1, true);
    let runtime_key = generated_call_link_cell_value(0x5678);
    let mut host = SequencedPropertyLoadProbeHost { pending_structure_chain_invalidations: true, ..Default::default() };
    host.sidecar_base_structure = Some(StructureId::new(2));
    host.has_sidecar_runtime_key_results = vec![Some(property_cache_key(11))];

    let (result, state, host) = execute_generated_with_megamorphic_property_has_sidecar(
        &block,
        &artifact,
        &table,
        host,
        &[(local(1), cell_runtime_value()), (local(3), runtime_key)],
    );

    assert_in_handoff(&result, &state, CoreOpcode::InByVal);
    assert_eq!(host.has_sidecar_runtime_key_queries, vec![runtime_key]);
    assert!(host.sidecar_base_structure_queries.is_empty());
}

#[test]
fn baseline_generated_property_has_megamorphic_sidecar_in_by_val_mismatched_key_falls_back_without_base_query() {
    let block = in_by_val_block();
    let artifact = mixed_artifact_for_block(owner(), &block);
    let table = default_has_table(0, 1, true);
    let runtime_key = generated_call_link_cell_value(0x5678);
    let mut host = has_host(StructureId::new(2));
    host.has_sidecar_runtime_key_results = vec![Some(property_cache_key(12))];

    let (result, state, host) = execute_generated_with_megamorphic_property_has_sidecar(
        &block,
        &artifact,
        &table,
        host,
        &[(local(1), cell_runtime_value()), (local(3), runtime_key)],
    );

    assert_in_handoff(&result, &state, CoreOpcode::InByVal);
    assert_eq!(host.has_sidecar_runtime_key_queries, vec![runtime_key]);
    assert!(host.sidecar_base_structure_queries.is_empty());
}

#[test]
fn baseline_generated_property_has_megamorphic_sidecar_in_by_val_dynamic_key_falls_back_without_base_query() {
    let block = in_by_val_block();
    let artifact = mixed_artifact_for_block(owner(), &block);
    let table = default_has_table(0, 1, true);
    let runtime_key = RuntimeValue::from_i32(11);

    let (result, state, host) = execute_generated_with_megamorphic_property_has_sidecar(
        &block,
        &artifact,
        &table,
        has_host(StructureId::new(2)),
        &[(local(1), cell_runtime_value()), (local(3), runtime_key)],
    );

    assert_in_handoff(&result, &state, CoreOpcode::InByVal);
    assert_eq!(host.has_sidecar_runtime_key_queries, vec![runtime_key]);
    assert!(host.sidecar_base_structure_queries.is_empty());
}

#[test]
fn baseline_generated_property_has_megamorphic_sidecar_in_by_val_index_key_falls_back_without_base_query() {
    let block = in_by_val_block();
    let artifact = mixed_artifact_for_block(owner(), &block);
    let table = default_has_table(0, 1, true);
    let runtime_key = generated_call_link_cell_value(0x5678);
    let mut host = has_host(StructureId::new(2));
    host.has_sidecar_runtime_key_results = vec![Some(indexed_property_cache_key(0))];

    let (result, state, host) = execute_generated_with_megamorphic_property_has_sidecar(
        &block,
        &artifact,
        &table,
        host,
        &[(local(1), cell_runtime_value()), (local(3), runtime_key)],
    );

    assert_in_handoff(&result, &state, CoreOpcode::InByVal);
    assert_eq!(host.has_sidecar_runtime_key_queries, vec![runtime_key]);
    assert!(host.sidecar_base_structure_queries.is_empty());
}

#[test]
fn baseline_generated_property_has_megamorphic_sidecar_in_by_val_primitive_base_falls_back() {
    let block = in_by_val_block();
    let artifact = mixed_artifact_for_block(owner(), &block);
    let table = default_has_table(0, 1, true);
    let base = RuntimeValue::from_i32(7);
    let runtime_key = generated_call_link_cell_value(0x5678);
    let mut host = has_host(StructureId::new(2));
    host.has_sidecar_runtime_key_results = vec![Some(property_cache_key(11))];

    let (result, state, host) = execute_generated_with_megamorphic_property_has_sidecar(
        &block,
        &artifact,
        &table,
        host,
        &[(local(1), base), (local(3), runtime_key)],
    );

    assert_in_handoff(&result, &state, CoreOpcode::InByVal);
    assert_eq!(host.has_sidecar_runtime_key_queries, vec![runtime_key]);
    assert_eq!(host.sidecar_base_structure_queries, vec![base]);
}

/// Runs `block` with property sidecars that know one load plan table (an empty guarded
/// table) and one store candidate table, sharing `host`.
fn execute_generated_with_load_and_store_sidecars(
    block: &CodeBlock,
    artifact: &BaselineGeneratedCodeArtifact,
    load_table: &PropertyLoadAccessCasePlanTable,
    store_table: &PropertyStoreMutationCandidateTable,
    host: SequencedPropertyStoreMutationHost,
    initial_locals: &[(VirtualRegister, RuntimeValue)],
) -> (
    RunResult,
    InterpreterExecutionState,
    BaselineGeneratedPropertyExecutionSidecars<'static, SequencedPropertyStoreMutationHost>,
) {
    let guarded_table: &'static PropertyLoadGuardedCandidateTable =
        Box::leak(Box::new(empty_property_load_guarded_candidate_table(owner())));
    let load_table: &'static PropertyLoadAccessCasePlanTable = Box::leak(Box::new(load_table.clone()));
    let store_table: &'static PropertyStoreMutationCandidateTable = Box::leak(Box::new(store_table.clone()));
    let (mut state, frame) = prepared_state(block, initial_locals);
    let mut sidecars =
        BaselineGeneratedPropertyExecutionSidecars::new(host, Some((load_table, guarded_table)), Some(store_table));
    let result = execute_baseline_generated_code_with_property_sidecars(
        BaselineGeneratedExecutionRequest { artifact, owner: owner(), code_block: block, expected_frame: frame },
        &mut state,
        &mut sidecars,
    );
    (result, state, sidecars)
}

#[test]
fn baseline_generated_property_store_mixed_load_store_sidecars_share_one_host() {
    let block = code_block(vec![
        core_typed(
            0,
            CoreOpcode::GetByName,
            vec![Operand::Register(local(1)), Operand::Register(local(0)), Operand::IdentifierIndex(11)],
        ),
        core_typed(
            1,
            CoreOpcode::PutByName,
            vec![Operand::Register(local(0)), Operand::IdentifierIndex(12), Operand::Register(local(1))],
        ),
        core_typed(2, CoreOpcode::Return, vec![Operand::Register(local(1))]),
    ]);
    let artifact = mixed_artifact_for_block(owner(), &block);
    let load_table = property_load_plan_table(
        owner(),
        vec![property_load_plan(owner(), BytecodeIndex::from_offset(0), 11, StructureId::new(1), PropertyOffset::new(0))],
    );
    let store_candidate = property_store_mutation_candidate(
        property_store_plan(owner(), BytecodeIndex::from_offset(1), 12, StructureId::new(1), PropertyOffset::new(1)),
        1,
    );
    let store_table = property_store_mutation_candidate_table(owner(), vec![store_candidate]);
    let base = cell_runtime_value();
    let loaded_value = RuntimeValue::from_i32(42);
    let host = SequencedPropertyStoreMutationHost {
        load_results: vec![GeneratedPropertyLoadProbeResult::hit(loaded_value)],
        ..Default::default()
    };

    let (result, state, sidecars) =
        execute_generated_with_load_and_store_sidecars(&block, &artifact, &load_table, &store_table, host, &[(local(0), base)]);

    assert_eq!(result, completed(loaded_value));
    assert!(sidecars.destination_root_sync_requests().is_empty());
    assert!(sidecars.property_load_probe_miss_records().is_empty());
    assert!(sidecars.property_store_probe_miss_records().is_empty());
    assert!(sidecars.property_store_mutation_rejection_records().is_empty());
    assert_eq!(read_local(&state, 1), loaded_value);
    let host = &sidecars.dispatch_host;
    assert_eq!(host.load_probed_base_values, vec![base]);
    assert_eq!(host.load_probed_plan_keys, vec![property_cache_key(11)]);
    assert_eq!(host.probed_base_values, vec![base]);
    assert_eq!(host.probed_stored_values, vec![loaded_value]);
    assert_eq!(host.probed_plan_keys, vec![property_cache_key(12)]);
    assert_eq!(host.committed_base_values, vec![base]);
    assert_eq!(host.committed_stored_values, vec![loaded_value]);
    let commit_records = sidecars.property_store_mutation_commit_records();
    assert_eq!(commit_records.len(), 1);
    assert_eq!(commit_records[0].slot, InlineCacheSlotId(0));
    assert_eq!(commit_records[0].bytecode_index, BytecodeIndex::from_offset(1));
}

#[test]
fn baseline_generated_property_increment_sidecar_skips_numeric_update_chain() {
    let block = code_block(vec![
        core_typed(
            0,
            CoreOpcode::GetByName,
            vec![Operand::Register(local(0)), Operand::Register(local(5)), Operand::IdentifierIndex(11)],
        ),
        core_typed(1, CoreOpcode::ToNumber, vec![Operand::Register(local(1)), Operand::Register(local(0))]),
        core_typed(2, CoreOpcode::Move, vec![Operand::Register(local(2)), Operand::Register(local(1))]),
        core_typed(3, CoreOpcode::LoadInt32, vec![Operand::Register(local(3)), Operand::SignedImmediate(1)]),
        core_typed(
            4,
            CoreOpcode::AddInt32,
            vec![Operand::Register(local(4)), Operand::Register(local(1)), Operand::Register(local(3))],
        ),
        core_typed(
            5,
            CoreOpcode::PutByName,
            vec![Operand::Register(local(5)), Operand::IdentifierIndex(11), Operand::Register(local(4))],
        ),
        core_typed(6, CoreOpcode::Return, vec![Operand::Register(local(2))]),
    ]);
    let artifact = mixed_artifact_for_block(owner(), &block);
    let load_table = property_load_plan_table(
        owner(),
        vec![property_load_plan(owner(), BytecodeIndex::from_offset(0), 11, StructureId::new(1), PropertyOffset::new(0))],
    );
    let store_candidate = property_store_mutation_candidate(
        property_store_plan(owner(), BytecodeIndex::from_offset(5), 11, StructureId::new(1), PropertyOffset::new(0)),
        1,
    );
    let store_table = property_store_mutation_candidate_table(owner(), vec![store_candidate]);
    let base = cell_runtime_value();
    let old_value = RuntimeValue::from_i32(41);
    let updated_value = RuntimeValue::from_i32(42);
    let host = SequencedPropertyStoreMutationHost {
        load_results: vec![GeneratedPropertyLoadProbeResult::hit(old_value)],
        ..Default::default()
    };

    let (result, state, sidecars) =
        execute_generated_with_load_and_store_sidecars(&block, &artifact, &load_table, &store_table, host, &[(local(5), base)]);

    assert_eq!(result, completed(old_value));
    assert!(sidecars.property_load_probe_miss_records().is_empty());
    assert!(sidecars.property_store_probe_miss_records().is_empty());
    assert!(sidecars.property_store_mutation_rejection_records().is_empty());
    assert_eq!(sidecars.property_store_mutation_commit_records().len(), 1);
    assert_eq!(read_local(&state, 0), old_value);
    assert_eq!(read_local(&state, 1), old_value);
    assert_eq!(read_local(&state, 2), old_value);
    assert_eq!(read_local(&state, 3), RuntimeValue::from_i32(1));
    assert_eq!(read_local(&state, 4), updated_value);
    let host = &sidecars.dispatch_host;
    assert_eq!(host.load_probed_base_values, vec![base]);
    assert_eq!(host.load_probed_plan_keys, vec![property_cache_key(11)]);
    assert_eq!(host.probed_base_values, vec![base]);
    assert_eq!(host.probed_stored_values, vec![updated_value]);
    assert_eq!(host.probed_plan_keys, vec![property_cache_key(11)]);
    assert_eq!(host.committed_base_values, vec![base]);
    assert_eq!(host.committed_stored_values, vec![updated_value]);
}

#[test]
fn baseline_generated_property_increment_sidecar_preserves_register_aliasing_order() {
    let block = code_block(vec![
        core_typed(
            0,
            CoreOpcode::GetByName,
            vec![Operand::Register(local(0)), Operand::Register(local(5)), Operand::IdentifierIndex(11)],
        ),
        core_typed(1, CoreOpcode::ToNumber, vec![Operand::Register(local(1)), Operand::Register(local(0))]),
        core_typed(2, CoreOpcode::LoadInt32, vec![Operand::Register(local(1)), Operand::SignedImmediate(1)]),
        core_typed(
            3,
            CoreOpcode::AddInt32,
            vec![Operand::Register(local(4)), Operand::Register(local(1)), Operand::Register(local(1))],
        ),
        core_typed(
            4,
            CoreOpcode::PutByName,
            vec![Operand::Register(local(5)), Operand::IdentifierIndex(11), Operand::Register(local(4))],
        ),
        core_typed(5, CoreOpcode::Return, vec![Operand::Register(local(4))]),
    ]);
    let artifact = mixed_artifact_for_block(owner(), &block);
    let load_table = property_load_plan_table(
        owner(),
        vec![property_load_plan(owner(), BytecodeIndex::from_offset(0), 11, StructureId::new(1), PropertyOffset::new(0))],
    );
    let store_candidate = property_store_mutation_candidate(
        property_store_plan(owner(), BytecodeIndex::from_offset(4), 11, StructureId::new(1), PropertyOffset::new(0)),
        1,
    );
    let store_table = property_store_mutation_candidate_table(owner(), vec![store_candidate]);
    let base = cell_runtime_value();
    let host = SequencedPropertyStoreMutationHost {
        load_results: vec![GeneratedPropertyLoadProbeResult::hit(RuntimeValue::from_i32(41))],
        ..Default::default()
    };

    let (result, state, sidecars) =
        execute_generated_with_load_and_store_sidecars(&block, &artifact, &load_table, &store_table, host, &[(local(5), base)]);

    assert_eq!(result, completed(RuntimeValue::from_i32(2)));
    assert_eq!(read_local(&state, 1), RuntimeValue::from_i32(1));
    assert_eq!(read_local(&state, 4), RuntimeValue::from_i32(2));
    assert_eq!(sidecars.dispatch_host.probed_stored_values, vec![RuntimeValue::from_i32(2)]);
    assert_eq!(sidecars.dispatch_host.committed_stored_values, vec![RuntimeValue::from_i32(2)]);
}

#[test]
fn baseline_generated_property_increment_sidecar_store_miss_resumes_at_put() {
    let block = code_block(vec![
        core_typed(
            0,
            CoreOpcode::GetByName,
            vec![Operand::Register(local(0)), Operand::Register(local(5)), Operand::IdentifierIndex(11)],
        ),
        core_typed(1, CoreOpcode::ToNumber, vec![Operand::Register(local(1)), Operand::Register(local(0))]),
        core_typed(2, CoreOpcode::LoadInt32, vec![Operand::Register(local(3)), Operand::SignedImmediate(1)]),
        core_typed(
            3,
            CoreOpcode::AddInt32,
            vec![Operand::Register(local(4)), Operand::Register(local(1)), Operand::Register(local(3))],
        ),
        core_typed(
            4,
            CoreOpcode::PutByName,
            vec![Operand::Register(local(5)), Operand::IdentifierIndex(11), Operand::Register(local(4))],
        ),
        core_typed(5, CoreOpcode::Return, vec![Operand::Register(local(4))]),
    ]);
    let artifact = mixed_artifact_for_block(owner(), &block);
    let load_table = property_load_plan_table(
        owner(),
        vec![property_load_plan(owner(), BytecodeIndex::from_offset(0), 11, StructureId::new(1), PropertyOffset::new(0))],
    );
    let store_candidate = property_store_mutation_candidate(
        property_store_plan(owner(), BytecodeIndex::from_offset(4), 11, StructureId::new(1), PropertyOffset::new(0)),
        1,
    );
    let store_table = property_store_mutation_candidate_table(owner(), vec![store_candidate]);
    let base = cell_runtime_value();
    let old_value = RuntimeValue::from_i32(41);
    let updated_value = RuntimeValue::from_i32(42);
    let host = SequencedPropertyStoreMutationHost {
        load_results: vec![GeneratedPropertyLoadProbeResult::hit(old_value)],
        probe_results: vec![GeneratedPropertyStoreProbeResult::miss(GeneratedPropertyStoreProbeMissReason::StructureMismatch)],
        ..Default::default()
    };

    let (result, state, sidecars) =
        execute_generated_with_load_and_store_sidecars(&block, &artifact, &load_table, &store_table, host, &[(local(5), base)]);

    let Ok(BaselineGeneratedExecutionResult::Property(handoff)) = result else {
        panic!("expected PutByName property handoff after fused numeric prefix");
    };
    assert_eq!(handoff.site.bytecode_index, BytecodeIndex::from_offset(4));
    assert_eq!(handoff.site.opcode, CoreOpcode::PutByName);
    assert_eq!(read_local(&state, 1), old_value);
    assert_eq!(read_local(&state, 3), RuntimeValue::from_i32(1));
    assert_eq!(read_local(&state, 4), updated_value);
    assert_eq!(sidecars.dispatch_host.probed_stored_values, vec![updated_value]);
    let property_store_probe_miss_records = sidecars.property_store_probe_miss_records();
    assert_eq!(property_store_probe_miss_records.len(), 1);
    assert_eq!(property_store_probe_miss_records[0].bytecode_index, BytecodeIndex::from_offset(4));
}

fn single_store_candidate_table() -> PropertyStoreMutationCandidateTable {
    let candidate = property_store_mutation_candidate(
        property_store_plan(owner(), BytecodeIndex::from_offset(0), 11, StructureId::new(1), PropertyOffset::new(0)),
        1,
    );
    property_store_mutation_candidate_table(owner(), vec![candidate])
}

fn put_by_name_returning_stored_block() -> CodeBlock {
    code_block(vec![
        core_typed(
            0,
            CoreOpcode::PutByName,
            vec![Operand::Register(local(0)), Operand::IdentifierIndex(11), Operand::Register(local(2))],
        ),
        core_typed(1, CoreOpcode::Return, vec![Operand::Register(local(2))]),
    ])
}

fn assert_put_by_name_handoff(result: &RunResult, state: &InterpreterExecutionState) {
    let frame = state.stack.top_frame().unwrap();
    let index = BytecodeIndex::from_offset(0);
    let site = property_store_handoff_site(owner(), index, 11);
    assert_eq!(
        result,
        &Ok(BaselineGeneratedExecutionResult::Property(expected_property_handoff(frame.id, index, CoreOpcode::PutByName, site)))
    );
}

#[test]
fn baseline_generated_property_store_probe_miss_falls_back_and_records_miss() {
    let block = put_by_name_returning_stored_block();
    let artifact = mixed_artifact_for_block(owner(), &block);
    let table = single_store_candidate_table();
    let base = cell_runtime_value();
    let stored_value = RuntimeValue::from_i32(99);
    let host = SequencedPropertyStoreMutationHost::new(
        vec![GeneratedPropertyStoreProbeResult::miss(GeneratedPropertyStoreProbeMissReason::StructureMismatch)],
        Vec::new(),
    );

    let (result, state, probe_miss_records, rejection_records, commit_records, host) =
        execute_generated_with_property_store_sidecar(&block, &artifact, &table, host, &[(local(0), base), (local(2), stored_value)]);

    assert_put_by_name_handoff(&result, &state);
    assert_eq!(read_local(&state, 2), stored_value);
    assert_eq!(host.probed_base_values, vec![base]);
    assert!(host.committed_base_values.is_empty());
    assert!(rejection_records.is_empty());
    assert!(commit_records.is_empty());
    assert_eq!(
        probe_miss_records,
        vec![BaselineGeneratedPropertyStoreProbeMissRecord {
            owner: owner(),
            bytecode_index: BytecodeIndex::from_offset(0),
            slot: InlineCacheSlotId(0),
            key: property_cache_key(11),
            plan_kind: PropertyStoreAccessCasePlanKind::DataOnlyReplace,
            base_structure: Some(StructureId::new(1)),
            planned_new_structure: None,
            offset: Some(PropertyOffset::new(0)),
            store_plan_ordinal: 1,
            readiness_ordinal: 301,
            stored_value_kind: ValueKind::Int32,
            reason: GeneratedPropertyStoreProbeMissReason::StructureMismatch,
        }]
    );
}

#[test]
fn baseline_generated_property_store_sidecar_skips_known_structure_mismatch_before_host_probe() {
    let block = put_by_name_block();
    let artifact = mixed_artifact_for_block(owner(), &block);
    let skipped_candidate = property_store_mutation_candidate(
        property_store_plan(owner(), BytecodeIndex::from_offset(0), 11, StructureId::new(1), PropertyOffset::new(0)),
        1,
    );
    let matching_candidate = property_store_mutation_candidate(
        property_store_plan(owner(), BytecodeIndex::from_offset(0), 11, StructureId::new(2), PropertyOffset::new(1)),
        2,
    );
    let table = property_store_mutation_candidate_table(owner(), vec![matching_candidate, skipped_candidate]);
    let base = cell_runtime_value();
    let stored_value = RuntimeValue::from_i32(99);
    let return_value = RuntimeValue::from_i32(13);
    let mut host = SequencedPropertyStoreMutationHost::default();
    host.sidecar_base_structure = Some(StructureId::new(2));

    let (result, state, probe_miss_records, rejection_records, commit_records, host) = execute_generated_with_property_store_sidecar(
        &block,
        &artifact,
        &table,
        host,
        &[(local(0), base), (local(2), stored_value), (local(3), return_value)],
    );

    assert_eq!(result, completed(return_value));
    assert_eq!(host.sidecar_base_structure_queries, vec![base]);
    assert_eq!(host.probed_base_values, vec![base]);
    assert_eq!(host.probed_base_structures, vec![Some(StructureId::new(2))]);
    assert!(probe_miss_records.is_empty());
    assert!(rejection_records.is_empty());
    assert_eq!(commit_records.len(), 1);
    assert_eq!(commit_records[0].store_plan_ordinal, 2);
    assert_eq!(read_local(&state, 2), stored_value);
}

#[test]
fn baseline_generated_property_store_sidecar_probes_newest_matching_candidate_first() {
    let block = put_by_name_block();
    let artifact = mixed_artifact_for_block(owner(), &block);
    let older_candidate = property_store_mutation_candidate(
        property_store_plan(owner(), BytecodeIndex::from_offset(0), 11, StructureId::new(1), PropertyOffset::new(0)),
        1,
    );
    let newer_candidate = property_store_mutation_candidate(
        property_store_plan(owner(), BytecodeIndex::from_offset(0), 11, StructureId::new(2), PropertyOffset::new(1)),
        2,
    );
    let table = property_store_mutation_candidate_table(owner(), vec![older_candidate, newer_candidate]);
    let base = cell_runtime_value();
    let stored_value = RuntimeValue::from_i32(99);
    let return_value = RuntimeValue::from_i32(13);
    let host = SequencedPropertyStoreMutationHost::default();

    let (result, state, probe_miss_records, rejection_records, commit_records, host) = execute_generated_with_property_store_sidecar(
        &block,
        &artifact,
        &table,
        host,
        &[(local(0), base), (local(2), stored_value), (local(3), return_value)],
    );

    assert_eq!(result, completed(return_value));
    assert_eq!(host.sidecar_base_structure_queries, vec![base]);
    assert_eq!(host.probed_base_values, vec![base]);
    assert_eq!(host.probed_base_structures, vec![Some(StructureId::new(2))]);
    assert_eq!(host.probed_stored_values, vec![stored_value]);
    assert_eq!(host.probed_plan_keys, vec![property_cache_key(11)]);
    assert!(probe_miss_records.is_empty());
    assert!(rejection_records.is_empty());
    assert_eq!(commit_records.len(), 1);
    assert_eq!(commit_records[0].store_plan_ordinal, 2);
    assert_eq!(read_local(&state, 2), stored_value);
}

#[test]
fn baseline_generated_property_store_put_by_value_sidecar_rereads_runtime_key() {
    let block = code_block(vec![
        core_typed(
            0,
            CoreOpcode::PutByValue,
            vec![Operand::Register(local(0)), Operand::Register(local(1)), Operand::Register(local(2))],
        ),
        core_typed(1, CoreOpcode::Return, vec![Operand::Register(local(2))]),
    ]);
    let artifact = mixed_artifact_for_block(owner(), &block);
    let candidate = property_store_mutation_candidate(
        property_store_indexed_plan(owner(), BytecodeIndex::from_offset(0), 0, StructureId::new(1)),
        1,
    );
    let table = property_store_mutation_candidate_table(owner(), vec![candidate]);
    let base = cell_runtime_value();
    let stored_value = RuntimeValue::from_i32(99);
    let runtime_key = RuntimeValue::from_i32(1);
    let host = SequencedPropertyStoreMutationHost::default();

    let (result, state, probe_miss_records, rejection_records, commit_records, host) = execute_generated_with_property_store_sidecar(
        &block,
        &artifact,
        &table,
        host,
        &[(local(0), base), (local(1), runtime_key), (local(2), stored_value)],
    );

    assert_eq!(result, completed(stored_value));
    assert_eq!(read_local(&state, 2), stored_value);
    assert_eq!(host.probed_base_values, vec![base]);
    assert_eq!(host.probed_stored_values, vec![stored_value]);
    assert_eq!(host.probed_plan_keys, vec![indexed_property_cache_key(1)]);
    assert_eq!(host.committed_base_values, vec![base]);
    assert_eq!(host.committed_keys, vec![indexed_property_cache_key(1)]);
    assert_eq!(host.committed_stored_values, vec![stored_value]);
    assert!(probe_miss_records.is_empty());
    assert!(rejection_records.is_empty());
    assert_eq!(commit_records.len(), 1);
    assert_eq!(commit_records[0].key, indexed_property_cache_key(0));
    assert_eq!(commit_records[0].commit.key, indexed_property_cache_key(1));
    assert_eq!(commit_records[0].plan_kind, PropertyStoreAccessCasePlanKind::DataOnlyIndexedStore);
}

#[test]
fn baseline_generated_property_store_mutation_rejection_falls_back_and_records_rejection() {
    let block = put_by_name_returning_stored_block();
    let artifact = mixed_artifact_for_block(owner(), &block);
    let table = single_store_candidate_table();
    let base = cell_runtime_value();
    let stored_value = RuntimeValue::from_i32(99);
    let host = SequencedPropertyStoreMutationHost::new(
        Vec::new(),
        vec![GeneratedPropertyStoreMutationResult::rejected(GeneratedPropertyStoreMutationMissReason::BarrierRejected)],
    );

    let (result, state, probe_miss_records, rejection_records, commit_records, host) =
        execute_generated_with_property_store_sidecar(&block, &artifact, &table, host, &[(local(0), base), (local(2), stored_value)]);

    assert_put_by_name_handoff(&result, &state);
    assert_eq!(read_local(&state, 2), stored_value);
    assert_eq!(host.probed_base_values, vec![base]);
    assert_eq!(host.committed_base_values, vec![base]);
    assert!(probe_miss_records.is_empty());
    assert!(commit_records.is_empty());
    assert_eq!(
        rejection_records,
        vec![BaselineGeneratedPropertyStoreMutationRejectionRecord {
            owner: owner(),
            bytecode_index: BytecodeIndex::from_offset(0),
            slot: InlineCacheSlotId(0),
            key: property_cache_key(11),
            plan_kind: PropertyStoreAccessCasePlanKind::DataOnlyReplace,
            base_structure: Some(StructureId::new(1)),
            planned_new_structure: None,
            offset: Some(PropertyOffset::new(0)),
            store_plan_ordinal: 1,
            readiness_ordinal: 301,
            stored_value_kind: ValueKind::Int32,
            reason: GeneratedPropertyStoreMutationMissReason::BarrierRejected,
        }]
    );
}

#[test]
fn baseline_generated_property_store_no_sidecar_leaves_put_by_name_handoff_unchanged() {
    let block = put_by_name_returning_stored_block();
    let artifact = mixed_artifact_for_block(owner(), &block);
    let stored_value = RuntimeValue::from_i32(99);
    let (mut state, frame) = prepared_state(&block, &[(local(0), cell_runtime_value()), (local(2), stored_value)]);
    let result = execute_baseline_generated_code(
        BaselineGeneratedExecutionRequest { artifact: &artifact, owner: owner(), code_block: &block, expected_frame: frame },
        &mut state,
    );

    assert_put_by_name_handoff(&result, &state);
    assert_eq!(read_local(&state, 2), stored_value);
}

/// The store sidecar records what it tried and leaves every mutation to the host: the
/// interpreter's heap and registers are as they were, whatever the host commits.
#[test]
fn baseline_generated_property_store_sidecar_remains_record_only_without_vm_wiring() {
    let block = put_by_name_returning_stored_block();
    let artifact = mixed_artifact_for_block(owner(), &block);
    let table = single_store_candidate_table();
    let base = cell_runtime_value();
    let stored_value = RuntimeValue::from_i32(99);
    let (before, _) = prepared_state(&block, &[(local(0), base), (local(2), stored_value)]);

    let (result, state, probe_miss_records, rejection_records, commit_records, host) = execute_generated_with_property_store_sidecar(
        &block,
        &artifact,
        &table,
        SequencedPropertyStoreMutationHost::default(),
        &[(local(0), base), (local(2), stored_value)],
    );

    assert_eq!(result, completed(stored_value));
    assert_eq!(state.heap, before.heap);
    assert_eq!(state.registers, before.registers);
    assert!(probe_miss_records.is_empty());
    assert!(rejection_records.is_empty());
    assert_eq!(commit_records.len(), 1);
    assert_eq!(host.committed_base_values, vec![base]);
}

fn other_owner() -> CodeBlockId {
    CodeBlockId(12)
}

#[test]
fn generated_guarded_property_load_prototype_data_hit_records_destination_root_sync() {
    let block = get_by_name_block();
    let artifact = mixed_artifact_for_block(owner(), &block);
    let plan_table = property_load_plan_table(owner(), Vec::new());
    let candidate = prototype_data_guarded_candidate(owner(), BytecodeIndex::from_offset(0), 11, 1);
    let guarded_table = property_load_guarded_candidate_table(owner(), vec![candidate]);
    let cell_value = cell_runtime_value();
    let host = SequencedPropertyLoadProbeHost::new_guarded(vec![GeneratedGuardedPropertyLoadProbeResult::hit(cell_value)]);

    let (result, state, root_sync_requests, probe_miss_records, guarded_miss_records, host) =
        execute_generated_with_property_load_sidecar_tables(
            &block,
            &artifact,
            &plan_table,
            &guarded_table,
            host,
            &[(local(1), cell_runtime_value())],
        );
    let frame = state.stack.top_frame().unwrap();

    assert_eq!(result, completed(cell_value));
    assert!(host.probed_plan_keys.is_empty());
    assert_eq!(host.guarded_probed_plan_keys, vec![property_cache_key(11)]);
    assert_eq!(
        root_sync_requests,
        vec![BaselineGeneratedPropertyLoadDestinationRootSyncRequest {
            frame: frame.id,
            bytecode_index: BytecodeIndex::from_offset(0),
            destination: local(0),
        }]
    );
    assert!(probe_miss_records.is_empty());
    assert!(guarded_miss_records.is_empty());
}

#[test]
fn generated_guarded_property_load_negative_lookup_hit_writes_undefined() {
    let block = get_by_name_block();
    let artifact = mixed_artifact_for_block(owner(), &block);
    let plan_table = property_load_plan_table(owner(), Vec::new());
    let candidate = negative_lookup_guarded_candidate(owner(), BytecodeIndex::from_offset(0), 11, 1);
    let guarded_table = property_load_guarded_candidate_table(owner(), vec![candidate]);
    let host =
        SequencedPropertyLoadProbeHost::new_guarded(vec![GeneratedGuardedPropertyLoadProbeResult::hit(RuntimeValue::undefined())]);

    let (result, _, root_sync_requests, probe_miss_records, guarded_miss_records, host) =
        execute_generated_with_property_load_sidecar_tables(
            &block,
            &artifact,
            &plan_table,
            &guarded_table,
            host,
            &[(local(1), cell_runtime_value())],
        );

    assert_eq!(result, completed(RuntimeValue::undefined()));
    assert!(host.probed_plan_keys.is_empty());
    assert_eq!(host.guarded_probed_plan_keys, vec![property_cache_key(11)]);
    assert!(root_sync_requests.is_empty());
    assert!(probe_miss_records.is_empty());
    assert!(guarded_miss_records.is_empty());
}

#[test]
fn generated_guarded_property_load_miss_keeps_property_handoff_and_records_metadata() {
    let block = get_by_name_block();
    let artifact = mixed_artifact_for_block(owner(), &block);
    let plan_table = property_load_plan_table(owner(), Vec::new());
    let candidate = prototype_data_guarded_candidate(owner(), BytecodeIndex::from_offset(0), 11, 1);
    let guarded_table = property_load_guarded_candidate_table(owner(), vec![candidate.clone()]);
    let initial_destination = RuntimeValue::from_i32(17);
    let host = SequencedPropertyLoadProbeHost::default();

    let (result, state, root_sync_requests, probe_miss_records, guarded_records, host) =
        execute_generated_with_property_load_sidecar_tables(
            &block,
            &artifact,
            &plan_table,
            &guarded_table,
            host,
            &[(local(0), initial_destination), (local(1), cell_runtime_value())],
        );
    let frame = state.stack.top_frame().unwrap();
    let site = property_handoff_site(owner(), BytecodeIndex::from_offset(0), 11);

    assert_eq!(
        result,
        Ok(BaselineGeneratedExecutionResult::Property(expected_property_handoff(
            frame.id,
            BytecodeIndex::from_offset(0),
            CoreOpcode::GetByName,
            site,
        )))
    );
    assert_eq!(read_local(&state, 0), initial_destination);
    assert!(host.probed_plan_keys.is_empty());
    assert_eq!(host.guarded_probed_plan_keys, vec![property_cache_key(11)]);
    assert!(root_sync_requests.is_empty());
    assert!(probe_miss_records.is_empty());
    assert_eq!(
        guarded_records,
        vec![BaselineGeneratedGuardedPropertyLoadProbeMissRecord {
            owner: owner(),
            bytecode_index: BytecodeIndex::from_offset(0),
            slot: candidate.plan.slot,
            guard_plan_ordinal: candidate.guard_plan_ordinal,
            materialization_ordinal: candidate.materialization_ordinal,
            dependency_ordinals: candidate.dependency_ordinals.clone(),
            binding_set_ids: candidate.binding_set_ids.clone(),
            candidate_kind: candidate.candidate_kind,
            base_structure: candidate.plan.descriptor.base_structure,
            reason: GeneratedGuardedPropertyLoadProbeMissReason::HostUnavailable,
            requirement: candidate.plan.descriptor.requirement,
            key: property_cache_key(11),
            prototype_depth: candidate.plan.descriptor.prototype_depth,
            chain_index: None,
            outcome: candidate.plan.descriptor.outcome,
        }]
    );
}

#[test]
fn generated_guarded_property_load_own_data_hit_does_not_call_guarded_probe() {
    let block = get_by_name_block();
    let artifact = mixed_artifact_for_block(owner(), &block);
    let plan_table = property_load_plan_table(
        owner(),
        vec![property_load_plan(owner(), BytecodeIndex::from_offset(0), 11, StructureId::new(1), PropertyOffset::new(0))],
    );
    let guarded_table = property_load_guarded_candidate_table(
        owner(),
        vec![prototype_data_guarded_candidate(owner(), BytecodeIndex::from_offset(0), 11, 1)],
    );
    let host = SequencedPropertyLoadProbeHost::new(vec![GeneratedPropertyLoadProbeResult::hit(RuntimeValue::from_i32(42))]);

    let (result, _, _, _, guarded_miss_records, host) = execute_generated_with_property_load_sidecar_tables(
        &block,
        &artifact,
        &plan_table,
        &guarded_table,
        host,
        &[(local(1), cell_runtime_value())],
    );

    assert_eq!(result, completed(RuntimeValue::from_i32(42)));
    assert_eq!(host.probed_plan_keys, vec![property_cache_key(11)]);
    assert!(host.guarded_probed_plan_keys.is_empty());
    assert!(guarded_miss_records.is_empty());
}

#[test]
fn generated_guarded_property_load_owner_key_and_bytecode_mismatch_skip_candidates() {
    let block = get_by_name_block();
    let artifact = mixed_artifact_for_block(owner(), &block);
    let plan_table = property_load_plan_table(owner(), Vec::new());
    let owner_mismatch_table = property_load_guarded_candidate_table(
        other_owner(),
        vec![prototype_data_guarded_candidate(other_owner(), BytecodeIndex::from_offset(0), 11, 1)],
    );
    let host =
        SequencedPropertyLoadProbeHost::new_guarded(vec![GeneratedGuardedPropertyLoadProbeResult::hit(RuntimeValue::from_i32(99))]);

    let (result, _, _, _, guarded_records, host) = execute_generated_with_property_load_sidecar_tables(
        &block,
        &artifact,
        &plan_table,
        &owner_mismatch_table,
        host,
        &[(local(1), cell_runtime_value())],
    );

    assert!(matches!(result, Ok(BaselineGeneratedExecutionResult::Property(_))));
    assert!(host.guarded_probed_plan_keys.is_empty());
    assert!(guarded_records.is_empty());

    let mismatch_table = property_load_guarded_candidate_table(
        owner(),
        vec![
            prototype_data_guarded_candidate(owner(), BytecodeIndex::from_offset(0), 12, 1),
            negative_lookup_guarded_candidate(owner(), BytecodeIndex::from_offset(9), 11, 2),
        ],
    );
    let host =
        SequencedPropertyLoadProbeHost::new_guarded(vec![GeneratedGuardedPropertyLoadProbeResult::hit(RuntimeValue::from_i32(99))]);

    let (result, _, _, _, guarded_records, host) = execute_generated_with_property_load_sidecar_tables(
        &block,
        &artifact,
        &plan_table,
        &mismatch_table,
        host,
        &[(local(1), cell_runtime_value())],
    );

    assert!(matches!(result, Ok(BaselineGeneratedExecutionResult::Property(_))));
    assert!(host.probed_plan_keys.is_empty());
    assert!(host.guarded_probed_plan_keys.is_empty());
    assert!(guarded_records.is_empty());
}

#[test]
fn property_store_probe_hit_becomes_the_commit_on_the_base_and_a_miss_commits_nothing() {
    let plan = property_store_plan(owner(), BytecodeIndex::from_offset(0), 11, StructureId::new(1), PropertyOffset::new(0));
    let base = RuntimeValue::Cell(7);
    let hit = GeneratedPropertyStoreProbeHit { plan, stored_value: RuntimeValue::from_i32(99) };
    assert_eq!(
        property_store_commit_request(base, GeneratedPropertyStoreProbeResult::Hit(hit)),
        Some(GeneratedPropertyStoreMutationRequest { base, probe_hit: hit })
    );
    assert_eq!(
        property_store_commit_request(
            base,
            GeneratedPropertyStoreProbeResult::Miss(GeneratedPropertyStoreProbeMiss {
                reason: GeneratedPropertyStoreProbeMissReason::StructureMismatch,
            }),
        ),
        None
    );
}
