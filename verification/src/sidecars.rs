//! Execution sidecars: planner tables and a dispatch host that let generated code finish
//! property accesses and calls itself instead of handing them to the interpreter, and the
//! records of what they tried.
use vstd::prelude::*;
use crate::bytecode::{
    BytecodeIndex, CodeBlock, CoreOpcode, Opcode, TypedInstruction, VirtualRegister, spec_decoded_instruction_at,
};
use crate::handoff::{BaselineGeneratedJsDirectCall, BaselineGeneratedJsDirectCallHotSlot};
use crate::host::DispatchHost;
use crate::ic::{
    CacheKey, GeneratedCallLinkCandidate, GeneratedCallLinkCandidateTable, GeneratedCallLinkDirectCallStatus,
    GeneratedCallLinkProbeMissReason, GeneratedGuardedPropertyLoadProbeMissReason,
    GeneratedPropertyHasMegamorphicCandidateTable, GeneratedPropertyLoadMegamorphicCandidateTable,
    GeneratedPropertyLoadProbeMissReason, GeneratedPropertyStoreMegamorphicCandidateTable,
    GeneratedPropertyStoreMutationCommit, GeneratedPropertyStoreMutationMissReason,
    GeneratedPropertyStoreProbeMissReason, PropertyKey, PropertyLoadAccessCasePlan, PropertyLoadAccessCasePlanTable,
    PropertyLoadGuardChainOutcome, PropertyLoadGuardRequirement, PropertyLoadGuardedCandidateKind,
    PropertyLoadGuardedCandidateTable, PropertyOffset, PropertyStoreAccessCasePlan, PropertyStoreAccessCasePlanKind,
    PropertyStoreMutationCandidate, PropertyStoreMutationCandidateTable, StructureId, WatchpointSetId,
};
use crate::runtime::{CallFrameId, CodeBlockId, ExecutableId, ObjectId};
use crate::sites::{BaselineGeneratedPropertyHandoffSite, InlineCacheSlotId, PropertyCacheKey};
use crate::value::{NumberValue, RuntimeValue, ValueKind, spec_as_number};
use crate::ic::{CallBoundaryId, GeneratedPropertyHasMegamorphicLookup, spec_has_megamorphic_lookup, spec_store_megamorphic_lookup};
use crate::bytecode::spec_register_operand;
use crate::handoff::BaselineGeneratedFallbackSite;
use crate::operands::{
    BaselineInstructionAbort, BaselineInstructionOutcome, read_register_or_outcome, register_operand_or_fallback,
    write_register_or_outcome,
};
use crate::runtime::{
    spec_active_global_this_value, spec_write_register, ExecutionError, InterpreterExecutionState, RegisterWindow,
};
use crate::operands::{
    BaselineGeneratedExecutionError, execution_error_abort, spec_read_register_or_outcome,
    spec_register_operand_or_fallback,
};
use crate::ic::{
    GeneratedGuardedPropertyLoadProbeRequest, GeneratedGuardedPropertyLoadProbeResult,
    GeneratedPropertyLoadMegamorphicHolderProbeRequest, GeneratedPropertyLoadMegamorphicLookup,
    GeneratedPropertyLoadProbeHit, GeneratedPropertyLoadProbeRequest, GeneratedPropertyLoadProbeResult,
    PropertyLoadAccessCasePlanKind, spec_invalid_structure,
};
use crate::operands::spec_write_step;
use crate::ic::{DestinationRootSync, GeneratedNativeIntrinsicCallRequest, GeneratedNativeIntrinsicCallResult};
use crate::bytecode::{spec_identifier_index_operand, spec_signed_immediate_operand};
use crate::handoff::{baseline_generated_property_handoff, fallback_opcode, fallback_site, spec_fallback_site};
use crate::semantics::pure_number_arithmetic_result;
use crate::instruction::{property_handoff_site_for_instruction, spec_property_handoff_site_for_instruction};
use crate::ic::{
    spec_first_matching, spec_matching, spec_call_link_candidate_at, GeneratedCallLinkProbeRequest,
    GeneratedCallLinkProbeResult,
};
use crate::operands::{spec_unsigned_immediate_operand_or_fallback, unsigned_immediate_operand_or_fallback};
use crate::runtime::{object_id_for_runtime_value, spec_execution_view, spec_object_id_for_runtime_value};
use crate::value::spec_value_kind;
use crate::ic::{
    GeneratedPropertyStoreMegamorphicLookup, GeneratedPropertyStoreMutationRequest, GeneratedPropertyStoreMutationResult,
    GeneratedPropertyStoreProbeRequest, GeneratedPropertyStoreProbeResult,
};

verus! {

/// A register that a sidecar load wrote with a cell, whose GC root the interpreter must
/// resync.
#[derive(Clone, Copy, Debug, PartialEq, Eq, Structural)]
pub struct BaselineGeneratedPropertyLoadDestinationRootSyncRequest {
    pub frame: CallFrameId,
    pub bytecode_index: BytecodeIndex,
    pub destination: VirtualRegister,
}

/// A load probe the host refused.
#[derive(Clone, Copy, Debug, PartialEq, Eq, Structural)]
pub struct BaselineGeneratedPropertyLoadProbeMissRecord {
    pub owner: CodeBlockId,
    pub bytecode_index: BytecodeIndex,
    pub key: CacheKey,
    pub base_structure: Option<StructureId>,
    pub offset: Option<PropertyOffset>,
    pub reason: GeneratedPropertyLoadProbeMissReason,
}

/// A guarded load probe the host refused, with the candidate's planning ordinals.
#[derive(Clone, Debug, PartialEq, Eq)]
pub struct BaselineGeneratedGuardedPropertyLoadProbeMissRecord {
    pub owner: CodeBlockId,
    pub bytecode_index: BytecodeIndex,
    pub slot: InlineCacheSlotId,
    pub guard_plan_ordinal: u64,
    pub materialization_ordinal: u64,
    pub dependency_ordinals: Vec<u64>,
    pub binding_set_ids: Vec<WatchpointSetId>,
    pub candidate_kind: PropertyLoadGuardedCandidateKind,
    pub base_structure: StructureId,
    pub reason: GeneratedGuardedPropertyLoadProbeMissReason,
    pub requirement: PropertyLoadGuardRequirement,
    pub key: CacheKey,
    pub prototype_depth: u16,
    pub chain_index: Option<u64>,
    pub outcome: PropertyLoadGuardChainOutcome,
}

/// A store probe the host refused.
#[derive(Clone, Copy, Debug, PartialEq, Eq, Structural)]
pub struct BaselineGeneratedPropertyStoreProbeMissRecord {
    pub owner: CodeBlockId,
    pub bytecode_index: BytecodeIndex,
    pub slot: InlineCacheSlotId,
    pub key: CacheKey,
    pub plan_kind: PropertyStoreAccessCasePlanKind,
    pub base_structure: Option<StructureId>,
    pub planned_new_structure: Option<StructureId>,
    pub offset: Option<PropertyOffset>,
    pub store_plan_ordinal: u64,
    pub readiness_ordinal: u64,
    pub stored_value_kind: ValueKind,
    pub reason: GeneratedPropertyStoreProbeMissReason,
}

/// A probed store whose commit the host rejected.
#[derive(Clone, Copy, Debug, PartialEq, Eq, Structural)]
pub struct BaselineGeneratedPropertyStoreMutationRejectionRecord {
    pub owner: CodeBlockId,
    pub bytecode_index: BytecodeIndex,
    pub slot: InlineCacheSlotId,
    pub key: CacheKey,
    pub plan_kind: PropertyStoreAccessCasePlanKind,
    pub base_structure: Option<StructureId>,
    pub planned_new_structure: Option<StructureId>,
    pub offset: Option<PropertyOffset>,
    pub store_plan_ordinal: u64,
    pub readiness_ordinal: u64,
    pub stored_value_kind: ValueKind,
    pub reason: GeneratedPropertyStoreMutationMissReason,
}

/// A store the host committed.
#[derive(Clone, Copy, Debug, PartialEq, Eq, Structural)]
pub struct BaselineGeneratedPropertyStoreMutationCommitRecord {
    pub owner: CodeBlockId,
    pub bytecode_index: BytecodeIndex,
    pub slot: InlineCacheSlotId,
    pub key: CacheKey,
    pub plan_kind: PropertyStoreAccessCasePlanKind,
    pub store_plan_ordinal: u64,
    pub readiness_ordinal: u64,
    pub stored_value_kind: ValueKind,
    pub commit: GeneratedPropertyStoreMutationCommit,
}

/// A call-link probe that missed; the candidate's fields are absent when there was none.
#[derive(Clone, Copy, Debug, PartialEq, Eq, Structural)]
pub struct BaselineGeneratedCallLinkProbeMissRecord {
    pub owner: CodeBlockId,
    pub bytecode_index: BytecodeIndex,
    pub slot: Option<InlineCacheSlotId>,
    pub attachment_ordinal: Option<u64>,
    pub attachment_plan_ordinal: Option<u64>,
    pub install_recheck_ordinal: Option<u64>,
    pub boundary_validation_ordinal: Option<u64>,
    pub descriptor_ordinal: Option<u64>,
    pub observation_ordinal: Option<u64>,
    pub readiness_ordinal: Option<u64>,
    pub target_executable: Option<ExecutableId>,
    pub target_callee: Option<ObjectId>,
    pub target_code_block: Option<CodeBlockId>,
    pub target_boundary: Option<CallBoundaryId>,
    pub direct_call_status: Option<GeneratedCallLinkDirectCallStatus>,
    pub reason: GeneratedCallLinkProbeMissReason,
}

/// A call-link probe the host blocked.
#[derive(Clone, Copy, Debug, PartialEq, Eq, Structural)]
pub struct BaselineGeneratedCallLinkProbeBlockedRecord {
    pub owner: CodeBlockId,
    pub bytecode_index: BytecodeIndex,
    pub slot: InlineCacheSlotId,
    pub attachment_ordinal: u64,
    pub attachment_plan_ordinal: u64,
    pub install_recheck_ordinal: u64,
    pub boundary_validation_ordinal: Option<u64>,
    pub descriptor_ordinal: Option<u64>,
    pub observation_ordinal: Option<u64>,
    pub readiness_ordinal: Option<u64>,
    pub target_executable: ExecutableId,
    pub target_callee: ObjectId,
    pub target_code_block: CodeBlockId,
    pub target_boundary: CallBoundaryId,
    pub direct_call_status: GeneratedCallLinkDirectCallStatus,
    pub reason: GeneratedCallLinkProbeMissReason,
}

/// The miss record of a call-link probe at `bytecode_index`, for `candidate` when there
/// was one.
pub open spec fn spec_call_link_probe_miss_record(
    owner: CodeBlockId,
    bytecode_index: BytecodeIndex,
    candidate: Option<GeneratedCallLinkCandidate>,
    reason: GeneratedCallLinkProbeMissReason,
) -> BaselineGeneratedCallLinkProbeMissRecord {
    match candidate {
        Some(candidate) => BaselineGeneratedCallLinkProbeMissRecord {
            owner,
            bytecode_index,
            slot: Some(candidate.slot),
            attachment_ordinal: Some(candidate.attachment_ordinal),
            attachment_plan_ordinal: Some(candidate.attachment_plan_ordinal),
            install_recheck_ordinal: Some(candidate.install_recheck_ordinal),
            boundary_validation_ordinal: candidate.boundary_validation_ordinal,
            descriptor_ordinal: candidate.descriptor_ordinal,
            observation_ordinal: candidate.observation_ordinal,
            readiness_ordinal: candidate.readiness_ordinal,
            target_executable: Some(candidate.target.executable),
            target_callee: Some(candidate.target.callee),
            target_code_block: Some(candidate.target.target_code_block),
            target_boundary: Some(candidate.boundary.id),
            direct_call_status: Some(candidate.direct_call_status),
            reason,
        },
        None => BaselineGeneratedCallLinkProbeMissRecord {
            owner,
            bytecode_index,
            slot: None,
            attachment_ordinal: None,
            attachment_plan_ordinal: None,
            install_recheck_ordinal: None,
            boundary_validation_ordinal: None,
            descriptor_ordinal: None,
            observation_ordinal: None,
            readiness_ordinal: None,
            target_executable: None,
            target_callee: None,
            target_code_block: None,
            target_boundary: None,
            direct_call_status: None,
            reason,
        },
    }
}

pub fn call_link_probe_miss_record(
    owner: CodeBlockId,
    bytecode_index: BytecodeIndex,
    candidate: Option<&GeneratedCallLinkCandidate>,
    reason: GeneratedCallLinkProbeMissReason,
) -> (r: BaselineGeneratedCallLinkProbeMissRecord)
    ensures
        r == spec_call_link_probe_miss_record(
            owner,
            bytecode_index,
            match candidate {
                Some(candidate) => Some(*candidate),
                None => None,
            },
            reason,
        ),
{
    match candidate {
        Some(candidate) => BaselineGeneratedCallLinkProbeMissRecord {
            owner,
            bytecode_index,
            slot: Some(candidate.slot),
            attachment_ordinal: Some(candidate.attachment_ordinal),
            attachment_plan_ordinal: Some(candidate.attachment_plan_ordinal),
            install_recheck_ordinal: Some(candidate.install_recheck_ordinal),
            boundary_validation_ordinal: candidate.boundary_validation_ordinal,
            descriptor_ordinal: candidate.descriptor_ordinal,
            observation_ordinal: candidate.observation_ordinal,
            readiness_ordinal: candidate.readiness_ordinal,
            target_executable: Some(candidate.target.executable),
            target_callee: Some(candidate.target.callee),
            target_code_block: Some(candidate.target.target_code_block),
            target_boundary: Some(candidate.boundary.id),
            direct_call_status: Some(candidate.direct_call_status),
            reason,
        },
        None => BaselineGeneratedCallLinkProbeMissRecord {
            owner,
            bytecode_index,
            slot: None,
            attachment_ordinal: None,
            attachment_plan_ordinal: None,
            install_recheck_ordinal: None,
            boundary_validation_ordinal: None,
            descriptor_ordinal: None,
            observation_ordinal: None,
            readiness_ordinal: None,
            target_executable: None,
            target_callee: None,
            target_code_block: None,
            target_boundary: None,
            direct_call_status: None,
            reason,
        },
    }
}

pub open spec fn spec_call_link_probe_blocked_record(
    candidate: GeneratedCallLinkCandidate,
    reason: GeneratedCallLinkProbeMissReason,
) -> BaselineGeneratedCallLinkProbeBlockedRecord {
    BaselineGeneratedCallLinkProbeBlockedRecord {
        owner: candidate.owner,
        bytecode_index: BytecodeIndex { offset: candidate.bytecode_index },
        slot: candidate.slot,
        attachment_ordinal: candidate.attachment_ordinal,
        attachment_plan_ordinal: candidate.attachment_plan_ordinal,
        install_recheck_ordinal: candidate.install_recheck_ordinal,
        boundary_validation_ordinal: candidate.boundary_validation_ordinal,
        descriptor_ordinal: candidate.descriptor_ordinal,
        observation_ordinal: candidate.observation_ordinal,
        readiness_ordinal: candidate.readiness_ordinal,
        target_executable: candidate.target.executable,
        target_callee: candidate.target.callee,
        target_code_block: candidate.target.target_code_block,
        target_boundary: candidate.boundary.id,
        direct_call_status: candidate.direct_call_status,
        reason,
    }
}

pub fn call_link_probe_blocked_record(
    candidate: &GeneratedCallLinkCandidate,
    reason: GeneratedCallLinkProbeMissReason,
) -> (r: BaselineGeneratedCallLinkProbeBlockedRecord)
    ensures
        r == spec_call_link_probe_blocked_record(*candidate, reason),
{
    BaselineGeneratedCallLinkProbeBlockedRecord {
        owner: candidate.owner,
        bytecode_index: BytecodeIndex::from_offset(candidate.bytecode_index),
        slot: candidate.slot,
        attachment_ordinal: candidate.attachment_ordinal,
        attachment_plan_ordinal: candidate.attachment_plan_ordinal,
        install_recheck_ordinal: candidate.install_recheck_ordinal,
        boundary_validation_ordinal: candidate.boundary_validation_ordinal,
        descriptor_ordinal: candidate.descriptor_ordinal,
        observation_ordinal: candidate.observation_ordinal,
        readiness_ordinal: candidate.readiness_ordinal,
        target_executable: candidate.target.executable,
        target_callee: candidate.target.callee,
        target_code_block: candidate.target.target_code_block,
        target_boundary: candidate.boundary.id,
        direct_call_status: candidate.direct_call_status,
        reason,
    }
}

pub open spec fn spec_property_store_probe_miss_record(
    candidate: PropertyStoreMutationCandidate,
    reason: GeneratedPropertyStoreProbeMissReason,
) -> BaselineGeneratedPropertyStoreProbeMissRecord {
    let plan = candidate.plan;
    BaselineGeneratedPropertyStoreProbeMissRecord {
        owner: plan.owner,
        bytecode_index: BytecodeIndex { offset: plan.bytecode_index },
        slot: plan.slot,
        key: plan.key,
        plan_kind: plan.plan_kind,
        base_structure: plan.access_case.base_structure,
        planned_new_structure: plan.access_case.new_structure,
        offset: plan.access_case.offset,
        store_plan_ordinal: candidate.store_plan_ordinal,
        readiness_ordinal: candidate.readiness_ordinal,
        stored_value_kind: candidate.stored_value_kind,
        reason,
    }
}

pub fn property_store_probe_miss_record(
    candidate: &PropertyStoreMutationCandidate,
    reason: GeneratedPropertyStoreProbeMissReason,
) -> (r: BaselineGeneratedPropertyStoreProbeMissRecord)
    ensures
        r == spec_property_store_probe_miss_record(*candidate, reason),
{
    let plan = &candidate.plan;
    BaselineGeneratedPropertyStoreProbeMissRecord {
        owner: plan.owner,
        bytecode_index: BytecodeIndex::from_offset(plan.bytecode_index),
        slot: plan.slot,
        key: plan.key,
        plan_kind: plan.plan_kind,
        base_structure: plan.access_case.base_structure,
        planned_new_structure: plan.access_case.new_structure,
        offset: plan.access_case.offset,
        store_plan_ordinal: candidate.store_plan_ordinal,
        readiness_ordinal: candidate.readiness_ordinal,
        stored_value_kind: candidate.stored_value_kind,
        reason,
    }
}

pub open spec fn spec_property_store_mutation_rejection_record(
    candidate: PropertyStoreMutationCandidate,
    reason: GeneratedPropertyStoreMutationMissReason,
) -> BaselineGeneratedPropertyStoreMutationRejectionRecord {
    let plan = candidate.plan;
    BaselineGeneratedPropertyStoreMutationRejectionRecord {
        owner: plan.owner,
        bytecode_index: BytecodeIndex { offset: plan.bytecode_index },
        slot: plan.slot,
        key: plan.key,
        plan_kind: plan.plan_kind,
        base_structure: plan.access_case.base_structure,
        planned_new_structure: plan.access_case.new_structure,
        offset: plan.access_case.offset,
        store_plan_ordinal: candidate.store_plan_ordinal,
        readiness_ordinal: candidate.readiness_ordinal,
        stored_value_kind: candidate.stored_value_kind,
        reason,
    }
}

pub fn property_store_mutation_rejection_record(
    candidate: &PropertyStoreMutationCandidate,
    reason: GeneratedPropertyStoreMutationMissReason,
) -> (r: BaselineGeneratedPropertyStoreMutationRejectionRecord)
    ensures
        r == spec_property_store_mutation_rejection_record(*candidate, reason),
{
    let plan = &candidate.plan;
    BaselineGeneratedPropertyStoreMutationRejectionRecord {
        owner: plan.owner,
        bytecode_index: BytecodeIndex::from_offset(plan.bytecode_index),
        slot: plan.slot,
        key: plan.key,
        plan_kind: plan.plan_kind,
        base_structure: plan.access_case.base_structure,
        planned_new_structure: plan.access_case.new_structure,
        offset: plan.access_case.offset,
        store_plan_ordinal: candidate.store_plan_ordinal,
        readiness_ordinal: candidate.readiness_ordinal,
        stored_value_kind: candidate.stored_value_kind,
        reason,
    }
}

pub open spec fn spec_property_store_mutation_commit_record(
    candidate: PropertyStoreMutationCandidate,
    commit: GeneratedPropertyStoreMutationCommit,
) -> BaselineGeneratedPropertyStoreMutationCommitRecord {
    BaselineGeneratedPropertyStoreMutationCommitRecord {
        owner: candidate.plan.owner,
        bytecode_index: BytecodeIndex { offset: candidate.plan.bytecode_index },
        slot: candidate.plan.slot,
        key: candidate.plan.key,
        plan_kind: candidate.plan.plan_kind,
        store_plan_ordinal: candidate.store_plan_ordinal,
        readiness_ordinal: candidate.readiness_ordinal,
        stored_value_kind: candidate.stored_value_kind,
        commit,
    }
}

pub fn property_store_mutation_commit_record(
    candidate: &PropertyStoreMutationCandidate,
    commit: GeneratedPropertyStoreMutationCommit,
) -> (r: BaselineGeneratedPropertyStoreMutationCommitRecord)
    ensures
        r == spec_property_store_mutation_commit_record(*candidate, commit),
{
    BaselineGeneratedPropertyStoreMutationCommitRecord {
        owner: candidate.plan.owner,
        bytecode_index: BytecodeIndex::from_offset(candidate.plan.bytecode_index),
        slot: candidate.plan.slot,
        key: candidate.plan.key,
        plan_kind: candidate.plan.plan_kind,
        store_plan_ordinal: candidate.store_plan_ordinal,
        readiness_ordinal: candidate.readiness_ordinal,
        stored_value_kind: candidate.stored_value_kind,
        commit,
    }
}

/// The cache key of a named property site; sites keyed by a register have none.
pub open spec fn spec_named_property_sidecar_cache_key(site: BaselineGeneratedPropertyHandoffSite) -> Option<CacheKey> {
    match site.property_key {
        PropertyCacheKey::Identifier(identifier) => Some(CacheKey::Property(PropertyKey::Identifier(identifier))),
        PropertyCacheKey::RuntimeValue(_) => None,
    }
}

pub fn named_property_sidecar_cache_key(site: &BaselineGeneratedPropertyHandoffSite) -> (r: Option<CacheKey>)
    ensures
        r == spec_named_property_sidecar_cache_key(*site),
{
    match site.property_key {
        PropertyCacheKey::Identifier(identifier) => Some(CacheKey::Property(PropertyKey::Identifier(identifier))),
        PropertyCacheKey::RuntimeValue(_) => None,
    }
}

/// The element key of a runtime value: a non-negative int32 names an array index.
pub open spec fn spec_element_sidecar_cache_key_from_runtime_value(value: RuntimeValue) -> Option<CacheKey> {
    match spec_as_number(value) {
        Some(NumberValue::Int32(index)) => if index >= 0 {
            Some(CacheKey::Property(PropertyKey::Index(index as u32)))
        } else {
            None
        },
        _ => None,
    }
}

pub fn element_sidecar_cache_key_from_runtime_value(value: RuntimeValue) -> (r: Option<CacheKey>)
    ensures
        r == spec_element_sidecar_cache_key_from_runtime_value(value),
{
    match value.as_number() {
        Some(NumberValue::Int32(index)) => if index >= 0 {
            Some(CacheKey::Property(PropertyKey::Index(index as u32)))
        } else {
            None
        },
        _ => None,
    }
}

pub open spec fn spec_load_plan_with_runtime_key(plan: PropertyLoadAccessCasePlan, key: CacheKey) -> PropertyLoadAccessCasePlan {
    PropertyLoadAccessCasePlan { key, access_case: crate::ic::AccessCaseDescriptor { key, ..plan.access_case }, ..plan }
}

/// `plan` specialized to the key the instruction computed at run time.
pub fn property_load_plan_with_runtime_key(plan: &PropertyLoadAccessCasePlan, runtime_key: CacheKey) -> (r:
    PropertyLoadAccessCasePlan)
    ensures
        r == spec_load_plan_with_runtime_key(*plan, runtime_key),
{
    let mut plan = *plan;
    plan.key = runtime_key;
    plan.access_case.key = runtime_key;
    plan
}

pub open spec fn spec_store_plan_with_runtime_key(plan: PropertyStoreAccessCasePlan, key: CacheKey) -> PropertyStoreAccessCasePlan {
    PropertyStoreAccessCasePlan { key, access_case: crate::ic::AccessCaseDescriptor { key, ..plan.access_case }, ..plan }
}

pub fn property_store_plan_with_runtime_key(plan: &PropertyStoreAccessCasePlan, runtime_key: CacheKey) -> (r:
    PropertyStoreAccessCasePlan)
    ensures
        r == spec_store_plan_with_runtime_key(*plan, runtime_key),
{
    let mut plan = *plan;
    plan.key = runtime_key;
    plan.access_case.key = runtime_key;
    plan
}

/// The instruction at `offset` when it has `opcode`.
pub open spec fn spec_decoded_core_instruction_at(code_block: CodeBlock, offset: u32, opcode: CoreOpcode) -> Option<
    TypedInstruction,
> {
    match spec_decoded_instruction_at(code_block, BytecodeIndex { offset }) {
        Ok(instruction) => if instruction.opcode == Opcode::Core(opcode) {
            Some(instruction)
        } else {
            None
        },
        Err(_) => None,
    }
}

pub fn decoded_core_instruction_at<'c>(code_block: &'c CodeBlock, offset: u32, opcode: CoreOpcode) -> (r: Option<
    &'c TypedInstruction,
>)
    ensures
        match spec_decoded_core_instruction_at(*code_block, offset, opcode) {
            Some(instruction) => r is Some && *r->Some_0 == instruction,
            None => r is None,
        },
{
    match code_block.decoded_instruction_at(BytecodeIndex::from_offset(offset)) {
        Ok(instruction) => if CoreOpcode::from_opcode(instruction.opcode) == Some(opcode) {
            Some(instruction)
        } else {
            None
        },
        Err(_) => None,
    }
}

/// The bytecode index after `instruction`, when the code block has one there.
pub open spec fn spec_next_baseline_generated_bytecode_index(code_block: CodeBlock, instruction: TypedInstruction) -> Option<
    BytecodeIndex,
> {
    if instruction.bytecode_index.offset + 1 < code_block.instructions@.len() {
        Some(BytecodeIndex { offset: (instruction.bytecode_index.offset + 1) as u32 })
    } else {
        None
    }
}

pub fn next_baseline_generated_bytecode_index(code_block: &CodeBlock, instruction: &TypedInstruction) -> (r: Option<
    BytecodeIndex,
>)
    ensures
        r == spec_next_baseline_generated_bytecode_index(*code_block, *instruction),
{
    let next: u64 = instruction.bytecode_index.offset as u64 + 1;
    if next < code_block.instructions.len() as u64 {
        Some(BytecodeIndex::from_offset(next as u32))
    } else {
        None
    }
}


/// The property and call sidecars of one run: planner tables (each optional), the
/// direct-call hot slots, the dispatch host, and the records of what was tried.
pub struct BaselineGeneratedPropertyExecutionSidecars<'a, H> {
    pub property_load_plan_table: Option<&'a PropertyLoadAccessCasePlanTable>,
    pub property_load_guarded_candidate_table: Option<&'a PropertyLoadGuardedCandidateTable>,
    pub property_load_megamorphic_candidate_table: Option<&'a GeneratedPropertyLoadMegamorphicCandidateTable>,
    pub property_store_candidate_table: Option<&'a PropertyStoreMutationCandidateTable>,
    pub property_store_megamorphic_candidate_table: Option<&'a GeneratedPropertyStoreMegamorphicCandidateTable>,
    pub property_has_megamorphic_candidate_table: Option<&'a GeneratedPropertyHasMegamorphicCandidateTable>,
    pub generated_call_link_candidate_table: Option<&'a GeneratedCallLinkCandidateTable>,
    pub generated_direct_call_hot_slots: Vec<BaselineGeneratedJsDirectCallHotSlot>,
    pub dispatch_host: H,
    pub destination_root_sync_requests: Vec<BaselineGeneratedPropertyLoadDestinationRootSyncRequest>,
    pub property_load_probe_miss_records: Vec<BaselineGeneratedPropertyLoadProbeMissRecord>,
    pub guarded_property_load_probe_miss_records: Vec<BaselineGeneratedGuardedPropertyLoadProbeMissRecord>,
    pub property_store_probe_miss_records: Vec<BaselineGeneratedPropertyStoreProbeMissRecord>,
    pub property_store_mutation_rejection_records: Vec<BaselineGeneratedPropertyStoreMutationRejectionRecord>,
    pub property_store_mutation_commit_records: Vec<BaselineGeneratedPropertyStoreMutationCommitRecord>,
    pub generated_call_link_probe_miss_records: Vec<BaselineGeneratedCallLinkProbeMissRecord>,
    pub generated_call_link_probe_blocked_records: Vec<BaselineGeneratedCallLinkProbeBlockedRecord>,
    pub generated_direct_call_hot_slot_hits: usize,
    /// The questions load sidecars put to the host, with its answers, in order.
    pub load_host_exchanges: Ghost<Seq<LoadHostExchange>>,
    /// The store probes and commits that store sidecars put to the host, with its
    /// answers, in order.
    pub store_host_exchanges: Ghost<Seq<StoreHostExchange>>,
    /// The questions `in` sidecars put to the host, with its answers, in order.
    pub has_host_exchanges: Ghost<Seq<HasHostExchange>>,
    /// The calls offered to the host's native intrinsics, with its answers, in order.
    pub native_host_exchanges: Ghost<Seq<(GeneratedNativeIntrinsicCallRequest, GeneratedNativeIntrinsicCallResult)>>,
}

/// A question an `in` sidecar put to the dispatch host, with the host's answer.
pub enum HasHostExchange {
    RuntimeKey { property: RuntimeValue, key: Option<CacheKey> },
    PendingInvalidations { pending: bool },
    BaseStructure { base: RuntimeValue, structure: Option<StructureId> },
}

/// A store probe or commit a store sidecar put to the dispatch host, with the host's
/// answer and the candidate it was made for (none for the megamorphic table).
pub enum StoreHostExchange {
    Probe {
        candidate: Option<PropertyStoreMutationCandidate>,
        request: GeneratedPropertyStoreProbeRequest,
        answer: GeneratedPropertyStoreProbeResult,
    },
    Commit {
        candidate: Option<PropertyStoreMutationCandidate>,
        request: GeneratedPropertyStoreMutationRequest,
        answer: GeneratedPropertyStoreMutationResult,
    },
}

/// A question a load sidecar put to the dispatch host, with the host's answer.
pub enum LoadHostExchange {
    PendingInvalidations { pending: bool },
    BaseStructure { base: RuntimeValue, structure: Option<StructureId> },
    /// A planned load; `position` is the plan's place among the site's plans when the plan
    /// table supplied it.
    Probe {
        request: GeneratedPropertyLoadProbeRequest,
        answer: GeneratedPropertyLoadProbeResult,
        position: Option<usize>,
    },
    HolderProbe { request: GeneratedPropertyLoadMegamorphicHolderProbeRequest, answer: GeneratedPropertyLoadProbeResult },
    GuardedProbe { request: GeneratedGuardedPropertyLoadProbeRequest, answer: GeneratedGuardedPropertyLoadProbeResult },
}

/// Two sidecar sets consult the same tables and hot slots.
pub open spec fn spec_same_plans<'a, H>(
    a: BaselineGeneratedPropertyExecutionSidecars<'a, H>,
    b: BaselineGeneratedPropertyExecutionSidecars<'a, H>,
) -> bool {
    &&& a.property_load_plan_table == b.property_load_plan_table
    &&& a.property_load_guarded_candidate_table == b.property_load_guarded_candidate_table
    &&& a.property_load_megamorphic_candidate_table == b.property_load_megamorphic_candidate_table
    &&& a.property_store_candidate_table == b.property_store_candidate_table
    &&& a.property_store_megamorphic_candidate_table == b.property_store_megamorphic_candidate_table
    &&& a.property_has_megamorphic_candidate_table == b.property_has_megamorphic_candidate_table
    &&& a.generated_call_link_candidate_table == b.generated_call_link_candidate_table
    &&& a.generated_direct_call_hot_slots@ == b.generated_direct_call_hot_slots@
}

/// Each record list of `b` extends that of `a`, and the hot-slot count did not fall.
pub open spec fn spec_records_extended<'a, H>(
    a: BaselineGeneratedPropertyExecutionSidecars<'a, H>,
    b: BaselineGeneratedPropertyExecutionSidecars<'a, H>,
) -> bool {
    &&& a.destination_root_sync_requests@.is_prefix_of(b.destination_root_sync_requests@)
    &&& a.property_load_probe_miss_records@.is_prefix_of(b.property_load_probe_miss_records@)
    &&& a.guarded_property_load_probe_miss_records@.len() <= b.guarded_property_load_probe_miss_records@.len()
    &&& a.property_store_probe_miss_records@.is_prefix_of(b.property_store_probe_miss_records@)
    &&& a.property_store_mutation_rejection_records@.is_prefix_of(b.property_store_mutation_rejection_records@)
    &&& a.property_store_mutation_commit_records@.is_prefix_of(b.property_store_mutation_commit_records@)
    &&& a.generated_call_link_probe_miss_records@.is_prefix_of(b.generated_call_link_probe_miss_records@)
    &&& a.generated_call_link_probe_blocked_records@.is_prefix_of(b.generated_call_link_probe_blocked_records@)
    &&& a.generated_direct_call_hot_slot_hits <= b.generated_direct_call_hot_slot_hits
}

/// The records of `a` and `b` are the same.
pub open spec fn spec_records_unchanged<'a, H>(
    a: BaselineGeneratedPropertyExecutionSidecars<'a, H>,
    b: BaselineGeneratedPropertyExecutionSidecars<'a, H>,
) -> bool {
    &&& a.destination_root_sync_requests@ == b.destination_root_sync_requests@
    &&& a.property_load_probe_miss_records@ == b.property_load_probe_miss_records@
    &&& a.guarded_property_load_probe_miss_records@ == b.guarded_property_load_probe_miss_records@
    &&& a.property_store_probe_miss_records@ == b.property_store_probe_miss_records@
    &&& a.property_store_mutation_rejection_records@ == b.property_store_mutation_rejection_records@
    &&& a.property_store_mutation_commit_records@ == b.property_store_mutation_commit_records@
    &&& a.generated_call_link_probe_miss_records@ == b.generated_call_link_probe_miss_records@
    &&& a.generated_call_link_probe_blocked_records@ == b.generated_call_link_probe_blocked_records@
    &&& a.generated_direct_call_hot_slot_hits == b.generated_direct_call_hot_slot_hits
}

/// `b` is `a` after a question to the host: only the host and the exchange log differ.
pub open spec fn spec_only_host_asked<'a, H>(
    a: BaselineGeneratedPropertyExecutionSidecars<'a, H>,
    b: BaselineGeneratedPropertyExecutionSidecars<'a, H>,
) -> bool {
    &&& spec_same_plans(a, b)
    &&& spec_records_unchanged(a, b)
}

/// A fresh sidecar set: the given tables, nothing recorded yet.
pub open spec fn spec_fresh_sidecars<'a, H>(r: BaselineGeneratedPropertyExecutionSidecars<'a, H>) -> bool {
    &&& r.destination_root_sync_requests@.len() == 0
    &&& r.property_load_probe_miss_records@.len() == 0
    &&& r.guarded_property_load_probe_miss_records@.len() == 0
    &&& r.property_store_probe_miss_records@.len() == 0
    &&& r.property_store_mutation_rejection_records@.len() == 0
    &&& r.property_store_mutation_commit_records@.len() == 0
    &&& r.generated_call_link_probe_miss_records@.len() == 0
    &&& r.generated_call_link_probe_blocked_records@.len() == 0
    &&& r.generated_direct_call_hot_slot_hits == 0
}

impl<'a, H: DispatchHost> BaselineGeneratedPropertyExecutionSidecars<'a, H> {
    /// Sidecars for property loads (a plan table and a guarded table) and stores.
    pub fn new(
        dispatch_host: H,
        property_load_tables: Option<(&'a PropertyLoadAccessCasePlanTable, &'a PropertyLoadGuardedCandidateTable)>,
        property_store_candidate_table: Option<&'a PropertyStoreMutationCandidateTable>,
    ) -> (r: BaselineGeneratedPropertyExecutionSidecars<'a, H>)
        ensures
            spec_fresh_sidecars(r),
            r.dispatch_host == dispatch_host,
            r.property_load_plan_table == (match property_load_tables {
                Some(tables) => Some(tables.0),
                None => None,
            }),
            r.property_load_guarded_candidate_table == (match property_load_tables {
                Some(tables) => Some(tables.1),
                None => None,
            }),
            r.property_store_candidate_table == property_store_candidate_table,
            r.property_load_megamorphic_candidate_table is None,
            r.property_store_megamorphic_candidate_table is None,
            r.property_has_megamorphic_candidate_table is None,
            r.generated_call_link_candidate_table is None,
            r.generated_direct_call_hot_slots@.len() == 0,
    {
        let (property_load_plan_table, property_load_guarded_candidate_table) = match property_load_tables {
            Some((plan_table, guarded_candidate_table)) => (Some(plan_table), Some(guarded_candidate_table)),
            None => (None, None),
        };
        BaselineGeneratedPropertyExecutionSidecars {
            property_load_plan_table,
            property_load_guarded_candidate_table,
            property_load_megamorphic_candidate_table: None,
            property_store_candidate_table,
            property_store_megamorphic_candidate_table: None,
            property_has_megamorphic_candidate_table: None,
            generated_call_link_candidate_table: None,
            generated_direct_call_hot_slots: Vec::new(),
            dispatch_host,
            destination_root_sync_requests: Vec::new(),
            property_load_probe_miss_records: Vec::new(),
            guarded_property_load_probe_miss_records: Vec::new(),
            property_store_probe_miss_records: Vec::new(),
            property_store_mutation_rejection_records: Vec::new(),
            property_store_mutation_commit_records: Vec::new(),
            generated_call_link_probe_miss_records: Vec::new(),
            generated_call_link_probe_blocked_records: Vec::new(),
            generated_direct_call_hot_slot_hits: 0,
            load_host_exchanges: Ghost(Seq::empty()),
            store_host_exchanges: Ghost(Seq::empty()),
            has_host_exchanges: Ghost(Seq::empty()),
            native_host_exchanges: Ghost(Seq::empty()),
        }
    }

    /// Like `new`, with call-link candidates as well.
    pub fn new_with_generated_call_link(
        dispatch_host: H,
        property_load_tables: Option<(&'a PropertyLoadAccessCasePlanTable, &'a PropertyLoadGuardedCandidateTable)>,
        property_store_candidate_table: Option<&'a PropertyStoreMutationCandidateTable>,
        generated_call_link_candidate_table: &'a GeneratedCallLinkCandidateTable,
    ) -> (r: BaselineGeneratedPropertyExecutionSidecars<'a, H>)
        ensures
            spec_fresh_sidecars(r),
            r.dispatch_host == dispatch_host,
            r.property_load_plan_table == (match property_load_tables {
                Some(tables) => Some(tables.0),
                None => None,
            }),
            r.property_load_guarded_candidate_table == (match property_load_tables {
                Some(tables) => Some(tables.1),
                None => None,
            }),
            r.property_store_candidate_table == property_store_candidate_table,
            r.property_load_megamorphic_candidate_table is None,
            r.property_store_megamorphic_candidate_table is None,
            r.property_has_megamorphic_candidate_table is None,
            r.generated_call_link_candidate_table == Some(generated_call_link_candidate_table),
            r.generated_direct_call_hot_slots@.len() == 0,
    {
        let mut sidecars = Self::new(dispatch_host, property_load_tables, property_store_candidate_table);
        sidecars.generated_call_link_candidate_table = Some(generated_call_link_candidate_table);
        sidecars
    }

    /// Like `new_with_generated_call_link`, with direct-call hot slots as well.
    pub fn new_with_generated_call_link_and_direct_call_hot_slots(
        dispatch_host: H,
        property_load_tables: Option<(&'a PropertyLoadAccessCasePlanTable, &'a PropertyLoadGuardedCandidateTable)>,
        property_store_candidate_table: Option<&'a PropertyStoreMutationCandidateTable>,
        generated_call_link_candidate_table: &'a GeneratedCallLinkCandidateTable,
        hot_slots: Vec<BaselineGeneratedJsDirectCallHotSlot>,
    ) -> (r: BaselineGeneratedPropertyExecutionSidecars<'a, H>)
        ensures
            spec_fresh_sidecars(r),
            r.dispatch_host == dispatch_host,
            r.property_load_plan_table == (match property_load_tables {
                Some(tables) => Some(tables.0),
                None => None,
            }),
            r.property_load_guarded_candidate_table == (match property_load_tables {
                Some(tables) => Some(tables.1),
                None => None,
            }),
            r.property_store_candidate_table == property_store_candidate_table,
            r.property_load_megamorphic_candidate_table is None,
            r.property_store_megamorphic_candidate_table is None,
            r.property_has_megamorphic_candidate_table is None,
            r.generated_call_link_candidate_table == Some(generated_call_link_candidate_table),
            r.generated_direct_call_hot_slots@ == hot_slots@,
    {
        let mut sidecars = Self::new_with_generated_call_link(
            dispatch_host,
            property_load_tables,
            property_store_candidate_table,
            generated_call_link_candidate_table,
        );
        sidecars.generated_direct_call_hot_slots = hot_slots;
        sidecars
    }

    pub fn with_property_load_megamorphic_candidate_table(
        self,
        table: Option<&'a GeneratedPropertyLoadMegamorphicCandidateTable>,
    ) -> (r: BaselineGeneratedPropertyExecutionSidecars<'a, H>)
        ensures
            r == (BaselineGeneratedPropertyExecutionSidecars { property_load_megamorphic_candidate_table: table, ..self }),
    {
        BaselineGeneratedPropertyExecutionSidecars { property_load_megamorphic_candidate_table: table, ..self }
    }

    pub fn with_property_store_megamorphic_candidate_table(
        self,
        table: Option<&'a GeneratedPropertyStoreMegamorphicCandidateTable>,
    ) -> (r: BaselineGeneratedPropertyExecutionSidecars<'a, H>)
        ensures
            r == (BaselineGeneratedPropertyExecutionSidecars { property_store_megamorphic_candidate_table: table, ..self }),
    {
        BaselineGeneratedPropertyExecutionSidecars { property_store_megamorphic_candidate_table: table, ..self }
    }

    pub fn with_property_has_megamorphic_candidate_table(
        self,
        table: Option<&'a GeneratedPropertyHasMegamorphicCandidateTable>,
    ) -> (r: BaselineGeneratedPropertyExecutionSidecars<'a, H>)
        ensures
            r == (BaselineGeneratedPropertyExecutionSidecars { property_has_megamorphic_candidate_table: table, ..self }),
    {
        BaselineGeneratedPropertyExecutionSidecars { property_has_megamorphic_candidate_table: table, ..self }
    }

    pub fn destination_root_sync_requests(&self) -> (r: &Vec<BaselineGeneratedPropertyLoadDestinationRootSyncRequest>)
        ensures
            r@ == self.destination_root_sync_requests@,
    {
        &self.destination_root_sync_requests
    }

    pub fn property_load_probe_miss_records(&self) -> (r: &Vec<BaselineGeneratedPropertyLoadProbeMissRecord>)
        ensures
            r@ == self.property_load_probe_miss_records@,
    {
        &self.property_load_probe_miss_records
    }

    pub fn guarded_property_load_probe_miss_records(&self) -> (r: &Vec<
        BaselineGeneratedGuardedPropertyLoadProbeMissRecord,
    >)
        ensures
            r@ == self.guarded_property_load_probe_miss_records@,
    {
        &self.guarded_property_load_probe_miss_records
    }

    pub fn property_store_probe_miss_records(&self) -> (r: &Vec<BaselineGeneratedPropertyStoreProbeMissRecord>)
        ensures
            r@ == self.property_store_probe_miss_records@,
    {
        &self.property_store_probe_miss_records
    }

    pub fn property_store_mutation_rejection_records(&self) -> (r: &Vec<
        BaselineGeneratedPropertyStoreMutationRejectionRecord,
    >)
        ensures
            r@ == self.property_store_mutation_rejection_records@,
    {
        &self.property_store_mutation_rejection_records
    }

    pub fn property_store_mutation_commit_records(&self) -> (r: &Vec<BaselineGeneratedPropertyStoreMutationCommitRecord>)
        ensures
            r@ == self.property_store_mutation_commit_records@,
    {
        &self.property_store_mutation_commit_records
    }

    pub fn generated_call_link_probe_miss_records(&self) -> (r: &Vec<BaselineGeneratedCallLinkProbeMissRecord>)
        ensures
            r@ == self.generated_call_link_probe_miss_records@,
    {
        &self.generated_call_link_probe_miss_records
    }

    pub fn generated_call_link_probe_blocked_records(&self) -> (r: &Vec<BaselineGeneratedCallLinkProbeBlockedRecord>)
        ensures
            r@ == self.generated_call_link_probe_blocked_records@,
    {
        &self.generated_call_link_probe_blocked_records
    }

    pub fn generated_direct_call_hot_slot_hits(&self) -> (r: usize)
        ensures
            r == self.generated_direct_call_hot_slot_hits,
    {
        self.generated_direct_call_hot_slot_hits
    }

    /// Asks the host whether structure-chain invalidations are pending, and logs it.
    fn ask_pending_invalidations(&mut self) -> (r: bool)
        ensures
            final(self).load_host_exchanges@ == old(self).load_host_exchanges@.push(
                LoadHostExchange::PendingInvalidations { pending: r },
            ),
            final(self).store_host_exchanges == old(self).store_host_exchanges,
            spec_only_host_asked(*old(self), *final(self)),
    {
        let r = self.dispatch_host.has_pending_structure_chain_invalidation_events();
        self.load_host_exchanges = Ghost(
            self.load_host_exchanges@.push(LoadHostExchange::PendingInvalidations { pending: r }),
        );
        r
    }

    /// Asks the host for the structure of a load's base, and logs it.
    fn ask_base_structure(&mut self, base: RuntimeValue) -> (r: Option<StructureId>)
        ensures
            final(self).load_host_exchanges@ == old(self).load_host_exchanges@.push(
                LoadHostExchange::BaseStructure { base, structure: r },
            ),
            final(self).store_host_exchanges == old(self).store_host_exchanges,
            spec_only_host_asked(*old(self), *final(self)),
    {
        let r = self.dispatch_host.generated_property_sidecar_base_structure(base);
        self.load_host_exchanges = Ghost(
            self.load_host_exchanges@.push(LoadHostExchange::BaseStructure { base, structure: r }),
        );
        r
    }

    /// Offers the host a planned load, and logs its answer.
    fn ask_load_probe(
        &mut self,
        position: Ghost<Option<usize>>,
        request: GeneratedPropertyLoadProbeRequest,
    ) -> (r: GeneratedPropertyLoadProbeResult)
        ensures
            final(self).load_host_exchanges@ == old(self).load_host_exchanges@.push(
                LoadHostExchange::Probe { request, answer: r, position: position@ },
            ),
            final(self).store_host_exchanges == old(self).store_host_exchanges,
            spec_only_host_asked(*old(self), *final(self)),
    {
        let r = self.dispatch_host.probe_generated_property_load(request);
        self.load_host_exchanges = Ghost(
            self.load_host_exchanges@.push(LoadHostExchange::Probe { request, answer: r, position: position@ }),
        );
        r
    }

    /// Offers the host a megamorphic prototype load, and logs its answer.
    fn ask_holder_probe(&mut self, request: GeneratedPropertyLoadMegamorphicHolderProbeRequest) -> (r:
        GeneratedPropertyLoadProbeResult)
        ensures
            final(self).load_host_exchanges@ == old(self).load_host_exchanges@.push(
                LoadHostExchange::HolderProbe { request, answer: r },
            ),
            final(self).store_host_exchanges == old(self).store_host_exchanges,
            spec_only_host_asked(*old(self), *final(self)),
    {
        let r = self.dispatch_host.probe_generated_property_load_megamorphic_holder(request);
        self.load_host_exchanges = Ghost(
            self.load_host_exchanges@.push(LoadHostExchange::HolderProbe { request, answer: r }),
        );
        r
    }

    /// Offers the host a store probe made for `candidate`, and logs its answer.
    fn ask_store_probe(
        &mut self,
        candidate: Ghost<Option<PropertyStoreMutationCandidate>>,
        request: GeneratedPropertyStoreProbeRequest,
    ) -> (r: GeneratedPropertyStoreProbeResult)
        ensures
            final(self).store_host_exchanges@ == old(self).store_host_exchanges@.push(
                StoreHostExchange::Probe { candidate: candidate@, request, answer: r },
            ),
            final(self).load_host_exchanges == old(self).load_host_exchanges,
            spec_only_host_asked(*old(self), *final(self)),
    {
        let r = self.dispatch_host.probe_generated_property_store(request);
        self.store_host_exchanges = Ghost(
            self.store_host_exchanges@.push(StoreHostExchange::Probe { candidate: candidate@, request, answer: r }),
        );
        r
    }

    /// Asks the host to commit a store made for `candidate`, and logs its answer.
    fn ask_store_commit(
        &mut self,
        candidate: Ghost<Option<PropertyStoreMutationCandidate>>,
        request: GeneratedPropertyStoreMutationRequest,
    ) -> (r: GeneratedPropertyStoreMutationResult)
        ensures
            final(self).store_host_exchanges@ == old(self).store_host_exchanges@.push(
                StoreHostExchange::Commit { candidate: candidate@, request, answer: r },
            ),
            final(self).load_host_exchanges == old(self).load_host_exchanges,
            spec_only_host_asked(*old(self), *final(self)),
    {
        let r = self.dispatch_host.commit_generated_property_store(request);
        self.store_host_exchanges = Ghost(
            self.store_host_exchanges@.push(StoreHostExchange::Commit { candidate: candidate@, request, answer: r }),
        );
        r
    }

    /// Asks the host for the cache key of an `in` by value's property, and logs it.
    fn ask_has_runtime_key(&mut self, property: RuntimeValue) -> (r: Option<CacheKey>)
        ensures
            final(self).has_host_exchanges@ == old(self).has_host_exchanges@.push(
                HasHostExchange::RuntimeKey { property, key: r },
            ),
            spec_only_host_asked(*old(self), *final(self)),
    {
        let r = self.dispatch_host.generated_property_has_sidecar_runtime_key(property);
        self.has_host_exchanges = Ghost(self.has_host_exchanges@.push(HasHostExchange::RuntimeKey { property, key: r }));
        r
    }

    /// Asks the host, for an `in` sidecar, whether invalidations are pending, and logs it.
    fn ask_has_pending_invalidations(&mut self) -> (r: bool)
        ensures
            final(self).has_host_exchanges@ == old(self).has_host_exchanges@.push(
                HasHostExchange::PendingInvalidations { pending: r },
            ),
            spec_only_host_asked(*old(self), *final(self)),
    {
        let r = self.dispatch_host.has_pending_structure_chain_invalidation_events();
        self.has_host_exchanges = Ghost(self.has_host_exchanges@.push(HasHostExchange::PendingInvalidations { pending: r }));
        r
    }

    /// Asks the host for the structure of an `in` sidecar's base, and logs it.
    fn ask_has_base_structure(&mut self, base: RuntimeValue) -> (r: Option<StructureId>)
        ensures
            final(self).has_host_exchanges@ == old(self).has_host_exchanges@.push(
                HasHostExchange::BaseStructure { base, structure: r },
            ),
            spec_only_host_asked(*old(self), *final(self)),
    {
        let r = self.dispatch_host.generated_property_has_sidecar_base_structure(base);
        self.has_host_exchanges = Ghost(self.has_host_exchanges@.push(HasHostExchange::BaseStructure { base, structure: r }));
        r
    }

    /// Offers a call to the host's native intrinsics, and logs the answer.
    fn ask_native_intrinsic_call(&mut self, request: GeneratedNativeIntrinsicCallRequest) -> (r:
        GeneratedNativeIntrinsicCallResult)
        ensures
            final(self).native_host_exchanges@ == old(self).native_host_exchanges@.push((request, r)),
            spec_only_host_asked(*old(self), *final(self)),
    {
        let r = self.dispatch_host.dispatch_generated_native_intrinsic_call(request);
        self.native_host_exchanges = Ghost(self.native_host_exchanges@.push((request, r)));
        r
    }

    /// Offers the host a guarded load, and logs its answer.
    fn ask_guarded_probe(&mut self, request: GeneratedGuardedPropertyLoadProbeRequest) -> (r:
        GeneratedGuardedPropertyLoadProbeResult)
        ensures
            final(self).load_host_exchanges@ == old(self).load_host_exchanges@.push(
                LoadHostExchange::GuardedProbe { request, answer: r },
            ),
            final(self).store_host_exchanges == old(self).store_host_exchanges,
            spec_only_host_asked(*old(self), *final(self)),
    {
        let r = self.dispatch_host.probe_generated_guarded_property_load(request);
        self.load_host_exchanges = Ghost(
            self.load_host_exchanges@.push(LoadHostExchange::GuardedProbe { request, answer: r }),
        );
        r
    }
}


/// What a property sidecar works with: the instruction, its planned site, and where a
/// fallback would resume.
#[derive(Clone, Copy)]
pub struct PropertySidecarAttempt<'c> {
    pub window: RegisterWindow,
    pub code_block: &'c CodeBlock,
    pub fallback: BaselineGeneratedFallbackSite,
    pub frame: CallFrameId,
    pub instruction: &'c TypedInstruction,
    pub site: BaselineGeneratedPropertyHandoffSite,
}

/// What an `in` sidecar may have done: nothing, or written the boolean a megamorphic
/// entry holds for the site's key (the named key for `in` by id) and some structure into
/// the destination register.
pub open spec fn spec_has_sidecar_outcome(
    table: Option<&GeneratedPropertyHasMegamorphicCandidateTable>,
    attempt: PropertySidecarAttempt,
    before: Seq<RuntimeValue>,
    r: Result<Option<BaselineInstructionOutcome>, BaselineInstructionAbort>,
    after: Seq<RuntimeValue>,
) -> bool {
    let site = attempt.site;
    match r {
        Ok(Some(outcome)) => {
            &&& table is Some
            &&& table->Some_0.owner == site.owner
            &&& outcome == BaselineInstructionOutcome::Continue
            &&& exists|key: CacheKey, structure: StructureId| {
                &&& #[trigger] spec_has_megamorphic_lookup(*table->Some_0, site.slot, site.bytecode_index.offset, key, structure)
                    is Hit
                &&& (site.opcode == CoreOpcode::InById ==> spec_named_property_sidecar_cache_key(site) == Some(key))
                &&& spec_register_operand(*attempt.instruction, 0) is Ok
                &&& spec_write_register(
                    before,
                    attempt.window,
                    spec_register_operand(*attempt.instruction, 0)->Ok_0,
                    RuntimeValue::Boolean(
                        spec_has_megamorphic_lookup(*table->Some_0, site.slot, site.bytecode_index.offset, key, structure)->Hit_0,
                    ),
                ) == Ok::<Seq<RuntimeValue>, ExecutionError>(after)
            }
        },
        _ => after == before,
    }
}

/// Whether the megamorphic `in` table cannot serve `site` whatever the host says: it
/// belongs to another code block, or the site is an `in` by id whose key the table has
/// no site for.
pub open spec fn spec_has_site_unserved(table: GeneratedPropertyHasMegamorphicCandidateTable, site: BaselineGeneratedPropertyHandoffSite) -> bool {
    ||| table.owner != site.owner
    ||| site.opcode == CoreOpcode::InById && match spec_named_property_sidecar_cache_key(site) {
        None => true,
        Some(key) => !crate::ic::spec_has_megamorphic_contains_site(table, site.slot, site.bytecode_index.offset, key),
    }
}

/// How an `in` sidecar ends before it asks the host anything, when it does: no table, a
/// table of another code block, a site that is no `in`, an `in` by id without a key or a
/// site in the table (`Ok(None)`); for `in` by value, an unreadable key operand or
/// register (its abort) or a key register the plan did not expect (`Ok(None)`). `None`:
/// the host is asked next.
pub open spec fn spec_has_settled(
    table: Option<&GeneratedPropertyHasMegamorphicCandidateTable>,
    slots: Seq<RuntimeValue>,
    attempt: PropertySidecarAttempt,
) -> Option<Result<Option<BaselineInstructionOutcome>, BaselineInstructionAbort>> {
    let site = attempt.site;
    let declined = Some(Ok::<Option<BaselineInstructionOutcome>, BaselineInstructionAbort>(None));
    match table {
        None => declined,
        Some(table) => if table.owner != site.owner {
            declined
        } else if site.opcode == CoreOpcode::InById {
            match spec_named_property_sidecar_cache_key(site) {
                None => declined,
                Some(key) => if crate::ic::spec_has_megamorphic_contains_site(
                    *table,
                    site.slot,
                    site.bytecode_index.offset,
                    key,
                ) {
                    None
                } else {
                    declined
                },
            }
        } else if site.opcode == CoreOpcode::InByVal {
            match spec_register_operand_or_fallback(*attempt.instruction, 2, attempt.fallback) {
                Err(abort) => Some(Err(abort)),
                Ok(property_register) => if site.property_key != PropertyCacheKey::RuntimeValue(property_register) {
                    declined
                } else {
                    match spec_read_register_or_outcome(
                        slots,
                        *attempt.code_block,
                        attempt.window,
                        property_register,
                        attempt.fallback,
                    ) {
                        Err(abort) => Some(Err(abort)),
                        Ok(_) => None,
                    }
                },
            }
        } else {
            declined
        },
    }
}

/// The aborts an `in` sidecar can end with once the host was asked: reading the
/// destination, the base operand or the base register, or writing the destination.
pub open spec fn spec_has_late_abort(
    slots: Seq<RuntimeValue>,
    attempt: PropertySidecarAttempt,
    abort: BaselineInstructionAbort,
) -> bool {
    match spec_register_operand_or_fallback(*attempt.instruction, 0, attempt.fallback) {
        Err(a) => a == abort,
        Ok(destination) => match spec_register_operand_value(
            slots,
            *attempt.code_block,
            attempt.window,
            *attempt.instruction,
            1,
            attempt.fallback,
        ) {
            Err(a) => a == abort,
            Ok(_) => exists|value: bool|
                #[trigger] spec_write_step(slots, attempt.window, destination, RuntimeValue::Boolean(value), attempt.fallback).0
                    == Err::<BaselineInstructionOutcome, BaselineInstructionAbort>(abort),
        },
    }
}

/// What an `in` sidecar that went on wrote: the boolean the table holds for the site's
/// key (the key the host gave for the property, for an `in` by value) and the structure
/// the host reported for the base, its last answer.
pub open spec fn spec_has_answer_written(
    table: Option<&GeneratedPropertyHasMegamorphicCandidateTable>,
    before: Seq<HasHostExchange>,
    after: Seq<HasHostExchange>,
    attempt: PropertySidecarAttempt,
    before_slots: Seq<RuntimeValue>,
    after_slots: Seq<RuntimeValue>,
) -> bool {
    let site = attempt.site;
    let key = spec_has_looked_up_key(before, after, site);
    &&& table is Some
    &&& after.len() > before.len()
    &&& spec_register_operand(*attempt.instruction, 0) is Ok
    &&& key is Some
    &&& after.last() matches HasHostExchange::BaseStructure { structure: Some(structure), .. }
    &&& spec_has_megamorphic_lookup(*table->Some_0, site.slot, site.bytecode_index.offset, key->Some_0, structure)
        matches GeneratedPropertyHasMegamorphicLookup::Hit(result)
    &&& spec_write_register(before_slots, attempt.window, spec_register_operand(*attempt.instruction, 0)->Ok_0, RuntimeValue::Boolean(result))
        == Ok::<Seq<RuntimeValue>, ExecutionError>(after_slots)
}

/// The key an `in` sidecar looks up: the site's name for `in` by id, the key the host gave
/// for the property (its first answer) for `in` by value.
pub open spec fn spec_has_looked_up_key(
    before: Seq<HasHostExchange>,
    after: Seq<HasHostExchange>,
    site: BaselineGeneratedPropertyHandoffSite,
) -> Option<CacheKey> {
    if site.opcode == CoreOpcode::InById {
        spec_named_property_sidecar_cache_key(site)
    } else {
        match after[before.len() as int] {
            HasHostExchange::RuntimeKey { key, .. } => key,
            _ => None,
        }
    }
}

/// An `in` sidecar whose last question was the base's structure, answered with a
/// structure, ends as the table says for that structure and the looked-up key: a hit's
/// boolean is written into the destination, anything else leaves the instruction with
/// the registers unchanged.
pub open spec fn spec_has_structure_answered(
    table: Option<&GeneratedPropertyHasMegamorphicCandidateTable>,
    before: Seq<HasHostExchange>,
    after: Seq<HasHostExchange>,
    attempt: PropertySidecarAttempt,
    before_slots: Seq<RuntimeValue>,
    r: Result<Option<BaselineInstructionOutcome>, BaselineInstructionAbort>,
    after_slots: Seq<RuntimeValue>,
) -> bool {
    let site = attempt.site;
    let key = spec_has_looked_up_key(before, after, site);
    after.len() > before.len() ==> match after.last() {
        HasHostExchange::BaseStructure { structure: Some(structure), .. } => {
        &&& table is Some
        &&& key is Some
        &&& spec_register_operand(*attempt.instruction, 0) is Ok
        &&& match spec_has_megamorphic_lookup(*table->Some_0, site.slot, site.bytecode_index.offset, key->Some_0, structure) {
            GeneratedPropertyHasMegamorphicLookup::Hit(result) => {
                let step = spec_write_step(
                    before_slots,
                    attempt.window,
                    spec_register_operand(*attempt.instruction, 0)->Ok_0,
                    RuntimeValue::Boolean(result),
                    attempt.fallback,
                );
                &&& after_slots == step.1
                &&& r == match step.0 {
                    Ok(outcome) => Ok::<Option<BaselineInstructionOutcome>, BaselineInstructionAbort>(Some(outcome)),
                    Err(abort) => Err(abort),
                }
            },
            _ => r == Ok::<Option<BaselineInstructionOutcome>, BaselineInstructionAbort>(None) && after_slots
                == before_slots,
        }
        },
        _ => true,
    }
}

/// Whether the `in` sidecar's questions from `before` to `after` include a report of
/// pending invalidations.
pub open spec fn spec_heard_pending_has(before: Seq<HasHostExchange>, after: Seq<HasHostExchange>) -> bool {
    exists|k: int|
        before.len() <= k < after.len() && (#[trigger] after[k]) == (HasHostExchange::PendingInvalidations {
            pending: true,
        })
}

/// Answers `in` by id or by value from the megamorphic `in` table, when the table serves
/// the site, no structure-chain invalidation is pending, and the host knows the base's
/// structure; otherwise leaves the instruction to the interpreter.
pub fn execute_property_has_sidecar_candidate<H: DispatchHost>(
    sidecars: &mut BaselineGeneratedPropertyExecutionSidecars<'_, H>,
    execution: &mut InterpreterExecutionState,
    attempt: PropertySidecarAttempt,
) -> (r: Result<Option<BaselineInstructionOutcome>, BaselineInstructionAbort>)
    ensures
        spec_same_plans(*old(sidecars), *final(sidecars)),
        spec_records_unchanged(*old(sidecars), *final(sidecars)),
        final(execution).stack == old(execution).stack,
        final(execution).heap == old(execution).heap,
        spec_has_sidecar_outcome(
            old(sidecars).property_has_megamorphic_candidate_table,
            attempt,
            old(execution).registers.slots@,
            r,
            final(execution).registers.slots@,
        ),
        old(sidecars).property_has_megamorphic_candidate_table is None ==> r == Ok::<
            Option<BaselineInstructionOutcome>,
            BaselineInstructionAbort,
        >(None),
        old(sidecars).property_has_megamorphic_candidate_table matches Some(table) && spec_has_site_unserved(
            *table,
            attempt.site,
        ) ==> {
            &&& r == Ok::<Option<BaselineInstructionOutcome>, BaselineInstructionAbort>(None)
            &&& final(sidecars).dispatch_host == old(sidecars).dispatch_host
            &&& *final(execution) == *old(execution)
        },
        spec_has_settled(old(sidecars).property_has_megamorphic_candidate_table, old(execution).registers.slots@, attempt)
            matches Some(settled) ==> {
            &&& r == settled
            &&& *final(sidecars) == *old(sidecars)
            &&& *final(execution) == *old(execution)
        },
        r matches Ok(Some(_)) ==> spec_has_answer_written(
            old(sidecars).property_has_megamorphic_candidate_table,
            old(sidecars).has_host_exchanges@,
            final(sidecars).has_host_exchanges@,
            attempt,
            old(execution).registers.slots@,
            final(execution).registers.slots@,
        ),
        spec_has_structure_answered(
            old(sidecars).property_has_megamorphic_candidate_table,
            old(sidecars).has_host_exchanges@,
            final(sidecars).has_host_exchanges@,
            attempt,
            old(execution).registers.slots@,
            r,
            final(execution).registers.slots@,
        ),
        spec_heard_pending_has(old(sidecars).has_host_exchanges@, final(sidecars).has_host_exchanges@) ==> {
            &&& r == Ok::<Option<BaselineInstructionOutcome>, BaselineInstructionAbort>(None)
            &&& *final(execution) == *old(execution)
        },
        old(sidecars).has_host_exchanges@.is_prefix_of(final(sidecars).has_host_exchanges@),
        r matches Err(abort) ==> spec_has_settled(
            old(sidecars).property_has_megamorphic_candidate_table,
            old(execution).registers.slots@,
            attempt,
        ) == Some(Err::<Option<BaselineInstructionOutcome>, BaselineInstructionAbort>(abort))
            || spec_has_late_abort(old(execution).registers.slots@, attempt, abort),
{
    let window = attempt.window;
    let code_block = attempt.code_block;
    let fallback = attempt.fallback;
    let instruction = attempt.instruction;
    let site = attempt.site;
    let table = match sidecars.property_has_megamorphic_candidate_table {
        None => {
            return Ok(None);
        },
        Some(table) => table,
    };
    if table.owner() != site.owner {
        return Ok(None);
    }
    let site_key = if site.opcode == CoreOpcode::InById {
        match named_property_sidecar_cache_key(&site) {
            None => {
                return Ok(None);
            },
            Some(key) => key,
        }
    } else if site.opcode == CoreOpcode::InByVal {
        let property_register = register_operand_or_fallback(instruction, 2, fallback)?;
        match site.property_key {
            PropertyCacheKey::RuntimeValue(expected) => {
                if expected != property_register {
                    return Ok(None);
                }
            },
            _ => {
                return Ok(None);
            },
        }
        let property = read_register_or_outcome(execution, code_block, window, property_register, fallback)?;
        match sidecars.ask_has_runtime_key(property) {
            None => {
                return Ok(None);
            },
            Some(key) => key,
        }
    } else {
        return Ok(None);
    };
    if !table.contains_site(site.slot, site.bytecode_index.offset(), site_key) {
        return Ok(None);
    }
    if sidecars.ask_has_pending_invalidations() {
        return Ok(None);
    }
    let destination = register_operand_or_fallback(instruction, 0, fallback)?;
    let base_register = register_operand_or_fallback(instruction, 1, fallback)?;
    let base = read_register_or_outcome(execution, code_block, window, base_register, fallback)?;
    let actual_structure = match sidecars.ask_has_base_structure(base) {
        None => {
            return Ok(None);
        },
        Some(structure) => structure,
    };
    let lookup = table.lookup(site.slot, site.bytecode_index.offset(), site_key, actual_structure);
    finish_property_has_lookup(execution, window, destination, lookup, fallback)
}

/// What an `in` sidecar does with the table's answer for the base's structure: a hit's
/// boolean goes into the destination, anything else leaves the instruction to the
/// interpreter with nothing changed.
pub fn finish_property_has_lookup(
    execution: &mut InterpreterExecutionState,
    window: RegisterWindow,
    destination: VirtualRegister,
    lookup: GeneratedPropertyHasMegamorphicLookup,
    fallback: BaselineGeneratedFallbackSite,
) -> (r: Result<Option<BaselineInstructionOutcome>, BaselineInstructionAbort>)
    ensures
        final(execution).stack == old(execution).stack,
        final(execution).heap == old(execution).heap,
        match lookup {
            GeneratedPropertyHasMegamorphicLookup::Hit(result) => {
                let step = spec_write_step(
                    old(execution).registers.slots@,
                    window,
                    destination,
                    RuntimeValue::Boolean(result),
                    fallback,
                );
                &&& final(execution).registers.slots@ == step.1
                &&& r == match step.0 {
                    Ok(outcome) => Ok::<Option<BaselineInstructionOutcome>, BaselineInstructionAbort>(Some(outcome)),
                    Err(abort) => Err(abort),
                }
            },
            _ => {
                &&& r == Ok::<Option<BaselineInstructionOutcome>, BaselineInstructionAbort>(None)
                &&& *final(execution) == *old(execution)
            },
        },
{
    match lookup {
        GeneratedPropertyHasMegamorphicLookup::Hit(result) => {
            let outcome = write_register_or_outcome(execution, window, destination, RuntimeValue::from_bool(result), fallback)?;
            Ok(Some(outcome))
        },
        _ => Ok(None),
    }
}


/// The destination, base and (for an element load) element key of a load instruction,
/// as its sidecar reads them.
pub open spec fn spec_property_load_sidecar_operands(
    execution: InterpreterExecutionState,
    code_block: CodeBlock,
    window: RegisterWindow,
    instruction: TypedInstruction,
    fallback: BaselineGeneratedFallbackSite,
) -> Result<(VirtualRegister, RuntimeValue, Option<CacheKey>), BaselineInstructionAbort> {
    let slots = execution.registers.slots@;
    match spec_register_operand_or_fallback(instruction, 0, fallback) {
        Err(abort) => Err(abort),
        Ok(destination) => if instruction.opcode == Opcode::Core(CoreOpcode::GetGlobalObjectProperty) {
            match spec_active_global_this_value(execution.stack) {
                Err(error) => Err(BaselineInstructionAbort::Error(BaselineGeneratedExecutionError::Execution(error))),
                Ok(base) => Ok((destination, base, None)),
            }
        } else {
            match spec_register_operand_or_fallback(instruction, 1, fallback) {
                Err(abort) => Err(abort),
                Ok(base_register) => match spec_read_register_or_outcome(slots, code_block, window, base_register, fallback) {
                    Err(abort) => Err(abort),
                    Ok(base) => if instruction.opcode == Opcode::Core(CoreOpcode::GetByValue) {
                        match spec_register_operand_or_fallback(instruction, 2, fallback) {
                            Err(abort) => Err(abort),
                            Ok(key_register) => match spec_read_register_or_outcome(
                                slots,
                                code_block,
                                window,
                                key_register,
                                fallback,
                            ) {
                                Err(abort) => Err(abort),
                                Ok(key) => Ok((destination, base, spec_element_sidecar_cache_key_from_runtime_value(key))),
                            },
                        }
                    } else {
                        Ok((destination, base, None))
                    },
                },
            }
        },
    }
}

/// The load operands, read once: a cached read is returned as it was.
pub fn property_load_sidecar_operands(
    operands: &mut Option<(VirtualRegister, RuntimeValue, Option<CacheKey>)>,
    execution: &InterpreterExecutionState,
    code_block: &CodeBlock,
    window: RegisterWindow,
    instruction: &TypedInstruction,
    fallback: BaselineGeneratedFallbackSite,
) -> (r: Result<(VirtualRegister, RuntimeValue, Option<CacheKey>), BaselineInstructionAbort>)
    ensures
        match *old(operands) {
            Some(cached) => r == Ok::<(VirtualRegister, RuntimeValue, Option<CacheKey>), BaselineInstructionAbort>(cached)
                && *final(operands) == *old(operands),
            None => r == spec_property_load_sidecar_operands(*execution, *code_block, window, *instruction, fallback)
                && *final(operands) == (match r {
                    Ok(read) => Some(read),
                    Err(_) => None,
                }),
        },
{
    if let Some(cached) = *operands {
        return Ok(cached);
    }
    let destination = register_operand_or_fallback(instruction, 0, fallback)?;
    let read = if instruction.opcode == Opcode::Core(CoreOpcode::GetGlobalObjectProperty) {
        let base = match execution.stack.active_global_this_value() {
            Err(error) => {
                return Err(execution_error_abort(error));
            },
            Ok(base) => base,
        };
        (destination, base, None)
    } else {
        let base_register = register_operand_or_fallback(instruction, 1, fallback)?;
        let base = read_register_or_outcome(execution, code_block, window, base_register, fallback)?;
        if instruction.opcode == Opcode::Core(CoreOpcode::GetByValue) {
            let key_register = register_operand_or_fallback(instruction, 2, fallback)?;
            let key = read_register_or_outcome(execution, code_block, window, key_register, fallback)?;
            (destination, base, element_sidecar_cache_key_from_runtime_value(key))
        } else {
            (destination, base, None)
        }
    };
    *operands = Some(read);
    Ok(read)
}

/// Whether a load plan's structure guard applies: an own-data load that names a real
/// base structure.
pub open spec fn spec_load_guard_structure(plan: PropertyLoadAccessCasePlan) -> Option<StructureId> {
    if plan.plan_kind != PropertyLoadAccessCasePlanKind::DataOnlyOwnLoad {
        None
    } else {
        match plan.access_case.base_structure {
            Some(expected) => if expected == spec_invalid_structure() {
                None
            } else {
                Some(expected)
            },
            None => None,
        }
    }
}

/// Whether the base's known structure rules the plan out.
pub open spec fn spec_guard_misses(expected: Option<StructureId>, actual: Option<Option<StructureId>>) -> bool {
    match expected {
        None => false,
        Some(expected) => match actual {
            Some(Some(actual)) => actual != expected,
            _ => false,
        },
    }
}

/// The structure guard of a load plan: the base's structure is asked of the host at most
/// once per instruction (`current_base_structure` caches the answer), and the guard
/// misses only when a known structure differs from the planned one.
pub fn property_load_sidecar_structure_guard_misses<H: DispatchHost>(
    sidecars: &mut BaselineGeneratedPropertyExecutionSidecars<'_, H>,
    current_base_structure: &mut Option<Option<StructureId>>,
    base: RuntimeValue,
    plan: &PropertyLoadAccessCasePlan,
) -> (r: bool)
    ensures
        spec_load_guard_structure(*plan) is None || (*old(current_base_structure)) is Some ==> {
            &&& *final(sidecars) == *old(sidecars)
            &&& *final(current_base_structure) == *old(current_base_structure)
        },
        spec_load_guard_structure(*plan) is Some && (*old(current_base_structure)) is None ==> {
            &&& *final(current_base_structure) matches Some(structure)
            &&& final(sidecars).load_host_exchanges@ == old(sidecars).load_host_exchanges@.push(
                LoadHostExchange::BaseStructure { base, structure },
            )
            &&& spec_only_host_asked(*old(sidecars), *final(sidecars))
        },
        spec_load_guard_structure(*plan) is Some ==> (*final(current_base_structure)) is Some,
        final(sidecars).store_host_exchanges == old(sidecars).store_host_exchanges,
        r == spec_guard_misses(spec_load_guard_structure(*plan), *final(current_base_structure)),
{
    if plan.plan_kind != PropertyLoadAccessCasePlanKind::DataOnlyOwnLoad {
        return false;
    }
    let expected = match plan.access_case.base_structure {
        None => {
            return false;
        },
        Some(expected) => expected,
    };
    if expected == StructureId::invalid() {
        return false;
    }
    let actual = match *current_base_structure {
        Some(actual) => actual,
        None => {
            let actual = sidecars.ask_base_structure(base);
            *current_base_structure = Some(actual);
            actual
        },
    };
    match actual {
        Some(actual) => actual != expected,
        None => false,
    }
}


/// What a load sidecar may have done to the registers: nothing, or written some value
/// into the instruction's destination register (and then it continues).
pub open spec fn spec_load_sidecar_wrote(
    attempt: PropertySidecarAttempt,
    before: Seq<RuntimeValue>,
    r: Result<Option<BaselineInstructionOutcome>, BaselineInstructionAbort>,
    after: Seq<RuntimeValue>,
) -> bool {
    match r {
        Ok(Some(outcome)) => {
            &&& outcome == BaselineInstructionOutcome::Continue
            &&& spec_register_operand(*attempt.instruction, 0) is Ok
            &&& exists|value: RuntimeValue|
                #[trigger] spec_write_register(before, attempt.window, spec_register_operand(*attempt.instruction, 0)->Ok_0, value)
                    == Ok::<Seq<RuntimeValue>, ExecutionError>(after)
        },
        _ => after == before,
    }
}

/// Only the load records grew: the root-sync requests and both load miss lists.
pub open spec fn spec_load_records_extended<'a, H>(
    a: BaselineGeneratedPropertyExecutionSidecars<'a, H>,
    b: BaselineGeneratedPropertyExecutionSidecars<'a, H>,
) -> bool {
    &&& a.destination_root_sync_requests@.is_prefix_of(b.destination_root_sync_requests@)
    &&& a.property_load_probe_miss_records@.is_prefix_of(b.property_load_probe_miss_records@)
    &&& a.guarded_property_load_probe_miss_records@.len() <= b.guarded_property_load_probe_miss_records@.len()
    &&& a.property_store_probe_miss_records@ == b.property_store_probe_miss_records@
    &&& a.property_store_mutation_rejection_records@ == b.property_store_mutation_rejection_records@
    &&& a.property_store_mutation_commit_records@ == b.property_store_mutation_commit_records@
    &&& a.generated_call_link_probe_miss_records@ == b.generated_call_link_probe_miss_records@
    &&& a.generated_call_link_probe_blocked_records@ == b.generated_call_link_probe_blocked_records@
    &&& a.generated_direct_call_hot_slot_hits == b.generated_direct_call_hot_slot_hits
}

/// Whether no load source can serve `site`, whatever the host would answer: the
/// megamorphic table is absent, belongs to another code block, or has no site for this
/// `get by name`; the plan table is absent, belongs to another code block, or holds no
/// plan at the site's index; and likewise the guarded candidate table.
pub open spec fn spec_load_site_unserved<'a, H>(
    sidecars: BaselineGeneratedPropertyExecutionSidecars<'a, H>,
    site: BaselineGeneratedPropertyHandoffSite,
) -> bool {
    &&& match sidecars.property_load_megamorphic_candidate_table {
        None => true,
        Some(table) => {
            ||| table.owner != site.owner
            ||| site.opcode != CoreOpcode::GetByName
            ||| match spec_named_property_sidecar_cache_key(site) {
                None => true,
                Some(key) => crate::ic::spec_first_matching(
                    table.sites@,
                    crate::ic::spec_site_is(table.owner, site.slot, site.bytecode_index.offset, key),
                ) is None,
            }
        },
    }
    &&& match sidecars.property_load_plan_table {
        None => true,
        Some(table) => table.owner != site.owner || crate::ic::spec_matching_newest_first(
            table.plans@,
            crate::ic::spec_load_plan_at(site.bytecode_index.offset),
        ).len() == 0,
    }
    &&& match sidecars.property_load_guarded_candidate_table {
        None => true,
        Some(table) => table.owner != site.owner || crate::ic::spec_matching(
            Seq::new(table.candidates@.len(), |i: int| i as usize),
            crate::ic::spec_guarded_position_at(table.candidates@, site.bytecode_index.offset),
        ).len() == 0,
    }
}

/// Whether the megamorphic load table takes `site` first: it belongs to the site's code
/// block and the load is a `get by name`.
pub open spec fn spec_load_megamorphic_takes<'a, H>(
    sidecars: BaselineGeneratedPropertyExecutionSidecars<'a, H>,
    site: BaselineGeneratedPropertyHandoffSite,
) -> bool {
    &&& sidecars.property_load_megamorphic_candidate_table matches Some(table)
    &&& table.owner == site.owner
    &&& site.opcode == CoreOpcode::GetByName
}

/// Whether the megamorphic load table serves `site`: it takes the site and holds an entry
/// for the site's named key.
pub open spec fn spec_load_megamorphic_serves<'a, H>(
    sidecars: BaselineGeneratedPropertyExecutionSidecars<'a, H>,
    site: BaselineGeneratedPropertyHandoffSite,
) -> bool {
    &&& spec_load_megamorphic_takes(sidecars, site)
    &&& spec_named_property_sidecar_cache_key(site) matches Some(key)
    &&& spec_first_matching(
        sidecars.property_load_megamorphic_candidate_table->Some_0.sites@,
        crate::ic::spec_site_is(
            sidecars.property_load_megamorphic_candidate_table->Some_0.owner,
            site.slot,
            site.bytecode_index.offset,
            key,
        ),
    ) is Some
}

/// The base a load sidecar reads, when its operands can be read.
pub open spec fn spec_load_base(execution: InterpreterExecutionState, attempt: PropertySidecarAttempt) -> Option<
    RuntimeValue,
> {
    match spec_property_load_sidecar_operands(
        execution,
        *attempt.code_block,
        attempt.window,
        *attempt.instruction,
        attempt.fallback,
    ) {
        Ok((_, base, _)) => Some(base),
        Err(_) => None,
    }
}

/// What a load sidecar may ask the host: about its own base only; a planned load only of
/// one of the site's plans unless the megamorphic table takes the site; a prototype load
/// only for the megamorphic table.
pub open spec fn spec_load_exchange_allowed(
    exchange: LoadHostExchange,
    base: Option<RuntimeValue>,
    plans: Seq<PropertyLoadAccessCasePlan>,
    megamorphic: bool,
) -> bool {
    match exchange {
        LoadHostExchange::PendingInvalidations { .. } => megamorphic,
        LoadHostExchange::BaseStructure { base: asked, .. } => base == Some(asked),
        LoadHostExchange::Probe { request, position, .. } => {
            &&& base == Some(request.base)
            &&& !megamorphic ==> position is Some
            &&& position matches Some(j) ==> j < plans.len() && (plans[j as int] == request.plan || exists|key: CacheKey|
                #[trigger] spec_load_plan_with_runtime_key(plans[j as int], key) == request.plan)
        },
        LoadHostExchange::HolderProbe { .. } => megamorphic,
        LoadHostExchange::GuardedProbe { request, .. } => base == Some(request.base),
    }
}

/// The questions a load sidecar put to the host, from `before` to `after`: each one
/// allowed, the base's structure asked at most once, and a report of pending
/// invalidations the last question.
pub open spec fn spec_load_exchanges(
    before: Seq<LoadHostExchange>,
    after: Seq<LoadHostExchange>,
    base: Option<RuntimeValue>,
    plans: Seq<PropertyLoadAccessCasePlan>,
    megamorphic: bool,
) -> bool {
    &&& before.is_prefix_of(after)
    &&& forall|k: int|
        #![trigger after[k]]
        before.len() <= k < after.len() ==> spec_load_exchange_allowed(after[k], base, plans, megamorphic)
    &&& forall|k: int|
        #![trigger after[k]]
        before.len() <= k < after.len() && after[k] == (LoadHostExchange::PendingInvalidations { pending: true })
            ==> k == after.len() - 1
    &&& forall|k: int|
        #![trigger after[k]]
        before.len() <= k < after.len() && after[k] is PendingInvalidations ==> k == before.len()
    &&& forall|k1: int, k2: int|
        #![trigger after[k1], after[k2]]
        before.len() <= k1 < after.len() && before.len() <= k2 < after.len() && after[k1] is BaseStructure
            && after[k2] is BaseStructure ==> k1 == k2
    &&& forall|k1: int, k2: int|
        #![trigger after[k1], after[k2]]
        before.len() <= k1 < k2 < after.len() && after[k1] is Probe && after[k2] is Probe && after[k1]->Probe_position
            is Some && after[k2]->Probe_position is Some ==> after[k1]->Probe_position->Some_0
            < after[k2]->Probe_position->Some_0
    &&& !megamorphic ==> forall|k1: int, k2: int|
        #![trigger after[k1], after[k2]]
        before.len() <= k1 < after.len() && before.len() <= k2 < after.len() && after[k1] is Probe
            && after[k2] is BaseStructure ==> !spec_guard_misses(
            spec_load_guard_structure(after[k1]->Probe_request.plan),
            Some(after[k2]->BaseStructure_structure),
        )
}

/// A planned load that passes the structure guard against every structure the host
/// reported for the base between `before` and `log`.
pub open spec fn spec_passes_reported_guards(
    before: Seq<LoadHostExchange>,
    log: Seq<LoadHostExchange>,
    plan: PropertyLoadAccessCasePlan,
) -> bool {
    forall|k: int|
        #![trigger log[k]]
        before.len() <= k < log.len() && log[k] is BaseStructure ==> !spec_guard_misses(
            spec_load_guard_structure(plan),
            Some(log[k]->BaseStructure_structure),
        )
}

/// Every planned load asked between `before` and `log` passes the structure guard against
/// `structure`.
pub open spec fn spec_probes_pass_guard(
    before: Seq<LoadHostExchange>,
    log: Seq<LoadHostExchange>,
    structure: Option<StructureId>,
) -> bool {
    forall|k: int|
        #![trigger log[k]]
        before.len() <= k < log.len() && log[k] is Probe ==> !spec_guard_misses(
            spec_load_guard_structure(log[k]->Probe_request.plan),
            Some(structure),
        )
}

/// What a load that went on wrote: the value of the host's last answer, a hit, into the
/// destination, or `undefined` when the megamorphic table records the property missing
/// for the structure the host just reported.
pub open spec fn spec_load_answer_written(
    before: Seq<LoadHostExchange>,
    after: Seq<LoadHostExchange>,
    attempt: PropertySidecarAttempt,
    before_slots: Seq<RuntimeValue>,
    after_slots: Seq<RuntimeValue>,
) -> bool {
    &&& after.len() > before.len()
    &&& spec_register_operand(*attempt.instruction, 0) is Ok
    &&& {
        let destination = spec_register_operand(*attempt.instruction, 0)->Ok_0;
        let written = |value: RuntimeValue|
            spec_write_register(before_slots, attempt.window, destination, value) == Ok::<
                Seq<RuntimeValue>,
                ExecutionError,
            >(after_slots);
        match after.last() {
            LoadHostExchange::Probe { answer: GeneratedPropertyLoadProbeResult::Hit(hit), .. } => written(hit.value),
            LoadHostExchange::HolderProbe { answer: GeneratedPropertyLoadProbeResult::Hit(hit), .. } => written(
                hit.value,
            ),
            LoadHostExchange::GuardedProbe { answer: GeneratedGuardedPropertyLoadProbeResult::Hit(hit), .. } => written(
                hit.value,
            ),
            LoadHostExchange::BaseStructure { .. } => written(RuntimeValue::Undefined),
            _ => false,
        }
    }
}

/// The value of a load answer that is a hit, if the exchange is one.
pub open spec fn spec_load_exchange_hit_value(exchange: LoadHostExchange) -> Option<RuntimeValue> {
    match exchange {
        LoadHostExchange::Probe { answer: GeneratedPropertyLoadProbeResult::Hit(hit), .. } => Some(hit.value),
        LoadHostExchange::HolderProbe { answer: GeneratedPropertyLoadProbeResult::Hit(hit), .. } => Some(hit.value),
        LoadHostExchange::GuardedProbe { answer: GeneratedGuardedPropertyLoadProbeResult::Hit(hit), .. } => Some(
            hit.value,
        ),
        _ => None,
    }
}

/// Whether the last question from `before` to `after` was answered with a hit.
pub open spec fn spec_last_load_exchange_hit(before: Seq<LoadHostExchange>, after: Seq<LoadHostExchange>) -> bool {
    after.len() > before.len() && spec_load_exchange_hit_value(after.last()) is Some
}

/// A load whose last question the host answered with a hit writes the hit's value into
/// the destination and goes on (or ends as that write does).
pub open spec fn spec_load_hit_answered(
    before: Seq<LoadHostExchange>,
    after: Seq<LoadHostExchange>,
    attempt: PropertySidecarAttempt,
    before_slots: Seq<RuntimeValue>,
    r: Result<Option<BaselineInstructionOutcome>, BaselineInstructionAbort>,
    after_slots: Seq<RuntimeValue>,
) -> bool {
    spec_last_load_exchange_hit(before, after) ==> {
        &&& spec_register_operand(*attempt.instruction, 0) is Ok
        &&& {
            let step = spec_write_step(
                before_slots,
                attempt.window,
                spec_register_operand(*attempt.instruction, 0)->Ok_0,
                spec_load_exchange_hit_value(after.last())->Some_0,
                attempt.fallback,
            );
            &&& after_slots == step.1
            &&& r == match step.0 {
                Ok(outcome) => Ok::<Option<BaselineInstructionOutcome>, BaselineInstructionAbort>(Some(outcome)),
                Err(abort) => Err(abort),
            }
        }
    }
}

/// Whether the questions from `before` to `after` include the base's structure.
pub open spec fn spec_asked_base_structure(before: Seq<LoadHostExchange>, after: Seq<LoadHostExchange>) -> bool {
    exists|k: int| before.len() <= k < after.len() && (#[trigger] after[k]) is BaseStructure
}

/// Whether the questions from `before` to `after` include a report of pending
/// invalidations.
pub open spec fn spec_heard_pending(before: Seq<LoadHostExchange>, after: Seq<LoadHostExchange>) -> bool {
    exists|k: int|
        before.len() <= k < after.len() && (#[trigger] after[k]) == (LoadHostExchange::PendingInvalidations {
            pending: true,
        })
}

proof fn lemma_load_exchange_added(
    before: Seq<LoadHostExchange>,
    mid: Seq<LoadHostExchange>,
    exchange: LoadHostExchange,
    base: Option<RuntimeValue>,
    plans: Seq<PropertyLoadAccessCasePlan>,
    megamorphic: bool,
)
    requires
        spec_load_exchanges(before, mid, base, plans, megamorphic),
        spec_load_exchange_allowed(exchange, base, plans, megamorphic),
        !spec_heard_pending(before, mid),
        exchange is BaseStructure ==> !spec_asked_base_structure(before, mid),
        exchange is PendingInvalidations ==> mid.len() == before.len(),
        !megamorphic && exchange is Probe ==> spec_passes_reported_guards(before, mid, exchange->Probe_request.plan),
        exchange is Probe && exchange->Probe_position is Some ==> forall|k: int|
            #![trigger mid[k]]
            before.len() <= k < mid.len() && mid[k] is Probe && mid[k]->Probe_position is Some
                ==> mid[k]->Probe_position->Some_0 < exchange->Probe_position->Some_0,
        !megamorphic && exchange is BaseStructure ==> spec_probes_pass_guard(
            before,
            mid,
            exchange->BaseStructure_structure,
        ),
    ensures
        spec_load_exchanges(before, mid.push(exchange), base, plans, megamorphic),
        exchange is BaseStructure ==> spec_asked_base_structure(before, mid.push(exchange)),
        !(exchange is BaseStructure) ==> (spec_asked_base_structure(before, mid.push(exchange)) == spec_asked_base_structure(before, mid)),
        exchange != (LoadHostExchange::PendingInvalidations { pending: true }) ==> !spec_heard_pending(before, mid.push(exchange)),
{
    let after = mid.push(exchange);
    assert(before.is_prefix_of(after)) by {
        assert forall|i: int| 0 <= i < before.len() implies before[i] == after[i] by {
            assert(before[i] == mid[i]);
        }
    }
    assert forall|k: int|
        #![trigger after[k]]
        before.len() <= k < after.len() implies spec_load_exchange_allowed(after[k], base, plans, megamorphic) by {
        if k < mid.len() {
            assert(after[k] == mid[k]);
        }
    }
    assert forall|k: int|
        #![trigger after[k]]
        before.len() <= k < after.len() && after[k] == (LoadHostExchange::PendingInvalidations { pending: true })
            implies k == after.len() - 1 by {
        if k < mid.len() {
            assert(after[k] == mid[k]);
            assert(spec_heard_pending(before, mid));
        }
    }
    assert forall|k: int|
        #![trigger after[k]]
        before.len() <= k < after.len() && after[k] is PendingInvalidations implies k == before.len() by {
        if k < mid.len() {
            assert(after[k] == mid[k]);
        }
    }
    assert forall|k1: int, k2: int|
        #![trigger after[k1], after[k2]]
        before.len() <= k1 < after.len() && before.len() <= k2 < after.len() && after[k1] is BaseStructure
            && after[k2] is BaseStructure implies k1 == k2 by {
        if k1 < mid.len() {
            assert(after[k1] == mid[k1]);
        }
        if k2 < mid.len() {
            assert(after[k2] == mid[k2]);
        }
        if k1 < mid.len() && k2 == mid.len() {
            assert(spec_asked_base_structure(before, mid));
        }
        if k2 < mid.len() && k1 == mid.len() {
            assert(spec_asked_base_structure(before, mid));
        }
    }
    assert forall|k1: int, k2: int|
        #![trigger after[k1], after[k2]]
        before.len() <= k1 < k2 < after.len() && after[k1] is Probe && after[k2] is Probe && after[k1]->Probe_position
            is Some && after[k2]->Probe_position is Some implies after[k1]->Probe_position->Some_0
            < after[k2]->Probe_position->Some_0 by {
        assert(after[k1] == mid[k1]);
        if k2 < mid.len() {
            assert(after[k2] == mid[k2]);
        }
    }
    if !megamorphic {
        assert forall|k1: int, k2: int|
            #![trigger after[k1], after[k2]]
            before.len() <= k1 < after.len() && before.len() <= k2 < after.len() && after[k1] is Probe
                && after[k2] is BaseStructure implies !spec_guard_misses(
                spec_load_guard_structure(after[k1]->Probe_request.plan),
                Some(after[k2]->BaseStructure_structure),
            ) by {
            if k1 < mid.len() {
                assert(after[k1] == mid[k1]);
            }
            if k2 < mid.len() {
                assert(after[k2] == mid[k2]);
            }
            if k1 == mid.len() && k2 < mid.len() {
                assert(mid[k2] is BaseStructure);
            }
            if k2 == mid.len() && k1 < mid.len() {
                assert(mid[k1] is Probe);
            }
        }
    }
    if exchange is BaseStructure {
        assert(after[mid.len() as int] is BaseStructure);
    } else {
        if spec_asked_base_structure(before, after) {
            let k = choose|k: int| before.len() <= k < after.len() && (#[trigger] after[k]) is BaseStructure;
            assert(after[k] == mid[k]);
        }
        if spec_asked_base_structure(before, mid) {
            let k = choose|k: int| before.len() <= k < mid.len() && (#[trigger] mid[k]) is BaseStructure;
            assert(after[k] == mid[k]);
        }
    }
    if exchange != (LoadHostExchange::PendingInvalidations { pending: true }) {
        if spec_heard_pending(before, after) {
            let k = choose|k: int|
                before.len() <= k < after.len() && (#[trigger] after[k]) == (LoadHostExchange::PendingInvalidations {
                    pending: true,
                });
            assert(after[k] == mid[k]);
        }
    }
}

/// The miss record of a load probe of `plan` that the host refused for `reason`.
pub open spec fn spec_property_load_probe_miss_record(
    plan: PropertyLoadAccessCasePlan,
    reason: GeneratedPropertyLoadProbeMissReason,
) -> BaselineGeneratedPropertyLoadProbeMissRecord {
    BaselineGeneratedPropertyLoadProbeMissRecord {
        owner: plan.owner,
        bytecode_index: BytecodeIndex { offset: plan.bytecode_index },
        key: plan.key,
        base_structure: plan.access_case.base_structure,
        offset: plan.access_case.offset,
        reason,
    }
}

/// Records a load probe of `plan` that the host refused.
pub fn record_property_load_probe_miss<H: DispatchHost>(
    sidecars: &mut BaselineGeneratedPropertyExecutionSidecars<'_, H>,
    plan: &PropertyLoadAccessCasePlan,
    reason: GeneratedPropertyLoadProbeMissReason,
)
    ensures
        final(sidecars).property_load_probe_miss_records@ == old(sidecars).property_load_probe_miss_records@.push(
            spec_property_load_probe_miss_record(*plan, reason),
        ),
        final(sidecars).dispatch_host == old(sidecars).dispatch_host,
        final(sidecars).load_host_exchanges == old(sidecars).load_host_exchanges,
        final(sidecars).store_host_exchanges == old(sidecars).store_host_exchanges,
        spec_same_plans(*old(sidecars), *final(sidecars)),
        final(sidecars).destination_root_sync_requests@ == old(sidecars).destination_root_sync_requests@,
        final(sidecars).guarded_property_load_probe_miss_records@ == old(sidecars).guarded_property_load_probe_miss_records@,
        final(sidecars).property_store_probe_miss_records@ == old(sidecars).property_store_probe_miss_records@,
        final(sidecars).property_store_mutation_rejection_records@ == old(sidecars).property_store_mutation_rejection_records@,
        final(sidecars).property_store_mutation_commit_records@ == old(sidecars).property_store_mutation_commit_records@,
        final(sidecars).generated_call_link_probe_miss_records@ == old(sidecars).generated_call_link_probe_miss_records@,
        final(sidecars).generated_call_link_probe_blocked_records@ == old(sidecars).generated_call_link_probe_blocked_records@,
        final(sidecars).generated_direct_call_hot_slot_hits == old(sidecars).generated_direct_call_hot_slot_hits,
{
    sidecars.property_load_probe_miss_records.push(
        BaselineGeneratedPropertyLoadProbeMissRecord {
            owner: plan.owner,
            bytecode_index: BytecodeIndex::from_offset(plan.bytecode_index),
            key: plan.key,
            base_structure: plan.access_case.base_structure,
            offset: plan.access_case.offset,
            reason,
        },
    );
}

/// The plans the plan table holds for `site`: those at its index, newest first, when the
/// table belongs to the site's code block.
pub open spec fn spec_load_site_plans<'a, H>(
    sidecars: BaselineGeneratedPropertyExecutionSidecars<'a, H>,
    site: BaselineGeneratedPropertyHandoffSite,
) -> Seq<PropertyLoadAccessCasePlan> {
    match sidecars.property_load_plan_table {
        Some(table) => if table.owner == site.owner {
            crate::ic::spec_matching_newest_first(table.plans@, crate::ic::spec_load_plan_at(site.bytecode_index.offset))
        } else {
            Seq::empty()
        },
        None => Seq::empty(),
    }
}

/// Whether `probed` is one of `plans`, or one of them with an element's runtime key.
pub open spec fn spec_probed_from(plans: Seq<PropertyLoadAccessCasePlan>, probed: PropertyLoadAccessCasePlan) -> bool {
    exists|k: int|
        0 <= k < plans.len() && (#[trigger] plans[k] == probed || exists|key: CacheKey|
            #[trigger] spec_load_plan_with_runtime_key(plans[k], key) == probed)
}

/// Every load-probe miss record added from `before` to `after` is the record of a probe
/// of one of `plans`.
pub open spec fn spec_load_misses_for_plans(
    before: Seq<BaselineGeneratedPropertyLoadProbeMissRecord>,
    after: Seq<BaselineGeneratedPropertyLoadProbeMissRecord>,
    plans: Seq<PropertyLoadAccessCasePlan>,
) -> bool {
    &&& before.len() <= after.len()
    &&& forall|k: int|
        #![trigger after[k]]
        before.len() <= k < after.len() ==> exists|
            probed: PropertyLoadAccessCasePlan,
            reason: GeneratedPropertyLoadProbeMissReason,
        |
            #![trigger spec_property_load_probe_miss_record(probed, reason)]
            spec_probed_from(plans, probed) && after[k] == spec_property_load_probe_miss_record(probed, reason)
}

proof fn lemma_load_miss_recorded<'a, H>(
    a: BaselineGeneratedPropertyExecutionSidecars<'a, H>,
    b: BaselineGeneratedPropertyExecutionSidecars<'a, H>,
    c: BaselineGeneratedPropertyExecutionSidecars<'a, H>,
    plans: Seq<PropertyLoadAccessCasePlan>,
    candidate: PropertyLoadAccessCasePlan,
    probed: PropertyLoadAccessCasePlan,
    reason: GeneratedPropertyLoadProbeMissReason,
)
    requires
        spec_load_misses_for_plans(a.property_load_probe_miss_records@, b.property_load_probe_miss_records@, plans),
        plans.contains(candidate),
        probed == candidate || exists|key: CacheKey| spec_load_plan_with_runtime_key(candidate, key) == probed,
        c.property_load_probe_miss_records@ == b.property_load_probe_miss_records@.push(
            spec_property_load_probe_miss_record(probed, reason),
        ),
    ensures
        spec_load_misses_for_plans(a.property_load_probe_miss_records@, c.property_load_probe_miss_records@, plans),
{
    let j = choose|j: int| 0 <= j < plans.len() && plans[j] == candidate;
    assert(plans[j] == candidate);
    if probed != candidate {
        let key = choose|key: CacheKey| spec_load_plan_with_runtime_key(candidate, key) == probed;
        assert(spec_load_plan_with_runtime_key(plans[j], key) == probed);
    }
    assert(spec_probed_from(plans, probed));
    let before = a.property_load_probe_miss_records@;
    let mid = b.property_load_probe_miss_records@;
    let after = c.property_load_probe_miss_records@;
    assert forall|k: int|
        #![trigger after[k]]
        before.len() <= k < after.len() implies exists|
            x: PropertyLoadAccessCasePlan,
            r: GeneratedPropertyLoadProbeMissReason,
        |
            #![trigger spec_property_load_probe_miss_record(x, r)]
            spec_probed_from(plans, x) && after[k] == spec_property_load_probe_miss_record(x, r) by {
        if k < mid.len() {
            assert(after[k] == mid[k]);
            let (x, r) = choose|x: PropertyLoadAccessCasePlan, r: GeneratedPropertyLoadProbeMissReason|
                #![trigger spec_property_load_probe_miss_record(x, r)]
                spec_probed_from(plans, x) && mid[k] == spec_property_load_probe_miss_record(x, r);
            assert(spec_probed_from(plans, x) && after[k] == spec_property_load_probe_miss_record(x, r));
        } else {
            assert(after[k] == spec_property_load_probe_miss_record(probed, reason));
        }
    }
}

/// Writes a loaded value into the destination and, when the host asked for it, records
/// a targeted root sync of that register.
pub fn finish_property_load_hit<H: DispatchHost>(
    sidecars: &mut BaselineGeneratedPropertyExecutionSidecars<'_, H>,
    execution: &mut InterpreterExecutionState,
    window: RegisterWindow,
    destination: VirtualRegister,
    hit: GeneratedPropertyLoadProbeHit,
    frame: CallFrameId,
    bytecode_index: BytecodeIndex,
    fallback: BaselineGeneratedFallbackSite,
) -> (r: Result<Option<BaselineInstructionOutcome>, BaselineInstructionAbort>)
    ensures
        spec_same_plans(*old(sidecars), *final(sidecars)),
        spec_load_records_extended(*old(sidecars), *final(sidecars)),
        final(sidecars).dispatch_host == old(sidecars).dispatch_host,
        final(sidecars).load_host_exchanges == old(sidecars).load_host_exchanges,
        final(sidecars).store_host_exchanges == old(sidecars).store_host_exchanges,
        final(sidecars).property_load_probe_miss_records@ == old(sidecars).property_load_probe_miss_records@,
        final(sidecars).guarded_property_load_probe_miss_records@ == old(sidecars).guarded_property_load_probe_miss_records@,
        final(execution).stack == old(execution).stack,
        final(execution).heap == old(execution).heap,
        ({
            let step = spec_write_step(old(execution).registers.slots@, window, destination, hit.value, fallback);
            &&& final(execution).registers.slots@ == step.1
            &&& r == match step.0 {
                Ok(outcome) => Ok::<Option<BaselineInstructionOutcome>, BaselineInstructionAbort>(Some(outcome)),
                Err(abort) => Err(abort),
            }
            &&& final(sidecars).destination_root_sync_requests@ == if step.0 is Ok && hit.destination_root_sync
                == DestinationRootSync::TargetedRegisterSync {
                old(sidecars).destination_root_sync_requests@.push(
                    BaselineGeneratedPropertyLoadDestinationRootSyncRequest { frame, bytecode_index, destination },
                )
            } else {
                old(sidecars).destination_root_sync_requests@
            }
        }),
{
    let outcome = write_register_or_outcome(execution, window, destination, hit.value, fallback)?;
    if hit.destination_root_sync.requires_targeted_register_sync() {
        sidecars.destination_root_sync_requests.push(
            BaselineGeneratedPropertyLoadDestinationRootSyncRequest { frame, bytecode_index, destination },
        );
    }
    Ok(Some(outcome))
}

/// How a load sidecar ends before it asks the host anything, when it does: a `get by
/// name` the megamorphic table serves without a key (`Ok(None)`), or, when the megamorphic
/// table does not take the site, load operands that cannot be read while the plan table
/// has plans for the site (their abort). `None`: the host may be asked.
pub open spec fn spec_load_settled<'a, H>(
    sidecars: BaselineGeneratedPropertyExecutionSidecars<'a, H>,
    execution: InterpreterExecutionState,
    attempt: PropertySidecarAttempt,
) -> Option<Result<Option<BaselineInstructionOutcome>, BaselineInstructionAbort>> {
    let site = attempt.site;
    let from_plans = spec_load_settled_by_plans(sidecars, execution, attempt);
    match sidecars.property_load_megamorphic_candidate_table {
        Some(table) => if table.owner == site.owner && site.opcode == CoreOpcode::GetByName {
            match spec_named_property_sidecar_cache_key(site) {
                None => Some(Ok::<Option<BaselineInstructionOutcome>, BaselineInstructionAbort>(None)),
                Some(key) => if crate::ic::spec_first_matching(
                    table.sites@,
                    crate::ic::spec_site_is(table.owner, site.slot, site.bytecode_index.offset, key),
                ) is Some {
                    None
                } else {
                    from_plans
                },
            }
        } else {
            from_plans
        },
        None => from_plans,
    }
}

/// The part of `spec_load_settled` that the plan table decides: unreadable operands while
/// it has plans for the site.
pub open spec fn spec_load_settled_by_plans<'a, H>(
    sidecars: BaselineGeneratedPropertyExecutionSidecars<'a, H>,
    execution: InterpreterExecutionState,
    attempt: PropertySidecarAttempt,
) -> Option<Result<Option<BaselineInstructionOutcome>, BaselineInstructionAbort>> {
    let site = attempt.site;
    match sidecars.property_load_plan_table {
        Some(table) => if table.owner == site.owner && crate::ic::spec_matching_newest_first(
            table.plans@,
            crate::ic::spec_load_plan_at(site.bytecode_index.offset),
        ).len() > 0 {
            match spec_property_load_sidecar_operands(
                execution,
                *attempt.code_block,
                attempt.window,
                *attempt.instruction,
                attempt.fallback,
            ) {
                Err(abort) => Some(Err(abort)),
                Ok(_) => None,
            }
        } else {
            None
        },
        None => None,
    }
}

/// The aborts a load sidecar can end with: reading its operands, or writing the loaded
/// value into the destination.
pub open spec fn spec_load_abort(
    execution: InterpreterExecutionState,
    attempt: PropertySidecarAttempt,
    abort: BaselineInstructionAbort,
) -> bool {
    ||| spec_property_load_sidecar_operands(
        execution,
        *attempt.code_block,
        attempt.window,
        *attempt.instruction,
        attempt.fallback,
    ) == Err::<(VirtualRegister, RuntimeValue, Option<CacheKey>), BaselineInstructionAbort>(abort)
    ||| spec_register_operand(*attempt.instruction, 0) is Ok && exists|value: RuntimeValue|
        #[trigger] spec_write_step(
            execution.registers.slots@,
            attempt.window,
            spec_register_operand(*attempt.instruction, 0)->Ok_0,
            value,
            attempt.fallback,
        ).0 == Err::<BaselineInstructionOutcome, BaselineInstructionAbort>(abort)
}

/// Finishes a property load without the interpreter, from the first source that answers:
/// the megamorphic table (for `get by name`), then the site's plans newest first, then
/// its guarded candidates. The host confirms every load; its refusals are recorded.
/// `Ok(None)` leaves the instruction to the interpreter with the registers untouched.
pub fn execute_property_load_sidecar_candidate<H: DispatchHost>(
    sidecars: &mut BaselineGeneratedPropertyExecutionSidecars<'_, H>,
    execution: &mut InterpreterExecutionState,
    attempt: PropertySidecarAttempt,
) -> (r: Result<Option<BaselineInstructionOutcome>, BaselineInstructionAbort>)
    ensures
        spec_same_plans(*old(sidecars), *final(sidecars)),
        spec_load_records_extended(*old(sidecars), *final(sidecars)),
        final(execution).stack == old(execution).stack,
        final(execution).heap == old(execution).heap,
        spec_load_sidecar_wrote(attempt, old(execution).registers.slots@, r, final(execution).registers.slots@),
        spec_load_site_unserved(*old(sidecars), attempt.site) ==> {
            &&& r == Ok::<Option<BaselineInstructionOutcome>, BaselineInstructionAbort>(None)
            &&& *final(sidecars) == *old(sidecars)
            &&& *final(execution) == *old(execution)
        },
        spec_load_settled(*old(sidecars), *old(execution), attempt) matches Some(settled) ==> {
            &&& r == settled
            &&& *final(sidecars) == *old(sidecars)
            &&& *final(execution) == *old(execution)
        },
        r matches Err(abort) ==> spec_load_abort(*old(execution), attempt, abort),
        !spec_load_megamorphic_takes(*old(sidecars), attempt.site) ==> spec_load_misses_for_plans(
            old(sidecars).property_load_probe_miss_records@,
            final(sidecars).property_load_probe_miss_records@,
            spec_load_site_plans(*old(sidecars), attempt.site),
        ),
        spec_load_exchanges(
            old(sidecars).load_host_exchanges@,
            final(sidecars).load_host_exchanges@,
            spec_load_base(*old(execution), attempt),
            spec_load_site_plans(*old(sidecars), attempt.site),
            spec_load_megamorphic_takes(*old(sidecars), attempt.site),
        ),
        final(sidecars).store_host_exchanges == old(sidecars).store_host_exchanges,
        r matches Ok(Some(_)) ==> spec_load_answer_written(
            old(sidecars).load_host_exchanges@,
            final(sidecars).load_host_exchanges@,
            attempt,
            old(execution).registers.slots@,
            final(execution).registers.slots@,
        ),
        spec_load_hit_answered(
            old(sidecars).load_host_exchanges@,
            final(sidecars).load_host_exchanges@,
            attempt,
            old(execution).registers.slots@,
            r,
            final(execution).registers.slots@,
        ),
        spec_heard_pending(old(sidecars).load_host_exchanges@, final(sidecars).load_host_exchanges@) ==> {
            &&& r == Ok::<Option<BaselineInstructionOutcome>, BaselineInstructionAbort>(None)
            &&& *final(execution) == *old(execution)
            &&& spec_records_unchanged(*old(sidecars), *final(sidecars))
        },
        spec_load_megamorphic_serves(*old(sidecars), attempt.site) ==> {
            &&& final(sidecars).load_host_exchanges@.len() > old(sidecars).load_host_exchanges@.len()
            &&& final(sidecars).load_host_exchanges@[old(sidecars).load_host_exchanges@.len() as int] is PendingInvalidations
        },
{
    let ghost log0 = old(sidecars).load_host_exchanges@;
    let ghost base0 = spec_load_base(*old(execution), attempt);
    let ghost plans0 = spec_load_site_plans(*old(sidecars), attempt.site);
    let ghost mega = spec_load_megamorphic_takes(*old(sidecars), attempt.site);
    let window = attempt.window;
    let code_block = attempt.code_block;
    let fallback = attempt.fallback;
    let instruction = attempt.instruction;
    let site = attempt.site;
    let frame = attempt.frame;
    let mut operands: Option<(VirtualRegister, RuntimeValue, Option<CacheKey>)> = None;
    let mut current_base_structure: Option<Option<StructureId>> = None;

    if let Some(megamorphic_table) = sidecars.property_load_megamorphic_candidate_table {
        if megamorphic_table.owner() == site.owner && site.opcode == CoreOpcode::GetByName {
            let site_key = match named_property_sidecar_cache_key(&site) {
                None => {
                    return Ok(None);
                },
                Some(key) => key,
            };
            if megamorphic_table.contains_site(site.slot, site.bytecode_index.offset(), site_key) {
                let ghost before_ask = sidecars.load_host_exchanges@;
                let pending = sidecars.ask_pending_invalidations();
                proof {
                    lemma_load_exchange_added(
                        log0,
                        before_ask,
                        LoadHostExchange::PendingInvalidations { pending },
                        base0,
                        plans0,
                        mega,
                    );
                }
                if pending {
                    return Ok(None);
                }
                let (destination, base, _) = property_load_sidecar_operands(
                    &mut operands,
                    execution,
                    code_block,
                    window,
                    instruction,
                    fallback,
                )?;
                let actual_structure = match current_base_structure {
                    Some(actual) => actual,
                    None => {
                        let ghost before_ask = sidecars.load_host_exchanges@;
                        let actual = sidecars.ask_base_structure(base);
                        proof {
                            lemma_load_exchange_added(
                                log0,
                                before_ask,
                                LoadHostExchange::BaseStructure { base, structure: actual },
                                base0,
                                plans0,
                                mega,
                            );
                        }
                        current_base_structure = Some(actual);
                        actual
                    },
                };
                let lookup = match actual_structure {
                    Some(actual) => megamorphic_table.lookup(site.slot, site.bytecode_index.offset(), site_key, actual),
                    None => {
                        return Ok(None);
                    },
                };
                match lookup {
                    GeneratedPropertyLoadMegamorphicLookup::NoSite => {},
                    GeneratedPropertyLoadMegamorphicLookup::Miss => {
                        return Ok(None);
                    },
                    GeneratedPropertyLoadMegamorphicLookup::Missing => {
                        let outcome = write_register_or_outcome(
                            execution,
                            window,
                            destination,
                            RuntimeValue::undefined(),
                            fallback,
                        )?;
                        return Ok(Some(outcome));
                    },
                    GeneratedPropertyLoadMegamorphicLookup::PrototypeData { key, base_structure, holder, offset } => {
                        let holder_request = GeneratedPropertyLoadMegamorphicHolderProbeRequest {
                            key,
                            base_structure,
                            holder,
                            offset,
                        };
                        let ghost before_ask = sidecars.load_host_exchanges@;
                        let result = sidecars.ask_holder_probe(holder_request);
                        proof {
                            lemma_load_exchange_added(
                                log0,
                                before_ask,
                                LoadHostExchange::HolderProbe { request: holder_request, answer: result },
                                base0,
                                plans0,
                                mega,
                            );
                        }
                        return match result {
                            GeneratedPropertyLoadProbeResult::Hit(hit) => finish_property_load_hit(
                                sidecars,
                                execution,
                                window,
                                destination,
                                hit,
                                frame,
                                site.bytecode_index,
                                fallback,
                            ),
                            GeneratedPropertyLoadProbeResult::Miss(miss) => {
                                sidecars.property_load_probe_miss_records.push(
                                    BaselineGeneratedPropertyLoadProbeMissRecord {
                                        owner: site.owner,
                                        bytecode_index: site.bytecode_index,
                                        key,
                                        base_structure: Some(base_structure),
                                        offset: Some(offset),
                                        reason: miss.reason,
                                    },
                                );
                                Ok(None)
                            },
                        };
                    },
                    GeneratedPropertyLoadMegamorphicLookup::Hit(plan) => {
                        let ghost before_ask = sidecars.load_host_exchanges@;
                        let result = sidecars.ask_load_probe(Ghost(None), GeneratedPropertyLoadProbeRequest { plan, base });
                        proof {
                            lemma_load_exchange_added(
                                log0,
                                before_ask,
                                LoadHostExchange::Probe {
                                    request: GeneratedPropertyLoadProbeRequest { plan, base },
                                    answer: result,
                                    position: None,
                                },
                                base0,
                                plans0,
                                mega,
                            );
                        }
                        return match result {
                            GeneratedPropertyLoadProbeResult::Hit(hit) => finish_property_load_hit(
                                sidecars,
                                execution,
                                window,
                                destination,
                                hit,
                                frame,
                                site.bytecode_index,
                                fallback,
                            ),
                            GeneratedPropertyLoadProbeResult::Miss(miss) => {
                                record_property_load_probe_miss(sidecars, &plan, miss.reason);
                                Ok(None)
                            },
                        };
                    },
                }
            }
        }
    }

    if let Some(plan_table) = sidecars.property_load_plan_table {
        if plan_table.owner() == site.owner {
            let plans = plan_table.candidates_for_bytecode_index_newest_first(site.bytecode_index.offset());
            let mut i: usize = 0;
            while i < plans.len()
                invariant
                    i <= plans@.len(),
                    old(sidecars).property_load_plan_table == Some(plan_table),
                    spec_load_site_unserved(*old(sidecars), attempt.site) ==> {
                        &&& *sidecars == *old(sidecars)
                        &&& plans@.len() == 0
                    },
                    plans@ == crate::ic::spec_matching_newest_first(
                        plan_table.plans@,
                        crate::ic::spec_load_plan_at(site.bytecode_index.offset),
                    ),
                    plan_table.owner == site.owner,
                    spec_load_settled(*old(sidecars), *old(execution), attempt) is Some ==> spec_load_settled(
                        *old(sidecars),
                        *old(execution),
                        attempt,
                    ) == spec_load_settled_by_plans(*old(sidecars), *old(execution), attempt),
                    i == 0 && spec_load_settled(*old(sidecars), *old(execution), attempt) is Some ==> {
                        &&& *sidecars == *old(sidecars)
                        &&& operands is None
                    },
                    i > 0 ==> spec_load_settled(*old(sidecars), *old(execution), attempt) is None,
                    plans@ == spec_load_site_plans(*old(sidecars), attempt.site),
                    !spec_load_megamorphic_takes(*old(sidecars), attempt.site) ==> spec_load_misses_for_plans(
                        old(sidecars).property_load_probe_miss_records@,
                        sidecars.property_load_probe_miss_records@,
                        spec_load_site_plans(*old(sidecars), attempt.site),
                    ),
                    spec_load_exchanges(log0, sidecars.load_host_exchanges@, base0, plans0, mega),
                    spec_load_megamorphic_serves(*old(sidecars), attempt.site) ==> {
                        &&& sidecars.load_host_exchanges@.len() > log0.len()
                        &&& sidecars.load_host_exchanges@[log0.len() as int] is PendingInvalidations
                    },
                    !spec_heard_pending(log0, sidecars.load_host_exchanges@),
                    current_base_structure is None ==> !spec_asked_base_structure(log0, sidecars.load_host_exchanges@),
                    operands is Some ==> spec_property_load_sidecar_operands(
                        *old(execution),
                        *attempt.code_block,
                        attempt.window,
                        *attempt.instruction,
                        attempt.fallback,
                    ) == Ok::<(VirtualRegister, RuntimeValue, Option<CacheKey>), BaselineInstructionAbort>(operands->Some_0),
                    forall|k: int|
                        #![trigger sidecars.load_host_exchanges@[k]]
                        log0.len() <= k < sidecars.load_host_exchanges@.len()
                            && sidecars.load_host_exchanges@[k] is BaseStructure ==> current_base_structure == Some(
                            sidecars.load_host_exchanges@[k]->BaseStructure_structure,
                        ),
                    current_base_structure is None ==> forall|k: int|
                        #![trigger sidecars.load_host_exchanges@[k]]
                        log0.len() <= k < sidecars.load_host_exchanges@.len() && sidecars.load_host_exchanges@[k] is Probe
                            ==> spec_load_guard_structure(sidecars.load_host_exchanges@[k]->Probe_request.plan) is None,
                    forall|k: int|
                        #![trigger sidecars.load_host_exchanges@[k]]
                        log0.len() <= k < sidecars.load_host_exchanges@.len() && sidecars.load_host_exchanges@[k] is Probe
                            && sidecars.load_host_exchanges@[k]->Probe_position is Some
                            ==> sidecars.load_host_exchanges@[k]->Probe_position->Some_0 < i,
                    log0 == old(sidecars).load_host_exchanges@,
                    !spec_last_load_exchange_hit(log0, sidecars.load_host_exchanges@),
                    sidecars.store_host_exchanges == old(sidecars).store_host_exchanges,
                    base0 == spec_load_base(*old(execution), attempt),
                    plans0 == spec_load_site_plans(*old(sidecars), attempt.site),
                    mega == spec_load_megamorphic_takes(*old(sidecars), attempt.site),
                    spec_same_plans(*old(sidecars), *sidecars),
                    spec_load_records_extended(*old(sidecars), *sidecars),
                    *execution == *old(execution),
                    operands is Some ==> {
                        &&& spec_register_operand(*instruction, 0) is Ok
                        &&& operands->Some_0.0 == spec_register_operand(*instruction, 0)->Ok_0
                    },
                    window == attempt.window,
                    instruction == attempt.instruction,
                    fallback == attempt.fallback,
                    code_block == attempt.code_block,
                    frame == attempt.frame,
                    site == attempt.site,
                decreases plans@.len() - i,
            {
                let candidate = plans[i];
                assert(plans@.contains(candidate)) by {
                    assert(plans@[i as int] == candidate);
                }
                i = i + 1;
                let (destination, base, runtime_key) = property_load_sidecar_operands(
                    &mut operands,
                    execution,
                    code_block,
                    window,
                    instruction,
                    fallback,
                )?;
                let plan = if site.opcode == CoreOpcode::GetByName || site.opcode == CoreOpcode::GetGlobalObjectProperty
                    || site.opcode == CoreOpcode::GetLength {
                    let site_key = match named_property_sidecar_cache_key(&site) {
                        None => {
                            return Ok(None);
                        },
                        Some(key) => key,
                    };
                    if candidate.plan_kind != PropertyLoadAccessCasePlanKind::DataOnlyOwnLoad || candidate.key != site_key {
                        continue;
                    }
                    assert(spec_probed_from(plans@, candidate)) by {
                        assert(plans@[i - 1] == candidate);
                    }
                    assert(plans@[i - 1] == candidate);
                    candidate
                } else if site.opcode == CoreOpcode::GetByValue {
                    if candidate.plan_kind != PropertyLoadAccessCasePlanKind::DataOnlyIndexedLoad {
                        continue;
                    }
                    match runtime_key {
                        None => {
                            return Ok(None);
                        },
                        Some(key) => {
                            let keyed = property_load_plan_with_runtime_key(&candidate, key);
                            assert(spec_probed_from(plans@, keyed)) by {
                                assert(plans@[i - 1] == candidate);
                                assert(spec_load_plan_with_runtime_key(plans@[i - 1], key) == keyed);
                            }
                            keyed
                        },
                    }
                } else {
                    return Ok(None);
                };
                let ghost before_guard = sidecars.load_host_exchanges@;
                let ghost cache_before_guard = current_base_structure;
                let guard_misses = property_load_sidecar_structure_guard_misses(
                    sidecars,
                    &mut current_base_structure,
                    base,
                    &plan,
                );
                proof {
                    if spec_load_guard_structure(plan) is Some && cache_before_guard is None {
                        lemma_load_exchange_added(
                            log0,
                            before_guard,
                            LoadHostExchange::BaseStructure { base, structure: current_base_structure->Some_0 },
                            base0,
                            plans0,
                            mega,
                        );
                    }
                }
                if guard_misses {
                    continue;
                }
                let ghost before_ask = sidecars.load_host_exchanges@;
                let result = sidecars.ask_load_probe(
                    Ghost(Some((i - 1) as usize)),
                    GeneratedPropertyLoadProbeRequest { plan, base },
                );
                proof {
                    lemma_load_exchange_added(
                        log0,
                        before_ask,
                        LoadHostExchange::Probe {
                            request: GeneratedPropertyLoadProbeRequest { plan, base },
                            answer: result,
                            position: Some((i - 1) as usize),
                        },
                        base0,
                        plans0,
                        mega,
                    );
                }
                match result {
                    GeneratedPropertyLoadProbeResult::Hit(hit) => {
                        return finish_property_load_hit(
                            sidecars,
                            execution,
                            window,
                            destination,
                            hit,
                            frame,
                            site.bytecode_index,
                            fallback,
                        );
                    },
                    GeneratedPropertyLoadProbeResult::Miss(miss) => {
                        let ghost before_record = *sidecars;
                        record_property_load_probe_miss(sidecars, &plan, miss.reason);
                        proof {
                            if !spec_load_megamorphic_takes(*old(sidecars), attempt.site) {
                                lemma_load_miss_recorded(
                                    *old(sidecars),
                                    before_record,
                                    *sidecars,
                                    spec_load_site_plans(*old(sidecars), attempt.site),
                                    candidate,
                                    plan,
                                    miss.reason,
                                );
                            }
                        }
                    },
                }
            }
        }
    }

    assert(spec_load_settled(*old(sidecars), *old(execution), attempt) is None);
    if let Some(guarded_table) = sidecars.property_load_guarded_candidate_table {
        if guarded_table.owner() == site.owner {
            let positions = guarded_table.candidates_for_bytecode_index(site.bytecode_index.offset());
            let mut i: usize = 0;
            while i < positions.len()
                invariant
                    i <= positions@.len(),
                    forall|k: int| 0 <= k < positions@.len() ==> #[trigger] positions@[k] < guarded_table.candidates@.len(),
                    old(sidecars).property_load_guarded_candidate_table == Some(guarded_table),
                    spec_load_settled(*old(sidecars), *old(execution), attempt) is None,
                    !spec_load_megamorphic_takes(*old(sidecars), attempt.site) ==> spec_load_misses_for_plans(
                        old(sidecars).property_load_probe_miss_records@,
                        sidecars.property_load_probe_miss_records@,
                        spec_load_site_plans(*old(sidecars), attempt.site),
                    ),
                    spec_load_site_unserved(*old(sidecars), attempt.site) ==> {
                        &&& *sidecars == *old(sidecars)
                        &&& positions@.len() == 0
                    },
                    spec_load_exchanges(log0, sidecars.load_host_exchanges@, base0, plans0, mega),
                    spec_load_megamorphic_serves(*old(sidecars), attempt.site) ==> {
                        &&& sidecars.load_host_exchanges@.len() > log0.len()
                        &&& sidecars.load_host_exchanges@[log0.len() as int] is PendingInvalidations
                    },
                    !spec_heard_pending(log0, sidecars.load_host_exchanges@),
                    current_base_structure is None ==> !spec_asked_base_structure(log0, sidecars.load_host_exchanges@),
                    operands is Some ==> spec_property_load_sidecar_operands(
                        *old(execution),
                        *attempt.code_block,
                        attempt.window,
                        *attempt.instruction,
                        attempt.fallback,
                    ) == Ok::<(VirtualRegister, RuntimeValue, Option<CacheKey>), BaselineInstructionAbort>(operands->Some_0),
                    forall|k: int|
                        #![trigger sidecars.load_host_exchanges@[k]]
                        log0.len() <= k < sidecars.load_host_exchanges@.len()
                            && sidecars.load_host_exchanges@[k] is BaseStructure ==> current_base_structure == Some(
                            sidecars.load_host_exchanges@[k]->BaseStructure_structure,
                        ),
                    current_base_structure is None ==> forall|k: int|
                        #![trigger sidecars.load_host_exchanges@[k]]
                        log0.len() <= k < sidecars.load_host_exchanges@.len() && sidecars.load_host_exchanges@[k] is Probe
                            ==> spec_load_guard_structure(sidecars.load_host_exchanges@[k]->Probe_request.plan) is None,
                    log0 == old(sidecars).load_host_exchanges@,
                    !spec_last_load_exchange_hit(log0, sidecars.load_host_exchanges@),
                    sidecars.store_host_exchanges == old(sidecars).store_host_exchanges,
                    base0 == spec_load_base(*old(execution), attempt),
                    plans0 == spec_load_site_plans(*old(sidecars), attempt.site),
                    mega == spec_load_megamorphic_takes(*old(sidecars), attempt.site),
                    spec_same_plans(*old(sidecars), *sidecars),
                    spec_load_records_extended(*old(sidecars), *sidecars),
                    *execution == *old(execution),
                    operands is Some ==> {
                        &&& spec_register_operand(*instruction, 0) is Ok
                        &&& operands->Some_0.0 == spec_register_operand(*instruction, 0)->Ok_0
                    },
                    window == attempt.window,
                    instruction == attempt.instruction,
                    fallback == attempt.fallback,
                    code_block == attempt.code_block,
                    frame == attempt.frame,
                    site == attempt.site,
                decreases positions@.len() - i,
            {
                let candidate = &guarded_table.candidates[positions[i]];
                i = i + 1;
                if !(site.opcode == CoreOpcode::GetByName || site.opcode == CoreOpcode::GetLength) {
                    continue;
                }
                let site_key = match named_property_sidecar_cache_key(&site) {
                    None => {
                        return Ok(None);
                    },
                    Some(key) => key,
                };
                let plan = candidate.plan;
                if plan.descriptor.key != site_key {
                    continue;
                }
                let (destination, base, _) = property_load_sidecar_operands(
                    &mut operands,
                    execution,
                    code_block,
                    window,
                    instruction,
                    fallback,
                )?;
                let ghost before_ask = sidecars.load_host_exchanges@;
                let result = sidecars.ask_guarded_probe(GeneratedGuardedPropertyLoadProbeRequest { plan, base });
                proof {
                    lemma_load_exchange_added(
                        log0,
                        before_ask,
                        LoadHostExchange::GuardedProbe {
                            request: GeneratedGuardedPropertyLoadProbeRequest { plan, base },
                            answer: result,
                        },
                        base0,
                        plans0,
                        mega,
                    );
                }
                match result {
                    GeneratedGuardedPropertyLoadProbeResult::Hit(hit) => {
                        return finish_property_load_hit(
                            sidecars,
                            execution,
                            window,
                            destination,
                            hit,
                            frame,
                            site.bytecode_index,
                            fallback,
                        );
                    },
                    GeneratedGuardedPropertyLoadProbeResult::Miss(miss) => {
                        let record = BaselineGeneratedGuardedPropertyLoadProbeMissRecord {
                            owner: plan.owner,
                            bytecode_index: BytecodeIndex::from_offset(plan.bytecode_index),
                            slot: plan.slot,
                            guard_plan_ordinal: candidate.guard_plan_ordinal,
                            materialization_ordinal: candidate.materialization_ordinal,
                            dependency_ordinals: candidate.dependency_ordinals.clone(),
                            binding_set_ids: candidate.binding_set_ids.clone(),
                            candidate_kind: candidate.candidate_kind,
                            base_structure: plan.descriptor.base_structure,
                            reason: miss.reason,
                            requirement: miss.requirement,
                            key: miss.key,
                            prototype_depth: miss.prototype_depth,
                            chain_index: miss.chain_index,
                            outcome: miss.outcome,
                        };
                        sidecars.guarded_property_load_probe_miss_records.push(record);
                    },
                }
            }
        }
    }
    Ok(None)
}


/// The base, stored value and (for an element store) element key of a store instruction.
pub open spec fn spec_property_store_sidecar_operands(
    execution: InterpreterExecutionState,
    code_block: CodeBlock,
    window: RegisterWindow,
    instruction: TypedInstruction,
    fallback: BaselineGeneratedFallbackSite,
) -> Result<(RuntimeValue, RuntimeValue, Option<CacheKey>), BaselineInstructionAbort> {
    let slots = execution.registers.slots@;
    let base_and_value_register: Result<(RuntimeValue, VirtualRegister), BaselineInstructionAbort> =
        if instruction.opcode == Opcode::Core(CoreOpcode::PutGlobalObjectProperty) {
        match spec_active_global_this_value(execution.stack) {
            Err(error) => Err(BaselineInstructionAbort::Error(BaselineGeneratedExecutionError::Execution(error))),
            Ok(base) => match spec_register_operand_or_fallback(instruction, 1, fallback) {
                Err(abort) => Err(abort),
                Ok(value_register) => Ok((base, value_register)),
            },
        }
    } else {
        match spec_register_operand_or_fallback(instruction, 0, fallback) {
            Err(abort) => Err(abort),
            Ok(base_register) => match spec_read_register_or_outcome(slots, code_block, window, base_register, fallback) {
                Err(abort) => Err(abort),
                Ok(base) => match spec_register_operand_or_fallback(instruction, 2, fallback) {
                    Err(abort) => Err(abort),
                    Ok(value_register) => Ok((base, value_register)),
                },
            },
        }
    };
    match base_and_value_register {
        Err(abort) => Err(abort),
        Ok((base, value_register)) => match spec_read_register_or_outcome(slots, code_block, window, value_register, fallback) {
            Err(abort) => Err(abort),
            Ok(stored_value) => if instruction.opcode == Opcode::Core(CoreOpcode::PutByValue) {
                match spec_register_operand_or_fallback(instruction, 1, fallback) {
                    Err(abort) => Err(abort),
                    Ok(key_register) => match spec_read_register_or_outcome(slots, code_block, window, key_register, fallback) {
                        Err(abort) => Err(abort),
                        Ok(key) => Ok((base, stored_value, spec_element_sidecar_cache_key_from_runtime_value(key))),
                    },
                }
            } else {
                Ok((base, stored_value, None))
            },
        },
    }
}

/// The store operands, read once: a cached read is returned as it was.
pub fn property_store_sidecar_operands(
    operands: &mut Option<(RuntimeValue, RuntimeValue, Option<CacheKey>)>,
    execution: &InterpreterExecutionState,
    code_block: &CodeBlock,
    window: RegisterWindow,
    instruction: &TypedInstruction,
    fallback: BaselineGeneratedFallbackSite,
) -> (r: Result<(RuntimeValue, RuntimeValue, Option<CacheKey>), BaselineInstructionAbort>)
    ensures
        match *old(operands) {
            Some(cached) => r == Ok::<(RuntimeValue, RuntimeValue, Option<CacheKey>), BaselineInstructionAbort>(cached)
                && *final(operands) == *old(operands),
            None => r == spec_property_store_sidecar_operands(*execution, *code_block, window, *instruction, fallback)
                && *final(operands) == (match r {
                    Ok(read) => Some(read),
                    Err(_) => None,
                }),
        },
{
    if let Some(cached) = *operands {
        return Ok(cached);
    }
    let (base, value_register) = if instruction.opcode == Opcode::Core(CoreOpcode::PutGlobalObjectProperty) {
        let base = match execution.stack.active_global_this_value() {
            Err(error) => {
                return Err(execution_error_abort(error));
            },
            Ok(base) => base,
        };
        (base, register_operand_or_fallback(instruction, 1, fallback)?)
    } else {
        let base_register = register_operand_or_fallback(instruction, 0, fallback)?;
        let base = read_register_or_outcome(execution, code_block, window, base_register, fallback)?;
        (base, register_operand_or_fallback(instruction, 2, fallback)?)
    };
    let stored_value = read_register_or_outcome(execution, code_block, window, value_register, fallback)?;
    let runtime_key = if instruction.opcode == Opcode::Core(CoreOpcode::PutByValue) {
        let key_register = register_operand_or_fallback(instruction, 1, fallback)?;
        let key = read_register_or_outcome(execution, code_block, window, key_register, fallback)?;
        element_sidecar_cache_key_from_runtime_value(key)
    } else {
        None
    };
    let read = (base, stored_value, runtime_key);
    *operands = Some(read);
    Ok(read)
}

/// Whether a store plan's structure guard applies: a replacement or transition that
/// names a real base structure.
pub open spec fn spec_store_guard_structure(plan: PropertyStoreAccessCasePlan) -> Option<StructureId> {
    if plan.plan_kind == PropertyStoreAccessCasePlanKind::DataOnlyIndexedStore {
        None
    } else {
        match plan.access_case.base_structure {
            Some(expected) => if expected == spec_invalid_structure() {
                None
            } else {
                Some(expected)
            },
            None => None,
        }
    }
}

/// The structure guard of a store plan, asking the host at most once per instruction.
pub fn property_store_sidecar_structure_guard_misses<H: DispatchHost>(
    dispatch_host: &mut H,
    current_base_structure: &mut Option<Option<StructureId>>,
    base: RuntimeValue,
    plan: &PropertyStoreAccessCasePlan,
) -> (r: bool)
    ensures
        spec_store_guard_structure(*plan) is None || (*old(current_base_structure)) is Some ==> {
            &&& *final(dispatch_host) == *old(dispatch_host)
            &&& *final(current_base_structure) == *old(current_base_structure)
        },
        spec_store_guard_structure(*plan) is Some ==> (*final(current_base_structure)) is Some,
        r == spec_guard_misses(spec_store_guard_structure(*plan), *final(current_base_structure)),
{
    if plan.plan_kind == PropertyStoreAccessCasePlanKind::DataOnlyIndexedStore {
        return false;
    }
    let expected = match plan.access_case.base_structure {
        None => {
            return false;
        },
        Some(expected) => expected,
    };
    if expected == StructureId::invalid() {
        return false;
    }
    let actual = match *current_base_structure {
        Some(actual) => actual,
        None => {
            let actual = dispatch_host.generated_property_sidecar_base_structure(base);
            *current_base_structure = Some(actual);
            actual
        },
    };
    match actual {
        Some(actual) => actual != expected,
        None => false,
    }
}

/// Only the store records grew.
pub open spec fn spec_store_records_extended<'a, H>(
    a: BaselineGeneratedPropertyExecutionSidecars<'a, H>,
    b: BaselineGeneratedPropertyExecutionSidecars<'a, H>,
) -> bool {
    &&& a.destination_root_sync_requests@ == b.destination_root_sync_requests@
    &&& a.property_load_probe_miss_records@ == b.property_load_probe_miss_records@
    &&& a.guarded_property_load_probe_miss_records@ == b.guarded_property_load_probe_miss_records@
    &&& a.property_store_probe_miss_records@.is_prefix_of(b.property_store_probe_miss_records@)
    &&& a.property_store_mutation_rejection_records@.is_prefix_of(b.property_store_mutation_rejection_records@)
    &&& a.property_store_mutation_commit_records@.is_prefix_of(b.property_store_mutation_commit_records@)
    &&& a.generated_call_link_probe_miss_records@ == b.generated_call_link_probe_miss_records@
    &&& a.generated_call_link_probe_blocked_records@ == b.generated_call_link_probe_blocked_records@
    &&& a.generated_direct_call_hot_slot_hits == b.generated_direct_call_hot_slot_hits
}

/// The probe-miss records that the store exchanges in `log` call for, in order: one for
/// each candidate probe the host missed.
pub open spec fn spec_store_misses_of(log: Seq<StoreHostExchange>) -> Seq<BaselineGeneratedPropertyStoreProbeMissRecord>
    decreases log.len(),
{
    if log.len() == 0 {
        Seq::empty()
    } else {
        let earlier = spec_store_misses_of(log.drop_last());
        match log.last() {
            StoreHostExchange::Probe { candidate: Some(candidate), answer: GeneratedPropertyStoreProbeResult::Miss(miss), .. } => earlier.push(
                spec_property_store_probe_miss_record(candidate, miss.reason),
            ),
            _ => earlier,
        }
    }
}

/// The rejection records that the store exchanges in `log` call for: one for each
/// candidate commit the host rejected.
pub open spec fn spec_store_rejections_of(log: Seq<StoreHostExchange>) -> Seq<
    BaselineGeneratedPropertyStoreMutationRejectionRecord,
>
    decreases log.len(),
{
    if log.len() == 0 {
        Seq::empty()
    } else {
        let earlier = spec_store_rejections_of(log.drop_last());
        match log.last() {
            StoreHostExchange::Commit {
                candidate: Some(candidate),
                answer: GeneratedPropertyStoreMutationResult::Rejected(rejection),
                ..
            } => earlier.push(spec_property_store_mutation_rejection_record(candidate, rejection.reason)),
            _ => earlier,
        }
    }
}

/// The commit records that the store exchanges in `log` call for: one for each candidate
/// commit the host performed.
pub open spec fn spec_store_commits_of(log: Seq<StoreHostExchange>) -> Seq<BaselineGeneratedPropertyStoreMutationCommitRecord>
    decreases log.len(),
{
    if log.len() == 0 {
        Seq::empty()
    } else {
        let earlier = spec_store_commits_of(log.drop_last());
        match log.last() {
            StoreHostExchange::Commit {
                candidate: Some(candidate),
                answer: GeneratedPropertyStoreMutationResult::Committed(commit),
                ..
            } => earlier.push(spec_property_store_mutation_commit_record(candidate, commit)),
            _ => earlier,
        }
    }
}

/// The store records from `a` to `b` are exactly those the store exchanges between them
/// call for.
pub open spec fn spec_store_records_follow_exchanges<'a, H>(
    a: BaselineGeneratedPropertyExecutionSidecars<'a, H>,
    b: BaselineGeneratedPropertyExecutionSidecars<'a, H>,
) -> bool {
    let new = b.store_host_exchanges@.subrange(a.store_host_exchanges@.len() as int, b.store_host_exchanges@.len() as int);
    &&& a.store_host_exchanges@.is_prefix_of(b.store_host_exchanges@)
    &&& b.property_store_probe_miss_records@ == a.property_store_probe_miss_records@ + spec_store_misses_of(new)
    &&& b.property_store_mutation_rejection_records@ == a.property_store_mutation_rejection_records@
        + spec_store_rejections_of(new)
    &&& b.property_store_mutation_commit_records@ == a.property_store_mutation_commit_records@ + spec_store_commits_of(new)
}

proof fn lemma_store_records_follow_start<'a, H>(a: BaselineGeneratedPropertyExecutionSidecars<'a, H>)
    ensures
        spec_store_records_follow_exchanges(a, a),
{
    let new = a.store_host_exchanges@.subrange(a.store_host_exchanges@.len() as int, a.store_host_exchanges@.len() as int);
    assert(new =~= Seq::<StoreHostExchange>::empty());
    assert(a.property_store_probe_miss_records@ + spec_store_misses_of(new) =~= a.property_store_probe_miss_records@);
    assert(a.property_store_mutation_rejection_records@ + spec_store_rejections_of(new)
        =~= a.property_store_mutation_rejection_records@);
    assert(a.property_store_mutation_commit_records@ + spec_store_commits_of(new)
        =~= a.property_store_mutation_commit_records@);
    assert(a.store_host_exchanges@.is_prefix_of(a.store_host_exchanges@)) by {
        assert(a.store_host_exchanges@.subrange(0, a.store_host_exchanges@.len() as int) =~= a.store_host_exchanges@);
    }
}

proof fn lemma_store_folds_of_one(exchange: StoreHostExchange)
    ensures
        spec_store_misses_of(seq![exchange]) == (match exchange {
            StoreHostExchange::Probe {
                candidate: Some(candidate),
                answer: GeneratedPropertyStoreProbeResult::Miss(miss),
                ..
            } => seq![spec_property_store_probe_miss_record(candidate, miss.reason)],
            _ => Seq::empty(),
        }),
        spec_store_rejections_of(seq![exchange]) == (match exchange {
            StoreHostExchange::Commit {
                candidate: Some(candidate),
                answer: GeneratedPropertyStoreMutationResult::Rejected(rejection),
                ..
            } => seq![spec_property_store_mutation_rejection_record(candidate, rejection.reason)],
            _ => Seq::empty(),
        }),
        spec_store_commits_of(seq![exchange]) == (match exchange {
            StoreHostExchange::Commit {
                candidate: Some(candidate),
                answer: GeneratedPropertyStoreMutationResult::Committed(commit),
                ..
            } => seq![spec_property_store_mutation_commit_record(candidate, commit)],
            _ => Seq::empty(),
        }),
{
    let one = seq![exchange];
    assert(one.drop_last() =~= Seq::<StoreHostExchange>::empty());
    assert(one.last() == exchange);
    assert(spec_store_misses_of(one.drop_last()) == Seq::<BaselineGeneratedPropertyStoreProbeMissRecord>::empty());
    assert(spec_store_rejections_of(one.drop_last())
        == Seq::<BaselineGeneratedPropertyStoreMutationRejectionRecord>::empty());
    assert(spec_store_commits_of(one.drop_last()) == Seq::<BaselineGeneratedPropertyStoreMutationCommitRecord>::empty());
    match exchange {
        StoreHostExchange::Probe { candidate: Some(candidate), answer: GeneratedPropertyStoreProbeResult::Miss(miss), .. } => {
            assert(Seq::<BaselineGeneratedPropertyStoreProbeMissRecord>::empty().push(
                spec_property_store_probe_miss_record(candidate, miss.reason),
            ) =~= seq![spec_property_store_probe_miss_record(candidate, miss.reason)]);
        },
        StoreHostExchange::Commit {
            candidate: Some(candidate),
            answer: GeneratedPropertyStoreMutationResult::Rejected(rejection),
            ..
        } => {
            assert(Seq::<BaselineGeneratedPropertyStoreMutationRejectionRecord>::empty().push(
                spec_property_store_mutation_rejection_record(candidate, rejection.reason),
            ) =~= seq![spec_property_store_mutation_rejection_record(candidate, rejection.reason)]);
        },
        StoreHostExchange::Commit {
            candidate: Some(candidate),
            answer: GeneratedPropertyStoreMutationResult::Committed(commit),
            ..
        } => {
            assert(Seq::<BaselineGeneratedPropertyStoreMutationCommitRecord>::empty().push(
                spec_property_store_mutation_commit_record(candidate, commit),
            ) =~= seq![spec_property_store_mutation_commit_record(candidate, commit)]);
        },
        _ => {},
    }
}

proof fn lemma_store_follow_from_same<'a, H>(
    a: BaselineGeneratedPropertyExecutionSidecars<'a, H>,
    b: BaselineGeneratedPropertyExecutionSidecars<'a, H>,
    c: BaselineGeneratedPropertyExecutionSidecars<'a, H>,
)
    requires
        a.store_host_exchanges == b.store_host_exchanges,
        a.property_store_probe_miss_records@ == b.property_store_probe_miss_records@,
        a.property_store_mutation_rejection_records@ == b.property_store_mutation_rejection_records@,
        a.property_store_mutation_commit_records@ == b.property_store_mutation_commit_records@,
        spec_store_records_follow_exchanges(b, c),
    ensures
        spec_store_records_follow_exchanges(a, c),
{
}

/// Whether the last store exchange from `a` to `b` is a commit the host performed.
pub open spec fn spec_store_ends_committed<'a, H>(
    a: BaselineGeneratedPropertyExecutionSidecars<'a, H>,
    b: BaselineGeneratedPropertyExecutionSidecars<'a, H>,
) -> bool {
    &&& b.store_host_exchanges@.len() > a.store_host_exchanges@.len()
    &&& b.store_host_exchanges@.last() matches StoreHostExchange::Commit {
        answer: GeneratedPropertyStoreMutationResult::Committed(_),
        ..
    }
}

/// The store a sidecar asks the host to commit after probing: a hit's store on `base`;
/// after a miss, none.
pub open spec fn spec_property_store_commit_request(
    base: RuntimeValue,
    answer: GeneratedPropertyStoreProbeResult,
) -> Option<GeneratedPropertyStoreMutationRequest> {
    match answer {
        GeneratedPropertyStoreProbeResult::Hit(hit) => Some(GeneratedPropertyStoreMutationRequest { base, probe_hit: hit }),
        GeneratedPropertyStoreProbeResult::Miss(_) => None,
    }
}

/// The plan a store sidecar probes for `candidate`: the candidate's own plan for a named
/// store, that plan keyed by the element key read for a store by value.
pub open spec fn spec_store_candidate_probe_plan(
    site: BaselineGeneratedPropertyHandoffSite,
    candidate: PropertyStoreMutationCandidate,
    runtime_key: Option<CacheKey>,
) -> PropertyStoreAccessCasePlan {
    if site.opcode == CoreOpcode::PutByValue {
        spec_store_plan_with_runtime_key(candidate.plan, runtime_key->Some_0)
    } else {
        candidate.plan
    }
}

/// Whether a store sidecar may probe `plan` for `candidate`: a candidate of the site, with
/// its plan (keyed by the element key read for a store by value); or, without a
/// candidate, a plan the megamorphic table holds for the site's named key and some
/// structure (a data replacement for a global-object store).
pub open spec fn spec_store_probe_plan_served(
    site: BaselineGeneratedPropertyHandoffSite,
    candidates: Seq<PropertyStoreMutationCandidate>,
    megamorphic: Option<GeneratedPropertyStoreMegamorphicCandidateTable>,
    candidate: Option<PropertyStoreMutationCandidate>,
    plan: PropertyStoreAccessCasePlan,
    runtime_key: Option<CacheKey>,
) -> bool {
    match candidate {
        Some(c) => candidates.contains(c) && plan == spec_store_candidate_probe_plan(site, c, runtime_key),
        None => {
            &&& megamorphic matches Some(table)
            &&& spec_named_property_sidecar_cache_key(site) matches Some(key)
            &&& exists|structure: StructureId|
                #[trigger] spec_store_megamorphic_lookup(table, site.slot, site.bytecode_index.offset, key, structure)
                    == GeneratedPropertyStoreMegamorphicLookup::Hit(plan)
            &&& site.opcode == CoreOpcode::PutGlobalObjectProperty ==> plan.plan_kind
                == PropertyStoreAccessCasePlanKind::DataOnlyReplace
        },
    }
}

/// The `k`th of the store exchanges `new` keeps to the sidecar's protocol, for the base,
/// stored value and element key it read: a probe asks about that base and value, for one
/// of `candidates` with its plan (or, without a candidate, for the megamorphic table's
/// plan); a probe the host hits is followed at once by the commit of that hit on the base,
/// made for the same candidate; a commit follows such a hit; and a commit the host
/// performed is the last exchange.
pub open spec fn spec_store_exchange_keeps_protocol(
    new: Seq<StoreHostExchange>,
    k: int,
    site: BaselineGeneratedPropertyHandoffSite,
    operands: (RuntimeValue, RuntimeValue, Option<CacheKey>),
    candidates: Seq<PropertyStoreMutationCandidate>,
    megamorphic: Option<GeneratedPropertyStoreMegamorphicCandidateTable>,
) -> bool {
    let (base, stored_value, runtime_key) = operands;
    match new[k] {
        StoreHostExchange::Probe { candidate, request, answer } => {
            &&& request.base == base
            &&& request.stored_value == stored_value
            &&& spec_store_probe_plan_served(site, candidates, megamorphic, candidate, request.plan, runtime_key)
            &&& match spec_property_store_commit_request(base, answer) {
                Some(commit_request) => {
                    &&& k + 1 < new.len()
                    &&& match new[k + 1] {
                        StoreHostExchange::Commit { candidate: next, request: next_request, .. } => next == candidate
                            && next_request == commit_request,
                        _ => false,
                    }
                },
                None => true,
            }
        },
        StoreHostExchange::Commit { answer, .. } => {
            &&& k > 0
            &&& match new[k - 1] {
                StoreHostExchange::Probe { answer: probe_answer, .. } => probe_answer is Hit,
                _ => false,
            }
            &&& answer is Committed ==> k == new.len() - 1
        },
    }
}

/// Every store exchange in `new` keeps to the sidecar's protocol.
pub open spec fn spec_store_exchanges_keep_protocol(
    new: Seq<StoreHostExchange>,
    site: BaselineGeneratedPropertyHandoffSite,
    operands: (RuntimeValue, RuntimeValue, Option<CacheKey>),
    candidates: Seq<PropertyStoreMutationCandidate>,
    megamorphic: Option<GeneratedPropertyStoreMegamorphicCandidateTable>,
) -> bool {
    forall|k: int| 0 <= k < new.len() ==> #[trigger] spec_store_exchange_keeps_protocol(new, k, site, operands, candidates, megamorphic)
}

/// The megamorphic store table of `sidecars`, if any.
pub open spec fn spec_store_megamorphic_table<'a, H>(
    sidecars: BaselineGeneratedPropertyExecutionSidecars<'a, H>,
) -> Option<GeneratedPropertyStoreMegamorphicCandidateTable> {
    match sidecars.property_store_megamorphic_candidate_table {
        Some(table) => Some(*table),
        None => None,
    }
}

/// The store exchanges from `a` to `b`.
pub open spec fn spec_store_exchanges_between<'a, H>(
    a: BaselineGeneratedPropertyExecutionSidecars<'a, H>,
    b: BaselineGeneratedPropertyExecutionSidecars<'a, H>,
) -> Seq<StoreHostExchange> {
    b.store_host_exchanges@.subrange(a.store_host_exchanges@.len() as int, b.store_host_exchanges@.len() as int)
}

/// Whether the last of the store exchanges `new` is a commit the host performed.
pub open spec fn spec_store_exchanges_end_committed(new: Seq<StoreHostExchange>) -> bool {
    &&& new.len() > 0
    &&& new.last() matches StoreHostExchange::Commit { answer: GeneratedPropertyStoreMutationResult::Committed(_), .. }
}

/// What a store sidecar for `site` handed the host from `a` to `b`, given what reading
/// its operands gives: nothing, or (once it read them) exchanges that keep to its protocol
/// for those operands and the site's candidates.
pub open spec fn spec_store_host_asked_for<'a, H>(
    a: BaselineGeneratedPropertyExecutionSidecars<'a, H>,
    b: BaselineGeneratedPropertyExecutionSidecars<'a, H>,
    operands: Result<(RuntimeValue, RuntimeValue, Option<CacheKey>), BaselineInstructionAbort>,
    site: BaselineGeneratedPropertyHandoffSite,
) -> bool {
    let new = spec_store_exchanges_between(a, b);
    new.len() > 0 ==> match operands {
        Ok(read) => spec_store_exchanges_keep_protocol(
            new,
            site,
            read,
            spec_store_site_candidates(a, site),
            spec_store_megamorphic_table(a),
        ),
        Err(_) => false,
    }
}

/// What a store sidecar handed the host from `a` to `b` (see `spec_store_host_asked_for`),
/// with the operands it reads from `execution`.
pub open spec fn spec_store_host_asked<'a, H>(
    a: BaselineGeneratedPropertyExecutionSidecars<'a, H>,
    b: BaselineGeneratedPropertyExecutionSidecars<'a, H>,
    execution: InterpreterExecutionState,
    attempt: PropertySidecarAttempt,
) -> bool {
    spec_store_host_asked_for(
        a,
        b,
        spec_property_store_sidecar_operands(
            execution,
            *attempt.code_block,
            attempt.window,
            *attempt.instruction,
            attempt.fallback,
        ),
        attempt.site,
    )
}

/// Whether some store exchange in `new` is a commit the host performed.
pub open spec fn spec_store_some_committed(new: Seq<StoreHostExchange>) -> bool {
    exists|k: int|
        0 <= k < new.len() && #[trigger] new[k] matches StoreHostExchange::Commit {
            answer: GeneratedPropertyStoreMutationResult::Committed(_),
            ..
        }
}

/// Exchanges that keep to the protocol, none of them a performed commit, followed by more
/// that keep to it, all keep to it.
proof fn lemma_store_protocol_concat(
    first: Seq<StoreHostExchange>,
    more: Seq<StoreHostExchange>,
    site: BaselineGeneratedPropertyHandoffSite,
    operands: (RuntimeValue, RuntimeValue, Option<CacheKey>),
    candidates: Seq<PropertyStoreMutationCandidate>,
    megamorphic: Option<GeneratedPropertyStoreMegamorphicCandidateTable>,
)
    requires
        spec_store_exchanges_keep_protocol(first, site, operands, candidates, megamorphic),
        spec_store_exchanges_keep_protocol(more, site, operands, candidates, megamorphic),
        !spec_store_some_committed(first),
    ensures
        spec_store_exchanges_keep_protocol(first + more, site, operands, candidates, megamorphic),
{
    let all = first + more;
    assert forall|k: int| 0 <= k < all.len() implies #[trigger] spec_store_exchange_keeps_protocol(
        all,
        k,
        site,
        operands,
        candidates,
        megamorphic,
    ) by {
        if k < first.len() {
            assert(spec_store_exchange_keeps_protocol(first, k, site, operands, candidates, megamorphic));
            assert(all[k] == first[k]);
            if k + 1 < first.len() {
                assert(all[k + 1] == first[k + 1]);
            }
            if k > 0 {
                assert(all[k - 1] == first[k - 1]);
            }
            if first[k] matches StoreHostExchange::Commit { answer: GeneratedPropertyStoreMutationResult::Committed(_), .. } {
                assert(spec_store_some_committed(first));
            }
        } else {
            let j = k - first.len();
            assert(spec_store_exchange_keeps_protocol(more, j, site, operands, candidates, megamorphic));
            assert(all[k] == more[j]);
            if j + 1 < more.len() {
                assert(all[k + 1] == more[j + 1]);
            }
            if j > 0 {
                assert(all[k - 1] == more[j - 1]);
            }
        }
    }
}

/// A store probe the host missed keeps to the protocol on its own.
proof fn lemma_store_protocol_probe_miss(
    exchange: StoreHostExchange,
    site: BaselineGeneratedPropertyHandoffSite,
    operands: (RuntimeValue, RuntimeValue, Option<CacheKey>),
    candidates: Seq<PropertyStoreMutationCandidate>,
    megamorphic: Option<GeneratedPropertyStoreMegamorphicCandidateTable>,
)
    requires
        match exchange {
            StoreHostExchange::Probe { candidate, request, answer } => {
                &&& request.base == operands.0
                &&& request.stored_value == operands.1
                &&& answer is Miss
                &&& spec_store_probe_plan_served(site, candidates, megamorphic, candidate, request.plan, operands.2)
            },
            _ => false,
        },
    ensures
        spec_store_exchanges_keep_protocol(seq![exchange], site, operands, candidates, megamorphic),
        !spec_store_some_committed(seq![exchange]),
{
    assert(seq![exchange][0] == exchange);
    assert(spec_store_exchange_keeps_protocol(seq![exchange], 0, site, operands, candidates, megamorphic));
}

/// A store probe the host hit, followed by the commit of that hit for the same candidate,
/// keeps to the protocol; with the commit rejected, neither is a performed commit.
proof fn lemma_store_protocol_probe_and_commit(
    probe: StoreHostExchange,
    commit: StoreHostExchange,
    site: BaselineGeneratedPropertyHandoffSite,
    operands: (RuntimeValue, RuntimeValue, Option<CacheKey>),
    candidates: Seq<PropertyStoreMutationCandidate>,
    megamorphic: Option<GeneratedPropertyStoreMegamorphicCandidateTable>,
)
    requires
        match probe {
            StoreHostExchange::Probe { candidate, request, answer } => {
                &&& request.base == operands.0
                &&& request.stored_value == operands.1
                &&& answer is Hit
                &&& spec_store_probe_plan_served(site, candidates, megamorphic, candidate, request.plan, operands.2)
                &&& match commit {
                    StoreHostExchange::Commit { candidate: next, request: next_request, .. } => next == candidate
                        && spec_property_store_commit_request(operands.0, answer) == Some(next_request),
                    _ => false,
                }
            },
            _ => false,
        },
    ensures
        spec_store_exchanges_keep_protocol(seq![probe, commit], site, operands, candidates, megamorphic),
        match commit {
            StoreHostExchange::Commit { answer, .. } => answer is Rejected ==> !spec_store_some_committed(
                seq![probe, commit],
            ),
            _ => true,
        },
{
    let pair = seq![probe, commit];
    assert(pair[0] == probe);
    assert(pair[1] == commit);
    assert(spec_store_exchange_keeps_protocol(pair, 0, site, operands, candidates, megamorphic));
    assert(spec_store_exchange_keeps_protocol(pair, 1, site, operands, candidates, megamorphic));
}

/// An exchange that calls for no record, with the records unchanged.
proof fn lemma_store_exchange_without_records<'a, H>(
    a: BaselineGeneratedPropertyExecutionSidecars<'a, H>,
    b: BaselineGeneratedPropertyExecutionSidecars<'a, H>,
    c: BaselineGeneratedPropertyExecutionSidecars<'a, H>,
    exchange: StoreHostExchange,
)
    requires
        spec_store_records_follow_exchanges(a, b),
        c.store_host_exchanges@ == b.store_host_exchanges@.push(exchange),
        c.property_store_probe_miss_records@ == b.property_store_probe_miss_records@,
        c.property_store_mutation_rejection_records@ == b.property_store_mutation_rejection_records@,
        c.property_store_mutation_commit_records@ == b.property_store_mutation_commit_records@,
        match exchange {
            StoreHostExchange::Probe { candidate, answer, .. } => candidate is None || answer is Hit,
            StoreHostExchange::Commit { candidate, .. } => candidate is None,
        },
    ensures
        spec_store_records_follow_exchanges(a, c),
{
    lemma_store_folds_of_one(exchange);
    assert(c.property_store_probe_miss_records@ =~= b.property_store_probe_miss_records@ + spec_store_misses_of(
        seq![exchange],
    ));
    assert(c.property_store_mutation_rejection_records@ =~= b.property_store_mutation_rejection_records@
        + spec_store_rejections_of(seq![exchange]));
    assert(c.property_store_mutation_commit_records@ =~= b.property_store_mutation_commit_records@
        + spec_store_commits_of(seq![exchange]));
    lemma_store_records_follow_step(a, b, c, exchange);
}

/// After one more exchange and the records it calls for, the records still follow the
/// exchanges.
proof fn lemma_store_records_follow_step<'a, H>(
    a: BaselineGeneratedPropertyExecutionSidecars<'a, H>,
    b: BaselineGeneratedPropertyExecutionSidecars<'a, H>,
    c: BaselineGeneratedPropertyExecutionSidecars<'a, H>,
    exchange: StoreHostExchange,
)
    requires
        spec_store_records_follow_exchanges(a, b),
        c.store_host_exchanges@ == b.store_host_exchanges@.push(exchange),
        c.property_store_probe_miss_records@ == b.property_store_probe_miss_records@ + spec_store_misses_of(
            seq![exchange],
        ),
        c.property_store_mutation_rejection_records@ == b.property_store_mutation_rejection_records@
            + spec_store_rejections_of(seq![exchange]),
        c.property_store_mutation_commit_records@ == b.property_store_mutation_commit_records@ + spec_store_commits_of(
            seq![exchange],
        ),
    ensures
        spec_store_records_follow_exchanges(a, c),
{
    let start = a.store_host_exchanges@.len() as int;
    let old_new = b.store_host_exchanges@.subrange(start, b.store_host_exchanges@.len() as int);
    let new = c.store_host_exchanges@.subrange(start, c.store_host_exchanges@.len() as int);
    assert(new.drop_last() =~= old_new);
    assert(new.last() == exchange);
    assert(seq![exchange].drop_last() =~= Seq::<StoreHostExchange>::empty());
    assert(a.store_host_exchanges@.is_prefix_of(c.store_host_exchanges@)) by {
        assert forall|i: int| 0 <= i < a.store_host_exchanges@.len() implies a.store_host_exchanges@[i]
            == c.store_host_exchanges@[i] by {
            assert(a.store_host_exchanges@[i] == b.store_host_exchanges@[i]);
        }
    }
    assert(spec_store_misses_of(new) =~= spec_store_misses_of(old_new) + spec_store_misses_of(seq![exchange])) by {
        assert(spec_store_misses_of(Seq::<StoreHostExchange>::empty()) =~= Seq::empty());
        assert(seq![exchange].last() == exchange);
    }
    assert(spec_store_rejections_of(new) =~= spec_store_rejections_of(old_new) + spec_store_rejections_of(
        seq![exchange],
    )) by {
        assert(spec_store_rejections_of(Seq::<StoreHostExchange>::empty()) =~= Seq::empty());
        assert(seq![exchange].last() == exchange);
    }
    assert(spec_store_commits_of(new) =~= spec_store_commits_of(old_new) + spec_store_commits_of(seq![exchange])) by {
        assert(spec_store_commits_of(Seq::<StoreHostExchange>::empty()) =~= Seq::empty());
        assert(seq![exchange].last() == exchange);
    }
    assert(c.property_store_probe_miss_records@ =~= a.property_store_probe_miss_records@ + spec_store_misses_of(new));
    assert(c.property_store_mutation_rejection_records@ =~= a.property_store_mutation_rejection_records@
        + spec_store_rejections_of(new));
    assert(c.property_store_mutation_commit_records@ =~= a.property_store_mutation_commit_records@
        + spec_store_commits_of(new));
}

/// `b` differs from `a` at most in the dispatch host and the store records.
pub open spec fn spec_only_store_records_differ<'a, H>(
    a: BaselineGeneratedPropertyExecutionSidecars<'a, H>,
    b: BaselineGeneratedPropertyExecutionSidecars<'a, H>,
) -> bool {
    &&& spec_same_plans(a, b)
    &&& a.destination_root_sync_requests@ == b.destination_root_sync_requests@
    &&& a.property_load_probe_miss_records@ == b.property_load_probe_miss_records@
    &&& a.guarded_property_load_probe_miss_records@ == b.guarded_property_load_probe_miss_records@
    &&& a.generated_call_link_probe_miss_records@ == b.generated_call_link_probe_miss_records@
    &&& a.generated_call_link_probe_blocked_records@ == b.generated_call_link_probe_blocked_records@
    &&& a.generated_direct_call_hot_slot_hits == b.generated_direct_call_hot_slot_hits
}

/// Whether the megamorphic store table takes `site` first: it belongs to the site's code
/// block and the store is a named one. A commit it serves counts without a record.
pub open spec fn spec_store_megamorphic_takes<'a, H>(
    sidecars: BaselineGeneratedPropertyExecutionSidecars<'a, H>,
    site: BaselineGeneratedPropertyHandoffSite,
) -> bool {
    &&& sidecars.property_store_megamorphic_candidate_table matches Some(table)
    &&& table.owner == site.owner
    &&& (site.opcode == CoreOpcode::PutByName || site.opcode == CoreOpcode::PutGlobalObjectProperty)
}

/// What a store sidecar asks the host to commit after a probe: a hit's store on `base`;
/// after a miss, nothing.
pub fn property_store_commit_request(
    base: RuntimeValue,
    answer: GeneratedPropertyStoreProbeResult,
) -> (r: Option<GeneratedPropertyStoreMutationRequest>)
    ensures
        r == spec_property_store_commit_request(base, answer),
{
    match answer {
        GeneratedPropertyStoreProbeResult::Hit(hit) => Some(GeneratedPropertyStoreMutationRequest::new(base, hit)),
        GeneratedPropertyStoreProbeResult::Miss(_) => None,
    }
}

/// Takes the host's answer to a store probe made for `candidate`: a miss is recorded and
/// leaves nothing to commit; a hit is the store on `base` to commit next.
pub fn record_property_store_probe_answer<H: DispatchHost>(
    sidecars: &mut BaselineGeneratedPropertyExecutionSidecars<'_, H>,
    candidate: &PropertyStoreMutationCandidate,
    base: RuntimeValue,
    answer: GeneratedPropertyStoreProbeResult,
) -> (r: Option<GeneratedPropertyStoreMutationRequest>)
    ensures
        r == spec_property_store_commit_request(base, answer),
        final(sidecars).property_store_probe_miss_records@ == match answer {
            GeneratedPropertyStoreProbeResult::Miss(miss) => old(sidecars).property_store_probe_miss_records@.push(
                spec_property_store_probe_miss_record(*candidate, miss.reason),
            ),
            GeneratedPropertyStoreProbeResult::Hit(_) => old(sidecars).property_store_probe_miss_records@,
        },
        final(sidecars).property_store_mutation_rejection_records@ == old(sidecars).property_store_mutation_rejection_records@,
        final(sidecars).property_store_mutation_commit_records@ == old(sidecars).property_store_mutation_commit_records@,
        final(sidecars).dispatch_host == old(sidecars).dispatch_host,
        final(sidecars).load_host_exchanges == old(sidecars).load_host_exchanges,
        final(sidecars).store_host_exchanges == old(sidecars).store_host_exchanges,
        spec_only_store_records_differ(*old(sidecars), *final(sidecars)),
{
    if let GeneratedPropertyStoreProbeResult::Miss(miss) = answer {
        sidecars.property_store_probe_miss_records.push(property_store_probe_miss_record(candidate, miss.reason));
    }
    property_store_commit_request(base, answer)
}

/// Records the host's answer to committing a store for `candidate`: a commit record when
/// it committed (and then `true`), a rejection record otherwise.
pub fn record_property_store_commit_answer<H: DispatchHost>(
    sidecars: &mut BaselineGeneratedPropertyExecutionSidecars<'_, H>,
    candidate: &PropertyStoreMutationCandidate,
    answer: GeneratedPropertyStoreMutationResult,
) -> (committed: bool)
    ensures
        committed == (answer is Committed),
        match answer {
            GeneratedPropertyStoreMutationResult::Committed(commit) => {
                &&& final(sidecars).property_store_mutation_commit_records@ == old(sidecars).property_store_mutation_commit_records@.push(spec_property_store_mutation_commit_record(*candidate, commit))
                &&& final(sidecars).property_store_mutation_rejection_records@ == old(sidecars).property_store_mutation_rejection_records@
            },
            GeneratedPropertyStoreMutationResult::Rejected(rejection) => {
                &&& final(sidecars).property_store_mutation_rejection_records@ == old(sidecars).property_store_mutation_rejection_records@.push(
                    spec_property_store_mutation_rejection_record(*candidate, rejection.reason),
                )
                &&& final(sidecars).property_store_mutation_commit_records@ == old(sidecars).property_store_mutation_commit_records@
            },
        },
        final(sidecars).property_store_probe_miss_records@ == old(sidecars).property_store_probe_miss_records@,
        final(sidecars).dispatch_host == old(sidecars).dispatch_host,
        final(sidecars).load_host_exchanges == old(sidecars).load_host_exchanges,
        final(sidecars).store_host_exchanges == old(sidecars).store_host_exchanges,
        spec_only_store_records_differ(*old(sidecars), *final(sidecars)),
{
    match answer {
        GeneratedPropertyStoreMutationResult::Committed(commit) => {
            sidecars.property_store_mutation_commit_records.push(property_store_mutation_commit_record(candidate, commit));
            true
        },
        GeneratedPropertyStoreMutationResult::Rejected(rejection) => {
            sidecars.property_store_mutation_rejection_records.push(
                property_store_mutation_rejection_record(candidate, rejection.reason),
            );
            false
        },
    }
}

/// The store candidates a site may be served by: the candidate table's, at the site's
/// index, newest first.
pub open spec fn spec_store_site_candidates<'a, H>(
    sidecars: BaselineGeneratedPropertyExecutionSidecars<'a, H>,
    site: BaselineGeneratedPropertyHandoffSite,
) -> Seq<PropertyStoreMutationCandidate> {
    match sidecars.property_store_candidate_table {
        Some(table) => crate::ic::spec_matching_newest_first(
            table.candidates@,
            crate::ic::spec_store_candidate_at(site.bytecode_index.offset),
        ),
        None => Seq::empty(),
    }
}

/// Every store record added from `a` to `b` is the record of one of `candidates`: a
/// probe miss, a rejected commit, or (at most one) commit.
pub open spec fn spec_store_records_for_candidates<'a, H>(
    a: BaselineGeneratedPropertyExecutionSidecars<'a, H>,
    b: BaselineGeneratedPropertyExecutionSidecars<'a, H>,
    candidates: Seq<PropertyStoreMutationCandidate>,
) -> bool {
    spec_store_record_lists_for_candidates(
        a.property_store_probe_miss_records@,
        b.property_store_probe_miss_records@,
        a.property_store_mutation_rejection_records@,
        b.property_store_mutation_rejection_records@,
        a.property_store_mutation_commit_records@,
        b.property_store_mutation_commit_records@,
        candidates,
    )
}

/// `spec_store_records_for_candidates` over the record lists themselves.
pub open spec fn spec_store_record_lists_for_candidates(
    misses_before: Seq<BaselineGeneratedPropertyStoreProbeMissRecord>,
    misses_after: Seq<BaselineGeneratedPropertyStoreProbeMissRecord>,
    rejections_before: Seq<BaselineGeneratedPropertyStoreMutationRejectionRecord>,
    rejections_after: Seq<BaselineGeneratedPropertyStoreMutationRejectionRecord>,
    commits_before: Seq<BaselineGeneratedPropertyStoreMutationCommitRecord>,
    commits_after: Seq<BaselineGeneratedPropertyStoreMutationCommitRecord>,
    candidates: Seq<PropertyStoreMutationCandidate>,
) -> bool {
    &&& forall|k: int|
        #![trigger misses_after[k]]
        misses_before.len() <= k < misses_after.len() ==> exists|
            candidate: PropertyStoreMutationCandidate,
            reason: GeneratedPropertyStoreProbeMissReason,
        |
            #![trigger spec_property_store_probe_miss_record(candidate, reason)]
            candidates.contains(candidate) && misses_after[k] == spec_property_store_probe_miss_record(candidate, reason)
    &&& forall|k: int|
        #![trigger rejections_after[k]]
        rejections_before.len() <= k < rejections_after.len() ==> exists|
            candidate: PropertyStoreMutationCandidate,
            reason: GeneratedPropertyStoreMutationMissReason,
        |
            #![trigger spec_property_store_mutation_rejection_record(candidate, reason)]
            candidates.contains(candidate) && rejections_after[k] == spec_property_store_mutation_rejection_record(
                candidate,
                reason,
            )
    &&& commits_after.len() <= commits_before.len() + 1
    &&& commits_after.len() == commits_before.len() + 1 ==> exists|
        candidate: PropertyStoreMutationCandidate,
        commit: GeneratedPropertyStoreMutationCommit,
    |
        #![trigger spec_property_store_mutation_commit_record(candidate, commit)]
        candidates.contains(candidate) && commits_after.last() == spec_property_store_mutation_commit_record(
            candidate,
            commit,
        )
}

/// Store records that stayed as they were still come from the candidates.
proof fn lemma_store_records_kept<'a, H>(
    a: BaselineGeneratedPropertyExecutionSidecars<'a, H>,
    b: BaselineGeneratedPropertyExecutionSidecars<'a, H>,
    c: BaselineGeneratedPropertyExecutionSidecars<'a, H>,
    candidates: Seq<PropertyStoreMutationCandidate>,
)
    requires
        spec_store_records_for_candidates(a, b, candidates),
        c.property_store_probe_miss_records@ == b.property_store_probe_miss_records@,
        c.property_store_mutation_rejection_records@ == b.property_store_mutation_rejection_records@,
        c.property_store_mutation_commit_records@ == b.property_store_mutation_commit_records@,
    ensures
        spec_store_records_for_candidates(a, c, candidates),
{
}

/// A probe-miss or rejection record of one of the candidates keeps the store records
/// coming from the candidates.
proof fn lemma_store_record_added<'a, H>(
    a: BaselineGeneratedPropertyExecutionSidecars<'a, H>,
    b: BaselineGeneratedPropertyExecutionSidecars<'a, H>,
    c: BaselineGeneratedPropertyExecutionSidecars<'a, H>,
    candidates: Seq<PropertyStoreMutationCandidate>,
    candidate: PropertyStoreMutationCandidate,
)
    requires
        spec_store_records_for_candidates(a, b, candidates),
        candidates.contains(candidate),
        a.property_store_probe_miss_records@.len() <= b.property_store_probe_miss_records@.len(),
        a.property_store_mutation_rejection_records@.len() <= b.property_store_mutation_rejection_records@.len(),
        c.property_store_mutation_commit_records@ == b.property_store_mutation_commit_records@,
        (exists|reason: GeneratedPropertyStoreProbeMissReason|
            c.property_store_probe_miss_records@ == b.property_store_probe_miss_records@.push(
                #[trigger] spec_property_store_probe_miss_record(candidate, reason),
            ) && c.property_store_mutation_rejection_records@ == b.property_store_mutation_rejection_records@) || (exists|
            reason: GeneratedPropertyStoreMutationMissReason,
        |
            c.property_store_mutation_rejection_records@ == b.property_store_mutation_rejection_records@.push(
                #[trigger] spec_property_store_mutation_rejection_record(candidate, reason),
            ) && c.property_store_probe_miss_records@ == b.property_store_probe_miss_records@),
    ensures
        spec_store_records_for_candidates(a, c, candidates),
{
    assert forall|k: int|
        #![trigger c.property_store_probe_miss_records@[k]]
        a.property_store_probe_miss_records@.len() <= k < c.property_store_probe_miss_records@.len() implies exists|
            x: PropertyStoreMutationCandidate,
            reason: GeneratedPropertyStoreProbeMissReason,
        |
            #![trigger spec_property_store_probe_miss_record(x, reason)]
            candidates.contains(x) && c.property_store_probe_miss_records@[k] == spec_property_store_probe_miss_record(
                x,
                reason,
            ) by {
        if k < b.property_store_probe_miss_records@.len() {
            assert(c.property_store_probe_miss_records@[k] == b.property_store_probe_miss_records@[k]);
        } else {
            let reason = choose|reason: GeneratedPropertyStoreProbeMissReason|
                c.property_store_probe_miss_records@ == b.property_store_probe_miss_records@.push(
                    #[trigger] spec_property_store_probe_miss_record(candidate, reason),
                );
            assert(c.property_store_probe_miss_records@[k] == spec_property_store_probe_miss_record(candidate, reason));
        }
    }
    assert forall|k: int|
        #![trigger c.property_store_mutation_rejection_records@[k]]
        a.property_store_mutation_rejection_records@.len() <= k < c.property_store_mutation_rejection_records@.len()
            implies exists|x: PropertyStoreMutationCandidate, reason: GeneratedPropertyStoreMutationMissReason|
            #![trigger spec_property_store_mutation_rejection_record(x, reason)]
            candidates.contains(x) && c.property_store_mutation_rejection_records@[k]
                == spec_property_store_mutation_rejection_record(x, reason) by {
        if k < b.property_store_mutation_rejection_records@.len() {
            assert(c.property_store_mutation_rejection_records@[k] == b.property_store_mutation_rejection_records@[k]);
        } else {
            let reason = choose|reason: GeneratedPropertyStoreMutationMissReason|
                c.property_store_mutation_rejection_records@ == b.property_store_mutation_rejection_records@.push(
                    #[trigger] spec_property_store_mutation_rejection_record(candidate, reason),
                );
            assert(c.property_store_mutation_rejection_records@[k] == spec_property_store_mutation_rejection_record(
                candidate,
                reason,
            ));
        }
    }
}

/// Whether no store source can serve `site`, whatever the host would answer: the
/// megamorphic table is absent, belongs to another code block, or the site is no named
/// store with a key; and the candidate table is absent, belongs to another code block, or
/// holds no candidate at the site's index.
pub open spec fn spec_store_site_unserved<'a, H>(
    sidecars: BaselineGeneratedPropertyExecutionSidecars<'a, H>,
    site: BaselineGeneratedPropertyHandoffSite,
) -> bool {
    &&& match sidecars.property_store_megamorphic_candidate_table {
        None => true,
        Some(table) => {
            ||| table.owner != site.owner
            ||| (site.opcode != CoreOpcode::PutByName && site.opcode != CoreOpcode::PutGlobalObjectProperty)
            ||| spec_named_property_sidecar_cache_key(site) is None
        },
    }
    &&& match sidecars.property_store_candidate_table {
        None => true,
        Some(table) => table.owner != site.owner || crate::ic::spec_matching_newest_first(
            table.candidates@,
            crate::ic::spec_store_candidate_at(site.bytecode_index.offset),
        ).len() == 0,
    }
}

/// How a store sidecar ends before it asks the host anything, when it does: see
/// `spec_store_settled_by_candidates` for the candidate table; a megamorphic table of the
/// site's code block takes a named store first, which ends with `Ok(None)` without a key
/// and with the abort of unreadable operands, and declines every store that is neither
/// named nor by value. `None`: the host may be asked.
pub open spec fn spec_store_settled<'a, H>(
    sidecars: BaselineGeneratedPropertyExecutionSidecars<'a, H>,
    execution: InterpreterExecutionState,
    attempt: PropertySidecarAttempt,
) -> Option<Result<Option<BaselineInstructionOutcome>, BaselineInstructionAbort>> {
    let site = attempt.site;
    let by_candidates = spec_store_settled_by_candidates(sidecars, execution, attempt);
    match sidecars.property_store_megamorphic_candidate_table {
        Some(table) => if table.owner != site.owner {
            by_candidates
        } else if site.opcode == CoreOpcode::PutByName || site.opcode == CoreOpcode::PutGlobalObjectProperty {
            match spec_named_property_sidecar_cache_key(site) {
                None => Some(Ok::<Option<BaselineInstructionOutcome>, BaselineInstructionAbort>(None)),
                Some(_) => match spec_property_store_sidecar_operands(
                    execution,
                    *attempt.code_block,
                    attempt.window,
                    *attempt.instruction,
                    attempt.fallback,
                ) {
                    Err(abort) => Some(Err(abort)),
                    Ok(_) => None,
                },
            }
        } else if site.opcode != CoreOpcode::PutByValue {
            Some(Ok::<Option<BaselineInstructionOutcome>, BaselineInstructionAbort>(None))
        } else {
            by_candidates
        },
        None => by_candidates,
    }
}

/// The part of `spec_store_settled` that the candidate table decides: no table, one of
/// another code block or no candidate at the site (`Ok(None)`), or unreadable operands
/// (their abort).
pub open spec fn spec_store_settled_by_candidates<'a, H>(
    sidecars: BaselineGeneratedPropertyExecutionSidecars<'a, H>,
    execution: InterpreterExecutionState,
    attempt: PropertySidecarAttempt,
) -> Option<Result<Option<BaselineInstructionOutcome>, BaselineInstructionAbort>> {
    let site = attempt.site;
    let declined = Some(Ok::<Option<BaselineInstructionOutcome>, BaselineInstructionAbort>(None));
    match sidecars.property_store_candidate_table {
        None => declined,
        Some(table) => if table.owner != site.owner || crate::ic::spec_matching_newest_first(
            table.candidates@,
            crate::ic::spec_store_candidate_at(site.bytecode_index.offset),
        ).len() == 0 {
            declined
        } else {
            match spec_property_store_sidecar_operands(
                execution,
                *attempt.code_block,
                attempt.window,
                *attempt.instruction,
                attempt.fallback,
            ) {
                Err(abort) => Some(Err(abort)),
                Ok(_) => None,
            }
        },
    }
}

/// Finishes a property store through the host: the megamorphic table (for named stores)
/// first, then the site's store candidates newest first. A store counts only once the host
/// commits it; probe misses and rejected commits are recorded. Registers never change.
pub fn execute_property_store_sidecar_candidate<H: DispatchHost>(
    sidecars: &mut BaselineGeneratedPropertyExecutionSidecars<'_, H>,
    execution: &mut InterpreterExecutionState,
    attempt: PropertySidecarAttempt,
) -> (r: Result<Option<BaselineInstructionOutcome>, BaselineInstructionAbort>)
    ensures
        spec_same_plans(*old(sidecars), *final(sidecars)),
        spec_store_records_extended(*old(sidecars), *final(sidecars)),
        *final(execution) == *old(execution),
        r matches Ok(Some(outcome)) ==> outcome == BaselineInstructionOutcome::Continue,
        spec_store_site_unserved(*old(sidecars), attempt.site) ==> {
            &&& r == Ok::<Option<BaselineInstructionOutcome>, BaselineInstructionAbort>(None)
            &&& *final(sidecars) == *old(sidecars)
        },
        spec_store_settled(*old(sidecars), *old(execution), attempt) matches Some(settled) ==> {
            &&& r == settled
            &&& *final(sidecars) == *old(sidecars)
        },
        r matches Err(abort) ==> spec_property_store_sidecar_operands(
            *old(execution),
            *attempt.code_block,
            attempt.window,
            *attempt.instruction,
            attempt.fallback,
        ) == Err::<(RuntimeValue, RuntimeValue, Option<CacheKey>), BaselineInstructionAbort>(abort),
        spec_store_records_for_candidates(
            *old(sidecars),
            *final(sidecars),
            spec_store_site_candidates(*old(sidecars), attempt.site),
        ),
        final(sidecars).property_store_mutation_commit_records@.len() > old(sidecars).property_store_mutation_commit_records@.len() ==> r == Ok::<
            Option<BaselineInstructionOutcome>,
            BaselineInstructionAbort,
        >(Some(BaselineInstructionOutcome::Continue)),
        r == Ok::<Option<BaselineInstructionOutcome>, BaselineInstructionAbort>(None) ==> final(sidecars).property_store_mutation_commit_records@ == old(sidecars).property_store_mutation_commit_records@,
        spec_store_records_follow_exchanges(*old(sidecars), *final(sidecars)),
        final(sidecars).load_host_exchanges == old(sidecars).load_host_exchanges,
        r matches Ok(Some(_)) ==> spec_store_ends_committed(*old(sidecars), *final(sidecars)),
        r matches Ok(Some(_)) ==> final(sidecars).property_store_mutation_commit_records@.len() == old(sidecars).property_store_mutation_commit_records@.len() + 1 || spec_store_megamorphic_takes(
            *old(sidecars),
            attempt.site,
        ),
        spec_store_host_asked(*old(sidecars), *final(sidecars), *old(execution), attempt),
        spec_store_ends_committed(*old(sidecars), *final(sidecars)) ==> r == Ok::<
            Option<BaselineInstructionOutcome>,
            BaselineInstructionAbort,
        >(Some(BaselineInstructionOutcome::Continue)),
{
    let window = attempt.window;
    let code_block = attempt.code_block;
    let fallback = attempt.fallback;
    let instruction = attempt.instruction;
    let site = attempt.site;
    let mut operands: Option<(RuntimeValue, RuntimeValue, Option<CacheKey>)> = None;
    let mut current_base_structure: Option<Option<StructureId>> = None;
    proof {
        lemma_store_records_follow_start(*sidecars);
    }

    if let Some(megamorphic_table) = sidecars.property_store_megamorphic_candidate_table {
        if megamorphic_table.owner() == site.owner {
            if site.opcode == CoreOpcode::PutByName || site.opcode == CoreOpcode::PutGlobalObjectProperty {
                let site_key = match named_property_sidecar_cache_key(&site) {
                    None => {
                        return Ok(None);
                    },
                    Some(key) => key,
                };
                let (base, stored_value, _) = property_store_sidecar_operands(
                    &mut operands,
                    execution,
                    code_block,
                    window,
                    instruction,
                    fallback,
                )?;
                let base_structure = match current_base_structure {
                    Some(actual) => actual,
                    None => {
                        let actual = sidecars.dispatch_host.generated_property_sidecar_base_structure(base);
                        current_base_structure = Some(actual);
                        actual
                    },
                };
                let base_structure = match base_structure {
                    None => {
                        return Ok(None);
                    },
                    Some(structure) => structure,
                };
                match megamorphic_table.lookup(site.slot, site.bytecode_index.offset(), site_key, base_structure) {
                    GeneratedPropertyStoreMegamorphicLookup::NoSite => {},
                    GeneratedPropertyStoreMegamorphicLookup::Miss => {
                        return Ok(None);
                    },
                    GeneratedPropertyStoreMegamorphicLookup::Hit(plan) => {
                        if site.opcode == CoreOpcode::PutGlobalObjectProperty && plan.plan_kind
                            != PropertyStoreAccessCasePlanKind::DataOnlyReplace {
                            return Ok(None);
                        }
                        let probe_request = GeneratedPropertyStoreProbeRequest::new(&plan, base, stored_value);
                        let ghost before_probe = *sidecars;
                        let result = sidecars.ask_store_probe(Ghost(None), probe_request);
                        proof {
                            lemma_store_exchange_without_records(
                                *old(sidecars),
                                before_probe,
                                *sidecars,
                                StoreHostExchange::Probe { candidate: None, request: probe_request, answer: result },
                            );
                        }
                        let ghost operands_read = (base, stored_value, None::<CacheKey>);
                        let ghost probe = StoreHostExchange::Probe {
                            candidate: None,
                            request: probe_request,
                            answer: result,
                        };
                        proof {
                            assert(sidecars.store_host_exchanges@.subrange(
                                old(sidecars).store_host_exchanges@.len() as int,
                                sidecars.store_host_exchanges@.len() as int,
                            ) =~= seq![probe]);
                        }
                        let request = match property_store_commit_request(base, result) {
                            Some(request) => request,
                            None => {
                                proof {
                                    lemma_store_protocol_probe_miss(
                                        probe,
                                        site,
                                        operands_read,
                                        spec_store_site_candidates(*old(sidecars), site),
                                        spec_store_megamorphic_table(*old(sidecars)),
                                    );
                                }
                                return Ok(None);
                            },
                        };
                        let ghost before_commit = *sidecars;
                        let answer = sidecars.ask_store_commit(Ghost(None), request);
                        proof {
                            lemma_store_exchange_without_records(
                                *old(sidecars),
                                before_commit,
                                *sidecars,
                                StoreHostExchange::Commit { candidate: None, request, answer },
                            );
                            let commit = StoreHostExchange::Commit { candidate: None, request, answer };
                            lemma_store_protocol_probe_and_commit(
                                probe,
                                commit,
                                site,
                                operands_read,
                                spec_store_site_candidates(*old(sidecars), site),
                                spec_store_megamorphic_table(*old(sidecars)),
                            );
                            assert(sidecars.store_host_exchanges@.subrange(
                                old(sidecars).store_host_exchanges@.len() as int,
                                sidecars.store_host_exchanges@.len() as int,
                            ) =~= seq![probe, commit]);
                        }
                        return match answer {
                            GeneratedPropertyStoreMutationResult::Committed(_) => Ok(
                                Some(BaselineInstructionOutcome::Continue),
                            ),
                            GeneratedPropertyStoreMutationResult::Rejected(_) => Ok(None),
                        };
                    },
                }
            } else if site.opcode != CoreOpcode::PutByValue {
                return Ok(None);
            }
        }
    }

    let candidate_table = match sidecars.property_store_candidate_table {
        None => {
            return Ok(None);
        },
        Some(table) => table,
    };
    if candidate_table.owner() != site.owner {
        return Ok(None);
    }
    let candidates = candidate_table.candidates_for_bytecode_index_newest_first(site.bytecode_index.offset());
    let mut i: usize = 0;
    while i < candidates.len()
        invariant
            i <= candidates@.len(),
            old(sidecars).property_store_candidate_table == Some(candidate_table),
            spec_store_site_unserved(*old(sidecars), attempt.site) ==> {
                &&& *sidecars == *old(sidecars)
                &&& candidates@.len() == 0
            },
            candidates@ == crate::ic::spec_matching_newest_first(
                candidate_table.candidates@,
                crate::ic::spec_store_candidate_at(site.bytecode_index.offset),
            ),
            candidate_table.owner == site.owner,
            spec_store_settled(*old(sidecars), *old(execution), attempt) is Some ==> spec_store_settled(
                *old(sidecars),
                *old(execution),
                attempt,
            ) == spec_store_settled_by_candidates(*old(sidecars), *old(execution), attempt),
            i == 0 && spec_store_settled(*old(sidecars), *old(execution), attempt) is Some ==> {
                &&& *sidecars == *old(sidecars)
                &&& operands is None
            },
            i > 0 ==> spec_store_settled(*old(sidecars), *old(execution), attempt) is None,
            spec_store_records_for_candidates(*old(sidecars), *sidecars, candidates@),
            sidecars.property_store_mutation_commit_records@ == old(sidecars).property_store_mutation_commit_records@,
            operands matches Some(read) ==> spec_property_store_sidecar_operands(
                *old(execution),
                *attempt.code_block,
                attempt.window,
                *attempt.instruction,
                attempt.fallback,
            ) == Ok::<(RuntimeValue, RuntimeValue, Option<CacheKey>), BaselineInstructionAbort>(read),
            sidecars.store_host_exchanges@.len() > old(sidecars).store_host_exchanges@.len() ==> operands is Some,
            old(sidecars).store_host_exchanges@.len() <= sidecars.store_host_exchanges@.len(),
            spec_store_host_asked(*old(sidecars), *sidecars, *old(execution), attempt),
            !spec_store_some_committed(
                sidecars.store_host_exchanges@.subrange(
                    old(sidecars).store_host_exchanges@.len() as int,
                    sidecars.store_host_exchanges@.len() as int,
                ),
            ),
            spec_store_records_follow_exchanges(*old(sidecars), *sidecars),
            sidecars.load_host_exchanges == old(sidecars).load_host_exchanges,
            spec_same_plans(*old(sidecars), *sidecars),
            spec_store_records_extended(*old(sidecars), *sidecars),
            *execution == *old(execution),
            window == attempt.window,
            instruction == attempt.instruction,
            fallback == attempt.fallback,
            code_block == attempt.code_block,
            site == attempt.site,
        decreases candidates@.len() - i,
    {
        let candidate = candidates[i];
        assert(candidates@.contains(candidate)) by {
            assert(candidates@[i as int] == candidate);
        }
        i = i + 1;
        let (base, stored_value, runtime_key) = property_store_sidecar_operands(
            &mut operands,
            execution,
            code_block,
            window,
            instruction,
            fallback,
        )?;
        let plan = if site.opcode == CoreOpcode::PutByName || site.opcode == CoreOpcode::PutGlobalObjectProperty {
            let site_key = match named_property_sidecar_cache_key(&site) {
                None => {
                    return Ok(None);
                },
                Some(key) => key,
            };
            if candidate.plan.plan_kind == PropertyStoreAccessCasePlanKind::DataOnlyIndexedStore || candidate.plan.key
                != site_key || (site.opcode == CoreOpcode::PutGlobalObjectProperty && candidate.plan.plan_kind
                != PropertyStoreAccessCasePlanKind::DataOnlyReplace) {
                continue;
            }
            candidate.plan
        } else if site.opcode == CoreOpcode::PutByValue {
            if candidate.plan.plan_kind != PropertyStoreAccessCasePlanKind::DataOnlyIndexedStore {
                continue;
            }
            match runtime_key {
                None => {
                    return Ok(None);
                },
                Some(key) => property_store_plan_with_runtime_key(&candidate.plan, key),
            }
        } else {
            return Ok(None);
        };
        let ghost before_host = *sidecars;
        if property_store_sidecar_structure_guard_misses(
            &mut sidecars.dispatch_host,
            &mut current_base_structure,
            base,
            &plan,
        ) {
            proof {
                lemma_store_records_kept(*old(sidecars), before_host, *sidecars, candidates@);
            }
            continue;
        }
        let probe_request = GeneratedPropertyStoreProbeRequest::new(&plan, base, stored_value);
        let ghost before_probe = *sidecars;
        let result = sidecars.ask_store_probe(Ghost(Some(candidate)), probe_request);
        proof {
            lemma_store_records_kept(*old(sidecars), before_host, *sidecars, candidates@);
        }
        let ghost before_record = *sidecars;
        let ghost start = old(sidecars).store_host_exchanges@.len() as int;
        let ghost operands_read = (base, stored_value, runtime_key);
        let ghost probe = StoreHostExchange::Probe { candidate: Some(candidate), request: probe_request, answer: result };
        let ghost earlier = before_probe.store_host_exchanges@.subrange(start, before_probe.store_host_exchanges@.len() as int);
        proof {
            assert(sidecars.store_host_exchanges@.subrange(start, sidecars.store_host_exchanges@.len() as int)
                =~= earlier.push(probe));
        }
        let request = match record_property_store_probe_answer(sidecars, &candidate, base, result) {
            Some(request) => {
                proof {
                    lemma_store_exchange_without_records(*old(sidecars), before_probe, *sidecars, probe);
                }
                request
            },
            None => {
                proof {
                    let miss = result->Miss_0;
                    assert(sidecars.property_store_probe_miss_records@ == before_record.property_store_probe_miss_records@.push(
                        spec_property_store_probe_miss_record(candidate, miss.reason),
                    ));
                    lemma_store_record_added(*old(sidecars), before_record, *sidecars, candidates@, candidate);
                    lemma_store_folds_of_one(probe);
                    assert(sidecars.property_store_probe_miss_records@ =~= before_probe.property_store_probe_miss_records@
                        + spec_store_misses_of(seq![probe]));
                    assert(sidecars.property_store_mutation_rejection_records@
                        =~= before_probe.property_store_mutation_rejection_records@ + spec_store_rejections_of(
                        seq![probe],
                    ));
                    assert(sidecars.property_store_mutation_commit_records@
                        =~= before_probe.property_store_mutation_commit_records@ + spec_store_commits_of(
                        seq![probe],
                    ));
                    lemma_store_records_follow_step(*old(sidecars), before_probe, *sidecars, probe);
                    lemma_store_protocol_probe_miss(probe, site, operands_read, candidates@, spec_store_megamorphic_table(*old(sidecars)));
                    lemma_store_protocol_concat(earlier, seq![probe], site, operands_read, candidates@, spec_store_megamorphic_table(*old(sidecars)));
                    assert(earlier + seq![probe] =~= earlier.push(probe));
                    assert(!spec_store_some_committed(earlier.push(probe))) by {
                        if spec_store_some_committed(earlier.push(probe)) {
                            let k = choose|k: int|
                                0 <= k < earlier.push(probe).len() && #[trigger] earlier.push(probe)[k] matches StoreHostExchange::Commit {
                                    answer: GeneratedPropertyStoreMutationResult::Committed(_),
                                    ..
                                };
                            assert(k < earlier.len());
                            assert(earlier[k] == earlier.push(probe)[k]);
                        }
                    }
                }
                continue;
            },
        };
        let ghost before_commit = *sidecars;
        let answer = sidecars.ask_store_commit(Ghost(Some(candidate)), request);
        proof {
            lemma_store_records_kept(*old(sidecars), before_record, *sidecars, candidates@);
        }
        let ghost before_answer = *sidecars;
        let committed = record_property_store_commit_answer(sidecars, &candidate, answer);
        proof {
            let exchange = StoreHostExchange::Commit { candidate: Some(candidate), request, answer };
            lemma_store_folds_of_one(exchange);
            assert(sidecars.property_store_probe_miss_records@ =~= before_commit.property_store_probe_miss_records@
                + spec_store_misses_of(seq![exchange]));
            assert(sidecars.property_store_mutation_rejection_records@
                =~= before_commit.property_store_mutation_rejection_records@ + spec_store_rejections_of(seq![exchange]));
            assert(sidecars.property_store_mutation_commit_records@
                =~= before_commit.property_store_mutation_commit_records@ + spec_store_commits_of(seq![exchange]));
            lemma_store_records_follow_step(*old(sidecars), before_commit, *sidecars, exchange);
            lemma_store_protocol_probe_and_commit(probe, exchange, site, operands_read, candidates@, spec_store_megamorphic_table(*old(sidecars)));
            lemma_store_protocol_concat(earlier, seq![probe, exchange], site, operands_read, candidates@, spec_store_megamorphic_table(*old(sidecars)));
            assert(sidecars.store_host_exchanges@.subrange(start, sidecars.store_host_exchanges@.len() as int)
                =~= earlier + seq![probe, exchange]);
            if !committed {
                assert(!spec_store_some_committed(earlier + seq![probe, exchange])) by {
                    if spec_store_some_committed(earlier + seq![probe, exchange]) {
                        let all = earlier + seq![probe, exchange];
                        let k = choose|k: int|
                            0 <= k < all.len() && #[trigger] all[k] matches StoreHostExchange::Commit {
                                answer: GeneratedPropertyStoreMutationResult::Committed(_),
                                ..
                            };
                        if k < earlier.len() {
                            assert(earlier[k] == all[k]);
                        } else if k == earlier.len() {
                            assert(all[k] == probe);
                        } else {
                            assert(all[k] == exchange);
                        }
                    }
                }
            }
        }
        if committed {
            return Ok(Some(BaselineInstructionOutcome::Continue));
        }
        proof {
            lemma_store_record_added(*old(sidecars), before_answer, *sidecars, candidates@, candidate);
        }
    }
    Ok(None)
}


/// What a call-link sidecar works with.
#[derive(Clone, Copy)]
pub struct GeneratedCallLinkSidecarAttempt<'c> {
    pub window: RegisterWindow,
    pub code_block: &'c CodeBlock,
    pub fallback: BaselineGeneratedFallbackSite,
    pub owner: CodeBlockId,
    pub opcode: CoreOpcode,
    pub instruction: &'c TypedInstruction,
}

/// The values of a call, as the call-link sidecar reads them.
#[derive(Clone, Copy, Debug, PartialEq, Eq, Structural)]
pub struct GeneratedCallLinkSidecarOperands {
    pub argument_count_including_this: u32,
    pub callee_value: RuntimeValue,
    pub callee_value_kind: ValueKind,
    pub callee_object: Option<ObjectId>,
    pub this_value: RuntimeValue,
    pub this_value_kind: ValueKind,
    pub this_object: Option<ObjectId>,
}

pub open spec fn spec_saturating_increment_u32(value: u32) -> u32 {
    if value == u32::MAX {
        u32::MAX
    } else {
        (value + 1) as u32
    }
}

/// The callee, `this` and argument count of a call (`this` is `undefined` unless the
/// call passes one), with the objects they name.
pub open spec fn spec_generated_call_link_sidecar_operands(
    execution: InterpreterExecutionState,
    code_block: CodeBlock,
    window: RegisterWindow,
    instruction: TypedInstruction,
    fallback: BaselineGeneratedFallbackSite,
) -> Result<GeneratedCallLinkSidecarOperands, BaselineInstructionAbort> {
    let slots = execution.registers.slots@;
    let view = spec_execution_view(execution);
    match spec_register_operand_or_fallback(instruction, 0, fallback) {
        Err(abort) => Err(abort),
        Ok(_) => match spec_register_operand_or_fallback(instruction, 1, fallback) {
            Err(abort) => Err(abort),
            Ok(callee_register) => match spec_read_register_or_outcome(slots, code_block, window, callee_register, fallback) {
                Err(abort) => Err(abort),
                Ok(callee_value) => {
                    let this_and_count: Result<(RuntimeValue, u32), BaselineInstructionAbort> = if instruction.opcode
                        == Opcode::Core(CoreOpcode::CallWithThis) {
                        match spec_register_operand_or_fallback(instruction, 2, fallback) {
                            Err(abort) => Err(abort),
                            Ok(this_register) => match spec_read_register_or_outcome(
                                slots,
                                code_block,
                                window,
                                this_register,
                                fallback,
                            ) {
                                Err(abort) => Err(abort),
                                Ok(this_value) => match spec_unsigned_immediate_operand_or_fallback(instruction, 3, fallback) {
                                    Err(abort) => Err(abort),
                                    Ok(count) => Ok((this_value, count)),
                                },
                            },
                        }
                    } else {
                        match spec_unsigned_immediate_operand_or_fallback(instruction, 2, fallback) {
                            Err(abort) => Err(abort),
                            Ok(count) => Ok((RuntimeValue::Undefined, count)),
                        }
                    };
                    match this_and_count {
                        Err(abort) => Err(abort),
                        Ok((this_value, count)) => Ok(
                            GeneratedCallLinkSidecarOperands {
                                argument_count_including_this: spec_saturating_increment_u32(count),
                                callee_value,
                                callee_value_kind: spec_value_kind(callee_value),
                                callee_object: spec_object_id_for_runtime_value(view, callee_value),
                                this_value,
                                this_value_kind: spec_value_kind(this_value),
                                this_object: spec_object_id_for_runtime_value(view, this_value),
                            },
                        ),
                    }
                },
            },
        },
    }
}

pub fn generated_call_link_sidecar_operands(
    execution: &InterpreterExecutionState,
    code_block: &CodeBlock,
    window: RegisterWindow,
    instruction: &TypedInstruction,
    fallback: BaselineGeneratedFallbackSite,
) -> (r: Result<GeneratedCallLinkSidecarOperands, BaselineInstructionAbort>)
    ensures
        r == spec_generated_call_link_sidecar_operands(*execution, *code_block, window, *instruction, fallback),
{
    let _destination = register_operand_or_fallback(instruction, 0, fallback)?;
    let callee_register = register_operand_or_fallback(instruction, 1, fallback)?;
    let callee_value = read_register_or_outcome(execution, code_block, window, callee_register, fallback)?;
    let callee_value_kind = callee_value.kind();
    let callee_object = object_id_for_runtime_value(execution, callee_value);
    let (this_value, provided_argument_count) = if instruction.opcode == Opcode::Core(CoreOpcode::CallWithThis) {
        let this_register = register_operand_or_fallback(instruction, 2, fallback)?;
        let this_value = read_register_or_outcome(execution, code_block, window, this_register, fallback)?;
        let count = unsigned_immediate_operand_or_fallback(instruction, 3, fallback)?;
        (this_value, count)
    } else {
        let count = unsigned_immediate_operand_or_fallback(instruction, 2, fallback)?;
        (RuntimeValue::undefined(), count)
    };
    let this_value_kind = this_value.kind();
    let this_object = object_id_for_runtime_value(execution, this_value);
    let argument_count_including_this = if provided_argument_count == u32::MAX {
        u32::MAX
    } else {
        provided_argument_count + 1
    };
    Ok(
        GeneratedCallLinkSidecarOperands {
            argument_count_including_this,
            callee_value,
            callee_value_kind,
            callee_object,
            this_value,
            this_value_kind,
            this_object,
        },
    )
}

/// Whether a hot slot serves this call: an authorized direct call of a current candidate
/// for this very callee and argument count.
pub open spec fn spec_hot_slot_serves(
    slot: BaselineGeneratedJsDirectCallHotSlot,
    candidates: Seq<GeneratedCallLinkCandidate>,
    owner: CodeBlockId,
    opcode: CoreOpcode,
    bytecode_index: BytecodeIndex,
    operands: GeneratedCallLinkSidecarOperands,
) -> bool {
    &&& operands.callee_object is Some
    &&& slot.candidate.owner == owner
    &&& slot.candidate.opcode == opcode
    &&& slot.candidate.bytecode_index == bytecode_index.offset
    &&& slot.candidate.direct_call_status == GeneratedCallLinkDirectCallStatus::Authorized
    &&& candidates.contains(slot.candidate)
    &&& slot.candidate.target.callee == operands.callee_object->Some_0
    &&& slot.callee_object == operands.callee_object->Some_0
    &&& slot.argument_count_including_this == operands.argument_count_including_this
}

pub open spec fn spec_hot_slot_serves_fn(
    candidates: Seq<GeneratedCallLinkCandidate>,
    owner: CodeBlockId,
    opcode: CoreOpcode,
    bytecode_index: BytecodeIndex,
    operands: GeneratedCallLinkSidecarOperands,
) -> spec_fn(BaselineGeneratedJsDirectCallHotSlot) -> bool {
    |slot: BaselineGeneratedJsDirectCallHotSlot| spec_hot_slot_serves(slot, candidates, owner, opcode, bytecode_index, operands)
}

/// The direct call that the first serving hot slot allows.
pub open spec fn spec_hot_slot_direct_call(
    hot_slots: Seq<BaselineGeneratedJsDirectCallHotSlot>,
    candidates: Seq<GeneratedCallLinkCandidate>,
    owner: CodeBlockId,
    opcode: CoreOpcode,
    bytecode_index: BytecodeIndex,
    operands: GeneratedCallLinkSidecarOperands,
) -> Option<BaselineGeneratedJsDirectCall> {
    match spec_first_matching(hot_slots, spec_hot_slot_serves_fn(candidates, owner, opcode, bytecode_index, operands)) {
        Some(slot) => Some(
            BaselineGeneratedJsDirectCall {
                candidate: slot.candidate,
                authorization: slot.authorization,
                callee_value: operands.callee_value,
                callee_object: operands.callee_object->Some_0,
                this_value: operands.this_value,
                this_object: operands.this_object,
                argument_count_including_this: operands.argument_count_including_this,
            },
        ),
        None => None,
    }
}

fn contains_candidate(candidates: &Vec<GeneratedCallLinkCandidate>, candidate: &GeneratedCallLinkCandidate) -> (r: bool)
    ensures
        r == candidates@.contains(*candidate),
{
    let mut i: usize = 0;
    while i < candidates.len()
        invariant
            i <= candidates@.len(),
            forall|k: int| 0 <= k < i ==> candidates@[k] != *candidate,
        decreases candidates@.len() - i,
    {
        if candidates[i] == *candidate {
            return true;
        }
        i = i + 1;
    }
    false
}

/// A direct call from the hot slots, which needs no host probe.
pub fn generated_call_link_hot_slot_direct_call(
    hot_slots: &Vec<BaselineGeneratedJsDirectCallHotSlot>,
    current_candidates: &Vec<GeneratedCallLinkCandidate>,
    owner: CodeBlockId,
    opcode: CoreOpcode,
    bytecode_index: BytecodeIndex,
    operands: GeneratedCallLinkSidecarOperands,
) -> (r: Option<BaselineGeneratedJsDirectCall>)
    ensures
        r == spec_hot_slot_direct_call(hot_slots@, current_candidates@, owner, opcode, bytecode_index, operands),
{
    let callee_object = match operands.callee_object {
        None => {
            proof {
                let serves = spec_hot_slot_serves_fn(current_candidates@, owner, opcode, bytecode_index, operands);
                lemma_first_matching_none_when_none_match(hot_slots@, serves);
            }
            return None;
        },
        Some(callee) => callee,
    };
    let ghost serves = spec_hot_slot_serves_fn(current_candidates@, owner, opcode, bytecode_index, operands);
    let mut i: usize = 0;
    assert(hot_slots@.skip(0) =~= hot_slots@);
    while i < hot_slots.len()
        invariant
            i <= hot_slots@.len(),
            operands.callee_object == Some(callee_object),
            serves == spec_hot_slot_serves_fn(current_candidates@, owner, opcode, bytecode_index, operands),
            spec_first_matching(hot_slots@, serves) == spec_first_matching(hot_slots@.skip(i as int), serves),
        decreases hot_slots@.len() - i,
    {
        assert(hot_slots@.skip(i as int).drop_first() =~= hot_slots@.skip(i + 1));
        let slot = hot_slots[i];
        assert(hot_slots@.skip(i as int)[0] == slot);
        if slot.candidate.owner == owner && slot.candidate.opcode == opcode && slot.candidate.bytecode_index
            == bytecode_index.offset && slot.candidate.direct_call_status == GeneratedCallLinkDirectCallStatus::Authorized
            && contains_candidate(current_candidates, &slot.candidate) && slot.candidate.target.callee == callee_object
            && slot.callee_object == callee_object && slot.argument_count_including_this
            == operands.argument_count_including_this {
            assert(serves(slot));
            return Some(
                BaselineGeneratedJsDirectCall {
                    candidate: slot.candidate,
                    authorization: slot.authorization,
                    callee_value: operands.callee_value,
                    callee_object,
                    this_value: operands.this_value,
                    this_object: operands.this_object,
                    argument_count_including_this: operands.argument_count_including_this,
                },
            );
        }
        i = i + 1;
    }
    None
}

proof fn lemma_first_matching_none_when_none_match<T>(items: Seq<T>, matches: spec_fn(T) -> bool)
    requires
        forall|k: int| 0 <= k < items.len() ==> !#[trigger] matches(items[k]),
    ensures
        spec_first_matching(items, matches) is None,
    decreases items.len(),
{
    if items.len() > 0 {
        assert(!matches(items[0]));
        assert forall|k: int| 0 <= k < items.drop_first().len() implies !#[trigger] matches(items.drop_first()[k]) by {
            assert(items.drop_first()[k] == items[k + 1]);
        }
        lemma_first_matching_none_when_none_match(items.drop_first(), matches);
    }
}


/// The candidates a call-link probe tries: those for the known callee, or all of them
/// when the callee is no known object.
pub open spec fn spec_candidates_for_callee(
    candidates: Seq<GeneratedCallLinkCandidate>,
    callee_object: Option<ObjectId>,
) -> Seq<GeneratedCallLinkCandidate> {
    match callee_object {
        Some(callee) => spec_matching(candidates, |candidate: GeneratedCallLinkCandidate| candidate.target.callee == callee),
        None => candidates,
    }
}

/// Every call-link record added from before to after is about one of the site's
/// candidates: a miss or blocked answer for a candidate of the callee that was probed, or
/// the "callee mismatch" miss of the site's first candidate when none is the callee's.
pub open spec fn spec_call_link_records_for_candidates(
    misses_before: Seq<BaselineGeneratedCallLinkProbeMissRecord>,
    misses_after: Seq<BaselineGeneratedCallLinkProbeMissRecord>,
    blocked_before: Seq<BaselineGeneratedCallLinkProbeBlockedRecord>,
    blocked_after: Seq<BaselineGeneratedCallLinkProbeBlockedRecord>,
    owner: CodeBlockId,
    bytecode_index: BytecodeIndex,
    candidates: Seq<GeneratedCallLinkCandidate>,
    probed: Seq<GeneratedCallLinkCandidate>,
) -> bool {
    &&& misses_before.is_prefix_of(misses_after)
    &&& blocked_before.is_prefix_of(blocked_after)
    &&& forall|k: int|
        #![trigger misses_after[k]]
        misses_before.len() <= k < misses_after.len() ==> exists|
            candidate: GeneratedCallLinkCandidate,
            reason: GeneratedCallLinkProbeMissReason,
        |
            #![trigger spec_call_link_probe_miss_record(owner, bytecode_index, Some(candidate), reason)]
            (probed.contains(candidate) || (probed.len() == 0 && candidates.len() > 0 && candidate == candidates[0]
                && reason == GeneratedCallLinkProbeMissReason::CalleeMismatch)) && misses_after[k]
                == spec_call_link_probe_miss_record(owner, bytecode_index, Some(candidate), reason)
    &&& forall|k: int|
        #![trigger blocked_after[k]]
        blocked_before.len() <= k < blocked_after.len() ==> exists|
            candidate: GeneratedCallLinkCandidate,
            reason: GeneratedCallLinkProbeMissReason,
        |
            #![trigger spec_call_link_probe_blocked_record(candidate, reason)]
            probed.contains(candidate) && blocked_after[k] == spec_call_link_probe_blocked_record(candidate, reason)
}

proof fn lemma_call_link_record_added(
    misses_before: Seq<BaselineGeneratedCallLinkProbeMissRecord>,
    misses_mid: Seq<BaselineGeneratedCallLinkProbeMissRecord>,
    misses_after: Seq<BaselineGeneratedCallLinkProbeMissRecord>,
    blocked_before: Seq<BaselineGeneratedCallLinkProbeBlockedRecord>,
    blocked_mid: Seq<BaselineGeneratedCallLinkProbeBlockedRecord>,
    blocked_after: Seq<BaselineGeneratedCallLinkProbeBlockedRecord>,
    owner: CodeBlockId,
    bytecode_index: BytecodeIndex,
    candidates: Seq<GeneratedCallLinkCandidate>,
    probed: Seq<GeneratedCallLinkCandidate>,
    candidate: GeneratedCallLinkCandidate,
)
    requires
        spec_call_link_records_for_candidates(
            misses_before,
            misses_mid,
            blocked_before,
            blocked_mid,
            owner,
            bytecode_index,
            candidates,
            probed,
        ),
        probed.contains(candidate),
        (misses_after == misses_mid && blocked_after == blocked_mid) || (blocked_after == blocked_mid && exists|
            reason: GeneratedCallLinkProbeMissReason,
        |
            misses_after == misses_mid.push(
                #[trigger] spec_call_link_probe_miss_record(owner, bytecode_index, Some(candidate), reason),
            )) || (misses_after == misses_mid && exists|reason: GeneratedCallLinkProbeMissReason|
            blocked_after == blocked_mid.push(#[trigger] spec_call_link_probe_blocked_record(candidate, reason))),
    ensures
        spec_call_link_records_for_candidates(
            misses_before,
            misses_after,
            blocked_before,
            blocked_after,
            owner,
            bytecode_index,
            candidates,
            probed,
        ),
{
    assert(misses_before.is_prefix_of(misses_after)) by {
        assert forall|i: int| 0 <= i < misses_before.len() implies misses_before[i] == misses_after[i] by {
            assert(misses_before[i] == misses_mid[i]);
            if misses_after != misses_mid {
                assert(misses_after[i] == misses_mid[i]);
            }
        }
    }
    assert(blocked_before.is_prefix_of(blocked_after)) by {
        assert forall|i: int| 0 <= i < blocked_before.len() implies blocked_before[i] == blocked_after[i] by {
            assert(blocked_before[i] == blocked_mid[i]);
            if blocked_after != blocked_mid {
                assert(blocked_after[i] == blocked_mid[i]);
            }
        }
    }
    assert forall|k: int|
        #![trigger misses_after[k]]
        misses_before.len() <= k < misses_after.len() implies exists|
            c: GeneratedCallLinkCandidate,
            reason: GeneratedCallLinkProbeMissReason,
        |
            #![trigger spec_call_link_probe_miss_record(owner, bytecode_index, Some(c), reason)]
            (probed.contains(c) || (probed.len() == 0 && candidates.len() > 0 && c == candidates[0] && reason
                == GeneratedCallLinkProbeMissReason::CalleeMismatch)) && misses_after[k]
                == spec_call_link_probe_miss_record(owner, bytecode_index, Some(c), reason) by {
        if k < misses_mid.len() {
            assert(misses_after[k] == misses_mid[k]);
            let (c, reason) = choose|c: GeneratedCallLinkCandidate, reason: GeneratedCallLinkProbeMissReason|
                #![trigger spec_call_link_probe_miss_record(owner, bytecode_index, Some(c), reason)]
                (probed.contains(c) || (probed.len() == 0 && candidates.len() > 0 && c == candidates[0] && reason
                    == GeneratedCallLinkProbeMissReason::CalleeMismatch)) && misses_mid[k]
                    == spec_call_link_probe_miss_record(owner, bytecode_index, Some(c), reason);
            assert(misses_after[k] == spec_call_link_probe_miss_record(owner, bytecode_index, Some(c), reason));
        } else {
            let reason = choose|reason: GeneratedCallLinkProbeMissReason|
                misses_after == misses_mid.push(
                    #[trigger] spec_call_link_probe_miss_record(owner, bytecode_index, Some(candidate), reason),
                );
            assert(misses_after[k] == spec_call_link_probe_miss_record(owner, bytecode_index, Some(candidate), reason));
        }
    }
    assert forall|k: int|
        #![trigger blocked_after[k]]
        blocked_before.len() <= k < blocked_after.len() implies exists|
            c: GeneratedCallLinkCandidate,
            reason: GeneratedCallLinkProbeMissReason,
        |
            #![trigger spec_call_link_probe_blocked_record(c, reason)]
            probed.contains(c) && blocked_after[k] == spec_call_link_probe_blocked_record(c, reason) by {
        if k < blocked_mid.len() {
            assert(blocked_after[k] == blocked_mid[k]);
            let (c, reason) = choose|c: GeneratedCallLinkCandidate, reason: GeneratedCallLinkProbeMissReason|
                #![trigger spec_call_link_probe_blocked_record(c, reason)]
                probed.contains(c) && blocked_mid[k] == spec_call_link_probe_blocked_record(c, reason);
            assert(blocked_after[k] == spec_call_link_probe_blocked_record(c, reason));
        } else {
            let reason = choose|reason: GeneratedCallLinkProbeMissReason|
                blocked_after == blocked_mid.push(#[trigger] spec_call_link_probe_blocked_record(candidate, reason));
            assert(blocked_after[k] == spec_call_link_probe_blocked_record(candidate, reason));
        }
    }
}

/// What a call-link probe ends in, whatever the host answers: with a table of another
/// code block, nothing; with no candidate at the call, `Ok(None)` and a "candidate not
/// found" miss record; with unreadable operands, their abort; with a serving hot slot, its
/// direct call (the hit counted, saturating); otherwise no direct call, or one with a
/// candidate for the callee that matches the call's operands.
pub open spec fn spec_call_link_probe_outcome(
    candidate_table: GeneratedCallLinkCandidateTable,
    hot_slots: Seq<BaselineGeneratedJsDirectCallHotSlot>,
    host_kept: bool,
    misses_before: Seq<BaselineGeneratedCallLinkProbeMissRecord>,
    misses_after: Seq<BaselineGeneratedCallLinkProbeMissRecord>,
    blocked_before: Seq<BaselineGeneratedCallLinkProbeBlockedRecord>,
    blocked_after: Seq<BaselineGeneratedCallLinkProbeBlockedRecord>,
    hits_before: usize,
    hits_after: usize,
    execution: InterpreterExecutionState,
    attempt: GeneratedCallLinkSidecarAttempt,
    r: Result<Option<BaselineGeneratedJsDirectCall>, BaselineInstructionAbort>,
) -> bool {
    let bytecode_index = attempt.instruction.bytecode_index;
    let candidates = spec_matching(candidate_table.candidates@, spec_call_link_candidate_at(bytecode_index.offset));
    let operands = spec_generated_call_link_sidecar_operands(
        execution,
        *attempt.code_block,
        attempt.window,
        *attempt.instruction,
        attempt.fallback,
    );
    if candidate_table.owner != attempt.owner {
        &&& r == Ok::<Option<BaselineGeneratedJsDirectCall>, BaselineInstructionAbort>(None)
        &&& host_kept
        &&& misses_after == misses_before
        &&& blocked_after == blocked_before
        &&& hits_after == hits_before
    } else if candidates.len() == 0 {
        &&& r == Ok::<Option<BaselineGeneratedJsDirectCall>, BaselineInstructionAbort>(None)
        &&& host_kept
        &&& misses_after == misses_before.push(
            spec_call_link_probe_miss_record(
                attempt.owner,
                bytecode_index,
                None,
                GeneratedCallLinkProbeMissReason::CandidateNotFound,
            ),
        )
        &&& blocked_after == blocked_before
        &&& hits_after == hits_before
    } else {
        match operands {
            Err(abort) => r == Err::<Option<BaselineGeneratedJsDirectCall>, BaselineInstructionAbort>(abort),
            Ok(operands) => match spec_hot_slot_direct_call(
                hot_slots,
                candidates,
                attempt.owner,
                attempt.opcode,
                bytecode_index,
                operands,
            ) {
                Some(direct_call) => {
                    &&& r == Ok::<Option<BaselineGeneratedJsDirectCall>, BaselineInstructionAbort>(Some(direct_call))
                    &&& misses_after == misses_before
                    &&& blocked_after == blocked_before
                    &&& host_kept
                    &&& hits_after == (if hits_before == usize::MAX {
                        usize::MAX
                    } else {
                        (hits_before + 1) as usize
                    })
                },
                None => {
                    &&& hits_after == hits_before
                    &&& r is Ok
                    &&& spec_call_link_records_for_candidates(
                        misses_before,
                        misses_after,
                        blocked_before,
                        blocked_after,
                        attempt.owner,
                        bytecode_index,
                        candidates,
                        spec_candidates_for_callee(candidates, operands.callee_object),
                    )
                    &&& r matches Ok(Some(direct_call)) ==> {
                        &&& spec_candidates_for_callee(candidates, operands.callee_object).contains(
                            direct_call.candidate,
                        )
                        &&& operands.callee_object == Some(direct_call.callee_object)
                        &&& direct_call.callee_value == operands.callee_value
                        &&& direct_call.this_value == operands.this_value
                        &&& direct_call.this_object == operands.this_object
                        &&& direct_call.argument_count_including_this == operands.argument_count_including_this
                    }
                },
            },
        }
    }
}

/// What a call-link probe offers the host for `candidate`: the call's site and operands.
pub open spec fn spec_generated_call_link_probe_request(
    candidate: GeneratedCallLinkCandidate,
    owner: CodeBlockId,
    opcode: CoreOpcode,
    bytecode_index: BytecodeIndex,
    operands: GeneratedCallLinkSidecarOperands,
) -> GeneratedCallLinkProbeRequest {
    GeneratedCallLinkProbeRequest {
        candidate,
        owner,
        opcode,
        bytecode_index: bytecode_index.offset,
        argument_count_including_this: operands.argument_count_including_this,
        callee_value: operands.callee_value,
        callee_value_kind: operands.callee_value_kind,
        callee_object: operands.callee_object,
        this_value: operands.this_value,
        this_value_kind: operands.this_value_kind,
        this_object: operands.this_object,
    }
}

/// Builds the probe of `candidate`; see `spec_generated_call_link_probe_request`.
pub fn generated_call_link_probe_request(
    candidate: GeneratedCallLinkCandidate,
    owner: CodeBlockId,
    opcode: CoreOpcode,
    bytecode_index: BytecodeIndex,
    operands: GeneratedCallLinkSidecarOperands,
) -> (r: GeneratedCallLinkProbeRequest)
    ensures
        r == spec_generated_call_link_probe_request(candidate, owner, opcode, bytecode_index, operands),
{
    GeneratedCallLinkProbeRequest {
        candidate,
        owner,
        opcode,
        bytecode_index: bytecode_index.offset(),
        argument_count_including_this: operands.argument_count_including_this,
        callee_value: operands.callee_value,
        callee_value_kind: operands.callee_value_kind,
        callee_object: operands.callee_object,
        this_value: operands.this_value,
        this_value_kind: operands.this_value_kind,
        this_object: operands.this_object,
    }
}

/// What a call-link probe does with the host's answer for `candidate`: an authorized
/// direct call of a known callee is the result; an authorization without a callee
/// identity, or a miss, adds a miss record; a blocked answer adds a blocked record.
pub fn finish_call_link_probe_answer(
    probe_miss_records: &mut Vec<BaselineGeneratedCallLinkProbeMissRecord>,
    probe_blocked_records: &mut Vec<BaselineGeneratedCallLinkProbeBlockedRecord>,
    candidate: GeneratedCallLinkCandidate,
    owner: CodeBlockId,
    bytecode_index: BytecodeIndex,
    operands: GeneratedCallLinkSidecarOperands,
    answer: GeneratedCallLinkProbeResult,
) -> (r: Option<BaselineGeneratedJsDirectCall>)
    ensures
        match answer {
            GeneratedCallLinkProbeResult::DirectCall(authorization) => match operands.callee_object {
                None => {
                    &&& r is None
                    &&& final(probe_miss_records)@ == old(probe_miss_records)@.push(
                        spec_call_link_probe_miss_record(
                            owner,
                            bytecode_index,
                            Some(candidate),
                            GeneratedCallLinkProbeMissReason::MissingCalleeIdentity,
                        ),
                    )
                    &&& final(probe_blocked_records)@ == old(probe_blocked_records)@
                },
                Some(callee_object) => {
                    &&& r == Some(
                        BaselineGeneratedJsDirectCall {
                            candidate,
                            authorization,
                            callee_value: operands.callee_value,
                            callee_object,
                            this_value: operands.this_value,
                            this_object: operands.this_object,
                            argument_count_including_this: operands.argument_count_including_this,
                        },
                    )
                    &&& final(probe_miss_records)@ == old(probe_miss_records)@
                    &&& final(probe_blocked_records)@ == old(probe_blocked_records)@
                },
            },
            GeneratedCallLinkProbeResult::Blocked { reason } => {
                &&& r is None
                &&& final(probe_blocked_records)@ == old(probe_blocked_records)@.push(
                    spec_call_link_probe_blocked_record(candidate, reason),
                )
                &&& final(probe_miss_records)@ == old(probe_miss_records)@
            },
            GeneratedCallLinkProbeResult::Miss { reason } => {
                &&& r is None
                &&& final(probe_miss_records)@ == old(probe_miss_records)@.push(
                    spec_call_link_probe_miss_record(owner, bytecode_index, Some(candidate), reason),
                )
                &&& final(probe_blocked_records)@ == old(probe_blocked_records)@
            },
        },
{
    match answer {
        GeneratedCallLinkProbeResult::DirectCall(authorization) => match operands.callee_object {
            None => {
                probe_miss_records.push(
                    call_link_probe_miss_record(
                        owner,
                        bytecode_index,
                        Some(&candidate),
                        GeneratedCallLinkProbeMissReason::MissingCalleeIdentity,
                    ),
                );
                None
            },
            Some(callee_object) => Some(
                BaselineGeneratedJsDirectCall {
                    candidate,
                    authorization,
                    callee_value: operands.callee_value,
                    callee_object,
                    this_value: operands.this_value,
                    this_object: operands.this_object,
                    argument_count_including_this: operands.argument_count_including_this,
                },
            ),
        },
        GeneratedCallLinkProbeResult::Blocked { reason } => {
            probe_blocked_records.push(call_link_probe_blocked_record(&candidate, reason));
            None
        },
        GeneratedCallLinkProbeResult::Miss { reason } => {
            probe_miss_records.push(call_link_probe_miss_record(owner, bytecode_index, Some(&candidate), reason));
            None
        },
    }
}

/// Looks for a direct call at a call site: a serving hot slot first, then each current
/// candidate (for the known callee) probed with the host in table order. Misses and
/// blocked probes are recorded; `Ok(None)` leaves the call to the ordinary handoff.
pub fn execute_generated_call_link_sidecar_probe_with_host<H: DispatchHost>(
    candidate_table: &GeneratedCallLinkCandidateTable,
    direct_call_hot_slots: &Vec<BaselineGeneratedJsDirectCallHotSlot>,
    dispatch_host: &mut H,
    probe_miss_records: &mut Vec<BaselineGeneratedCallLinkProbeMissRecord>,
    probe_blocked_records: &mut Vec<BaselineGeneratedCallLinkProbeBlockedRecord>,
    direct_call_hot_slot_hits: &mut usize,
    execution: &InterpreterExecutionState,
    attempt: GeneratedCallLinkSidecarAttempt,
) -> (r: Result<Option<BaselineGeneratedJsDirectCall>, BaselineInstructionAbort>)
    ensures
        old(probe_miss_records)@.is_prefix_of(final(probe_miss_records)@),
        old(probe_blocked_records)@.is_prefix_of(final(probe_blocked_records)@),
        *old(direct_call_hot_slot_hits) <= *final(direct_call_hot_slot_hits),
        spec_call_link_probe_outcome(
            *candidate_table,
            direct_call_hot_slots@,
            *final(dispatch_host) == *old(dispatch_host),
            old(probe_miss_records)@,
            final(probe_miss_records)@,
            old(probe_blocked_records)@,
            final(probe_blocked_records)@,
            *old(direct_call_hot_slot_hits),
            *final(direct_call_hot_slot_hits),
            *execution,
            attempt,
            r,
        ),
{
    let window = attempt.window;
    let code_block = attempt.code_block;
    let fallback = attempt.fallback;
    let owner = attempt.owner;
    let opcode = attempt.opcode;
    let instruction = attempt.instruction;
    let bytecode_index = instruction.bytecode_index;
    if candidate_table.owner() != owner {
        return Ok(None);
    }
    let candidates = candidate_table.candidates_for_bytecode_index(bytecode_index.offset());
    if candidates.len() == 0 {
        probe_miss_records.push(
            call_link_probe_miss_record(owner, bytecode_index, None, GeneratedCallLinkProbeMissReason::CandidateNotFound),
        );
        return Ok(None);
    }
    let operands = generated_call_link_sidecar_operands(execution, code_block, window, instruction, fallback)?;
    if let Some(direct_call) = generated_call_link_hot_slot_direct_call(
        direct_call_hot_slots,
        &candidates,
        owner,
        opcode,
        bytecode_index,
        operands,
    ) {
        let hits = *direct_call_hot_slot_hits;
        *direct_call_hot_slot_hits = if hits == usize::MAX {
            usize::MAX
        } else {
            hits + 1
        };
        return Ok(Some(direct_call));
    }
    let ghost all_candidates = candidates@;
    let candidates_to_probe = match operands.callee_object {
        Some(callee_object) => {
            let mut matching: Vec<GeneratedCallLinkCandidate> = Vec::new();
            let ghost same_callee = |candidate: GeneratedCallLinkCandidate| candidate.target.callee == callee_object;
            let mut j: usize = 0;
            while j < candidates.len()
                invariant
                    j <= candidates@.len(),
                    same_callee == (|candidate: GeneratedCallLinkCandidate| candidate.target.callee == callee_object),
                    matching@ == spec_matching(candidates@.take(j as int), same_callee),
                decreases candidates@.len() - j,
            {
                assert(candidates@.take(j + 1).drop_last() =~= candidates@.take(j as int));
                if candidates[j].target.callee == callee_object {
                    matching.push(candidates[j]);
                }
                j = j + 1;
            }
            assert(candidates@.take(j as int) =~= candidates@);
            if matching.len() == 0 {
                probe_miss_records.push(
                    call_link_probe_miss_record(
                        owner,
                        bytecode_index,
                        Some(&candidates[0]),
                        GeneratedCallLinkProbeMissReason::CalleeMismatch,
                    ),
                );
                return Ok(None);
            }
            matching
        },
        None => candidates,
    };
    assert(candidates_to_probe@ == spec_candidates_for_callee(all_candidates, operands.callee_object));
    let mut i: usize = 0;
    while i < candidates_to_probe.len()
        invariant
            i <= candidates_to_probe@.len(),
            old(probe_miss_records)@.is_prefix_of(probe_miss_records@),
            old(probe_blocked_records)@.is_prefix_of(probe_blocked_records@),
            *direct_call_hot_slot_hits == *old(direct_call_hot_slot_hits),
            candidates_to_probe@ == spec_candidates_for_callee(all_candidates, operands.callee_object),
            all_candidates == spec_matching(candidate_table.candidates@, spec_call_link_candidate_at(bytecode_index.offset)),
            all_candidates.len() > 0,
            candidate_table.owner == owner,
            owner == attempt.owner,
            opcode == attempt.opcode,
            bytecode_index == attempt.instruction.bytecode_index,
            spec_generated_call_link_sidecar_operands(*execution, *attempt.code_block, attempt.window, *attempt.instruction, attempt.fallback)
                == Ok::<GeneratedCallLinkSidecarOperands, BaselineInstructionAbort>(operands),
            spec_hot_slot_direct_call(direct_call_hot_slots@, all_candidates, owner, opcode, bytecode_index, operands) is None,
            spec_call_link_records_for_candidates(
                old(probe_miss_records)@,
                probe_miss_records@,
                old(probe_blocked_records)@,
                probe_blocked_records@,
                owner,
                bytecode_index,
                all_candidates,
                candidates_to_probe@,
            ),
        decreases candidates_to_probe@.len() - i,
    {
        let candidate = candidates_to_probe[i];
        assert(candidates_to_probe@.contains(candidate)) by {
            assert(candidates_to_probe@[i as int] == candidate);
        }
        i = i + 1;
        let request = generated_call_link_probe_request(candidate, owner, opcode, bytecode_index, operands);
        let answer = dispatch_host.probe_generated_call_link(request);
        let ghost misses_mid = probe_miss_records@;
        let ghost blocked_mid = probe_blocked_records@;
        let answered = finish_call_link_probe_answer(
            probe_miss_records,
            probe_blocked_records,
            candidate,
            owner,
            bytecode_index,
            operands,
            answer,
        );
        proof {
            lemma_call_link_record_added(
                old(probe_miss_records)@,
                misses_mid,
                probe_miss_records@,
                old(probe_blocked_records)@,
                blocked_mid,
                probe_blocked_records@,
                owner,
                bytecode_index,
                all_candidates,
                candidates_to_probe@,
                candidate,
            );
        }
        if let Some(direct_call) = answered {
            return Ok(Some(direct_call));
        }
    }
    Ok(None)
}


/// What a sidecar that may answer a call itself did to the registers: nothing, or wrote
/// some value into the call's destination (and the call is done).
pub open spec fn spec_call_answered(
    instruction: TypedInstruction,
    window: RegisterWindow,
    before: Seq<RuntimeValue>,
    r: Result<Option<BaselineInstructionOutcome>, BaselineInstructionAbort>,
    after: Seq<RuntimeValue>,
) -> bool {
    match r {
        Ok(Some(outcome)) => {
            &&& outcome == BaselineInstructionOutcome::Continue
            &&& spec_register_operand(instruction, 0) is Ok
            &&& exists|value: RuntimeValue|
                #[trigger] spec_write_register(before, window, spec_register_operand(instruction, 0)->Ok_0, value)
                    == Ok::<Seq<RuntimeValue>, ExecutionError>(after)
        },
        _ => after == before,
    }
}

/// The value of the register that operand `index` of `instruction` names.
pub open spec fn spec_register_operand_value(
    slots: Seq<RuntimeValue>,
    code_block: CodeBlock,
    window: RegisterWindow,
    instruction: TypedInstruction,
    index: int,
    site: BaselineGeneratedFallbackSite,
) -> Result<RuntimeValue, BaselineInstructionAbort> {
    match spec_register_operand_or_fallback(instruction, index, site) {
        Err(abort) => Err(abort),
        Ok(register) => spec_read_register_or_outcome(slots, code_block, window, register, site),
    }
}

/// An argument of a call when `present`: the value of the register operand `index` names.
pub open spec fn spec_optional_argument(
    slots: Seq<RuntimeValue>,
    code_block: CodeBlock,
    window: RegisterWindow,
    instruction: TypedInstruction,
    index: int,
    present: bool,
    site: BaselineGeneratedFallbackSite,
) -> Result<Option<RuntimeValue>, BaselineInstructionAbort> {
    if !present {
        Ok(None)
    } else {
        match spec_register_operand_value(slots, code_block, window, instruction, index, site) {
            Err(abort) => Err(abort),
            Ok(value) => Ok(Some(value)),
        }
    }
}

/// What a call offers the host's native intrinsics, with the register its answer goes
/// to: the callee, `this` (`undefined` for a plain call), the argument count and the
/// first two arguments that were passed. `Ok(None)` for an instruction that is no call;
/// an operand or register that cannot be read ends the step as its access does.
pub open spec fn spec_native_intrinsic_call_request(
    slots: Seq<RuntimeValue>,
    attempt: GeneratedCallLinkSidecarAttempt,
) -> Result<Option<(VirtualRegister, GeneratedNativeIntrinsicCallRequest)>, BaselineInstructionAbort> {
    let instruction = *attempt.instruction;
    let code_block = *attempt.code_block;
    let window = attempt.window;
    let site = attempt.fallback;
    let opcode = attempt.opcode;
    match spec_register_operand_or_fallback(instruction, 0, site) {
        Err(abort) => Err(abort),
        Ok(destination) => match spec_register_operand_value(slots, code_block, window, instruction, 1, site) {
            Err(abort) => Err(abort),
            Ok(callee_value) => {
                let head: Result<Option<(RuntimeValue, u32, int)>, BaselineInstructionAbort> = if opcode
                    == CoreOpcode::CallWithThis {
                    match spec_register_operand_value(slots, code_block, window, instruction, 2, site) {
                        Err(abort) => Err(abort),
                        Ok(this_value) => match spec_unsigned_immediate_operand_or_fallback(instruction, 3, site) {
                            Err(abort) => Err(abort),
                            Ok(count) => Ok(Some((this_value, count, 4))),
                        },
                    }
                } else if opcode == CoreOpcode::Call {
                    match spec_unsigned_immediate_operand_or_fallback(instruction, 2, site) {
                        Err(abort) => Err(abort),
                        Ok(count) => Ok(Some((RuntimeValue::Undefined, count, 3))),
                    }
                } else {
                    Ok(None)
                };
                match head {
                    Err(abort) => Err(abort),
                    Ok(None) => Ok(None),
                    Ok(Some((this_value, count, first))) => match spec_optional_argument(
                        slots,
                        code_block,
                        window,
                        instruction,
                        first,
                        count != 0,
                        site,
                    ) {
                        Err(abort) => Err(abort),
                        Ok(first_argument) => match spec_optional_argument(
                            slots,
                            code_block,
                            window,
                            instruction,
                            first + 1,
                            count > 1,
                            site,
                        ) {
                            Err(abort) => Err(abort),
                            Ok(second_argument) => Ok(
                                Some(
                                    (
                                        destination,
                                        GeneratedNativeIntrinsicCallRequest {
                                            owner: attempt.owner,
                                            bytecode_index: instruction.bytecode_index,
                                            opcode,
                                            callee_value,
                                            this_value,
                                            provided_argument_count: count,
                                            first_argument,
                                            second_argument,
                                        },
                                    ),
                                ),
                            ),
                        },
                    },
                }
            },
        },
    }
}

/// What offering a call to the host's native intrinsics may end in: a call whose request
/// cannot be built ends as its read does (or with `Ok(None)` for no call), the host kept
/// as it was and nothing changed; otherwise the host declines (nothing changed) or its
/// value is written into the request's destination.
pub open spec fn spec_native_intrinsic_call_outcome(
    attempt: GeneratedCallLinkSidecarAttempt,
    before: InterpreterExecutionState,
    after: InterpreterExecutionState,
    r: Result<Option<BaselineInstructionOutcome>, BaselineInstructionAbort>,
    host_kept: bool,
) -> bool {
    match spec_native_intrinsic_call_request(before.registers.slots@, attempt) {
        Err(abort) => {
            &&& r == Err::<Option<BaselineInstructionOutcome>, BaselineInstructionAbort>(abort)
            &&& host_kept
            &&& after == before
        },
        Ok(None) => {
            &&& r == Ok::<Option<BaselineInstructionOutcome>, BaselineInstructionAbort>(None)
            &&& host_kept
            &&& after == before
        },
        Ok(Some((destination, _))) => {
            ||| r == Ok::<Option<BaselineInstructionOutcome>, BaselineInstructionAbort>(None) && after == before
            ||| exists|value: RuntimeValue|
                {
                    let step = #[trigger] spec_write_step(
                        before.registers.slots@,
                        attempt.window,
                        destination,
                        value,
                        attempt.fallback,
                    );
                    &&& after.registers.slots@ == step.1
                    &&& after.stack == before.stack
                    &&& after.heap == before.heap
                    &&& r == match step.0 {
                        Ok(outcome) => Ok::<Option<BaselineInstructionOutcome>, BaselineInstructionAbort>(Some(outcome)),
                        Err(abort) => Err(abort),
                    }
                }
        },
    }
}

/// Builds what a call offers the host's native intrinsics; see
/// `spec_native_intrinsic_call_request`.
pub fn native_intrinsic_call_request(
    execution: &InterpreterExecutionState,
    attempt: GeneratedCallLinkSidecarAttempt,
) -> (r: Result<Option<(VirtualRegister, GeneratedNativeIntrinsicCallRequest)>, BaselineInstructionAbort>)
    ensures
        r == spec_native_intrinsic_call_request(execution.registers.slots@, attempt),
{
    let window = attempt.window;
    let code_block = attempt.code_block;
    let fallback = attempt.fallback;
    let instruction = attempt.instruction;
    let opcode = attempt.opcode;
    let destination = register_operand_or_fallback(instruction, 0, fallback)?;
    let callee_register = register_operand_or_fallback(instruction, 1, fallback)?;
    let callee_value = read_register_or_outcome(execution, code_block, window, callee_register, fallback)?;
    let (this_value, provided_argument_count, first_argument_operand) = if opcode == CoreOpcode::CallWithThis {
        let this_register = register_operand_or_fallback(instruction, 2, fallback)?;
        let this_value = read_register_or_outcome(execution, code_block, window, this_register, fallback)?;
        let count = unsigned_immediate_operand_or_fallback(instruction, 3, fallback)?;
        (this_value, count, 4usize)
    } else if opcode == CoreOpcode::Call {
        let count = unsigned_immediate_operand_or_fallback(instruction, 2, fallback)?;
        (RuntimeValue::undefined(), count, 3usize)
    } else {
        return Ok(None);
    };
    let first_argument = if provided_argument_count == 0 {
        None
    } else {
        let argument_register = register_operand_or_fallback(instruction, first_argument_operand, fallback)?;
        Some(read_register_or_outcome(execution, code_block, window, argument_register, fallback)?)
    };
    let second_argument = if provided_argument_count <= 1 {
        None
    } else {
        let argument_register = register_operand_or_fallback(instruction, first_argument_operand + 1, fallback)?;
        Some(read_register_or_outcome(execution, code_block, window, argument_register, fallback)?)
    };
    Ok(
        Some(
            (
                destination,
                GeneratedNativeIntrinsicCallRequest {
                    owner: attempt.owner,
                    bytecode_index: instruction.bytecode_index,
                    opcode,
                    callee_value,
                    this_value,
                    provided_argument_count,
                    first_argument,
                    second_argument,
                },
            ),
        ),
    )
}

/// Offers a call to the host's native intrinsics: the request of
/// `spec_native_intrinsic_call_request` goes to the host, and a hit writes its value into
/// the destination. When no request can be built the host is not asked.
pub fn execute_generated_native_intrinsic_call_probe_with_host<H: DispatchHost>(
    dispatch_host: &mut H,
    execution: &mut InterpreterExecutionState,
    attempt: GeneratedCallLinkSidecarAttempt,
) -> (r: Result<Option<BaselineInstructionOutcome>, BaselineInstructionAbort>)
    ensures
        final(execution).stack == old(execution).stack,
        final(execution).heap == old(execution).heap,
        spec_call_answered(
            *attempt.instruction,
            attempt.window,
            old(execution).registers.slots@,
            r,
            final(execution).registers.slots@,
        ),
        attempt.opcode != CoreOpcode::Call && attempt.opcode != CoreOpcode::CallWithThis ==> {
            &&& *final(dispatch_host) == *old(dispatch_host)
            &&& (r is Err || r == Ok::<Option<BaselineInstructionOutcome>, BaselineInstructionAbort>(None))
        },
        spec_native_intrinsic_call_outcome(
            attempt,
            *old(execution),
            *final(execution),
            r,
            *final(dispatch_host) == *old(dispatch_host),
        ),
{
    let window = attempt.window;
    let fallback = attempt.fallback;
    let (destination, request) = match native_intrinsic_call_request(execution, attempt)? {
        None => {
            return Ok(None);
        },
        Some(built) => built,
    };
    let answer = dispatch_host.dispatch_generated_native_intrinsic_call(request);
    finish_native_intrinsic_call(execution, window, destination, answer, fallback)
}

/// What a call does with the host's native-intrinsic answer: a hit's value goes into the
/// call's destination, a miss leaves the call to the VM with nothing changed.
pub fn finish_native_intrinsic_call(
    execution: &mut InterpreterExecutionState,
    window: RegisterWindow,
    destination: VirtualRegister,
    answer: GeneratedNativeIntrinsicCallResult,
    fallback: BaselineGeneratedFallbackSite,
) -> (r: Result<Option<BaselineInstructionOutcome>, BaselineInstructionAbort>)
    ensures
        final(execution).stack == old(execution).stack,
        final(execution).heap == old(execution).heap,
        match answer {
            GeneratedNativeIntrinsicCallResult::Hit { value } => {
                let step = spec_write_step(old(execution).registers.slots@, window, destination, value, fallback);
                &&& final(execution).registers.slots@ == step.1
                &&& r == match step.0 {
                    Ok(outcome) => Ok::<Option<BaselineInstructionOutcome>, BaselineInstructionAbort>(Some(outcome)),
                    Err(abort) => Err(abort),
                }
            },
            GeneratedNativeIntrinsicCallResult::Miss => {
                &&& r == Ok::<Option<BaselineInstructionOutcome>, BaselineInstructionAbort>(None)
                &&& *final(execution) == *old(execution)
            },
        },
{
    match answer {
        GeneratedNativeIntrinsicCallResult::Hit { value } => {
            let outcome = write_register_or_outcome(execution, window, destination, value, fallback)?;
            Ok(Some(outcome))
        },
        GeneratedNativeIntrinsicCallResult::Miss => Ok(None),
    }
}

/// Offers a call to the native intrinsics of the property sidecars' host.
pub fn execute_generated_native_intrinsic_call_property_sidecar_probe<H: DispatchHost>(
    sidecars: &mut BaselineGeneratedPropertyExecutionSidecars<'_, H>,
    execution: &mut InterpreterExecutionState,
    attempt: GeneratedCallLinkSidecarAttempt,
) -> (r: Result<Option<BaselineInstructionOutcome>, BaselineInstructionAbort>)
    ensures
        spec_same_plans(*old(sidecars), *final(sidecars)),
        spec_records_unchanged(*old(sidecars), *final(sidecars)),
        final(execution).stack == old(execution).stack,
        final(execution).heap == old(execution).heap,
        spec_call_answered(
            *attempt.instruction,
            attempt.window,
            old(execution).registers.slots@,
            r,
            final(execution).registers.slots@,
        ),
        spec_native_intrinsic_call_outcome(attempt, *old(execution), *final(execution), r, *final(sidecars) == *old(sidecars)),
        match spec_native_intrinsic_call_request(old(execution).registers.slots@, attempt) {
            Ok(Some((destination, request))) => {
                &&& final(sidecars).native_host_exchanges@.len() == old(sidecars).native_host_exchanges@.len() + 1
                &&& final(sidecars).native_host_exchanges@ == old(sidecars).native_host_exchanges@.push(
                    final(sidecars).native_host_exchanges@.last(),
                )
                &&& final(sidecars).native_host_exchanges@.last().0 == request
                &&& match final(sidecars).native_host_exchanges@.last().1 {
                    GeneratedNativeIntrinsicCallResult::Hit { value } => {
                        let step = spec_write_step(
                            old(execution).registers.slots@,
                            attempt.window,
                            destination,
                            value,
                            attempt.fallback,
                        );
                        &&& final(execution).registers.slots@ == step.1
                        &&& r == match step.0 {
                            Ok(outcome) => Ok::<Option<BaselineInstructionOutcome>, BaselineInstructionAbort>(
                                Some(outcome),
                            ),
                            Err(abort) => Err(abort),
                        }
                    },
                    GeneratedNativeIntrinsicCallResult::Miss => {
                        &&& r == Ok::<Option<BaselineInstructionOutcome>, BaselineInstructionAbort>(None)
                        &&& *final(execution) == *old(execution)
                    },
                }
            },
            _ => final(sidecars).native_host_exchanges == old(sidecars).native_host_exchanges,
        },
{
    let window = attempt.window;
    let fallback = attempt.fallback;
    let (destination, request) = match native_intrinsic_call_request(execution, attempt)? {
        None => {
            return Ok(None);
        },
        Some(built) => built,
    };
    let answer = sidecars.ask_native_intrinsic_call(request);
    finish_native_intrinsic_call(execution, window, destination, answer, fallback)
}

/// Looks for a direct call with the property sidecars' call-link table, when they have one.
pub fn execute_generated_call_link_property_sidecar_probe<H: DispatchHost>(
    sidecars: &mut BaselineGeneratedPropertyExecutionSidecars<'_, H>,
    execution: &InterpreterExecutionState,
    attempt: GeneratedCallLinkSidecarAttempt,
) -> (r: Result<Option<BaselineGeneratedJsDirectCall>, BaselineInstructionAbort>)
    ensures
        spec_same_plans(*old(sidecars), *final(sidecars)),
        spec_call_link_records_extended(*old(sidecars), *final(sidecars)),
        old(sidecars).generated_call_link_candidate_table is None ==> {
            &&& r == Ok::<Option<BaselineGeneratedJsDirectCall>, BaselineInstructionAbort>(None)
            &&& final(sidecars).dispatch_host == old(sidecars).dispatch_host
            &&& spec_records_unchanged(*old(sidecars), *final(sidecars))
            &&& *final(sidecars) == *old(sidecars)
        },
        old(sidecars).generated_call_link_candidate_table matches Some(table) ==> spec_call_link_probe_outcome(
            *table,
            old(sidecars).generated_direct_call_hot_slots@,
            final(sidecars).dispatch_host == old(sidecars).dispatch_host,
            old(sidecars).generated_call_link_probe_miss_records@,
            final(sidecars).generated_call_link_probe_miss_records@,
            old(sidecars).generated_call_link_probe_blocked_records@,
            final(sidecars).generated_call_link_probe_blocked_records@,
            old(sidecars).generated_direct_call_hot_slot_hits,
            final(sidecars).generated_direct_call_hot_slot_hits,
            *execution,
            attempt,
            r,
        ),
{
    let candidate_table = match sidecars.generated_call_link_candidate_table {
        None => {
            return Ok(None);
        },
        Some(table) => table,
    };
    execute_generated_call_link_sidecar_probe_with_host(
        candidate_table,
        &sidecars.generated_direct_call_hot_slots,
        &mut sidecars.dispatch_host,
        &mut sidecars.generated_call_link_probe_miss_records,
        &mut sidecars.generated_call_link_probe_blocked_records,
        &mut sidecars.generated_direct_call_hot_slot_hits,
        execution,
        attempt,
    )
}

/// Only the call-link records grew.
pub open spec fn spec_call_link_records_extended<'a, H>(
    a: BaselineGeneratedPropertyExecutionSidecars<'a, H>,
    b: BaselineGeneratedPropertyExecutionSidecars<'a, H>,
) -> bool {
    &&& a.destination_root_sync_requests@ == b.destination_root_sync_requests@
    &&& a.property_load_probe_miss_records@ == b.property_load_probe_miss_records@
    &&& a.guarded_property_load_probe_miss_records@ == b.guarded_property_load_probe_miss_records@
    &&& a.property_store_probe_miss_records@ == b.property_store_probe_miss_records@
    &&& a.property_store_mutation_rejection_records@ == b.property_store_mutation_rejection_records@
    &&& a.property_store_mutation_commit_records@ == b.property_store_mutation_commit_records@
    &&& a.generated_call_link_probe_miss_records@.is_prefix_of(b.generated_call_link_probe_miss_records@)
    &&& a.generated_call_link_probe_blocked_records@.is_prefix_of(b.generated_call_link_probe_blocked_records@)
    &&& a.generated_direct_call_hot_slot_hits <= b.generated_direct_call_hot_slot_hits
}


/// The instructions that make a named-property increment after a `get by name`:
/// `to number`, an optional `move` of the old value, `load int32 1`, `add`, and a
/// `put by name` of the sum back to the same base and name.
pub struct PropertyIncrementSidecarShape<'c> {
    pub to_number_destination: VirtualRegister,
    pub post_update_result_destination: Option<VirtualRegister>,
    pub one_destination: VirtualRegister,
    pub add_destination: VirtualRegister,
    pub put_instruction: &'c TypedInstruction,
    pub put_site: BaselineGeneratedPropertyHandoffSite,
    pub resume_after_put: Option<BytecodeIndex>,
}

/// The same shape, as plain values.
pub struct PropertyIncrementShape {
    pub to_number_destination: VirtualRegister,
    pub post_update_result_destination: Option<VirtualRegister>,
    pub one_destination: VirtualRegister,
    pub add_destination: VirtualRegister,
    pub put_instruction: TypedInstruction,
    pub put_site: BaselineGeneratedPropertyHandoffSite,
    pub resume_after_put: Option<BytecodeIndex>,
}

pub open spec fn spec_next_cursor(cursor: u32) -> Option<u32> {
    if cursor == u32::MAX {
        None
    } else {
        Some((cursor + 1) as u32)
    }
}

/// The `load int32 1`, `add` and `put by name` that finish an increment from `cursor` on.
pub open spec fn spec_increment_tail(
    owner: CodeBlockId,
    code_block: CodeBlock,
    cursor: u32,
    get_base: VirtualRegister,
    get_identifier: u32,
    get_key: CacheKey,
    to_number_destination: VirtualRegister,
    post_update_result_destination: Option<VirtualRegister>,
    plan: Option<crate::sites::BaselineGeneratedPropertyHandoffPlanMetadata>,
) -> Option<PropertyIncrementShape> {
    match spec_decoded_core_instruction_at(code_block, cursor, CoreOpcode::LoadInt32) {
        None => None,
        Some(load_one) => match (spec_register_operand(load_one, 0), spec_signed_immediate_operand(load_one, 1)) {
            (Ok(one_destination), Ok(one)) => if one != 1 {
                None
            } else {
                match spec_next_cursor(cursor) {
                    None => None,
                    Some(add_cursor) => match spec_decoded_core_instruction_at(code_block, add_cursor, CoreOpcode::AddInt32) {
                        None => None,
                        Some(add) => match (
                            spec_register_operand(add, 0),
                            spec_register_operand(add, 1),
                            spec_register_operand(add, 2),
                        ) {
                            (Ok(add_destination), Ok(left), Ok(right)) => if left != to_number_destination || right
                                != one_destination {
                                None
                            } else {
                                match spec_next_cursor(add_cursor) {
                                    None => None,
                                    Some(put_cursor) => match spec_decoded_core_instruction_at(
                                        code_block,
                                        put_cursor,
                                        CoreOpcode::PutByName,
                                    ) {
                                        None => None,
                                        Some(put) => match (
                                            spec_register_operand(put, 0),
                                            spec_identifier_index_operand(put, 1),
                                            spec_register_operand(put, 2),
                                        ) {
                                            (Ok(put_base), Ok(put_identifier), Ok(put_value)) => if put_base != get_base
                                                || put_identifier != get_identifier || put_value != add_destination {
                                                None
                                            } else {
                                                match spec_property_handoff_site_for_instruction(owner, code_block, put, plan) {
                                                    Err(_) => None,
                                                    Ok(put_site) => if put_site.opcode != CoreOpcode::PutByName
                                                        || spec_named_property_sidecar_cache_key(put_site) != Some(get_key) {
                                                        None
                                                    } else {
                                                        Some(
                                                            PropertyIncrementShape {
                                                                to_number_destination,
                                                                post_update_result_destination,
                                                                one_destination,
                                                                add_destination,
                                                                put_instruction: put,
                                                                put_site,
                                                                resume_after_put: spec_next_baseline_generated_bytecode_index(
                                                                    code_block,
                                                                    put,
                                                                ),
                                                            },
                                                        )
                                                    },
                                                }
                                            },
                                            _ => None,
                                        },
                                    },
                                }
                            },
                            _ => None,
                        },
                    },
                }
            },
            _ => None,
        },
    }
}

/// The increment shape that follows a `get by name`, when the code block has one there.
pub open spec fn spec_property_increment_shape(
    owner: CodeBlockId,
    code_block: CodeBlock,
    get_instruction: TypedInstruction,
    get_site: BaselineGeneratedPropertyHandoffSite,
    plan: Option<crate::sites::BaselineGeneratedPropertyHandoffPlanMetadata>,
) -> Option<PropertyIncrementShape> {
    if get_site.opcode != CoreOpcode::GetByName || get_instruction.opcode != Opcode::Core(CoreOpcode::GetByName) {
        None
    } else {
        match (
            spec_register_operand(get_instruction, 0),
            spec_register_operand(get_instruction, 1),
            spec_identifier_index_operand(get_instruction, 2),
            spec_named_property_sidecar_cache_key(get_site),
        ) {
            (Ok(get_destination), Ok(get_base), Ok(get_identifier), Some(get_key)) => match spec_next_cursor(
                get_instruction.bytecode_index.offset,
            ) {
                None => None,
                Some(to_number_cursor) => match spec_decoded_core_instruction_at(
                    code_block,
                    to_number_cursor,
                    CoreOpcode::ToNumber,
                ) {
                    None => None,
                    Some(to_number) => match (spec_register_operand(to_number, 0), spec_register_operand(to_number, 1)) {
                        (Ok(to_number_destination), Ok(source)) => if source != get_destination {
                            None
                        } else {
                            match spec_next_cursor(to_number_cursor) {
                                None => None,
                                Some(cursor) => match spec_decoded_core_instruction_at(code_block, cursor, CoreOpcode::Move) {
                                    Some(move_instruction) => match (
                                        spec_register_operand(move_instruction, 1),
                                        spec_register_operand(move_instruction, 0),
                                    ) {
                                        (Ok(moved), Ok(post_destination)) => if moved != to_number_destination {
                                            None
                                        } else {
                                            match spec_next_cursor(cursor) {
                                                None => None,
                                                Some(after_move) => spec_increment_tail(
                                                    owner,
                                                    code_block,
                                                    after_move,
                                                    get_base,
                                                    get_identifier,
                                                    get_key,
                                                    to_number_destination,
                                                    Some(post_destination),
                                                    plan,
                                                ),
                                            }
                                        },
                                        _ => None,
                                    },
                                    None => spec_increment_tail(
                                        owner,
                                        code_block,
                                        cursor,
                                        get_base,
                                        get_identifier,
                                        get_key,
                                        to_number_destination,
                                        None,
                                        plan,
                                    ),
                                },
                            }
                        },
                        _ => None,
                    },
                },
            },
            _ => None,
        }
    }
}

pub open spec fn spec_shape_view(shape: PropertyIncrementSidecarShape) -> PropertyIncrementShape {
    PropertyIncrementShape {
        to_number_destination: shape.to_number_destination,
        post_update_result_destination: shape.post_update_result_destination,
        one_destination: shape.one_destination,
        add_destination: shape.add_destination,
        put_instruction: *shape.put_instruction,
        put_site: shape.put_site,
        resume_after_put: shape.resume_after_put,
    }
}

fn next_cursor(cursor: u32) -> (r: Option<u32>)
    ensures
        r == spec_next_cursor(cursor),
{
    if cursor == u32::MAX {
        None
    } else {
        Some(cursor + 1)
    }
}

fn increment_tail<'c>(
    owner: CodeBlockId,
    code_block: &'c CodeBlock,
    cursor: u32,
    get_base: VirtualRegister,
    get_identifier: u32,
    get_key: CacheKey,
    to_number_destination: VirtualRegister,
    post_update_result_destination: Option<VirtualRegister>,
    plan: Option<&crate::sites::BaselineGeneratedPropertyHandoffPlanMetadata>,
) -> (r: Option<PropertyIncrementSidecarShape<'c>>)
    ensures
        match spec_increment_tail(
            owner,
            *code_block,
            cursor,
            get_base,
            get_identifier,
            get_key,
            to_number_destination,
            post_update_result_destination,
            match plan {
                Some(p) => Some(*p),
                None => None,
            },
        ) {
            Some(shape) => r is Some && spec_shape_view(r->Some_0) == shape,
            None => r is None,
        },
{
    let load_one = decoded_core_instruction_at(code_block, cursor, CoreOpcode::LoadInt32)?;
    let one_destination = load_one.register_operand(0).ok()?;
    let one = load_one.signed_immediate_operand(1).ok()?;
    if one != 1 {
        return None;
    }
    let add_cursor = next_cursor(cursor)?;
    let add = decoded_core_instruction_at(code_block, add_cursor, CoreOpcode::AddInt32)?;
    let add_destination = add.register_operand(0).ok()?;
    let left = add.register_operand(1).ok()?;
    let right = add.register_operand(2).ok()?;
    if left != to_number_destination || right != one_destination {
        return None;
    }
    let put_cursor = next_cursor(add_cursor)?;
    let put = decoded_core_instruction_at(code_block, put_cursor, CoreOpcode::PutByName)?;
    let put_base = put.register_operand(0).ok()?;
    let put_identifier = put.identifier_index_operand(1).ok()?;
    let put_value = put.register_operand(2).ok()?;
    if put_base != get_base || put_identifier != get_identifier || put_value != add_destination {
        return None;
    }
    let put_site = property_handoff_site_for_instruction(owner, code_block, put, plan).ok()?;
    if put_site.opcode != CoreOpcode::PutByName {
        return None;
    }
    let put_key = named_property_sidecar_cache_key(&put_site)?;
    if put_key != get_key {
        return None;
    }
    Some(
        PropertyIncrementSidecarShape {
            to_number_destination,
            post_update_result_destination,
            one_destination,
            add_destination,
            put_instruction: put,
            put_site,
            resume_after_put: next_baseline_generated_bytecode_index(code_block, put),
        },
    )
}

/// Recognizes a named-property increment right after a `get by name`.
pub fn property_increment_sidecar_shape_after_get_by_name<'c>(
    owner: CodeBlockId,
    code_block: &'c CodeBlock,
    get_instruction: &TypedInstruction,
    get_site: &BaselineGeneratedPropertyHandoffSite,
    plan: Option<&crate::sites::BaselineGeneratedPropertyHandoffPlanMetadata>,
) -> (r: Option<PropertyIncrementSidecarShape<'c>>)
    ensures
        match spec_property_increment_shape(
            owner,
            *code_block,
            *get_instruction,
            *get_site,
            match plan {
                Some(p) => Some(*p),
                None => None,
            },
        ) {
            Some(shape) => r is Some && spec_shape_view(r->Some_0) == shape,
            None => r is None,
        },
{
    if get_site.opcode != CoreOpcode::GetByName || get_instruction.opcode != Opcode::Core(CoreOpcode::GetByName) {
        return None;
    }
    let get_destination = get_instruction.register_operand(0).ok()?;
    let get_base = get_instruction.register_operand(1).ok()?;
    let get_identifier = get_instruction.identifier_index_operand(2).ok()?;
    let get_key = named_property_sidecar_cache_key(get_site)?;
    let to_number_cursor = next_cursor(get_instruction.bytecode_index.offset)?;
    let to_number = decoded_core_instruction_at(code_block, to_number_cursor, CoreOpcode::ToNumber)?;
    let to_number_destination = to_number.register_operand(0).ok()?;
    let source = to_number.register_operand(1).ok()?;
    if source != get_destination {
        return None;
    }
    let cursor = next_cursor(to_number_cursor)?;
    match decoded_core_instruction_at(code_block, cursor, CoreOpcode::Move) {
        Some(move_instruction) => {
            let moved = move_instruction.register_operand(1).ok()?;
            let post_destination = move_instruction.register_operand(0).ok()?;
            if moved != to_number_destination {
                return None;
            }
            let after_move = next_cursor(cursor)?;
            increment_tail(
                owner,
                code_block,
                after_move,
                get_base,
                get_identifier,
                get_key,
                to_number_destination,
                Some(post_destination),
                plan,
            )
        },
        None => increment_tail(
            owner,
            code_block,
            cursor,
            get_base,
            get_identifier,
            get_key,
            to_number_destination,
            None,
            plan,
        ),
    }
}


/// How an increment sidecar computes the new value.
#[derive(Clone, Copy, Debug, PartialEq, Eq, Structural)]
pub enum BaselineGeneratedPropertyIncrementNumericMode {
    AnyNumber,
    Int32NoOverflow,
}

/// Only the property records (loads and stores) grew.
pub open spec fn spec_property_records_extended<'a, H>(
    a: BaselineGeneratedPropertyExecutionSidecars<'a, H>,
    b: BaselineGeneratedPropertyExecutionSidecars<'a, H>,
) -> bool {
    &&& a.destination_root_sync_requests@.is_prefix_of(b.destination_root_sync_requests@)
    &&& a.property_load_probe_miss_records@.is_prefix_of(b.property_load_probe_miss_records@)
    &&& a.guarded_property_load_probe_miss_records@.len() <= b.guarded_property_load_probe_miss_records@.len()
    &&& a.property_store_probe_miss_records@.is_prefix_of(b.property_store_probe_miss_records@)
    &&& a.property_store_mutation_rejection_records@.is_prefix_of(b.property_store_mutation_rejection_records@)
    &&& a.property_store_mutation_commit_records@.is_prefix_of(b.property_store_mutation_commit_records@)
    &&& a.generated_call_link_probe_miss_records@ == b.generated_call_link_probe_miss_records@
    &&& a.generated_call_link_probe_blocked_records@ == b.generated_call_link_probe_blocked_records@
    &&& a.generated_direct_call_hot_slot_hits == b.generated_direct_call_hot_slot_hits
}

proof fn lemma_prefix_transitive<T>(a: Seq<T>, b: Seq<T>, c: Seq<T>)
    requires
        a.is_prefix_of(b),
        b.is_prefix_of(c),
    ensures
        a.is_prefix_of(c),
{
    assert forall|i: int| 0 <= i < a.len() implies a[i] == c[i] by {
        assert(a[i] == b[i]);
    }
}

/// The new value of an increment: `add`'s result in the any-number mode, and in the
/// int32 mode only an int32 sum that does not overflow.
pub open spec fn spec_increment_value(
    mode: BaselineGeneratedPropertyIncrementNumericMode,
    left: NumberValue,
    right: NumberValue,
) -> Option<RuntimeValue> {
    match mode {
        BaselineGeneratedPropertyIncrementNumericMode::AnyNumber => crate::semantics::spec_pure_number_arithmetic_result(
            CoreOpcode::AddInt32,
            left,
            right,
        ),
        BaselineGeneratedPropertyIncrementNumericMode::Int32NoOverflow => match (left, right) {
            (NumberValue::Int32(l), NumberValue::Int32(r)) => if i32::MIN <= l + r <= i32::MAX {
                Some(RuntimeValue::Int32((l + r) as i32))
            } else {
                None
            },
            _ => None,
        },
    }
}

/// A register write done only when the step before it went on.
pub open spec fn spec_then_write(
    previous: crate::operands::StepResult,
    window: RegisterWindow,
    register: VirtualRegister,
    value: RuntimeValue,
    site: BaselineGeneratedFallbackSite,
) -> crate::operands::StepResult {
    match previous.0 {
        Ok(_) => spec_write_step(previous.1, window, register, value, site),
        Err(_) => previous,
    }
}

/// The register part of an increment after its load wrote `load_destination`: a
/// non-number loaded value ends the step there (`Ok(false)`); otherwise it goes to the
/// `to number` destination (and the post-update result's), `1` to the `load 1`
/// destination, and their sum, read back from those registers, to the `add` destination
/// (`Ok(true)`: the put is next). A sum the mode does not allow ends the step (`Ok(false)`).
#[verifier::opaque]
pub open spec fn spec_property_increment_step(
    slots: Seq<RuntimeValue>,
    code_block: CodeBlock,
    window: RegisterWindow,
    shape: PropertyIncrementShape,
    load_destination: VirtualRegister,
    fallback: BaselineGeneratedFallbackSite,
    put_fallback: BaselineGeneratedFallbackSite,
    mode: BaselineGeneratedPropertyIncrementNumericMode,
) -> (Result<bool, BaselineInstructionAbort>, Seq<RuntimeValue>) {
    match spec_read_register_or_outcome(slots, code_block, window, load_destination, fallback) {
        Err(abort) => (Err(abort), slots),
        Ok(old_value) => if spec_as_number(old_value) is None {
            (Ok(false), slots)
        } else {
            let moved = spec_write_step(slots, window, shape.to_number_destination, old_value, put_fallback);
            let copied = match shape.post_update_result_destination {
                Some(destination) => spec_then_write(moved, window, destination, old_value, put_fallback),
                None => moved,
            };
            let loaded = spec_then_write(copied, window, shape.one_destination, RuntimeValue::Int32(1), put_fallback);
            match loaded.0 {
                Err(abort) => (Err(abort), loaded.1),
                Ok(_) => match spec_read_register_or_outcome(
                    loaded.1,
                    code_block,
                    window,
                    shape.to_number_destination,
                    put_fallback,
                ) {
                    Err(abort) => (Err(abort), loaded.1),
                    Ok(left) => match spec_read_register_or_outcome(
                        loaded.1,
                        code_block,
                        window,
                        shape.one_destination,
                        put_fallback,
                    ) {
                        Err(abort) => (Err(abort), loaded.1),
                        Ok(right) => match (spec_as_number(left), spec_as_number(right)) {
                            (Some(l), Some(r)) => match spec_increment_value(mode, l, r) {
                                None => (Ok(false), loaded.1),
                                Some(updated) => {
                                    let added = spec_write_step(
                                        loaded.1,
                                        window,
                                        shape.add_destination,
                                        updated,
                                        put_fallback,
                                    );
                                    (
                                        match added.0 {
                                            Ok(_) => Ok(true),
                                            Err(abort) => Err(abort),
                                        },
                                        added.1,
                                    )
                                },
                            },
                            _ => (Ok(false), loaded.1),
                        },
                    },
                },
            }
        },
    }
}

/// The step that hands an increment's put to the VM at the put instruction.
pub open spec fn spec_put_handoff_outcome(
    owner: CodeBlockId,
    frame: CallFrameId,
    shape: PropertyIncrementShape,
) -> Result<Option<BaselineInstructionOutcome>, BaselineInstructionAbort> {
    match crate::handoff::spec_property_handoff(owner, frame, shape.put_instruction, shape.put_site) {
        Ok(handoff) => Ok(Some(BaselineInstructionOutcome::Property(handoff))),
        Err(error) => Err(
            BaselineInstructionAbort::Error(
                BaselineGeneratedExecutionError::PropertyHandoff {
                    bytecode_index: shape.put_instruction.bytecode_index,
                    opcode: crate::handoff::spec_fallback_opcode(shape.put_instruction.opcode),
                    error,
                },
            ),
        ),
    }
}

/// How an increment's put ends, given the store exchanges of its store sidecar: with no
/// place to resume after it, it is handed to the VM; otherwise a store the host committed
/// resumes after the put, a store the host was asked about and did not commit is handed
/// to the VM, and a store sidecar that asked nothing may also have failed.
pub open spec fn spec_increment_put_outcome(
    owner: CodeBlockId,
    frame: CallFrameId,
    shape: PropertyIncrementShape,
    store_exchanges: Seq<StoreHostExchange>,
    r: Result<Option<BaselineInstructionOutcome>, BaselineInstructionAbort>,
) -> bool {
    match shape.resume_after_put {
        None => r == spec_put_handoff_outcome(owner, frame, shape),
        Some(resume) => if spec_store_exchanges_end_committed(store_exchanges) {
            r == Ok::<Option<BaselineInstructionOutcome>, BaselineInstructionAbort>(
                Some(BaselineInstructionOutcome::ContinueTo(resume)),
            )
        } else if store_exchanges.len() > 0 {
            r == spec_put_handoff_outcome(owner, frame, shape)
        } else {
            r is Err || r == spec_put_handoff_outcome(owner, frame, shape)
        },
    }
}

/// The same increment with no place to resume after its put: the put can only be handed
/// to the VM.
pub open spec fn spec_put_never_stored(shape: PropertyIncrementShape) -> PropertyIncrementShape {
    PropertyIncrementShape { resume_after_put: None, ..shape }
}

/// What a load-or-increment step returns once its load answered `load` and left the
/// register slots `slots`: a refused or failed load is passed on, a load without an
/// increment after it is the whole step, and otherwise the increment runs on the
/// registers and its put ends the step.
pub open spec fn spec_load_or_increment_finished(
    load: Result<Option<BaselineInstructionOutcome>, BaselineInstructionAbort>,
    shape: Option<PropertyIncrementShape>,
    slots: Seq<RuntimeValue>,
    code_block: CodeBlock,
    window: RegisterWindow,
    load_destination: VirtualRegister,
    fallback: BaselineGeneratedFallbackSite,
    owner: CodeBlockId,
    mode: BaselineGeneratedPropertyIncrementNumericMode,
    store_exchanges: Seq<StoreHostExchange>,
    r: Result<Option<BaselineInstructionOutcome>, BaselineInstructionAbort>,
    after: Seq<RuntimeValue>,
) -> bool {
    match load {
        Err(abort) => r == Err::<Option<BaselineInstructionOutcome>, BaselineInstructionAbort>(abort) && after == slots,
        Ok(None) => r == Ok::<Option<BaselineInstructionOutcome>, BaselineInstructionAbort>(None) && after == slots,
        Ok(Some(outcome)) => match shape {
            None => r == Ok::<Option<BaselineInstructionOutcome>, BaselineInstructionAbort>(Some(outcome)) && after
                == slots,
            Some(shape) => {
                let put_fallback = spec_fallback_site(owner, fallback.request.frame, shape.put_instruction);
                let step = spec_property_increment_step(
                    slots,
                    code_block,
                    window,
                    shape,
                    load_destination,
                    fallback,
                    put_fallback,
                    mode,
                );
                &&& after == step.1
                &&& match step.0 {
                    Err(abort) => r == Err::<Option<BaselineInstructionOutcome>, BaselineInstructionAbort>(abort),
                    Ok(false) => r == Ok::<Option<BaselineInstructionOutcome>, BaselineInstructionAbort>(
                        Some(BaselineInstructionOutcome::Continue),
                    ),
                    Ok(true) => spec_increment_put_outcome(owner, fallback.request.frame, shape, store_exchanges, r),
                }
            },
        },
    }
}

proof fn lemma_increment_step_ignores_resume(
    slots: Seq<RuntimeValue>,
    code_block: CodeBlock,
    window: RegisterWindow,
    shape: PropertyIncrementShape,
    load_destination: VirtualRegister,
    fallback: BaselineGeneratedFallbackSite,
    put_fallback: BaselineGeneratedFallbackSite,
    mode: BaselineGeneratedPropertyIncrementNumericMode,
)
    ensures
        spec_property_increment_step(slots, code_block, window, spec_put_never_stored(shape), load_destination, fallback, put_fallback, mode)
            == spec_property_increment_step(slots, code_block, window, shape, load_destination, fallback, put_fallback, mode),
{
    reveal(spec_property_increment_step);
}

fn increment_value(
    mode: BaselineGeneratedPropertyIncrementNumericMode,
    left: NumberValue,
    right: NumberValue,
) -> (r: Option<RuntimeValue>)
    ensures
        r == spec_increment_value(mode, left, right),
{
    match mode {
        BaselineGeneratedPropertyIncrementNumericMode::AnyNumber => pure_number_arithmetic_result(
            CoreOpcode::AddInt32,
            left,
            right,
        ),
        BaselineGeneratedPropertyIncrementNumericMode::Int32NoOverflow => match (left, right) {
            (NumberValue::Int32(left), NumberValue::Int32(right)) => {
                let sum: i64 = left as i64 + right as i64;
                if sum < i32::MIN as i64 || sum > i32::MAX as i64 {
                    None
                } else {
                    Some(RuntimeValue::from_i32(sum as i32))
                }
            },
            _ => None,
        },
    }
}

fn property_increment_step(
    execution: &mut InterpreterExecutionState,
    code_block: &CodeBlock,
    window: RegisterWindow,
    shape: &PropertyIncrementSidecarShape,
    load_destination: VirtualRegister,
    fallback: BaselineGeneratedFallbackSite,
    put_fallback: BaselineGeneratedFallbackSite,
    mode: BaselineGeneratedPropertyIncrementNumericMode,
) -> (r: Result<bool, BaselineInstructionAbort>)
    ensures
        (r, final(execution).registers.slots@) == spec_property_increment_step(
            old(execution).registers.slots@,
            *code_block,
            window,
            spec_shape_view(*shape),
            load_destination,
            fallback,
            put_fallback,
            mode,
        ),
        final(execution).stack == old(execution).stack,
        final(execution).heap == old(execution).heap,
{
    reveal(spec_property_increment_step);
    let old_value = read_register_or_outcome(execution, code_block, window, load_destination, fallback)?;
    if old_value.as_number().is_none() {
        return Ok(false);
    }
    write_register_or_outcome(execution, window, shape.to_number_destination, old_value, put_fallback)?;
    if let Some(destination) = shape.post_update_result_destination {
        write_register_or_outcome(execution, window, destination, old_value, put_fallback)?;
    }
    write_register_or_outcome(execution, window, shape.one_destination, RuntimeValue::from_i32(1), put_fallback)?;
    let left_value = read_register_or_outcome(execution, code_block, window, shape.to_number_destination, put_fallback)?;
    let right_value = read_register_or_outcome(execution, code_block, window, shape.one_destination, put_fallback)?;
    let (left_number, right_number) = match (left_value.as_number(), right_value.as_number()) {
        (Some(left), Some(right)) => (left, right),
        _ => {
            return Ok(false);
        },
    };
    let updated_value = match increment_value(mode, left_number, right_number) {
        None => {
            return Ok(false);
        },
        Some(value) => value,
    };
    write_register_or_outcome(execution, window, shape.add_destination, updated_value, put_fallback)?;
    Ok(true)
}

/// Finishes a load-or-increment step once the load sidecar answered `load` (the
/// destination of the load being `load_destination`): see
/// `spec_load_or_increment_finished`. The put goes to the store sidecar only when the
/// step can resume after it, and is otherwise handed to the VM.
pub fn finish_property_load_or_increment<H: DispatchHost>(
    sidecars: &mut BaselineGeneratedPropertyExecutionSidecars<'_, H>,
    execution: &mut InterpreterExecutionState,
    attempt: PropertySidecarAttempt,
    owner: CodeBlockId,
    shape: Option<PropertyIncrementSidecarShape>,
    load_destination: VirtualRegister,
    load: Result<Option<BaselineInstructionOutcome>, BaselineInstructionAbort>,
    increment_numeric_mode: BaselineGeneratedPropertyIncrementNumericMode,
) -> (r: Result<Option<BaselineInstructionOutcome>, BaselineInstructionAbort>)
    ensures
        spec_same_plans(*old(sidecars), *final(sidecars)),
        spec_store_records_extended(*old(sidecars), *final(sidecars)),
        spec_store_records_follow_exchanges(*old(sidecars), *final(sidecars)),
        final(sidecars).load_host_exchanges == old(sidecars).load_host_exchanges,
        final(execution).stack == old(execution).stack,
        final(execution).heap == old(execution).heap,
        spec_load_or_increment_finished(
            load,
            match shape {
                Some(shape) => Some(spec_shape_view(shape)),
                None => None,
            },
            old(execution).registers.slots@,
            *attempt.code_block,
            attempt.window,
            load_destination,
            attempt.fallback,
            owner,
            increment_numeric_mode,
            spec_store_exchanges_between(*old(sidecars), *final(sidecars)),
            r,
            final(execution).registers.slots@,
        ),
        !(shape matches Some(s) && s.resume_after_put is Some && load is Ok && load->Ok_0 is Some) ==> *final(sidecars)
            == *old(sidecars),
        !(load is Ok && load->Ok_0 is Some) ==> *final(execution) == *old(execution),
        shape matches Some(s) ==> spec_store_host_asked_for(
            *old(sidecars),
            *final(sidecars),
            spec_property_store_sidecar_operands(
                *final(execution),
                *attempt.code_block,
                attempt.window,
                *s.put_instruction,
                spec_fallback_site(owner, attempt.fallback.request.frame, *s.put_instruction),
            ),
            s.put_site,
        ),
        shape is None ==> spec_store_exchanges_between(*old(sidecars), *final(sidecars)).len() == 0,
        shape matches Some(s) ==> (spec_store_site_unserved(*old(sidecars), s.put_site) ==> {
            &&& *final(sidecars) == *old(sidecars)
            &&& spec_load_or_increment_finished(
                load,
                Some(spec_put_never_stored(spec_shape_view(s))),
                old(execution).registers.slots@,
                *attempt.code_block,
                attempt.window,
                load_destination,
                attempt.fallback,
                owner,
                increment_numeric_mode,
                spec_store_exchanges_between(*old(sidecars), *final(sidecars)),
                r,
                final(execution).registers.slots@,
            )
        }),
{
    proof {
        lemma_store_records_follow_start(*sidecars);
    }
    let load_outcome = match load {
        Err(abort) => {
            return Err(abort);
        },
        Ok(None) => {
            return Ok(None);
        },
        Ok(Some(outcome)) => outcome,
    };
    let shape = match shape {
        None => {
            return Ok(Some(load_outcome));
        },
        Some(shape) => shape,
    };
    let window = attempt.window;
    let code_block = attempt.code_block;
    let fallback = attempt.fallback;
    let put_fallback = fallback_site(owner, fallback.request.frame, shape.put_instruction);
    proof {
        lemma_increment_step_ignores_resume(
            execution.registers.slots@,
            *code_block,
            window,
            spec_shape_view(shape),
            load_destination,
            fallback,
            put_fallback,
            increment_numeric_mode,
        );
    }
    if !property_increment_step(
        execution,
        code_block,
        window,
        &shape,
        load_destination,
        fallback,
        put_fallback,
        increment_numeric_mode,
    )? {
        return Ok(Some(BaselineInstructionOutcome::Continue));
    }
    if let Some(resume_after_put) = shape.resume_after_put {
        let store = execute_property_store_sidecar_candidate(
            sidecars,
            execution,
            PropertySidecarAttempt {
                window,
                code_block,
                fallback: put_fallback,
                frame: attempt.frame,
                instruction: shape.put_instruction,
                site: shape.put_site,
            },
        );
        match store? {
            Some(BaselineInstructionOutcome::Continue) => {
                return Ok(Some(BaselineInstructionOutcome::ContinueTo(resume_after_put)));
            },
            Some(other) => {
                return Ok(Some(other));
            },
            None => {},
        }
    }
    match baseline_generated_property_handoff(owner, fallback.request.frame, shape.put_instruction, &shape.put_site) {
        Ok(handoff) => Ok(Some(BaselineInstructionOutcome::Property(handoff))),
        Err(error) => Err(
            BaselineInstructionAbort::Error(
                BaselineGeneratedExecutionError::PropertyHandoff {
                    bytecode_index: shape.put_instruction.bytecode_index,
                    opcode: fallback_opcode(shape.put_instruction.opcode),
                    error,
                },
            ),
        ),
    }
}

/// A load sidecar for `get by name` that also finishes the increment that follows it
/// (`x.p++`, `++x.p`): after a sidecar load, the `to number`, `load 1` and `add` are
/// done here and the `put by name` goes to the store sidecar, resuming after the put when
/// it commits, or handed to the interpreter at the put otherwise.
pub fn execute_property_load_or_increment_sidecar_candidate<H: DispatchHost>(
    sidecars: &mut BaselineGeneratedPropertyExecutionSidecars<'_, H>,
    execution: &mut InterpreterExecutionState,
    attempt: PropertySidecarAttempt,
    owner: CodeBlockId,
    property_handoff_plan: Option<&crate::sites::BaselineGeneratedPropertyHandoffPlanMetadata>,
    increment_numeric_mode: BaselineGeneratedPropertyIncrementNumericMode,
) -> (r: Result<Option<BaselineInstructionOutcome>, BaselineInstructionAbort>)
    ensures
        spec_same_plans(*old(sidecars), *final(sidecars)),
        spec_property_records_extended(*old(sidecars), *final(sidecars)),
        spec_store_records_follow_exchanges(*old(sidecars), *final(sidecars)),
        final(execution).stack == old(execution).stack,
        final(execution).heap == old(execution).heap,
        r == Ok::<Option<BaselineInstructionOutcome>, BaselineInstructionAbort>(None) ==> final(execution).registers.slots@
            == old(execution).registers.slots@,
        r matches Ok(Some(outcome)) ==> (outcome is Continue || outcome is ContinueTo || outcome is Property),
        match spec_register_operand_or_fallback(*attempt.instruction, 0, attempt.fallback) {
            Err(abort) => {
                &&& r == Err::<Option<BaselineInstructionOutcome>, BaselineInstructionAbort>(abort)
                &&& *final(sidecars) == *old(sidecars)
                &&& *final(execution) == *old(execution)
            },
            Ok(load_destination) => exists|
                load: Result<Option<BaselineInstructionOutcome>, BaselineInstructionAbort>,
                loaded: Seq<RuntimeValue>,
            |
                #![trigger spec_load_sidecar_wrote(attempt, old(execution).registers.slots@, load, loaded)]
                {
                    &&& spec_load_sidecar_wrote(attempt, old(execution).registers.slots@, load, loaded)
                    &&& spec_load_hit_answered(
                        old(sidecars).load_host_exchanges@,
                        final(sidecars).load_host_exchanges@,
                        attempt,
                        old(execution).registers.slots@,
                        load,
                        loaded,
                    )
                    &&& (load matches Ok(Some(_)) ==> spec_load_answer_written(
                        old(sidecars).load_host_exchanges@,
                        final(sidecars).load_host_exchanges@,
                        attempt,
                        old(execution).registers.slots@,
                        loaded,
                    ))
                    &&& spec_load_or_increment_finished(
                        load,
                        spec_property_increment_shape(
                            owner,
                            *attempt.code_block,
                            *attempt.instruction,
                            attempt.site,
                            match property_handoff_plan {
                                Some(p) => Some(*p),
                                None => None,
                            },
                        ),
                        loaded,
                        *attempt.code_block,
                        attempt.window,
                        load_destination,
                        attempt.fallback,
                        owner,
                        increment_numeric_mode,
                        spec_store_exchanges_between(*old(sidecars), *final(sidecars)),
                        r,
                        final(execution).registers.slots@,
                    )
                },
        },
        match spec_property_increment_shape(
            owner,
            *attempt.code_block,
            *attempt.instruction,
            attempt.site,
            match property_handoff_plan {
                Some(p) => Some(*p),
                None => None,
            },
        ) {
            Some(s) => spec_store_host_asked_for(
                *old(sidecars),
                *final(sidecars),
                spec_property_store_sidecar_operands(
                    *final(execution),
                    *attempt.code_block,
                    attempt.window,
                    s.put_instruction,
                    spec_fallback_site(owner, attempt.fallback.request.frame, s.put_instruction),
                ),
                s.put_site,
            ),
            None => spec_store_exchanges_between(*old(sidecars), *final(sidecars)).len() == 0,
        },
        spec_load_site_unserved(*old(sidecars), attempt.site) ==> {
            &&& r == match spec_register_operand_or_fallback(*attempt.instruction, 0, attempt.fallback) {
                Ok(_) => Ok::<Option<BaselineInstructionOutcome>, BaselineInstructionAbort>(None),
                Err(abort) => Err(abort),
            }
            &&& *final(sidecars) == *old(sidecars)
            &&& *final(execution) == *old(execution)
        },
        spec_register_operand_or_fallback(*attempt.instruction, 0, attempt.fallback) is Ok ==> (spec_load_settled(
            *old(sidecars),
            *old(execution),
            attempt,
        ) matches Some(settled) ==> {
            &&& r == settled
            &&& *final(sidecars) == *old(sidecars)
            &&& *final(execution) == *old(execution)
        }),
{
    let shape = property_increment_sidecar_shape_after_get_by_name(
        owner,
        attempt.code_block,
        attempt.instruction,
        &attempt.site,
        property_handoff_plan,
    );
    let load_destination = match register_operand_or_fallback(attempt.instruction, 0, attempt.fallback) {
        Ok(destination) => destination,
        Err(abort) => {
            proof {
                lemma_store_records_follow_start(*sidecars);
            }
            return Err(abort);
        },
    };
    let load = execute_property_load_sidecar_candidate(sidecars, execution, attempt);
    let ghost load_answer = load;
    let ghost loaded = execution.registers.slots@;
    let ghost after_load = *sidecars;
    let r = finish_property_load_or_increment(
        sidecars,
        execution,
        attempt,
        owner,
        shape,
        load_destination,
        load,
        increment_numeric_mode,
    );
    proof {
        lemma_prefix_transitive(
            old(sidecars).property_store_probe_miss_records@,
            after_load.property_store_probe_miss_records@,
            sidecars.property_store_probe_miss_records@,
        );
        lemma_prefix_transitive(
            old(sidecars).property_store_mutation_rejection_records@,
            after_load.property_store_mutation_rejection_records@,
            sidecars.property_store_mutation_rejection_records@,
        );
        lemma_prefix_transitive(
            old(sidecars).property_store_mutation_commit_records@,
            after_load.property_store_mutation_commit_records@,
            sidecars.property_store_mutation_commit_records@,
        );
        assert(spec_load_sidecar_wrote(attempt, old(execution).registers.slots@, load_answer, loaded));
        lemma_store_follow_from_same(*old(sidecars), after_load, *sidecars);
    }
    r
}


/// A call-link sidecar on its own: candidates, hot slots, a host and its records.
pub struct BaselineGeneratedCallLinkExecutionSidecar<'a, H> {
    pub candidate_table: &'a GeneratedCallLinkCandidateTable,
    pub direct_call_hot_slots: Vec<BaselineGeneratedJsDirectCallHotSlot>,
    pub dispatch_host: H,
    pub probe_miss_records: Vec<BaselineGeneratedCallLinkProbeMissRecord>,
    pub probe_blocked_records: Vec<BaselineGeneratedCallLinkProbeBlockedRecord>,
    pub direct_call_hot_slot_hits: usize,
}

impl<'a, H: DispatchHost> BaselineGeneratedCallLinkExecutionSidecar<'a, H> {
    pub fn new(candidate_table: &'a GeneratedCallLinkCandidateTable, dispatch_host: H) -> (r:
        BaselineGeneratedCallLinkExecutionSidecar<'a, H>)
        ensures
            r.candidate_table == candidate_table,
            r.direct_call_hot_slots@.len() == 0,
            r.dispatch_host == dispatch_host,
            r.probe_miss_records@.len() == 0,
            r.probe_blocked_records@.len() == 0,
            r.direct_call_hot_slot_hits == 0,
    {
        Self::new_with_direct_call_hot_slots(candidate_table, Vec::new(), dispatch_host)
    }

    pub fn new_with_direct_call_hot_slots(
        candidate_table: &'a GeneratedCallLinkCandidateTable,
        direct_call_hot_slots: Vec<BaselineGeneratedJsDirectCallHotSlot>,
        dispatch_host: H,
    ) -> (r: BaselineGeneratedCallLinkExecutionSidecar<'a, H>)
        ensures
            r.candidate_table == candidate_table,
            r.direct_call_hot_slots@ == direct_call_hot_slots@,
            r.dispatch_host == dispatch_host,
            r.probe_miss_records@.len() == 0,
            r.probe_blocked_records@.len() == 0,
            r.direct_call_hot_slot_hits == 0,
    {
        BaselineGeneratedCallLinkExecutionSidecar {
            candidate_table,
            direct_call_hot_slots,
            dispatch_host,
            probe_miss_records: Vec::new(),
            probe_blocked_records: Vec::new(),
            direct_call_hot_slot_hits: 0,
        }
    }

    pub fn probe_miss_records(&self) -> (r: &Vec<BaselineGeneratedCallLinkProbeMissRecord>)
        ensures
            r@ == self.probe_miss_records@,
    {
        &self.probe_miss_records
    }

    pub fn probe_blocked_records(&self) -> (r: &Vec<BaselineGeneratedCallLinkProbeBlockedRecord>)
        ensures
            r@ == self.probe_blocked_records@,
    {
        &self.probe_blocked_records
    }

    pub fn direct_call_hot_slot_hits(&self) -> (r: usize)
        ensures
            r == self.direct_call_hot_slot_hits,
    {
        self.direct_call_hot_slot_hits
    }
}

/// Looks for a direct call with a call-link sidecar.
pub fn execute_generated_call_link_sidecar_probe<H: DispatchHost>(
    sidecar: &mut BaselineGeneratedCallLinkExecutionSidecar<'_, H>,
    execution: &InterpreterExecutionState,
    attempt: GeneratedCallLinkSidecarAttempt,
) -> (r: Result<Option<BaselineGeneratedJsDirectCall>, BaselineInstructionAbort>)
    ensures
        final(sidecar).candidate_table == old(sidecar).candidate_table,
        final(sidecar).direct_call_hot_slots@ == old(sidecar).direct_call_hot_slots@,
        old(sidecar).probe_miss_records@.is_prefix_of(final(sidecar).probe_miss_records@),
        old(sidecar).probe_blocked_records@.is_prefix_of(final(sidecar).probe_blocked_records@),
        old(sidecar).direct_call_hot_slot_hits <= final(sidecar).direct_call_hot_slot_hits,
        old(sidecar).candidate_table.owner != attempt.owner ==> {
            &&& r == Ok::<Option<BaselineGeneratedJsDirectCall>, BaselineInstructionAbort>(None)
            &&& final(sidecar).dispatch_host == old(sidecar).dispatch_host
        },
        spec_call_link_probe_outcome(
            *old(sidecar).candidate_table,
            old(sidecar).direct_call_hot_slots@,
            final(sidecar).dispatch_host == old(sidecar).dispatch_host,
            old(sidecar).probe_miss_records@,
            final(sidecar).probe_miss_records@,
            old(sidecar).probe_blocked_records@,
            final(sidecar).probe_blocked_records@,
            old(sidecar).direct_call_hot_slot_hits,
            final(sidecar).direct_call_hot_slot_hits,
            *execution,
            attempt,
            r,
        ),
{
    execute_generated_call_link_sidecar_probe_with_host(
        sidecar.candidate_table,
        &sidecar.direct_call_hot_slots,
        &mut sidecar.dispatch_host,
        &mut sidecar.probe_miss_records,
        &mut sidecar.probe_blocked_records,
        &mut sidecar.direct_call_hot_slot_hits,
        execution,
        attempt,
    )
}

/// Offers a call to the native intrinsics of a call-link sidecar's host.
pub fn execute_generated_native_intrinsic_call_sidecar_probe<H: DispatchHost>(
    sidecar: &mut BaselineGeneratedCallLinkExecutionSidecar<'_, H>,
    execution: &mut InterpreterExecutionState,
    attempt: GeneratedCallLinkSidecarAttempt,
) -> (r: Result<Option<BaselineInstructionOutcome>, BaselineInstructionAbort>)
    ensures
        final(sidecar).candidate_table == old(sidecar).candidate_table,
        final(sidecar).direct_call_hot_slots@ == old(sidecar).direct_call_hot_slots@,
        final(sidecar).probe_miss_records@ == old(sidecar).probe_miss_records@,
        final(sidecar).probe_blocked_records@ == old(sidecar).probe_blocked_records@,
        final(sidecar).direct_call_hot_slot_hits == old(sidecar).direct_call_hot_slot_hits,
        final(execution).stack == old(execution).stack,
        final(execution).heap == old(execution).heap,
        spec_call_answered(
            *attempt.instruction,
            attempt.window,
            old(execution).registers.slots@,
            r,
            final(execution).registers.slots@,
        ),
        spec_native_intrinsic_call_outcome(attempt, *old(execution), *final(execution), r, *final(sidecar) == *old(sidecar)),
{
    execute_generated_native_intrinsic_call_probe_with_host(&mut sidecar.dispatch_host, execution, attempt)
}

/// A property-load sidecar on its own: property sidecars that know a plan table and a
/// guarded table and nothing else.
pub struct BaselineGeneratedPropertyLoadExecutionSidecar<'a, H> {
    pub sidecars: BaselineGeneratedPropertyExecutionSidecars<'a, H>,
}

impl<'a, H: DispatchHost> BaselineGeneratedPropertyLoadExecutionSidecar<'a, H> {
    pub fn new(
        plan_table: &'a PropertyLoadAccessCasePlanTable,
        guarded_candidate_table: &'a PropertyLoadGuardedCandidateTable,
        dispatch_host: H,
    ) -> (r: BaselineGeneratedPropertyLoadExecutionSidecar<'a, H>)
        ensures
            spec_fresh_sidecars(r.sidecars),
            r.sidecars.dispatch_host == dispatch_host,
            r.sidecars.property_load_plan_table == Some(plan_table),
            r.sidecars.property_load_guarded_candidate_table == Some(guarded_candidate_table),
            r.sidecars.property_store_candidate_table is None,
            r.sidecars.property_load_megamorphic_candidate_table is None,
            r.sidecars.property_store_megamorphic_candidate_table is None,
            r.sidecars.property_has_megamorphic_candidate_table is None,
            r.sidecars.generated_call_link_candidate_table is None,
            r.sidecars.generated_direct_call_hot_slots@.len() == 0,
    {
        BaselineGeneratedPropertyLoadExecutionSidecar {
            sidecars: BaselineGeneratedPropertyExecutionSidecars::new(
                dispatch_host,
                Some((plan_table, guarded_candidate_table)),
                None,
            ),
        }
    }

    pub fn destination_root_sync_requests(&self) -> (r: &Vec<BaselineGeneratedPropertyLoadDestinationRootSyncRequest>)
        ensures
            r@ == self.sidecars.destination_root_sync_requests@,
    {
        &self.sidecars.destination_root_sync_requests
    }

    pub fn probe_miss_records(&self) -> (r: &Vec<BaselineGeneratedPropertyLoadProbeMissRecord>)
        ensures
            r@ == self.sidecars.property_load_probe_miss_records@,
    {
        &self.sidecars.property_load_probe_miss_records
    }

    pub fn guarded_probe_miss_records(&self) -> (r: &Vec<BaselineGeneratedGuardedPropertyLoadProbeMissRecord>)
        ensures
            r@ == self.sidecars.guarded_property_load_probe_miss_records@,
    {
        &self.sidecars.guarded_property_load_probe_miss_records
    }
}

/// A property-store sidecar on its own: property sidecars that know a store candidate
/// table and nothing else.
pub struct BaselineGeneratedPropertyStoreExecutionSidecar<'a, H> {
    pub sidecars: BaselineGeneratedPropertyExecutionSidecars<'a, H>,
}

impl<'a, H: DispatchHost> BaselineGeneratedPropertyStoreExecutionSidecar<'a, H> {
    pub fn new(candidate_table: &'a PropertyStoreMutationCandidateTable, dispatch_host: H) -> (r:
        BaselineGeneratedPropertyStoreExecutionSidecar<'a, H>)
        ensures
            spec_fresh_sidecars(r.sidecars),
            r.sidecars.dispatch_host == dispatch_host,
            r.sidecars.property_load_plan_table is None,
            r.sidecars.property_load_guarded_candidate_table is None,
            r.sidecars.property_store_candidate_table == Some(candidate_table),
            r.sidecars.property_load_megamorphic_candidate_table is None,
            r.sidecars.property_store_megamorphic_candidate_table is None,
            r.sidecars.property_has_megamorphic_candidate_table is None,
            r.sidecars.generated_call_link_candidate_table is None,
            r.sidecars.generated_direct_call_hot_slots@.len() == 0,
    {
        BaselineGeneratedPropertyStoreExecutionSidecar {
            sidecars: BaselineGeneratedPropertyExecutionSidecars::new(dispatch_host, None, Some(candidate_table)),
        }
    }

    pub fn probe_miss_records(&self) -> (r: &Vec<BaselineGeneratedPropertyStoreProbeMissRecord>)
        ensures
            r@ == self.sidecars.property_store_probe_miss_records@,
    {
        &self.sidecars.property_store_probe_miss_records
    }

    pub fn mutation_rejection_records(&self) -> (r: &Vec<BaselineGeneratedPropertyStoreMutationRejectionRecord>)
        ensures
            r@ == self.sidecars.property_store_mutation_rejection_records@,
    {
        &self.sidecars.property_store_mutation_rejection_records
    }

    pub fn mutation_commit_records(&self) -> (r: &Vec<BaselineGeneratedPropertyStoreMutationCommitRecord>)
        ensures
            r@ == self.sidecars.property_store_mutation_commit_records@,
    {
        &self.sidecars.property_store_mutation_commit_records
    }
}


/// What a caller outside the executor gives a property sidecar probe.
#[derive(Clone, Copy)]
pub struct BaselineGeneratedPropertyLoadSidecarProbeAttempt<'c> {
    pub owner: CodeBlockId,
    pub frame: CallFrameId,
    pub window: RegisterWindow,
    pub code_block: &'c CodeBlock,
    pub instruction: &'c TypedInstruction,
    pub site: BaselineGeneratedPropertyHandoffSite,
}

pub type BaselineGeneratedPropertyStoreSidecarProbeAttempt<'c> = BaselineGeneratedPropertyLoadSidecarProbeAttempt<'c>;

pub type BaselineGeneratedPropertyHasSidecarProbeAttempt<'c> = BaselineGeneratedPropertyLoadSidecarProbeAttempt<'c>;

/// A probe that finished the instruction: where execution goes on.
#[derive(Clone, Copy, Debug, PartialEq, Eq, Structural)]
pub struct BaselineGeneratedPropertyLoadSidecarProbeHit {
    pub next_bytecode_index: Option<BytecodeIndex>,
}

#[derive(Clone, Copy, Debug, PartialEq, Eq, Structural)]
pub struct BaselineGeneratedPropertyStoreSidecarProbeHit {
    pub next_bytecode_index: Option<BytecodeIndex>,
}

#[derive(Clone, Copy, Debug, PartialEq, Eq, Structural)]
pub struct BaselineGeneratedPropertyHasSidecarProbeHit {
    pub next_bytecode_index: Option<BytecodeIndex>,
}

#[derive(Clone, Copy, Debug, PartialEq, Eq, Structural)]
pub enum BaselineGeneratedPropertyLoadOrIncrementSidecarProbeResult {
    Hit(BaselineGeneratedPropertyLoadSidecarProbeHit),
    Property(crate::handoff::BaselineGeneratedPropertyHandoff),
}

pub open spec fn spec_probe_sidecar_attempt(
    attempt: BaselineGeneratedPropertyLoadSidecarProbeAttempt,
) -> PropertySidecarAttempt {
    PropertySidecarAttempt {
        window: attempt.window,
        code_block: attempt.code_block,
        fallback: spec_fallback_site(attempt.owner, attempt.frame, *attempt.instruction),
        frame: attempt.frame,
        instruction: attempt.instruction,
        site: attempt.site,
    }
}

fn probe_sidecar_attempt<'c>(attempt: BaselineGeneratedPropertyLoadSidecarProbeAttempt<'c>) -> (r: PropertySidecarAttempt<'c>)
    ensures
        r == spec_probe_sidecar_attempt(attempt),
{
    PropertySidecarAttempt {
        window: attempt.window,
        code_block: attempt.code_block,
        fallback: fallback_site(attempt.owner, attempt.frame, attempt.instruction),
        frame: attempt.frame,
        instruction: attempt.instruction,
        site: attempt.site,
    }
}

/// A property load sidecar run outside the executor: a hit reports the next bytecode index;
/// a miss or a fallback is `Ok(None)`; an error is passed on.
pub fn execute_baseline_generated_property_load_sidecar_probe<H: DispatchHost>(
    sidecars: &mut BaselineGeneratedPropertyExecutionSidecars<'_, H>,
    execution: &mut InterpreterExecutionState,
    attempt: BaselineGeneratedPropertyLoadSidecarProbeAttempt,
) -> (r: Result<Option<BaselineGeneratedPropertyLoadSidecarProbeHit>, BaselineGeneratedExecutionError>)
    ensures
        spec_same_plans(*old(sidecars), *final(sidecars)),
        spec_load_records_extended(*old(sidecars), *final(sidecars)),
        final(execution).stack == old(execution).stack,
        final(execution).heap == old(execution).heap,
        match r {
            Ok(Some(hit)) => {
                &&& hit.next_bytecode_index == spec_next_baseline_generated_bytecode_index(*attempt.code_block, *attempt.instruction)
                &&& spec_load_sidecar_wrote(
                    spec_probe_sidecar_attempt(attempt),
                    old(execution).registers.slots@,
                    Ok(Some(BaselineInstructionOutcome::Continue)),
                    final(execution).registers.slots@,
                )
            },
            _ => final(execution).registers.slots@ == old(execution).registers.slots@,
        },
        spec_load_site_unserved(*old(sidecars), attempt.site) ==> {
            &&& r == Ok::<Option<BaselineGeneratedPropertyLoadSidecarProbeHit>, BaselineGeneratedExecutionError>(None)
            &&& *final(sidecars) == *old(sidecars)
            &&& *final(execution) == *old(execution)
        },
        spec_load_settled(*old(sidecars), *old(execution), spec_probe_sidecar_attempt(attempt)) matches Some(settled)
            ==> {
            &&& r == spec_probe_settled::<BaselineGeneratedPropertyLoadSidecarProbeHit>(settled)
            &&& *final(sidecars) == *old(sidecars)
            &&& *final(execution) == *old(execution)
        },
        spec_last_load_exchange_hit(old(sidecars).load_host_exchanges@, final(sidecars).load_host_exchanges@) ==> {
            let pa = spec_probe_sidecar_attempt(attempt);
            let step = spec_write_step(
                old(execution).registers.slots@,
                pa.window,
                spec_register_operand(*attempt.instruction, 0)->Ok_0,
                spec_load_exchange_hit_value(final(sidecars).load_host_exchanges@.last())->Some_0,
                pa.fallback,
            );
            &&& spec_register_operand(*attempt.instruction, 0) is Ok
            &&& final(execution).registers.slots@ == step.1
            &&& r == match step.0 {
                Ok(_) => Ok::<Option<BaselineGeneratedPropertyLoadSidecarProbeHit>, BaselineGeneratedExecutionError>(
                    Some(
                        BaselineGeneratedPropertyLoadSidecarProbeHit {
                            next_bytecode_index: spec_next_baseline_generated_bytecode_index(
                                *attempt.code_block,
                                *attempt.instruction,
                            ),
                        },
                    ),
                ),
                Err(BaselineInstructionAbort::Fallback(_)) => Ok(None),
                Err(BaselineInstructionAbort::Error(error)) => Err(error),
            }
        },
        r matches Ok(Some(_)) ==> spec_load_answer_written(
            old(sidecars).load_host_exchanges@,
            final(sidecars).load_host_exchanges@,
            spec_probe_sidecar_attempt(attempt),
            old(execution).registers.slots@,
            final(execution).registers.slots@,
        ),
        spec_load_exchanges(
            old(sidecars).load_host_exchanges@,
            final(sidecars).load_host_exchanges@,
            spec_load_base(*old(execution), spec_probe_sidecar_attempt(attempt)),
            spec_load_site_plans(*old(sidecars), attempt.site),
            spec_load_megamorphic_takes(*old(sidecars), attempt.site),
        ),
        r matches Err(error) ==> spec_load_abort(
            *old(execution),
            spec_probe_sidecar_attempt(attempt),
            BaselineInstructionAbort::Error(error),
        ),
{
    let next_bytecode_index = next_baseline_generated_bytecode_index(attempt.code_block, attempt.instruction);
    match execute_property_load_sidecar_candidate(sidecars, execution, probe_sidecar_attempt(attempt)) {
        Ok(Some(BaselineInstructionOutcome::Continue)) => Ok(
            Some(BaselineGeneratedPropertyLoadSidecarProbeHit { next_bytecode_index }),
        ),
        Ok(Some(BaselineInstructionOutcome::ContinueTo(target))) => Ok(
            Some(BaselineGeneratedPropertyLoadSidecarProbeHit { next_bytecode_index: Some(target) }),
        ),
        Ok(Some(_)) => Err(BaselineGeneratedExecutionError::Execution(ExecutionError::BaselineGeneratedExecutionRejected)),
        Ok(None) => Ok(None),
        Err(BaselineInstructionAbort::Fallback(_)) => Ok(None),
        Err(BaselineInstructionAbort::Error(error)) => Err(error),
    }
}

/// What a load-or-increment probe reports for the step's end: a step that goes on is a
/// hit, resuming at the next instruction or, after a stored increment, after its put; a
/// put handed to the VM is that handoff; a declined step or a fallback is nothing; an
/// error is passed on, and any other outcome is rejected.
pub open spec fn spec_load_or_increment_probe_result(
    step: Result<Option<BaselineInstructionOutcome>, BaselineInstructionAbort>,
    attempt: BaselineGeneratedPropertyLoadSidecarProbeAttempt,
) -> Result<Option<BaselineGeneratedPropertyLoadOrIncrementSidecarProbeResult>, BaselineGeneratedExecutionError> {
    match step {
        Ok(Some(BaselineInstructionOutcome::Continue)) => Ok(
            Some(
                BaselineGeneratedPropertyLoadOrIncrementSidecarProbeResult::Hit(
                    BaselineGeneratedPropertyLoadSidecarProbeHit {
                        next_bytecode_index: spec_next_baseline_generated_bytecode_index(
                            *attempt.code_block,
                            *attempt.instruction,
                        ),
                    },
                ),
            ),
        ),
        Ok(Some(BaselineInstructionOutcome::ContinueTo(target))) => Ok(
            Some(
                BaselineGeneratedPropertyLoadOrIncrementSidecarProbeResult::Hit(
                    BaselineGeneratedPropertyLoadSidecarProbeHit { next_bytecode_index: Some(target) },
                ),
            ),
        ),
        Ok(Some(BaselineInstructionOutcome::Property(handoff))) => Ok(
            Some(BaselineGeneratedPropertyLoadOrIncrementSidecarProbeResult::Property(handoff)),
        ),
        Ok(Some(_)) => Err(BaselineGeneratedExecutionError::Execution(ExecutionError::BaselineGeneratedExecutionRejected)),
        Ok(None) => Ok(None),
        Err(BaselineInstructionAbort::Fallback(_)) => Ok(None),
        Err(BaselineInstructionAbort::Error(error)) => Err(error),
    }
}

/// A load-or-increment sidecar run outside the executor: the increment's put may end in a
/// property handoff.
#[verifier::rlimit(60)]
pub fn execute_baseline_generated_property_load_or_increment_sidecar_probe<H: DispatchHost>(
    sidecars: &mut BaselineGeneratedPropertyExecutionSidecars<'_, H>,
    execution: &mut InterpreterExecutionState,
    attempt: BaselineGeneratedPropertyLoadSidecarProbeAttempt,
    property_handoff_plan: Option<&crate::sites::BaselineGeneratedPropertyHandoffPlanMetadata>,
    increment_numeric_mode: BaselineGeneratedPropertyIncrementNumericMode,
) -> (r: Result<Option<BaselineGeneratedPropertyLoadOrIncrementSidecarProbeResult>, BaselineGeneratedExecutionError>)
    ensures
        spec_same_plans(*old(sidecars), *final(sidecars)),
        spec_property_records_extended(*old(sidecars), *final(sidecars)),
        spec_store_records_follow_exchanges(*old(sidecars), *final(sidecars)),
        final(execution).stack == old(execution).stack,
        final(execution).heap == old(execution).heap,
        r matches Ok(Some(BaselineGeneratedPropertyLoadOrIncrementSidecarProbeResult::Hit(hit))) ==> (hit.next_bytecode_index
            == spec_next_baseline_generated_bytecode_index(*attempt.code_block, *attempt.instruction)
            || hit.next_bytecode_index is Some),
        spec_load_site_unserved(*old(sidecars), attempt.site) ==> {
            &&& r == Ok::<Option<BaselineGeneratedPropertyLoadOrIncrementSidecarProbeResult>, BaselineGeneratedExecutionError>(
                None,
            )
            &&& *final(sidecars) == *old(sidecars)
            &&& *final(execution) == *old(execution)
        },
        match spec_register_operand_or_fallback(
            *attempt.instruction,
            0,
            spec_probe_sidecar_attempt(attempt).fallback,
        ) {
            Err(_) => {
                &&& r == Ok::<Option<BaselineGeneratedPropertyLoadOrIncrementSidecarProbeResult>, BaselineGeneratedExecutionError>(
                    None,
                )
                &&& *final(sidecars) == *old(sidecars)
                &&& *final(execution) == *old(execution)
            },
            Ok(_) => spec_load_settled(*old(sidecars), *old(execution), spec_probe_sidecar_attempt(attempt)) matches Some(
                settled,
            ) ==> {
                &&& r == spec_probe_settled::<BaselineGeneratedPropertyLoadOrIncrementSidecarProbeResult>(settled)
                &&& *final(sidecars) == *old(sidecars)
                &&& *final(execution) == *old(execution)
            },
        },
        exists|step: Result<Option<BaselineInstructionOutcome>, BaselineInstructionAbort>|
            #![trigger spec_load_or_increment_probe_result(step, attempt)]
            {
                &&& r == spec_load_or_increment_probe_result(step, attempt)
                &&& spec_register_operand_or_fallback(*attempt.instruction, 0, spec_probe_sidecar_attempt(attempt).fallback)
                    matches Err(abort) ==> step == Err::<Option<BaselineInstructionOutcome>, BaselineInstructionAbort>(abort)
                &&& spec_register_operand_or_fallback(*attempt.instruction, 0, spec_probe_sidecar_attempt(attempt).fallback)
                    matches Ok(load_destination) ==> exists|
                    load: Result<Option<BaselineInstructionOutcome>, BaselineInstructionAbort>,
                    loaded: Seq<RuntimeValue>,
                |
                    #![trigger spec_load_sidecar_wrote(spec_probe_sidecar_attempt(attempt), old(execution).registers.slots@, load, loaded)]
                    {
                        &&& spec_load_sidecar_wrote(
                            spec_probe_sidecar_attempt(attempt),
                            old(execution).registers.slots@,
                            load,
                            loaded,
                        )
                        &&& spec_load_hit_answered(
                            old(sidecars).load_host_exchanges@,
                            final(sidecars).load_host_exchanges@,
                            spec_probe_sidecar_attempt(attempt),
                            old(execution).registers.slots@,
                            load,
                            loaded,
                        )
                        &&& spec_load_or_increment_finished(
                            load,
                            spec_property_increment_shape(
                                attempt.owner,
                                *attempt.code_block,
                                *attempt.instruction,
                                attempt.site,
                                match property_handoff_plan {
                                    Some(p) => Some(*p),
                                    None => None,
                                },
                            ),
                            loaded,
                            *attempt.code_block,
                            attempt.window,
                            load_destination,
                            spec_probe_sidecar_attempt(attempt).fallback,
                            attempt.owner,
                            increment_numeric_mode,
                            spec_store_exchanges_between(*old(sidecars), *final(sidecars)),
                            step,
                            final(execution).registers.slots@,
                        )
                    }
            },
{
    let next_bytecode_index = next_baseline_generated_bytecode_index(attempt.code_block, attempt.instruction);
    let step = execute_property_load_or_increment_sidecar_candidate(
        sidecars,
        execution,
        probe_sidecar_attempt(attempt),
        attempt.owner,
        property_handoff_plan,
        increment_numeric_mode,
    );
    let ghost pa = spec_probe_sidecar_attempt(attempt);
    let r = match step {
        Ok(Some(BaselineInstructionOutcome::Continue)) => Ok(
            Some(
                BaselineGeneratedPropertyLoadOrIncrementSidecarProbeResult::Hit(
                    BaselineGeneratedPropertyLoadSidecarProbeHit { next_bytecode_index },
                ),
            ),
        ),
        Ok(Some(BaselineInstructionOutcome::ContinueTo(target))) => Ok(
            Some(
                BaselineGeneratedPropertyLoadOrIncrementSidecarProbeResult::Hit(
                    BaselineGeneratedPropertyLoadSidecarProbeHit { next_bytecode_index: Some(target) },
                ),
            ),
        ),
        Ok(Some(BaselineInstructionOutcome::Property(handoff))) => Ok(
            Some(BaselineGeneratedPropertyLoadOrIncrementSidecarProbeResult::Property(handoff)),
        ),
        Ok(Some(_)) => Err(BaselineGeneratedExecutionError::Execution(ExecutionError::BaselineGeneratedExecutionRejected)),
        Ok(None) => Ok(None),
        Err(BaselineInstructionAbort::Fallback(_)) => Ok(None),
        Err(BaselineInstructionAbort::Error(error)) => Err(error),
    };
    proof {
        assert(r == spec_load_or_increment_probe_result(step, attempt));
        if let Ok(load_destination) = spec_register_operand_or_fallback(*attempt.instruction, 0, pa.fallback) {
            let (load, loaded) = choose|
                load: Result<Option<BaselineInstructionOutcome>, BaselineInstructionAbort>,
                loaded: Seq<RuntimeValue>,
            |
                #![trigger spec_load_sidecar_wrote(pa, old(execution).registers.slots@, load, loaded)]
                {
                    &&& spec_load_sidecar_wrote(pa, old(execution).registers.slots@, load, loaded)
                    &&& spec_load_hit_answered(
                        old(sidecars).load_host_exchanges@,
                        sidecars.load_host_exchanges@,
                        pa,
                        old(execution).registers.slots@,
                        load,
                        loaded,
                    )
                    &&& spec_load_or_increment_finished(
                        load,
                        spec_property_increment_shape(
                            attempt.owner,
                            *pa.code_block,
                            *pa.instruction,
                            pa.site,
                            match property_handoff_plan {
                                Some(p) => Some(*p),
                                None => None,
                            },
                        ),
                        loaded,
                        *pa.code_block,
                        pa.window,
                        load_destination,
                        pa.fallback,
                        attempt.owner,
                        increment_numeric_mode,
                        spec_store_exchanges_between(*old(sidecars), *sidecars),
                        step,
                        execution.registers.slots@,
                    )
                };
            assert(spec_load_sidecar_wrote(pa, old(execution).registers.slots@, load, loaded));
        }
    }
    r
}

/// A property store sidecar run outside the executor.
pub fn execute_baseline_generated_property_store_sidecar_probe<H: DispatchHost>(
    sidecars: &mut BaselineGeneratedPropertyExecutionSidecars<'_, H>,
    execution: &mut InterpreterExecutionState,
    attempt: BaselineGeneratedPropertyStoreSidecarProbeAttempt,
) -> (r: Result<Option<BaselineGeneratedPropertyStoreSidecarProbeHit>, BaselineGeneratedExecutionError>)
    ensures
        spec_same_plans(*old(sidecars), *final(sidecars)),
        spec_store_records_extended(*old(sidecars), *final(sidecars)),
        *final(execution) == *old(execution),
        r matches Ok(Some(hit)) ==> hit.next_bytecode_index == spec_next_baseline_generated_bytecode_index(
            *attempt.code_block,
            *attempt.instruction,
        ),
        spec_store_site_unserved(*old(sidecars), attempt.site) ==> {
            &&& r == Ok::<Option<BaselineGeneratedPropertyStoreSidecarProbeHit>, BaselineGeneratedExecutionError>(None)
            &&& *final(sidecars) == *old(sidecars)
        },
        spec_store_settled(*old(sidecars), *old(execution), spec_probe_sidecar_attempt(attempt)) matches Some(settled)
            ==> {
            &&& r == spec_probe_settled::<BaselineGeneratedPropertyStoreSidecarProbeHit>(settled)
            &&& *final(sidecars) == *old(sidecars)
        },
        spec_store_records_follow_exchanges(*old(sidecars), *final(sidecars)),
        r matches Ok(Some(_)) ==> spec_store_ends_committed(*old(sidecars), *final(sidecars)),
        spec_store_ends_committed(*old(sidecars), *final(sidecars)) ==> r == Ok::<
            Option<BaselineGeneratedPropertyStoreSidecarProbeHit>,
            BaselineGeneratedExecutionError,
        >(
            Some(
                BaselineGeneratedPropertyStoreSidecarProbeHit {
                    next_bytecode_index: spec_next_baseline_generated_bytecode_index(
                        *attempt.code_block,
                        *attempt.instruction,
                    ),
                },
            ),
        ),
        spec_store_host_asked(*old(sidecars), *final(sidecars), *old(execution), spec_probe_sidecar_attempt(attempt)),
        r matches Err(error) ==> spec_property_store_sidecar_operands(
            *old(execution),
            *attempt.code_block,
            attempt.window,
            *attempt.instruction,
            spec_probe_sidecar_attempt(attempt).fallback,
        ) == Err::<(RuntimeValue, RuntimeValue, Option<CacheKey>), BaselineInstructionAbort>(
            BaselineInstructionAbort::Error(error),
        ),
{
    let next_bytecode_index = next_baseline_generated_bytecode_index(attempt.code_block, attempt.instruction);
    match execute_property_store_sidecar_candidate(sidecars, execution, probe_sidecar_attempt(attempt)) {
        Ok(Some(BaselineInstructionOutcome::Continue)) => Ok(
            Some(BaselineGeneratedPropertyStoreSidecarProbeHit { next_bytecode_index }),
        ),
        Ok(Some(BaselineInstructionOutcome::ContinueTo(target))) => Ok(
            Some(BaselineGeneratedPropertyStoreSidecarProbeHit { next_bytecode_index: Some(target) }),
        ),
        Ok(Some(_)) => Err(BaselineGeneratedExecutionError::Execution(ExecutionError::BaselineGeneratedExecutionRejected)),
        Ok(None) => Ok(None),
        Err(BaselineInstructionAbort::Fallback(_)) => Ok(None),
        Err(BaselineInstructionAbort::Error(error)) => Err(error),
    }
}

/// What a probe outside the executor reports for a sidecar step that ended before the
/// host was asked: an error of its own, or nothing (a declined step or a fallback).
pub open spec fn spec_probe_settled<T>(
    settled: Result<Option<BaselineInstructionOutcome>, BaselineInstructionAbort>,
) -> Result<Option<T>, BaselineGeneratedExecutionError> {
    match settled {
        Err(BaselineInstructionAbort::Error(error)) => Err(error),
        _ => Ok(None),
    }
}

/// What an `in` sidecar run outside the executor reports for the sidecar step's result:
/// a hit that goes on at `next_bytecode_index` (or the step's target), nothing for a
/// declined step or a fallback, the step's error, and a rejection for any other outcome.
pub open spec fn spec_has_probe_result(
    step: Result<Option<BaselineInstructionOutcome>, BaselineInstructionAbort>,
    next_bytecode_index: Option<BytecodeIndex>,
) -> Result<Option<BaselineGeneratedPropertyHasSidecarProbeHit>, BaselineGeneratedExecutionError> {
    match step {
        Ok(Some(BaselineInstructionOutcome::Continue)) => Ok(
            Some(BaselineGeneratedPropertyHasSidecarProbeHit { next_bytecode_index }),
        ),
        Ok(Some(BaselineInstructionOutcome::ContinueTo(target))) => Ok(
            Some(BaselineGeneratedPropertyHasSidecarProbeHit { next_bytecode_index: Some(target) }),
        ),
        Ok(Some(_)) => Err(BaselineGeneratedExecutionError::Execution(ExecutionError::BaselineGeneratedExecutionRejected)),
        Ok(None) => Ok(None),
        Err(BaselineInstructionAbort::Fallback(_)) => Ok(None),
        Err(BaselineInstructionAbort::Error(error)) => Err(error),
    }
}

/// An `in` sidecar run outside the executor.
pub fn execute_baseline_generated_property_has_sidecar_probe<H: DispatchHost>(
    sidecars: &mut BaselineGeneratedPropertyExecutionSidecars<'_, H>,
    execution: &mut InterpreterExecutionState,
    attempt: BaselineGeneratedPropertyHasSidecarProbeAttempt,
) -> (r: Result<Option<BaselineGeneratedPropertyHasSidecarProbeHit>, BaselineGeneratedExecutionError>)
    ensures
        spec_same_plans(*old(sidecars), *final(sidecars)),
        spec_records_unchanged(*old(sidecars), *final(sidecars)),
        final(execution).stack == old(execution).stack,
        final(execution).heap == old(execution).heap,
        match r {
            Ok(Some(hit)) => {
                &&& hit.next_bytecode_index == spec_next_baseline_generated_bytecode_index(*attempt.code_block, *attempt.instruction)
                &&& spec_has_sidecar_outcome(
                    old(sidecars).property_has_megamorphic_candidate_table,
                    spec_probe_sidecar_attempt(attempt),
                    old(execution).registers.slots@,
                    Ok(Some(BaselineInstructionOutcome::Continue)),
                    final(execution).registers.slots@,
                )
            },
            _ => final(execution).registers.slots@ == old(execution).registers.slots@,
        },
        spec_has_settled(
            old(sidecars).property_has_megamorphic_candidate_table,
            old(execution).registers.slots@,
            spec_probe_sidecar_attempt(attempt),
        ) matches Some(settled) ==> {
            &&& r == spec_probe_settled::<BaselineGeneratedPropertyHasSidecarProbeHit>(settled)
            &&& *final(sidecars) == *old(sidecars)
            &&& *final(execution) == *old(execution)
        },
        r matches Ok(Some(_)) ==> spec_has_answer_written(
            old(sidecars).property_has_megamorphic_candidate_table,
            old(sidecars).has_host_exchanges@,
            final(sidecars).has_host_exchanges@,
            spec_probe_sidecar_attempt(attempt),
            old(execution).registers.slots@,
            final(execution).registers.slots@,
        ),
        r matches Err(error) ==> spec_has_settled(
            old(sidecars).property_has_megamorphic_candidate_table,
            old(execution).registers.slots@,
            spec_probe_sidecar_attempt(attempt),
        ) == Some(
            Err::<Option<BaselineInstructionOutcome>, BaselineInstructionAbort>(BaselineInstructionAbort::Error(error)),
        ) || spec_has_late_abort(
            old(execution).registers.slots@,
            spec_probe_sidecar_attempt(attempt),
            BaselineInstructionAbort::Error(error),
        ),
        exists|step: Result<Option<BaselineInstructionOutcome>, BaselineInstructionAbort>|
            #![trigger spec_has_probe_result(step, spec_next_baseline_generated_bytecode_index(*attempt.code_block, *attempt.instruction))]
            {
                &&& r == spec_has_probe_result(
                    step,
                    spec_next_baseline_generated_bytecode_index(*attempt.code_block, *attempt.instruction),
                )
                &&& spec_has_structure_answered(
                    old(sidecars).property_has_megamorphic_candidate_table,
                    old(sidecars).has_host_exchanges@,
                    final(sidecars).has_host_exchanges@,
                    spec_probe_sidecar_attempt(attempt),
                    old(execution).registers.slots@,
                    step,
                    final(execution).registers.slots@,
                )
            },
{
    let next_bytecode_index = next_baseline_generated_bytecode_index(attempt.code_block, attempt.instruction);
    let step = execute_property_has_sidecar_candidate(sidecars, execution, probe_sidecar_attempt(attempt));
    let r = match step {
        Ok(Some(BaselineInstructionOutcome::Continue)) => Ok(
            Some(BaselineGeneratedPropertyHasSidecarProbeHit { next_bytecode_index }),
        ),
        Ok(Some(BaselineInstructionOutcome::ContinueTo(target))) => Ok(
            Some(BaselineGeneratedPropertyHasSidecarProbeHit { next_bytecode_index: Some(target) }),
        ),
        Ok(Some(_)) => Err(BaselineGeneratedExecutionError::Execution(ExecutionError::BaselineGeneratedExecutionRejected)),
        Ok(None) => Ok(None),
        Err(BaselineInstructionAbort::Fallback(_)) => Ok(None),
        Err(BaselineInstructionAbort::Error(error)) => Err(error),
    };
    assert(r == spec_has_probe_result(step, next_bytecode_index));
    r
}

} // verus!
