//! Planner metadata that generated code consults at its boundaries: runtime-helper
//! proofs, property handoff sites and the owner's call continuation sites.
use vstd::prelude::*;
use crate::bytecode::{
    BytecodeIndex, CodeBlock, CoreOpcode, Opcode, TypedInstruction, VirtualRegister,
    spec_decoded_instruction_at, spec_identifier_index_operand, spec_register_operand,
    spec_unsigned_immediate_operand, spec_bytecode_index_is_valid,
};
use crate::plan::{
    BaselineBytecodeSnapshotFingerprint, JitPlanValidationError, fingerprint_code_block_snapshot,
    spec_fingerprint_code_block_snapshot,
};
use crate::runtime::CodeBlockId;

verus! {

#[derive(Clone, Copy, Debug, PartialEq, Eq, Structural)]
pub struct CompilerSafepointId(pub u64);

#[derive(Clone, Copy, Debug, PartialEq, Eq, Structural)]
pub struct BytecodeRootMapId(pub u64);

/// What crossing into a runtime helper does.
#[derive(Clone, Copy, Debug, PartialEq, Eq, Structural)]
pub struct RuntimeBoundaryEffects {
    pub calls_runtime_helper: bool,
    pub touches_gc_roots: bool,
    pub may_throw: bool,
}

/// What generated code must guarantee before it crosses into a runtime helper.
#[derive(Clone, Copy, Debug, PartialEq, Eq, Structural)]
pub struct RuntimeBoundaryRequirements {
    pub no_gc_exit_reentry: bool,
    pub complete_safepoint_root_map: bool,
}

/// The runtime-boundary contract of one opcode.
#[derive(Clone, Copy, Debug, PartialEq, Eq, Structural)]
pub struct BaselineGeneratedRuntimeBoundaryContract {
    pub opcode: CoreOpcode,
    pub effects: RuntimeBoundaryEffects,
    pub requirements: RuntimeBoundaryRequirements,
}

/// The opcodes whose work is done by a runtime helper that allocates or reads the heap.
pub open spec fn spec_is_runtime_helper_opcode(opcode: CoreOpcode) -> bool {
    match opcode {
        CoreOpcode::NewObject | CoreOpcode::NewArray | CoreOpcode::TypeOf
        | CoreOpcode::LoadString | CoreOpcode::LoadBigInt => true,
        _ => false,
    }
}

pub open spec fn spec_runtime_boundary_contract(opcode: CoreOpcode) -> Option<
    BaselineGeneratedRuntimeBoundaryContract,
> {
    if spec_is_runtime_helper_opcode(opcode) {
        Some(
            BaselineGeneratedRuntimeBoundaryContract {
                opcode,
                effects: RuntimeBoundaryEffects {
                    calls_runtime_helper: true,
                    touches_gc_roots: true,
                    may_throw: true,
                },
                requirements: RuntimeBoundaryRequirements {
                    no_gc_exit_reentry: true,
                    complete_safepoint_root_map: true,
                },
            },
        )
    } else {
        None
    }
}

/// The runtime-boundary contract of `opcode`, for the opcodes that have one.
pub fn runtime_boundary_contract(opcode: CoreOpcode) -> (r: Option<
    BaselineGeneratedRuntimeBoundaryContract,
>)
    ensures
        r == spec_runtime_boundary_contract(opcode),
{
    match opcode {
        CoreOpcode::NewObject | CoreOpcode::NewArray | CoreOpcode::TypeOf
        | CoreOpcode::LoadString | CoreOpcode::LoadBigInt => Some(
            BaselineGeneratedRuntimeBoundaryContract {
                opcode,
                effects: RuntimeBoundaryEffects {
                    calls_runtime_helper: true,
                    touches_gc_roots: true,
                    may_throw: true,
                },
                requirements: RuntimeBoundaryRequirements {
                    no_gc_exit_reentry: true,
                    complete_safepoint_root_map: true,
                },
            },
        ),
        _ => None,
    }
}

/// A compiler safepoint at a bytecode index, with the root map it publishes.
#[derive(Clone, Copy, Debug, PartialEq, Eq, Structural)]
pub struct CompilerSafepointDescriptor {
    pub id: CompilerSafepointId,
    pub owner: Option<CodeBlockId>,
    pub bytecode_index: Option<BytecodeIndex>,
    pub root_map: Option<BytecodeRootMapId>,
    pub may_call: bool,
    pub may_allocate: bool,
}

/// The GC roots live at a bytecode range: the registers that hold them.
#[derive(Clone, Debug, PartialEq, Eq)]
pub struct BytecodeRootMap {
    pub id: BytecodeRootMapId,
    pub owner: Option<CodeBlockId>,
    pub bytecode_range_start: BytecodeIndex,
    pub bytecode_range_end: BytecodeIndex,
    pub slots: Vec<VirtualRegister>,
    pub complete: bool,
}

/// The planner's statement that one instruction may cross into a runtime helper.
#[derive(Clone, Copy, Debug, PartialEq, Eq, Structural)]
pub struct BaselineGeneratedRuntimeBoundaryProof {
    pub contract: BaselineGeneratedRuntimeBoundaryContract,
    pub safepoint: CompilerSafepointId,
    pub root_map: Option<BytecodeRootMapId>,
    pub root_count: usize,
    pub no_gc_exit_reentry: bool,
    pub may_throw: bool,
}

/// What the planner proposes for a runtime boundary before it is checked.
#[derive(Clone, Debug, PartialEq, Eq)]
pub struct BaselineGeneratedRuntimeBoundaryCandidate {
    pub opcode: CoreOpcode,
    pub safepoint: CompilerSafepointDescriptor,
    pub root_map: Option<BytecodeRootMap>,
    pub no_gc_exit_reentry: bool,
}

pub open spec fn spec_validate_runtime_boundary_candidate(
    candidate: BaselineGeneratedRuntimeBoundaryCandidate,
) -> Result<BaselineGeneratedRuntimeBoundaryProof, JitPlanValidationError> {
    match spec_runtime_boundary_contract(candidate.opcode) {
        None => Err(
            JitPlanValidationError::RuntimeBoundaryUnsupportedOpcode { opcode: candidate.opcode },
        ),
        Some(contract) => match candidate.root_map {
            None => Err(JitPlanValidationError::RuntimeBoundaryMissingRootMap),
            Some(root_map) => if candidate.safepoint.root_map != Some(root_map.id) {
                Err(JitPlanValidationError::RuntimeBoundaryMissingRootMap)
            } else if !root_map.complete {
                Err(JitPlanValidationError::RuntimeBoundaryIncompleteRootMap)
            } else {
                Ok(
                    BaselineGeneratedRuntimeBoundaryProof {
                        contract,
                        safepoint: candidate.safepoint.id,
                        root_map: Some(root_map.id),
                        root_count: root_map.slots@.len() as usize,
                        no_gc_exit_reentry: candidate.no_gc_exit_reentry,
                        may_throw: contract.effects.may_throw,
                    },
                )
            },
        },
    }
}

impl BaselineGeneratedRuntimeBoundaryCandidate {
    /// Checks the candidate against its opcode's contract and the safepoint's root map.
    pub fn validate(&self) -> (r: Result<BaselineGeneratedRuntimeBoundaryProof, JitPlanValidationError>)
        ensures
            r == spec_validate_runtime_boundary_candidate(*self),
    {
        let contract = match runtime_boundary_contract(self.opcode) {
            None => {
                return Err(
                    JitPlanValidationError::RuntimeBoundaryUnsupportedOpcode { opcode: self.opcode },
                );
            },
            Some(contract) => contract,
        };
        match &self.root_map {
            None => Err(JitPlanValidationError::RuntimeBoundaryMissingRootMap),
            Some(root_map) => if self.safepoint.root_map != Some(root_map.id) {
                Err(JitPlanValidationError::RuntimeBoundaryMissingRootMap)
            } else if !root_map.complete {
                Err(JitPlanValidationError::RuntimeBoundaryIncompleteRootMap)
            } else {
                Ok(
                    BaselineGeneratedRuntimeBoundaryProof {
                        contract,
                        safepoint: self.safepoint.id,
                        root_map: Some(root_map.id),
                        root_count: root_map.slots.len(),
                        no_gc_exit_reentry: self.no_gc_exit_reentry,
                        may_throw: contract.effects.may_throw,
                    },
                )
            },
        }
    }
}

/// A runtime-boundary proof attached to the instruction at one bytecode index.
#[derive(Clone, Copy, Debug, PartialEq, Eq, Structural)]
pub struct BaselineGeneratedRuntimeHelperProof {
    pub bytecode_index: BytecodeIndex,
    pub proof: BaselineGeneratedRuntimeBoundaryProof,
}

impl BaselineGeneratedRuntimeHelperProof {
    pub fn new(bytecode_index: BytecodeIndex, proof: BaselineGeneratedRuntimeBoundaryProof) -> (r:
        BaselineGeneratedRuntimeHelperProof)
        ensures
            r == (BaselineGeneratedRuntimeHelperProof { bytecode_index, proof }),
    {
        BaselineGeneratedRuntimeHelperProof { bytecode_index, proof }
    }
}

/// The proofs of `proofs` that are attached to `bytecode_index`, in order.
pub open spec fn spec_proofs_at(
    proofs: Seq<BaselineGeneratedRuntimeHelperProof>,
    bytecode_index: BytecodeIndex,
) -> Seq<BaselineGeneratedRuntimeBoundaryProof>
    decreases proofs.len(),
{
    if proofs.len() == 0 {
        seq![]
    } else {
        let rest = spec_proofs_at(proofs.drop_last(), bytecode_index);
        if proofs.last().bytecode_index == bytecode_index {
            rest.push(proofs.last().proof)
        } else {
            rest
        }
    }
}

/// Looking a proof up: none, exactly one, or an ambiguity (`Err`).
pub open spec fn spec_proof_lookup(
    proofs: Seq<BaselineGeneratedRuntimeHelperProof>,
    bytecode_index: BytecodeIndex,
) -> Result<Option<BaselineGeneratedRuntimeBoundaryProof>, ()> {
    let found = spec_proofs_at(proofs, bytecode_index);
    if found.len() == 0 {
        Ok(None)
    } else if found.len() == 1 {
        Ok(Some(found[0]))
    } else {
        Err(())
    }
}

/// The runtime-helper proofs generated code may use, with the bytecode they were made for.
#[derive(Clone, Debug, PartialEq, Eq)]
pub struct BaselineGeneratedRuntimeHelperPlan {
    pub bytecode_snapshot: BaselineBytecodeSnapshotFingerprint,
    pub proofs: Vec<BaselineGeneratedRuntimeHelperProof>,
}

impl BaselineGeneratedRuntimeHelperPlan {
    pub fn new(
        bytecode_snapshot: BaselineBytecodeSnapshotFingerprint,
        proofs: Vec<BaselineGeneratedRuntimeHelperProof>,
    ) -> (r: BaselineGeneratedRuntimeHelperPlan)
        ensures
            r.bytecode_snapshot == bytecode_snapshot,
            r.proofs@ == proofs@,
    {
        BaselineGeneratedRuntimeHelperPlan { bytecode_snapshot, proofs }
    }

    /// The one proof attached to `bytecode_index`; `Err` when several are.
    pub fn proof_for_bytecode_index(&self, bytecode_index: BytecodeIndex) -> (r: Result<
        Option<&BaselineGeneratedRuntimeBoundaryProof>,
        (),
    >)
        ensures
            match spec_proof_lookup(self.proofs@, bytecode_index) {
                Ok(Some(proof)) => r is Ok && r->Ok_0 is Some && *r->Ok_0->Some_0 == proof,
                Ok(None) => r is Ok && r->Ok_0 is None,
                Err(()) => r is Err,
            },
    {
        let mut found: Option<&BaselineGeneratedRuntimeBoundaryProof> = None;
        let mut i: usize = 0;
        while i < self.proofs.len()
            invariant
                i <= self.proofs@.len(),
                spec_proofs_at(self.proofs@.take(i as int), bytecode_index).len() <= 1,
                match found {
                    None => spec_proofs_at(self.proofs@.take(i as int), bytecode_index).len() == 0,
                    Some(proof) => spec_proofs_at(self.proofs@.take(i as int), bytecode_index).len()
                        == 1 && spec_proofs_at(self.proofs@.take(i as int), bytecode_index)[0]
                        == *proof,
                },
            decreases self.proofs@.len() - i,
        {
            assert(self.proofs@.take(i + 1).drop_last() == self.proofs@.take(i as int));
            if self.proofs[i].bytecode_index == bytecode_index {
                if found.is_some() {
                    proof {
                        lemma_proofs_at_prefix_grows(self.proofs@, bytecode_index, i as int + 1);
                    }
                    return Err(());
                }
                found = Some(&self.proofs[i].proof);
            }
            i = i + 1;
        }
        assert(self.proofs@.take(i as int) == self.proofs@);
        Ok(found)
    }
}

/// Once two proofs of a prefix match, the whole sequence has at least two matches.
proof fn lemma_proofs_at_prefix_grows(
    proofs: Seq<BaselineGeneratedRuntimeHelperProof>,
    bytecode_index: BytecodeIndex,
    n: int,
)
    requires
        0 <= n <= proofs.len(),
    ensures
        spec_proofs_at(proofs.take(n), bytecode_index).len() <= spec_proofs_at(
            proofs,
            bytecode_index,
        ).len(),
    decreases proofs.len() - n,
{
    if n < proofs.len() {
        lemma_proofs_at_prefix_grows(proofs, bytecode_index, n + 1);
        assert(proofs.take(n + 1).drop_last() == proofs.take(n));
    } else {
        assert(proofs.take(n) == proofs);
    }
}

/// Whether the proof at `j` repeats the bytecode index of an earlier proof.
pub open spec fn spec_repeats_earlier_index(proofs: Seq<BaselineGeneratedRuntimeHelperProof>, j: int) -> bool {
    exists|i: int| 0 <= i < j && proofs[i].bytecode_index == proofs[j].bytecode_index
}

pub open spec fn spec_runtime_helper_plan_metadata(
    code_block: CodeBlock,
    proofs: Seq<BaselineGeneratedRuntimeHelperProof>,
) -> Result<BaselineBytecodeSnapshotFingerprint, JitPlanValidationError> {
    match spec_fingerprint_code_block_snapshot(code_block) {
        Err(error) => Err(error),
        Ok(fingerprint) => if exists|j: int| 0 <= j < proofs.len() && #[trigger] spec_repeats_earlier_index(proofs, j) {
            let j = choose|j: int|
                0 <= j < proofs.len() && #[trigger] spec_repeats_earlier_index(proofs, j) && forall|k: int|
                    0 <= k < j ==> !#[trigger] spec_repeats_earlier_index(proofs, k);
            Err(
                JitPlanValidationError::BaselineGeneratedRuntimeHelperPlanDuplicateProof {
                    bytecode_index: proofs[j].bytecode_index,
                },
            )
        } else {
            Ok(fingerprint)
        },
    }
}

fn repeats_earlier_index(proofs: &Vec<BaselineGeneratedRuntimeHelperProof>, j: usize) -> (r: bool)
    requires
        j < proofs@.len(),
    ensures
        r == spec_repeats_earlier_index(proofs@, j as int),
{
    let mut i: usize = 0;
    while i < j
        invariant
            i <= j < proofs@.len(),
            forall|k: int| 0 <= k < i ==> proofs@[k].bytecode_index != proofs@[j as int].bytecode_index,
        decreases j - i,
    {
        if proofs[i].bytecode_index == proofs[j].bytecode_index {
            return true;
        }
        i = i + 1;
    }
    false
}

/// A runtime-helper plan owned by an artifact, made for the code block it was built from.
#[derive(Clone, Debug, PartialEq, Eq)]
pub struct BaselineGeneratedRuntimeHelperPlanMetadata {
    pub plan: BaselineGeneratedRuntimeHelperPlan,
}

impl BaselineGeneratedRuntimeHelperPlanMetadata {
    /// Records `proofs` against the current snapshot of `code_block`; two proofs for one
    /// bytecode index are refused.
    pub fn from_code_block_snapshot(
        code_block: &CodeBlock,
        proofs: Vec<BaselineGeneratedRuntimeHelperProof>,
    ) -> (r: Result<BaselineGeneratedRuntimeHelperPlanMetadata, JitPlanValidationError>)
        ensures
            match spec_runtime_helper_plan_metadata(*code_block, proofs@) {
                Ok(fingerprint) => r is Ok && r->Ok_0.plan.bytecode_snapshot == fingerprint
                    && r->Ok_0.plan.proofs@ == proofs@,
                Err(error) => r == Err::<BaselineGeneratedRuntimeHelperPlanMetadata, JitPlanValidationError>(error),
            },
    {
        let bytecode_snapshot = fingerprint_code_block_snapshot(code_block)?;
        let mut j: usize = 0;
        while j < proofs.len()
            invariant
                j <= proofs@.len(),
                spec_fingerprint_code_block_snapshot(*code_block) == Ok::<BaselineBytecodeSnapshotFingerprint, JitPlanValidationError>(
                    bytecode_snapshot),
                forall|k: int| 0 <= k < j ==> !#[trigger] spec_repeats_earlier_index(proofs@, k),
            decreases proofs@.len() - j,
        {
            if repeats_earlier_index(&proofs, j) {
                assert(spec_repeats_earlier_index(proofs@, j as int));
                let ghost chosen = choose|c: int|
                    0 <= c < proofs@.len() && #[trigger] spec_repeats_earlier_index(proofs@, c)
                        && forall|k: int| 0 <= k < c ==> !#[trigger] spec_repeats_earlier_index(proofs@, k);
                assert(chosen == j as int) by {
                    if chosen > j as int {
                        assert(!spec_repeats_earlier_index(proofs@, j as int));
                    }
                }
                return Err(
                    JitPlanValidationError::BaselineGeneratedRuntimeHelperPlanDuplicateProof {
                        bytecode_index: proofs[j].bytecode_index,
                    },
                );
            }
            assert(!spec_repeats_earlier_index(proofs@, j as int));
            j = j + 1;
        }
        Ok(BaselineGeneratedRuntimeHelperPlanMetadata {
            plan: BaselineGeneratedRuntimeHelperPlan { bytecode_snapshot, proofs },
        })
    }
}


#[derive(Clone, Copy, Debug, PartialEq, Eq, Structural)]
pub struct InlineCacheSlotId(pub u32);

/// The kind of inline cache a property site has.
#[derive(Clone, Copy, Debug, PartialEq, Eq, Structural)]
pub enum InlineCacheKind {
    PropertyLoad,
    PropertyStore,
    ElementLoad,
    ElementStore,
    HasProperty,
}

/// What a property site does when its inline cache misses.
#[derive(Clone, Copy, Debug, PartialEq, Eq, Structural)]
pub enum InlineCacheFallbackSemantics {
    SlowPathLookup,
    Deoptimize,
}

/// The key a property site looks up: a named property, given by its identifier
/// index, or the value of a register read when the instruction runs.
#[derive(Clone, Copy, Debug, PartialEq, Eq, Structural)]
pub enum PropertyCacheKey {
    Identifier(u32),
    RuntimeValue(VirtualRegister),
}

/// A property access that generated code hands back to the interpreter.
#[derive(Clone, Copy, Debug, PartialEq, Eq, Structural)]
pub struct BaselineGeneratedPropertyHandoffSite {
    pub owner: CodeBlockId,
    pub slot: InlineCacheSlotId,
    pub bytecode_index: BytecodeIndex,
    pub opcode: CoreOpcode,
    pub cache_kind: InlineCacheKind,
    pub fallback: InlineCacheFallbackSemantics,
    pub property_key: PropertyCacheKey,
    pub requires_no_gc_exit_reentry: bool,
    pub may_throw: bool,
}

/// The opcodes that generated code hands to the interpreter as property accesses.
pub open spec fn spec_is_property_opcode(opcode: CoreOpcode) -> bool {
    match opcode {
        CoreOpcode::GetByName | CoreOpcode::GetGlobalObjectProperty | CoreOpcode::GetLength
        | CoreOpcode::PutByName | CoreOpcode::PutGlobalObjectProperty | CoreOpcode::GetByValue
        | CoreOpcode::PutByValue | CoreOpcode::InById | CoreOpcode::InByVal => true,
        _ => false,
    }
}

pub open spec fn spec_property_cache_kind(opcode: CoreOpcode) -> InlineCacheKind {
    match opcode {
        CoreOpcode::PutByName | CoreOpcode::PutGlobalObjectProperty => InlineCacheKind::PropertyStore,
        CoreOpcode::GetByValue => InlineCacheKind::ElementLoad,
        CoreOpcode::PutByValue => InlineCacheKind::ElementStore,
        CoreOpcode::InById | CoreOpcode::InByVal => InlineCacheKind::HasProperty,
        _ => InlineCacheKind::PropertyLoad,
    }
}

/// The cache kind the property opcode `opcode` uses.
pub fn property_cache_kind(opcode: CoreOpcode) -> (r: InlineCacheKind)
    ensures
        r == spec_property_cache_kind(opcode),
{
    match opcode {
        CoreOpcode::PutByName | CoreOpcode::PutGlobalObjectProperty => InlineCacheKind::PropertyStore,
        CoreOpcode::GetByValue => InlineCacheKind::ElementLoad,
        CoreOpcode::PutByValue => InlineCacheKind::ElementStore,
        CoreOpcode::InById | CoreOpcode::InByVal => InlineCacheKind::HasProperty,
        _ => InlineCacheKind::PropertyLoad,
    }
}

/// Whether a property opcode reads its key from a register rather than naming it.
pub open spec fn spec_property_key_is_runtime(opcode: CoreOpcode) -> bool {
    match opcode {
        CoreOpcode::GetByValue | CoreOpcode::PutByValue | CoreOpcode::InByVal => true,
        _ => false,
    }
}

/// The operand that carries the key of a property instruction.
pub open spec fn spec_property_key_operand(opcode: CoreOpcode) -> int {
    match opcode {
        CoreOpcode::PutByName | CoreOpcode::GetGlobalObjectProperty | CoreOpcode::PutByValue => 1,
        CoreOpcode::PutGlobalObjectProperty => 0,
        _ => 2,
    }
}

fn property_key_operand(opcode: CoreOpcode) -> (r: usize)
    ensures
        r == spec_property_key_operand(opcode),
{
    match opcode {
        CoreOpcode::PutByName | CoreOpcode::GetGlobalObjectProperty | CoreOpcode::PutByValue => 1,
        CoreOpcode::PutGlobalObjectProperty => 0,
        _ => 2,
    }
}

/// The key a property instruction names, read from its operands.
pub open spec fn spec_property_key_of_instruction(
    opcode: CoreOpcode,
    instruction: TypedInstruction,
) -> Option<PropertyCacheKey> {
    if spec_property_key_is_runtime(opcode) {
        match spec_register_operand(instruction, spec_property_key_operand(opcode)) {
            Ok(register) => Some(PropertyCacheKey::RuntimeValue(register)),
            Err(_) => None,
        }
    } else {
        match spec_identifier_index_operand(instruction, spec_property_key_operand(opcode)) {
            Ok(identifier) => Some(PropertyCacheKey::Identifier(identifier)),
            Err(_) => None,
        }
    }
}

pub fn property_key_of_instruction(opcode: CoreOpcode, instruction: &TypedInstruction) -> (r: Option<
    PropertyCacheKey,
>)
    ensures
        r == spec_property_key_of_instruction(opcode, *instruction),
{
    let index = property_key_operand(opcode);
    match opcode {
        CoreOpcode::GetByValue | CoreOpcode::PutByValue | CoreOpcode::InByVal => {
            match instruction.register_operand(index) {
                Ok(register) => Some(PropertyCacheKey::RuntimeValue(register)),
                Err(_) => None,
            }
        },
        _ => match instruction.identifier_index_operand(index) {
            Ok(identifier) => Some(PropertyCacheKey::Identifier(identifier)),
            Err(_) => None,
        },
    }
}

/// The site the planner records for a property instruction.
pub open spec fn spec_property_site(
    owner: CodeBlockId,
    slot: InlineCacheSlotId,
    bytecode_index: BytecodeIndex,
    opcode: CoreOpcode,
    property_key: PropertyCacheKey,
) -> BaselineGeneratedPropertyHandoffSite {
    BaselineGeneratedPropertyHandoffSite {
        owner,
        slot,
        bytecode_index,
        opcode,
        cache_kind: spec_property_cache_kind(opcode),
        fallback: InlineCacheFallbackSemantics::SlowPathLookup,
        property_key,
        requires_no_gc_exit_reentry: true,
        may_throw: true,
    }
}

fn property_site(
    owner: CodeBlockId,
    slot: InlineCacheSlotId,
    bytecode_index: BytecodeIndex,
    opcode: CoreOpcode,
    property_key: PropertyCacheKey,
) -> (r: BaselineGeneratedPropertyHandoffSite)
    ensures
        r == spec_property_site(owner, slot, bytecode_index, opcode, property_key),
{
    BaselineGeneratedPropertyHandoffSite {
        owner,
        slot,
        bytecode_index,
        opcode,
        cache_kind: property_cache_kind(opcode),
        fallback: InlineCacheFallbackSemantics::SlowPathLookup,
        property_key,
        requires_no_gc_exit_reentry: true,
        may_throw: true,
    }
}

impl BaselineGeneratedPropertyHandoffSite {
    pub fn get_by_name_property_load(
        owner: CodeBlockId,
        slot: InlineCacheSlotId,
        bytecode_index: BytecodeIndex,
        identifier: u32,
    ) -> (r: BaselineGeneratedPropertyHandoffSite)
        ensures
            r == spec_property_site(owner, slot, bytecode_index, CoreOpcode::GetByName,
                PropertyCacheKey::Identifier(identifier)),
    {
        property_site(owner, slot, bytecode_index, CoreOpcode::GetByName, PropertyCacheKey::Identifier(identifier))
    }

    pub fn get_global_object_property_load(
        owner: CodeBlockId,
        slot: InlineCacheSlotId,
        bytecode_index: BytecodeIndex,
        identifier: u32,
    ) -> (r: BaselineGeneratedPropertyHandoffSite)
        ensures
            r == spec_property_site(owner, slot, bytecode_index, CoreOpcode::GetGlobalObjectProperty,
                PropertyCacheKey::Identifier(identifier)),
    {
        property_site(owner, slot, bytecode_index, CoreOpcode::GetGlobalObjectProperty,
            PropertyCacheKey::Identifier(identifier))
    }

    pub fn get_length_property_load(
        owner: CodeBlockId,
        slot: InlineCacheSlotId,
        bytecode_index: BytecodeIndex,
        identifier: u32,
    ) -> (r: BaselineGeneratedPropertyHandoffSite)
        ensures
            r == spec_property_site(owner, slot, bytecode_index, CoreOpcode::GetLength,
                PropertyCacheKey::Identifier(identifier)),
    {
        property_site(owner, slot, bytecode_index, CoreOpcode::GetLength, PropertyCacheKey::Identifier(identifier))
    }

    pub fn put_by_name_property_store(
        owner: CodeBlockId,
        slot: InlineCacheSlotId,
        bytecode_index: BytecodeIndex,
        identifier: u32,
    ) -> (r: BaselineGeneratedPropertyHandoffSite)
        ensures
            r == spec_property_site(owner, slot, bytecode_index, CoreOpcode::PutByName,
                PropertyCacheKey::Identifier(identifier)),
    {
        property_site(owner, slot, bytecode_index, CoreOpcode::PutByName, PropertyCacheKey::Identifier(identifier))
    }

    pub fn put_global_object_property_store(
        owner: CodeBlockId,
        slot: InlineCacheSlotId,
        bytecode_index: BytecodeIndex,
        identifier: u32,
    ) -> (r: BaselineGeneratedPropertyHandoffSite)
        ensures
            r == spec_property_site(owner, slot, bytecode_index, CoreOpcode::PutGlobalObjectProperty,
                PropertyCacheKey::Identifier(identifier)),
    {
        property_site(owner, slot, bytecode_index, CoreOpcode::PutGlobalObjectProperty,
            PropertyCacheKey::Identifier(identifier))
    }

    pub fn get_by_value_element_load(
        owner: CodeBlockId,
        slot: InlineCacheSlotId,
        bytecode_index: BytecodeIndex,
        property_register: VirtualRegister,
    ) -> (r: BaselineGeneratedPropertyHandoffSite)
        ensures
            r == spec_property_site(owner, slot, bytecode_index, CoreOpcode::GetByValue,
                PropertyCacheKey::RuntimeValue(property_register)),
    {
        property_site(owner, slot, bytecode_index, CoreOpcode::GetByValue,
            PropertyCacheKey::RuntimeValue(property_register))
    }

    pub fn put_by_value_element_store(
        owner: CodeBlockId,
        slot: InlineCacheSlotId,
        bytecode_index: BytecodeIndex,
        property_register: VirtualRegister,
    ) -> (r: BaselineGeneratedPropertyHandoffSite)
        ensures
            r == spec_property_site(owner, slot, bytecode_index, CoreOpcode::PutByValue,
                PropertyCacheKey::RuntimeValue(property_register)),
    {
        property_site(owner, slot, bytecode_index, CoreOpcode::PutByValue,
            PropertyCacheKey::RuntimeValue(property_register))
    }

    pub fn in_by_id_has(
        owner: CodeBlockId,
        slot: InlineCacheSlotId,
        bytecode_index: BytecodeIndex,
        identifier: u32,
    ) -> (r: BaselineGeneratedPropertyHandoffSite)
        ensures
            r == spec_property_site(owner, slot, bytecode_index, CoreOpcode::InById,
                PropertyCacheKey::Identifier(identifier)),
    {
        property_site(owner, slot, bytecode_index, CoreOpcode::InById, PropertyCacheKey::Identifier(identifier))
    }

    pub fn in_by_value_has(
        owner: CodeBlockId,
        slot: InlineCacheSlotId,
        bytecode_index: BytecodeIndex,
        property_register: VirtualRegister,
    ) -> (r: BaselineGeneratedPropertyHandoffSite)
        ensures
            r == spec_property_site(owner, slot, bytecode_index, CoreOpcode::InByVal,
                PropertyCacheKey::RuntimeValue(property_register)),
    {
        property_site(owner, slot, bytecode_index, CoreOpcode::InByVal,
            PropertyCacheKey::RuntimeValue(property_register))
    }
}

/// The checks a site must pass on its own: a property opcode, the cache kind of that
/// opcode, a key of the right shape, and the boundary flags every property access needs.
pub open spec fn spec_validate_property_site_metadata(site: BaselineGeneratedPropertyHandoffSite) -> Result<
    (),
    JitPlanValidationError,
> {
    if !spec_is_property_opcode(site.opcode) {
        Err(JitPlanValidationError::PropertyHandoffSiteOpcodeMismatch)
    } else if site.cache_kind != spec_property_cache_kind(site.opcode) {
        Err(JitPlanValidationError::PropertyHandoffSiteCacheKindMismatch)
    } else if spec_property_key_is_runtime(site.opcode) != (site.property_key is RuntimeValue) {
        Err(JitPlanValidationError::PropertyHandoffSiteKeyMismatch)
    } else if !site.requires_no_gc_exit_reentry || !site.may_throw {
        Err(JitPlanValidationError::PropertyHandoffSiteBoundaryMismatch)
    } else {
        Ok(())
    }
}

pub fn is_property_opcode(opcode: CoreOpcode) -> (r: bool)
    ensures
        r == spec_is_property_opcode(opcode),
{
    match opcode {
        CoreOpcode::GetByName | CoreOpcode::GetGlobalObjectProperty | CoreOpcode::GetLength
        | CoreOpcode::PutByName | CoreOpcode::PutGlobalObjectProperty | CoreOpcode::GetByValue
        | CoreOpcode::PutByValue | CoreOpcode::InById | CoreOpcode::InByVal => true,
        _ => false,
    }
}

fn property_key_is_runtime(opcode: CoreOpcode) -> (r: bool)
    ensures
        r == spec_property_key_is_runtime(opcode),
{
    match opcode {
        CoreOpcode::GetByValue | CoreOpcode::PutByValue | CoreOpcode::InByVal => true,
        _ => false,
    }
}

pub fn validate_baseline_generated_property_handoff_site_metadata(
    site: &BaselineGeneratedPropertyHandoffSite,
) -> (r: Result<(), JitPlanValidationError>)
    ensures
        r == spec_validate_property_site_metadata(*site),
{
    if !is_property_opcode(site.opcode) {
        return Err(JitPlanValidationError::PropertyHandoffSiteOpcodeMismatch);
    }
    if site.cache_kind != property_cache_kind(site.opcode) {
        return Err(JitPlanValidationError::PropertyHandoffSiteCacheKindMismatch);
    }
    let key_is_runtime = match site.property_key {
        PropertyCacheKey::RuntimeValue(_) => true,
        PropertyCacheKey::Identifier(_) => false,
    };
    if property_key_is_runtime(site.opcode) != key_is_runtime {
        return Err(JitPlanValidationError::PropertyHandoffSiteKeyMismatch);
    }
    if !site.requires_no_gc_exit_reentry || !site.may_throw {
        return Err(JitPlanValidationError::PropertyHandoffSiteBoundaryMismatch);
    }
    Ok(())
}

/// A site checked against the code block that is about to run.
pub open spec fn spec_validate_property_site_against_code_block(
    code_block: CodeBlock,
    owner: CodeBlockId,
    site: BaselineGeneratedPropertyHandoffSite,
) -> Result<(), JitPlanValidationError> {
    if site.owner != owner {
        Err(JitPlanValidationError::PropertyHandoffSiteOwnerMismatch)
    } else {
        match spec_decoded_instruction_at(code_block, site.bytecode_index) {
            Err(_) => Err(JitPlanValidationError::PropertyHandoffSiteMissingInstruction),
            Ok(instruction) => if instruction.opcode != Opcode::Core(site.opcode) {
                Err(JitPlanValidationError::PropertyHandoffSiteOpcodeMismatch)
            } else {
                match spec_property_key_of_instruction(site.opcode, instruction) {
                    None => Err(JitPlanValidationError::PropertyHandoffSiteOperandMismatch),
                    Some(key) => if key != site.property_key {
                        Err(JitPlanValidationError::PropertyHandoffSiteKeyMismatch)
                    } else {
                        spec_validate_property_site_metadata(site)
                    },
                }
            },
        }
    }
}

pub fn validate_baseline_generated_property_handoff_site_against_current_code_block(
    code_block: &CodeBlock,
    owner: CodeBlockId,
    site: &BaselineGeneratedPropertyHandoffSite,
) -> (r: Result<(), JitPlanValidationError>)
    ensures
        r == spec_validate_property_site_against_code_block(*code_block, owner, *site),
{
    if site.owner != owner {
        return Err(JitPlanValidationError::PropertyHandoffSiteOwnerMismatch);
    }
    let instruction = match code_block.decoded_instruction_at(site.bytecode_index) {
        Err(_) => {
            return Err(JitPlanValidationError::PropertyHandoffSiteMissingInstruction);
        },
        Ok(instruction) => instruction,
    };
    if instruction.opcode != Opcode::Core(site.opcode) {
        return Err(JitPlanValidationError::PropertyHandoffSiteOpcodeMismatch);
    }
    match property_key_of_instruction(site.opcode, instruction) {
        None => Err(JitPlanValidationError::PropertyHandoffSiteOperandMismatch),
        Some(key) => if key != site.property_key {
            Err(JitPlanValidationError::PropertyHandoffSiteKeyMismatch)
        } else {
            validate_baseline_generated_property_handoff_site_metadata(site)
        },
    }
}


/// The sites of `sites` recorded for `bytecode_index`, in order.
pub open spec fn spec_sites_at(
    sites: Seq<BaselineGeneratedPropertyHandoffSite>,
    bytecode_index: BytecodeIndex,
) -> Seq<BaselineGeneratedPropertyHandoffSite>
    decreases sites.len(),
{
    if sites.len() == 0 {
        seq![]
    } else {
        let rest = spec_sites_at(sites.drop_last(), bytecode_index);
        if sites.last().bytecode_index == bytecode_index {
            rest.push(sites.last())
        } else {
            rest
        }
    }
}

/// The matches in a prefix are the first matches of the whole sequence.
proof fn lemma_sites_at_prefix(
    sites: Seq<BaselineGeneratedPropertyHandoffSite>,
    bytecode_index: BytecodeIndex,
    n: int,
)
    requires
        0 <= n <= sites.len(),
    ensures
        spec_sites_at(sites.take(n), bytecode_index).len() <= spec_sites_at(sites, bytecode_index).len(),
        spec_sites_at(sites, bytecode_index).take(spec_sites_at(sites.take(n), bytecode_index).len() as int)
            == spec_sites_at(sites.take(n), bytecode_index),
    decreases sites.len() - n,
{
    if n < sites.len() {
        lemma_sites_at_prefix(sites, bytecode_index, n + 1);
        assert(sites.take(n + 1).drop_last() == sites.take(n));
        let short = spec_sites_at(sites.take(n), bytecode_index);
        let long = spec_sites_at(sites.take(n + 1), bytecode_index);
        let all = spec_sites_at(sites, bytecode_index);
        assert(all.take(long.len() as int).take(short.len() as int) == all.take(short.len() as int));
        assert(long.take(short.len() as int) == short);
    } else {
        assert(sites.take(n) == sites);
        assert(spec_sites_at(sites, bytecode_index).take(spec_sites_at(sites, bytecode_index).len() as int)
            == spec_sites_at(sites, bytecode_index));
    }
}

/// Looking a site up in a plan: none, exactly one, or an ambiguity (`Err`).
pub open spec fn spec_site_lookup(
    sites: Seq<BaselineGeneratedPropertyHandoffSite>,
    bytecode_index: BytecodeIndex,
) -> Result<Option<BaselineGeneratedPropertyHandoffSite>, ()> {
    let found = spec_sites_at(sites, bytecode_index);
    if found.len() == 0 {
        Ok(None)
    } else if found.len() == 1 {
        Ok(Some(found[0]))
    } else {
        Err(())
    }
}

/// The first site recorded for `bytecode_index`.
pub open spec fn spec_first_site(
    sites: Seq<BaselineGeneratedPropertyHandoffSite>,
    bytecode_index: BytecodeIndex,
) -> Option<BaselineGeneratedPropertyHandoffSite> {
    let found = spec_sites_at(sites, bytecode_index);
    if found.len() == 0 {
        None
    } else {
        Some(found[0])
    }
}

/// The property sites of a code block, with the bytecode they were derived from.
#[derive(Clone, Debug, PartialEq, Eq)]
pub struct BaselineGeneratedPropertyHandoffPlanMetadata {
    pub bytecode_snapshot: BaselineBytecodeSnapshotFingerprint,
    pub sites: Vec<BaselineGeneratedPropertyHandoffSite>,
}

impl BaselineGeneratedPropertyHandoffPlanMetadata {
    /// The one site recorded for `bytecode_index`; `Err` when several are.
    pub fn site_for_bytecode_index(&self, bytecode_index: BytecodeIndex) -> (r: Result<
        Option<&BaselineGeneratedPropertyHandoffSite>,
        (),
    >)
        ensures
            match spec_site_lookup(self.sites@, bytecode_index) {
                Ok(Some(site)) => r is Ok && r->Ok_0 is Some && *r->Ok_0->Some_0 == site,
                Ok(None) => r is Ok && r->Ok_0 is None,
                Err(()) => r is Err,
            },
    {
        let mut found: Option<&BaselineGeneratedPropertyHandoffSite> = None;
        let mut i: usize = 0;
        while i < self.sites.len()
            invariant
                i <= self.sites@.len(),
                spec_sites_at(self.sites@.take(i as int), bytecode_index).len() <= 1,
                match found {
                    None => spec_sites_at(self.sites@.take(i as int), bytecode_index).len() == 0,
                    Some(site) => spec_sites_at(self.sites@.take(i as int), bytecode_index).len() == 1
                        && spec_sites_at(self.sites@.take(i as int), bytecode_index)[0] == *site,
                },
            decreases self.sites@.len() - i,
        {
            assert(self.sites@.take(i + 1).drop_last() == self.sites@.take(i as int));
            if self.sites[i].bytecode_index == bytecode_index {
                if found.is_some() {
                    proof {
                        lemma_sites_at_prefix(self.sites@, bytecode_index, i as int + 1);
                    }
                    return Err(());
                }
                found = Some(&self.sites[i]);
            }
            i = i + 1;
        }
        assert(self.sites@.take(i as int) == self.sites@);
        Ok(found)
    }

    /// The first site recorded for `bytecode_index`.
    pub fn first_site_for_bytecode_index(&self, bytecode_index: BytecodeIndex) -> (r: Option<
        &BaselineGeneratedPropertyHandoffSite,
    >)
        ensures
            match spec_first_site(self.sites@, bytecode_index) {
                Some(site) => r is Some && *r->Some_0 == site,
                None => r is None,
            },
    {
        let mut i: usize = 0;
        while i < self.sites.len()
            invariant
                i <= self.sites@.len(),
                spec_sites_at(self.sites@.take(i as int), bytecode_index).len() == 0,
            decreases self.sites@.len() - i,
        {
            assert(self.sites@.take(i + 1).drop_last() == self.sites@.take(i as int));
            if self.sites[i].bytecode_index == bytecode_index {
                proof {
                    lemma_sites_at_prefix(self.sites@, bytecode_index, i as int + 1);
                    let all = spec_sites_at(self.sites@, bytecode_index);
                    let prefix = spec_sites_at(self.sites@.take(i + 1), bytecode_index);
                    assert(prefix.len() == 1);
                    assert(prefix[0] == self.sites@[i as int]);
                    assert(all.take(1)[0] == all[0]);
                }
                return Some(&self.sites[i]);
            }
            i = i + 1;
        }
        assert(self.sites@.take(i as int) == self.sites@);
        None
    }
}

/// The property sites of a run of instructions: one per property instruction, with
/// slots numbered in order; an instruction whose key operand is malformed is refused.
pub open spec fn spec_derive_property_sites(
    owner: CodeBlockId,
    instructions: Seq<TypedInstruction>,
) -> Result<Seq<BaselineGeneratedPropertyHandoffSite>, JitPlanValidationError>
    decreases instructions.len(),
{
    if instructions.len() == 0 {
        Ok(seq![])
    } else {
        match spec_derive_property_sites(owner, instructions.drop_last()) {
            Err(error) => Err(error),
            Ok(sites) => {
                let instruction = instructions.last();
                match instruction.opcode {
                    Opcode::Core(opcode) => if spec_is_property_opcode(opcode) {
                        match spec_property_key_of_instruction(opcode, instruction) {
                            None => Err(JitPlanValidationError::PropertyHandoffSiteOperandMismatch),
                            Some(key) => Ok(
                                sites.push(
                                    spec_property_site(
                                        owner,
                                        InlineCacheSlotId(sites.len() as u32),
                                        instruction.bytecode_index,
                                        opcode,
                                        key,
                                    ),
                                ),
                            ),
                        }
                    } else {
                        Ok(sites)
                    },
                    Opcode::Generated(_) => Ok(sites),
                }
            },
        }
    }
}

pub open spec fn spec_derive_property_handoff_plan(code_block: CodeBlock, owner: CodeBlockId) -> Result<
    Option<(BaselineBytecodeSnapshotFingerprint, Seq<BaselineGeneratedPropertyHandoffSite>)>,
    JitPlanValidationError,
> {
    match spec_fingerprint_code_block_snapshot(code_block) {
        Err(error) => Err(error),
        Ok(fingerprint) => match spec_derive_property_sites(owner, code_block.instructions@) {
            Err(error) => Err(error),
            Ok(sites) => if sites.len() == 0 {
                Ok(None)
            } else {
                Ok(Some((fingerprint, sites)))
            },
        },
    }
}

/// Derives the property sites of `code_block`; `None` when it has no property instruction.
pub fn derive_baseline_generated_property_handoff_plan_from_code_block(
    code_block: &CodeBlock,
    owner: CodeBlockId,
) -> (r: Result<Option<BaselineGeneratedPropertyHandoffPlanMetadata>, JitPlanValidationError>)
    ensures
        match spec_derive_property_handoff_plan(*code_block, owner) {
            Err(error) => r == Err::<Option<BaselineGeneratedPropertyHandoffPlanMetadata>, JitPlanValidationError>(error),
            Ok(None) => r == Ok::<Option<BaselineGeneratedPropertyHandoffPlanMetadata>, JitPlanValidationError>(None),
            Ok(Some((fingerprint, sites))) => r is Ok && r->Ok_0 is Some
                && r->Ok_0->Some_0.bytecode_snapshot == fingerprint
                && r->Ok_0->Some_0.sites@ == sites,
        },
{
    let bytecode_snapshot = fingerprint_code_block_snapshot(code_block)?;
    let mut sites: Vec<BaselineGeneratedPropertyHandoffSite> = Vec::new();
    let mut i: usize = 0;
    while i < code_block.instructions.len()
        invariant
            i <= code_block.instructions@.len(),
            spec_fingerprint_code_block_snapshot(*code_block) == Ok::<BaselineBytecodeSnapshotFingerprint, JitPlanValidationError>(
                bytecode_snapshot),
            spec_derive_property_sites(owner, code_block.instructions@.take(i as int)) == Ok::<
                Seq<BaselineGeneratedPropertyHandoffSite>,
                JitPlanValidationError,
            >(sites@),
        decreases code_block.instructions@.len() - i,
    {
        let instruction = &code_block.instructions[i];
        assert(code_block.instructions@.take(i + 1).drop_last() == code_block.instructions@.take(i as int));
        assert(code_block.instructions@.take(i + 1).last() == code_block.instructions@[i as int]);
        match instruction.opcode {
            Opcode::Core(opcode) => {
                if is_property_opcode(opcode) {
                    match property_key_of_instruction(opcode, instruction) {
                        None => {
                            proof {
                                assert(spec_derive_property_sites(owner, code_block.instructions@.take(i + 1))
                                    == Err::<Seq<BaselineGeneratedPropertyHandoffSite>, JitPlanValidationError>(
                                    JitPlanValidationError::PropertyHandoffSiteOperandMismatch));
                                lemma_derive_property_sites_error_persists(owner, code_block.instructions@, i as int + 1);
                                assert(spec_derive_property_sites(owner, code_block.instructions@)
                                    == Err::<Seq<BaselineGeneratedPropertyHandoffSite>, JitPlanValidationError>(
                                    JitPlanValidationError::PropertyHandoffSiteOperandMismatch));
                            }
                            return Err(JitPlanValidationError::PropertyHandoffSiteOperandMismatch);
                        },
                        Some(key) => {
                            let slot = InlineCacheSlotId(#[verifier::truncate] (sites.len() as u32));
                            sites.push(property_site(owner, slot, instruction.bytecode_index, opcode, key));
                        },
                    }
                }
            },
            Opcode::Generated(_) => {},
        }
        i = i + 1;
    }
    assert(code_block.instructions@.take(i as int) == code_block.instructions@);
    if sites.len() == 0 {
        Ok(None)
    } else {
        Ok(Some(BaselineGeneratedPropertyHandoffPlanMetadata { bytecode_snapshot, sites }))
    }
}

/// A derivation that fails on a prefix fails on every longer run with the same error.
proof fn lemma_derive_property_sites_error_persists(
    owner: CodeBlockId,
    instructions: Seq<TypedInstruction>,
    n: int,
)
    requires
        0 <= n <= instructions.len(),
        spec_derive_property_sites(owner, instructions.take(n)) is Err,
    ensures
        spec_derive_property_sites(owner, instructions) == spec_derive_property_sites(owner, instructions.take(n)),
    decreases instructions.len() - n,
{
    if n < instructions.len() {
        assert(instructions.take(n + 1).drop_last() == instructions.take(n));
        lemma_derive_property_sites_error_persists(owner, instructions, n + 1);
    } else {
        assert(instructions.take(n) == instructions);
    }
}

/// Where the interpreter, returning into the owner, resumes after a call it made for
/// generated code.
#[derive(Clone, Copy, Debug, PartialEq, Eq, Structural)]
pub struct BaselineGeneratedOwnerContinuationSite {
    pub owner: CodeBlockId,
    pub call_bytecode_index: BytecodeIndex,
    pub opcode: CoreOpcode,
    pub destination: VirtualRegister,
    pub argument_count_including_this: u32,
    pub resume_bytecode_index: Option<BytecodeIndex>,
}

/// `value + 1`, stopping at `u32::MAX`.
pub open spec fn spec_saturating_increment(value: u32) -> u32 {
    if value == u32::MAX {
        u32::MAX
    } else {
        (value + 1) as u32
    }
}

pub fn saturating_increment(value: u32) -> (r: u32)
    ensures
        r == spec_saturating_increment(value),
{
    if value == u32::MAX {
        u32::MAX
    } else {
        value + 1
    }
}

/// The bytecode index after `bytecode_index`: that of the next instruction, `None` past
/// the last one, an error when the next offset is the invalid index.
pub open spec fn spec_next_decoded_bytecode_index(code_block: CodeBlock, bytecode_index: BytecodeIndex) -> Result<
    Option<BytecodeIndex>,
    crate::runtime::ExecutionError,
> {
    let next = BytecodeIndex { offset: spec_saturating_increment(bytecode_index.offset) };
    match spec_decoded_instruction_at(code_block, next) {
        Ok(instruction) => Ok(Some(instruction.bytecode_index)),
        Err(crate::bytecode::InstructionDecodeError::MissingInstruction { .. }) => Ok(None),
        Err(_) => Err(crate::runtime::ExecutionError::InvalidBytecodeIndex(next)),
    }
}

pub fn next_decoded_bytecode_index(code_block: &CodeBlock, bytecode_index: BytecodeIndex) -> (r: Result<
    Option<BytecodeIndex>,
    crate::runtime::ExecutionError,
>)
    ensures
        r == spec_next_decoded_bytecode_index(*code_block, bytecode_index),
{
    let next = BytecodeIndex::from_offset(saturating_increment(bytecode_index.offset()));
    match code_block.decoded_instruction_at(next) {
        Ok(instruction) => Ok(Some(instruction.bytecode_index)),
        Err(crate::bytecode::InstructionDecodeError::MissingInstruction { .. }) => Ok(None),
        Err(_) => Err(crate::runtime::ExecutionError::InvalidBytecodeIndex(next)),
    }
}

/// The operand that carries the provided argument count of a call instruction.
pub open spec fn spec_call_argument_count_operand(opcode: CoreOpcode) -> int {
    if opcode == CoreOpcode::CallWithThis {
        3
    } else {
        2
    }
}

pub open spec fn spec_is_js_call_opcode(opcode: CoreOpcode) -> bool {
    opcode == CoreOpcode::Call || opcode == CoreOpcode::CallWithThis || opcode == CoreOpcode::Construct
}

/// The continuation site of a well-formed call instruction.
pub open spec fn spec_owner_continuation_site(
    owner: CodeBlockId,
    code_block: CodeBlock,
    instruction: TypedInstruction,
) -> Option<BaselineGeneratedOwnerContinuationSite> {
    match instruction.opcode {
        Opcode::Core(opcode) => if !spec_is_js_call_opcode(opcode) {
            None
        } else {
            match (
                spec_register_operand(instruction, 0),
                spec_unsigned_immediate_operand(instruction, spec_call_argument_count_operand(opcode)),
                spec_next_decoded_bytecode_index(code_block, instruction.bytecode_index),
            ) {
                (Ok(destination), Ok(argument_count), Ok(resume)) => Some(
                    BaselineGeneratedOwnerContinuationSite {
                        owner,
                        call_bytecode_index: instruction.bytecode_index,
                        opcode,
                        destination,
                        argument_count_including_this: spec_saturating_increment(argument_count),
                        resume_bytecode_index: resume,
                    },
                ),
                _ => None,
            }
        },
        Opcode::Generated(_) => None,
    }
}

fn owner_continuation_site(
    owner: CodeBlockId,
    code_block: &CodeBlock,
    instruction: &TypedInstruction,
) -> (r: Option<BaselineGeneratedOwnerContinuationSite>)
    ensures
        r == spec_owner_continuation_site(owner, *code_block, *instruction),
{
    let opcode = match instruction.opcode {
        Opcode::Core(opcode) => opcode,
        Opcode::Generated(_) => {
            return None;
        },
    };
    if !(opcode == CoreOpcode::Call || opcode == CoreOpcode::CallWithThis || opcode == CoreOpcode::Construct) {
        return None;
    }
    let count_operand: usize = if opcode == CoreOpcode::CallWithThis { 3 } else { 2 };
    match (
        instruction.register_operand(0),
        instruction.unsigned_immediate_operand(count_operand),
        next_decoded_bytecode_index(code_block, instruction.bytecode_index),
    ) {
        (Ok(destination), Ok(argument_count), Ok(resume)) => Some(
            BaselineGeneratedOwnerContinuationSite {
                owner,
                call_bytecode_index: instruction.bytecode_index,
                opcode,
                destination,
                argument_count_including_this: saturating_increment(argument_count),
                resume_bytecode_index: resume,
            },
        ),
        _ => None,
    }
}

/// The continuation sites of the first `n` instructions of a code block.
pub open spec fn spec_owner_continuation_sites(
    owner: CodeBlockId,
    code_block: CodeBlock,
    n: int,
) -> Seq<BaselineGeneratedOwnerContinuationSite>
    decreases n,
{
    if n <= 0 {
        seq![]
    } else {
        let rest = spec_owner_continuation_sites(owner, code_block, n - 1);
        match spec_owner_continuation_site(owner, code_block, code_block.instructions@[n - 1]) {
            Some(site) => rest.push(site),
            None => rest,
        }
    }
}

/// The first continuation site recorded for a call at `bytecode_index`.
pub open spec fn spec_first_call_site(
    sites: Seq<BaselineGeneratedOwnerContinuationSite>,
    bytecode_index: BytecodeIndex,
) -> Option<BaselineGeneratedOwnerContinuationSite> {
    if exists|i: int| 0 <= i < sites.len() && #[trigger] sites[i].call_bytecode_index == bytecode_index {
        let i = choose|i: int|
            0 <= i < sites.len() && #[trigger] sites[i].call_bytecode_index == bytecode_index && forall|j: int|
                0 <= j < i ==> #[trigger] sites[j].call_bytecode_index != bytecode_index;
        Some(sites[i])
    } else {
        None
    }
}

/// The owner's call continuation sites, as derived from one code block.
#[derive(Clone, Debug, PartialEq, Eq)]
pub struct BaselineGeneratedOwnerContinuationMapMetadata {
    pub owner: CodeBlockId,
    pub sites: Vec<BaselineGeneratedOwnerContinuationSite>,
}

impl BaselineGeneratedOwnerContinuationMapMetadata {
    /// Records a continuation site for every well-formed call instruction of `code_block`.
    pub fn from_code_block(code_block: &CodeBlock, owner: CodeBlockId) -> (r:
        BaselineGeneratedOwnerContinuationMapMetadata)
        ensures
            r.owner == owner,
            r.sites@ == spec_owner_continuation_sites(owner, *code_block, code_block.instructions@.len() as int),
    {
        let mut sites: Vec<BaselineGeneratedOwnerContinuationSite> = Vec::new();
        let mut i: usize = 0;
        while i < code_block.instructions.len()
            invariant
                i <= code_block.instructions@.len(),
                sites@ == spec_owner_continuation_sites(owner, *code_block, i as int),
            decreases code_block.instructions@.len() - i,
        {
            match owner_continuation_site(owner, code_block, &code_block.instructions[i]) {
                Some(site) => sites.push(site),
                None => {},
            }
            i = i + 1;
        }
        BaselineGeneratedOwnerContinuationMapMetadata { owner, sites }
    }

    /// The first continuation site recorded for a call at `bytecode_index`.
    pub fn call_site_for_bytecode_index(&self, bytecode_index: BytecodeIndex) -> (r: Option<
        &BaselineGeneratedOwnerContinuationSite,
    >)
        ensures
            match spec_first_call_site(self.sites@, bytecode_index) {
                Some(site) => r is Some && *r->Some_0 == site,
                None => r is None,
            },
    {
        let mut i: usize = 0;
        while i < self.sites.len()
            invariant
                i <= self.sites@.len(),
                forall|j: int| 0 <= j < i ==> #[trigger] self.sites@[j].call_bytecode_index != bytecode_index,
            decreases self.sites@.len() - i,
        {
            if self.sites[i].call_bytecode_index == bytecode_index {
                let ghost chosen = choose|k: int|
                    0 <= k < self.sites@.len() && #[trigger] self.sites@[k].call_bytecode_index == bytecode_index
                        && forall|j: int| 0 <= j < k ==> #[trigger] self.sites@[j].call_bytecode_index != bytecode_index;
                assert(chosen == i as int) by {
                    if chosen > i as int {
                        assert(self.sites@[i as int].call_bytecode_index == bytecode_index);
                    }
                }
                return Some(&self.sites[i]);
            }
            i = i + 1;
        }
        None
    }
}

} // verus!
