//! Inline-cache planning data that the execution sidecars consult: access-case plans,
//! guarded and megamorphic candidate tables, call-link candidates, and the requests and
//! answers exchanged with the dispatch host.
use vstd::prelude::*;
use crate::bytecode::CoreOpcode;
use crate::runtime::{CodeBlockId, ExecutableId, ObjectId};
use crate::sites::InlineCacheSlotId;
use crate::value::{RuntimeValue, ValueKind};

verus! {

/// The shape of an object, as the inline caches key it.
#[derive(Clone, Copy, Debug, PartialEq, Eq, Structural)]
pub struct StructureId(pub u32);

impl StructureId {
    pub fn new(id: u32) -> (r: StructureId)
        ensures
            r == StructureId(id),
    {
        StructureId(id)
    }

    /// The structure id that names no structure.
    pub fn invalid() -> (r: StructureId)
        ensures
            r == spec_invalid_structure(),
    {
        StructureId(0)
    }
}

pub open spec fn spec_invalid_structure() -> StructureId {
    StructureId(0)
}

/// Where a property lives in an object's storage.
#[derive(Clone, Copy, Debug, PartialEq, Eq, Structural)]
pub struct PropertyOffset(pub u32);

impl PropertyOffset {
    pub fn new(offset: u32) -> (r: PropertyOffset)
        ensures
            r == PropertyOffset(offset),
    {
        PropertyOffset(offset)
    }
}

#[derive(Clone, Copy, Debug, PartialEq, Eq, Structural)]
pub struct WatchpointSetId(pub u64);

/// A property name: an interned identifier or a canonical array index.
#[derive(Clone, Copy, Debug, PartialEq, Eq, Structural)]
pub enum PropertyKey {
    Identifier(u32),
    Index(u32),
}

/// The key an inline cache is specialized on.
#[derive(Clone, Copy, Debug, PartialEq, Eq, Structural)]
pub enum CacheKey {
    Property(PropertyKey),
}

/// What an access case does, with the structures and storage slot it relies on.
#[derive(Clone, Copy, Debug, PartialEq, Eq, Structural)]
pub struct AccessCaseDescriptor {
    pub key: CacheKey,
    pub base_structure: Option<StructureId>,
    pub new_structure: Option<StructureId>,
    pub holder: Option<ObjectId>,
    pub offset: Option<PropertyOffset>,
}

#[derive(Clone, Copy, Debug, PartialEq, Eq, Structural)]
pub enum PropertyLoadAccessCasePlanKind {
    DataOnlyOwnLoad,
    DataOnlyIndexedLoad,
}

/// A planned load access case for one property site.
#[derive(Clone, Copy, Debug, PartialEq, Eq, Structural)]
pub struct PropertyLoadAccessCasePlan {
    pub plan_kind: PropertyLoadAccessCasePlanKind,
    pub owner: CodeBlockId,
    pub slot: InlineCacheSlotId,
    pub bytecode_index: u32,
    pub key: CacheKey,
    pub access_case: AccessCaseDescriptor,
}

/// The items that satisfy `matches`, in their order.
pub open spec fn spec_matching<T>(items: Seq<T>, matches: spec_fn(T) -> bool) -> Seq<T>
    decreases items.len(),
{
    if items.len() == 0 {
        Seq::empty()
    } else {
        let rest = spec_matching(items.drop_last(), matches);
        if matches(items.last()) {
            rest.push(items.last())
        } else {
            rest
        }
    }
}

/// The items that satisfy `matches`, the most recently added first.
pub open spec fn spec_matching_newest_first<T>(items: Seq<T>, matches: spec_fn(T) -> bool) -> Seq<T>
    decreases items.len(),
{
    if items.len() == 0 {
        Seq::empty()
    } else {
        let rest = spec_matching_newest_first(items.drop_last(), matches);
        if matches(items.last()) {
            seq![items.last()] + rest
        } else {
            rest
        }
    }
}

/// The first item that satisfies `matches`.
pub open spec fn spec_first_matching<T>(items: Seq<T>, matches: spec_fn(T) -> bool) -> Option<T>
    decreases items.len(),
{
    if items.len() == 0 {
        None
    } else if matches(items[0]) {
        Some(items[0])
    } else {
        spec_first_matching(items.drop_first(), matches)
    }
}

pub open spec fn spec_load_plan_at(bytecode_index: u32) -> spec_fn(PropertyLoadAccessCasePlan) -> bool {
    |plan: PropertyLoadAccessCasePlan| plan.bytecode_index == bytecode_index
}

/// The load plans of one code block, in the order they were added.
#[derive(Clone, Debug, PartialEq, Eq)]
pub struct PropertyLoadAccessCasePlanTable {
    pub owner: CodeBlockId,
    pub plans: Vec<PropertyLoadAccessCasePlan>,
}

impl PropertyLoadAccessCasePlanTable {
    pub fn new(owner: CodeBlockId, plans: Vec<PropertyLoadAccessCasePlan>) -> (r: PropertyLoadAccessCasePlanTable)
        ensures
            r.owner == owner,
            r.plans@ == plans@,
    {
        PropertyLoadAccessCasePlanTable { owner, plans }
    }

    pub fn owner(&self) -> (r: CodeBlockId)
        ensures
            r == self.owner,
    {
        self.owner
    }

    /// The plans at `bytecode_index`, the most recently added first.
    pub fn candidates_for_bytecode_index_newest_first(&self, bytecode_index: u32) -> (r: Vec<
        PropertyLoadAccessCasePlan,
    >)
        ensures
            r@ == spec_matching_newest_first(self.plans@, spec_load_plan_at(bytecode_index)),
    {
        let ghost matches = spec_load_plan_at(bytecode_index);
        let mut found: Vec<PropertyLoadAccessCasePlan> = Vec::new();
        let mut i: usize = self.plans.len();
        assert(self.plans@.take(i as int) =~= self.plans@);
        while i > 0
            invariant
                i <= self.plans@.len(),
                spec_matching_newest_first(self.plans@, matches) == found@ + spec_matching_newest_first(
                    self.plans@.take(i as int),
                    matches,
                ),
                matches == spec_load_plan_at(bytecode_index),
            decreases i,
        {
            i = i - 1;
            let plan = self.plans[i];
            assert(self.plans@.take(i + 1).drop_last() =~= self.plans@.take(i as int));
            if plan.bytecode_index == bytecode_index {
                found.push(plan);
                assert(found@.drop_last() + (seq![plan] + spec_matching_newest_first(self.plans@.take(i as int), matches))
                    =~= found@ + spec_matching_newest_first(self.plans@.take(i as int), matches));
            } else {
            }
        }
        assert(self.plans@.take(0) =~= Seq::<PropertyLoadAccessCasePlan>::empty());
        assert(found@ + Seq::<PropertyLoadAccessCasePlan>::empty() =~= found@);
        found
    }
}


/// What a guarded load requires of the prototype chain.
#[derive(Clone, Copy, Debug, PartialEq, Eq, Structural)]
pub enum PropertyLoadGuardRequirement {
    OwnData,
    PrototypeChain,
    NegativeLookup,
}

/// What walking the guarded chain established.
#[derive(Clone, Copy, Debug, PartialEq, Eq, Structural)]
pub enum PropertyLoadGuardChainOutcome {
    OwnData { offset: PropertyOffset },
    PrototypeData { holder_index: u32, offset: PropertyOffset },
    Missing { terminal_null: bool },
}

/// The guarded facts a load relies on: the base and its structure, the holder, and the
/// outcome of the chain walk.
#[derive(Clone, Copy, Debug, PartialEq, Eq, Structural)]
pub struct PropertyLoadGuardDescriptor {
    pub requirement: PropertyLoadGuardRequirement,
    pub key: CacheKey,
    pub base_object: ObjectId,
    pub holder_object: Option<ObjectId>,
    pub base_structure: StructureId,
    pub offset: Option<PropertyOffset>,
    pub prototype_depth: u16,
    pub outcome: PropertyLoadGuardChainOutcome,
}

#[derive(Clone, Copy, Debug, PartialEq, Eq, Structural)]
pub struct PropertyLoadGuardPlan {
    pub owner: CodeBlockId,
    pub slot: InlineCacheSlotId,
    pub bytecode_index: u32,
    pub descriptor: PropertyLoadGuardDescriptor,
}

#[derive(Clone, Copy, Debug, PartialEq, Eq, Structural)]
pub enum PropertyLoadGuardedCandidateKind {
    PrototypeData,
    NegativeLookup,
}

/// A guarded load the planner materialized, with the watchpoints it depends on.
#[derive(Clone, Debug, PartialEq, Eq)]
pub struct PropertyLoadGuardedCandidate {
    pub plan: PropertyLoadGuardPlan,
    pub guard_plan_ordinal: u64,
    pub materialization_ordinal: u64,
    pub dependency_ordinals: Vec<u64>,
    pub binding_set_ids: Vec<WatchpointSetId>,
    pub candidate_kind: PropertyLoadGuardedCandidateKind,
}

/// The guarded load candidates of one code block, in the order they were added.
#[derive(Clone, Debug, PartialEq, Eq)]
pub struct PropertyLoadGuardedCandidateTable {
    pub owner: CodeBlockId,
    pub candidates: Vec<PropertyLoadGuardedCandidate>,
}

impl PropertyLoadGuardedCandidateTable {
    pub fn new(owner: CodeBlockId, candidates: Vec<PropertyLoadGuardedCandidate>) -> (r:
        PropertyLoadGuardedCandidateTable)
        ensures
            r.owner == owner,
            r.candidates@ == candidates@,
    {
        PropertyLoadGuardedCandidateTable { owner, candidates }
    }

    pub fn owner(&self) -> (r: CodeBlockId)
        ensures
            r == self.owner,
    {
        self.owner
    }

    /// The positions of the candidates at `bytecode_index`, in table order.
    pub fn candidates_for_bytecode_index(&self, bytecode_index: u32) -> (r: Vec<usize>)
        ensures
            r@ == spec_matching(
                Seq::new(self.candidates@.len(), |i: int| i as usize),
                spec_guarded_position_at(self.candidates@, bytecode_index),
            ),
            forall|k: int| 0 <= k < r@.len() ==> #[trigger] r@[k] < self.candidates@.len(),
    {
        let ghost positions = Seq::new(self.candidates@.len(), |i: int| i as usize);
        let ghost matches = spec_guarded_position_at(self.candidates@, bytecode_index);
        let mut found: Vec<usize> = Vec::new();
        let mut i: usize = 0;
        while i < self.candidates.len()
            invariant
                i <= self.candidates@.len(),
                positions == Seq::new(self.candidates@.len(), |i: int| i as usize),
                matches == spec_guarded_position_at(self.candidates@, bytecode_index),
                found@ == spec_matching(positions.take(i as int), matches),
                forall|k: int| 0 <= k < found@.len() ==> #[trigger] found@[k] < i,
            decreases self.candidates@.len() - i,
        {
            assert(positions.take(i + 1).drop_last() =~= positions.take(i as int));
            assert(positions.take(i + 1).last() == i);
            if self.candidates[i].plan.bytecode_index == bytecode_index {
                found.push(i);
            }
            i = i + 1;
        }
        assert(positions.take(i as int) =~= positions);
        found
    }
}

/// Whether the candidate at a position sits at `bytecode_index`.
pub open spec fn spec_guarded_position_at(
    candidates: Seq<PropertyLoadGuardedCandidate>,
    bytecode_index: u32,
) -> spec_fn(usize) -> bool {
    |i: usize| i < candidates.len() && candidates[i as int].plan.bytecode_index == bytecode_index
}


/// A site a megamorphic table serves: the owner's cache slot at one bytecode index, for
/// one key.
#[derive(Clone, Copy, Debug, PartialEq, Eq, Structural)]
pub struct MegamorphicSite {
    pub owner: CodeBlockId,
    pub slot: InlineCacheSlotId,
    pub bytecode_index: u32,
    pub key: CacheKey,
}

pub open spec fn spec_site_is(owner: CodeBlockId, slot: InlineCacheSlotId, bytecode_index: u32, key: CacheKey) -> spec_fn(
    MegamorphicSite,
) -> bool {
    |site: MegamorphicSite| site.owner == owner && site.slot == slot && site.bytecode_index == bytecode_index
        && site.key == key
}

fn contains_megamorphic_site(
    sites: &Vec<MegamorphicSite>,
    owner: CodeBlockId,
    slot: InlineCacheSlotId,
    bytecode_index: u32,
    key: CacheKey,
) -> (r: bool)
    ensures
        r == spec_first_matching(sites@, spec_site_is(owner, slot, bytecode_index, key)) is Some,
{
    let ghost matches = spec_site_is(owner, slot, bytecode_index, key);
    let mut i: usize = 0;
    assert(sites@.skip(0) =~= sites@);
    while i < sites.len()
        invariant
            i <= sites@.len(),
            matches == spec_site_is(owner, slot, bytecode_index, key),
            spec_first_matching(sites@, matches) == spec_first_matching(sites@.skip(i as int), matches),
        decreases sites@.len() - i,
    {
        assert(sites@.skip(i as int).drop_first() =~= sites@.skip(i + 1));
        let site = sites[i];
        assert(sites@.skip(i as int)[0] == site);
        if site.owner == owner && site.slot == slot && site.bytecode_index == bytecode_index && site.key == key {
            return true;
        }
        i = i + 1;
    }
    false
}

/// What a megamorphic load entry records for one structure.
#[derive(Clone, Copy, Debug, PartialEq, Eq, Structural)]
pub enum GeneratedPropertyLoadMegamorphicCacheEntryKind {
    OwnData { offset: PropertyOffset },
    PrototypeData { holder: ObjectId, offset: PropertyOffset },
    Missing,
}

#[derive(Clone, Copy, Debug, PartialEq, Eq, Structural)]
pub struct GeneratedPropertyLoadMegamorphicCacheEntry {
    pub key: CacheKey,
    pub base_structure: StructureId,
    pub epoch: u16,
    pub kind: GeneratedPropertyLoadMegamorphicCacheEntryKind,
}

/// What a megamorphic load table answers for a site and a structure.
#[derive(Clone, Copy, Debug, PartialEq, Eq, Structural)]
pub enum GeneratedPropertyLoadMegamorphicLookup {
    NoSite,
    Miss,
    Missing,
    PrototypeData { key: CacheKey, base_structure: StructureId, holder: ObjectId, offset: PropertyOffset },
    Hit(PropertyLoadAccessCasePlan),
}

/// The megamorphic load cache of one code block: the sites it serves and its entries,
/// valid only at the table's epoch.
#[derive(Clone, Debug, PartialEq, Eq)]
pub struct GeneratedPropertyLoadMegamorphicCandidateTable {
    pub owner: CodeBlockId,
    pub epoch: u16,
    pub sites: Vec<MegamorphicSite>,
    pub entries: Vec<GeneratedPropertyLoadMegamorphicCacheEntry>,
}

pub open spec fn spec_load_entry_is(key: CacheKey, structure: StructureId, epoch: u16) -> spec_fn(
    GeneratedPropertyLoadMegamorphicCacheEntry,
) -> bool {
    |entry: GeneratedPropertyLoadMegamorphicCacheEntry| entry.key == key && entry.base_structure == structure
        && entry.epoch == epoch
}

pub open spec fn spec_load_megamorphic_lookup(
    table: GeneratedPropertyLoadMegamorphicCandidateTable,
    slot: InlineCacheSlotId,
    bytecode_index: u32,
    key: CacheKey,
    structure: StructureId,
) -> GeneratedPropertyLoadMegamorphicLookup {
    if spec_first_matching(table.sites@, spec_site_is(table.owner, slot, bytecode_index, key)) is None {
        GeneratedPropertyLoadMegamorphicLookup::NoSite
    } else {
        match spec_first_matching(table.entries@, spec_load_entry_is(key, structure, table.epoch)) {
            None => GeneratedPropertyLoadMegamorphicLookup::Miss,
            Some(entry) => match entry.kind {
                GeneratedPropertyLoadMegamorphicCacheEntryKind::Missing => GeneratedPropertyLoadMegamorphicLookup::Missing,
                GeneratedPropertyLoadMegamorphicCacheEntryKind::PrototypeData { holder, offset } =>
                    GeneratedPropertyLoadMegamorphicLookup::PrototypeData { key, base_structure: structure, holder, offset },
                GeneratedPropertyLoadMegamorphicCacheEntryKind::OwnData { offset } => GeneratedPropertyLoadMegamorphicLookup::Hit(
                    PropertyLoadAccessCasePlan {
                        plan_kind: PropertyLoadAccessCasePlanKind::DataOnlyOwnLoad,
                        owner: table.owner,
                        slot,
                        bytecode_index,
                        key,
                        access_case: AccessCaseDescriptor {
                            key,
                            base_structure: Some(structure),
                            new_structure: None,
                            holder: None,
                            offset: Some(offset),
                        },
                    },
                ),
            },
        }
    }
}

impl GeneratedPropertyLoadMegamorphicCandidateTable {
    /// A table at `epoch` that serves one site with one entry.
    pub fn with_primary_entry(
        owner: CodeBlockId,
        epoch: u16,
        site: MegamorphicSite,
        entry: GeneratedPropertyLoadMegamorphicCacheEntry,
    ) -> (r: GeneratedPropertyLoadMegamorphicCandidateTable)
        ensures
            r.owner == owner,
            r.epoch == epoch,
            r.sites@ == seq![site],
            r.entries@ == seq![entry],
    {
        GeneratedPropertyLoadMegamorphicCandidateTable { owner, epoch, sites: vec![site], entries: vec![entry] }
    }

    pub fn owner(&self) -> (r: CodeBlockId)
        ensures
            r == self.owner,
    {
        self.owner
    }

    pub fn contains_site(&self, slot: InlineCacheSlotId, bytecode_index: u32, key: CacheKey) -> (r: bool)
        ensures
            r == spec_first_matching(self.sites@, spec_site_is(self.owner, slot, bytecode_index, key)) is Some,
    {
        contains_megamorphic_site(&self.sites, self.owner, slot, bytecode_index, key)
    }

    pub fn lookup(&self, slot: InlineCacheSlotId, bytecode_index: u32, key: CacheKey, structure: StructureId) -> (r:
        GeneratedPropertyLoadMegamorphicLookup)
        ensures
            r == spec_load_megamorphic_lookup(*self, slot, bytecode_index, key, structure),
    {
        if !self.contains_site(slot, bytecode_index, key) {
            return GeneratedPropertyLoadMegamorphicLookup::NoSite;
        }
        let ghost matches = spec_load_entry_is(key, structure, self.epoch);
        let mut i: usize = 0;
        assert(self.entries@.skip(0) =~= self.entries@);
        while i < self.entries.len()
            invariant
                i <= self.entries@.len(),
                matches == spec_load_entry_is(key, structure, self.epoch),
                spec_first_matching(self.sites@, spec_site_is(self.owner, slot, bytecode_index, key)) is Some,
                spec_first_matching(self.entries@, matches) == spec_first_matching(self.entries@.skip(i as int), matches),
            decreases self.entries@.len() - i,
        {
            assert(self.entries@.skip(i as int).drop_first() =~= self.entries@.skip(i + 1));
            let entry = self.entries[i];
            assert(self.entries@.skip(i as int)[0] == entry);
            if entry.key == key && entry.base_structure == structure && entry.epoch == self.epoch {
                assert(matches(entry));
                assert(spec_first_matching(self.entries@.skip(i as int), matches) == Some(entry));
                assert(spec_first_matching(self.sites@, spec_site_is(self.owner, slot, bytecode_index, key)) is Some);
                return match entry.kind {
                    GeneratedPropertyLoadMegamorphicCacheEntryKind::Missing => GeneratedPropertyLoadMegamorphicLookup::Missing,
                    GeneratedPropertyLoadMegamorphicCacheEntryKind::PrototypeData { holder, offset } =>
                        GeneratedPropertyLoadMegamorphicLookup::PrototypeData { key, base_structure: structure, holder, offset },
                    GeneratedPropertyLoadMegamorphicCacheEntryKind::OwnData { offset } => GeneratedPropertyLoadMegamorphicLookup::Hit(
                        PropertyLoadAccessCasePlan {
                            plan_kind: PropertyLoadAccessCasePlanKind::DataOnlyOwnLoad,
                            owner: self.owner,
                            slot,
                            bytecode_index,
                            key,
                            access_case: AccessCaseDescriptor {
                                key,
                                base_structure: Some(structure),
                                new_structure: None,
                                holder: None,
                                offset: Some(offset),
                            },
                        },
                    ),
                };
            }
            i = i + 1;
        }
        GeneratedPropertyLoadMegamorphicLookup::Miss
    }
}

/// Whether the interpreter must resync the destination register's GC root after a load.
#[derive(Clone, Copy, Debug, PartialEq, Eq, Structural)]
pub enum DestinationRootSync {
    NotRequired,
    TargetedRegisterSync,
}

impl DestinationRootSync {
    pub fn requires_targeted_register_sync(&self) -> (r: bool)
        ensures
            r == (*self == DestinationRootSync::TargetedRegisterSync),
    {
        match self {
            DestinationRootSync::TargetedRegisterSync => true,
            DestinationRootSync::NotRequired => false,
        }
    }
}

#[derive(Clone, Copy, Debug, PartialEq, Eq, Structural)]
pub struct GeneratedPropertyLoadProbeHit {
    pub value: RuntimeValue,
    pub destination_root_sync: DestinationRootSync,
}

#[derive(Clone, Copy, Debug, PartialEq, Eq, Structural)]
pub enum GeneratedPropertyLoadProbeMissReason {
    HostUnavailable,
    StructureMismatch,
    OffsetOutOfBounds,
    NotAnObject,
}

#[derive(Clone, Copy, Debug, PartialEq, Eq, Structural)]
pub struct GeneratedPropertyLoadProbeMiss {
    pub reason: GeneratedPropertyLoadProbeMissReason,
}

/// The dispatch host's answer to a load probe.
#[derive(Clone, Copy, Debug, PartialEq, Eq, Structural)]
pub enum GeneratedPropertyLoadProbeResult {
    Hit(GeneratedPropertyLoadProbeHit),
    Miss(GeneratedPropertyLoadProbeMiss),
}

impl GeneratedPropertyLoadProbeResult {
    /// A hit with `value`; a loaded cell asks for a targeted root sync of the destination.
    pub fn hit(value: RuntimeValue) -> (r: GeneratedPropertyLoadProbeResult)
        ensures
            r == GeneratedPropertyLoadProbeResult::Hit(GeneratedPropertyLoadProbeHit {
                value,
                destination_root_sync: if value is Cell {
                    DestinationRootSync::TargetedRegisterSync
                } else {
                    DestinationRootSync::NotRequired
                },
            }),
    {
        let destination_root_sync = match value {
            RuntimeValue::Cell(_) => DestinationRootSync::TargetedRegisterSync,
            _ => DestinationRootSync::NotRequired,
        };
        GeneratedPropertyLoadProbeResult::Hit(GeneratedPropertyLoadProbeHit { value, destination_root_sync })
    }

    pub fn miss(reason: GeneratedPropertyLoadProbeMissReason) -> (r: GeneratedPropertyLoadProbeResult)
        ensures
            r == GeneratedPropertyLoadProbeResult::Miss(GeneratedPropertyLoadProbeMiss { reason }),
    {
        GeneratedPropertyLoadProbeResult::Miss(GeneratedPropertyLoadProbeMiss { reason })
    }
}

/// A load probe: the planned access case, against a base value.
#[derive(Clone, Copy, Debug, PartialEq, Eq, Structural)]
pub struct GeneratedPropertyLoadProbeRequest {
    pub plan: PropertyLoadAccessCasePlan,
    pub base: RuntimeValue,
}

/// A load from a prototype holder that a megamorphic entry names.
#[derive(Clone, Copy, Debug, PartialEq, Eq, Structural)]
pub struct GeneratedPropertyLoadMegamorphicHolderProbeRequest {
    pub key: CacheKey,
    pub base_structure: StructureId,
    pub holder: ObjectId,
    pub offset: PropertyOffset,
}

#[derive(Clone, Copy, Debug, PartialEq, Eq, Structural)]
pub enum GeneratedGuardedPropertyLoadProbeMissReason {
    HostUnavailable,
    GuardFailed,
}

/// Why a guarded probe missed, with where along the chain it stopped.
#[derive(Clone, Copy, Debug, PartialEq, Eq, Structural)]
pub struct GeneratedGuardedPropertyLoadProbeMiss {
    pub reason: GeneratedGuardedPropertyLoadProbeMissReason,
    pub requirement: PropertyLoadGuardRequirement,
    pub key: CacheKey,
    pub prototype_depth: u16,
    pub chain_index: Option<u64>,
    pub outcome: PropertyLoadGuardChainOutcome,
}

#[derive(Clone, Copy, Debug, PartialEq, Eq, Structural)]
pub enum GeneratedGuardedPropertyLoadProbeResult {
    Hit(GeneratedPropertyLoadProbeHit),
    Miss(GeneratedGuardedPropertyLoadProbeMiss),
}

impl GeneratedGuardedPropertyLoadProbeResult {
    /// A hit with `value`; a loaded cell asks for a targeted root sync of the destination.
    pub fn hit(value: RuntimeValue) -> (r: GeneratedGuardedPropertyLoadProbeResult)
        ensures
            r == GeneratedGuardedPropertyLoadProbeResult::Hit(GeneratedPropertyLoadProbeHit {
                value,
                destination_root_sync: if value is Cell {
                    DestinationRootSync::TargetedRegisterSync
                } else {
                    DestinationRootSync::NotRequired
                },
            }),
    {
        match GeneratedPropertyLoadProbeResult::hit(value) {
            GeneratedPropertyLoadProbeResult::Hit(hit) => GeneratedGuardedPropertyLoadProbeResult::Hit(hit),
            GeneratedPropertyLoadProbeResult::Miss(_) => GeneratedGuardedPropertyLoadProbeResult::Hit(
                GeneratedPropertyLoadProbeHit { value, destination_root_sync: DestinationRootSync::NotRequired },
            ),
        }
    }

    /// A miss that reports the plan's own requirement, key, depth and outcome.
    pub fn miss_for_plan(
        reason: GeneratedGuardedPropertyLoadProbeMissReason,
        plan: &PropertyLoadGuardPlan,
        chain_index: Option<u64>,
    ) -> (r: GeneratedGuardedPropertyLoadProbeResult)
        ensures
            r == GeneratedGuardedPropertyLoadProbeResult::Miss(GeneratedGuardedPropertyLoadProbeMiss {
                reason,
                requirement: plan.descriptor.requirement,
                key: plan.descriptor.key,
                prototype_depth: plan.descriptor.prototype_depth,
                chain_index,
                outcome: plan.descriptor.outcome,
            }),
    {
        GeneratedGuardedPropertyLoadProbeResult::Miss(GeneratedGuardedPropertyLoadProbeMiss {
            reason,
            requirement: plan.descriptor.requirement,
            key: plan.descriptor.key,
            prototype_depth: plan.descriptor.prototype_depth,
            chain_index,
            outcome: plan.descriptor.outcome,
        })
    }
}

#[derive(Clone, Copy, Debug, PartialEq, Eq, Structural)]
pub struct GeneratedGuardedPropertyLoadProbeRequest {
    pub plan: PropertyLoadGuardPlan,
    pub base: RuntimeValue,
}


#[derive(Clone, Copy, Debug, PartialEq, Eq, Structural)]
pub enum PropertyStoreAccessCasePlanKind {
    DataOnlyReplace,
    DataOnlyTransition,
    DataOnlyIndexedStore,
}

/// A planned store access case for one property site.
#[derive(Clone, Copy, Debug, PartialEq, Eq, Structural)]
pub struct PropertyStoreAccessCasePlan {
    pub plan_kind: PropertyStoreAccessCasePlanKind,
    pub owner: CodeBlockId,
    pub slot: InlineCacheSlotId,
    pub bytecode_index: u32,
    pub key: CacheKey,
    pub access_case: AccessCaseDescriptor,
}

/// A store the planner judged ready to commit, with the ordinals of its readiness.
#[derive(Clone, Copy, Debug, PartialEq, Eq, Structural)]
pub struct PropertyStoreMutationCandidate {
    pub plan: PropertyStoreAccessCasePlan,
    pub store_plan_ordinal: u64,
    pub install_recheck_ordinal: u64,
    pub readiness_ordinal: u64,
    pub observation_ordinal: u64,
    pub stored_value_kind: ValueKind,
}

pub open spec fn spec_store_candidate_at(bytecode_index: u32) -> spec_fn(PropertyStoreMutationCandidate) -> bool {
    |candidate: PropertyStoreMutationCandidate| candidate.plan.bytecode_index == bytecode_index
}

/// The store candidates of one code block, in the order they were added.
#[derive(Clone, Debug, PartialEq, Eq)]
pub struct PropertyStoreMutationCandidateTable {
    pub owner: CodeBlockId,
    pub candidates: Vec<PropertyStoreMutationCandidate>,
}

impl PropertyStoreMutationCandidateTable {
    pub fn new(owner: CodeBlockId, candidates: Vec<PropertyStoreMutationCandidate>) -> (r:
        PropertyStoreMutationCandidateTable)
        ensures
            r.owner == owner,
            r.candidates@ == candidates@,
    {
        PropertyStoreMutationCandidateTable { owner, candidates }
    }

    pub fn owner(&self) -> (r: CodeBlockId)
        ensures
            r == self.owner,
    {
        self.owner
    }

    /// The candidates at `bytecode_index`, the most recently added first.
    pub fn candidates_for_bytecode_index_newest_first(&self, bytecode_index: u32) -> (r: Vec<
        PropertyStoreMutationCandidate,
    >)
        ensures
            r@ == spec_matching_newest_first(self.candidates@, spec_store_candidate_at(bytecode_index)),
    {
        let ghost matches = spec_store_candidate_at(bytecode_index);
        let mut found: Vec<PropertyStoreMutationCandidate> = Vec::new();
        let mut i: usize = self.candidates.len();
        assert(self.candidates@.take(i as int) =~= self.candidates@);
        while i > 0
            invariant
                i <= self.candidates@.len(),
                spec_matching_newest_first(self.candidates@, matches) == found@ + spec_matching_newest_first(
                    self.candidates@.take(i as int),
                    matches,
                ),
                matches == spec_store_candidate_at(bytecode_index),
            decreases i,
        {
            i = i - 1;
            let candidate = self.candidates[i];
            assert(self.candidates@.take(i + 1).drop_last() =~= self.candidates@.take(i as int));
            if candidate.plan.bytecode_index == bytecode_index {
                found.push(candidate);
                assert(found@.drop_last() + (seq![candidate] + spec_matching_newest_first(
                    self.candidates@.take(i as int),
                    matches,
                )) =~= found@ + spec_matching_newest_first(self.candidates@.take(i as int), matches));
            }
        }
        assert(self.candidates@.take(0) =~= Seq::<PropertyStoreMutationCandidate>::empty());
        assert(found@ + Seq::<PropertyStoreMutationCandidate>::empty() =~= found@);
        found
    }
}

#[derive(Clone, Copy, Debug, PartialEq, Eq, Structural)]
pub enum GeneratedPropertyStoreProbeMissReason {
    HostUnavailable,
    StructureMismatch,
    NotAnObject,
}

/// A store the host confirmed it can perform: the plan and the value to store.
#[derive(Clone, Copy, Debug, PartialEq, Eq, Structural)]
pub struct GeneratedPropertyStoreProbeHit {
    pub plan: PropertyStoreAccessCasePlan,
    pub stored_value: RuntimeValue,
}

#[derive(Clone, Copy, Debug, PartialEq, Eq, Structural)]
pub struct GeneratedPropertyStoreProbeMiss {
    pub reason: GeneratedPropertyStoreProbeMissReason,
}

#[derive(Clone, Copy, Debug, PartialEq, Eq, Structural)]
pub enum GeneratedPropertyStoreProbeResult {
    Hit(GeneratedPropertyStoreProbeHit),
    Miss(GeneratedPropertyStoreProbeMiss),
}

impl GeneratedPropertyStoreProbeResult {
    pub fn hit_for_plan(plan: &PropertyStoreAccessCasePlan, stored_value: RuntimeValue) -> (r:
        GeneratedPropertyStoreProbeResult)
        ensures
            r == GeneratedPropertyStoreProbeResult::Hit(GeneratedPropertyStoreProbeHit { plan: *plan, stored_value }),
    {
        GeneratedPropertyStoreProbeResult::Hit(GeneratedPropertyStoreProbeHit { plan: *plan, stored_value })
    }

    pub fn miss(reason: GeneratedPropertyStoreProbeMissReason) -> (r: GeneratedPropertyStoreProbeResult)
        ensures
            r == GeneratedPropertyStoreProbeResult::Miss(GeneratedPropertyStoreProbeMiss { reason }),
    {
        GeneratedPropertyStoreProbeResult::Miss(GeneratedPropertyStoreProbeMiss { reason })
    }
}

/// A store probe: the planned access case, the base and the value to store.
#[derive(Clone, Copy, Debug, PartialEq, Eq, Structural)]
pub struct GeneratedPropertyStoreProbeRequest {
    pub plan: PropertyStoreAccessCasePlan,
    pub base: RuntimeValue,
    pub stored_value: RuntimeValue,
}

impl GeneratedPropertyStoreProbeRequest {
    pub fn new(plan: &PropertyStoreAccessCasePlan, base: RuntimeValue, stored_value: RuntimeValue) -> (r:
        GeneratedPropertyStoreProbeRequest)
        ensures
            r == (GeneratedPropertyStoreProbeRequest { plan: *plan, base, stored_value }),
    {
        GeneratedPropertyStoreProbeRequest { plan: *plan, base, stored_value }
    }
}

/// The mutation a confirmed store probe asks the host to commit.
#[derive(Clone, Copy, Debug, PartialEq, Eq, Structural)]
pub struct GeneratedPropertyStoreMutationRequest {
    pub base: RuntimeValue,
    pub probe_hit: GeneratedPropertyStoreProbeHit,
}

impl GeneratedPropertyStoreMutationRequest {
    pub fn new(base: RuntimeValue, probe_hit: GeneratedPropertyStoreProbeHit) -> (r: GeneratedPropertyStoreMutationRequest)
        ensures
            r == (GeneratedPropertyStoreMutationRequest { base, probe_hit }),
    {
        GeneratedPropertyStoreMutationRequest { base, probe_hit }
    }

    pub fn key(&self) -> (r: CacheKey)
        ensures
            r == self.probe_hit.plan.key,
    {
        self.probe_hit.plan.key
    }
}

/// What the host reports of a committed store.
#[derive(Clone, Copy, Debug, PartialEq, Eq, Structural)]
pub struct GeneratedPropertyStoreMutationCommit {
    pub key: CacheKey,
    pub plan_kind: PropertyStoreAccessCasePlanKind,
    pub base_structure: Option<StructureId>,
    pub new_structure: Option<StructureId>,
    pub offset: Option<PropertyOffset>,
    pub stored_value: RuntimeValue,
    pub host_confirmed: bool,
}

impl GeneratedPropertyStoreMutationCommit {
    /// The commit the host reports when it confirms `request` as planned.
    pub fn host_confirmed_for_request(request: &GeneratedPropertyStoreMutationRequest) -> (r:
        GeneratedPropertyStoreMutationCommit)
        ensures
            r == (GeneratedPropertyStoreMutationCommit {
                key: request.probe_hit.plan.key,
                plan_kind: request.probe_hit.plan.plan_kind,
                base_structure: request.probe_hit.plan.access_case.base_structure,
                new_structure: request.probe_hit.plan.access_case.new_structure,
                offset: request.probe_hit.plan.access_case.offset,
                stored_value: request.probe_hit.stored_value,
                host_confirmed: true,
            }),
    {
        GeneratedPropertyStoreMutationCommit {
            key: request.probe_hit.plan.key,
            plan_kind: request.probe_hit.plan.plan_kind,
            base_structure: request.probe_hit.plan.access_case.base_structure,
            new_structure: request.probe_hit.plan.access_case.new_structure,
            offset: request.probe_hit.plan.access_case.offset,
            stored_value: request.probe_hit.stored_value,
            host_confirmed: true,
        }
    }
}

#[derive(Clone, Copy, Debug, PartialEq, Eq, Structural)]
pub enum GeneratedPropertyStoreMutationMissReason {
    HostUnavailable,
    BarrierRejected,
    StructureChanged,
}

#[derive(Clone, Copy, Debug, PartialEq, Eq, Structural)]
pub struct GeneratedPropertyStoreMutationRejection {
    pub reason: GeneratedPropertyStoreMutationMissReason,
}

#[derive(Clone, Copy, Debug, PartialEq, Eq, Structural)]
pub enum GeneratedPropertyStoreMutationResult {
    Committed(GeneratedPropertyStoreMutationCommit),
    Rejected(GeneratedPropertyStoreMutationRejection),
}

impl GeneratedPropertyStoreMutationResult {
    pub fn committed(commit: GeneratedPropertyStoreMutationCommit) -> (r: GeneratedPropertyStoreMutationResult)
        ensures
            r == GeneratedPropertyStoreMutationResult::Committed(commit),
    {
        GeneratedPropertyStoreMutationResult::Committed(commit)
    }

    pub fn rejected(reason: GeneratedPropertyStoreMutationMissReason) -> (r: GeneratedPropertyStoreMutationResult)
        ensures
            r == GeneratedPropertyStoreMutationResult::Rejected(GeneratedPropertyStoreMutationRejection { reason }),
    {
        GeneratedPropertyStoreMutationResult::Rejected(GeneratedPropertyStoreMutationRejection { reason })
    }
}

/// A megamorphic store entry: the transition (or replacement) it records for a structure.
#[derive(Clone, Copy, Debug, PartialEq, Eq, Structural)]
pub struct GeneratedPropertyStoreMegamorphicCacheEntry {
    pub key: CacheKey,
    pub old_structure: StructureId,
    pub new_structure: StructureId,
    pub epoch: u16,
    pub offset: PropertyOffset,
    pub reallocating: bool,
}

#[derive(Clone, Copy, Debug, PartialEq, Eq, Structural)]
pub enum GeneratedPropertyStoreMegamorphicLookup {
    NoSite,
    Miss,
    Hit(PropertyStoreAccessCasePlan),
}

/// The megamorphic store cache of one code block.
#[derive(Clone, Debug, PartialEq, Eq)]
pub struct GeneratedPropertyStoreMegamorphicCandidateTable {
    pub owner: CodeBlockId,
    pub epoch: u16,
    pub sites: Vec<MegamorphicSite>,
    pub entries: Vec<GeneratedPropertyStoreMegamorphicCacheEntry>,
}

pub open spec fn spec_store_entry_is(key: CacheKey, structure: StructureId, epoch: u16) -> spec_fn(
    GeneratedPropertyStoreMegamorphicCacheEntry,
) -> bool {
    |entry: GeneratedPropertyStoreMegamorphicCacheEntry| entry.key == key && entry.old_structure == structure
        && entry.epoch == epoch
}

/// The store plan a megamorphic entry stands for: a replacement when the structure stays,
/// a transition otherwise.
pub open spec fn spec_store_entry_plan(
    owner: CodeBlockId,
    slot: InlineCacheSlotId,
    bytecode_index: u32,
    entry: GeneratedPropertyStoreMegamorphicCacheEntry,
) -> PropertyStoreAccessCasePlan {
    PropertyStoreAccessCasePlan {
        plan_kind: if entry.old_structure == entry.new_structure {
            PropertyStoreAccessCasePlanKind::DataOnlyReplace
        } else {
            PropertyStoreAccessCasePlanKind::DataOnlyTransition
        },
        owner,
        slot,
        bytecode_index,
        key: entry.key,
        access_case: AccessCaseDescriptor {
            key: entry.key,
            base_structure: Some(entry.old_structure),
            new_structure: Some(entry.new_structure),
            holder: None,
            offset: Some(entry.offset),
        },
    }
}

pub open spec fn spec_store_megamorphic_lookup(
    table: GeneratedPropertyStoreMegamorphicCandidateTable,
    slot: InlineCacheSlotId,
    bytecode_index: u32,
    key: CacheKey,
    structure: StructureId,
) -> GeneratedPropertyStoreMegamorphicLookup {
    if spec_first_matching(table.sites@, spec_site_is(table.owner, slot, bytecode_index, key)) is None {
        GeneratedPropertyStoreMegamorphicLookup::NoSite
    } else {
        match spec_first_matching(table.entries@, spec_store_entry_is(key, structure, table.epoch)) {
            None => GeneratedPropertyStoreMegamorphicLookup::Miss,
            Some(entry) => GeneratedPropertyStoreMegamorphicLookup::Hit(
                spec_store_entry_plan(table.owner, slot, bytecode_index, entry),
            ),
        }
    }
}

impl GeneratedPropertyStoreMegamorphicCandidateTable {
    pub fn with_primary_entry(
        owner: CodeBlockId,
        epoch: u16,
        site: MegamorphicSite,
        entry: GeneratedPropertyStoreMegamorphicCacheEntry,
    ) -> (r: GeneratedPropertyStoreMegamorphicCandidateTable)
        ensures
            r.owner == owner,
            r.epoch == epoch,
            r.sites@ == seq![site],
            r.entries@ == seq![entry],
    {
        GeneratedPropertyStoreMegamorphicCandidateTable { owner, epoch, sites: vec![site], entries: vec![entry] }
    }

    pub fn owner(&self) -> (r: CodeBlockId)
        ensures
            r == self.owner,
    {
        self.owner
    }

    pub fn lookup(&self, slot: InlineCacheSlotId, bytecode_index: u32, key: CacheKey, structure: StructureId) -> (r:
        GeneratedPropertyStoreMegamorphicLookup)
        ensures
            r == spec_store_megamorphic_lookup(*self, slot, bytecode_index, key, structure),
    {
        if !contains_megamorphic_site(&self.sites, self.owner, slot, bytecode_index, key) {
            return GeneratedPropertyStoreMegamorphicLookup::NoSite;
        }
        let ghost matches = spec_store_entry_is(key, structure, self.epoch);
        let mut i: usize = 0;
        assert(self.entries@.skip(0) =~= self.entries@);
        while i < self.entries.len()
            invariant
                i <= self.entries@.len(),
                matches == spec_store_entry_is(key, structure, self.epoch),
                spec_first_matching(self.sites@, spec_site_is(self.owner, slot, bytecode_index, key)) is Some,
                spec_first_matching(self.entries@, matches) == spec_first_matching(self.entries@.skip(i as int), matches),
            decreases self.entries@.len() - i,
        {
            assert(self.entries@.skip(i as int).drop_first() =~= self.entries@.skip(i + 1));
            let entry = self.entries[i];
            assert(self.entries@.skip(i as int)[0] == entry);
            if entry.key == key && entry.old_structure == structure && entry.epoch == self.epoch {
                assert(matches(entry));
                let plan_kind = if entry.old_structure == entry.new_structure {
                    PropertyStoreAccessCasePlanKind::DataOnlyReplace
                } else {
                    PropertyStoreAccessCasePlanKind::DataOnlyTransition
                };
                return GeneratedPropertyStoreMegamorphicLookup::Hit(
                    PropertyStoreAccessCasePlan {
                        plan_kind,
                        owner: self.owner,
                        slot,
                        bytecode_index,
                        key: entry.key,
                        access_case: AccessCaseDescriptor {
                            key: entry.key,
                            base_structure: Some(entry.old_structure),
                            new_structure: Some(entry.new_structure),
                            holder: None,
                            offset: Some(entry.offset),
                        },
                    },
                );
            }
            i = i + 1;
        }
        GeneratedPropertyStoreMegamorphicLookup::Miss
    }
}

/// A megamorphic `in` entry: whether the key is present for a structure.
#[derive(Clone, Copy, Debug, PartialEq, Eq, Structural)]
pub struct GeneratedPropertyHasMegamorphicCacheEntry {
    pub key: CacheKey,
    pub base_structure: StructureId,
    pub epoch: u16,
    pub result: bool,
}

#[derive(Clone, Copy, Debug, PartialEq, Eq, Structural)]
pub enum GeneratedPropertyHasMegamorphicLookup {
    NoSite,
    Miss,
    Hit(bool),
}

/// The megamorphic `in` cache of one code block.
#[derive(Clone, Debug, PartialEq, Eq)]
pub struct GeneratedPropertyHasMegamorphicCandidateTable {
    pub owner: CodeBlockId,
    pub epoch: u16,
    pub sites: Vec<MegamorphicSite>,
    pub entries: Vec<GeneratedPropertyHasMegamorphicCacheEntry>,
}

pub open spec fn spec_has_entry_is(key: CacheKey, structure: StructureId, epoch: u16) -> spec_fn(
    GeneratedPropertyHasMegamorphicCacheEntry,
) -> bool {
    |entry: GeneratedPropertyHasMegamorphicCacheEntry| entry.key == key && entry.base_structure == structure
        && entry.epoch == epoch
}

pub open spec fn spec_has_megamorphic_contains_site(
    table: GeneratedPropertyHasMegamorphicCandidateTable,
    slot: InlineCacheSlotId,
    bytecode_index: u32,
    key: CacheKey,
) -> bool {
    spec_first_matching(table.sites@, spec_site_is(table.owner, slot, bytecode_index, key)) is Some
}

pub open spec fn spec_has_megamorphic_lookup(
    table: GeneratedPropertyHasMegamorphicCandidateTable,
    slot: InlineCacheSlotId,
    bytecode_index: u32,
    key: CacheKey,
    structure: StructureId,
) -> GeneratedPropertyHasMegamorphicLookup {
    if !spec_has_megamorphic_contains_site(table, slot, bytecode_index, key) {
        GeneratedPropertyHasMegamorphicLookup::NoSite
    } else {
        match spec_first_matching(table.entries@, spec_has_entry_is(key, structure, table.epoch)) {
            None => GeneratedPropertyHasMegamorphicLookup::Miss,
            Some(entry) => GeneratedPropertyHasMegamorphicLookup::Hit(entry.result),
        }
    }
}

impl GeneratedPropertyHasMegamorphicCandidateTable {
    pub fn with_primary_entry(
        owner: CodeBlockId,
        epoch: u16,
        site: MegamorphicSite,
        entry: GeneratedPropertyHasMegamorphicCacheEntry,
    ) -> (r: GeneratedPropertyHasMegamorphicCandidateTable)
        ensures
            r.owner == owner,
            r.epoch == epoch,
            r.sites@ == seq![site],
            r.entries@ == seq![entry],
    {
        GeneratedPropertyHasMegamorphicCandidateTable { owner, epoch, sites: vec![site], entries: vec![entry] }
    }

    pub fn owner(&self) -> (r: CodeBlockId)
        ensures
            r == self.owner,
    {
        self.owner
    }

    pub fn contains_site(&self, slot: InlineCacheSlotId, bytecode_index: u32, key: CacheKey) -> (r: bool)
        ensures
            r == spec_has_megamorphic_contains_site(*self, slot, bytecode_index, key),
    {
        contains_megamorphic_site(&self.sites, self.owner, slot, bytecode_index, key)
    }

    pub fn lookup(&self, slot: InlineCacheSlotId, bytecode_index: u32, key: CacheKey, structure: StructureId) -> (r:
        GeneratedPropertyHasMegamorphicLookup)
        ensures
            r == spec_has_megamorphic_lookup(*self, slot, bytecode_index, key, structure),
    {
        if !self.contains_site(slot, bytecode_index, key) {
            return GeneratedPropertyHasMegamorphicLookup::NoSite;
        }
        let ghost matches = spec_has_entry_is(key, structure, self.epoch);
        let mut i: usize = 0;
        assert(self.entries@.skip(0) =~= self.entries@);
        while i < self.entries.len()
            invariant
                i <= self.entries@.len(),
                matches == spec_has_entry_is(key, structure, self.epoch),
                spec_has_megamorphic_contains_site(*self, slot, bytecode_index, key),
                spec_first_matching(self.entries@, matches) == spec_first_matching(self.entries@.skip(i as int), matches),
            decreases self.entries@.len() - i,
        {
            assert(self.entries@.skip(i as int).drop_first() =~= self.entries@.skip(i + 1));
            let entry = self.entries[i];
            assert(self.entries@.skip(i as int)[0] == entry);
            if entry.key == key && entry.base_structure == structure && entry.epoch == self.epoch {
                assert(matches(entry));
                return GeneratedPropertyHasMegamorphicLookup::Hit(entry.result);
            }
            i = i + 1;
        }
        GeneratedPropertyHasMegamorphicLookup::Miss
    }
}


#[derive(Clone, Copy, Debug, PartialEq, Eq, Structural)]
pub struct CallBoundaryId(pub u64);

/// Whether a linked call site may call its target's code directly.
#[derive(Clone, Copy, Debug, PartialEq, Eq, Structural)]
pub enum GeneratedCallLinkDirectCallStatus {
    Authorized,
    Disallowed,
}

/// The function a call site was linked to.
#[derive(Clone, Copy, Debug, PartialEq, Eq, Structural)]
pub struct CallLinkAttachmentTarget {
    pub executable: ExecutableId,
    pub target_code_block: CodeBlockId,
    pub callee: ObjectId,
}

/// The call boundary a linked call crosses.
#[derive(Clone, Copy, Debug, PartialEq, Eq, Structural)]
pub struct CallBoundary {
    pub id: CallBoundaryId,
}

/// A call site the planner linked, with the ordinals of the steps that readied it.
#[derive(Clone, Copy, Debug, PartialEq, Eq, Structural)]
pub struct GeneratedCallLinkCandidate {
    pub owner: CodeBlockId,
    pub opcode: CoreOpcode,
    pub slot: InlineCacheSlotId,
    pub bytecode_index: u32,
    pub target: CallLinkAttachmentTarget,
    pub boundary: CallBoundary,
    pub attachment_ordinal: u64,
    pub attachment_plan_ordinal: u64,
    pub install_recheck_ordinal: u64,
    pub boundary_validation_ordinal: Option<u64>,
    pub descriptor_ordinal: Option<u64>,
    pub observation_ordinal: Option<u64>,
    pub readiness_ordinal: Option<u64>,
    pub direct_call_status: GeneratedCallLinkDirectCallStatus,
}

pub open spec fn spec_call_link_candidate_at(bytecode_index: u32) -> spec_fn(GeneratedCallLinkCandidate) -> bool {
    |candidate: GeneratedCallLinkCandidate| candidate.bytecode_index == bytecode_index
}

/// The linked call candidates of one code block, in the order they were added.
#[derive(Clone, Debug, PartialEq, Eq)]
pub struct GeneratedCallLinkCandidateTable {
    pub owner: CodeBlockId,
    pub candidates: Vec<GeneratedCallLinkCandidate>,
}

impl GeneratedCallLinkCandidateTable {
    pub fn new(owner: CodeBlockId, candidates: Vec<GeneratedCallLinkCandidate>) -> (r: GeneratedCallLinkCandidateTable)
        ensures
            r.owner == owner,
            r.candidates@ == candidates@,
    {
        GeneratedCallLinkCandidateTable { owner, candidates }
    }

    pub fn owner(&self) -> (r: CodeBlockId)
        ensures
            r == self.owner,
    {
        self.owner
    }

    /// The candidates at `bytecode_index`, in table order.
    pub fn candidates_for_bytecode_index(&self, bytecode_index: u32) -> (r: Vec<GeneratedCallLinkCandidate>)
        ensures
            r@ == spec_matching(self.candidates@, spec_call_link_candidate_at(bytecode_index)),
    {
        let ghost matches = spec_call_link_candidate_at(bytecode_index);
        let mut found: Vec<GeneratedCallLinkCandidate> = Vec::new();
        let mut i: usize = 0;
        while i < self.candidates.len()
            invariant
                i <= self.candidates@.len(),
                matches == spec_call_link_candidate_at(bytecode_index),
                found@ == spec_matching(self.candidates@.take(i as int), matches),
            decreases self.candidates@.len() - i,
        {
            assert(self.candidates@.take(i + 1).drop_last() =~= self.candidates@.take(i as int));
            let candidate = self.candidates[i];
            if candidate.bytecode_index == bytecode_index {
                found.push(candidate);
            }
            i = i + 1;
        }
        assert(self.candidates@.take(i as int) =~= self.candidates@);
        found
    }
}

/// The host's leave to call a linked target directly.
#[derive(Clone, Copy, Debug, PartialEq, Eq, Structural)]
pub struct GeneratedCallLinkDirectCall {
    pub owner: CodeBlockId,
    pub slot: InlineCacheSlotId,
    pub bytecode_index: u32,
    pub target_executable: ExecutableId,
    pub target_code_block: CodeBlockId,
    pub callee: ObjectId,
    pub boundary: CallBoundaryId,
}

impl GeneratedCallLinkDirectCall {
    pub fn from_candidate(candidate: &GeneratedCallLinkCandidate) -> (r: GeneratedCallLinkDirectCall)
        ensures
            r == (GeneratedCallLinkDirectCall {
                owner: candidate.owner,
                slot: candidate.slot,
                bytecode_index: candidate.bytecode_index,
                target_executable: candidate.target.executable,
                target_code_block: candidate.target.target_code_block,
                callee: candidate.target.callee,
                boundary: candidate.boundary.id,
            }),
    {
        GeneratedCallLinkDirectCall {
            owner: candidate.owner,
            slot: candidate.slot,
            bytecode_index: candidate.bytecode_index,
            target_executable: candidate.target.executable,
            target_code_block: candidate.target.target_code_block,
            callee: candidate.target.callee,
            boundary: candidate.boundary.id,
        }
    }
}

#[derive(Clone, Copy, Debug, PartialEq, Eq, Structural)]
pub enum GeneratedCallLinkProbeMissReason {
    CandidateNotFound,
    CalleeMismatch,
    HostUnavailable,
    DirectCallDisallowed,
    MissingCalleeIdentity,
    ArgumentCountMismatch,
}

/// The host's answer to a call-link probe.
#[derive(Clone, Copy, Debug, PartialEq, Eq, Structural)]
pub enum GeneratedCallLinkProbeResult {
    DirectCall(GeneratedCallLinkDirectCall),
    Blocked { reason: GeneratedCallLinkProbeMissReason },
    Miss { reason: GeneratedCallLinkProbeMissReason },
}

impl GeneratedCallLinkProbeResult {
    pub fn miss(reason: GeneratedCallLinkProbeMissReason) -> (r: GeneratedCallLinkProbeResult)
        ensures
            r == (GeneratedCallLinkProbeResult::Miss { reason }),
    {
        GeneratedCallLinkProbeResult::Miss { reason }
    }

    pub fn blocked(reason: GeneratedCallLinkProbeMissReason) -> (r: GeneratedCallLinkProbeResult)
        ensures
            r == (GeneratedCallLinkProbeResult::Blocked { reason }),
    {
        GeneratedCallLinkProbeResult::Blocked { reason }
    }
}

/// A call-link probe: one candidate against the call about to be made.
#[derive(Clone, Copy, Debug, PartialEq, Eq, Structural)]
pub struct GeneratedCallLinkProbeRequest {
    pub candidate: GeneratedCallLinkCandidate,
    pub owner: CodeBlockId,
    pub opcode: CoreOpcode,
    pub bytecode_index: u32,
    pub argument_count_including_this: u32,
    pub callee_value: RuntimeValue,
    pub callee_value_kind: ValueKind,
    pub callee_object: Option<ObjectId>,
    pub this_value: RuntimeValue,
    pub this_value_kind: ValueKind,
    pub this_object: Option<ObjectId>,
}

/// A call that a native intrinsic of the host may answer directly.
#[derive(Clone, Copy, Debug, PartialEq, Eq, Structural)]
pub struct GeneratedNativeIntrinsicCallRequest {
    pub owner: CodeBlockId,
    pub bytecode_index: crate::bytecode::BytecodeIndex,
    pub opcode: CoreOpcode,
    pub callee_value: RuntimeValue,
    pub this_value: RuntimeValue,
    pub provided_argument_count: u32,
    pub first_argument: Option<RuntimeValue>,
    pub second_argument: Option<RuntimeValue>,
}

#[derive(Clone, Copy, Debug, PartialEq, Eq, Structural)]
pub enum GeneratedNativeIntrinsicCallResult {
    Hit { value: RuntimeValue },
    Miss,
}

} // verus!
