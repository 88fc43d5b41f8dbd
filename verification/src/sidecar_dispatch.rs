//! How a run consults its sidecars: a call-link sidecar and a set of property sidecars,
//! either of which may be absent. A run with neither is a plain run.
use vstd::prelude::*;
use crate::bytecode::{CoreOpcode, TypedInstruction};
use crate::handoff::{
    BaselineGeneratedFallbackCause, BaselineGeneratedFallbackSite, BaselineGeneratedJsCallHandoff,
    BaselineGeneratedJsDirectCall, baseline_generated_js_call_handoff, baseline_generated_property_handoff,
    fallback_opcode, fallback_site,
};
use crate::host::DispatchHost;
use crate::instruction::{
    BaselineInstructionContext, execute_supported_instruction, owner_continuation_site_for_handoff,
    property_handoff_site_for_instruction, spec_context_env, spec_execute_instruction, spec_unsupported_instruction,
};
use crate::operands::{BaselineGeneratedExecutionError, BaselineInstructionAbort, BaselineInstructionOutcome};
use crate::runtime::{CodeBlockId, InterpreterExecutionState, RegisterWindow, spec_execution_view};
use crate::sidecars::{
    BaselineGeneratedCallLinkExecutionSidecar, BaselineGeneratedPropertyExecutionSidecars,
    BaselineGeneratedPropertyIncrementNumericMode, GeneratedCallLinkSidecarAttempt, PropertySidecarAttempt,
    execute_generated_call_link_property_sidecar_probe, execute_generated_call_link_sidecar_probe,
    execute_generated_native_intrinsic_call_property_sidecar_probe,
    execute_generated_native_intrinsic_call_sidecar_probe, execute_property_has_sidecar_candidate,
    execute_property_load_or_increment_sidecar_candidate, execute_property_store_sidecar_candidate,
    spec_call_answered, spec_call_link_probe_outcome, spec_native_intrinsic_call_outcome, spec_records_extended, spec_same_plans,
    spec_has_late_abort, spec_has_settled, spec_load_settled, spec_property_store_sidecar_operands, spec_store_settled,
    spec_store_host_asked, spec_store_ends_committed, spec_has_structure_answered, spec_load_sidecar_wrote,
    spec_load_hit_answered, spec_load_answer_written, spec_load_or_increment_finished, spec_property_increment_shape,
    spec_store_exchanges_between,
};
use crate::operands::spec_register_operand_or_fallback;
use crate::ic::CacheKey;
use crate::value::RuntimeValue;
use crate::sites::BaselineGeneratedPropertyHandoffPlanMetadata;

verus! {

/// The sidecars a run may consult for the calls and property accesses its opcode subset
/// leaves out. Each sidecar only adds to its own records; an absent one answers nothing.
pub trait GeneratedExecutionSidecars: Sized {
    /// Whether there is a sidecar here at all.
    spec fn spec_present(&self) -> bool;

    /// A later state keeps what an earlier one had: the same tables, and every record made.
    spec fn spec_keeps(&self, earlier: &Self) -> bool;

    proof fn lemma_keeps_reflexive(s: &Self)
        ensures
            s.spec_keeps(s),
    ;

    proof fn lemma_keeps_transitive(a: &Self, b: &Self, c: &Self)
        requires
            b.spec_keeps(a),
            c.spec_keeps(b),
        ensures
            c.spec_keeps(a),
    ;

    fn is_present(&self) -> (r: bool)
        ensures
            r == self.spec_present(),
    ;

    /// Offers a call to the host's native intrinsics; a hit writes the call's destination.
    fn try_native_intrinsic_call(
        &mut self,
        execution: &mut InterpreterExecutionState,
        attempt: GeneratedCallLinkSidecarAttempt,
    ) -> (r: Result<Option<BaselineInstructionOutcome>, BaselineInstructionAbort>)
        ensures
            final(self).spec_present() == old(self).spec_present(),
            final(self).spec_keeps(old(self)),
            final(execution).stack == old(execution).stack,
            final(execution).heap == old(execution).heap,
            spec_call_answered(
                *attempt.instruction,
                attempt.window,
                old(execution).registers.slots@,
                r,
                final(execution).registers.slots@,
            ),
            !old(self).spec_present() ==> {
                &&& r == Ok::<Option<BaselineInstructionOutcome>, BaselineInstructionAbort>(None)
                &&& *final(self) == *old(self)
                &&& *final(execution) == *old(execution)
            },
    ;

    /// Looks for an authorized direct call for a call handoff.
    fn try_direct_call(
        &mut self,
        execution: &InterpreterExecutionState,
        attempt: GeneratedCallLinkSidecarAttempt,
    ) -> (r: Result<Option<BaselineGeneratedJsDirectCall>, BaselineInstructionAbort>)
        ensures
            final(self).spec_present() == old(self).spec_present(),
            final(self).spec_keeps(old(self)),
            !old(self).spec_present() ==> {
                &&& r == Ok::<Option<BaselineGeneratedJsDirectCall>, BaselineInstructionAbort>(None)
                &&& *final(self) == *old(self)
            },
    ;

    /// Tries to finish a property access (`opcode`) without the interpreter.
    fn try_property(
        &mut self,
        execution: &mut InterpreterExecutionState,
        attempt: PropertySidecarAttempt,
        opcode: CoreOpcode,
        owner: CodeBlockId,
        property_handoff_plan: Option<&BaselineGeneratedPropertyHandoffPlanMetadata>,
    ) -> (r: Result<Option<BaselineInstructionOutcome>, BaselineInstructionAbort>)
        ensures
            final(self).spec_present() == old(self).spec_present(),
            final(self).spec_keeps(old(self)),
            final(execution).stack == old(execution).stack,
            final(execution).heap == old(execution).heap,
            r == Ok::<Option<BaselineInstructionOutcome>, BaselineInstructionAbort>(None)
                ==> final(execution).registers.slots@ == old(execution).registers.slots@,
            r matches Ok(Some(outcome)) ==> (outcome is Continue || outcome is ContinueTo || outcome is Property),
            !old(self).spec_present() ==> {
                &&& r == Ok::<Option<BaselineInstructionOutcome>, BaselineInstructionAbort>(None)
                &&& *final(self) == *old(self)
                &&& *final(execution) == *old(execution)
            },
    ;
}

/// The property loads a sidecar may finish: by name, of the global object, of a length,
/// and by value.
pub open spec fn spec_load_family(opcode: CoreOpcode) -> bool {
    opcode == CoreOpcode::GetByName || opcode == CoreOpcode::GetGlobalObjectProperty || opcode == CoreOpcode::GetLength
        || opcode == CoreOpcode::GetByValue
}

/// The property stores a sidecar may finish: by name, to the global object, and by value.
pub open spec fn spec_store_family(opcode: CoreOpcode) -> bool {
    opcode == CoreOpcode::PutByName || opcode == CoreOpcode::PutGlobalObjectProperty || opcode == CoreOpcode::PutByValue
}

/// The `in` checks a sidecar may answer: by id and by value.
pub open spec fn spec_has_family(opcode: CoreOpcode) -> bool {
    opcode == CoreOpcode::InById || opcode == CoreOpcode::InByVal
}

/// No sidecar: every question goes unanswered and nothing is recorded.
pub struct NoGeneratedSidecars;

impl GeneratedExecutionSidecars for NoGeneratedSidecars {
    open spec fn spec_present(&self) -> bool {
        false
    }

    open spec fn spec_keeps(&self, earlier: &Self) -> bool {
        true
    }

    proof fn lemma_keeps_reflexive(s: &Self) {
    }

    proof fn lemma_keeps_transitive(a: &Self, b: &Self, c: &Self) {
    }

    fn is_present(&self) -> (r: bool) {
        false
    }

    fn try_native_intrinsic_call(
        &mut self,
        execution: &mut InterpreterExecutionState,
        attempt: GeneratedCallLinkSidecarAttempt,
    ) -> (r: Result<Option<BaselineInstructionOutcome>, BaselineInstructionAbort>) {
        Ok(None)
    }

    fn try_direct_call(
        &mut self,
        execution: &InterpreterExecutionState,
        attempt: GeneratedCallLinkSidecarAttempt,
    ) -> (r: Result<Option<BaselineGeneratedJsDirectCall>, BaselineInstructionAbort>) {
        Ok(None)
    }

    fn try_property(
        &mut self,
        execution: &mut InterpreterExecutionState,
        attempt: PropertySidecarAttempt,
        opcode: CoreOpcode,
        owner: CodeBlockId,
        property_handoff_plan: Option<&BaselineGeneratedPropertyHandoffPlanMetadata>,
    ) -> (r: Result<Option<BaselineInstructionOutcome>, BaselineInstructionAbort>) {
        Ok(None)
    }
}

proof fn lemma_prefix_reflexive<T>(s: Seq<T>)
    ensures
        s.is_prefix_of(s),
{
    assert(s =~= s.subrange(0, s.len() as int));
}

proof fn lemma_prefix_chain<T>(a: Seq<T>, b: Seq<T>, c: Seq<T>)
    requires
        a.is_prefix_of(b),
        b.is_prefix_of(c),
    ensures
        a.is_prefix_of(c),
{
    assert(a =~= c.subrange(0, a.len() as int)) by {
        assert forall|i: int| 0 <= i < a.len() implies a[i] == c[i] by {
            assert(a[i] == b.subrange(0, a.len() as int)[i]);
            assert(b[i] == c.subrange(0, b.len() as int)[i]);
        }
    }
}

/// Records that stayed as they were have been extended, trivially.
proof fn lemma_unchanged_records_extended<'a, H>(
    a: BaselineGeneratedPropertyExecutionSidecars<'a, H>,
    b: BaselineGeneratedPropertyExecutionSidecars<'a, H>,
)
    requires
        a.destination_root_sync_requests@.is_prefix_of(b.destination_root_sync_requests@)
            || a.destination_root_sync_requests@ == b.destination_root_sync_requests@,
        a.property_load_probe_miss_records@.is_prefix_of(b.property_load_probe_miss_records@)
            || a.property_load_probe_miss_records@ == b.property_load_probe_miss_records@,
        a.guarded_property_load_probe_miss_records@.len() <= b.guarded_property_load_probe_miss_records@.len(),
        a.property_store_probe_miss_records@.is_prefix_of(b.property_store_probe_miss_records@)
            || a.property_store_probe_miss_records@ == b.property_store_probe_miss_records@,
        a.property_store_mutation_rejection_records@.is_prefix_of(b.property_store_mutation_rejection_records@)
            || a.property_store_mutation_rejection_records@ == b.property_store_mutation_rejection_records@,
        a.property_store_mutation_commit_records@.is_prefix_of(b.property_store_mutation_commit_records@)
            || a.property_store_mutation_commit_records@ == b.property_store_mutation_commit_records@,
        a.generated_call_link_probe_miss_records@.is_prefix_of(b.generated_call_link_probe_miss_records@)
            || a.generated_call_link_probe_miss_records@ == b.generated_call_link_probe_miss_records@,
        a.generated_call_link_probe_blocked_records@.is_prefix_of(b.generated_call_link_probe_blocked_records@)
            || a.generated_call_link_probe_blocked_records@ == b.generated_call_link_probe_blocked_records@,
        a.generated_direct_call_hot_slot_hits <= b.generated_direct_call_hot_slot_hits,
    ensures
        spec_records_extended(a, b),
{
    lemma_prefix_reflexive(a.destination_root_sync_requests@);
    lemma_prefix_reflexive(a.property_load_probe_miss_records@);
    lemma_prefix_reflexive(a.property_store_probe_miss_records@);
    lemma_prefix_reflexive(a.property_store_mutation_rejection_records@);
    lemma_prefix_reflexive(a.property_store_mutation_commit_records@);
    lemma_prefix_reflexive(a.generated_call_link_probe_miss_records@);
    lemma_prefix_reflexive(a.generated_call_link_probe_blocked_records@);
}

impl<'a, H: DispatchHost> GeneratedExecutionSidecars for BaselineGeneratedPropertyExecutionSidecars<'a, H> {
    open spec fn spec_present(&self) -> bool {
        true
    }

    open spec fn spec_keeps(&self, earlier: &Self) -> bool {
        spec_same_plans(*earlier, *self) && spec_records_extended(*earlier, *self)
    }

    proof fn lemma_keeps_reflexive(s: &Self) {
        lemma_unchanged_records_extended(*s, *s);
    }

    proof fn lemma_keeps_transitive(a: &Self, b: &Self, c: &Self) {
        lemma_prefix_chain(
            a.destination_root_sync_requests@,
            b.destination_root_sync_requests@,
            c.destination_root_sync_requests@,
        );
        lemma_prefix_chain(
            a.property_load_probe_miss_records@,
            b.property_load_probe_miss_records@,
            c.property_load_probe_miss_records@,
        );
        lemma_prefix_chain(
            a.property_store_probe_miss_records@,
            b.property_store_probe_miss_records@,
            c.property_store_probe_miss_records@,
        );
        lemma_prefix_chain(
            a.property_store_mutation_rejection_records@,
            b.property_store_mutation_rejection_records@,
            c.property_store_mutation_rejection_records@,
        );
        lemma_prefix_chain(
            a.property_store_mutation_commit_records@,
            b.property_store_mutation_commit_records@,
            c.property_store_mutation_commit_records@,
        );
        lemma_prefix_chain(
            a.generated_call_link_probe_miss_records@,
            b.generated_call_link_probe_miss_records@,
            c.generated_call_link_probe_miss_records@,
        );
        lemma_prefix_chain(
            a.generated_call_link_probe_blocked_records@,
            b.generated_call_link_probe_blocked_records@,
            c.generated_call_link_probe_blocked_records@,
        );
    }

    fn is_present(&self) -> (r: bool) {
        true
    }

    fn try_native_intrinsic_call(
        &mut self,
        execution: &mut InterpreterExecutionState,
        attempt: GeneratedCallLinkSidecarAttempt,
    ) -> (r: Result<Option<BaselineInstructionOutcome>, BaselineInstructionAbort>)
        ensures
            spec_native_intrinsic_call_outcome(attempt, *old(execution), *final(execution), r, *final(self) == *old(self)),
    {
        let r = execute_generated_native_intrinsic_call_property_sidecar_probe(self, execution, attempt);
        proof {
            lemma_unchanged_records_extended(*old(self), *self);
        }
        r
    }

    fn try_direct_call(
        &mut self,
        execution: &InterpreterExecutionState,
        attempt: GeneratedCallLinkSidecarAttempt,
    ) -> (r: Result<Option<BaselineGeneratedJsDirectCall>, BaselineInstructionAbort>)
        ensures
            old(self).generated_call_link_candidate_table is None ==> {
                &&& r == Ok::<Option<BaselineGeneratedJsDirectCall>, BaselineInstructionAbort>(None)
                &&& *final(self) == *old(self)
            },
            old(self).generated_call_link_candidate_table matches Some(table) ==> spec_call_link_probe_outcome(
                *table,
                old(self).generated_direct_call_hot_slots@,
                final(self).dispatch_host == old(self).dispatch_host,
                old(self).generated_call_link_probe_miss_records@,
                final(self).generated_call_link_probe_miss_records@,
                old(self).generated_call_link_probe_blocked_records@,
                final(self).generated_call_link_probe_blocked_records@,
                old(self).generated_direct_call_hot_slot_hits,
                final(self).generated_direct_call_hot_slot_hits,
                *execution,
                attempt,
                r,
            ),
    {
        let r = execute_generated_call_link_property_sidecar_probe(self, execution, attempt);
        proof {
            lemma_unchanged_records_extended(*old(self), *self);
        }
        r
    }

    fn try_property(
        &mut self,
        execution: &mut InterpreterExecutionState,
        attempt: PropertySidecarAttempt,
        opcode: CoreOpcode,
        owner: CodeBlockId,
        property_handoff_plan: Option<&BaselineGeneratedPropertyHandoffPlanMetadata>,
    ) -> (r: Result<Option<BaselineInstructionOutcome>, BaselineInstructionAbort>)
        ensures
            spec_load_family(opcode) ==> {
                &&& spec_register_operand_or_fallback(*attempt.instruction, 0, attempt.fallback) matches Err(abort) ==> {
                    &&& r == Err::<Option<BaselineInstructionOutcome>, BaselineInstructionAbort>(abort)
                    &&& *final(self) == *old(self)
                    &&& *final(execution) == *old(execution)
                }
                &&& spec_register_operand_or_fallback(*attempt.instruction, 0, attempt.fallback) is Ok ==> (
                spec_load_settled(*old(self), *old(execution), attempt) matches Some(settled) ==> {
                    &&& r == settled
                    &&& *final(self) == *old(self)
                    &&& *final(execution) == *old(execution)
                })
                &&& spec_register_operand_or_fallback(*attempt.instruction, 0, attempt.fallback) matches Ok(load_destination)
                    ==> exists|
                    load: Result<Option<BaselineInstructionOutcome>, BaselineInstructionAbort>,
                    loaded: Seq<RuntimeValue>,
                |
                    #![trigger spec_load_sidecar_wrote(attempt, old(execution).registers.slots@, load, loaded)]
                    {
                        &&& spec_load_sidecar_wrote(attempt, old(execution).registers.slots@, load, loaded)
                        &&& spec_load_hit_answered(
                            old(self).load_host_exchanges@,
                            final(self).load_host_exchanges@,
                            attempt,
                            old(execution).registers.slots@,
                            load,
                            loaded,
                        )
                        &&& (load matches Ok(Some(_)) ==> spec_load_answer_written(
                            old(self).load_host_exchanges@,
                            final(self).load_host_exchanges@,
                            attempt,
                            old(execution).registers.slots@,
                            loaded,
                        ))
                        &&& spec_load_or_increment_finished(
                            load,
                            spec_property_increment_shape(
                                owner,
                                *attempt.code_block,
                                *attempt.instruction,
                                attempt.site,
                                match property_handoff_plan {
                                    Some(p) => Some(*p),
                                    None => None,
                                },
                            ),
                            loaded,
                            *attempt.code_block,
                            attempt.window,
                            load_destination,
                            attempt.fallback,
                            owner,
                            BaselineGeneratedPropertyIncrementNumericMode::AnyNumber,
                            spec_store_exchanges_between(*old(self), *final(self)),
                            r,
                            final(execution).registers.slots@,
                        )
                    }
            },
            spec_store_family(opcode) ==> {
                &&& *final(execution) == *old(execution)
                &&& spec_store_settled(*old(self), *old(execution), attempt) matches Some(settled) ==> {
                    &&& r == settled
                    &&& *final(self) == *old(self)
                }
                &&& r matches Err(abort) ==> spec_property_store_sidecar_operands(
                    *old(execution),
                    *attempt.code_block,
                    attempt.window,
                    *attempt.instruction,
                    attempt.fallback,
                ) == Err::<(RuntimeValue, RuntimeValue, Option<CacheKey>), BaselineInstructionAbort>(abort)
                &&& spec_store_host_asked(*old(self), *final(self), *old(execution), attempt)
                &&& spec_store_ends_committed(*old(self), *final(self)) ==> r == Ok::<
                    Option<BaselineInstructionOutcome>,
                    BaselineInstructionAbort,
                >(Some(BaselineInstructionOutcome::Continue))
            },
            spec_has_family(opcode) ==> {
                &&& spec_has_structure_answered(
                    old(self).property_has_megamorphic_candidate_table,
                    old(self).has_host_exchanges@,
                    final(self).has_host_exchanges@,
                    attempt,
                    old(execution).registers.slots@,
                    r,
                    final(execution).registers.slots@,
                )
                &&& spec_has_settled(old(self).property_has_megamorphic_candidate_table, old(execution).registers.slots@, attempt)
                    matches Some(settled) ==> {
                    &&& r == settled
                    &&& *final(self) == *old(self)
                    &&& *final(execution) == *old(execution)
                }
                &&& r matches Err(abort) ==> spec_has_settled(
                    old(self).property_has_megamorphic_candidate_table,
                    old(execution).registers.slots@,
                    attempt,
                ) == Some(Err::<Option<BaselineInstructionOutcome>, BaselineInstructionAbort>(abort))
                    || spec_has_late_abort(old(execution).registers.slots@, attempt, abort)
            },
            !spec_load_family(opcode) && !spec_store_family(opcode) && !spec_has_family(opcode) ==> {
                &&& r == Ok::<Option<BaselineInstructionOutcome>, BaselineInstructionAbort>(None)
                &&& *final(self) == *old(self)
                &&& *final(execution) == *old(execution)
            },
    {
        let r = if opcode == CoreOpcode::GetByName || opcode == CoreOpcode::GetGlobalObjectProperty
            || opcode == CoreOpcode::GetLength || opcode == CoreOpcode::GetByValue {
            execute_property_load_or_increment_sidecar_candidate(
                self,
                execution,
                attempt,
                owner,
                property_handoff_plan,
                BaselineGeneratedPropertyIncrementNumericMode::AnyNumber,
            )
        } else if opcode == CoreOpcode::PutByName || opcode == CoreOpcode::PutGlobalObjectProperty
            || opcode == CoreOpcode::PutByValue {
            execute_property_store_sidecar_candidate(self, execution, attempt)
        } else if opcode == CoreOpcode::InById || opcode == CoreOpcode::InByVal {
            execute_property_has_sidecar_candidate(self, execution, attempt)
        } else {
            Ok(None)
        };
        proof {
            lemma_unchanged_records_extended(*old(self), *self);
        }
        r
    }
}

impl<'a, H: DispatchHost> GeneratedExecutionSidecars for BaselineGeneratedCallLinkExecutionSidecar<'a, H> {
    open spec fn spec_present(&self) -> bool {
        true
    }

    open spec fn spec_keeps(&self, earlier: &Self) -> bool {
        &&& self.candidate_table == earlier.candidate_table
        &&& self.direct_call_hot_slots@ == earlier.direct_call_hot_slots@
        &&& earlier.probe_miss_records@.is_prefix_of(self.probe_miss_records@)
        &&& earlier.probe_blocked_records@.is_prefix_of(self.probe_blocked_records@)
        &&& earlier.direct_call_hot_slot_hits <= self.direct_call_hot_slot_hits
    }

    proof fn lemma_keeps_reflexive(s: &Self) {
        lemma_prefix_reflexive(s.probe_miss_records@);
        lemma_prefix_reflexive(s.probe_blocked_records@);
    }

    proof fn lemma_keeps_transitive(a: &Self, b: &Self, c: &Self) {
        lemma_prefix_chain(a.probe_miss_records@, b.probe_miss_records@, c.probe_miss_records@);
        lemma_prefix_chain(a.probe_blocked_records@, b.probe_blocked_records@, c.probe_blocked_records@);
    }

    fn is_present(&self) -> (r: bool) {
        true
    }

    fn try_native_intrinsic_call(
        &mut self,
        execution: &mut InterpreterExecutionState,
        attempt: GeneratedCallLinkSidecarAttempt,
    ) -> (r: Result<Option<BaselineInstructionOutcome>, BaselineInstructionAbort>)
        ensures
            spec_native_intrinsic_call_outcome(attempt, *old(execution), *final(execution), r, *final(self) == *old(self)),
    {
        let r = execute_generated_native_intrinsic_call_sidecar_probe(self, execution, attempt);
        proof {
            lemma_prefix_reflexive(self.probe_miss_records@);
            lemma_prefix_reflexive(self.probe_blocked_records@);
        }
        r
    }

    fn try_direct_call(
        &mut self,
        execution: &InterpreterExecutionState,
        attempt: GeneratedCallLinkSidecarAttempt,
    ) -> (r: Result<Option<BaselineGeneratedJsDirectCall>, BaselineInstructionAbort>)
        ensures
            spec_call_link_probe_outcome(
                *old(self).candidate_table,
                old(self).direct_call_hot_slots@,
                final(self).dispatch_host == old(self).dispatch_host,
                old(self).probe_miss_records@,
                final(self).probe_miss_records@,
                old(self).probe_blocked_records@,
                final(self).probe_blocked_records@,
                old(self).direct_call_hot_slot_hits,
                final(self).direct_call_hot_slot_hits,
                *execution,
                attempt,
                r,
            ),
    {
        execute_generated_call_link_sidecar_probe(self, execution, attempt)
    }

    fn try_property(
        &mut self,
        execution: &mut InterpreterExecutionState,
        attempt: PropertySidecarAttempt,
        opcode: CoreOpcode,
        owner: CodeBlockId,
        property_handoff_plan: Option<&BaselineGeneratedPropertyHandoffPlanMetadata>,
    ) -> (r: Result<Option<BaselineInstructionOutcome>, BaselineInstructionAbort>)
        ensures
            r == Ok::<Option<BaselineInstructionOutcome>, BaselineInstructionAbort>(None),
            *final(self) == *old(self),
            *final(execution) == *old(execution),
    {
        proof {
            lemma_prefix_reflexive(self.probe_miss_records@);
            lemma_prefix_reflexive(self.probe_blocked_records@);
        }
        Ok(None)
    }
}

/// Whether `property` and `call_link` are both absent.
pub open spec fn spec_no_sidecars<P: GeneratedExecutionSidecars, C: GeneratedExecutionSidecars>(
    property: P,
    call_link: C,
) -> bool {
    !property.spec_present() && !call_link.spec_present()
}

/// Whether running `instruction` may consult a sidecar: only a `call`, a `call with this`
/// or a property access that the body's subset leaves out does.
pub open spec fn spec_consults_sidecars(subset: crate::plan::BaselineSupportedOpcodeSubset, instruction: TypedInstruction) -> bool {
    match instruction.opcode {
        crate::bytecode::Opcode::Core(opcode) => {
            &&& !crate::plan::spec_subset_supports(subset, opcode)
            &&& (opcode == CoreOpcode::Call || opcode == CoreOpcode::CallWithThis || crate::sites::spec_is_property_opcode(opcode))
        },
        crate::bytecode::Opcode::Generated(_) => false,
    }
}

/// What the sidecar steps promise of the sidecars: each keeps its tables and records,
/// and with no sidecar nothing changes.
pub open spec fn spec_sidecars_kept<P: GeneratedExecutionSidecars, C: GeneratedExecutionSidecars>(
    old_property: P,
    new_property: P,
    old_call_link: C,
    new_call_link: C,
) -> bool {
    &&& new_property.spec_present() == old_property.spec_present()
    &&& new_property.spec_keeps(&old_property)
    &&& new_call_link.spec_present() == old_call_link.spec_present()
    &&& new_call_link.spec_keeps(&old_call_link)
    &&& spec_no_sidecars(old_property, old_call_link) ==> new_property == old_property && new_call_link
        == old_call_link
}

/// A call outside the body's subset, with sidecars: a `call` or `call with this` may be
/// answered by a native intrinsic, or carry a direct call into its handoff; the call-link
/// sidecar is asked before the property sidecars.
fn execute_call_with_sidecars<P: GeneratedExecutionSidecars, C: GeneratedExecutionSidecars>(
    context: BaselineInstructionContext,
    window: RegisterWindow,
    execution: &mut InterpreterExecutionState,
    instruction: &TypedInstruction,
    opcode: CoreOpcode,
    site: BaselineGeneratedFallbackSite,
    property: &mut P,
    call_link: &mut C,
) -> (r: Result<BaselineInstructionOutcome, BaselineInstructionAbort>)
    requires
        opcode == CoreOpcode::Call || opcode == CoreOpcode::CallWithThis || opcode == CoreOpcode::Construct,
    ensures
        final(execution).stack == old(execution).stack,
        final(execution).heap == old(execution).heap,
        spec_sidecars_kept(*old(property), *final(property), *old(call_link), *final(call_link)),
        spec_no_sidecars(*old(property), *old(call_link)) || opcode == CoreOpcode::Construct ==> {
            &&& r == spec_unsupported_instruction(
                spec_context_env(context),
                window,
                spec_execution_view(*old(execution)),
                *instruction,
                opcode,
                site,
            )
            &&& *final(execution) == *old(execution)
            &&& *final(property) == *old(property)
            &&& *final(call_link) == *old(call_link)
        },
{
    proof {
        P::lemma_keeps_reflexive(property);
        C::lemma_keeps_reflexive(call_link);
    }
    let attempt = GeneratedCallLinkSidecarAttempt {
        window,
        code_block: context.code_block,
        fallback: site,
        owner: context.owner,
        opcode,
        instruction,
    };
    let mut direct_call: Option<BaselineGeneratedJsDirectCall> = None;
    if opcode != CoreOpcode::Construct {
        let native = if call_link.is_present() {
            call_link.try_native_intrinsic_call(execution, attempt)?
        } else if property.is_present() {
            property.try_native_intrinsic_call(execution, attempt)?
        } else {
            None
        };
        if let Some(outcome) = native {
            return Ok(outcome);
        }
        let ghost property_mid = *property;
        let ghost call_link_mid = *call_link;
        let probed = if call_link.is_present() {
            call_link.try_direct_call(execution, attempt)
        } else if property.is_present() {
            property.try_direct_call(execution, attempt)
        } else {
            Ok(None)
        };
        proof {
            P::lemma_keeps_transitive(old(property), &property_mid, property);
            C::lemma_keeps_transitive(old(call_link), &call_link_mid, call_link);
        }
        direct_call = probed?;
    }
    match baseline_generated_js_call_handoff(
        context.owner,
        context.frame,
        window,
        context.code_block,
        execution,
        instruction,
    ) {
        Err(error) => Err(
            BaselineInstructionAbort::Error(
                BaselineGeneratedExecutionError::JsCallHandoff {
                    bytecode_index: instruction.bytecode_index,
                    opcode: fallback_opcode(instruction.opcode),
                    error,
                },
            ),
        ),
        Ok(handoff) => {
            let owner_continuation = owner_continuation_site_for_handoff(context.owner_continuation_map, &handoff);
            match direct_call {
                Some(direct_call) => Ok(
                    BaselineInstructionOutcome::JsCall(
                        BaselineGeneratedJsCallHandoff { owner_continuation, direct_call: Some(direct_call), ..handoff },
                    ),
                ),
                None => Ok(BaselineInstructionOutcome::JsCall(BaselineGeneratedJsCallHandoff { owner_continuation, ..handoff })),
            }
        },
    }
}

/// A property access outside the body's subset, with sidecars: the planned site is
/// looked up first, then the property sidecars may finish the access; what they leave is
/// handed off.
fn execute_property_access_with_sidecars<P: GeneratedExecutionSidecars>(
    context: BaselineInstructionContext,
    window: RegisterWindow,
    execution: &mut InterpreterExecutionState,
    instruction: &TypedInstruction,
    opcode: CoreOpcode,
    site: BaselineGeneratedFallbackSite,
    property: &mut P,
) -> (r: Result<BaselineInstructionOutcome, BaselineInstructionAbort>)
    requires
        crate::sites::spec_is_property_opcode(opcode),
        !crate::sites::spec_is_js_call_opcode(opcode),
    ensures
        final(execution).stack == old(execution).stack,
        final(execution).heap == old(execution).heap,
        final(property).spec_present() == old(property).spec_present(),
        final(property).spec_keeps(old(property)),
        !old(property).spec_present() ==> {
            &&& r == spec_unsupported_instruction(
                spec_context_env(context),
                window,
                spec_execution_view(*old(execution)),
                *instruction,
                opcode,
                site,
            )
            &&& *final(execution) == *old(execution)
            &&& *final(property) == *old(property)
        },
{
    proof {
        P::lemma_keeps_reflexive(property);
    }
    let property_site = match property_handoff_site_for_instruction(
        context.owner,
        context.code_block,
        instruction,
        context.property_handoff_plan,
    ) {
        Err(error) => {
            return Err(
                BaselineInstructionAbort::Error(
                    BaselineGeneratedExecutionError::PropertyHandoff {
                        bytecode_index: instruction.bytecode_index,
                        opcode: fallback_opcode(instruction.opcode),
                        error,
                    },
                ),
            );
        },
        Ok(property_site) => property_site,
    };
    if property.is_present() {
        let attempt = PropertySidecarAttempt {
            window,
            code_block: context.code_block,
            fallback: site,
            frame: context.frame,
            instruction,
            site: property_site,
        };
        if let Some(outcome) = property.try_property(
            execution,
            attempt,
            opcode,
            context.owner,
            context.property_handoff_plan,
        )? {
            return Ok(outcome);
        }
    }
    match baseline_generated_property_handoff(context.owner, context.frame, instruction, &property_site) {
        Err(error) => Err(
            BaselineInstructionAbort::Error(
                BaselineGeneratedExecutionError::PropertyHandoff {
                    bytecode_index: instruction.bytecode_index,
                    opcode: fallback_opcode(instruction.opcode),
                    error,
                },
            ),
        ),
        Ok(handoff) => Ok(BaselineInstructionOutcome::Property(handoff)),
    }
}

/// Runs one instruction with sidecars. Only the register slots change; with no sidecar
/// the step is that of `execute_instruction`.
pub fn execute_instruction_with_sidecars<P: GeneratedExecutionSidecars, C: GeneratedExecutionSidecars>(
    context: BaselineInstructionContext,
    window: RegisterWindow,
    execution: &mut InterpreterExecutionState,
    instruction: &TypedInstruction,
    property: &mut P,
    call_link: &mut C,
) -> (r: Result<BaselineInstructionOutcome, BaselineInstructionAbort>)
    ensures
        final(execution).stack == old(execution).stack,
        final(execution).heap == old(execution).heap,
        spec_sidecars_kept(*old(property), *final(property), *old(call_link), *final(call_link)),
        spec_no_sidecars(*old(property), *old(call_link)) || !spec_consults_sidecars(context.opcode_subset, *instruction)
            ==> {
            &&& (r, final(execution).registers.slots@) == spec_execute_instruction(
                spec_context_env(context),
                window,
                spec_execution_view(*old(execution)),
                *instruction,
            )
            &&& *final(property) == *old(property)
            &&& *final(call_link) == *old(call_link)
        },
{
    proof {
        P::lemma_keeps_reflexive(property);
        C::lemma_keeps_reflexive(call_link);
    }
    let site = fallback_site(context.owner, context.frame, instruction);
    let opcode = match CoreOpcode::from_opcode(instruction.opcode) {
        None => {
            return Ok(BaselineInstructionOutcome::Fallback(site.with_cause(BaselineGeneratedFallbackCause::UnsupportedOpcode)));
        },
        Some(opcode) => opcode,
    };
    if !context.opcode_subset.supports(opcode) {
        if opcode == CoreOpcode::Call || opcode == CoreOpcode::CallWithThis || opcode == CoreOpcode::Construct {
            return execute_call_with_sidecars(context, window, execution, instruction, opcode, site, property, call_link);
        }
        if crate::sites::is_property_opcode(opcode) {
            return execute_property_access_with_sidecars(context, window, execution, instruction, opcode, site, property);
        }
        return Ok(BaselineInstructionOutcome::Fallback(site.with_cause(BaselineGeneratedFallbackCause::UnsupportedOpcode)));
    }
    execute_supported_instruction(context.opcode_subset, context.code_block, window, execution, instruction, opcode, site)
}

} // verus!
