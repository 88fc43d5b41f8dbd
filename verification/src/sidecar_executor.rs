//! Generated-code runs with execution sidecars. The sidecars answer from their planner
//! tables and the dispatch host; whatever they answer, a run keeps the heap and the
//! frames, only adds to the sidecars' records, and fails its checks exactly as a plain
//! run does.
use vstd::prelude::*;
use crate::executor::{
    BaselineGeneratedExecutionMetrics, BaselineGeneratedExecutionRequest, BaselineGeneratedExecutionResult,
    BaselineGeneratedExecutionValidation, BaselineGeneratedExecutionWithRuntimeHelpersResult,
    execute_baseline_generated_code_internal, spec_optional_plan, spec_run, spec_run_consults, spec_run_preflight,
    spec_runs_plain, spec_state_kept, spec_without_runtime_helpers, without_runtime_helpers,
};
use crate::host::DispatchHost;
use crate::operands::BaselineGeneratedExecutionError;
use crate::runtime::{ExecutionCompletion, InterpreterExecutionState, spec_execution_view};
use crate::sidecar_dispatch::{GeneratedExecutionSidecars, NoGeneratedSidecars};
use crate::sidecars::{
    BaselineGeneratedCallLinkExecutionSidecar, BaselineGeneratedPropertyExecutionSidecars,
    BaselineGeneratedPropertyLoadExecutionSidecar, BaselineGeneratedPropertyStoreExecutionSidecar,
};
use crate::sites::BaselineGeneratedRuntimeHelperPlan;
use crate::value::RuntimeValue;

verus! {

/// Whether a run stops before its first instruction: its checks fail, or the code
/// block is empty.
pub open spec fn spec_run_never_starts(
    request: BaselineGeneratedExecutionRequest,
    plan: Option<BaselineGeneratedRuntimeHelperPlan>,
    validation: BaselineGeneratedExecutionValidation,
    before: InterpreterExecutionState,
) -> bool {
    !(spec_run_preflight(request, before, plan, validation) matches Ok(Some(_)))
}

/// What a run with sidecars owes whatever they answer: the heap and the frames are kept,
/// and a run that never starts reports its check's error, or completes with `undefined`
/// for an empty code block, changing nothing.
pub open spec fn spec_sidecar_run_bounds(
    request: BaselineGeneratedExecutionRequest,
    plan: Option<BaselineGeneratedRuntimeHelperPlan>,
    validation: BaselineGeneratedExecutionValidation,
    before: InterpreterExecutionState,
    after: InterpreterExecutionState,
    r: Result<BaselineGeneratedExecutionWithRuntimeHelpersResult, BaselineGeneratedExecutionError>,
) -> bool {
    &&& spec_state_kept(before, after)
    &&& match spec_run_preflight(request, before, plan, validation) {
        Err(error) => r == Err::<BaselineGeneratedExecutionWithRuntimeHelpersResult, BaselineGeneratedExecutionError>(
            error,
        ) && after == before,
        Ok(None) => r == Ok::<BaselineGeneratedExecutionWithRuntimeHelpersResult, BaselineGeneratedExecutionError>(
            BaselineGeneratedExecutionWithRuntimeHelpersResult::Completed(ExecutionCompletion::Returned(RuntimeValue::Undefined)),
        ) && after == before,
        Ok(Some(_)) => true,
    }
}

/// `spec_sidecar_run_bounds` for a run without runtime helpers.
pub open spec fn spec_plain_sidecar_run_bounds(
    request: BaselineGeneratedExecutionRequest,
    validation: BaselineGeneratedExecutionValidation,
    before: InterpreterExecutionState,
    after: InterpreterExecutionState,
    r: Result<BaselineGeneratedExecutionResult, BaselineGeneratedExecutionError>,
) -> bool {
    &&& spec_state_kept(before, after)
    &&& match spec_run_preflight(request, before, None, validation) {
        Err(error) => r == Err::<BaselineGeneratedExecutionResult, BaselineGeneratedExecutionError>(error) && after
            == before,
        Ok(None) => r == Ok::<BaselineGeneratedExecutionResult, BaselineGeneratedExecutionError>(
            BaselineGeneratedExecutionResult::Completed(ExecutionCompletion::Returned(RuntimeValue::Undefined)),
        ) && after == before,
        Ok(Some(_)) => true,
    }
}

/// A run without runtime helpers whose plain run never reaches an instruction that would
/// consult a sidecar is that plain run: the same result, register slots and frames.
pub open spec fn spec_unconsulted_run_is_plain(
    request: BaselineGeneratedExecutionRequest,
    validation: BaselineGeneratedExecutionValidation,
    before: InterpreterExecutionState,
    after: InterpreterExecutionState,
    r: Result<BaselineGeneratedExecutionResult, BaselineGeneratedExecutionError>,
) -> bool {
    !spec_run_consults(request, before, 0, Seq::empty(), None, false, validation) ==> {
        let run = spec_run(request, before, 0, Seq::empty(), None, false, validation);
        &&& r == spec_without_runtime_helpers(run.result)
        &&& spec_execution_view(after) == run.view
    }
}

/// `spec_unconsulted_run_is_plain` for a run that records metrics.
pub open spec fn spec_unconsulted_metered_run_is_plain(
    request: BaselineGeneratedExecutionRequest,
    validation: BaselineGeneratedExecutionValidation,
    before: InterpreterExecutionState,
    after: InterpreterExecutionState,
    metrics_before: BaselineGeneratedExecutionMetrics,
    metrics_after: BaselineGeneratedExecutionMetrics,
    r: Result<BaselineGeneratedExecutionResult, BaselineGeneratedExecutionError>,
) -> bool {
    !spec_run_consults(
        request,
        before,
        metrics_before.executed_bytecode_count,
        metrics_before.loop_hint_observations@,
        None,
        true,
        validation,
    ) ==> {
        let run = spec_run(
            request,
            before,
            metrics_before.executed_bytecode_count,
            metrics_before.loop_hint_observations@,
            None,
            true,
            validation,
        );
        &&& r == spec_without_runtime_helpers(run.result)
        &&& spec_execution_view(after) == run.view
        &&& metrics_after.executed_bytecode_count == run.executed
        &&& metrics_after.loop_hint_observations@ == run.hints
    }
}

/// A run with runtime helpers and whichever sidecars are given (`NoGeneratedSidecars`
/// where there is none), recording metrics. With no sidecar at all it is the plain run
/// of `spec_run`.
pub fn execute_baseline_generated_code_with_runtime_helpers_and_sidecars_and_metrics_and_validation<
    P: GeneratedExecutionSidecars,
    C: GeneratedExecutionSidecars,
>(
    request: BaselineGeneratedExecutionRequest,
    execution: &mut InterpreterExecutionState,
    runtime_helper_plan: &BaselineGeneratedRuntimeHelperPlan,
    property_sidecars: &mut P,
    generated_call_link_sidecar: &mut C,
    metrics: &mut BaselineGeneratedExecutionMetrics,
    validation: BaselineGeneratedExecutionValidation,
) -> (r: Result<BaselineGeneratedExecutionWithRuntimeHelpersResult, BaselineGeneratedExecutionError>)
    ensures
        spec_sidecar_run_bounds(request, Some(*runtime_helper_plan), validation, *old(execution), *final(execution), r),
        final(property_sidecars).spec_keeps(old(property_sidecars)),
        final(generated_call_link_sidecar).spec_keeps(old(generated_call_link_sidecar)),
        spec_run_never_starts(request, Some(*runtime_helper_plan), validation, *old(execution)) ==> {
            &&& *final(metrics) == *old(metrics)
            &&& *final(property_sidecars) == *old(property_sidecars)
            &&& *final(generated_call_link_sidecar) == *old(generated_call_link_sidecar)
        },
        spec_runs_plain(
            *old(property_sidecars),
            *old(generated_call_link_sidecar),
            request,
            *old(execution),
            old(metrics).executed_bytecode_count,
            old(metrics).loop_hint_observations@,
            Some(*runtime_helper_plan),
            true,
            validation,
        ) ==> ({
            let run = spec_run(
                request,
                *old(execution),
                old(metrics).executed_bytecode_count,
                old(metrics).loop_hint_observations@,
                Some(*runtime_helper_plan),
                true,
                validation,
            );
            &&& r == run.result
            &&& spec_execution_view(*final(execution)) == run.view
            &&& final(metrics).executed_bytecode_count == run.executed
            &&& final(metrics).loop_hint_observations@ == run.hints
        }),
{
    execute_baseline_generated_code_internal(
        request,
        execution,
        Some(runtime_helper_plan),
        property_sidecars,
        generated_call_link_sidecar,
        metrics,
        true,
        validation,
    )
}

/// As above, with full validation.
pub fn execute_baseline_generated_code_with_runtime_helpers_and_sidecars_and_metrics<
    P: GeneratedExecutionSidecars,
    C: GeneratedExecutionSidecars,
>(
    request: BaselineGeneratedExecutionRequest,
    execution: &mut InterpreterExecutionState,
    runtime_helper_plan: &BaselineGeneratedRuntimeHelperPlan,
    property_sidecars: &mut P,
    generated_call_link_sidecar: &mut C,
    metrics: &mut BaselineGeneratedExecutionMetrics,
) -> (r: Result<BaselineGeneratedExecutionWithRuntimeHelpersResult, BaselineGeneratedExecutionError>)
    ensures
        spec_sidecar_run_bounds(
            request,
            Some(*runtime_helper_plan),
            BaselineGeneratedExecutionValidation::Full,
            *old(execution),
            *final(execution),
            r,
        ),
        final(property_sidecars).spec_keeps(old(property_sidecars)),
        final(generated_call_link_sidecar).spec_keeps(old(generated_call_link_sidecar)),
        spec_run_never_starts(request, Some(*runtime_helper_plan), BaselineGeneratedExecutionValidation::Full, *old(execution))
            ==> *final(metrics) == *old(metrics),
        spec_runs_plain(
            *old(property_sidecars),
            *old(generated_call_link_sidecar),
            request,
            *old(execution),
            old(metrics).executed_bytecode_count,
            old(metrics).loop_hint_observations@,
            Some(*runtime_helper_plan),
            true,
            BaselineGeneratedExecutionValidation::Full,
        ) ==> ({
            let run = spec_run(
                request,
                *old(execution),
                old(metrics).executed_bytecode_count,
                old(metrics).loop_hint_observations@,
                Some(*runtime_helper_plan),
                true,
                BaselineGeneratedExecutionValidation::Full,
            );
            &&& r == run.result
            &&& spec_execution_view(*final(execution)) == run.view
            &&& final(metrics).executed_bytecode_count == run.executed
            &&& final(metrics).loop_hint_observations@ == run.hints
        }),
{
    execute_baseline_generated_code_with_runtime_helpers_and_sidecars_and_metrics_and_validation(
        request,
        execution,
        runtime_helper_plan,
        property_sidecars,
        generated_call_link_sidecar,
        metrics,
        BaselineGeneratedExecutionValidation::Full,
    )
}

/// A run with runtime helpers and sidecars, full validation and no metrics.
pub fn execute_baseline_generated_code_with_runtime_helpers_and_sidecars<
    P: GeneratedExecutionSidecars,
    C: GeneratedExecutionSidecars,
>(
    request: BaselineGeneratedExecutionRequest,
    execution: &mut InterpreterExecutionState,
    runtime_helper_plan: &BaselineGeneratedRuntimeHelperPlan,
    property_sidecars: &mut P,
    generated_call_link_sidecar: &mut C,
) -> (r: Result<BaselineGeneratedExecutionWithRuntimeHelpersResult, BaselineGeneratedExecutionError>)
    ensures
        spec_sidecar_run_bounds(
            request,
            Some(*runtime_helper_plan),
            BaselineGeneratedExecutionValidation::Full,
            *old(execution),
            *final(execution),
            r,
        ),
        final(property_sidecars).spec_keeps(old(property_sidecars)),
        final(generated_call_link_sidecar).spec_keeps(old(generated_call_link_sidecar)),
        spec_runs_plain(
            *old(property_sidecars),
            *old(generated_call_link_sidecar),
            request,
            *old(execution),
            0,
            Seq::empty(),
            Some(*runtime_helper_plan),
            false,
            BaselineGeneratedExecutionValidation::Full,
        ) ==> ({
            let run = spec_run(
                request,
                *old(execution),
                0,
                Seq::empty(),
                Some(*runtime_helper_plan),
                false,
                BaselineGeneratedExecutionValidation::Full,
            );
            &&& r == run.result
            &&& spec_execution_view(*final(execution)) == run.view
        }),
{
    let mut metrics = BaselineGeneratedExecutionMetrics::new();
    assert(metrics.loop_hint_observations@ =~= Seq::empty());
    execute_baseline_generated_code_internal(
        request,
        execution,
        Some(runtime_helper_plan),
        property_sidecars,
        generated_call_link_sidecar,
        &mut metrics,
        false,
        BaselineGeneratedExecutionValidation::Full,
    )
}

/// A run with property sidecars and a call-link sidecar, full validation, no runtime
/// helpers and no metrics.
pub fn execute_baseline_generated_code_with_property_and_call_link_sidecars<H: DispatchHost, K: DispatchHost>(
    request: BaselineGeneratedExecutionRequest,
    execution: &mut InterpreterExecutionState,
    property_sidecars: &mut BaselineGeneratedPropertyExecutionSidecars<'_, H>,
    generated_call_link_sidecar: &mut BaselineGeneratedCallLinkExecutionSidecar<'_, K>,
) -> (r: Result<BaselineGeneratedExecutionResult, BaselineGeneratedExecutionError>)
    ensures
        spec_plain_sidecar_run_bounds(
            request,
            BaselineGeneratedExecutionValidation::Full,
            *old(execution),
            *final(execution),
            r,
        ),
        final(property_sidecars).spec_keeps(old(property_sidecars)),
        final(generated_call_link_sidecar).spec_keeps(old(generated_call_link_sidecar)),
        spec_unconsulted_run_is_plain(request, BaselineGeneratedExecutionValidation::Full, *old(execution), *final(execution), r),
        !spec_run_consults(request, *old(execution), 0, Seq::empty(), None, false, BaselineGeneratedExecutionValidation::Full) ==> *final(property_sidecars) == *old(property_sidecars),
        !spec_run_consults(request, *old(execution), 0, Seq::empty(), None, false, BaselineGeneratedExecutionValidation::Full) ==> *final(generated_call_link_sidecar) == *old(generated_call_link_sidecar),
{
    let mut metrics = BaselineGeneratedExecutionMetrics::new();
    assert(metrics.loop_hint_observations@ =~= Seq::empty());
    let result = execute_baseline_generated_code_internal(
        request,
        execution,
        None,
        property_sidecars,
        generated_call_link_sidecar,
        &mut metrics,
        false,
        BaselineGeneratedExecutionValidation::Full,
    );
    without_runtime_helpers(result)
}

/// A run with property sidecars, recording metrics, with the given validation.
pub fn execute_baseline_generated_code_with_property_sidecars_and_metrics_and_validation<H: DispatchHost>(
    request: BaselineGeneratedExecutionRequest,
    execution: &mut InterpreterExecutionState,
    property_sidecars: &mut BaselineGeneratedPropertyExecutionSidecars<'_, H>,
    metrics: &mut BaselineGeneratedExecutionMetrics,
    validation: BaselineGeneratedExecutionValidation,
) -> (r: Result<BaselineGeneratedExecutionResult, BaselineGeneratedExecutionError>)
    ensures
        spec_plain_sidecar_run_bounds(request, validation, *old(execution), *final(execution), r),
        final(property_sidecars).spec_keeps(old(property_sidecars)),
        spec_run_never_starts(request, None, validation, *old(execution)) ==> {
            &&& *final(metrics) == *old(metrics)
            &&& *final(property_sidecars) == *old(property_sidecars)
        },
        spec_unconsulted_metered_run_is_plain(
            request,
            validation,
            *old(execution),
            *final(execution),
            *old(metrics),
            *final(metrics),
            r,
        ),
        !spec_run_consults(
            request,
            *old(execution),
            old(metrics).executed_bytecode_count,
            old(metrics).loop_hint_observations@,
            None,
            true,
            validation,
        ) ==> *final(property_sidecars) == *old(property_sidecars),
{
    let result = execute_baseline_generated_code_internal(
        request,
        execution,
        None,
        property_sidecars,
        &mut NoGeneratedSidecars,
        metrics,
        true,
        validation,
    );
    without_runtime_helpers(result)
}

/// A run with property sidecars, recording metrics, with full validation.
pub fn execute_baseline_generated_code_with_property_sidecars_and_metrics<H: DispatchHost>(
    request: BaselineGeneratedExecutionRequest,
    execution: &mut InterpreterExecutionState,
    property_sidecars: &mut BaselineGeneratedPropertyExecutionSidecars<'_, H>,
    metrics: &mut BaselineGeneratedExecutionMetrics,
) -> (r: Result<BaselineGeneratedExecutionResult, BaselineGeneratedExecutionError>)
    ensures
        spec_plain_sidecar_run_bounds(
            request,
            BaselineGeneratedExecutionValidation::Full,
            *old(execution),
            *final(execution),
            r,
        ),
        final(property_sidecars).spec_keeps(old(property_sidecars)),
        spec_run_never_starts(request, None, BaselineGeneratedExecutionValidation::Full, *old(execution))
            ==> *final(metrics) == *old(metrics),
        spec_unconsulted_metered_run_is_plain(
            request,
            BaselineGeneratedExecutionValidation::Full,
            *old(execution),
            *final(execution),
            *old(metrics),
            *final(metrics),
            r,
        ),
        !spec_run_consults(
            request,
            *old(execution),
            old(metrics).executed_bytecode_count,
            old(metrics).loop_hint_observations@,
            None,
            true,
            BaselineGeneratedExecutionValidation::Full,
        ) ==> *final(property_sidecars) == *old(property_sidecars),
{
    execute_baseline_generated_code_with_property_sidecars_and_metrics_and_validation(
        request,
        execution,
        property_sidecars,
        metrics,
        BaselineGeneratedExecutionValidation::Full,
    )
}

/// A run with property sidecars, full validation and no metrics.
pub fn execute_baseline_generated_code_with_property_sidecars<H: DispatchHost>(
    request: BaselineGeneratedExecutionRequest,
    execution: &mut InterpreterExecutionState,
    property_sidecars: &mut BaselineGeneratedPropertyExecutionSidecars<'_, H>,
) -> (r: Result<BaselineGeneratedExecutionResult, BaselineGeneratedExecutionError>)
    ensures
        spec_plain_sidecar_run_bounds(
            request,
            BaselineGeneratedExecutionValidation::Full,
            *old(execution),
            *final(execution),
            r,
        ),
        final(property_sidecars).spec_keeps(old(property_sidecars)),
        spec_unconsulted_run_is_plain(request, BaselineGeneratedExecutionValidation::Full, *old(execution), *final(execution), r),
        !spec_run_consults(request, *old(execution), 0, Seq::empty(), None, false, BaselineGeneratedExecutionValidation::Full) ==> *final(property_sidecars) == *old(property_sidecars),
{
    let mut metrics = BaselineGeneratedExecutionMetrics::new();
    assert(metrics.loop_hint_observations@ =~= Seq::empty());
    let result = execute_baseline_generated_code_internal(
        request,
        execution,
        None,
        property_sidecars,
        &mut NoGeneratedSidecars,
        &mut metrics,
        false,
        BaselineGeneratedExecutionValidation::Full,
    );
    without_runtime_helpers(result)
}

/// A run with a property-load sidecar: its property sidecars serve loads only.
pub fn execute_baseline_generated_code_with_property_load_sidecar<H: DispatchHost>(
    request: BaselineGeneratedExecutionRequest,
    execution: &mut InterpreterExecutionState,
    sidecar: &mut BaselineGeneratedPropertyLoadExecutionSidecar<'_, H>,
) -> (r: Result<BaselineGeneratedExecutionResult, BaselineGeneratedExecutionError>)
    ensures
        spec_plain_sidecar_run_bounds(
            request,
            BaselineGeneratedExecutionValidation::Full,
            *old(execution),
            *final(execution),
            r,
        ),
        final(sidecar).sidecars.spec_keeps(&old(sidecar).sidecars),
        spec_unconsulted_run_is_plain(request, BaselineGeneratedExecutionValidation::Full, *old(execution), *final(execution), r),
        !spec_run_consults(request, *old(execution), 0, Seq::empty(), None, false, BaselineGeneratedExecutionValidation::Full) ==> *final(sidecar) == *old(sidecar),
{
    execute_baseline_generated_code_with_property_sidecars(request, execution, &mut sidecar.sidecars)
}

/// A run with a property-store sidecar: its property sidecars serve stores only.
pub fn execute_baseline_generated_code_with_property_store_sidecar<H: DispatchHost>(
    request: BaselineGeneratedExecutionRequest,
    execution: &mut InterpreterExecutionState,
    sidecar: &mut BaselineGeneratedPropertyStoreExecutionSidecar<'_, H>,
) -> (r: Result<BaselineGeneratedExecutionResult, BaselineGeneratedExecutionError>)
    ensures
        spec_plain_sidecar_run_bounds(
            request,
            BaselineGeneratedExecutionValidation::Full,
            *old(execution),
            *final(execution),
            r,
        ),
        final(sidecar).sidecars.spec_keeps(&old(sidecar).sidecars),
        spec_unconsulted_run_is_plain(request, BaselineGeneratedExecutionValidation::Full, *old(execution), *final(execution), r),
        !spec_run_consults(request, *old(execution), 0, Seq::empty(), None, false, BaselineGeneratedExecutionValidation::Full) ==> *final(sidecar) == *old(sidecar),
{
    execute_baseline_generated_code_with_property_sidecars(request, execution, &mut sidecar.sidecars)
}

/// A run with a call-link sidecar, recording metrics, with the given validation.
pub fn execute_baseline_generated_code_with_generated_call_link_sidecar_and_metrics_and_validation<H: DispatchHost>(
    request: BaselineGeneratedExecutionRequest,
    execution: &mut InterpreterExecutionState,
    sidecar: &mut BaselineGeneratedCallLinkExecutionSidecar<'_, H>,
    metrics: &mut BaselineGeneratedExecutionMetrics,
    validation: BaselineGeneratedExecutionValidation,
) -> (r: Result<BaselineGeneratedExecutionResult, BaselineGeneratedExecutionError>)
    ensures
        spec_plain_sidecar_run_bounds(request, validation, *old(execution), *final(execution), r),
        final(sidecar).spec_keeps(old(sidecar)),
        spec_run_never_starts(request, None, validation, *old(execution)) ==> {
            &&& *final(metrics) == *old(metrics)
            &&& *final(sidecar) == *old(sidecar)
        },
        spec_unconsulted_metered_run_is_plain(
            request,
            validation,
            *old(execution),
            *final(execution),
            *old(metrics),
            *final(metrics),
            r,
        ),
        !spec_run_consults(
            request,
            *old(execution),
            old(metrics).executed_bytecode_count,
            old(metrics).loop_hint_observations@,
            None,
            true,
            validation,
        ) ==> *final(sidecar) == *old(sidecar),
{
    let result = execute_baseline_generated_code_internal(
        request,
        execution,
        None,
        &mut NoGeneratedSidecars,
        sidecar,
        metrics,
        true,
        validation,
    );
    without_runtime_helpers(result)
}

/// A run with a call-link sidecar, recording metrics, with full validation.
pub fn execute_baseline_generated_code_with_generated_call_link_sidecar_and_metrics<H: DispatchHost>(
    request: BaselineGeneratedExecutionRequest,
    execution: &mut InterpreterExecutionState,
    sidecar: &mut BaselineGeneratedCallLinkExecutionSidecar<'_, H>,
    metrics: &mut BaselineGeneratedExecutionMetrics,
) -> (r: Result<BaselineGeneratedExecutionResult, BaselineGeneratedExecutionError>)
    ensures
        spec_plain_sidecar_run_bounds(
            request,
            BaselineGeneratedExecutionValidation::Full,
            *old(execution),
            *final(execution),
            r,
        ),
        final(sidecar).spec_keeps(old(sidecar)),
        spec_run_never_starts(request, None, BaselineGeneratedExecutionValidation::Full, *old(execution))
            ==> *final(metrics) == *old(metrics),
        spec_unconsulted_metered_run_is_plain(
            request,
            BaselineGeneratedExecutionValidation::Full,
            *old(execution),
            *final(execution),
            *old(metrics),
            *final(metrics),
            r,
        ),
        !spec_run_consults(
            request,
            *old(execution),
            old(metrics).executed_bytecode_count,
            old(metrics).loop_hint_observations@,
            None,
            true,
            BaselineGeneratedExecutionValidation::Full,
        ) ==> *final(sidecar) == *old(sidecar),
{
    execute_baseline_generated_code_with_generated_call_link_sidecar_and_metrics_and_validation(
        request,
        execution,
        sidecar,
        metrics,
        BaselineGeneratedExecutionValidation::Full,
    )
}

/// A run with a call-link sidecar, full validation and no metrics.
pub fn execute_baseline_generated_code_with_generated_call_link_sidecar<H: DispatchHost>(
    request: BaselineGeneratedExecutionRequest,
    execution: &mut InterpreterExecutionState,
    sidecar: &mut BaselineGeneratedCallLinkExecutionSidecar<'_, H>,
) -> (r: Result<BaselineGeneratedExecutionResult, BaselineGeneratedExecutionError>)
    ensures
        spec_plain_sidecar_run_bounds(
            request,
            BaselineGeneratedExecutionValidation::Full,
            *old(execution),
            *final(execution),
            r,
        ),
        final(sidecar).spec_keeps(old(sidecar)),
        spec_unconsulted_run_is_plain(request, BaselineGeneratedExecutionValidation::Full, *old(execution), *final(execution), r),
        !spec_run_consults(request, *old(execution), 0, Seq::empty(), None, false, BaselineGeneratedExecutionValidation::Full) ==> *final(sidecar) == *old(sidecar),
{
    let mut metrics = BaselineGeneratedExecutionMetrics::new();
    assert(metrics.loop_hint_observations@ =~= Seq::empty());
    let result = execute_baseline_generated_code_internal(
        request,
        execution,
        None,
        &mut NoGeneratedSidecars,
        sidecar,
        &mut metrics,
        false,
        BaselineGeneratedExecutionValidation::Full,
    );
    without_runtime_helpers(result)
}

} // verus!
