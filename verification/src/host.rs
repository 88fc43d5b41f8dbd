//! The dispatch host: the VM services that execution sidecars query while generated code
//! runs. The host owns the objects and their storage; the sidecars only ask.
use vstd::prelude::*;
use crate::ic::{
    CacheKey, GeneratedCallLinkProbeMissReason, GeneratedCallLinkProbeRequest, GeneratedCallLinkProbeResult,
    GeneratedGuardedPropertyLoadProbeMissReason, GeneratedGuardedPropertyLoadProbeRequest,
    GeneratedGuardedPropertyLoadProbeResult, GeneratedNativeIntrinsicCallRequest, GeneratedNativeIntrinsicCallResult,
    GeneratedPropertyLoadMegamorphicHolderProbeRequest, GeneratedPropertyLoadProbeMissReason,
    GeneratedPropertyLoadProbeRequest, GeneratedPropertyLoadProbeResult, GeneratedPropertyStoreMutationMissReason,
    GeneratedPropertyStoreMutationRequest, GeneratedPropertyStoreMutationResult, GeneratedPropertyStoreProbeMissReason,
    GeneratedPropertyStoreProbeRequest, GeneratedPropertyStoreProbeResult, StructureId,
};
use crate::ic::{
    GeneratedGuardedPropertyLoadProbeMiss, GeneratedPropertyLoadProbeMiss, GeneratedPropertyStoreMutationRejection,
    GeneratedPropertyStoreProbeMiss,
};
use crate::value::RuntimeValue;

verus! {

/// The services an embedding VM offers generated code's sidecars. Nothing is assumed of
/// the answers: every sidecar is verified for whatever the host returns. A host that
/// offers no service answers "unavailable" everywhere, which is what each method does
/// unless the host overrides it (each default states its answer).
pub trait DispatchHost {
    /// The structure of `base` when it is an object, for a property sidecar's guard.
    fn generated_property_sidecar_base_structure(&mut self, base: RuntimeValue) -> (r: Option<StructureId>)
        default_ensures
            r is None,
    {
        None
    }

    /// The structure of `base` for an `in` sidecar; primitives have none.
    fn generated_property_has_sidecar_base_structure(&mut self, base: RuntimeValue) -> (r: Option<StructureId>)
        default_ensures
            r is None,
    {
        None
    }

    /// The cache key an `in` by value would look up for `property`, when it has one.
    fn generated_property_has_sidecar_runtime_key(&mut self, property: RuntimeValue) -> (r: Option<CacheKey>)
        default_ensures
            r is None,
    {
        None
    }

    /// Whether structure-chain invalidations are waiting to be processed.
    fn has_pending_structure_chain_invalidation_events(&mut self) -> (r: bool)
        default_ensures
            !r,
    {
        false
    }

    fn probe_generated_property_load(&mut self, request: GeneratedPropertyLoadProbeRequest) -> (r:
        GeneratedPropertyLoadProbeResult)
        default_ensures
            r == GeneratedPropertyLoadProbeResult::Miss(
                GeneratedPropertyLoadProbeMiss { reason: GeneratedPropertyLoadProbeMissReason::HostUnavailable },
            ),
    {
        GeneratedPropertyLoadProbeResult::miss(GeneratedPropertyLoadProbeMissReason::HostUnavailable)
    }

    fn probe_generated_property_load_megamorphic_holder(
        &mut self,
        request: GeneratedPropertyLoadMegamorphicHolderProbeRequest,
    ) -> (r: GeneratedPropertyLoadProbeResult)
        default_ensures
            r == GeneratedPropertyLoadProbeResult::Miss(
                GeneratedPropertyLoadProbeMiss { reason: GeneratedPropertyLoadProbeMissReason::HostUnavailable },
            ),
    {
        GeneratedPropertyLoadProbeResult::miss(GeneratedPropertyLoadProbeMissReason::HostUnavailable)
    }

    fn probe_generated_guarded_property_load(&mut self, request: GeneratedGuardedPropertyLoadProbeRequest) -> (r:
        GeneratedGuardedPropertyLoadProbeResult)
        default_ensures
            r == GeneratedGuardedPropertyLoadProbeResult::Miss(
                GeneratedGuardedPropertyLoadProbeMiss {
                    reason: GeneratedGuardedPropertyLoadProbeMissReason::HostUnavailable,
                    requirement: request.plan.descriptor.requirement,
                    key: request.plan.descriptor.key,
                    prototype_depth: request.plan.descriptor.prototype_depth,
                    chain_index: None,
                    outcome: request.plan.descriptor.outcome,
                },
            ),
    {
        GeneratedGuardedPropertyLoadProbeResult::miss_for_plan(
            GeneratedGuardedPropertyLoadProbeMissReason::HostUnavailable,
            &request.plan,
            None,
        )
    }

    fn probe_generated_property_store(&mut self, request: GeneratedPropertyStoreProbeRequest) -> (r:
        GeneratedPropertyStoreProbeResult)
        default_ensures
            r == GeneratedPropertyStoreProbeResult::Miss(
                GeneratedPropertyStoreProbeMiss { reason: GeneratedPropertyStoreProbeMissReason::HostUnavailable },
            ),
    {
        GeneratedPropertyStoreProbeResult::miss(GeneratedPropertyStoreProbeMissReason::HostUnavailable)
    }

    /// Performs a probed store on the host's object storage.
    fn commit_generated_property_store(&mut self, request: GeneratedPropertyStoreMutationRequest) -> (r:
        GeneratedPropertyStoreMutationResult)
        default_ensures
            r == GeneratedPropertyStoreMutationResult::Rejected(
                GeneratedPropertyStoreMutationRejection { reason: GeneratedPropertyStoreMutationMissReason::HostUnavailable },
            ),
    {
        GeneratedPropertyStoreMutationResult::rejected(GeneratedPropertyStoreMutationMissReason::HostUnavailable)
    }

    fn probe_generated_call_link(&mut self, request: GeneratedCallLinkProbeRequest) -> (r:
        GeneratedCallLinkProbeResult)
        default_ensures
            r == (GeneratedCallLinkProbeResult::Miss { reason: GeneratedCallLinkProbeMissReason::HostUnavailable }),
    {
        GeneratedCallLinkProbeResult::miss(GeneratedCallLinkProbeMissReason::HostUnavailable)
    }

    /// Answers a call with a native intrinsic of the host, when it has one for the callee.
    fn dispatch_generated_native_intrinsic_call(&mut self, request: GeneratedNativeIntrinsicCallRequest) -> (r:
        GeneratedNativeIntrinsicCallResult)
        default_ensures
            r == GeneratedNativeIntrinsicCallResult::Miss,
    {
        GeneratedNativeIntrinsicCallResult::Miss
    }
}

} // verus!
