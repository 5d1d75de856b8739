//! The dispatch unit assembler.
//!
//! It combines the classifier, the fast-path eligibility analyzer, and the
//! generic-path synthesizer into the final artifact: one immutable
//! `DispatchUnit` per annotated host function, constructed at transformation
//! time and consumed by the embedding layer at registration time.

use vstd::prelude::*;
use crate::classify::{class_is_fallible, classes_of, classify_params, classify_return, param_class, return_class, ParamClass};
use crate::fast::{analyze_fast, descriptor_matches, fast_eligible, FastDescriptor};
use crate::generic::{async_body_of, first_wire_position, plan_args_match, return_plan_of, synthesize_generic, GenericPlan, PathKind};
use crate::syntax::{parse_flags, parse_flags_spec, sig_is_async, signature_is_async, AuthoringError, Signature, TransformFlags};

verus! {

/// The dispatch artifact of one host function: its registration flags, the
/// generic entry point's marshalling plan, and — when the restricted
/// convention can represent the signature — the fast entry point's ABI
/// descriptor. A unit is immutable once constructed.
#[derive(Clone, Debug, PartialEq)]
pub struct DispatchUnit {
    pub name: String,
    /// Registration toggle handed to the embedding layer; always on here.
    pub enabled: bool,
    pub is_async: bool,
    pub unstable: bool,
    pub requires_engine_handle: bool,
    pub must_be_fast: bool,
    pub deferred: bool,
    /// The generic calling convention, always present.
    pub generic: GenericPlan,
    /// The restricted calling convention, where eligible.
    pub fast: Option<FastDescriptor>,
}

/// Whether a signature gets a fast entry point: never for asynchronous
/// functions, otherwise exactly where the analyzer finds it eligible.
pub open spec fn unit_has_fast(sig: Signature) -> bool {
    !sig_is_async(sig) && fast_eligible(classes_of(sig.params@), return_class(sig.ret))
}

/// What a transformed unit must look like for a given signature and flags.
pub open spec fn unit_matches(u: DispatchUnit, sig: Signature, flags: TransformFlags) -> bool {
    &&& u.name == sig.name
    &&& u.enabled
    &&& u.is_async == sig_is_async(sig)
    &&& u.unstable == flags.unstable
    &&& u.requires_engine_handle == flags.requires_engine_handle
    &&& u.must_be_fast == flags.must_be_fast
    &&& u.deferred == flags.deferred
    &&& (u.fast is Some) == unit_has_fast(sig)
    &&& (u.fast matches Some(d) ==> descriptor_matches(
        d,
        classes_of(sig.params@),
        return_class(sig.ret),
    ))
    &&& plan_args_match(
        sig.params@,
        flags.requires_engine_handle,
        first_wire_position(sig),
        u.generic.special@,
        u.generic.args@,
    )
    &&& (sig_is_async(sig) ==> u.generic.kind == (PathKind::Async {
        body: async_body_of(sig),
        deferred: flags.deferred,
    }))
    &&& (!sig_is_async(sig) ==> u.generic.kind == (PathKind::Sync {
        ret: return_plan_of(return_class(sig.ret)),
        check_fast_error_slot: unit_has_fast(sig) && class_is_fallible(return_class(sig.ret)),
    }))
}

/// The whole contract of transformation: the two fatal authoring errors are
/// reported exactly on their defining conditions, and otherwise a unit
/// matching the signature and flags is produced.
pub open spec fn transform_result_matches(
    r: Result<DispatchUnit, AuthoringError>,
    sig: Signature,
    flags: TransformFlags,
) -> bool {
    &&& (flags.must_be_fast && sig_is_async(sig) ==> r == Err::<DispatchUnit, AuthoringError>(
        AuthoringError::FastRequiresSync,
    ))
    &&& (flags.must_be_fast && !sig_is_async(sig) && !fast_eligible(
        classes_of(sig.params@),
        return_class(sig.ret),
    ) ==> r == Err::<DispatchUnit, AuthoringError>(AuthoringError::FastIneligible))
    &&& (!flags.must_be_fast || unit_has_fast(sig) ==> r is Ok)
    &&& (r matches Ok(u) ==> unit_matches(u, sig, flags))
}

/// Transform one parsed host function signature under the given authoring
/// flags into its dispatch unit. A must-be-fast function that is
/// asynchronous, or whose signature the restricted convention cannot
/// represent, is a fatal authoring error.
pub fn transform(sig: &Signature, flags: TransformFlags) -> (r: Result<
    DispatchUnit,
    AuthoringError,
>)
    ensures
        transform_result_matches(r, *sig, flags),
{
    let is_async = signature_is_async(sig);
    let rc = classify_return(&sig.ret);
    if is_async {
        if flags.must_be_fast {
            return Err(AuthoringError::FastRequiresSync);
        }
        let generic = synthesize_generic(sig, flags, false);
        Ok(
            DispatchUnit {
                name: sig.name.clone(),
                enabled: true,
                is_async: true,
                unstable: flags.unstable,
                requires_engine_handle: flags.requires_engine_handle,
                must_be_fast: flags.must_be_fast,
                deferred: flags.deferred,
                generic,
                fast: None,
            },
        )
    } else {
        let classes = classify_params(&sig.params);
        let fast = analyze_fast(&classes, rc);
        if flags.must_be_fast && fast.is_none() {
            return Err(AuthoringError::FastIneligible);
        }
        let has_fallible_fast = match &fast {
            Some(d) => d.returns_result,
            None => false,
        };
        proof {
            assert(has_fallible_fast == (unit_has_fast(*sig) && class_is_fallible(rc)));
        }
        let generic = synthesize_generic(sig, flags, has_fallible_fast);
        Ok(
            DispatchUnit {
                name: sig.name.clone(),
                enabled: true,
                is_async: false,
                unstable: flags.unstable,
                requires_engine_handle: flags.requires_engine_handle,
                must_be_fast: flags.must_be_fast,
                deferred: flags.deferred,
                generic,
                fast,
            },
        )
    }
}

/// Transform a signature under a raw annotation word list: the words are
/// parsed first, and an unrecognized word is a fatal authoring error.
pub fn transform_annotated(sig: &Signature, words: &Vec<String>) -> (r: Result<
    DispatchUnit,
    AuthoringError,
>)
    ensures
        parse_flags_spec(words@.map_values(|w: String| w@)) matches Err(_) ==> r == Err::<
            DispatchUnit,
            AuthoringError,
        >(AuthoringError::UnknownFlag),
        parse_flags_spec(words@.map_values(|w: String| w@)) matches Ok(f)
            ==> transform_result_matches(r, *sig, f),
{
    match parse_flags(words) {
        Ok(flags) => transform(sig, flags),
        Err(_) => Err(AuthoringError::UnknownFlag),
    }
}

} // verus!
