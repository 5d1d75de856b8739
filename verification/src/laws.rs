//! The library's cross-component guarantees, stated and proved once.

use vstd::prelude::*;
use crate::classify::{classes_of, param_class, return_class, shape_class, ParamClass, ReturnClass};
use crate::dispatch::{transform_result_matches, unit_has_fast};
use crate::fast::{
    body_position, consumes_state, descriptor_args, fast_eligible, is_buffer_class,
    lemma_body_slots_full, lemma_no_buffer_slots, needs_options, param_fast_ok, param_slot,
    params_fast_ok, return_fast, scalar_param_wire, scalar_return_wire, trailing_options, CType,
    WireType,
};
use crate::generic::{marshal_action, MarshalAction};
use crate::syntax::{sig_is_async, AuthoringError, Signature, TransformFlags, TypeShape};

verus! {

/// A signature of wire-representable scalar parameters with a
/// wire-representable, non-fallible scalar return is always eligible for
/// the fast path, and its wire-type list is exactly one receiver slot
/// followed by one slot per parameter — no callback-options slot is forced.
pub proof fn law_scalar_fast_descriptor(classes: Seq<ParamClass>, rc: ReturnClass)
    requires
        forall|i: int| 0 <= i < classes.len() ==> ((#[trigger] classes[i])
            matches ParamClass::Scalar(k) && scalar_param_wire(k) is Some),
        rc matches ReturnClass::Scalar(k) && scalar_return_wire(k) is Some,
    ensures
        fast_eligible(classes, rc),
        descriptor_args(classes, rc).len() == classes.len() + 1,
        !needs_options(classes, rc),
{
    assert(!consumes_state(classes));
    assert(!trailing_options(classes));
    assert forall|i: int| body_position(classes, i) implies param_fast_ok(
        #[trigger] classes[i],
    ) by {
        assert(classes[i] matches ParamClass::Scalar(k) && scalar_param_wire(k) is Some);
    }
    assert(params_fast_ok(classes));
    assert(return_fast(rc) is Some);
    lemma_no_buffer_slots(classes, classes.len() as int);
    lemma_body_slots_full(classes, classes.len() as int);
}

/// Lifted to the transformer: a host function with only scalar parameters
/// and a non-fallible scalar return gets a fast entry point, whose
/// wire-type list length is the parameter count plus the receiver slot.
pub proof fn law_scalar_signature_gets_fast(
    r: Result<crate::dispatch::DispatchUnit, AuthoringError>,
    sig: Signature,
    flags: TransformFlags,
)
    requires
        transform_result_matches(r, sig, flags),
        !sig_is_async(sig),
        forall|i: int| 0 <= i < sig.params@.len() ==> (param_class(#[trigger] sig.params@[i])
            matches ParamClass::Scalar(k) && scalar_param_wire(k) is Some),
        return_class(sig.ret) matches ReturnClass::Scalar(k) && scalar_return_wire(k) is Some,
    ensures
        r matches Ok(u) && u.fast matches Some(d) && d.args@.len() == sig.params@.len() + 1,
{
    let classes = classes_of(sig.params@);
    assert forall|i: int| 0 <= i < classes.len() implies ((#[trigger] classes[i])
        matches ParamClass::Scalar(k) && scalar_param_wire(k) is Some) by {
        assert(classes[i] == param_class(sig.params@[i]));
    }
    law_scalar_fast_descriptor(classes, return_class(sig.ret));
    assert(unit_has_fast(sig));
    assert(r is Ok);
}

/// A function marked must-be-fast whose parameter list contains an opaque
/// dynamic value — a type outside every fast-compatible category — fails
/// fatally at transform time.
pub proof fn law_must_fast_rejects_unclassified(
    r: Result<crate::dispatch::DispatchUnit, AuthoringError>,
    sig: Signature,
    flags: TransformFlags,
)
    requires
        transform_result_matches(r, sig, flags),
        flags.must_be_fast,
        !sig_is_async(sig),
        exists|i: int| 0 <= i < sig.params@.len() && param_class(#[trigger] sig.params@[i])
            == ParamClass::Unclassified,
    ensures
        r == Err::<crate::dispatch::DispatchUnit, AuthoringError>(AuthoringError::FastIneligible),
{
    let classes = classes_of(sig.params@);
    let i = choose|i: int| 0 <= i < sig.params@.len() && param_class(#[trigger] sig.params@[i])
        == ParamClass::Unclassified;
    assert(classes[i] == param_class(sig.params@[i]));
    assert(body_position(classes, i)) by {
        if i == 0 && consumes_state(classes) {
            assert(classes[0] == ParamClass::ExclusiveStateHandle);
        }
        if i == classes.len() - 1 && trailing_options(classes) {
            assert(classes[i] == ParamClass::CallbackOptionsHandle);
        }
    }
    assert(!param_fast_ok(classes[i]));
    assert(!params_fast_ok(classes));
    assert(!fast_eligible(classes, return_class(sig.ret)));
}

/// A function marked must-be-fast that is asynchronous fails fatally at
/// transform time.
pub proof fn law_must_fast_rejects_async(
    r: Result<crate::dispatch::DispatchUnit, AuthoringError>,
    sig: Signature,
    flags: TransformFlags,
)
    requires
        transform_result_matches(r, sig, flags),
        flags.must_be_fast,
        sig_is_async(sig),
    ensures
        r == Err::<crate::dispatch::DispatchUnit, AuthoringError>(AuthoringError::FastRequiresSync),
{
}

/// For a fast-eligible synchronous signature, the two calling conventions
/// agree position by position: the generic plan consumes exactly the state
/// handle the descriptor consumes, and every raw buffer the descriptor
/// records is marshalled by the generic plan, at the matching wire
/// position, as the buffer view of the same element width.
pub proof fn law_paths_agree_on_buffers(
    u: crate::dispatch::DispatchUnit,
    sig: Signature,
    flags: TransformFlags,
)
    requires
        crate::dispatch::unit_matches(u, sig, flags),
        !sig_is_async(sig),
        u.fast is Some,
        sig.params@.len() <= usize::MAX,
    ensures
        u.fast matches Some(d) ==> {
            let k = u.generic.special@.len() as int;
            &&& k == (if d.uses_state {
                1int
            } else {
                0int
            })
            &&& forall|j: int| 0 <= j < d.buffers@.len() ==> {
                let slot = #[trigger] d.buffers@[j];
                &&& k <= slot.position < sig.params@.len()
                &&& u.generic.args@[slot.position - k] == (crate::generic::ArgPlan {
                    position: (slot.position - k) as usize,
                    action: if slot.element == CType::Uint8 {
                        MarshalAction::ByteBufferView
                    } else {
                        MarshalAction::U32BufferView
                    },
                })
            }
        },
{
    let classes = classes_of(sig.params@);
    let rc = return_class(sig.ret);
    let n = classes.len() as int;
    let eh = flags.requires_engine_handle;
    let k = u.generic.special@.len() as int;
    assert(fast_eligible(classes, rc));
    let d = u.fast->Some_0;
    assert forall|i: int| 0 <= i < n implies classes[i] == param_class(
        #[trigger] sig.params@[i],
    ) by {}

    // The generic prefix is exactly the consumed state handle: any further
    // special-handle parameter would not be fast-representable.
    if consumes_state(classes) {
        if k == 0 {
            assert(crate::generic::special_binding(param_class(sig.params@[0]), eh) is None);
            assert(false);
        }
        if k >= 2 {
            assert(crate::generic::special_binding(param_class(sig.params@[1]), eh) == Some(
                u.generic.special@[1],
            ));
            assert(body_position(classes, 1)) by {
                if 1 == n - 1 && trailing_options(classes) {
                    assert(classes[1] == ParamClass::CallbackOptionsHandle);
                }
            }
            assert(param_fast_ok(classes[1]));
            assert(false);
        }
        assert(k == 1);
    } else {
        if k >= 1 {
            assert(crate::generic::special_binding(param_class(sig.params@[0]), eh) == Some(
                u.generic.special@[0],
            ));
            assert(body_position(classes, 0)) by {
                if 0 == n - 1 && trailing_options(classes) {
                    assert(classes[0] == ParamClass::CallbackOptionsHandle);
                }
            }
            assert(param_fast_ok(classes[0]));
            assert(false);
        }
        assert(k == 0);
    }

    crate::fast::lemma_buffer_slots_sound(classes, n);
    assert forall|j: int| 0 <= j < d.buffers@.len() implies {
        let slot = #[trigger] d.buffers@[j];
        &&& k <= slot.position < sig.params@.len()
        &&& u.generic.args@[slot.position - k] == (crate::generic::ArgPlan {
            position: (slot.position - k) as usize,
            action: if slot.element == CType::Uint8 {
                MarshalAction::ByteBufferView
            } else {
                MarshalAction::U32BufferView
            },
        })
    } by {
        let slot = d.buffers@[j];
        let p = slot.position as int;
        assert(body_position(classes, p));
        assert(is_buffer_class(classes[p]));
        if k == 1 {
            assert(p != 0);
        }
        let jj = p - k;
        assert(0 <= jj < u.generic.args@.len());
        assert(u.generic.args@[jj] == (crate::generic::ArgPlan {
            position: (jj + crate::generic::first_wire_position(sig)) as usize,
            action: crate::generic::marshal_action(
                param_class(sig.params@[jj + k]),
                sig.params@[jj + k].ignored,
            ),
        }));
        assert(!sig.params@[p].ignored);
        assert(crate::generic::first_wire_position(sig) == 0);
    }
}

/// Whenever fallback signalling can be needed — a consumed state handle, a
/// declared options parameter, a fallible return, or a raw buffer — the
/// descriptor's wire-type list ends in the callback-options slot.
pub proof fn law_options_slot_trails(classes: Seq<ParamClass>, rc: ReturnClass)
    requires
        needs_options(classes, rc),
    ensures
        descriptor_args(classes, rc).last() == WireType::CallbackOptions,
{
}

/// The fast wire slot derived directly from a type shape, bypassing the
/// classifier.
pub open spec fn shape_fast_wire(t: TypeShape) -> Option<WireType> {
    match t {
        TypeShape::Scalar(k) => match scalar_param_wire(k) {
            Some(c) => Some(WireType::Scalar(c)),
            None => None,
        },
        TypeShape::ResourceId => Some(WireType::Scalar(CType::Uint32)),
        TypeShape::EngineValue => Some(WireType::EngineValue),
        TypeShape::EngineArray => Some(WireType::Sequence(CType::Void)),
        TypeShape::TypedArrayRef => Some(WireType::TypedArray(CType::Uint32)),
        TypeShape::ByteSlice(_) => Some(WireType::TypedArray(CType::Uint8)),
        TypeShape::U32Slice => Some(WireType::TypedArray(CType::Uint32)),
        _ => None,
    }
}

/// The fast wire slot derived from a classification.
pub open spec fn class_fast_wire(c: ParamClass) -> Option<WireType> {
    if param_fast_ok(c) {
        Some(param_slot(c))
    } else {
        None
    }
}

/// Round trip: classifying a type shape and re-deriving its wire type from
/// the classification agrees with deriving the wire type from the shape
/// directly — classification loses no wire information.
pub proof fn law_wire_round_trip(t: TypeShape)
    ensures
        class_fast_wire(shape_class(t)) == shape_fast_wire(t),
{
}

/// The two calling conventions agree on buffer categories: a classification
/// that the generic path marshals as a byte-buffer view is exactly one the
/// fast path types as a byte typed array, and likewise for word buffers and
/// for raw engine values.
pub proof fn law_buffer_wire_agreement(c: ParamClass)
    ensures
        c matches ParamClass::ByteBuffer(_) ==> (param_slot(c) == WireType::TypedArray(CType::Uint8)
            && marshal_action(c, false) == MarshalAction::ByteBufferView),
        c == ParamClass::TypedBuffer ==> (param_slot(c) == WireType::TypedArray(CType::Uint32)
            && marshal_action(c, false) == MarshalAction::U32BufferView),
        c == ParamClass::DynamicValue ==> (param_slot(c) == WireType::EngineValue
            && marshal_action(c, false) == MarshalAction::Deserialize),
        (match c {
            ParamClass::Scalar(k) => match scalar_param_wire(k) {
                Some(w) => param_slot(c) == WireType::Scalar(w),
                None => !param_fast_ok(c),
            },
            _ => true,
        }),
{
}

} // verus!
