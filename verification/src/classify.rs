//! The type classifier: a total function from the syntactic shape of a
//! parameter or return position to its marshalling category.
//!
//! Classification is a pure function of the shape. A shape outside the
//! recognized set classifies as `Unclassified` and is marshalled with full
//! structural (de)serialization; this conservative miss is deliberate and is
//! never "fixed up" by semantic type resolution.

use vstd::prelude::*;
use crate::syntax::{Mutability, Param, ReturnShape, ScalarKind, TypeShape};

verus! {

/// The kind of indexable collection a sequence parameter carries.
#[derive(Clone, Copy, Debug, PartialEq, Eq, Structural)]
pub enum SequenceKind {
    /// A dynamic array handle of the engine.
    Dynamic,
    /// A typed array of 32-bit numeric elements.
    TypedNumeric,
}

/// The marshalling category of one parameter.
#[derive(Clone, Copy, Debug, PartialEq, Eq, Structural)]
pub enum ParamClass {
    /// A wire scalar of the given kind.
    Scalar(ScalarKind),
    /// A scalar-shaped opaque resource identifier, `u32` on the wire.
    ResourceHandle,
    /// An owned UTF-8 string extracted from the wire value.
    Utf8String,
    /// An optional UTF-8 string: absent rather than erroneous on mismatch.
    OptionalUtf8String,
    /// A contiguous byte region, shared or exclusive.
    ByteBuffer(Mutability),
    /// An exclusive buffer of 32-bit words.
    TypedBuffer,
    /// The engine's dynamic value, passed through the wire unmarshalled.
    DynamicValue,
    /// An indexable collection: a dynamic array or a typed numeric array.
    Sequence(SequenceKind),
    /// The shared, reference-counted execution state container.
    SharedStateHandle,
    /// An exclusive borrow of the execution state.
    ExclusiveStateHandle,
    /// The per-call scope handle needed to create or inspect engine values.
    ExecutionContextHandle,
    /// The callback-options handle carrying the fast-path fallback flag.
    CallbackOptionsHandle,
    /// A parameter present in the signature but bound to no wire value.
    Ignored,
    /// An opaque value requiring full structural marshalling.
    Unclassified,
}

/// The marshalling category of the return position.
#[derive(Clone, Copy, Debug, PartialEq, Eq, Structural)]
pub enum ReturnClass {
    /// No declared return value.
    Void,
    /// A wire scalar of the given kind.
    Scalar(ScalarKind),
    /// A resource identifier, `u32` on the wire.
    ResourceHandle,
    /// A value serialized structurally into a wire value.
    Serialized,
    /// A fallible scalar result.
    FallibleScalar(ScalarKind),
    /// A fallible resource identifier result.
    FallibleResourceHandle,
    /// A fallible result with no success payload.
    FallibleVoid,
    /// A fallible structurally serialized result.
    FallibleSerialized,
    /// A deferred computation whose outcome is marshalled dynamically.
    Future,
    /// A fallible deferred computation: an outer failure short-circuits
    /// before the deferred body is awaited.
    FallibleFuture,
}

/// The category a type shape classifies to, before the wildcard-pattern rule.
pub open spec fn shape_class(t: TypeShape) -> ParamClass {
    match t {
        TypeShape::Unit => ParamClass::Unclassified,
        TypeShape::Scalar(k) => ParamClass::Scalar(k),
        TypeShape::ResourceId => ParamClass::ResourceHandle,
        TypeShape::Utf8String => ParamClass::Utf8String,
        TypeShape::OptionalUtf8String => ParamClass::OptionalUtf8String,
        TypeShape::ByteSlice(m) => ParamClass::ByteBuffer(m),
        TypeShape::U32Slice => ParamClass::TypedBuffer,
        TypeShape::EngineValue => ParamClass::DynamicValue,
        TypeShape::EngineArray => ParamClass::Sequence(SequenceKind::Dynamic),
        TypeShape::TypedArrayRef => ParamClass::Sequence(SequenceKind::TypedNumeric),
        TypeShape::SharedState => ParamClass::SharedStateHandle,
        TypeShape::ExclusiveState => ParamClass::ExclusiveStateHandle,
        TypeShape::ScopeHandle => ParamClass::ExecutionContextHandle,
        TypeShape::CallbackOptions => ParamClass::CallbackOptionsHandle,
        TypeShape::Unrecognized => ParamClass::Unclassified,
    }
}

/// Whether a shape is recognized by its type alone, so that a wildcard
/// pattern does not demote it to `Ignored`: the special handles are
/// identified by type, and patterns never bind them to a wire value.
pub open spec fn shape_is_special_handle(t: TypeShape) -> bool {
    match t {
        TypeShape::SharedState
        | TypeShape::ExclusiveState
        | TypeShape::ScopeHandle
        | TypeShape::CallbackOptions => true,
        _ => false,
    }
}

/// The classification of one parameter: special handles classify by type
/// alone; any other wildcard-bound parameter is `Ignored`.
pub open spec fn param_class(p: Param) -> ParamClass {
    if shape_is_special_handle(p.shape) {
        shape_class(p.shape)
    } else if p.ignored {
        ParamClass::Ignored
    } else {
        shape_class(p.shape)
    }
}

/// The classification of the return position.
pub open spec fn return_class(r: ReturnShape) -> ReturnClass {
    match r {
        ReturnShape::Default => ReturnClass::Void,
        ReturnShape::Value(t) => match t {
            TypeShape::Scalar(k) => ReturnClass::Scalar(k),
            TypeShape::ResourceId => ReturnClass::ResourceHandle,
            _ => ReturnClass::Serialized,
        },
        ReturnShape::Fallible(t) => match t {
            TypeShape::Scalar(k) => ReturnClass::FallibleScalar(k),
            TypeShape::ResourceId => ReturnClass::FallibleResourceHandle,
            TypeShape::Unit => ReturnClass::FallibleVoid,
            _ => ReturnClass::FallibleSerialized,
        },
        ReturnShape::Future => ReturnClass::Future,
        ReturnShape::FallibleFuture => ReturnClass::FallibleFuture,
    }
}

/// Whether a return classification is fallible.
pub open spec fn class_is_fallible(rc: ReturnClass) -> bool {
    match rc {
        ReturnClass::FallibleScalar(_)
        | ReturnClass::FallibleResourceHandle
        | ReturnClass::FallibleVoid
        | ReturnClass::FallibleSerialized
        | ReturnClass::FallibleFuture => true,
        _ => false,
    }
}

/// Classify one parameter.
pub fn classify_param(p: &Param) -> (c: ParamClass)
    ensures
        c == param_class(*p),
{
    match p.shape {
        TypeShape::SharedState => ParamClass::SharedStateHandle,
        TypeShape::ExclusiveState => ParamClass::ExclusiveStateHandle,
        TypeShape::ScopeHandle => ParamClass::ExecutionContextHandle,
        TypeShape::CallbackOptions => ParamClass::CallbackOptionsHandle,
        _ => {
            if p.ignored {
                ParamClass::Ignored
            } else {
                match p.shape {
                    TypeShape::Unit => ParamClass::Unclassified,
                    TypeShape::Scalar(k) => ParamClass::Scalar(k),
                    TypeShape::ResourceId => ParamClass::ResourceHandle,
                    TypeShape::Utf8String => ParamClass::Utf8String,
                    TypeShape::OptionalUtf8String => ParamClass::OptionalUtf8String,
                    TypeShape::ByteSlice(m) => ParamClass::ByteBuffer(m),
                    TypeShape::U32Slice => ParamClass::TypedBuffer,
                    TypeShape::EngineValue => ParamClass::DynamicValue,
                    TypeShape::EngineArray => ParamClass::Sequence(SequenceKind::Dynamic),
                    TypeShape::TypedArrayRef => ParamClass::Sequence(SequenceKind::TypedNumeric),
                    _ => ParamClass::Unclassified,
                }
            }
        }
    }
}

/// Classify the return position.
pub fn classify_return(r: &ReturnShape) -> (c: ReturnClass)
    ensures
        c == return_class(*r),
{
    match r {
        ReturnShape::Default => ReturnClass::Void,
        ReturnShape::Value(t) => match t {
            TypeShape::Scalar(k) => ReturnClass::Scalar(*k),
            TypeShape::ResourceId => ReturnClass::ResourceHandle,
            _ => ReturnClass::Serialized,
        },
        ReturnShape::Fallible(t) => match t {
            TypeShape::Scalar(k) => ReturnClass::FallibleScalar(*k),
            TypeShape::ResourceId => ReturnClass::FallibleResourceHandle,
            TypeShape::Unit => ReturnClass::FallibleVoid,
            _ => ReturnClass::FallibleSerialized,
        },
        ReturnShape::Future => ReturnClass::Future,
        ReturnShape::FallibleFuture => ReturnClass::FallibleFuture,
    }
}

/// The classifications of a whole parameter list.
pub open spec fn classes_of(params: Seq<Param>) -> Seq<ParamClass> {
    params.map_values(|p: Param| param_class(p))
}

/// Classify every parameter of a list, in order.
pub fn classify_params(params: &Vec<Param>) -> (cs: Vec<ParamClass>)
    ensures
        cs@ == classes_of(params@),
{
    let mut cs: Vec<ParamClass> = Vec::new();
    let mut i: usize = 0;
    while i < params.len()
        invariant
            0 <= i <= params.len(),
            cs@ == classes_of(params@).take(i as int),
        decreases params.len() - i,
    {
        let c = classify_param(&params[i]);
        cs.push(c);
        proof {
            assert(classes_of(params@)[i as int] == param_class(params@[i as int]));
            assert(cs@ == classes_of(params@).take(i + 1 as int));
        }
        i = i + 1;
    }
    proof {
        assert(classes_of(params@).take(params@.len() as int) == classes_of(params@));
    }
    cs
}

} // verus!
