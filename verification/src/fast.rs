//! The fast-path eligibility analyzer.
//!
//! Given the classified parameter list and return classification, it decides
//! whether the restricted, marshalling-free calling convention can represent
//! the function, and if so produces the typed ABI descriptor: the ordered
//! wire-type list (prefixed with one implicit receiver slot), the return
//! wire type, and the bookkeeping the fast-path synthesizer needs.

use vstd::prelude::*;
use crate::classify::{class_is_fallible, ParamClass, ReturnClass, SequenceKind};
use crate::syntax::ScalarKind;

verus! {

/// The primitive wire types of the restricted calling convention.
#[derive(Clone, Copy, Debug, PartialEq, Eq, Structural)]
pub enum CType {
    Void,
    Bool,
    Uint8,
    Int32,
    Uint32,
    Int64,
    Uint64,
    Float32,
    Float64,
}

/// One slot in the restricted convention's argument list.
#[derive(Clone, Copy, Debug, PartialEq, Eq, Structural)]
pub enum WireType {
    /// A primitive scalar slot.
    Scalar(CType),
    /// A raw engine value passed through unmarshalled.
    EngineValue,
    /// A typed array with the given element type.
    TypedArray(CType),
    /// An indexable engine sequence with the given element type.
    Sequence(CType),
    /// The callback-options structure carrying the fallback flag.
    CallbackOptions,
}

/// A raw buffer slot of the descriptor: its parameter position and the
/// element type of the aligned view the entry point must obtain.
#[derive(Clone, Copy, Debug, PartialEq, Eq, Structural)]
pub struct BufferSlot {
    pub position: usize,
    pub element: CType,
}

/// The typed ABI descriptor of the restricted calling convention.
#[derive(Clone, Debug, PartialEq)]
pub struct FastDescriptor {
    /// The ordered wire-type list, always prefixed with one implicit
    /// receiver slot.
    pub args: Vec<WireType>,
    /// The return wire type.
    pub ret: CType,
    /// Whether the host function returns a fallible result, so that the
    /// entry point must be able to signal fallback on failure.
    pub returns_result: bool,
    /// Whether the leading parameter is an exclusive state handle, consumed
    /// without a wire slot.
    pub uses_state: bool,
    /// Whether the last slot is the callback-options handle.
    pub has_options: bool,
    /// The positions that are raw buffers, with their element type.
    pub buffers: Vec<BufferSlot>,
    /// The positions passed through as raw engine values.
    pub raw_values: Vec<usize>,
}

/// The wire scalar for a scalar parameter kind; 8- and 16-bit kinds have no
/// slot of their own and are not representable.
pub open spec fn scalar_param_wire(k: ScalarKind) -> Option<CType> {
    match k {
        ScalarKind::U8 => None,
        ScalarKind::U16 => None,
        ScalarKind::U32 => Some(CType::Uint32),
        ScalarKind::I32 => Some(CType::Int32),
        ScalarKind::U64 => Some(CType::Uint64),
        ScalarKind::I64 => Some(CType::Int64),
        ScalarKind::Usize => Some(CType::Uint64),
        ScalarKind::Isize => Some(CType::Int64),
        ScalarKind::F32 => Some(CType::Float32),
        ScalarKind::F64 => Some(CType::Float64),
        ScalarKind::Bool => Some(CType::Bool),
    }
}

/// The wire scalar for a scalar return kind; 64-bit integer returns are
/// never representable in the restricted convention.
pub open spec fn scalar_return_wire(k: ScalarKind) -> Option<CType> {
    match k {
        ScalarKind::U32 => Some(CType::Uint32),
        ScalarKind::I32 => Some(CType::Int32),
        ScalarKind::F32 => Some(CType::Float32),
        ScalarKind::F64 => Some(CType::Float64),
        ScalarKind::Bool => Some(CType::Bool),
        _ => None,
    }
}

/// Whether a parameter classification is representable as a fast wire slot
/// at an ordinary (non-special) position.
pub open spec fn param_fast_ok(c: ParamClass) -> bool {
    match c {
        ParamClass::Scalar(k) => scalar_param_wire(k) is Some,
        ParamClass::ResourceHandle => true,
        ParamClass::DynamicValue => true,
        ParamClass::Sequence(_) => true,
        ParamClass::ByteBuffer(_) => true,
        ParamClass::TypedBuffer => true,
        _ => false,
    }
}

/// The wire slot of a fast-representable parameter classification;
/// meaningful only where `param_fast_ok` holds.
pub open spec fn param_slot(c: ParamClass) -> WireType {
    match c {
        ParamClass::Scalar(k) => match scalar_param_wire(k) {
            Some(w) => WireType::Scalar(w),
            None => WireType::EngineValue,
        },
        ParamClass::ResourceHandle => WireType::Scalar(CType::Uint32),
        ParamClass::DynamicValue => WireType::EngineValue,
        ParamClass::Sequence(SequenceKind::Dynamic) => WireType::Sequence(CType::Void),
        ParamClass::Sequence(SequenceKind::TypedNumeric) => WireType::TypedArray(CType::Uint32),
        ParamClass::ByteBuffer(_) => WireType::TypedArray(CType::Uint8),
        ParamClass::TypedBuffer => WireType::TypedArray(CType::Uint32),
        _ => WireType::EngineValue,
    }
}

/// The return wire type and whether the return is fallible, or `None` where
/// the restricted convention cannot represent the return.
pub open spec fn return_fast(rc: ReturnClass) -> Option<(CType, bool)> {
    match rc {
        ReturnClass::Void => Some((CType::Void, false)),
        ReturnClass::Scalar(k) => match scalar_return_wire(k) {
            Some(w) => Some((w, false)),
            None => None,
        },
        ReturnClass::ResourceHandle => Some((CType::Uint32, false)),
        ReturnClass::FallibleScalar(k) => match scalar_return_wire(k) {
            Some(w) => Some((w, true)),
            None => None,
        },
        ReturnClass::FallibleResourceHandle => Some((CType::Uint32, true)),
        ReturnClass::FallibleVoid => Some((CType::Void, true)),
        _ => None,
    }
}

/// A state handle is permitted only at position 0, where it consumes no
/// wire slot.
pub open spec fn consumes_state(classes: Seq<ParamClass>) -> bool {
    classes.len() > 0 && classes[0] == ParamClass::ExclusiveStateHandle
}

/// An author-declared callback-options handle is permitted only at the
/// final parameter position.
pub open spec fn trailing_options(classes: Seq<ParamClass>) -> bool {
    classes.len() > 0 && classes[classes.len() - 1] == ParamClass::CallbackOptionsHandle
}

/// The positions that take a wire slot of their own: every position except
/// a consumed leading state handle and a trailing options handle.
pub open spec fn body_position(classes: Seq<ParamClass>, i: int) -> bool {
    &&& 0 <= i < classes.len()
    &&& !(i == 0 && consumes_state(classes))
    &&& !(i == classes.len() - 1 && trailing_options(classes))
}

/// Whether every slot-taking parameter is fast-representable.
pub open spec fn params_fast_ok(classes: Seq<ParamClass>) -> bool {
    forall|i: int| body_position(classes, i) ==> param_fast_ok(#[trigger] classes[i])
}

/// Fast-path eligibility: the return and every slot-taking parameter must
/// be representable in the restricted convention.
pub open spec fn fast_eligible(classes: Seq<ParamClass>, rc: ReturnClass) -> bool {
    return_fast(rc) is Some && params_fast_ok(classes)
}

/// The wire slots contributed by the first `i` parameters.
pub open spec fn body_slots(classes: Seq<ParamClass>, i: int) -> Seq<WireType>
    decreases i,
{
    if i <= 0 {
        Seq::empty()
    } else {
        body_slots(classes, i - 1) + if body_position(classes, i - 1) {
            seq![param_slot(classes[i - 1])]
        } else {
            Seq::empty()
        }
    }
}

/// Whether a classification is a raw buffer the fast entry point must view
/// through an aligned storage handle.
pub open spec fn is_buffer_class(c: ParamClass) -> bool {
    c matches ParamClass::ByteBuffer(_) || c == ParamClass::TypedBuffer
}

/// The element type of a raw buffer classification.
pub open spec fn buffer_element(c: ParamClass) -> CType {
    match c {
        ParamClass::ByteBuffer(_) => CType::Uint8,
        _ => CType::Uint32,
    }
}

/// The buffer slots among the first `i` parameters.
pub open spec fn buffer_slots(classes: Seq<ParamClass>, i: int) -> Seq<BufferSlot>
    decreases i,
{
    if i <= 0 {
        Seq::empty()
    } else {
        buffer_slots(classes, i - 1) + if body_position(classes, i - 1) && is_buffer_class(
            classes[i - 1],
        ) {
            seq![BufferSlot { position: (i - 1) as usize, element: buffer_element(classes[i - 1]) }]
        } else {
            Seq::empty()
        }
    }
}

/// The positions among the first `i` parameters passed through as raw
/// engine values.
pub open spec fn raw_positions(classes: Seq<ParamClass>, i: int) -> Seq<usize>
    decreases i,
{
    if i <= 0 {
        Seq::empty()
    } else {
        raw_positions(classes, i - 1) + if body_position(classes, i - 1) && classes[i - 1]
            == ParamClass::DynamicValue {
            seq![(i - 1) as usize]
        } else {
            Seq::empty()
        }
    }
}

/// Whether the descriptor ends in a callback-options slot: forced by a
/// consumed state handle, a fallible return, or a raw buffer, all of which
/// need the fallback flag, and present where the author declared it.
pub open spec fn needs_options(classes: Seq<ParamClass>, rc: ReturnClass) -> bool {
    ||| consumes_state(classes)
    ||| trailing_options(classes)
    ||| class_is_fallible(rc)
    ||| buffer_slots(classes, classes.len() as int).len() != 0
}

/// The full wire-type list of an eligible signature.
pub open spec fn descriptor_args(classes: Seq<ParamClass>, rc: ReturnClass) -> Seq<WireType> {
    seq![WireType::EngineValue] + body_slots(classes, classes.len() as int) + if needs_options(
        classes,
        rc,
    ) {
        seq![WireType::CallbackOptions]
    } else {
        Seq::empty()
    }
}

/// The wire slot of one classification, or `None` where the restricted
/// convention cannot take it at an ordinary position.
pub fn fast_param_slot(c: ParamClass) -> (r: Option<WireType>)
    ensures
        r is Some <==> param_fast_ok(c),
        r matches Some(w) ==> w == param_slot(c),
{
    match c {
        ParamClass::Scalar(k) => match k {
            ScalarKind::U8 => None,
            ScalarKind::U16 => None,
            ScalarKind::U32 => Some(WireType::Scalar(CType::Uint32)),
            ScalarKind::I32 => Some(WireType::Scalar(CType::Int32)),
            ScalarKind::U64 => Some(WireType::Scalar(CType::Uint64)),
            ScalarKind::I64 => Some(WireType::Scalar(CType::Int64)),
            ScalarKind::Usize => Some(WireType::Scalar(CType::Uint64)),
            ScalarKind::Isize => Some(WireType::Scalar(CType::Int64)),
            ScalarKind::F32 => Some(WireType::Scalar(CType::Float32)),
            ScalarKind::F64 => Some(WireType::Scalar(CType::Float64)),
            ScalarKind::Bool => Some(WireType::Scalar(CType::Bool)),
        },
        ParamClass::ResourceHandle => Some(WireType::Scalar(CType::Uint32)),
        ParamClass::DynamicValue => Some(WireType::EngineValue),
        ParamClass::Sequence(SequenceKind::Dynamic) => Some(WireType::Sequence(CType::Void)),
        ParamClass::Sequence(SequenceKind::TypedNumeric) => Some(
            WireType::TypedArray(CType::Uint32),
        ),
        ParamClass::ByteBuffer(_) => Some(WireType::TypedArray(CType::Uint8)),
        ParamClass::TypedBuffer => Some(WireType::TypedArray(CType::Uint32)),
        _ => None,
    }
}

/// The return wire type and fallibility, or `None` where the restricted
/// convention cannot represent the return.
pub fn fast_return(rc: ReturnClass) -> (r: Option<(CType, bool)>)
    ensures
        r == return_fast(rc),
{
    match rc {
        ReturnClass::Void => Some((CType::Void, false)),
        ReturnClass::Scalar(k) => match k {
            ScalarKind::U32 => Some((CType::Uint32, false)),
            ScalarKind::I32 => Some((CType::Int32, false)),
            ScalarKind::F32 => Some((CType::Float32, false)),
            ScalarKind::F64 => Some((CType::Float64, false)),
            ScalarKind::Bool => Some((CType::Bool, false)),
            _ => None,
        },
        ReturnClass::ResourceHandle => Some((CType::Uint32, false)),
        ReturnClass::FallibleScalar(k) => match k {
            ScalarKind::U32 => Some((CType::Uint32, true)),
            ScalarKind::I32 => Some((CType::Int32, true)),
            ScalarKind::F32 => Some((CType::Float32, true)),
            ScalarKind::F64 => Some((CType::Float64, true)),
            ScalarKind::Bool => Some((CType::Bool, true)),
            _ => None,
        },
        ReturnClass::FallibleResourceHandle => Some((CType::Uint32, true)),
        ReturnClass::FallibleVoid => Some((CType::Void, true)),
        _ => None,
    }
}

/// The exact contents an eligible signature's descriptor must have.
pub open spec fn descriptor_matches(
    d: FastDescriptor,
    classes: Seq<ParamClass>,
    rc: ReturnClass,
) -> bool {
    &&& d.args@ == descriptor_args(classes, rc)
    &&& return_fast(rc) == Some((d.ret, d.returns_result))
    &&& d.uses_state == consumes_state(classes)
    &&& d.has_options == needs_options(classes, rc)
    &&& d.buffers@ == buffer_slots(classes, classes.len() as int)
    &&& d.raw_values@ == raw_positions(classes, classes.len() as int)
}

/// Analyze a classified signature for fast-path eligibility. Produces the
/// typed ABI descriptor exactly where the restricted convention can
/// represent the function, and `None` otherwise.
pub fn analyze_fast(classes: &Vec<ParamClass>, rc: ReturnClass) -> (r: Option<FastDescriptor>)
    ensures
        r is Some <==> fast_eligible(classes@, rc),
        r matches Some(d) ==> descriptor_matches(d, classes@, rc),
{
    let n = classes.len();
    let (ret, returns_result) = match fast_return(rc) {
        Some(p) => p,
        None => {
            return None;
        },
    };
    let uses_state = n > 0 && classes[0] == ParamClass::ExclusiveStateHandle;
    let expl_opts = n > 0 && classes[n - 1] == ParamClass::CallbackOptionsHandle;
    let mut args: Vec<WireType> = Vec::new();
    args.push(WireType::EngineValue);
    let mut buffers: Vec<BufferSlot> = Vec::new();
    let mut raw_values: Vec<usize> = Vec::new();
    let mut i: usize = 0;
    while i < n
        invariant
            0 <= i <= n,
            n == classes@.len(),
            uses_state == consumes_state(classes@),
            expl_opts == trailing_options(classes@),
            forall|j: int| 0 <= j < i && body_position(classes@, j) ==> param_fast_ok(
                #[trigger] classes@[j],
            ),
            args@ == seq![WireType::EngineValue] + body_slots(classes@, i as int),
            buffers@ == buffer_slots(classes@, i as int),
            raw_values@ == raw_positions(classes@, i as int),
        decreases n - i,
    {
        let special = (i == 0 && uses_state) || (i == n - 1 && expl_opts);
        if !special {
            let c = classes[i];
            match fast_param_slot(c) {
                Some(w) => {
                    args.push(w);
                    if c == ParamClass::DynamicValue {
                        raw_values.push(i);
                    }
                    match c {
                        ParamClass::ByteBuffer(_) => buffers.push(
                            BufferSlot { position: i, element: CType::Uint8 },
                        ),
                        ParamClass::TypedBuffer => buffers.push(
                            BufferSlot { position: i, element: CType::Uint32 },
                        ),
                        _ => (),
                    }
                },
                None => {
                    proof {
                        assert(body_position(classes@, i as int));
                        assert(!params_fast_ok(classes@));
                    }
                    return None;
                },
            }
        }
        proof {
            assert(body_position(classes@, i as int) <==> !special);
        }
        i = i + 1;
    }
    let has_options = uses_state || expl_opts || returns_result || buffers.len() != 0;
    proof {
        assert(returns_result == class_is_fallible(rc));
        assert(has_options == needs_options(classes@, rc));
    }
    if has_options {
        args.push(WireType::CallbackOptions);
    }
    proof {
        assert(args@ == descriptor_args(classes@, rc));
        assert(fast_eligible(classes@, rc));
    }
    Some(
        FastDescriptor {
            args,
            ret,
            returns_result,
            uses_state,
            has_options,
            buffers,
            raw_values,
        },
    )
}

/// With no leading state handle and no trailing options handle, every
/// parameter takes a wire slot of its own.
pub proof fn lemma_body_slots_full(classes: Seq<ParamClass>, i: int)
    requires
        0 <= i <= classes.len(),
        !consumes_state(classes),
        !trailing_options(classes),
    ensures
        body_slots(classes, i).len() == i,
    decreases i,
{
    if i > 0 {
        lemma_body_slots_full(classes, i - 1);
        assert(body_position(classes, i - 1));
    }
}

/// Every recorded buffer slot points at a slot-taking buffer parameter and
/// carries its element type.
pub proof fn lemma_buffer_slots_sound(classes: Seq<ParamClass>, i: int)
    requires
        0 <= i <= classes.len(),
        classes.len() <= usize::MAX,
    ensures
        forall|j: int| 0 <= j < buffer_slots(classes, i).len() ==> {
            let slot = #[trigger] buffer_slots(classes, i)[j];
            &&& 0 <= slot.position < i
            &&& body_position(classes, slot.position as int)
            &&& is_buffer_class(classes[slot.position as int])
            &&& slot.element == buffer_element(classes[slot.position as int])
        },
    decreases i,
{
    if i > 0 {
        lemma_buffer_slots_sound(classes, i - 1);
        let pre = buffer_slots(classes, i - 1);
        let cur = buffer_slots(classes, i);
        assert forall|j: int| 0 <= j < cur.len() implies {
            let slot = #[trigger] cur[j];
            &&& 0 <= slot.position < i
            &&& body_position(classes, slot.position as int)
            &&& is_buffer_class(classes[slot.position as int])
            &&& slot.element == buffer_element(classes[slot.position as int])
        } by {
            if j < pre.len() {
                assert(cur[j] == pre[j]);
            } else {
                assert(body_position(classes, i - 1) && is_buffer_class(classes[i - 1]));
                assert(cur[j] == (BufferSlot {
                    position: (i - 1) as usize,
                    element: buffer_element(classes[i - 1]),
                }));
            }
        }
    }
}

/// A parameter list without buffer classifications contributes no buffer
/// slots.
pub proof fn lemma_no_buffer_slots(classes: Seq<ParamClass>, i: int)
    requires
        0 <= i <= classes.len(),
        forall|j: int| 0 <= j < classes.len() ==> !is_buffer_class(#[trigger] classes[j]),
    ensures
        buffer_slots(classes, i).len() == 0,
    decreases i,
{
    if i > 0 {
        lemma_no_buffer_slots(classes, i - 1);
    }
}

} // verus!
