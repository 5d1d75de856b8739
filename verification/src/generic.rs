//! The generic-path synthesizer.
//!
//! It turns a classified signature into a typed marshalling plan for the
//! fully dynamic calling convention: which leading parameters are bound to
//! special handles, how every remaining parameter is extracted from its wire
//! argument (with a typed, position-carrying error on mismatch), and how the
//! return value travels back — directly for recognized small scalars,
//! through structural serialization otherwise, with fallible results
//! translated into raised exceptions. For asynchronous host functions the
//! plan records how the deferred body is awaited and scheduled.

use vstd::prelude::*;
use crate::classify::{
    class_is_fallible, classify_param, classify_return, param_class, return_class, ParamClass,
    ReturnClass,
};
use crate::syntax::{
    sig_is_async, signature_is_async, Param, ReturnShape, ScalarKind, Signature, TransformFlags,
};

verus! {

/// A special leading parameter binding, consuming no wire argument.
#[derive(Clone, Copy, Debug, PartialEq, Eq, Structural)]
pub enum SpecialBinding {
    /// The per-call engine scope handle.
    Scope,
    /// A clone of the shared, reference-counted state container.
    StateClone,
    /// A scoped exclusive borrow of the state container.
    StateBorrow,
}

/// How one wire argument is marshalled into a native value.
#[derive(Clone, Copy, Debug, PartialEq, Eq, Structural)]
pub enum MarshalAction {
    /// The callback-options parameter: bound to an absent options value.
    BindNone,
    /// An ignored parameter: bound to a unit placeholder.
    BindUnit,
    /// A direct string-view extraction; a typed error on mismatch.
    StringView,
    /// A string-view extraction degrading to "absent" on mismatch.
    OptionalStringView,
    /// A zero-copy byte-buffer view; a typed error if the wire value is no
    /// buffer.
    ByteBufferView,
    /// A zero-copy view of a buffer of 32-bit words.
    U32BufferView,
    /// Full structural deserialization of the wire value.
    Deserialize,
}

/// The marshalling plan of one wire argument position.
#[derive(Clone, Copy, Debug, PartialEq, Eq, Structural)]
pub struct ArgPlan {
    /// The 0-based wire argument position the value is read from, and the
    /// position a typed marshalling error reports.
    pub position: usize,
    pub action: MarshalAction,
}

/// What the generic path does with a successful return value.
#[derive(Clone, Copy, Debug, PartialEq, Eq, Structural)]
pub enum SuccessOutput {
    /// Nothing is emitted.
    Nothing,
    /// The wire return value is set directly, bypassing serialization.
    SetScalar,
    /// The value is serialized structurally; a typed error on failure.
    Serialize,
}

/// The return handling of a synchronous generic entry point.
#[derive(Clone, Copy, Debug, PartialEq, Eq, Structural)]
pub struct ReturnPlan {
    /// Whether the host result is fallible: a failure is translated through
    /// the pluggable error-class classifier and raised as an exception.
    pub fallible: bool,
    pub on_success: SuccessOutput,
}

/// How the deferred body of an asynchronous host function is obtained.
#[derive(Clone, Copy, Debug, PartialEq, Eq, Structural)]
pub enum AsyncBody {
    /// A declared-asynchronous function: the call itself is awaited. The
    /// outcome is wrapped as a success unless the function returns a
    /// fallible result.
    AwaitCall { wrap_ok: bool },
    /// A function returning a deferred computation directly: the call is
    /// bound, the computation awaited once, and the outcome wrapped as a
    /// success.
    BindThenAwait,
    /// A function returning a fallible deferred computation: an outer
    /// failure short-circuits before the inner await.
    BindCheckThenAwait,
}

/// The kind of generic entry point, with its return handling.
#[derive(Clone, Copy, Debug, PartialEq, Eq, Structural)]
pub enum PathKind {
    Sync {
        ret: ReturnPlan,
        /// Whether the entry point must first check the shared "last fast
        /// error" slot and raise it before any argument marshalling.
        check_fast_error_slot: bool,
    },
    Async {
        body: AsyncBody,
        /// Whether the deferred unit of work is queued at lower priority.
        deferred: bool,
    },
}

/// The complete marshalling plan of the generic calling convention.
#[derive(Clone, Debug, PartialEq)]
pub struct GenericPlan {
    /// The consumed special leading parameters, in order.
    pub special: Vec<SpecialBinding>,
    /// One marshalling directive per remaining parameter, in order.
    pub args: Vec<ArgPlan>,
    pub kind: PathKind,
}

/// The special binding a leading parameter classification requests. The
/// scope handle is recognized only where the author asked for the engine
/// handle.
pub open spec fn special_binding(c: ParamClass, engine_handle: bool) -> Option<SpecialBinding> {
    match c {
        ParamClass::ExecutionContextHandle => if engine_handle {
            Some(SpecialBinding::Scope)
        } else {
            None
        },
        ParamClass::SharedStateHandle => Some(SpecialBinding::StateClone),
        ParamClass::ExclusiveStateHandle => Some(SpecialBinding::StateBorrow),
        _ => None,
    }
}

/// The marshalling action of one parameter: the options handle binds to an
/// absent value by type alone; any other wildcard-bound parameter binds to a
/// unit placeholder; the rest follow their classification.
pub open spec fn marshal_action(c: ParamClass, ignored: bool) -> MarshalAction {
    if c == ParamClass::CallbackOptionsHandle {
        MarshalAction::BindNone
    } else if ignored {
        MarshalAction::BindUnit
    } else {
        match c {
            ParamClass::Utf8String => MarshalAction::StringView,
            ParamClass::OptionalUtf8String => MarshalAction::OptionalStringView,
            ParamClass::ByteBuffer(_) => MarshalAction::ByteBufferView,
            ParamClass::TypedBuffer => MarshalAction::U32BufferView,
            ParamClass::Ignored => MarshalAction::BindUnit,
            _ => MarshalAction::Deserialize,
        }
    }
}

/// The scalar kinds whose return value is set directly on the wire,
/// bypassing structural serialization.
pub open spec fn direct_set_kind(k: ScalarKind) -> bool {
    k == ScalarKind::U32 || k == ScalarKind::U8 || k == ScalarKind::U16
}

/// What the generic path emits for a successful return value.
pub open spec fn success_output(rc: ReturnClass) -> SuccessOutput {
    match rc {
        ReturnClass::Void => SuccessOutput::Nothing,
        ReturnClass::Scalar(k) => if direct_set_kind(k) {
            SuccessOutput::SetScalar
        } else {
            SuccessOutput::Serialize
        },
        ReturnClass::ResourceHandle => SuccessOutput::SetScalar,
        ReturnClass::FallibleScalar(k) => if direct_set_kind(k) {
            SuccessOutput::SetScalar
        } else {
            SuccessOutput::Serialize
        },
        ReturnClass::FallibleResourceHandle => SuccessOutput::SetScalar,
        ReturnClass::FallibleVoid => SuccessOutput::Nothing,
        _ => SuccessOutput::Serialize,
    }
}

/// The synchronous return plan of a return classification.
pub open spec fn return_plan_of(rc: ReturnClass) -> ReturnPlan {
    ReturnPlan { fallible: class_is_fallible(rc), on_success: success_output(rc) }
}

/// Whether the declared return type is a fallible result, as the dynamic
/// path's outcome wrapping sees it.
pub open spec fn ret_shape_is_result(r: ReturnShape) -> bool {
    r matches ReturnShape::Fallible(_) || r == ReturnShape::FallibleFuture
}

/// How an asynchronous host function's deferred body is obtained and its
/// outcome wrapped. Meaningful only for asynchronous signatures.
pub open spec fn async_body_of(sig: Signature) -> AsyncBody {
    if sig.is_async {
        AsyncBody::AwaitCall { wrap_ok: !ret_shape_is_result(sig.ret) }
    } else if sig.ret == ReturnShape::FallibleFuture {
        AsyncBody::BindCheckThenAwait
    } else {
        AsyncBody::BindThenAwait
    }
}

/// The wire position of the first marshalled argument: asynchronous entry
/// points read a leading continuation id first.
pub open spec fn first_wire_position(sig: Signature) -> int {
    if sig_is_async(sig) {
        1
    } else {
        0
    }
}

/// The relation between a signature and the special bindings and argument
/// directives of its generic plan: a maximal run of special leading
/// parameters is consumed, and every remaining parameter gets one directive,
/// at consecutive wire positions starting at the base position.
pub open spec fn plan_args_match(
    params: Seq<Param>,
    engine_handle: bool,
    base: int,
    special: Seq<SpecialBinding>,
    args: Seq<ArgPlan>,
) -> bool {
    let k = special.len() as int;
    &&& k <= params.len()
    &&& forall|j: int| 0 <= j < k ==> special_binding(param_class(#[trigger] params[j]), engine_handle)
        == Some(special[j])
    &&& (k == params.len() || special_binding(param_class(params[k]), engine_handle) is None)
    &&& args.len() == params.len() - k
    &&& forall|j: int| 0 <= j < args.len() ==> #[trigger] args[j] == ArgPlan {
        position: (j + base) as usize,
        action: marshal_action(param_class(params[j + k]), params[j + k].ignored),
    }
}

/// The special binding a parameter classification requests, if any.
pub fn special_binding_of(c: ParamClass, engine_handle: bool) -> (r: Option<SpecialBinding>)
    ensures
        r == special_binding(c, engine_handle),
{
    match c {
        ParamClass::ExecutionContextHandle => if engine_handle {
            Some(SpecialBinding::Scope)
        } else {
            None
        },
        ParamClass::SharedStateHandle => Some(SpecialBinding::StateClone),
        ParamClass::ExclusiveStateHandle => Some(SpecialBinding::StateBorrow),
        _ => None,
    }
}

/// The marshalling action of one parameter.
pub fn marshal_action_of(c: ParamClass, ignored: bool) -> (r: MarshalAction)
    ensures
        r == marshal_action(c, ignored),
{
    if c == ParamClass::CallbackOptionsHandle {
        MarshalAction::BindNone
    } else if ignored {
        MarshalAction::BindUnit
    } else {
        match c {
            ParamClass::Utf8String => MarshalAction::StringView,
            ParamClass::OptionalUtf8String => MarshalAction::OptionalStringView,
            ParamClass::ByteBuffer(_) => MarshalAction::ByteBufferView,
            ParamClass::TypedBuffer => MarshalAction::U32BufferView,
            ParamClass::Ignored => MarshalAction::BindUnit,
            _ => MarshalAction::Deserialize,
        }
    }
}

/// The synchronous return plan of a return classification.
pub fn make_return_plan(rc: ReturnClass) -> (r: ReturnPlan)
    ensures
        r == return_plan_of(rc),
{
    let fallible = match rc {
        ReturnClass::FallibleScalar(_)
        | ReturnClass::FallibleResourceHandle
        | ReturnClass::FallibleVoid
        | ReturnClass::FallibleSerialized
        | ReturnClass::FallibleFuture => true,
        _ => false,
    };
    let on_success = match rc {
        ReturnClass::Void => SuccessOutput::Nothing,
        ReturnClass::Scalar(k) => match k {
            ScalarKind::U32 | ScalarKind::U8 | ScalarKind::U16 => SuccessOutput::SetScalar,
            _ => SuccessOutput::Serialize,
        },
        ReturnClass::ResourceHandle => SuccessOutput::SetScalar,
        ReturnClass::FallibleScalar(k) => match k {
            ScalarKind::U32 | ScalarKind::U8 | ScalarKind::U16 => SuccessOutput::SetScalar,
            _ => SuccessOutput::Serialize,
        },
        ReturnClass::FallibleResourceHandle => SuccessOutput::SetScalar,
        ReturnClass::FallibleVoid => SuccessOutput::Nothing,
        _ => SuccessOutput::Serialize,
    };
    ReturnPlan { fallible, on_success }
}

/// Synthesize the generic calling convention's marshalling plan for a
/// signature. `check_fast_error_slot` says whether a fallible fast entry
/// point accompanies this function, so that the synchronous entry must
/// detect its pending error before marshalling anything.
pub fn synthesize_generic(sig: &Signature, flags: TransformFlags, check_fast_error_slot: bool) -> (r:
    GenericPlan)
    ensures
        plan_args_match(
            sig.params@,
            flags.requires_engine_handle,
            first_wire_position(*sig),
            r.special@,
            r.args@,
        ),
        sig_is_async(*sig) ==> r.kind == (PathKind::Async {
            body: async_body_of(*sig),
            deferred: flags.deferred,
        }),
        !sig_is_async(*sig) ==> r.kind == (PathKind::Sync {
            ret: return_plan_of(return_class(sig.ret)),
            check_fast_error_slot,
        }),
{
    let is_async = signature_is_async(sig);
    let base: usize = if is_async {
        1
    } else {
        0
    };
    let eh = flags.requires_engine_handle;
    let n = sig.params.len();

    let mut special: Vec<SpecialBinding> = Vec::new();
    let mut k: usize = 0;
    let mut stop = false;
    while k < n && !stop
        invariant
            0 <= k <= n,
            n == sig.params@.len(),
            special@.len() == k,
            forall|j: int| 0 <= j < k ==> special_binding(param_class(#[trigger] sig.params@[j]), eh)
                == Some(special@[j]),
            stop ==> k < n && special_binding(param_class(sig.params@[k as int]), eh) is None,
        decreases n - k + (if stop { 0int } else { 1int }),
    {
        let c = classify_param(&sig.params[k]);
        match special_binding_of(c, eh) {
            Some(sb) => {
                special.push(sb);
                k = k + 1;
            },
            None => {
                stop = true;
            },
        }
    }

    let mut args: Vec<ArgPlan> = Vec::new();
    let mut i: usize = k;
    while i < n
        invariant
            0 <= k <= i <= n,
            n == sig.params@.len(),
            base <= 1,
            args@.len() == i - k,
            forall|j: int| 0 <= j < args@.len() ==> #[trigger] args@[j] == (ArgPlan {
                position: (j + base) as usize,
                action: marshal_action(
                    param_class(sig.params@[j + k]),
                    sig.params@[j + k].ignored,
                ),
            }),
        decreases n - i,
    {
        let p = sig.params[i];
        let c = classify_param(&p);
        let action = marshal_action_of(c, p.ignored);
        args.push(ArgPlan { position: i - k + base, action });
        i = i + 1;
    }

    let kind = if is_async {
        let body = if sig.is_async {
            let is_result = matches!(sig.ret, ReturnShape::Fallible(_) | ReturnShape::FallibleFuture);
            AsyncBody::AwaitCall { wrap_ok: !is_result }
        } else if matches!(sig.ret, ReturnShape::FallibleFuture) {
            AsyncBody::BindCheckThenAwait
        } else {
            AsyncBody::BindThenAwait
        };
        PathKind::Async { body, deferred: flags.deferred }
    } else {
        let rc = classify_return(&sig.ret);
        PathKind::Sync { ret: make_return_plan(rc), check_fast_error_slot }
    };
    GenericPlan { special, args, kind }
}

} // verus!
