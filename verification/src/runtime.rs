//! The dispatch engine: executable semantics of the emitted entry points.
//!
//! The plans produced by the synthesizers are data; this module interprets
//! them over a modeled wire boundary. The embedding layer supplies the wire
//! arguments, a shared borrow-checked state container, and (for fast calls)
//! the callback-options structure; host invocation itself stays outside —
//! an entry function marshals up to the point of invocation and hands the
//! marshalled values back, and a commit function takes the host's result as
//! an argument.

use vstd::prelude::*;
use crate::generic::{ArgPlan, MarshalAction, ReturnPlan, SuccessOutput};

verus! {

/// A wire value at the script-engine calling boundary.
#[derive(Clone, Debug, PartialEq)]
pub enum WireValue {
    Undefined,
    Boolean(bool),
    Integer(i64),
    Text(String),
    /// A contiguous byte buffer.
    Buffer(Vec<u8>),
    /// A typed buffer of 32-bit words.
    WordBuffer(Vec<u32>),
}

/// The mathematical value of a wire value.
pub enum WireVal {
    Undefined,
    Boolean(bool),
    Integer(i64),
    Text(Seq<char>),
    Buffer(Seq<u8>),
    WordBuffer(Seq<u32>),
}

impl View for WireValue {
    type V = WireVal;

    open spec fn view(&self) -> WireVal {
        match self {
            WireValue::Undefined => WireVal::Undefined,
            WireValue::Boolean(b) => WireVal::Boolean(*b),
            WireValue::Integer(i) => WireVal::Integer(*i),
            WireValue::Text(s) => WireVal::Text(s@),
            WireValue::Buffer(b) => WireVal::Buffer(b@),
            WireValue::WordBuffer(w) => WireVal::WordBuffer(w@),
        }
    }
}

/// The views of a wire argument list.
pub open spec fn wire_views(args: Seq<WireValue>) -> Seq<WireVal> {
    args.map_values(|w: WireValue| w@)
}

/// A native value handed to the host function by the generic path.
#[derive(Clone, Debug, PartialEq)]
pub enum NativeArg {
    /// The absent callback-options value of a generic call.
    OptionsAbsent,
    /// The unit placeholder an ignored parameter binds to.
    Placeholder,
    Text(String),
    MaybeText(Option<String>),
    Bytes(Vec<u8>),
    Words(Vec<u32>),
    /// A wire value passed on for full structural deserialization beyond
    /// this boundary.
    Dynamic(WireValue),
}

/// The mathematical value of a marshalled native argument.
pub enum NativeVal {
    OptionsAbsent,
    Placeholder,
    Text(Seq<char>),
    MaybeText(Option<Seq<char>>),
    Bytes(Seq<u8>),
    Words(Seq<u32>),
    Dynamic(WireVal),
}

impl View for NativeArg {
    type V = NativeVal;

    open spec fn view(&self) -> NativeVal {
        match self {
            NativeArg::OptionsAbsent => NativeVal::OptionsAbsent,
            NativeArg::Placeholder => NativeVal::Placeholder,
            NativeArg::Text(s) => NativeVal::Text(s@),
            NativeArg::MaybeText(o) => match o {
                Some(s) => NativeVal::MaybeText(Some(s@)),
                None => NativeVal::MaybeText(None),
            },
            NativeArg::Bytes(b) => NativeVal::Bytes(b@),
            NativeArg::Words(w) => NativeVal::Words(w@),
            NativeArg::Dynamic(v) => NativeVal::Dynamic(v@),
        }
    }
}

/// The views of a marshalled argument list.
pub open spec fn native_views(vals: Seq<NativeArg>) -> Seq<NativeVal> {
    vals.map_values(|v: NativeArg| v@)
}

/// A typed argument marshalling error, carrying the 0-based wire position
/// it reports.
#[derive(Clone, Copy, Debug, PartialEq, Eq, Structural)]
pub enum MarshalError {
    ExpectedString { position: usize },
    ExpectedByteBuffer { position: usize },
    ExpectedWordBuffer { position: usize },
    /// The leading continuation id of an asynchronous call is absent or not
    /// numeric.
    InvalidContinuationId,
}

/// A native host error travelling toward an exception.
#[derive(Clone, Debug, PartialEq)]
pub struct HostError {
    pub message: String,
}

/// The pluggable error-to-exception classifier the embedding layer installs
/// in the shared state. It is opaque to the dispatch engine, which only
/// snapshots it and hands it on with the outcome it is to translate.
#[derive(Clone, Copy, Debug, PartialEq, Eq, Structural)]
pub struct ErrorClassifier {
    pub id: u64,
}

/// The shared execution state the embedding layer supplies: the operation
/// tracking counters, the pluggable error-class classifier, and the
/// single-slot "last fast error" cell.
#[derive(Clone, Debug, PartialEq)]
pub struct SharedState {
    pub sync_op_count: u64,
    pub async_op_count: u64,
    pub error_classifier: ErrorClassifier,
    /// The hand-off cell between a failed fast call and the generic
    /// re-entry; cleared on read.
    pub pending_fast_error: Option<HostError>,
}

/// A typed error for a wire argument whose structural decoding failed,
/// carrying the 0-based position and the decoder's own error text.
#[derive(Clone, Debug, PartialEq)]
pub struct DeserializeError {
    pub position: usize,
    pub cause: String,
}

/// Commit the structural decoder's verdict for one dynamic-value argument.
/// Decoding itself happens beyond this boundary (it depends on the target
/// type); the engine takes its outcome and, on failure, produces the typed
/// error that is raised before the host function is invoked.
pub fn decode_dynamic<T>(position: usize, outcome: Result<T, String>) -> (r: Result<
    T,
    DeserializeError,
>)
    ensures
        outcome matches Ok(v) ==> r == Ok::<T, DeserializeError>(v),
        outcome matches Err(cause) ==> r == Err::<T, DeserializeError>(
            DeserializeError { position, cause },
        ),
{
    match outcome {
        Ok(v) => Ok(v),
        Err(cause) => Err(DeserializeError { position, cause }),
    }
}

/// The callback-options structure of a fast call, carrying the fallback
/// flag.
#[derive(Clone, Copy, Debug, PartialEq, Eq, Structural)]
pub struct CallbackOptions {
    pub fallback: bool,
}

/// A typed-array view handed to a fast entry point: its backing bytes and
/// whether an aligned storage view of it exists.
#[derive(Clone, Debug, PartialEq)]
pub struct FastBuffer {
    pub aligned: bool,
    pub bytes: Vec<u8>,
}

/// The wire value at a position; absent arguments read as `Undefined`.
pub open spec fn wire_at(args: Seq<WireVal>, pos: int) -> WireVal {
    if 0 <= pos < args.len() {
        args[pos]
    } else {
        WireVal::Undefined
    }
}

/// What marshalling one wire argument yields.
pub open spec fn marshal_arg_spec(action: MarshalAction, pos: int, args: Seq<WireVal>) -> Result<
    NativeVal,
    MarshalError,
> {
    match action {
        MarshalAction::BindNone => Ok(NativeVal::OptionsAbsent),
        MarshalAction::BindUnit => Ok(NativeVal::Placeholder),
        MarshalAction::StringView => match wire_at(args, pos) {
            WireVal::Text(s) => Ok(NativeVal::Text(s)),
            _ => Err(MarshalError::ExpectedString { position: pos as usize }),
        },
        MarshalAction::OptionalStringView => match wire_at(args, pos) {
            WireVal::Text(s) => Ok(NativeVal::MaybeText(Some(s))),
            _ => Ok(NativeVal::MaybeText(None)),
        },
        MarshalAction::ByteBufferView => match wire_at(args, pos) {
            WireVal::Buffer(b) => Ok(NativeVal::Bytes(b)),
            _ => Err(MarshalError::ExpectedByteBuffer { position: pos as usize }),
        },
        MarshalAction::U32BufferView => match wire_at(args, pos) {
            WireVal::WordBuffer(w) => Ok(NativeVal::Words(w)),
            _ => Err(MarshalError::ExpectedWordBuffer { position: pos as usize }),
        },
        MarshalAction::Deserialize => Ok(NativeVal::Dynamic(wire_at(args, pos))),
    }
}

/// What marshalling a whole directive list yields: every value in order, or
/// the first error.
pub open spec fn marshal_all_spec(plans: Seq<ArgPlan>, args: Seq<WireVal>) -> Result<
    Seq<NativeVal>,
    MarshalError,
>
    decreases plans.len(),
{
    if plans.len() == 0 {
        Ok(Seq::empty())
    } else {
        match marshal_all_spec(plans.drop_last(), args) {
            Err(e) => Err(e),
            Ok(pre) => match marshal_arg_spec(
                plans.last().action,
                plans.last().position as int,
                args,
            ) {
                Ok(v) => Ok(pre.push(v)),
                Err(e) => Err(e),
            },
        }
    }
}

/// An error among the first directives decides the whole list.
proof fn lemma_marshal_error_sticks(
    plans: Seq<ArgPlan>,
    args: Seq<WireVal>,
    j: int,
    e: MarshalError,
)
    requires
        0 <= j <= plans.len(),
        marshal_all_spec(plans.take(j), args) == Err::<Seq<NativeVal>, MarshalError>(e),
    ensures
        marshal_all_spec(plans, args) == Err::<Seq<NativeVal>, MarshalError>(e),
    decreases plans.len() - j,
{
    if j == plans.len() {
        assert(plans.take(j) =~= plans);
    } else {
        assert(plans.take(j + 1).drop_last() =~= plans.take(j));
        assert(marshal_all_spec(plans.take(j + 1), args) == Err::<Seq<NativeVal>, MarshalError>(e));
        lemma_marshal_error_sticks(plans, args, j + 1, e);
    }
}

/// An owned copy of a byte vector.
fn copy_bytes(v: &Vec<u8>) -> (r: Vec<u8>)
    ensures
        r@ == v@,
{
    let mut r: Vec<u8> = Vec::new();
    let mut i: usize = 0;
    while i < v.len()
        invariant
            0 <= i <= v@.len(),
            r@ == v@.take(i as int),
        decreases v@.len() - i,
    {
        r.push(v[i]);
        proof {
            assert(r@ =~= v@.take(i + 1));
        }
        i = i + 1;
    }
    proof {
        assert(v@.take(v@.len() as int) =~= v@);
    }
    r
}

/// An owned copy of a word vector.
fn copy_words(v: &Vec<u32>) -> (r: Vec<u32>)
    ensures
        r@ == v@,
{
    let mut r: Vec<u32> = Vec::new();
    let mut i: usize = 0;
    while i < v.len()
        invariant
            0 <= i <= v@.len(),
            r@ == v@.take(i as int),
        decreases v@.len() - i,
    {
        r.push(v[i]);
        proof {
            assert(r@ =~= v@.take(i + 1));
        }
        i = i + 1;
    }
    proof {
        assert(v@.take(v@.len() as int) =~= v@);
    }
    r
}

/// An owned copy of a wire value.
fn copy_wire(v: &WireValue) -> (r: WireValue)
    ensures
        r@ == v@,
{
    match v {
        WireValue::Undefined => WireValue::Undefined,
        WireValue::Boolean(b) => WireValue::Boolean(*b),
        WireValue::Integer(i) => WireValue::Integer(*i),
        WireValue::Text(s) => WireValue::Text(s.clone()),
        WireValue::Buffer(b) => WireValue::Buffer(copy_bytes(b)),
        WireValue::WordBuffer(w) => WireValue::WordBuffer(copy_words(w)),
    }
}

/// Marshal one wire argument according to its directive.
pub fn marshal_arg(action: MarshalAction, position: usize, args: &Vec<WireValue>) -> (r: Result<
    NativeArg,
    MarshalError,
>)
    ensures
        r matches Ok(v) ==> marshal_arg_spec(action, position as int, wire_views(args@)) == Ok::<
            NativeVal,
            MarshalError,
        >(v@),
        r matches Err(e) ==> marshal_arg_spec(action, position as int, wire_views(args@)) == Err::<
            NativeVal,
            MarshalError,
        >(e),
{
    proof {
        assert(wire_views(args@).len() == args@.len());
        if position < args@.len() {
            assert(wire_views(args@)[position as int] == args@[position as int]@);
        }
    }
    match action {
        MarshalAction::BindNone => Ok(NativeArg::OptionsAbsent),
        MarshalAction::BindUnit => Ok(NativeArg::Placeholder),
        MarshalAction::StringView => {
            if position < args.len() {
                match &args[position] {
                    WireValue::Text(s) => Ok(NativeArg::Text(s.clone())),
                    _ => Err(MarshalError::ExpectedString { position }),
                }
            } else {
                Err(MarshalError::ExpectedString { position })
            }
        },
        MarshalAction::OptionalStringView => {
            if position < args.len() {
                match &args[position] {
                    WireValue::Text(s) => Ok(NativeArg::MaybeText(Some(s.clone()))),
                    _ => Ok(NativeArg::MaybeText(None)),
                }
            } else {
                Ok(NativeArg::MaybeText(None))
            }
        },
        MarshalAction::ByteBufferView => {
            if position < args.len() {
                match &args[position] {
                    WireValue::Buffer(b) => Ok(NativeArg::Bytes(copy_bytes(b))),
                    _ => Err(MarshalError::ExpectedByteBuffer { position }),
                }
            } else {
                Err(MarshalError::ExpectedByteBuffer { position })
            }
        },
        MarshalAction::U32BufferView => {
            if position < args.len() {
                match &args[position] {
                    WireValue::WordBuffer(w) => Ok(NativeArg::Words(copy_words(w))),
                    _ => Err(MarshalError::ExpectedWordBuffer { position }),
                }
            } else {
                Err(MarshalError::ExpectedWordBuffer { position })
            }
        },
        MarshalAction::Deserialize => {
            if position < args.len() {
                Ok(NativeArg::Dynamic(copy_wire(&args[position])))
            } else {
                Ok(NativeArg::Dynamic(WireValue::Undefined))
            }
        },
    }
}

/// Marshal a whole directive list, stopping at the first typed error.
pub fn marshal_args(plans: &Vec<ArgPlan>, args: &Vec<WireValue>) -> (r: Result<
    Vec<NativeArg>,
    MarshalError,
>)
    ensures
        r matches Ok(vs) ==> marshal_all_spec(plans@, wire_views(args@)) == Ok::<
            Seq<NativeVal>,
            MarshalError,
        >(native_views(vs@)),
        r matches Err(e) ==> marshal_all_spec(plans@, wire_views(args@)) == Err::<
            Seq<NativeVal>,
            MarshalError,
        >(e),
{
    let ghost views = wire_views(args@);
    let mut out: Vec<NativeArg> = Vec::new();
    proof {
        assert(native_views(out@) =~= Seq::<NativeVal>::empty());
    }
    let mut i: usize = 0;
    while i < plans.len()
        invariant
            0 <= i <= plans@.len(),
            views == wire_views(args@),
            marshal_all_spec(plans@.take(i as int), views) == Ok::<Seq<NativeVal>, MarshalError>(
                native_views(out@),
            ),
        decreases plans@.len() - i,
    {
        let p = plans[i];
        match marshal_arg(p.action, p.position, args) {
            Ok(v) => {
                proof {
                    assert(native_views(out@.push(v)) =~= native_views(out@).push(v@));
                    assert(plans@.take(i + 1).drop_last() =~= plans@.take(i as int));
                    assert(plans@.take(i + 1).last() == plans@[i as int]);
                }
                out.push(v);
            },
            Err(e) => {
                proof {
                    assert(plans@.take(i + 1).drop_last() =~= plans@.take(i as int));
                    assert(plans@.take(i + 1).last() == plans@[i as int]);
                    assert(marshal_all_spec(plans@.take(i + 1), views) == Err::<
                        Seq<NativeVal>,
                        MarshalError,
                    >(e));
                    lemma_marshal_error_sticks(plans@, views, i + 1, e);
                }
                return Err(e);
            },
        }
        i = i + 1;
    }
    proof {
        assert(plans@.take(plans@.len() as int) =~= plans@);
    }
    Ok(out)
}

/// How a synchronous generic entry proceeds after its prologue.
#[derive(Debug, PartialEq)]
pub enum SyncEntry {
    /// A failed fast call left its error in the shared slot: raise it as an
    /// exception before marshalling anything.
    RaisePending(HostError),
    /// A typed marshalling error: raise it; the call produces no result.
    Abort(MarshalError),
    /// All arguments marshalled; invoke the host function on them.
    Invoke(Vec<NativeArg>),
}

/// The synchronous generic entry prologue: where a fallible fast entry
/// accompanies this function, a pending "last fast error" is detected,
/// cleared, and raised before any argument marshalling; otherwise the
/// arguments are marshalled in order.
pub fn generic_sync_entry(
    check_fast_error: bool,
    plans: &Vec<ArgPlan>,
    state: &mut SharedState,
    args: &Vec<WireValue>,
) -> (r: SyncEntry)
    ensures
        (match old(state).pending_fast_error {
            Some(e) => check_fast_error ==> (r == SyncEntry::RaisePending(e)
                && final(state).pending_fast_error is None
                && final(state).async_op_count == old(state).async_op_count
                && final(state).sync_op_count == old(state).sync_op_count
                && final(state).error_classifier == old(state).error_classifier),
            None => true,
        }),
        !(check_fast_error && old(state).pending_fast_error is Some) ==> (*final(state)
            == *old(state) && (match marshal_all_spec(plans@, wire_views(args@)) {
            Ok(vs) => r matches SyncEntry::Invoke(v) && native_views(v@) == vs,
            Err(e) => r == SyncEntry::Abort(e),
        })),
{
    if check_fast_error {
        let pending = state.pending_fast_error.take();
        match pending {
            Some(e) => {
                return SyncEntry::RaisePending(e);
            },
            None => (),
        }
    }
    match marshal_args(plans, args) {
        Ok(v) => SyncEntry::Invoke(v),
        Err(e) => SyncEntry::Abort(e),
    }
}

/// A scheduled asynchronous call: the validated continuation id, the
/// marshalled arguments the deferred body will consume, and the snapshot of
/// the error-class classifier taken before scheduling, with which a failed
/// outcome is translated at completion.
#[derive(Debug, PartialEq)]
pub struct AsyncLaunch {
    pub continuation_id: i64,
    pub args: Vec<NativeArg>,
    pub classifier: ErrorClassifier,
}

/// The continuation id of an asynchronous call: its leading wire argument,
/// which must be numeric.
pub open spec fn continuation_of(args: Seq<WireVal>) -> Option<i64> {
    match wire_at(args, 0) {
        WireVal::Integer(id) => Some(id),
        _ => None,
    }
}

/// The asynchronous generic entry prologue: the leading continuation id is
/// validated and the arguments marshalled, all before anything is tracked
/// or scheduled; only on success, under one scoped exclusive state access,
/// is the async-operation counter advanced and the error-class classifier
/// snapshotted into the launch, both before the deferred unit is queued.
pub fn generic_async_entry(
    plans: &Vec<ArgPlan>,
    state: &mut SharedState,
    args: &Vec<WireValue>,
) -> (r: Result<AsyncLaunch, MarshalError>)
    requires
        old(state).async_op_count < u64::MAX,
    ensures
        (match continuation_of(wire_views(args@)) {
            Some(cid) => match marshal_all_spec(plans@, wire_views(args@)) {
                Ok(vs) => (r matches Ok(l) && l.continuation_id == cid && native_views(l.args@)
                    == vs && l.classifier == old(state).error_classifier
                    && final(state).async_op_count == old(state).async_op_count + 1
                    && final(state).sync_op_count == old(state).sync_op_count
                    && final(state).error_classifier == old(state).error_classifier
                    && final(state).pending_fast_error == old(state).pending_fast_error),
                Err(e) => r == Err::<AsyncLaunch, MarshalError>(e) && *final(state) == *old(state),
            },
            None => r == Err::<AsyncLaunch, MarshalError>(MarshalError::InvalidContinuationId)
                && *final(state) == *old(state),
        }),
{
    proof {
        assert(wire_views(args@).len() == args@.len());
        if args@.len() > 0 {
            assert(wire_views(args@)[0] == args@[0]@);
        }
    }
    let cid: i64;
    if args.len() > 0 {
        match &args[0] {
            WireValue::Integer(id) => {
                cid = *id;
            },
            _ => {
                return Err(MarshalError::InvalidContinuationId);
            },
        }
    } else {
        return Err(MarshalError::InvalidContinuationId);
    }
    let marshalled = match marshal_args(plans, args) {
        Ok(v) => v,
        Err(e) => {
            return Err(e);
        },
    };
    state.async_op_count = state.async_op_count + 1;
    let classifier = state.error_classifier;
    Ok(AsyncLaunch { continuation_id: cid, args: marshalled, classifier })
}

/// What the generic path emits after a synchronous host call returns.
#[derive(Clone, Debug, PartialEq)]
pub enum SyncReturnStep {
    /// Nothing is emitted for a void result.
    EmitNothing,
    /// The scalar result is set directly on the wire, bypassing
    /// serialization.
    EmitScalar,
    /// The result is handed to structural serialization; its failure is a
    /// typed error on the caller-visible channel.
    EmitSerialized,
    /// The host's failure, paired with the classifier that translates it
    /// into the exception to raise; no value is set.
    RaiseHostError { classifier: ErrorClassifier, error: HostError },
}

/// The synchronous generic epilogue: it takes the host call's failure (if
/// its result was fallible and failed), so it runs after the host function
/// returns; it advances the sync-operation counter exactly once; and it
/// returns the emission step still to perform, so tracking precedes all
/// return-value handling.
pub fn generic_sync_epilogue(
    ret: &ReturnPlan,
    host_error: Option<HostError>,
    state: &mut SharedState,
) -> (r: SyncReturnStep)
    requires
        old(state).sync_op_count < u64::MAX,
    ensures
        final(state).sync_op_count == old(state).sync_op_count + 1,
        final(state).async_op_count == old(state).async_op_count,
        final(state).error_classifier == old(state).error_classifier,
        final(state).pending_fast_error == old(state).pending_fast_error,
        (match host_error {
            Some(e) => ret.fallible ==> r == (SyncReturnStep::RaiseHostError {
                classifier: old(state).error_classifier,
                error: e,
            }),
            None => true,
        }),
        !(ret.fallible && host_error is Some) ==> r == (match ret.on_success {
            SuccessOutput::Nothing => SyncReturnStep::EmitNothing,
            SuccessOutput::SetScalar => SyncReturnStep::EmitScalar,
            SuccessOutput::Serialize => SyncReturnStep::EmitSerialized,
        }),
{
    state.sync_op_count = state.sync_op_count + 1;
    if ret.fallible {
        match host_error {
            Some(e) => {
                let classifier = state.error_classifier;
                return SyncReturnStep::RaiseHostError { classifier, error: e };
            },
            None => (),
        }
    }
    match ret.on_success {
        SuccessOutput::Nothing => SyncReturnStep::EmitNothing,
        SuccessOutput::SetScalar => SyncReturnStep::EmitScalar,
        SuccessOutput::Serialize => SyncReturnStep::EmitSerialized,
    }
}

/// The delivery of a completed asynchronous call back through the embedding
/// layer: the continuation id, the operation's identifier, the outcome, and
/// the classifier snapshot with which a failed outcome is translated.
#[derive(Debug, PartialEq)]
pub struct AsyncDelivery {
    pub continuation_id: i64,
    pub operation_id: u32,
    pub classifier: ErrorClassifier,
    pub outcome: Result<WireValue, HostError>,
}

/// Pair a completed asynchronous outcome with its continuation and
/// operation identifiers and the classifier snapshotted at launch.
pub fn complete_async(
    continuation_id: i64,
    operation_id: u32,
    classifier: ErrorClassifier,
    outcome: Result<WireValue, HostError>,
) -> (d: AsyncDelivery)
    ensures
        d.continuation_id == continuation_id,
        d.operation_id == operation_id,
        d.classifier == classifier,
        d.outcome == outcome,
{
    AsyncDelivery { continuation_id, operation_id, classifier, outcome }
}

/// The fast entry prologue for raw buffer parameters: every view must admit
/// an aligned storage view; on the first misaligned one, the fallback flag
/// is set and the fast call aborts with its default value, without invoking
/// the host function.
pub fn fast_acquire_buffers(bufs: &Vec<FastBuffer>, opts: &mut CallbackOptions) -> (r: Option<
    Vec<Vec<u8>>,
>)
    ensures
        r is Some <==> (forall|i: int| 0 <= i < bufs@.len() ==> (#[trigger] bufs@[i]).aligned),
        r matches Some(v) ==> (v@.len() == bufs@.len() && (forall|i: int|
            0 <= i < bufs@.len() ==> #[trigger] v@[i]@ == bufs@[i].bytes@) && *final(opts)
            == *old(opts)),
        r is None ==> final(opts).fallback == true,
{
    let mut out: Vec<Vec<u8>> = Vec::new();
    let mut i: usize = 0;
    while i < bufs.len()
        invariant
            0 <= i <= bufs@.len(),
            out@.len() == i,
            *opts == *old(opts),
            forall|j: int| 0 <= j < i ==> (#[trigger] bufs@[j]).aligned,
            forall|j: int| 0 <= j < i ==> #[trigger] out@[j]@ == bufs@[j].bytes@,
        decreases bufs@.len() - i,
    {
        if !bufs[i].aligned {
            opts.fallback = true;
            return None;
        }
        out.push(copy_bytes(&bufs[i].bytes));
        i = i + 1;
    }
    Some(out)
}

/// Commit a fast call's fallible host result: a success is returned
/// directly in the restricted shape; a failure is stored in the shared
/// "last fast error" slot, the fallback flag is set, and the default value
/// is returned — never both an exception and a value.
pub fn fast_result_commit<T>(
    result: Result<T, HostError>,
    fallback_value: T,
    state: &mut SharedState,
    opts: &mut CallbackOptions,
) -> (r: T)
    ensures
        result matches Ok(v) ==> (r == v && *final(state) == *old(state) && *final(opts)
            == *old(opts)),
        result matches Err(e) ==> (r == fallback_value && final(state).pending_fast_error
            == Some(e) && final(state).async_op_count == old(state).async_op_count
            && final(state).sync_op_count == old(state).sync_op_count
            && final(state).error_classifier == old(state).error_classifier
            && final(opts).fallback == true),
{
    match result {
        Ok(v) => v,
        Err(e) => {
            state.pending_fast_error = Some(e);
            opts.fallback = true;
            fallback_value
        },
    }
}

} // verus!
