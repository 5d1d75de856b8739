use op_dispatch::generic::ArgPlan;
use op_dispatch::generic::MarshalAction;
use op_dispatch::runtime::complete_async;
use op_dispatch::runtime::fast_acquire_buffers;
use op_dispatch::runtime::fast_result_commit;
use op_dispatch::runtime::generic_async_entry;
use op_dispatch::runtime::generic_sync_entry;
use op_dispatch::runtime::marshal_arg;
use op_dispatch::runtime::marshal_args;
use op_dispatch::runtime::decode_dynamic;
use op_dispatch::runtime::generic_sync_epilogue;
use op_dispatch::runtime::CallbackOptions;
use op_dispatch::runtime::DeserializeError;
use op_dispatch::runtime::ErrorClassifier;
use op_dispatch::runtime::FastBuffer;
use op_dispatch::runtime::HostError;
use op_dispatch::runtime::MarshalError;
use op_dispatch::runtime::NativeArg;
use op_dispatch::runtime::SharedState;
use op_dispatch::runtime::SyncEntry;
use op_dispatch::runtime::SyncReturnStep;
use op_dispatch::runtime::WireValue;
use op_dispatch::generic::ReturnPlan;
use op_dispatch::generic::SuccessOutput;

fn fresh_state() -> SharedState {
    SharedState {
        sync_op_count: 0,
        async_op_count: 0,
        error_classifier: ErrorClassifier { id: 1 },
        pending_fast_error: None,
    }
}

fn plan(position: usize, action: MarshalAction) -> ArgPlan {
    ArgPlan { position, action }
}

#[test]
fn string_view_extracts_text() {
    let args = vec![WireValue::Text("hello".to_string())];
    let r = marshal_arg(MarshalAction::StringView, 0, &args);
    assert_eq!(r, Ok(NativeArg::Text("hello".to_string())));
}

#[test]
fn greet_with_non_string_reports_position_zero() {
    // Calling fn greet(name: String) with a numeric first argument raises a
    // typed error identifying wire position 0.
    let plans = vec![plan(0, MarshalAction::StringView)];
    let args = vec![WireValue::Integer(5)];
    let r = marshal_args(&plans, &args);
    assert_eq!(r, Err(MarshalError::ExpectedString { position: 0 }));
}

#[test]
fn missing_argument_reads_as_undefined() {
    let plans = vec![plan(0, MarshalAction::StringView)];
    let args: Vec<WireValue> = vec![];
    assert_eq!(
        marshal_args(&plans, &args),
        Err(MarshalError::ExpectedString { position: 0 })
    );
}

#[test]
fn optional_string_degrades_to_absent() {
    let args = vec![WireValue::Integer(3)];
    let r = marshal_arg(MarshalAction::OptionalStringView, 0, &args);
    assert_eq!(r, Ok(NativeArg::MaybeText(None)));
}

#[test]
fn byte_buffer_view_and_mismatch() {
    let args = vec![WireValue::Buffer(vec![1, 2, 3])];
    assert_eq!(
        marshal_arg(MarshalAction::ByteBufferView, 0, &args),
        Ok(NativeArg::Bytes(vec![1, 2, 3]))
    );
    let bad = vec![WireValue::Boolean(true)];
    assert_eq!(
        marshal_arg(MarshalAction::ByteBufferView, 0, &bad),
        Err(MarshalError::ExpectedByteBuffer { position: 0 })
    );
}

#[test]
fn word_buffer_view_and_mismatch() {
    let args = vec![WireValue::WordBuffer(vec![7, 8])];
    assert_eq!(
        marshal_arg(MarshalAction::U32BufferView, 0, &args),
        Ok(NativeArg::Words(vec![7, 8]))
    );
    let bad = vec![WireValue::Buffer(vec![7, 8])];
    assert_eq!(
        marshal_arg(MarshalAction::U32BufferView, 0, &bad),
        Err(MarshalError::ExpectedWordBuffer { position: 0 })
    );
}

#[test]
fn deserialize_passes_value_through() {
    let args = vec![WireValue::Boolean(true)];
    assert_eq!(
        marshal_arg(MarshalAction::Deserialize, 0, &args),
        Ok(NativeArg::Dynamic(WireValue::Boolean(true)))
    );
    assert_eq!(
        marshal_arg(MarshalAction::Deserialize, 5, &args),
        Ok(NativeArg::Dynamic(WireValue::Undefined))
    );
}

#[test]
fn placeholder_bindings() {
    let args: Vec<WireValue> = vec![];
    assert_eq!(marshal_arg(MarshalAction::BindUnit, 0, &args), Ok(NativeArg::Placeholder));
    assert_eq!(marshal_arg(MarshalAction::BindNone, 0, &args), Ok(NativeArg::OptionsAbsent));
}

#[test]
fn first_marshal_error_wins() {
    let plans = vec![plan(0, MarshalAction::ByteBufferView), plan(1, MarshalAction::StringView)];
    let args = vec![WireValue::Integer(1), WireValue::Integer(2)];
    assert_eq!(
        marshal_args(&plans, &args),
        Err(MarshalError::ExpectedByteBuffer { position: 0 })
    );
}

#[test]
fn sync_entry_marshals_in_order() {
    let plans = vec![plan(0, MarshalAction::StringView), plan(1, MarshalAction::Deserialize)];
    let args = vec![WireValue::Text("a".to_string()), WireValue::Integer(2)];
    let mut state = fresh_state();
    let r = generic_sync_entry(false, &plans, &mut state, &args);
    assert_eq!(
        r,
        SyncEntry::Invoke(vec![
            NativeArg::Text("a".to_string()),
            NativeArg::Dynamic(WireValue::Integer(2))
        ])
    );
    assert_eq!(state, fresh_state());
}

#[test]
fn pending_fast_error_raised_before_marshalling() {
    // Even with unmarshallable arguments, a pending fast-call error is
    // detected, cleared, and raised first.
    let plans = vec![plan(0, MarshalAction::StringView)];
    let args = vec![WireValue::Integer(1)];
    let mut state = SharedState {
        sync_op_count: 2,
        async_op_count: 4,
        error_classifier: ErrorClassifier { id: 9 },
        pending_fast_error: Some(HostError { message: "disk gone".to_string() }),
    };
    let r = generic_sync_entry(true, &plans, &mut state, &args);
    assert_eq!(r, SyncEntry::RaisePending(HostError { message: "disk gone".to_string() }));
    assert_eq!(state.pending_fast_error, None);
    assert_eq!(state.async_op_count, 4);
    assert_eq!(state.sync_op_count, 2);
}

#[test]
fn pending_error_ignored_without_fallible_fast_call() {
    let plans: Vec<ArgPlan> = vec![];
    let args: Vec<WireValue> = vec![];
    let mut state = SharedState {
        pending_fast_error: Some(HostError { message: "stale".to_string() }),
        ..fresh_state()
    };
    let r = generic_sync_entry(false, &plans, &mut state, &args);
    assert_eq!(r, SyncEntry::Invoke(vec![]));
    assert_eq!(
        state.pending_fast_error,
        Some(HostError { message: "stale".to_string() })
    );
}

#[test]
fn async_entry_rejects_missing_continuation_id() {
    let plans: Vec<ArgPlan> = vec![];
    let args = vec![WireValue::Text("nope".to_string())];
    let mut state = fresh_state();
    let r = generic_async_entry(&plans, &mut state, &args);
    assert_eq!(r, Err(MarshalError::InvalidContinuationId));
    // Nothing was tracked or scheduled.
    assert_eq!(state.async_op_count, 0);
}

#[test]
fn async_entry_tracks_and_launches() {
    let plans = vec![plan(1, MarshalAction::StringView)];
    let args = vec![WireValue::Integer(7), WireValue::Text("u".to_string())];
    let mut state = fresh_state();
    let l = generic_async_entry(&plans, &mut state, &args).unwrap();
    assert_eq!(l.continuation_id, 7);
    assert_eq!(l.args, vec![NativeArg::Text("u".to_string())]);
    // The error-class classifier is snapshotted before scheduling.
    assert_eq!(l.classifier, ErrorClassifier { id: 1 });
    assert_eq!(state.async_op_count, 1);
    assert_eq!(state.sync_op_count, 0);
}

#[test]
fn async_entry_marshal_error_precedes_tracking() {
    let plans = vec![plan(1, MarshalAction::StringView)];
    let args = vec![WireValue::Integer(7), WireValue::Integer(9)];
    let mut state = fresh_state();
    let r = generic_async_entry(&plans, &mut state, &args);
    assert_eq!(r, Err(MarshalError::ExpectedString { position: 1 }));
    assert_eq!(state.async_op_count, 0);
}

#[test]
fn completion_pairs_identifiers_and_outcome() {
    let d = complete_async(7, 3, ErrorClassifier { id: 1 }, Ok(WireValue::Buffer(vec![1, 2])));
    assert_eq!(d.continuation_id, 7);
    assert_eq!(d.operation_id, 3);
    assert_eq!(d.classifier, ErrorClassifier { id: 1 });
    assert_eq!(d.outcome, Ok(WireValue::Buffer(vec![1, 2])));
}

#[test]
fn decode_failure_carries_position_and_cause() {
    let r = decode_dynamic::<u32>(2, Err("missing field `name`".to_string()));
    assert_eq!(
        r,
        Err(DeserializeError { position: 2, cause: "missing field `name`".to_string() })
    );
    assert_eq!(decode_dynamic::<u32>(2, Ok(7)), Ok(7));
}

#[test]
fn sync_epilogue_tracks_then_emits() {
    let mut state = fresh_state();
    let ret = ReturnPlan { fallible: false, on_success: SuccessOutput::SetScalar };
    let step = generic_sync_epilogue(&ret, None, &mut state);
    assert_eq!(step, SyncReturnStep::EmitScalar);
    assert_eq!(state.sync_op_count, 1);
    assert_eq!(state.async_op_count, 0);
}

#[test]
fn sync_epilogue_translates_failure_through_classifier() {
    let mut state = SharedState { error_classifier: ErrorClassifier { id: 5 }, ..fresh_state() };
    let ret = ReturnPlan { fallible: true, on_success: SuccessOutput::SetScalar };
    let err = HostError { message: "denied".to_string() };
    let step = generic_sync_epilogue(&ret, Some(err), &mut state);
    assert_eq!(
        step,
        SyncReturnStep::RaiseHostError {
            classifier: ErrorClassifier { id: 5 },
            error: HostError { message: "denied".to_string() },
        }
    );
    // The call is tracked exactly once, before return handling.
    assert_eq!(state.sync_op_count, 1);
}

#[test]
fn sync_epilogue_void_result_emits_nothing() {
    let mut state = fresh_state();
    let ret = ReturnPlan { fallible: true, on_success: SuccessOutput::Nothing };
    let step = generic_sync_epilogue(&ret, None, &mut state);
    assert_eq!(step, SyncReturnStep::EmitNothing);
}

#[test]
fn misaligned_buffer_triggers_fallback() {
    // A misaligned fast-path view sets the fallback flag and aborts before
    // the host function body would run; the entry returns its default value.
    let bufs = vec![FastBuffer { aligned: false, bytes: vec![1, 2, 3] }];
    let mut opts = CallbackOptions { fallback: false };
    let r = fast_acquire_buffers(&bufs, &mut opts);
    assert!(r.is_none());
    assert!(opts.fallback);
}

#[test]
fn aligned_buffers_pass_through() {
    let bufs = vec![
        FastBuffer { aligned: true, bytes: vec![1] },
        FastBuffer { aligned: true, bytes: vec![2, 3] },
    ];
    let mut opts = CallbackOptions { fallback: false };
    let r = fast_acquire_buffers(&bufs, &mut opts).unwrap();
    assert_eq!(r, vec![vec![1], vec![2, 3]]);
    assert!(!opts.fallback);
}

#[test]
fn fast_success_returns_value_untouched() {
    let mut state = fresh_state();
    let mut opts = CallbackOptions { fallback: false };
    let r = fast_result_commit(Ok(42u32), 0u32, &mut state, &mut opts);
    assert_eq!(r, 42);
    assert_eq!(state, fresh_state());
    assert!(!opts.fallback);
}

#[test]
fn fast_failure_fills_slot_and_falls_back() {
    let mut state = fresh_state();
    let mut opts = CallbackOptions { fallback: false };
    let err = HostError { message: "no permission".to_string() };
    let r = fast_result_commit(Err::<u32, HostError>(err), 0u32, &mut state, &mut opts);
    assert_eq!(r, 0);
    assert!(opts.fallback);
    assert_eq!(
        state.pending_fast_error,
        Some(HostError { message: "no permission".to_string() })
    );
}

#[test]
fn fast_failure_then_generic_reentry_raises() {
    // The full hand-off: a failed fast call populates the slot and sets the
    // fallback flag; the generic re-entry detects and raises the stored
    // error before marshalling, clearing the slot.
    let mut state = fresh_state();
    let mut opts = CallbackOptions { fallback: false };
    let err = HostError { message: "boom".to_string() };
    let fallback = fast_result_commit(Err::<u32, HostError>(err), 0u32, &mut state, &mut opts);
    assert_eq!(fallback, 0);
    assert!(opts.fallback);

    let plans = vec![plan(0, MarshalAction::ByteBufferView)];
    let args = vec![WireValue::Undefined];
    let r = generic_sync_entry(true, &plans, &mut state, &args);
    assert_eq!(r, SyncEntry::RaisePending(HostError { message: "boom".to_string() }));
    assert_eq!(state.pending_fast_error, None);
}
