use op_dispatch::dispatch::transform;
use op_dispatch::dispatch::transform_annotated;
use op_dispatch::fast::BufferSlot;
use op_dispatch::fast::CType;
use op_dispatch::fast::WireType;
use op_dispatch::generic::ArgPlan;
use op_dispatch::generic::AsyncBody;
use op_dispatch::generic::MarshalAction;
use op_dispatch::generic::PathKind;
use op_dispatch::generic::ReturnPlan;
use op_dispatch::generic::SpecialBinding;
use op_dispatch::generic::SuccessOutput;
use op_dispatch::syntax::parse_flags;
use op_dispatch::syntax::AuthoringError;
use op_dispatch::syntax::Mutability;
use op_dispatch::syntax::Param;
use op_dispatch::syntax::ReturnShape;
use op_dispatch::syntax::ScalarKind;
use op_dispatch::syntax::Signature;
use op_dispatch::syntax::TransformFlags;
use op_dispatch::syntax::TypeShape;

fn p(shape: TypeShape) -> Param {
    Param { shape, ignored: false }
}

fn no_flags() -> TransformFlags {
    TransformFlags {
        unstable: false,
        requires_engine_handle: false,
        must_be_fast: false,
        deferred: false,
    }
}

fn sync_sig(name: &str, params: Vec<Param>, ret: ReturnShape) -> Signature {
    Signature { name: name.to_string(), params, ret, is_async: false }
}

#[test]
fn read_scenario_fast_descriptor() {
    // fn read(state: &mut State, buf: &mut [u8]) -> Result<u32, Error>
    let sig = sync_sig(
        "read",
        vec![p(TypeShape::ExclusiveState), p(TypeShape::ByteSlice(Mutability::Exclusive))],
        ReturnShape::Fallible(TypeShape::Scalar(ScalarKind::U32)),
    );
    let u = transform(&sig, no_flags()).unwrap();
    assert_eq!(u.name, "read");
    assert!(u.enabled);
    assert!(!u.is_async);
    let d = u.fast.as_ref().unwrap();
    assert_eq!(
        d.args,
        vec![WireType::EngineValue, WireType::TypedArray(CType::Uint8), WireType::CallbackOptions]
    );
    assert_eq!(d.ret, CType::Uint32);
    assert!(d.returns_result);
    assert!(d.uses_state);
    assert!(d.has_options);
    assert_eq!(d.buffers, vec![BufferSlot { position: 1, element: CType::Uint8 }]);
    assert!(d.raw_values.is_empty());
}

#[test]
fn read_scenario_generic_plan() {
    let sig = sync_sig(
        "read",
        vec![p(TypeShape::ExclusiveState), p(TypeShape::ByteSlice(Mutability::Exclusive))],
        ReturnShape::Fallible(TypeShape::Scalar(ScalarKind::U32)),
    );
    let u = transform(&sig, no_flags()).unwrap();
    assert_eq!(u.generic.special, vec![SpecialBinding::StateBorrow]);
    assert_eq!(
        u.generic.args,
        vec![ArgPlan { position: 0, action: MarshalAction::ByteBufferView }]
    );
    assert_eq!(
        u.generic.kind,
        PathKind::Sync {
            ret: ReturnPlan { fallible: true, on_success: SuccessOutput::SetScalar },
            check_fast_error_slot: true,
        }
    );
}

#[test]
fn greet_scenario_generic_only() {
    // fn greet(name: String) -> String: strings are generic-only.
    let sig = sync_sig(
        "greet",
        vec![p(TypeShape::Utf8String)],
        ReturnShape::Value(TypeShape::Utf8String),
    );
    let u = transform(&sig, no_flags()).unwrap();
    assert!(u.fast.is_none());
    assert!(u.generic.special.is_empty());
    assert_eq!(u.generic.args, vec![ArgPlan { position: 0, action: MarshalAction::StringView }]);
    assert_eq!(
        u.generic.kind,
        PathKind::Sync {
            ret: ReturnPlan { fallible: false, on_success: SuccessOutput::Serialize },
            check_fast_error_slot: false,
        }
    );
}

#[test]
fn fetch_scenario_async_generic_only() {
    // async fn fetch(url: String) -> Result<Vec<u8>, Error>
    let sig = Signature {
        name: "fetch".to_string(),
        params: vec![p(TypeShape::Utf8String)],
        ret: ReturnShape::Fallible(TypeShape::Unrecognized),
        is_async: true,
    };
    let u = transform(&sig, no_flags()).unwrap();
    assert!(u.is_async);
    assert!(u.fast.is_none());
    // The continuation id occupies wire position 0.
    assert_eq!(u.generic.args, vec![ArgPlan { position: 1, action: MarshalAction::StringView }]);
    assert_eq!(
        u.generic.kind,
        PathKind::Async { body: AsyncBody::AwaitCall { wrap_ok: false }, deferred: false }
    );
}

#[test]
fn all_scalar_signature_descriptor_length() {
    let sig = sync_sig(
        "mix",
        vec![p(TypeShape::Scalar(ScalarKind::U32)), p(TypeShape::Scalar(ScalarKind::F64))],
        ReturnShape::Value(TypeShape::Scalar(ScalarKind::U32)),
    );
    let u = transform(&sig, no_flags()).unwrap();
    let d = u.fast.as_ref().unwrap();
    assert_eq!(d.args.len(), sig.params.len() + 1);
    assert_eq!(
        d.args,
        vec![
            WireType::EngineValue,
            WireType::Scalar(CType::Uint32),
            WireType::Scalar(CType::Float64)
        ]
    );
    assert_eq!(d.ret, CType::Uint32);
    assert!(!d.has_options);
    assert!(!d.returns_result);
}

#[test]
fn must_fast_with_unclassified_param_fails() {
    let sig = sync_sig("opaque", vec![p(TypeShape::Unrecognized)], ReturnShape::Default);
    let flags = TransformFlags { must_be_fast: true, ..no_flags() };
    assert_eq!(transform(&sig, flags), Err(AuthoringError::FastIneligible));
}

#[test]
fn must_fast_with_string_param_fails() {
    let sig = sync_sig("greet", vec![p(TypeShape::Utf8String)], ReturnShape::Default);
    let flags = TransformFlags { must_be_fast: true, ..no_flags() };
    assert_eq!(transform(&sig, flags), Err(AuthoringError::FastIneligible));
}

#[test]
fn must_fast_async_fails() {
    let sig = Signature {
        name: "fetch".to_string(),
        params: vec![],
        ret: ReturnShape::Default,
        is_async: true,
    };
    let flags = TransformFlags { must_be_fast: true, ..no_flags() };
    assert_eq!(transform(&sig, flags), Err(AuthoringError::FastRequiresSync));
}

#[test]
fn future_shaped_return_counts_as_async() {
    let sig = Signature {
        name: "later".to_string(),
        params: vec![],
        ret: ReturnShape::Future,
        is_async: false,
    };
    let u = transform(&sig, no_flags()).unwrap();
    assert!(u.is_async);
    assert!(u.fast.is_none());
    assert_eq!(
        u.generic.kind,
        PathKind::Async { body: AsyncBody::BindThenAwait, deferred: false }
    );
}

#[test]
fn fallible_future_double_await_plan() {
    let sig = Signature {
        name: "later".to_string(),
        params: vec![],
        ret: ReturnShape::FallibleFuture,
        is_async: false,
    };
    let u = transform(&sig, no_flags()).unwrap();
    assert_eq!(
        u.generic.kind,
        PathKind::Async { body: AsyncBody::BindCheckThenAwait, deferred: false }
    );
}

#[test]
fn deferred_flag_reaches_async_plan() {
    let sig = Signature {
        name: "slow".to_string(),
        params: vec![],
        ret: ReturnShape::Default,
        is_async: true,
    };
    let flags = TransformFlags { deferred: true, ..no_flags() };
    let u = transform(&sig, flags).unwrap();
    assert_eq!(
        u.generic.kind,
        PathKind::Async { body: AsyncBody::AwaitCall { wrap_ok: true }, deferred: true }
    );
}

#[test]
fn sixty_four_bit_return_not_fast() {
    let sig = sync_sig("wide", vec![], ReturnShape::Value(TypeShape::Scalar(ScalarKind::U64)));
    let u = transform(&sig, no_flags()).unwrap();
    assert!(u.fast.is_none());
}

#[test]
fn sixty_four_bit_parameter_is_fast() {
    let sig = sync_sig("wide", vec![p(TypeShape::Scalar(ScalarKind::U64))], ReturnShape::Default);
    let u = transform(&sig, no_flags()).unwrap();
    let d = u.fast.as_ref().unwrap();
    assert_eq!(d.args, vec![WireType::EngineValue, WireType::Scalar(CType::Uint64)]);
    assert_eq!(d.ret, CType::Void);
}

#[test]
fn scope_handle_consumed_only_with_engine_flag() {
    let sig = sync_sig(
        "scoped",
        vec![p(TypeShape::ScopeHandle), p(TypeShape::Utf8String)],
        ReturnShape::Default,
    );
    let with = TransformFlags { requires_engine_handle: true, ..no_flags() };
    let u = transform(&sig, with).unwrap();
    assert_eq!(u.generic.special, vec![SpecialBinding::Scope]);
    assert_eq!(u.generic.args, vec![ArgPlan { position: 0, action: MarshalAction::StringView }]);

    let u2 = transform(&sig, no_flags()).unwrap();
    assert!(u2.generic.special.is_empty());
    assert_eq!(
        u2.generic.args,
        vec![
            ArgPlan { position: 0, action: MarshalAction::Deserialize },
            ArgPlan { position: 1, action: MarshalAction::StringView }
        ]
    );
}

#[test]
fn shared_state_clone_binding() {
    let sig = sync_sig(
        "counted",
        vec![p(TypeShape::SharedState), p(TypeShape::Scalar(ScalarKind::U32))],
        ReturnShape::Default,
    );
    let u = transform(&sig, no_flags()).unwrap();
    assert_eq!(u.generic.special, vec![SpecialBinding::StateClone]);
    // A reference-counted state handle keeps the fast path off.
    assert!(u.fast.is_none());
}

#[test]
fn explicit_callback_options_last() {
    let sig = sync_sig(
        "opts",
        vec![p(TypeShape::Scalar(ScalarKind::U32)), p(TypeShape::CallbackOptions)],
        ReturnShape::Default,
    );
    let u = transform(&sig, no_flags()).unwrap();
    let d = u.fast.as_ref().unwrap();
    assert_eq!(
        d.args,
        vec![WireType::EngineValue, WireType::Scalar(CType::Uint32), WireType::CallbackOptions]
    );
    assert!(d.has_options);
    assert!(!d.uses_state);
    assert_eq!(
        u.generic.args,
        vec![
            ArgPlan { position: 0, action: MarshalAction::Deserialize },
            ArgPlan { position: 1, action: MarshalAction::BindNone }
        ]
    );
}

#[test]
fn ignored_parameter_binds_unit() {
    let sig = sync_sig(
        "skipped",
        vec![Param { shape: TypeShape::Scalar(ScalarKind::U32), ignored: true }],
        ReturnShape::Default,
    );
    let u = transform(&sig, no_flags()).unwrap();
    assert_eq!(u.generic.args, vec![ArgPlan { position: 0, action: MarshalAction::BindUnit }]);
    assert!(u.fast.is_none());
}

#[test]
fn optional_string_action() {
    let sig = sync_sig("maybe", vec![p(TypeShape::OptionalUtf8String)], ReturnShape::Default);
    let u = transform(&sig, no_flags()).unwrap();
    assert_eq!(
        u.generic.args,
        vec![ArgPlan { position: 0, action: MarshalAction::OptionalStringView }]
    );
}

#[test]
fn unit_result_return_plans() {
    let sig = sync_sig("ack", vec![], ReturnShape::Fallible(TypeShape::Unit));
    let u = transform(&sig, no_flags()).unwrap();
    let d = u.fast.as_ref().unwrap();
    assert_eq!(d.ret, CType::Void);
    assert!(d.returns_result);
    assert!(d.has_options);
    assert_eq!(
        u.generic.kind,
        PathKind::Sync {
            ret: ReturnPlan { fallible: true, on_success: SuccessOutput::Nothing },
            check_fast_error_slot: true,
        }
    );
}

#[test]
fn explicit_unit_return_is_serialized() {
    let sig = sync_sig("unit", vec![], ReturnShape::Value(TypeShape::Unit));
    let u = transform(&sig, no_flags()).unwrap();
    assert!(u.fast.is_none());
    assert_eq!(
        u.generic.kind,
        PathKind::Sync {
            ret: ReturnPlan { fallible: false, on_success: SuccessOutput::Serialize },
            check_fast_error_slot: false,
        }
    );
}

#[test]
fn resource_handle_return_sets_scalar() {
    let sig = sync_sig("open", vec![], ReturnShape::Value(TypeShape::ResourceId));
    let u = transform(&sig, no_flags()).unwrap();
    let d = u.fast.as_ref().unwrap();
    assert_eq!(d.ret, CType::Uint32);
    assert_eq!(
        u.generic.kind,
        PathKind::Sync {
            ret: ReturnPlan { fallible: false, on_success: SuccessOutput::SetScalar },
            check_fast_error_slot: false,
        }
    );
}

#[test]
fn engine_value_round_trip_wire_category() {
    // A raw engine value is a V8-value slot on the fast path and a
    // structural deserialization on the generic path.
    let sig = sync_sig("raw", vec![p(TypeShape::EngineValue)], ReturnShape::Default);
    let u = transform(&sig, no_flags()).unwrap();
    let d = u.fast.as_ref().unwrap();
    assert_eq!(d.args, vec![WireType::EngineValue, WireType::EngineValue]);
    assert_eq!(d.raw_values, vec![0]);
    assert_eq!(u.generic.args, vec![ArgPlan { position: 0, action: MarshalAction::Deserialize }]);
}

#[test]
fn sequence_and_typed_array_slots() {
    let sig = sync_sig(
        "seqs",
        vec![p(TypeShape::EngineArray), p(TypeShape::TypedArrayRef)],
        ReturnShape::Default,
    );
    let u = transform(&sig, no_flags()).unwrap();
    let d = u.fast.as_ref().unwrap();
    assert_eq!(
        d.args,
        vec![
            WireType::EngineValue,
            WireType::Sequence(CType::Void),
            WireType::TypedArray(CType::Uint32)
        ]
    );
    // Neither is a raw buffer needing an aligned view.
    assert!(d.buffers.is_empty());
    assert!(!d.has_options);
}

#[test]
fn u32_slice_buffer_slot() {
    let sig = sync_sig("words", vec![p(TypeShape::U32Slice)], ReturnShape::Default);
    let u = transform(&sig, no_flags()).unwrap();
    let d = u.fast.as_ref().unwrap();
    assert_eq!(d.args[1], WireType::TypedArray(CType::Uint32));
    assert_eq!(d.buffers, vec![BufferSlot { position: 0, element: CType::Uint32 }]);
    // A raw buffer forces the trailing callback-options slot for fallback.
    assert_eq!(d.args[2], WireType::CallbackOptions);
    assert_eq!(
        u.generic.args,
        vec![ArgPlan { position: 0, action: MarshalAction::U32BufferView }]
    );
}

#[test]
fn small_scalar_params_not_fast() {
    let sig = sync_sig("tiny", vec![p(TypeShape::Scalar(ScalarKind::U8))], ReturnShape::Default);
    let u = transform(&sig, no_flags()).unwrap();
    assert!(u.fast.is_none());
}

#[test]
fn small_scalar_return_sets_directly() {
    let sig = sync_sig("tiny", vec![], ReturnShape::Value(TypeShape::Scalar(ScalarKind::U8)));
    let u = transform(&sig, no_flags()).unwrap();
    assert!(u.fast.is_none());
    assert_eq!(
        u.generic.kind,
        PathKind::Sync {
            ret: ReturnPlan { fallible: false, on_success: SuccessOutput::SetScalar },
            check_fast_error_slot: false,
        }
    );
}

#[test]
fn parse_flags_accepts_known_words() {
    let words = vec!["unstable".to_string(), "v8".to_string(), "fast".to_string()];
    let flags = parse_flags(&words).unwrap();
    assert!(flags.unstable);
    assert!(flags.requires_engine_handle);
    assert!(flags.must_be_fast);
    assert!(!flags.deferred);
}

#[test]
fn parse_flags_rejects_unknown_word() {
    let words = vec!["unstable".to_string(), "bogus".to_string()];
    assert_eq!(parse_flags(&words), Err(AuthoringError::UnknownFlag));
}

#[test]
fn parse_flags_empty_is_default() {
    let words: Vec<String> = vec![];
    assert_eq!(parse_flags(&words), Ok(no_flags()));
}

#[test]
fn transform_annotated_rejects_unknown_word() {
    let sig = sync_sig("noop", vec![], ReturnShape::Default);
    let words = vec!["fancy".to_string()];
    assert_eq!(transform_annotated(&sig, &words), Err(AuthoringError::UnknownFlag));
}

#[test]
fn transform_annotated_applies_flags() {
    let sig = sync_sig("noop", vec![], ReturnShape::Default);
    let words = vec!["unstable".to_string()];
    let u = transform_annotated(&sig, &words).unwrap();
    assert!(u.unstable);
    assert!(!u.requires_engine_handle);
}

#[test]
fn state_handle_alone_forces_options_slot() {
    let sig = sync_sig("stateful", vec![p(TypeShape::ExclusiveState)], ReturnShape::Default);
    let u = transform(&sig, no_flags()).unwrap();
    let d = u.fast.as_ref().unwrap();
    assert!(d.uses_state);
    assert_eq!(d.args, vec![WireType::EngineValue, WireType::CallbackOptions]);
}

#[test]
fn state_handle_not_leading_disables_fast() {
    let sig = sync_sig(
        "misplaced",
        vec![p(TypeShape::Scalar(ScalarKind::U32)), p(TypeShape::ExclusiveState)],
        ReturnShape::Default,
    );
    let u = transform(&sig, no_flags()).unwrap();
    assert!(u.fast.is_none());
}
