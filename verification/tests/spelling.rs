use op_dispatch::syntax::Mutability;
use op_dispatch::syntax::ReturnShape;
use op_dispatch::syntax::ScalarKind;
use op_dispatch::syntax::TypeShape;
use op_dispatch::text::parse_param_shape;
use op_dispatch::text::parse_return_shape;

#[test]
fn scalar_spellings() {
    assert_eq!(parse_param_shape("u32"), TypeShape::Scalar(ScalarKind::U32));
    assert_eq!(parse_param_shape("f64"), TypeShape::Scalar(ScalarKind::F64));
    assert_eq!(parse_param_shape("bool"), TypeShape::Scalar(ScalarKind::Bool));
    assert_eq!(parse_param_shape("()"), TypeShape::Unit);
}

#[test]
fn string_and_slice_spellings() {
    assert_eq!(parse_param_shape("String"), TypeShape::Utf8String);
    assert_eq!(parse_param_shape("Option < String >"), TypeShape::OptionalUtf8String);
    assert_eq!(parse_param_shape("& [u8]"), TypeShape::ByteSlice(Mutability::Shared));
    assert_eq!(parse_param_shape("& mut [u8]"), TypeShape::ByteSlice(Mutability::Exclusive));
    assert_eq!(parse_param_shape("& mut [u32]"), TypeShape::U32Slice);
}

#[test]
fn handle_spellings() {
    assert_eq!(parse_param_shape("ResourceId"), TypeShape::ResourceId);
    assert_eq!(parse_param_shape("deno_core :: ResourceId"), TypeShape::ResourceId);
    assert_eq!(parse_param_shape("& mut OpState"), TypeShape::ExclusiveState);
    assert_eq!(parse_param_shape("& mut deno_core :: OpState"), TypeShape::ExclusiveState);
    assert_eq!(parse_param_shape("Rc < RefCell < OpState > >"), TypeShape::SharedState);
    assert_eq!(
        parse_param_shape("& mut v8 :: HandleScope < 'scope >"),
        TypeShape::ScopeHandle
    );
    assert_eq!(
        parse_param_shape("Option < & mut FastApiCallbackOptions >"),
        TypeShape::CallbackOptions
    );
}

#[test]
fn engine_value_spellings() {
    assert_eq!(parse_param_shape("serde_v8 :: Value"), TypeShape::EngineValue);
    assert_eq!(parse_param_shape("v8 :: Local < v8 :: Array >"), TypeShape::EngineArray);
    assert_eq!(
        parse_param_shape("& deno_core :: FastApiTypedArray < u32 >"),
        TypeShape::TypedArrayRef
    );
}

#[test]
fn qualified_handle_spellings() {
    assert_eq!(
        parse_param_shape("Rc < RefCell < deno_core :: OpState > >"),
        TypeShape::SharedState
    );
    assert_eq!(parse_param_shape("& mut v8 :: HandleScope"), TypeShape::ScopeHandle);
    assert_eq!(
        parse_param_shape("& mut deno_core :: v8 :: HandleScope < 'a >"),
        TypeShape::ScopeHandle
    );
}

#[test]
fn foreign_handle_spellings_are_missed() {
    // Only the bare and embedding-crate-qualified spellings are handles;
    // a superficially similar path stays unrecognized and is marshalled
    // generically.
    assert_eq!(parse_param_shape("& mut my_state :: OpState"), TypeShape::Unrecognized);
    assert_eq!(
        parse_param_shape("Rc < RefCell < my_state :: OpState > >"),
        TypeShape::Unrecognized
    );
    assert_eq!(parse_param_shape("& mut MyHandleScopeWrapper"), TypeShape::Unrecognized);
    assert_eq!(parse_param_shape("my_rt :: ResourceId"), TypeShape::Unrecognized);
    assert_eq!(
        parse_param_shape("& mut v8 :: HandleScope < u32 >"),
        TypeShape::Unrecognized
    );
}

#[test]
fn unknown_spelling_degrades() {
    // An alias hiding a recognized form stays unrecognized: the miss is
    // deliberate and conservative.
    assert_eq!(parse_param_shape("MyBytes"), TypeShape::Unrecognized);
    assert_eq!(parse_param_shape("Vec < u8 >"), TypeShape::Unrecognized);
}

#[test]
fn plain_result_return() {
    assert_eq!(
        parse_return_shape("Result < u32 , AnyError >", true),
        ReturnShape::Fallible(TypeShape::Scalar(ScalarKind::U32))
    );
    assert_eq!(
        parse_return_shape("Result < () , AnyError >", true),
        ReturnShape::Fallible(TypeShape::Unit)
    );
    assert_eq!(
        parse_return_shape("Result < String , AnyError >", true),
        ReturnShape::Fallible(TypeShape::Utf8String)
    );
}

#[test]
fn qualified_result_alias_detected() {
    // An `io::Result`-style alias counts as a result only when nothing
    // parameterized precedes it.
    assert_eq!(
        parse_return_shape("io :: Result < u32 >", true),
        ReturnShape::Fallible(TypeShape::Scalar(ScalarKind::U32))
    );
    assert_eq!(
        parse_return_shape("Vec < io :: Result < u32 > >", true),
        ReturnShape::Value(TypeShape::Unrecognized)
    );
}

#[test]
fn opaque_result_alias_is_missed() {
    // A renamed alias that hides the result spelling is treated as a plain
    // dynamic value, never resolved.
    assert_eq!(
        parse_return_shape("MyResult < u32 , AnyError >", true),
        ReturnShape::Value(TypeShape::Unrecognized)
    );
}

#[test]
fn future_returns() {
    assert_eq!(
        parse_return_shape("impl Future < Output = u32 >", true),
        ReturnShape::Future
    );
    assert_eq!(
        parse_return_shape("Result < impl Future < Output = Result < u32 , E > > , E >", true),
        ReturnShape::FallibleFuture
    );
}

#[test]
fn missing_return_type_is_default() {
    assert_eq!(parse_return_shape("", false), ReturnShape::Default);
}

#[test]
fn plain_value_returns() {
    assert_eq!(parse_return_shape("String", true), ReturnShape::Value(TypeShape::Utf8String));
    assert_eq!(
        parse_return_shape("ResourceId", true),
        ReturnShape::Value(TypeShape::ResourceId)
    );
    assert_eq!(
        parse_return_shape("u32", true),
        ReturnShape::Value(TypeShape::Scalar(ScalarKind::U32))
    );
}
