//! The syntactic model of a host function signature.
//!
//! The authoring front end parses the native function once and hands this
//! core a structured picture of it: every parameter type is reduced to one
//! of a closed set of recognized shapes, with everything else folded into
//! `TypeShape::Unrecognized`. Recognition is purely textual on the front
//! end's side, so an alias that hides a recognized spelling deliberately
//! degrades to `Unrecognized` rather than being resolved.

use vstd::prelude::*;

verus! {

/// The scalar spellings recognized in a host function signature.
#[derive(Clone, Copy, Debug, PartialEq, Eq, Structural)]
pub enum ScalarKind {
    U8,
    U16,
    U32,
    I32,
    U64,
    I64,
    Usize,
    Isize,
    F32,
    F64,
    Bool,
}

/// Whether a buffer view is shared (read-only) or exclusive (writable).
#[derive(Clone, Copy, Debug, PartialEq, Eq, Structural)]
pub enum Mutability {
    Shared,
    Exclusive,
}

/// The closed set of type shapes a signature position can take.
#[derive(Clone, Copy, Debug, PartialEq, Eq, Structural)]
pub enum TypeShape {
    /// The unit type, written out explicitly.
    Unit,
    /// A recognized scalar spelling.
    Scalar(ScalarKind),
    /// The resource-handle alias: scalar-shaped, `u32` on the wire.
    ResourceId,
    /// An owned UTF-8 string.
    Utf8String,
    /// An optional owned UTF-8 string.
    OptionalUtf8String,
    /// A borrowed byte slice, shared or exclusive.
    ByteSlice(Mutability),
    /// An exclusive borrowed slice of 32-bit words.
    U32Slice,
    /// The engine's dynamic value type, passed through unmarshalled.
    EngineValue,
    /// A handle to an engine array value.
    EngineArray,
    /// A borrowed view of an engine typed array of 32-bit words.
    TypedArrayRef,
    /// The shared, reference-counted execution state container.
    SharedState,
    /// An exclusive borrow of the execution state.
    ExclusiveState,
    /// The per-call engine scope handle.
    ScopeHandle,
    /// The optional callback-options handle carrying the fallback flag.
    CallbackOptions,
    /// Any spelling outside the recognized set.
    Unrecognized,
}

/// One parameter position: its type shape, and whether the author bound it
/// to a wildcard pattern instead of a name.
#[derive(Clone, Copy, Debug, PartialEq, Eq, Structural)]
pub struct Param {
    pub shape: TypeShape,
    pub ignored: bool,
}

/// The syntactic shape of the declared return type.
#[derive(Clone, Copy, Debug, PartialEq, Eq, Structural)]
pub enum ReturnShape {
    /// No declared return type.
    Default,
    /// A plain value of the given shape.
    Value(TypeShape),
    /// A fallible result whose success payload has the given shape.
    Fallible(TypeShape),
    /// A deferred computation returned directly by a non-`async` function.
    Future,
    /// A fallible result whose success payload is a deferred computation.
    FallibleFuture,
}

/// A parsed host function signature, as the front end hands it over.
#[derive(Clone, Debug, PartialEq)]
pub struct Signature {
    pub name: String,
    pub params: Vec<Param>,
    pub ret: ReturnShape,
    /// Whether the function is declared with the language's `async` keyword.
    pub is_async: bool,
}

/// The authoring flags accepted on the annotation.
#[derive(Clone, Copy, Debug, PartialEq, Eq, Structural)]
pub struct TransformFlags {
    pub unstable: bool,
    pub requires_engine_handle: bool,
    pub must_be_fast: bool,
    pub deferred: bool,
}

/// The fatal authoring errors reported at transform time.
#[derive(Clone, Copy, Debug, PartialEq, Eq, Structural)]
pub enum AuthoringError {
    /// An annotation word outside the accepted flag set.
    UnknownFlag,
    /// A function marked as must-be-fast is asynchronous.
    FastRequiresSync,
    /// A function marked as must-be-fast has a signature the restricted
    /// calling convention cannot represent.
    FastIneligible,
}

/// A signature is asynchronous if it is declared `async` or if it returns a
/// deferred computation directly.
pub open spec fn sig_is_async(sig: Signature) -> bool {
    sig.is_async || sig.ret == ReturnShape::Future || sig.ret == ReturnShape::FallibleFuture
}

/// Whether the function's declared return type is asynchronous in shape,
/// as an executable check.
pub fn signature_is_async(sig: &Signature) -> (r: bool)
    ensures
        r == sig_is_async(*sig),
{
    sig.is_async || matches!(sig.ret, ReturnShape::Future | ReturnShape::FallibleFuture)
}

/// The accepted annotation words.
pub open spec fn known_flag_word(w: Seq<char>) -> bool {
    ||| w == "unstable"@
    ||| w == "v8"@
    ||| w == "fast"@
    ||| w == "deferred"@
}

/// The flags named by a list of annotation words.
pub open spec fn flags_of_words(ws: Seq<Seq<char>>) -> TransformFlags {
    TransformFlags {
        unstable: ws.contains("unstable"@),
        requires_engine_handle: ws.contains("v8"@),
        must_be_fast: ws.contains("fast"@),
        deferred: ws.contains("deferred"@),
    }
}

/// What parsing an annotation word list yields: the flag set, or the fatal
/// authoring error if any word is outside the accepted set.
pub open spec fn parse_flags_spec(ws: Seq<Seq<char>>) -> Result<TransformFlags, AuthoringError> {
    if forall|i: int| 0 <= i < ws.len() ==> known_flag_word(ws[i]) {
        Ok(flags_of_words(ws))
    } else {
        Err(AuthoringError::UnknownFlag)
    }
}

/// Parse the annotation's word list into the flag set. An unrecognized word
/// is a fatal authoring error.
pub fn parse_flags(words: &Vec<String>) -> (r: Result<TransformFlags, AuthoringError>)
    ensures
        r == parse_flags_spec(words@.map_values(|w: String| w@)),
{
    let lit_unstable: String = "unstable".to_owned();
    let lit_v8: String = "v8".to_owned();
    let lit_fast: String = "fast".to_owned();
    let lit_deferred: String = "deferred".to_owned();
    let ghost ws: Seq<Seq<char>> = words@.map_values(|w: String| w@);
    let mut unstable = false;
    let mut v8 = false;
    let mut fast = false;
    let mut deferred = false;
    let mut i: usize = 0;
    while i < words.len()
        invariant
            0 <= i <= words.len(),
            ws == words@.map_values(|w: String| w@),
            lit_unstable@ == "unstable"@,
            lit_v8@ == "v8"@,
            lit_fast@ == "fast"@,
            lit_deferred@ == "deferred"@,
            forall|j: int| 0 <= j < i ==> known_flag_word(ws[j]),
            unstable == exists|j: int| 0 <= j < i && ws[j] == "unstable"@,
            v8 == exists|j: int| 0 <= j < i && ws[j] == "v8"@,
            fast == exists|j: int| 0 <= j < i && ws[j] == "fast"@,
            deferred == exists|j: int| 0 <= j < i && ws[j] == "deferred"@,
        decreases words.len() - i,
    {
        let hit_unstable = words[i] == lit_unstable;
        let hit_v8 = words[i] == lit_v8;
        let hit_fast = words[i] == lit_fast;
        let hit_deferred = words[i] == lit_deferred;
        proof {
            assert(ws[i as int] == words@[i as int]@);
            assert(hit_unstable == (ws[i as int] == "unstable"@));
            assert(hit_v8 == (ws[i as int] == "v8"@));
            assert(hit_fast == (ws[i as int] == "fast"@));
            assert(hit_deferred == (ws[i as int] == "deferred"@));
        }
        if !(hit_unstable || hit_v8 || hit_fast || hit_deferred) {
            assert(!known_flag_word(ws[i as int]));
            return Err(AuthoringError::UnknownFlag);
        }
        unstable = unstable || hit_unstable;
        v8 = v8 || hit_v8;
        fast = fast || hit_fast;
        deferred = deferred || hit_deferred;
        i = i + 1;
    }
    proof {
        assert(unstable == ws.contains("unstable"@));
        assert(v8 == ws.contains("v8"@));
        assert(fast == ws.contains("fast"@));
        assert(deferred == ws.contains("deferred"@));
    }
    Ok(TransformFlags { unstable, requires_engine_handle: v8, must_be_fast: fast, deferred })
}

} // verus!
