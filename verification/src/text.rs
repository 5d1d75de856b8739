//! The textual half of the type classifier.
//!
//! The front end hands over each type as its token text (tokens separated by
//! single spaces, as the token stream prints itself); this module decides,
//! by pure pattern matching on that text, which recognized shape it spells.
//! Matching is deliberately conservative: a spelling outside the table —
//! including an alias that hides a recognized form — degrades to
//! `Unrecognized` and takes the generic path.

use vstd::prelude::*;
use vstd::string::StrSliceExecFns;
use crate::syntax::{Mutability, ReturnShape, ScalarKind, TypeShape};

verus! {

/// `p` is a prefix of `t`.
pub open spec fn has_prefix(t: Seq<char>, p: Seq<char>) -> bool {
    p.len() <= t.len() && t.take(p.len() as int) == p
}

/// `p` is a suffix of `t`.
pub open spec fn has_suffix(t: Seq<char>, p: Seq<char>) -> bool {
    p.len() <= t.len() && t.skip(t.len() - p.len()) == p
}

/// `p` occurs in `t` starting at position `i`.
pub open spec fn occurs_at(t: Seq<char>, p: Seq<char>, i: int) -> bool {
    0 <= i && i + p.len() <= t.len() && t.subrange(i, i + p.len()) == p
}

/// `p` occurs somewhere in `t`.
pub open spec fn contains_text(t: Seq<char>, p: Seq<char>) -> bool {
    exists|i: int| occurs_at(t, p, i)
}

/// The character `c` does not occur before position `i`.
pub open spec fn no_char_before(t: Seq<char>, c: char, i: int) -> bool {
    forall|j: int| 0 <= j < i ==> t[j] != c
}

/// The position of the first occurrence of `c` in `t`, or -1.
pub open spec fn first_index(t: Seq<char>, c: char) -> int
    decreases t.len(),
{
    if t.len() == 0 {
        -1
    } else if t[0] == c {
        0
    } else {
        let r = first_index(t.drop_first(), c);
        if r < 0 {
            -1
        } else {
            1 + r
        }
    }
}

/// A first occurrence pins `first_index` down.
pub proof fn lemma_first_index_is(t: Seq<char>, c: char, i: int)
    requires
        0 <= i < t.len(),
        t[i] == c,
        no_char_before(t, c, i),
    ensures
        first_index(t, c) == i,
    decreases t.len(),
{
    if i > 0 {
        assert(t[0] != c);
        assert(t.drop_first()[i - 1] == c);
        assert forall|j: int| 0 <= j < i - 1 implies t.drop_first()[j] != c by {
            assert(t.drop_first()[j] == t[j + 1]);
        }
        lemma_first_index_is(t.drop_first(), c, i - 1);
    }
}

/// No occurrence at all pins `first_index` to -1.
pub proof fn lemma_first_index_none(t: Seq<char>, c: char)
    requires
        no_char_before(t, c, t.len() as int),
    ensures
        first_index(t, c) == -1,
    decreases t.len(),
{
    if t.len() > 0 {
        assert forall|j: int| 0 <= j < t.drop_first().len() implies t.drop_first()[j] != c by {
            assert(t.drop_first()[j] == t[j + 1]);
        }
        lemma_first_index_none(t.drop_first(), c);
    }
}

/// `t` without its leading spaces.
pub open spec fn trim_start_text(t: Seq<char>) -> Seq<char>
    decreases t.len(),
{
    if t.len() > 0 && t[0] == ' ' {
        trim_start_text(t.drop_first())
    } else {
        t
    }
}

/// `t` without its trailing spaces.
pub open spec fn trim_end_text(t: Seq<char>) -> Seq<char>
    decreases t.len(),
{
    if t.len() > 0 && t.last() == ' ' {
        trim_end_text(t.drop_last())
    } else {
        t
    }
}

/// `t` without leading and trailing spaces.
pub open spec fn trim_text(t: Seq<char>) -> Seq<char> {
    trim_end_text(trim_start_text(t))
}

/// `t` without its trailing closing angle brackets.
pub open spec fn strip_trailing_gt(t: Seq<char>) -> Seq<char>
    decreases t.len(),
{
    if t.len() > 0 && t.last() == '>' {
        strip_trailing_gt(t.drop_last())
    } else {
        t
    }
}

/// A word character of a lifetime name.
pub open spec fn is_word_char(c: char) -> bool {
    ||| ('a' as u32 <= c as u32 && c as u32 <= 'z' as u32)
    ||| ('A' as u32 <= c as u32 && c as u32 <= 'Z' as u32)
    ||| ('0' as u32 <= c as u32 && c as u32 <= '9' as u32)
    ||| c == '_'
}

/// An optional lifetime-argument suffix: empty, or ` < 'name >` with a
/// non-empty word-character name.
pub open spec fn is_lifetime_suffix(s: Seq<char>) -> bool {
    ||| s.len() == 0
    ||| {
        &&& s.len() >= 7
        &&& has_prefix(s, " < '"@)
        &&& has_suffix(s, " >"@)
        &&& forall|j: int| 4 <= j < s.len() - 2 ==> is_word_char(#[trigger] s[j])
    }
}

/// The text is the given scope-handle spelling, optionally followed by one
/// lifetime argument.
pub open spec fn scope_spelling(t: Seq<char>, p: Seq<char>) -> bool {
    has_prefix(t, p) && is_lifetime_suffix(t.skip(p.len() as int))
}

/// The scope-handle spellings: anchored on the engine's scope type, bare or
/// qualified by the embedding crate, with an optional lifetime.
pub open spec fn is_scope_handle_text(t: Seq<char>) -> bool {
    ||| scope_spelling(t, "& mut v8 :: HandleScope"@)
    ||| scope_spelling(t, "& mut deno_core :: v8 :: HandleScope"@)
}

/// The table of recognized parameter-type spellings. Every rule is exact or
/// anchored: the handle types are spelled bare or qualified by the embedding
/// crate, nothing else; the options, engine-value and typed-array rules use
/// the original containment tests. Anything else is unrecognized.
pub open spec fn shape_of_text(t: Seq<char>) -> TypeShape {
    if t == "()"@ {
        TypeShape::Unit
    } else if t == "u8"@ {
        TypeShape::Scalar(ScalarKind::U8)
    } else if t == "u16"@ {
        TypeShape::Scalar(ScalarKind::U16)
    } else if t == "u32"@ {
        TypeShape::Scalar(ScalarKind::U32)
    } else if t == "i32"@ {
        TypeShape::Scalar(ScalarKind::I32)
    } else if t == "u64"@ {
        TypeShape::Scalar(ScalarKind::U64)
    } else if t == "i64"@ {
        TypeShape::Scalar(ScalarKind::I64)
    } else if t == "usize"@ {
        TypeShape::Scalar(ScalarKind::Usize)
    } else if t == "isize"@ {
        TypeShape::Scalar(ScalarKind::Isize)
    } else if t == "f32"@ {
        TypeShape::Scalar(ScalarKind::F32)
    } else if t == "f64"@ {
        TypeShape::Scalar(ScalarKind::F64)
    } else if t == "bool"@ {
        TypeShape::Scalar(ScalarKind::Bool)
    } else if t == "String"@ {
        TypeShape::Utf8String
    } else if t == "Option < String >"@ {
        TypeShape::OptionalUtf8String
    } else if t == "& [u8]"@ {
        TypeShape::ByteSlice(Mutability::Shared)
    } else if t == "& mut [u8]"@ {
        TypeShape::ByteSlice(Mutability::Exclusive)
    } else if t == "& mut [u32]"@ {
        TypeShape::U32Slice
    } else if t == "ResourceId"@ || t == "deno_core :: ResourceId"@ {
        TypeShape::ResourceId
    } else if t == "& mut OpState"@ || t == "& mut deno_core :: OpState"@ {
        TypeShape::ExclusiveState
    } else if t == "Rc < RefCell < OpState > >"@ || t
        == "Rc < RefCell < deno_core :: OpState > >"@ {
        TypeShape::SharedState
    } else if is_scope_handle_text(t) {
        TypeShape::ScopeHandle
    } else if contains_text(t, "Option < & mut FastApiCallbackOptions"@) {
        TypeShape::CallbackOptions
    } else if contains_text(t, "serde_v8 :: Value"@) {
        TypeShape::EngineValue
    } else if t == "v8 :: Local < v8 :: Array >"@ {
        TypeShape::EngineArray
    } else if has_prefix(t, "&"@) && contains_text(t, "FastApiTypedArray"@) {
        TypeShape::TypedArrayRef
    } else {
        TypeShape::Unrecognized
    }
}

/// A qualified result alias (`io :: Result < .. >`) is detected only where
/// its first occurrence is not preceded by any `<`: a result nested inside
/// another type's arguments is deliberately not treated as the return's own
/// result shape.
pub open spec fn result_alias_detected(t: Seq<char>) -> bool {
    exists|i: int| occurs_at(t, ":: Result <"@, i) && no_char_before(t, '<', i)
}

/// The return type spells a fallible result: the plain spelling, or a
/// detected alias. Conservative: an alias that obscures the result shape is
/// not detected.
pub open spec fn text_is_result(t: Seq<char>) -> bool {
    has_prefix(t, "Result <"@) || result_alias_detected(t)
}

/// The success-payload text of a result spelling: the text between the
/// first `<` and the first following `,` (or the trailing `>` run),
/// trimmed.
pub open spec fn result_payload_text(t: Seq<char>) -> Seq<char> {
    let i = first_index(t, '<');
    if i < 0 {
        Seq::empty()
    } else {
        let inner = trim_text(t.skip(i + 1));
        let j = first_index(inner, ',');
        if j >= 0 {
            trim_text(inner.take(j))
        } else {
            trim_text(strip_trailing_gt(inner))
        }
    }
}

/// The return shape a return-type text spells; `has_type` is false where
/// the function declares no return type.
pub open spec fn return_shape_of_text(t: Seq<char>, has_type: bool) -> ReturnShape {
    if !has_type {
        ReturnShape::Default
    } else {
        let future = contains_text(t, "impl Future < Output ="@);
        let result = text_is_result(t);
        if future && result {
            ReturnShape::FallibleFuture
        } else if future {
            ReturnShape::Future
        } else if result {
            ReturnShape::Fallible(shape_of_text(result_payload_text(t)))
        } else {
            ReturnShape::Value(shape_of_text(t))
        }
    }
}

/// The characters of a text, in order.
fn text_chars(s: &str) -> (r: Vec<char>)
    ensures
        r@ == s@,
{
    let n = s.unicode_len();
    let mut r: Vec<char> = Vec::new();
    let mut i: usize = 0;
    while i < n
        invariant
            n == s@.len(),
            0 <= i <= n,
            r@ == s@.take(i as int),
        decreases n - i,
    {
        r.push(s.get_char(i));
        proof {
            assert(r@ =~= s@.take(i + 1));
        }
        i = i + 1;
    }
    proof {
        assert(s@.take(n as int) =~= s@);
    }
    r
}

/// Character-sequence equality.
fn chars_eq(a: &Vec<char>, b: &Vec<char>) -> (r: bool)
    ensures
        r == (a@ == b@),
{
    if a.len() != b.len() {
        return false;
    }
    let mut i: usize = 0;
    while i < a.len()
        invariant
            a@.len() == b@.len(),
            0 <= i <= a@.len(),
            forall|j: int| 0 <= j < i ==> a@[j] == b@[j],
        decreases a@.len() - i,
    {
        if a[i] != b[i] {
            return false;
        }
        i = i + 1;
    }
    proof {
        assert(a@ =~= b@);
    }
    true
}

/// Whether `p` occurs in `t` at position `i`.
fn matches_at(t: &Vec<char>, p: &Vec<char>, i: usize) -> (r: bool)
    requires
        i + p@.len() <= t@.len(),
    ensures
        r == occurs_at(t@, p@, i as int),
{
    let tl = t.len();
    let pl = p.len();
    let mut j: usize = 0;
    while j < pl
        invariant
            tl == t@.len(),
            pl == p@.len(),
            i + p@.len() <= t@.len(),
            0 <= j <= p@.len(),
            forall|m: int| 0 <= m < j ==> t@[i + m] == p@[m],
        decreases p@.len() - j,
    {
        if t[i + j] != p[j] {
            proof {
                assert(t@.subrange(i as int, i + p@.len())[j as int] == t@[i + j]);
            }
            return false;
        }
        j = j + 1;
    }
    proof {
        assert(t@.subrange(i as int, i + p@.len()) =~= p@);
    }
    true
}

/// Whether `p` is a prefix of `t`.
fn starts_with_chars(t: &Vec<char>, p: &Vec<char>) -> (r: bool)
    ensures
        r == has_prefix(t@, p@),
{
    if p.len() > t.len() {
        return false;
    }
    let r = matches_at(t, p, 0);
    proof {
        assert(t@.take(p@.len() as int) =~= t@.subrange(0, p@.len() as int));
    }
    r
}

/// Whether `p` is a suffix of `t`.
fn ends_with_chars(t: &Vec<char>, p: &Vec<char>) -> (r: bool)
    ensures
        r == has_suffix(t@, p@),
{
    if p.len() > t.len() {
        return false;
    }
    let i = t.len() - p.len();
    let r = matches_at(t, p, i);
    proof {
        assert(t@.skip(t@.len() - p@.len()) =~= t@.subrange(
            t@.len() - p@.len(),
            t@.len() as int,
        ));
    }
    r
}

/// Whether `p` occurs anywhere in `t`.
fn contains_chars(t: &Vec<char>, p: &Vec<char>) -> (r: bool)
    ensures
        r == contains_text(t@, p@),
{
    let n = t.len();
    let m = p.len();
    if m > n {
        proof {
            assert forall|i: int| !occurs_at(t@, p@, i) by {}
        }
        return false;
    }
    if m == 0 {
        proof {
            assert(t@.subrange(0, 0) =~= p@);
            assert(occurs_at(t@, p@, 0));
        }
        return true;
    }
    let mut i: usize = 0;
    while i <= n - m
        invariant
            1 <= m <= n,
            n == t@.len(),
            m == p@.len(),
            0 <= i <= n - m + 1,
            forall|j: int| 0 <= j < i ==> !occurs_at(t@, p@, j),
        decreases n - m + 1 - i,
    {
        if matches_at(t, p, i) {
            return true;
        }
        i = i + 1;
    }
    proof {
        assert forall|j: int| !occurs_at(t@, p@, j) by {
            if 0 <= j <= n - m {
                assert(!occurs_at(t@, p@, j));
            }
        }
    }
    false
}

/// The first position of `c` in `t`, if any, with nothing equal before it.
fn find_first_char(t: &Vec<char>, c: char) -> (r: Option<usize>)
    ensures
        r matches Some(i) ==> (i < t@.len() && t@[i as int] == c && no_char_before(
            t@,
            c,
            i as int,
        )),
        r is None ==> no_char_before(t@, c, t@.len() as int),
{
    let mut i: usize = 0;
    while i < t.len()
        invariant
            0 <= i <= t@.len(),
            forall|j: int| 0 <= j < i ==> t@[j] != c,
        decreases t@.len() - i,
    {
        if t[i] == c {
            return Some(i);
        }
        i = i + 1;
    }
    None
}

/// A qualified result alias is detected iff its first occurrence has no
/// `<` before it.
fn detect_result_alias(t: &Vec<char>, p: &Vec<char>) -> (r: bool)
    requires
        p@ == ":: Result <"@,
    ensures
        r == result_alias_detected(t@),
{
    let n = t.len();
    let m = p.len();
    if m > n {
        proof {
            assert forall|i: int| !occurs_at(t@, p@, i) by {}
        }
        return false;
    }
    if m == 0 {
        proof {
            assert(t@.subrange(0, 0) =~= p@);
            assert(occurs_at(t@, p@, 0) && no_char_before(t@, '<', 0));
        }
        return true;
    }
    let mut i: usize = 0;
    while i <= n - m
        invariant
            1 <= m <= n,
            n == t@.len(),
            m == p@.len(),
            p@ == ":: Result <"@,
            0 <= i <= n - m + 1,
            forall|j: int| 0 <= j < i ==> !occurs_at(t@, p@, j),
        decreases n - m + 1 - i,
    {
        if matches_at(t, p, i) {
            let mut k: usize = 0;
            let mut seen = false;
            while k < i
                invariant
                    i <= n,
                    n == t@.len(),
                    0 <= k <= i,
                    seen == exists|j: int| 0 <= j < k && t@[j] == '<',
                decreases i - k,
            {
                if t[k] == '<' {
                    seen = true;
                }
                k = k + 1;
            }
            if !seen {
                proof {
                    assert(occurs_at(t@, p@, i as int) && no_char_before(t@, '<', i as int));
                }
                return true;
            } else {
                proof {
                    let j0 = choose|j: int| 0 <= j < i && t@[j] == '<';
                    assert forall|ii: int| occurs_at(t@, p@, ii) implies !no_char_before(
                        t@,
                        '<',
                        ii,
                    ) by {
                        if ii < i {
                            assert(!occurs_at(t@, p@, ii));
                        } else {
                            assert(0 <= j0 < ii && t@[j0] == '<');
                        }
                    }
                }
                return false;
            }
        }
        i = i + 1;
    }
    proof {
        assert forall|j: int| !occurs_at(t@, p@, j) by {
            if 0 <= j <= n - m {
                assert(!occurs_at(t@, p@, j));
            }
        }
    }
    false
}

/// `v` without its leading spaces.
fn trim_start_chars(v: Vec<char>) -> (r: Vec<char>)
    ensures
        r@ == trim_start_text(v@),
{
    let ghost orig = v@;
    let mut v = v;
    while v.len() > 0 && v[0] == ' '
        invariant
            trim_start_text(orig) == trim_start_text(v@),
        decreases v@.len(),
    {
        let ghost before = v@;
        v.remove(0);
        proof {
            assert(v@ =~= before.drop_first());
        }
    }
    v
}

/// `v` without its trailing spaces.
fn trim_end_chars(v: Vec<char>) -> (r: Vec<char>)
    ensures
        r@ == trim_end_text(v@),
{
    let ghost orig = v@;
    let mut v = v;
    while v.len() > 0 && v[v.len() - 1] == ' '
        invariant
            trim_end_text(orig) == trim_end_text(v@),
        decreases v@.len(),
    {
        let ghost before = v@;
        v.pop();
        proof {
            assert(v@ =~= before.drop_last());
        }
    }
    v
}

/// `v` without leading and trailing spaces.
fn trim_chars(v: Vec<char>) -> (r: Vec<char>)
    ensures
        r@ == trim_text(v@),
{
    trim_end_chars(trim_start_chars(v))
}

/// `v` without its trailing closing angle brackets.
fn strip_gt_chars(v: Vec<char>) -> (r: Vec<char>)
    ensures
        r@ == strip_trailing_gt(v@),
{
    let ghost orig = v@;
    let mut v = v;
    while v.len() > 0 && v[v.len() - 1] == '>'
        invariant
            strip_trailing_gt(orig) == strip_trailing_gt(v@),
        decreases v@.len(),
    {
        let ghost before = v@;
        v.pop();
        proof {
            assert(v@ =~= before.drop_last());
        }
    }
    v
}

/// The first `n` characters of `v`.
fn take_chars(v: &Vec<char>, n: usize) -> (r: Vec<char>)
    requires
        n <= v@.len(),
    ensures
        r@ == v@.take(n as int),
{
    let mut r: Vec<char> = Vec::new();
    let mut i: usize = 0;
    while i < n
        invariant
            n <= v@.len(),
            0 <= i <= n,
            r@ == v@.take(i as int),
        decreases n - i,
    {
        r.push(v[i]);
        proof {
            assert(r@ =~= v@.take(i + 1));
        }
        i = i + 1;
    }
    r
}

/// The characters of `v` from position `n` on.
fn skip_chars(v: &Vec<char>, n: usize) -> (r: Vec<char>)
    requires
        n <= v@.len(),
    ensures
        r@ == v@.skip(n as int),
{
    let mut r: Vec<char> = Vec::new();
    let mut i: usize = n;
    while i < v.len()
        invariant
            n <= i <= v@.len(),
            r@ == v@.subrange(n as int, i as int),
        decreases v@.len() - i,
    {
        r.push(v[i]);
        proof {
            assert(r@ =~= v@.subrange(n as int, i + 1));
        }
        i = i + 1;
    }
    proof {
        assert(v@.skip(n as int) =~= v@.subrange(n as int, v@.len() as int));
    }
    r
}

/// Whether a character is a word character of a lifetime name.
fn word_char(c: char) -> (r: bool)
    ensures
        r == is_word_char(c),
{
    (c as u32 >= 'a' as u32 && c as u32 <= 'z' as u32) || (c as u32 >= 'A' as u32 && c as u32
        <= 'Z' as u32) || (c as u32 >= '0' as u32 && c as u32 <= '9' as u32) || c == '_'
}

/// Whether the characters form an optional lifetime-argument suffix.
fn lifetime_suffix_chars(s: &Vec<char>) -> (r: bool)
    ensures
        r == is_lifetime_suffix(s@),
{
    let n = s.len();
    if n == 0 {
        return true;
    }
    if n < 7 {
        return false;
    }
    if !starts_with_chars(s, &text_chars(" < '")) {
        return false;
    }
    if !ends_with_chars(s, &text_chars(" >")) {
        return false;
    }
    let mut j: usize = 4;
    while j < n - 2
        invariant
            n == s@.len(),
            n >= 7,
            4 <= j <= n - 2,
            forall|k: int| 4 <= k < j ==> is_word_char(#[trigger] s@[k]),
        decreases n - 2 - j,
    {
        if !word_char(s[j]) {
            return false;
        }
        j = j + 1;
    }
    true
}

/// Whether the characters spell a scope handle.
fn is_scope_handle_chars(v: &Vec<char>) -> (r: bool)
    ensures
        r == is_scope_handle_text(v@),
{
    let p1 = text_chars("& mut v8 :: HandleScope");
    let d1 = if starts_with_chars(v, &p1) {
        lifetime_suffix_chars(&skip_chars(v, p1.len()))
    } else {
        false
    };
    let p2 = text_chars("& mut deno_core :: v8 :: HandleScope");
    let d2 = if starts_with_chars(v, &p2) {
        lifetime_suffix_chars(&skip_chars(v, p2.len()))
    } else {
        false
    };
    d1 || d2
}

/// The shape a parameter-type token text spells, on its characters.
fn shape_of_chars(v: &Vec<char>) -> (s: TypeShape)
    ensures
        s == shape_of_text(v@),
{
    if chars_eq(v, &text_chars("()")) {
        TypeShape::Unit
    } else if chars_eq(v, &text_chars("u8")) {
        TypeShape::Scalar(ScalarKind::U8)
    } else if chars_eq(v, &text_chars("u16")) {
        TypeShape::Scalar(ScalarKind::U16)
    } else if chars_eq(v, &text_chars("u32")) {
        TypeShape::Scalar(ScalarKind::U32)
    } else if chars_eq(v, &text_chars("i32")) {
        TypeShape::Scalar(ScalarKind::I32)
    } else if chars_eq(v, &text_chars("u64")) {
        TypeShape::Scalar(ScalarKind::U64)
    } else if chars_eq(v, &text_chars("i64")) {
        TypeShape::Scalar(ScalarKind::I64)
    } else if chars_eq(v, &text_chars("usize")) {
        TypeShape::Scalar(ScalarKind::Usize)
    } else if chars_eq(v, &text_chars("isize")) {
        TypeShape::Scalar(ScalarKind::Isize)
    } else if chars_eq(v, &text_chars("f32")) {
        TypeShape::Scalar(ScalarKind::F32)
    } else if chars_eq(v, &text_chars("f64")) {
        TypeShape::Scalar(ScalarKind::F64)
    } else if chars_eq(v, &text_chars("bool")) {
        TypeShape::Scalar(ScalarKind::Bool)
    } else if chars_eq(v, &text_chars("String")) {
        TypeShape::Utf8String
    } else if chars_eq(v, &text_chars("Option < String >")) {
        TypeShape::OptionalUtf8String
    } else if chars_eq(v, &text_chars("& [u8]")) {
        TypeShape::ByteSlice(Mutability::Shared)
    } else if chars_eq(v, &text_chars("& mut [u8]")) {
        TypeShape::ByteSlice(Mutability::Exclusive)
    } else if chars_eq(v, &text_chars("& mut [u32]")) {
        TypeShape::U32Slice
    } else if chars_eq(v, &text_chars("ResourceId")) || chars_eq(
        v,
        &text_chars("deno_core :: ResourceId"),
    ) {
        TypeShape::ResourceId
    } else if chars_eq(v, &text_chars("& mut OpState")) || chars_eq(
        v,
        &text_chars("& mut deno_core :: OpState"),
    ) {
        TypeShape::ExclusiveState
    } else if chars_eq(v, &text_chars("Rc < RefCell < OpState > >")) || chars_eq(
        v,
        &text_chars("Rc < RefCell < deno_core :: OpState > >"),
    ) {
        TypeShape::SharedState
    } else if is_scope_handle_chars(v) {
        TypeShape::ScopeHandle
    } else if contains_chars(v, &text_chars("Option < & mut FastApiCallbackOptions")) {
        TypeShape::CallbackOptions
    } else if contains_chars(v, &text_chars("serde_v8 :: Value")) {
        TypeShape::EngineValue
    } else if chars_eq(v, &text_chars("v8 :: Local < v8 :: Array >")) {
        TypeShape::EngineArray
    } else if starts_with_chars(v, &text_chars("&")) && contains_chars(
        v,
        &text_chars("FastApiTypedArray"),
    ) {
        TypeShape::TypedArrayRef
    } else {
        TypeShape::Unrecognized
    }
}

/// The success-payload text of a result spelling, on its characters.
fn result_payload_chars(v: &Vec<char>) -> (r: Vec<char>)
    ensures
        r@ == result_payload_text(v@),
{
    let n = v.len();
    let i = match find_first_char(v, '<') {
        Some(i) => {
            proof {
                lemma_first_index_is(v@, '<', i as int);
                assert(i < n);
            }
            i
        },
        None => {
            proof {
                lemma_first_index_none(v@, '<');
            }
            let r: Vec<char> = Vec::new();
            proof {
                assert(r@ =~= Seq::<char>::empty());
            }
            return r;
        },
    };
    let inner = trim_chars(skip_chars(v, i + 1));
    match find_first_char(&inner, ',') {
        Some(j) => {
            proof {
                lemma_first_index_is(inner@, ',', j as int);
            }
            trim_chars(take_chars(&inner, j))
        },
        None => {
            proof {
                lemma_first_index_none(inner@, ',');
            }
            trim_chars(strip_gt_chars(inner))
        },
    }
}

/// Classify a parameter-type token text into its recognized shape.
pub fn parse_param_shape(tokens: &str) -> (s: TypeShape)
    ensures
        s == shape_of_text(tokens@),
{
    let v = text_chars(tokens);
    shape_of_chars(&v)
}

/// Classify a return-type token text into its recognized return shape.
/// `has_type` is false where the function declares no return type; the
/// text is ignored then.
pub fn parse_return_shape(tokens: &str, has_type: bool) -> (r: ReturnShape)
    ensures
        r == return_shape_of_text(tokens@, has_type),
{
    if !has_type {
        return ReturnShape::Default;
    }
    let v = text_chars(tokens);
    let future = contains_chars(&v, &text_chars("impl Future < Output ="));
    let result = starts_with_chars(&v, &text_chars("Result <")) || detect_result_alias(
        &v,
        &text_chars(":: Result <"),
    );
    if future && result {
        ReturnShape::FallibleFuture
    } else if future {
        ReturnShape::Future
    } else if result {
        let payload = result_payload_chars(&v);
        ReturnShape::Fallible(shape_of_chars(&payload))
    } else {
        ReturnShape::Value(shape_of_chars(&v))
    }
}

} // verus!
