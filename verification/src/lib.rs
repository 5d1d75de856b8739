//! A compile-time transformer that turns an annotated host function
//! signature into a dual calling-convention dispatch unit for an embedding
//! layer bridging a sandboxed script runtime to native code.
//!
//! Given a parsed signature, the library classifies every parameter and the
//! return type, decides whether a restricted low-overhead calling convention
//! can represent the function, and assembles a `DispatchUnit`: a typed
//! description of the generic marshalling path (always) and of the fast path
//! (when eligible) that a rendering back end or a dispatch engine consumes.

pub mod classify;
pub mod dispatch;
pub mod fast;
pub mod generic;
pub mod laws;
pub mod runtime;
pub mod syntax;
pub mod text;
