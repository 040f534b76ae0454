//! A verified callback-binding protocol for a native GUI toolkit.
//!
//! The native toolkit stores opaque attribute values on widget handles and
//! fires named events through raw function pointers.  The host side wants to
//! hand it closures with captured state.  This crate verifies the ownership
//! protocol that bridges the two: each named callback owns at most one bound
//! closure, registering replaces (and returns) the previous one, releasing
//! detaches it exactly once, and teardown releases every binding in a fixed,
//! safety-critical order before the native handle is reclaimed.

pub mod binding;
pub mod callback;
pub mod handle;
pub mod key;
pub mod protocol;
