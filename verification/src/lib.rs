//! Object-model dispatch core for a dynamic-language runtime.
//!
//! A class advertises optional native behaviours -- being callable, acting as
//! a descriptor, being hashable, supporting rich comparison -- through a
//! per-class slot table of optional forwarding functions.  The interpreter
//! resolves, at any call site, whether an arbitrary object supports one of
//! these behaviours by a single slot read, while the forwarding functions
//! re-resolve the live magic-method attribute on every invocation, so a
//! redefinition is observed immediately.

pub mod cmp_op;
pub mod flags;
pub mod object;
pub mod protocols;
pub mod slots;
pub mod vm;
