//! Signature and lifetime registry for an embeddable, dynamically typed
//! scripting runtime.
//!
//! The registry stores one [`sig::Dfn`] per function: its parameter types,
//! one lifetime constraint per parameter, and a return type. Built-in
//! operations are seeded at fixed indices, externally supplied signatures and
//! a module's own declared functions are layered on top, and later entries
//! shadow earlier ones that share a name while every entry stays retrievable
//! by its original index.

pub mod loader;
pub mod registry;
pub mod sig;
pub mod snake;
