//! A verified model of the host/guest boundary layer of a sandboxed
//! bytecode execution engine.
//!
//! The crate covers the value marshaler that moves typed values in and out
//! of fixed-width call slots, the trampoline invoker that bridges a host
//! call into a guest-callable function, the generator that turns a
//! host-supplied callable into such a function, and the external object
//! model: typed handles over the globals, tables and linear memories that
//! an instance owns.
//!
//! Storage is held canonically by a [`store::Store`]; the handle types
//! ([`externals::Global`], [`externals::Table`], [`externals::Memory`],
//! [`callable::Func`]) are small copyable tokens naming a slot of that
//! arena, so aliasing raw pointers never arise and every access is
//! bounds- and type-checked.

pub mod callable;
pub mod dummy;
pub mod error;
pub mod externals;
pub mod laws;
pub mod store;
pub mod types;
pub mod values;
