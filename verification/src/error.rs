//! The two recoverable error classes of the boundary layer.
//!
//! A [`Trap`] is a boundary fault: it is what a call across the boundary
//! reports, whether raised by validation at the call edge or by the callee
//! itself. A [`ValidationError`] reports host-API misuse detected before
//! any guest state is touched. Both are ordinary values; nothing in this
//! layer unwinds.

use vstd::prelude::*;

use crate::types::ValType;

verus! {

/// A fault surfaced by a call across the host/guest boundary.
#[allow(inconsistent_fields)]
#[derive(Debug, Clone, PartialEq, Eq)]
pub enum Trap {
    /// A fault the callee itself raised, with its diagnostic message.
    Message(String),
    /// The caller passed the wrong number of arguments.
    ArityMismatch {
        /// How many parameters the callee's type declares.
        expected: usize,
        /// How many arguments the caller passed.
        got: usize,
    },
    /// The caller supplied a result buffer of the wrong length.
    ResultArityMismatch {
        /// How many results the callee's type declares.
        expected: usize,
        /// The length of the buffer the caller passed.
        got: usize,
    },
    /// A value's kind differs from the declared kind of its slot.
    TypeMismatch {
        /// The kind the slot declares.
        expected: ValType,
        /// The kind the value has.
        got: ValType,
    },
    /// A value of this kind cannot be carried through a call slot.
    UnsupportedType(ValType),
}

impl Trap {
    /// Builds a trap carrying a diagnostic message, as a callee does when
    /// it raises a fault of its own.
    pub fn new(message: String) -> (r: Trap)
        ensures
            r == Trap::Message(message),
    {
        Trap::Message(message)
    }
}

/// Host-API misuse detected before any guest state is touched.
#[derive(Debug, Clone, PartialEq, Eq)]
pub enum ValidationError {
    /// A value's kind differs from the declared content or element kind.
    TypeMismatch {
        /// The kind the destination declares.
        expected: ValType,
        /// The kind the value has.
        got: ValType,
    },
    /// A write to a global cell whose type is immutable.
    ImmutableGlobal,
    /// An operation combined items that belong to different stores.
    CrossStore,
    /// An index or range lies outside the current size.
    OutOfBounds,
    /// Growth would exceed the declared maximum, the absolute size limit,
    /// or what the allocator can satisfy.
    GrowFailure,
    /// Size bounds whose initial size already exceeds their maximum.
    InvalidLimits,
}

} // verus!
