//! Boundary values and the value marshaler.
//!
//! A [`Val`] is the tagged union of everything that can cross the
//! host/guest boundary. The marshaler moves a value in and out of one
//! fixed-width call slot ([`slot_of_val`], [`val_of_slot`]); every
//! marshalable kind occupies exactly one slot, whatever its width, and a
//! value whose kind differs from the slot's declared kind is rejected
//! before any raw write occurs.

use vstd::prelude::*;

use crate::callable::Func;
use crate::error::Trap;
use crate::types::ValType;

verus! {

/// A typed value crossing the host/guest boundary. Floating point values
/// are carried as their raw bit patterns, which is all the calling
/// convention moves.
#[derive(Clone, Copy, Debug, PartialEq, Eq, Structural)]
pub enum Val {
    /// A signed 32-bit integer as the guest's numeric type.
    I32(i32),
    /// A signed 64-bit integer as the guest's numeric type.
    I64(i64),
    /// The bit pattern of a 32-bit floating point number.
    F32(u32),
    /// The bit pattern of a 64-bit floating point number.
    F64(u64),
    /// A 128-bit vector.
    V128(u128),
    /// A signed 8-bit integer.
    S8(i8),
    /// An unsigned 8-bit integer.
    U8(u8),
    /// A signed 16-bit integer.
    S16(i16),
    /// An unsigned 16-bit integer.
    U16(u16),
    /// A signed 32-bit integer.
    S32(i32),
    /// An unsigned 32-bit integer.
    U32(u32),
    /// A signed 64-bit integer.
    S64(i64),
    /// An unsigned 64-bit integer.
    U64(u64),
    /// The null reference.
    NullRef,
    /// A reference to a callable function of some store.
    FuncRef(Func),
}

impl Val {
    /// The kind of this value. The null reference has the opaque
    /// reference kind.
    pub open spec fn spec_ty(&self) -> ValType {
        match self {
            Val::I32(_) => ValType::I32,
            Val::I64(_) => ValType::I64,
            Val::F32(_) => ValType::F32,
            Val::F64(_) => ValType::F64,
            Val::V128(_) => ValType::V128,
            Val::S8(_) => ValType::S8,
            Val::U8(_) => ValType::U8,
            Val::S16(_) => ValType::S16,
            Val::U16(_) => ValType::U16,
            Val::S32(_) => ValType::S32,
            Val::U32(_) => ValType::U32,
            Val::S64(_) => ValType::S64,
            Val::U64(_) => ValType::U64,
            Val::NullRef => ValType::AnyRef,
            Val::FuncRef(_) => ValType::FuncRef,
        }
    }

    /// Executable twin of [`Val::spec_ty`].
    #[verifier::when_used_as_spec(spec_ty)]
    pub fn ty(&self) -> (t: ValType)
        ensures
            t == self.spec_ty(),
    {
        match self {
            Val::I32(_) => ValType::I32,
            Val::I64(_) => ValType::I64,
            Val::F32(_) => ValType::F32,
            Val::F64(_) => ValType::F64,
            Val::V128(_) => ValType::V128,
            Val::S8(_) => ValType::S8,
            Val::U8(_) => ValType::U8,
            Val::S16(_) => ValType::S16,
            Val::U16(_) => ValType::U16,
            Val::S32(_) => ValType::S32,
            Val::U32(_) => ValType::U32,
            Val::S64(_) => ValType::S64,
            Val::U64(_) => ValType::U64,
            Val::NullRef => ValType::AnyRef,
            Val::FuncRef(_) => ValType::FuncRef,
        }
    }

    /// Writes this value's raw bits into `slot`, after checking that its
    /// kind equals the slot's declared kind. A mismatch, or a kind that no
    /// slot can carry, fails before anything is written.
    pub fn write_value_to(&self, expected: ValType, slot: &mut u128) -> (r: Result<(), Trap>)
        ensures
            self.spec_ty() != expected ==> r == Err::<(), Trap>(
                Trap::TypeMismatch { expected, got: self.spec_ty() },
            ) && *final(slot) == *old(slot),
            self.spec_ty() == expected && !expected.spec_is_marshalable() ==> r == Err::<(), Trap>(
                Trap::UnsupportedType(expected),
            ) && *final(slot) == *old(slot),
            self.spec_ty() == expected && expected.spec_is_marshalable() ==> r == Ok::<(), Trap>(())
                && *final(slot) == slot_of_val(*self),
    {
        let got = self.ty();
        if got != expected {
            return Err(Trap::TypeMismatch { expected, got });
        }
        match self {
            Val::I32(x) => {
                *slot = (*x as u32) as u128;
                Ok(())
            },
            Val::I64(x) => {
                *slot = (*x as u64) as u128;
                Ok(())
            },
            Val::F32(b) => {
                *slot = *b as u128;
                Ok(())
            },
            Val::F64(b) => {
                *slot = *b as u128;
                Ok(())
            },
            Val::V128(x) => {
                *slot = *x;
                Ok(())
            },
            Val::S8(x) => {
                *slot = (*x as u8) as u128;
                Ok(())
            },
            Val::U8(x) => {
                *slot = *x as u128;
                Ok(())
            },
            Val::S16(x) => {
                *slot = (*x as u16) as u128;
                Ok(())
            },
            Val::U16(x) => {
                *slot = *x as u128;
                Ok(())
            },
            Val::S32(x) => {
                *slot = (*x as u32) as u128;
                Ok(())
            },
            Val::U32(x) => {
                *slot = *x as u128;
                Ok(())
            },
            Val::S64(x) => {
                *slot = (*x as u64) as u128;
                Ok(())
            },
            Val::U64(x) => {
                *slot = *x as u128;
                Ok(())
            },
            Val::NullRef => Err(Trap::UnsupportedType(expected)),
            Val::FuncRef(_) => Err(Trap::UnsupportedType(expected)),
        }
    }

    /// Reconstructs a typed value from `slot` according to the declared
    /// kind. A kind that no slot can carry is rejected.
    pub fn read_value_from(slot: u128, ty: ValType) -> (r: Result<Val, Trap>)
        ensures
            ty.spec_is_marshalable() ==> r == Ok::<Val, Trap>(val_of_slot(slot, ty)),
            !ty.spec_is_marshalable() ==> r == Err::<Val, Trap>(Trap::UnsupportedType(ty)),
    {
        match ty {
            ValType::I32 => Ok(Val::I32((slot as u32) as i32)),
            ValType::I64 => Ok(Val::I64((slot as u64) as i64)),
            ValType::F32 => Ok(Val::F32(slot as u32)),
            ValType::F64 => Ok(Val::F64(slot as u64)),
            ValType::V128 => Ok(Val::V128(slot)),
            ValType::S8 => Ok(Val::S8((slot as u8) as i8)),
            ValType::U8 => Ok(Val::U8(slot as u8)),
            ValType::S16 => Ok(Val::S16((slot as u16) as i16)),
            ValType::U16 => Ok(Val::U16(slot as u16)),
            ValType::S32 => Ok(Val::S32((slot as u32) as i32)),
            ValType::U32 => Ok(Val::U32(slot as u32)),
            ValType::S64 => Ok(Val::S64((slot as u64) as i64)),
            ValType::U64 => Ok(Val::U64(slot as u64)),
            ValType::AnyRef => Err(Trap::UnsupportedType(ty)),
            ValType::FuncRef => Err(Trap::UnsupportedType(ty)),
        }
    }
}

/// The raw bits a marshalable value occupies in its one call slot.
pub open spec fn slot_of_val(v: Val) -> u128 {
    match v {
        Val::I32(x) => (x as u32) as u128,
        Val::I64(x) => (x as u64) as u128,
        Val::F32(b) => b as u128,
        Val::F64(b) => b as u128,
        Val::V128(x) => x,
        Val::S8(x) => (x as u8) as u128,
        Val::U8(x) => x as u128,
        Val::S16(x) => (x as u16) as u128,
        Val::U16(x) => x as u128,
        Val::S32(x) => (x as u32) as u128,
        Val::U32(x) => x as u128,
        Val::S64(x) => (x as u64) as u128,
        Val::U64(x) => x as u128,
        Val::NullRef => 0,
        Val::FuncRef(_) => 0,
    }
}

/// The typed value a slot's raw bits denote under a declared kind. For
/// the reference kinds, which no slot carries, the result is arbitrary.
pub open spec fn val_of_slot(slot: u128, t: ValType) -> Val {
    match t {
        ValType::I32 => Val::I32((slot as u32) as i32),
        ValType::I64 => Val::I64((slot as u64) as i64),
        ValType::F32 => Val::F32(slot as u32),
        ValType::F64 => Val::F64(slot as u64),
        ValType::V128 => Val::V128(slot),
        ValType::S8 => Val::S8((slot as u8) as i8),
        ValType::U8 => Val::U8(slot as u8),
        ValType::S16 => Val::S16((slot as u16) as i16),
        ValType::U16 => Val::U16(slot as u16),
        ValType::S32 => Val::S32((slot as u32) as i32),
        ValType::U32 => Val::U32(slot as u32),
        ValType::S64 => Val::S64((slot as u64) as i64),
        ValType::U64 => Val::U64(slot as u64),
        ValType::AnyRef => Val::NullRef,
        ValType::FuncRef => Val::NullRef,
    }
}

/// Reading a slot under a marshalable kind yields a value of that kind.
pub proof fn lemma_val_of_slot_ty(slot: u128, t: ValType)
    requires
        t.spec_is_marshalable(),
    ensures
        val_of_slot(slot, t).spec_ty() == t,
{
}

/// Marshaling round trip: writing any value of a marshalable kind into a
/// slot and reading the slot back under that same kind yields the original
/// value.
pub proof fn lemma_marshal_roundtrip(v: Val)
    requires
        v.spec_ty().spec_is_marshalable(),
    ensures
        val_of_slot(slot_of_val(v), v.spec_ty()) == v,
{
    match v {
        Val::I32(x) => {
            assert((((x as u32) as u128) as u32) as i32 == x) by (bit_vector);
        },
        Val::I64(x) => {
            assert((((x as u64) as u128) as u64) as i64 == x) by (bit_vector);
        },
        Val::F32(b) => {
            assert(((b as u128) as u32) == b) by (bit_vector);
        },
        Val::F64(b) => {
            assert(((b as u128) as u64) == b) by (bit_vector);
        },
        Val::V128(_) => {},
        Val::S8(x) => {
            assert((((x as u8) as u128) as u8) as i8 == x) by (bit_vector);
        },
        Val::U8(b) => {
            assert(((b as u128) as u8) == b) by (bit_vector);
        },
        Val::S16(x) => {
            assert((((x as u16) as u128) as u16) as i16 == x) by (bit_vector);
        },
        Val::U16(b) => {
            assert(((b as u128) as u16) == b) by (bit_vector);
        },
        Val::S32(x) => {
            assert((((x as u32) as u128) as u32) as i32 == x) by (bit_vector);
        },
        Val::U32(b) => {
            assert(((b as u128) as u32) == b) by (bit_vector);
        },
        Val::S64(x) => {
            assert((((x as u64) as u128) as u64) as i64 == x) by (bit_vector);
        },
        Val::U64(b) => {
            assert(((b as u128) as u64) == b) by (bit_vector);
        },
        Val::NullRef => {},
        Val::FuncRef(_) => {},
    }
}

} // verus!
