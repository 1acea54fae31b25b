//! Tests of the value marshaler: slot round trips for every supported
//! kind, and the failures for mismatched or unsupported kinds.

use wasmbridge::error::Trap;
use wasmbridge::types::ValType;
use wasmbridge::values::Val;

fn roundtrip(v: Val, ty: ValType) -> Val {
    let mut slot: u128 = 0;
    v.write_value_to(ty, &mut slot).expect("marshal in");
    Val::read_value_from(slot, ty).expect("marshal out")
}

#[test]
fn roundtrip_defaults_all_supported_kinds() {
    assert_eq!(roundtrip(Val::I32(0), ValType::I32), Val::I32(0));
    assert_eq!(roundtrip(Val::I64(0), ValType::I64), Val::I64(0));
    assert_eq!(roundtrip(Val::F32(0), ValType::F32), Val::F32(0));
    assert_eq!(roundtrip(Val::F64(0), ValType::F64), Val::F64(0));
    assert_eq!(roundtrip(Val::V128(0), ValType::V128), Val::V128(0));
    assert_eq!(roundtrip(Val::S8(0), ValType::S8), Val::S8(0));
    assert_eq!(roundtrip(Val::U8(0), ValType::U8), Val::U8(0));
    assert_eq!(roundtrip(Val::S16(0), ValType::S16), Val::S16(0));
    assert_eq!(roundtrip(Val::U16(0), ValType::U16), Val::U16(0));
    assert_eq!(roundtrip(Val::S32(0), ValType::S32), Val::S32(0));
    assert_eq!(roundtrip(Val::U32(0), ValType::U32), Val::U32(0));
    assert_eq!(roundtrip(Val::S64(0), ValType::S64), Val::S64(0));
    assert_eq!(roundtrip(Val::U64(0), ValType::U64), Val::U64(0));
}

#[test]
fn roundtrip_extreme_values() {
    assert_eq!(roundtrip(Val::I32(-1), ValType::I32), Val::I32(-1));
    assert_eq!(roundtrip(Val::I32(i32::MIN), ValType::I32), Val::I32(i32::MIN));
    assert_eq!(roundtrip(Val::I64(i64::MIN), ValType::I64), Val::I64(i64::MIN));
    assert_eq!(roundtrip(Val::S8(-128), ValType::S8), Val::S8(-128));
    assert_eq!(roundtrip(Val::S16(-1), ValType::S16), Val::S16(-1));
    assert_eq!(roundtrip(Val::U64(u64::MAX), ValType::U64), Val::U64(u64::MAX));
    assert_eq!(
        roundtrip(Val::V128(u128::MAX), ValType::V128),
        Val::V128(u128::MAX)
    );
    assert_eq!(
        roundtrip(Val::F64(0x7ff8000000000000), ValType::F64),
        Val::F64(0x7ff8000000000000)
    );
}

#[test]
fn write_rejects_kind_mismatch_without_writing() {
    let mut slot: u128 = 99;
    let r = Val::I32(1).write_value_to(ValType::I64, &mut slot);
    assert_eq!(
        r,
        Err(Trap::TypeMismatch {
            expected: ValType::I64,
            got: ValType::I32
        })
    );
    assert_eq!(slot, 99, "a failed write must leave the slot untouched");
}

#[test]
fn write_rejects_reference_kinds() {
    let mut slot: u128 = 0;
    let r = Val::NullRef.write_value_to(ValType::AnyRef, &mut slot);
    assert_eq!(r, Err(Trap::UnsupportedType(ValType::AnyRef)));
}

#[test]
fn read_rejects_reference_kinds() {
    assert_eq!(
        Val::read_value_from(0, ValType::FuncRef),
        Err(Trap::UnsupportedType(ValType::FuncRef))
    );
    assert_eq!(
        Val::read_value_from(0, ValType::AnyRef),
        Err(Trap::UnsupportedType(ValType::AnyRef))
    );
}

#[test]
fn value_kinds_report_themselves() {
    assert_eq!(Val::I32(5).ty(), ValType::I32);
    assert_eq!(Val::NullRef.ty(), ValType::AnyRef);
    assert_eq!(Val::U16(5).ty(), ValType::U16);
    assert!(ValType::I32.is_marshalable());
    assert!(!ValType::FuncRef.is_marshalable());
    assert!(ValType::FuncRef.is_ref());
    assert!(!ValType::U8.is_ref());
}
