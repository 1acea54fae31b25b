//! Tests of the external object model: globals, tables and memories, with
//! their type checks, bounds checks, growth semantics and cross-store
//! rejection.

use wasmbridge::dummy::DummyFunc;
use wasmbridge::error::ValidationError;
use wasmbridge::externals::{Global, Memory, Table};
use wasmbridge::store::{Engine, Store};
use wasmbridge::types::{GlobalType, Limits, MemoryType, Mutability, TableType, ValType};
use wasmbridge::values::Val;

fn fresh_store(engine: &mut Engine) -> Store<DummyFunc> {
    Store::new(engine)
}

#[test]
fn global_set_then_get_reflects_new_value() {
    let mut engine = Engine::new();
    let mut store = fresh_store(&mut engine);
    let ty = GlobalType::new(ValType::I32, Mutability::Var);
    let g = Global::new(&mut store, ty, Val::I32(1)).expect("constructible");
    assert_eq!(g.get(&store), Val::I32(1));
    assert_eq!(g.set(&mut store, Val::I32(7)), Ok(()));
    assert_eq!(g.get(&store), Val::I32(7));
}

#[test]
fn immutable_global_set_fails_and_keeps_value() {
    let mut engine = Engine::new();
    let mut store = fresh_store(&mut engine);
    let ty = GlobalType::new(ValType::I64, Mutability::Const);
    let g = Global::new(&mut store, ty, Val::I64(3)).expect("constructible");
    assert_eq!(
        g.set(&mut store, Val::I64(4)),
        Err(ValidationError::ImmutableGlobal)
    );
    assert_eq!(g.get(&store), Val::I64(3));
}

#[test]
fn global_set_wrong_kind_fails_and_keeps_value() {
    let mut engine = Engine::new();
    let mut store = fresh_store(&mut engine);
    let ty = GlobalType::new(ValType::I32, Mutability::Var);
    let g = Global::new(&mut store, ty, Val::I32(1)).expect("constructible");
    assert_eq!(
        g.set(&mut store, Val::F32(0)),
        Err(ValidationError::TypeMismatch {
            expected: ValType::I32,
            got: ValType::F32
        })
    );
    assert_eq!(g.get(&store), Val::I32(1));
}

#[test]
fn global_new_rejects_wrong_kind() {
    let mut engine = Engine::new();
    let mut store = fresh_store(&mut engine);
    let ty = GlobalType::new(ValType::F64, Mutability::Var);
    assert_eq!(
        Global::new(&mut store, ty, Val::I32(0)),
        Err(ValidationError::TypeMismatch {
            expected: ValType::F64,
            got: ValType::I32
        })
    );
}

#[test]
fn global_set_rejects_value_of_other_store() {
    let mut engine = Engine::new();
    let mut store_a = fresh_store(&mut engine);
    let mut store_b = fresh_store(&mut engine);
    let f_b = DummyFunc::new(
        &mut store_b,
        wasmbridge::types::FuncType::new(vec![], vec![]),
    );
    let ty = GlobalType::new(ValType::FuncRef, Mutability::Var);
    let f_a = DummyFunc::new(
        &mut store_a,
        wasmbridge::types::FuncType::new(vec![], vec![]),
    );
    let g = Global::new(&mut store_a, ty, Val::FuncRef(f_a)).expect("constructible");
    assert_eq!(
        g.set(&mut store_a, Val::FuncRef(f_b)),
        Err(ValidationError::CrossStore)
    );
    assert_eq!(g.get(&store_a), Val::FuncRef(f_a));
}

#[test]
fn table_scenario_null_initialized() {
    let mut engine = Engine::new();
    let mut store = fresh_store(&mut engine);
    let ty = TableType::new(ValType::AnyRef, Limits::new(2, None));
    let t = Table::new(&mut store, ty, Val::NullRef).expect("constructible");
    assert_eq!(t.size(&store), 2);
    assert_eq!(t.get(&store, 0), Some(Val::NullRef));
    assert_eq!(t.get(&store, 5), None, "out of range is absent, not an error");
}

#[test]
fn table_new_rejects_non_reference_init() {
    let mut engine = Engine::new();
    let mut store = fresh_store(&mut engine);
    let ty = TableType::new(ValType::I32, Limits::new(1, None));
    assert_eq!(
        Table::new(&mut store, ty, Val::I32(0)),
        Err(ValidationError::TypeMismatch {
            expected: ValType::I32,
            got: ValType::I32
        })
    );
}

#[test]
fn table_new_rejects_unsatisfiable_limits() {
    let mut engine = Engine::new();
    let mut store = fresh_store(&mut engine);
    let ty = TableType::new(ValType::AnyRef, Limits::new(3, Some(2)));
    assert_eq!(
        Table::new(&mut store, ty, Val::NullRef),
        Err(ValidationError::InvalidLimits)
    );
}

#[test]
fn table_set_checks_bounds_and_kind() {
    let mut engine = Engine::new();
    let mut store = fresh_store(&mut engine);
    let ty = TableType::new(ValType::FuncRef, Limits::new(2, None));
    let t = Table::new(&mut store, ty, Val::NullRef).expect("constructible");
    let f = DummyFunc::new(
        &mut store,
        wasmbridge::types::FuncType::new(vec![], vec![]),
    );
    assert_eq!(t.set(&mut store, 1, Val::FuncRef(f)), Ok(()));
    assert_eq!(t.get(&store, 1), Some(Val::FuncRef(f)));
    assert_eq!(
        t.set(&mut store, 2, Val::NullRef),
        Err(ValidationError::OutOfBounds)
    );
    assert_eq!(
        t.set(&mut store, 0, Val::I32(4)),
        Err(ValidationError::TypeMismatch {
            expected: ValType::FuncRef,
            got: ValType::I32
        })
    );
}

#[test]
fn table_grow_beyond_maximum_fails_and_size_unchanged() {
    let mut engine = Engine::new();
    let mut store = fresh_store(&mut engine);
    let ty = TableType::new(ValType::AnyRef, Limits::new(1, Some(2)));
    let t = Table::new(&mut store, ty, Val::NullRef).expect("constructible");
    assert_eq!(t.grow(&mut store, 1, Val::NullRef), Ok(1));
    assert_eq!(t.size(&store), 2);
    assert_eq!(
        t.grow(&mut store, 1, Val::NullRef),
        Err(ValidationError::GrowFailure)
    );
    assert_eq!(t.size(&store), 2);
}

#[test]
fn table_grow_zero_is_noop() {
    let mut engine = Engine::new();
    let mut store = fresh_store(&mut engine);
    let ty = TableType::new(ValType::AnyRef, Limits::new(3, Some(3)));
    let t = Table::new(&mut store, ty, Val::NullRef).expect("constructible");
    assert_eq!(t.grow(&mut store, 0, Val::NullRef), Ok(3));
    assert_eq!(t.size(&store), 3);
}

#[test]
fn table_copy_moves_range() {
    let mut engine = Engine::new();
    let mut store = fresh_store(&mut engine);
    let ty = TableType::new(ValType::FuncRef, Limits::new(3, None));
    let src = Table::new(&mut store, ty, Val::NullRef).expect("constructible");
    let dst = Table::new(&mut store, ty, Val::NullRef).expect("constructible");
    let f = DummyFunc::new(
        &mut store,
        wasmbridge::types::FuncType::new(vec![], vec![]),
    );
    src.set(&mut store, 0, Val::FuncRef(f)).expect("in range");
    Table::copy(&mut store, &dst, 1, &src, 0, 2).expect("in range");
    assert_eq!(dst.get(&store, 0), Some(Val::NullRef));
    assert_eq!(dst.get(&store, 1), Some(Val::FuncRef(f)));
    assert_eq!(dst.get(&store, 2), Some(Val::NullRef));
}

#[test]
fn table_copy_out_of_range_mutates_neither_side() {
    let mut engine = Engine::new();
    let mut store = fresh_store(&mut engine);
    let ty = TableType::new(ValType::FuncRef, Limits::new(3, None));
    let src = Table::new(&mut store, ty, Val::NullRef).expect("constructible");
    let dst = Table::new(&mut store, ty, Val::NullRef).expect("constructible");
    let f = DummyFunc::new(
        &mut store,
        wasmbridge::types::FuncType::new(vec![], vec![]),
    );
    src.set(&mut store, 1, Val::FuncRef(f)).expect("in range");
    dst.set(&mut store, 2, Val::FuncRef(f)).expect("in range");
    let before_src: Vec<Option<Val>> = (0..3).map(|i| src.get(&store, i)).collect();
    let before_dst: Vec<Option<Val>> = (0..3).map(|i| dst.get(&store, i)).collect();
    assert_eq!(
        Table::copy(&mut store, &dst, 2, &src, 0, 2),
        Err(ValidationError::OutOfBounds)
    );
    assert_eq!(
        Table::copy(&mut store, &dst, 0, &src, 2, 2),
        Err(ValidationError::OutOfBounds)
    );
    let after_src: Vec<Option<Val>> = (0..3).map(|i| src.get(&store, i)).collect();
    let after_dst: Vec<Option<Val>> = (0..3).map(|i| dst.get(&store, i)).collect();
    assert_eq!(before_src, after_src, "failed copy must not touch the source");
    assert_eq!(before_dst, after_dst, "failed copy must not touch the destination");
}

#[test]
fn table_copy_between_stores_is_rejected() {
    let mut engine = Engine::new();
    let mut store_a = fresh_store(&mut engine);
    let mut store_b = fresh_store(&mut engine);
    let ty = TableType::new(ValType::AnyRef, Limits::new(2, None));
    let t_a = Table::new(&mut store_a, ty, Val::NullRef).expect("constructible");
    let t_b = Table::new(&mut store_b, ty, Val::NullRef).expect("constructible");
    assert_eq!(
        Table::copy(&mut store_a, &t_a, 0, &t_b, 0, 1),
        Err(ValidationError::CrossStore)
    );
    assert_eq!(t_a.get(&store_a, 0), Some(Val::NullRef));
    assert_eq!(t_b.get(&store_b, 0), Some(Val::NullRef));
}

#[test]
fn memory_scenario_grow_within_then_beyond_maximum() {
    let mut engine = Engine::new();
    let mut store = fresh_store(&mut engine);
    let ty = MemoryType::new(Limits::new(1, Some(2)));
    let m = Memory::new(&mut store, ty);
    assert_eq!(m.size(&store), 1);
    assert_eq!(m.grow(&mut store, 1), Ok(1), "returns the previous page count");
    assert_eq!(m.size(&store), 2);
    assert_eq!(m.data_size(&store), 2 * 65536);
    assert_eq!(m.grow(&mut store, 1), Err(ValidationError::GrowFailure));
    assert_eq!(m.size(&store), 2, "failed growth must not change the length");
}

#[test]
fn memory_is_zero_initialized_and_byte_addressable() {
    let mut engine = Engine::new();
    let mut store = fresh_store(&mut engine);
    let ty = MemoryType::new(Limits::new(1, None));
    let m = Memory::new(&mut store, ty);
    assert_eq!(m.data_size(&store), 65536);
    assert_eq!(m.read(&store, 0), Some(0));
    assert_eq!(m.read(&store, 65535), Some(0));
    assert_eq!(m.read(&store, 65536), None);
    assert_eq!(m.write(&mut store, 10, 0xab), Ok(()));
    assert_eq!(m.read(&store, 10), Some(0xab));
    assert_eq!(
        m.write(&mut store, 65536, 1),
        Err(ValidationError::OutOfBounds)
    );
}

#[test]
fn memory_grow_preserves_contents_and_zero_fills() {
    let mut engine = Engine::new();
    let mut store = fresh_store(&mut engine);
    let ty = MemoryType::new(Limits::new(1, Some(4)));
    let m = Memory::new(&mut store, ty);
    m.write(&mut store, 7, 42).expect("in range");
    assert_eq!(m.grow(&mut store, 2), Ok(1));
    assert_eq!(m.data_size(&store), 3 * 65536);
    assert_eq!(m.read(&store, 7), Some(42));
    assert_eq!(m.read(&store, 3 * 65536 - 1), Some(0));
}

#[test]
fn handles_are_shallow_clones_over_shared_storage() {
    let mut engine = Engine::new();
    let mut store = fresh_store(&mut engine);
    let ty = GlobalType::new(ValType::U32, Mutability::Var);
    let g = Global::new(&mut store, ty, Val::U32(5)).expect("constructible");
    let g2 = g;
    g.set(&mut store, Val::U32(9)).expect("mutable");
    assert_eq!(g2.get(&store), Val::U32(9), "clones observe the same storage");
    assert_eq!(g2.ty().content(), ValType::U32);
}
