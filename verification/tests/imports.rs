//! Tests of the dummy import synthesis and of the external item wrapper.

use wasmbridge::callable::Callable;
use wasmbridge::dummy::{
    dummy_global, dummy_imports, dummy_memory, dummy_table, dummy_value, dummy_values, DummyFunc,
};
use wasmbridge::error::Trap;
use wasmbridge::externals::Extern;
use wasmbridge::store::{Engine, Store};
use wasmbridge::types::{
    ExternType, FuncType, GlobalType, ImportType, Limits, MemoryType, Mutability, TableType,
    ValType,
};
use wasmbridge::values::Val;

#[test]
fn dummy_value_gives_zero_of_each_supported_kind() {
    assert_eq!(dummy_value(&ValType::I32), Ok(Val::I32(0)));
    assert_eq!(dummy_value(&ValType::I64), Ok(Val::I64(0)));
    assert_eq!(dummy_value(&ValType::F32), Ok(Val::F32(0)));
    assert_eq!(dummy_value(&ValType::F64), Ok(Val::F64(0)));
    assert_eq!(dummy_value(&ValType::S8), Ok(Val::S8(0)));
    assert_eq!(dummy_value(&ValType::U8), Ok(Val::U8(0)));
    assert_eq!(dummy_value(&ValType::S16), Ok(Val::S16(0)));
    assert_eq!(dummy_value(&ValType::U16), Ok(Val::U16(0)));
    assert_eq!(dummy_value(&ValType::S32), Ok(Val::S32(0)));
    assert_eq!(dummy_value(&ValType::U32), Ok(Val::U32(0)));
    assert_eq!(dummy_value(&ValType::S64), Ok(Val::S64(0)));
    assert_eq!(dummy_value(&ValType::U64), Ok(Val::U64(0)));
}

#[test]
fn dummy_value_rejects_kinds_without_a_default() {
    assert_eq!(
        dummy_value(&ValType::V128),
        Err(Trap::UnsupportedType(ValType::V128))
    );
    assert_eq!(
        dummy_value(&ValType::AnyRef),
        Err(Trap::UnsupportedType(ValType::AnyRef))
    );
    assert_eq!(
        dummy_value(&ValType::FuncRef),
        Err(Trap::UnsupportedType(ValType::FuncRef))
    );
}

#[test]
fn dummy_values_maps_each_kind_or_fails_on_the_first_bad_one() {
    let ok = dummy_values(&vec![ValType::I32, ValType::U16]).expect("all supported");
    assert_eq!(ok, vec![Val::I32(0), Val::U16(0)]);
    assert_eq!(
        dummy_values(&vec![ValType::I32, ValType::AnyRef, ValType::V128]),
        Err(Trap::UnsupportedType(ValType::AnyRef))
    );
}

#[test]
fn dummy_func_returns_defaults_of_its_result_kinds() {
    let mut engine = Engine::new();
    let mut store: Store<DummyFunc> = Store::new(&mut engine);
    let ty = FuncType::new(vec![ValType::I32], vec![ValType::I64]);
    let f = DummyFunc::new(&mut store, ty);
    let params = vec![Val::I32(5)];
    let mut results = vec![Val::I64(9)];
    f.call(&store, &params, &mut results).expect("clean call");
    assert_eq!(results, vec![Val::I64(0)]);
}

#[test]
fn dummy_callable_fills_only_declared_results() {
    let cb = DummyFunc(FuncType::new(vec![], vec![ValType::U8]));
    let mut results = vec![Val::I32(3), Val::I32(4)];
    cb.call(&vec![], &mut results).expect("supported kinds");
    assert_eq!(results, vec![Val::U8(0), Val::I32(4)]);
}

#[test]
fn dummy_global_takes_the_default_value() {
    let mut engine = Engine::new();
    let mut store: Store<DummyFunc> = Store::new(&mut engine);
    let g = dummy_global(&mut store, GlobalType::new(ValType::F64, Mutability::Var))
        .expect("supported content");
    assert_eq!(g.get(&store), Val::F64(0));
    assert_eq!(
        dummy_global(&mut store, GlobalType::new(ValType::FuncRef, Mutability::Var)),
        Err(Trap::UnsupportedType(ValType::FuncRef))
    );
}

#[test]
fn dummy_table_is_null_filled() {
    let mut engine = Engine::new();
    let mut store: Store<DummyFunc> = Store::new(&mut engine);
    let t = dummy_table(
        &mut store,
        TableType::new(ValType::FuncRef, Limits::new(2, Some(4))),
    )
    .expect("reference elements");
    assert_eq!(t.size(&store), 2);
    assert_eq!(t.get(&store, 0), Some(Val::NullRef));
    assert_eq!(t.get(&store, 1), Some(Val::NullRef));
}

#[test]
fn dummy_memory_is_the_declared_size() {
    let mut engine = Engine::new();
    let mut store: Store<DummyFunc> = Store::new(&mut engine);
    let m = dummy_memory(&mut store, MemoryType::new(Limits::new(1, Some(1))));
    assert_eq!(m.size(&store), 1);
    assert_eq!(m.read(&store, 0), Some(0));
}

#[test]
fn dummy_imports_synthesizes_one_item_per_import() {
    let mut engine = Engine::new();
    let mut store: Store<DummyFunc> = Store::new(&mut engine);
    let imports = vec![
        ImportType::new(
            "env".to_string(),
            "f".to_string(),
            ExternType::Func(FuncType::new(vec![ValType::I32], vec![ValType::I32])),
        ),
        ImportType::new(
            "env".to_string(),
            "g".to_string(),
            ExternType::Global(GlobalType::new(ValType::I64, Mutability::Const)),
        ),
        ImportType::new(
            "env".to_string(),
            "t".to_string(),
            ExternType::Table(TableType::new(ValType::FuncRef, Limits::new(1, None))),
        ),
        ImportType::new(
            "env".to_string(),
            "m".to_string(),
            ExternType::Memory(MemoryType::new(Limits::new(1, Some(2)))),
        ),
        ImportType::new(
            "env".to_string(),
            "a".to_string(),
            ExternType::Adapter(FuncType::new(vec![], vec![])),
        ),
    ];
    let items = dummy_imports(&mut store, &imports).expect("all synthesizable");
    assert_eq!(items.len(), 5);
    assert!(items[0].func().is_some());
    assert!(items[1].global().is_some());
    assert!(items[2].table().is_some());
    assert!(items[3].memory().is_some());
    assert!(items[4].adapter().is_some());
    assert_eq!(
        items[1].ty(&store),
        ExternType::Global(GlobalType::new(ValType::I64, Mutability::Const))
    );
    match items[0].ty(&store) {
        ExternType::Func(ft) => {
            assert_eq!(ft.params(), &vec![ValType::I32]);
            assert_eq!(ft.results(), &vec![ValType::I32]);
        },
        other => panic!("wrong kind: {:?}", other),
    }
}

#[test]
fn dummy_imports_fails_on_a_global_without_default() {
    let mut engine = Engine::new();
    let mut store: Store<DummyFunc> = Store::new(&mut engine);
    let imports = vec![ImportType::new(
        "env".to_string(),
        "g".to_string(),
        ExternType::Global(GlobalType::new(ValType::AnyRef, Mutability::Const)),
    )];
    assert_eq!(
        dummy_imports(&mut store, &imports),
        Err(Trap::UnsupportedType(ValType::AnyRef))
    );
}

#[test]
fn extern_accessors_are_exclusive() {
    let mut engine = Engine::new();
    let mut store: Store<DummyFunc> = Store::new(&mut engine);
    let g = dummy_global(&mut store, GlobalType::new(ValType::I32, Mutability::Var))
        .expect("supported content");
    let item: Extern = g.into();
    assert!(item.global().is_some());
    assert!(item.func().is_none());
    assert!(item.table().is_none());
    assert!(item.memory().is_none());
    assert!(item.adapter().is_none());
    assert!(item.comes_from_same_store(&store));
    let other: Store<DummyFunc> = Store::new(&mut engine);
    assert!(!item.comes_from_same_store(&other));
}

#[test]
fn extern_wraps_each_handle_kind() {
    let mut engine = Engine::new();
    let mut store: Store<DummyFunc> = Store::new(&mut engine);
    let f = DummyFunc::new(&mut store, FuncType::new(vec![], vec![]));
    let t = dummy_table(
        &mut store,
        TableType::new(ValType::AnyRef, Limits::new(1, None)),
    )
    .expect("reference elements");
    let m = dummy_memory(&mut store, MemoryType::new(Limits::new(1, None)));
    assert_eq!(Extern::from(f).func(), Some(f));
    assert_eq!(Extern::from(t).table(), Some(t));
    assert_eq!(Extern::from(m).memory(), Some(m));
    assert_eq!(
        Extern::from(t).ty(&store),
        ExternType::Table(TableType::new(ValType::AnyRef, Limits::new(1, None)))
    );
    assert_eq!(
        Extern::from(m).ty(&store),
        ExternType::Memory(MemoryType::new(Limits::new(1, None)))
    );
}

#[test]
fn import_type_reports_its_parts() {
    let it = ImportType::new(
        "mod".to_string(),
        "field".to_string(),
        ExternType::Global(GlobalType::new(ValType::I32, Mutability::Const)),
    );
    assert_eq!(it.module().as_str(), "mod");
    assert_eq!(it.name().as_str(), "field");
    assert_eq!(
        it.ty(),
        &ExternType::Global(GlobalType::new(ValType::I32, Mutability::Const))
    );
}
