//! Tests of the trampoline invoker and the export generator: a host
//! callable invoked through a synthesized export, with every failure class
//! exercised.

use wasmbridge::callable::{Callable, Func};
use wasmbridge::error::Trap;
use wasmbridge::store::{Engine, Store};
use wasmbridge::types::{FuncType, ValType};
use wasmbridge::values::Val;

/// Doubles its one 32-bit integer argument.
struct Doubler;

impl Callable for Doubler {
    fn call(&self, params: &Vec<Val>, results: &mut Vec<Val>) -> Result<(), Trap> {
        match params[0] {
            Val::I32(x) => {
                results[0] = Val::I32(x * 2);
                Ok(())
            },
            _ => Err(Trap::new("expected a 32-bit integer".to_string())),
        }
    }
}

/// Always reports a fault of its own.
struct AlwaysTraps;

impl Callable for AlwaysTraps {
    fn call(&self, _params: &Vec<Val>, _results: &mut Vec<Val>) -> Result<(), Trap> {
        Err(Trap::new("guest fault".to_string()))
    }
}

/// Writes a result of the wrong kind.
struct WrongKind;

impl Callable for WrongKind {
    fn call(&self, _params: &Vec<Val>, results: &mut Vec<Val>) -> Result<(), Trap> {
        results[0] = Val::I64(1);
        Ok(())
    }
}

/// Truncates its result buffer.
struct Truncator;

impl Callable for Truncator {
    fn call(&self, _params: &Vec<Val>, results: &mut Vec<Val>) -> Result<(), Trap> {
        results.clear();
        Ok(())
    }
}

fn i32_to_i32() -> FuncType {
    FuncType::new(vec![ValType::I32], vec![ValType::I32])
}

fn doubler_export(store: &mut Store<Doubler>) -> Func {
    Func::new(store, i32_to_i32(), Doubler)
}

#[test]
fn doubling_call_returns_forty_two() {
    let mut engine = Engine::new();
    let mut store: Store<Doubler> = Store::new(&mut engine);
    let f = doubler_export(&mut store);
    let params = vec![Val::I32(21)];
    let mut results = vec![Val::I32(0)];
    f.call(&store, &params, &mut results).expect("clean call");
    assert_eq!(results, vec![Val::I32(42)]);
}

#[test]
fn call_exercises_negative_values_exactly() {
    let mut engine = Engine::new();
    let mut store: Store<Doubler> = Store::new(&mut engine);
    let f = doubler_export(&mut store);
    let params = vec![Val::I32(-21)];
    let mut results = vec![Val::I32(0)];
    f.call(&store, &params, &mut results).expect("clean call");
    assert_eq!(results, vec![Val::I32(-42)]);
}

#[test]
fn arity_mismatch_fails_before_the_callee_runs() {
    let mut engine = Engine::new();
    let mut store: Store<Doubler> = Store::new(&mut engine);
    let f = doubler_export(&mut store);
    let params = vec![Val::I32(1), Val::I32(2)];
    let mut results = vec![Val::I32(7)];
    assert_eq!(
        f.call(&store, &params, &mut results),
        Err(Trap::ArityMismatch {
            expected: 1,
            got: 2
        })
    );
    assert_eq!(results, vec![Val::I32(7)], "a failed call leaves the buffer alone");
}

#[test]
fn result_buffer_length_is_validated() {
    let mut engine = Engine::new();
    let mut store: Store<Doubler> = Store::new(&mut engine);
    let f = doubler_export(&mut store);
    let params = vec![Val::I32(1)];
    let mut results: Vec<Val> = vec![];
    assert_eq!(
        f.call(&store, &params, &mut results),
        Err(Trap::ResultArityMismatch {
            expected: 1,
            got: 0
        })
    );
}

#[test]
fn argument_kind_mismatch_fails_before_invocation() {
    let mut engine = Engine::new();
    let mut store: Store<Doubler> = Store::new(&mut engine);
    let f = doubler_export(&mut store);
    let params = vec![Val::F64(0)];
    let mut results = vec![Val::I32(7)];
    assert_eq!(
        f.call(&store, &params, &mut results),
        Err(Trap::TypeMismatch {
            expected: ValType::I32,
            got: ValType::F64
        })
    );
    assert_eq!(results, vec![Val::I32(7)]);
}

#[test]
fn callee_fault_surfaces_as_recoverable_trap() {
    let mut engine = Engine::new();
    let mut store: Store<AlwaysTraps> = Store::new(&mut engine);
    let f = Func::new(&mut store, i32_to_i32(), AlwaysTraps);
    let params = vec![Val::I32(1)];
    let mut results = vec![Val::I32(7)];
    assert_eq!(
        f.call(&store, &params, &mut results),
        Err(Trap::Message("guest fault".to_string()))
    );
    assert_eq!(results, vec![Val::I32(7)]);
    // The engine stays usable after the fault.
    let g = Func::new(&mut store, i32_to_i32(), AlwaysTraps);
    assert!(g.call(&store, &params, &mut results).is_err());
}

#[test]
fn wrongly_typed_callee_result_is_a_trap() {
    let mut engine = Engine::new();
    let mut store: Store<WrongKind> = Store::new(&mut engine);
    let f = Func::new(&mut store, i32_to_i32(), WrongKind);
    let params = vec![Val::I32(1)];
    let mut results = vec![Val::I32(7)];
    assert_eq!(
        f.call(&store, &params, &mut results),
        Err(Trap::TypeMismatch {
            expected: ValType::I32,
            got: ValType::I64
        })
    );
    assert_eq!(results, vec![Val::I32(7)]);
}

#[test]
fn truncated_callee_results_are_a_trap() {
    let mut engine = Engine::new();
    let mut store: Store<Truncator> = Store::new(&mut engine);
    let f = Func::new(&mut store, i32_to_i32(), Truncator);
    let params = vec![Val::I32(1)];
    let mut results = vec![Val::I32(7)];
    assert_eq!(
        f.call(&store, &params, &mut results),
        Err(Trap::ResultArityMismatch {
            expected: 1,
            got: 0
        })
    );
    assert_eq!(results, vec![Val::I32(7)]);
}

#[test]
fn func_reports_its_declared_type() {
    let mut engine = Engine::new();
    let mut store: Store<Doubler> = Store::new(&mut engine);
    let f = doubler_export(&mut store);
    let ty = f.ty(&store);
    assert_eq!(ty.params(), &vec![ValType::I32]);
    assert_eq!(ty.results(), &vec![ValType::I32]);
}

#[test]
fn deliver_results_round_trips_well_typed_values() {
    let vals = vec![Val::I32(-5), Val::U64(9)];
    let tys = vec![ValType::I32, ValType::U64];
    let mut slots: Vec<u128> = vec![0, 0];
    let mut results = vec![Val::I32(0), Val::I32(0)];
    wasmbridge::callable::deliver_results(&vals, &tys, &mut slots, &mut results)
        .expect("well typed");
    assert_eq!(results, vals);
}

#[test]
fn deliver_results_rejects_kind_mismatch_untouched() {
    let vals = vec![Val::I32(1), Val::F32(2)];
    let tys = vec![ValType::I32, ValType::I32];
    let mut slots: Vec<u128> = vec![0, 0];
    let mut results = vec![Val::I32(7), Val::I32(8)];
    assert_eq!(
        wasmbridge::callable::deliver_results(&vals, &tys, &mut slots, &mut results),
        Err(Trap::TypeMismatch {
            expected: ValType::I32,
            got: ValType::F32
        })
    );
    assert_eq!(results, vec![Val::I32(7), Val::I32(8)]);
}
