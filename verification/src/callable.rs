//! Host-supplied callables, the export generator and the trampoline
//! invoker.
//!
//! A [`Callable`] is anything the host supplies that accepts typed
//! parameters and an output buffer and returns success or a fault. The
//! export generator ([`Func::new`]) wraps one behind a compiled-style
//! [`crate::types::Signature`] so the guest side can invoke it like any
//! compiled function. [`Func::call`] is the trampoline invoker: it
//! validates arity, marshals every argument into one call slot — failing
//! before anything is invoked on a kind mismatch —, dispatches to the
//! callee, and marshals the callee's results back, converting every fault
//! into a recoverable [`Trap`].

use vstd::prelude::*;

use crate::error::Trap;
use crate::store::{
    copy_vec, lemma_instances_ok_preserved, same_except_funcs, FuncInstance, Store,
};
use crate::types::{copy_val_types, FuncType, Signature, ValType};
use crate::values::{lemma_marshal_roundtrip, slot_of_val, val_of_slot, Val};

verus! {

/// A function that can be imported and called across the boundary: it
/// receives its typed parameters and a mutable result buffer, and returns
/// success or a fault of its own. Nothing more is assumed of it; the
/// invoker validates whatever it writes.
pub trait Callable {
    /// Invoked when the function is called. `params` holds the typed
    /// arguments; `results` is the buffer the callee fills.
    fn call(&self, params: &Vec<Val>, results: &mut Vec<Val>) -> Result<(), Trap>;
}

/// A handle to a callable function owned by a store: the identity of that
/// store and the index of the function's storage within it.
#[derive(Clone, Copy, Debug, PartialEq, Eq, Structural)]
pub struct Func {
    /// The identity of the owning store.
    pub store_id: u64,
    /// The index of the function's storage within the owning store.
    pub index: usize,
}

/// Whether the arguments `params` match the declared kinds `tys` slot for
/// slot.
pub open spec fn args_match(params: Seq<Val>, tys: Seq<ValType>) -> bool {
    &&& params.len() == tys.len()
    &&& forall|i: int| 0 <= i < params.len() ==> (#[trigger] params[i]).spec_ty() == tys[i]
}

/// Whether `i` is the first position at which `params` fails to match
/// `tys`.
pub open spec fn is_first_mismatch(params: Seq<Val>, tys: Seq<ValType>, i: int) -> bool {
    &&& 0 <= i < params.len()
    &&& i < tys.len()
    &&& params[i].spec_ty() != tys[i]
    &&& forall|j: int| 0 <= j < i ==> (#[trigger] params[j]).spec_ty() == tys[j]
}

/// Whether the values `vals` can leave a call as its results under the
/// declared kinds `tys`: right count, right kind per slot, and every kind
/// one a slot can carry.
pub open spec fn results_ok(vals: Seq<Val>, tys: Seq<ValType>) -> bool {
    &&& vals.len() == tys.len()
    &&& forall|i: int|
        0 <= i < vals.len() ==> (#[trigger] vals[i]).spec_ty() == tys[i]
            && vals[i].spec_ty().spec_is_marshalable()
}

/// Whether `i` is the first position at which `vals` cannot leave a call
/// under the kinds `tys`.
pub open spec fn is_first_bad_result(vals: Seq<Val>, tys: Seq<ValType>, i: int) -> bool {
    &&& 0 <= i < vals.len()
    &&& i < tys.len()
    &&& !(vals[i].spec_ty() == tys[i] && vals[i].spec_ty().spec_is_marshalable())
    &&& forall|j: int|
        0 <= j < i ==> (#[trigger] vals[j]).spec_ty() == tys[j]
            && vals[j].spec_ty().spec_is_marshalable()
}

/// The fault reported for the first bad result position `i`.
pub open spec fn bad_result_trap(vals: Seq<Val>, tys: Seq<ValType>, i: int) -> Trap {
    if vals[i].spec_ty() != tys[i] {
        Trap::TypeMismatch { expected: tys[i], got: vals[i].spec_ty() }
    } else {
        Trap::UnsupportedType(tys[i])
    }
}

/// A placeholder value of kind `t` for the result buffer handed to a
/// callee; the invoker validates whatever the callee leaves there.
fn scratch_val(t: ValType) -> (r: Val)
    ensures
        t.spec_is_marshalable() ==> r.spec_ty() == t,
{
    match t {
        ValType::I32 => Val::I32(0),
        ValType::I64 => Val::I64(0),
        ValType::F32 => Val::F32(0),
        ValType::F64 => Val::F64(0),
        ValType::V128 => Val::V128(0),
        ValType::S8 => Val::S8(0),
        ValType::U8 => Val::U8(0),
        ValType::S16 => Val::S16(0),
        ValType::U16 => Val::U16(0),
        ValType::S32 => Val::S32(0),
        ValType::U32 => Val::U32(0),
        ValType::S64 => Val::S64(0),
        ValType::U64 => Val::U64(0),
        ValType::AnyRef => Val::NullRef,
        ValType::FuncRef => Val::NullRef,
    }
}

/// Marshals a callee's result values through the scratch slot buffer into
/// the caller's result buffer, validating count and kind per slot. On
/// success the caller's buffer holds exactly the callee's values; on any
/// fault it is left untouched.
pub fn deliver_results(
    vals: &Vec<Val>,
    tys: &Vec<ValType>,
    slots: &mut Vec<u128>,
    results: &mut Vec<Val>,
) -> (r: Result<(), Trap>)
    requires
        old(slots)@.len() >= tys@.len(),
        old(results)@.len() == tys@.len(),
    ensures
        final(slots)@.len() == old(slots)@.len(),
        final(results)@.len() == old(results)@.len(),
        r is Ok <==> results_ok(vals@, tys@),
        vals@.len() != tys@.len() ==> r == Err::<(), Trap>(
            Trap::ResultArityMismatch { expected: tys@.len() as usize, got: vals@.len() as usize },
        ),
        vals@.len() == tys@.len() && !results_ok(vals@, tys@) ==> exists|i: int|
            is_first_bad_result(vals@, tys@, i) && r == Err::<(), Trap>(
                bad_result_trap(vals@, tys@, i),
            ),
        r is Ok ==> final(results)@ == vals@,
        r is Err ==> final(results)@ == old(results)@,
{
    let n = tys.len();
    if vals.len() != n {
        return Err(Trap::ResultArityMismatch { expected: n, got: vals.len() });
    }
    let mut i: usize = 0;
    while i < n
        invariant
            i <= n,
            n == tys@.len(),
            vals@.len() == n,
            slots@.len() >= n,
            slots@.len() == old(slots)@.len(),
            results@ == old(results)@,
            results@.len() == n,
            forall|j: int|
                0 <= j < i ==> (#[trigger] vals@[j]).spec_ty() == tys@[j]
                    && vals@[j].spec_ty().spec_is_marshalable() && slots@[j] == slot_of_val(
                    vals@[j],
                ),
        decreases n - i,
    {
        let w = vals[i].write_value_to(tys[i], &mut slots[i]);
        match w {
            Err(t) => {
                proof {
                    assert(is_first_bad_result(vals@, tys@, i as int));
                    assert(t == bad_result_trap(vals@, tys@, i as int));
                }
                return Err(t);
            },
            Ok(()) => {},
        }
        i = i + 1;
    }
    let mut k: usize = 0;
    while k < n
        invariant
            k <= n,
            n == tys@.len(),
            vals@.len() == n,
            slots@.len() >= n,
            slots@.len() == old(slots)@.len(),
            results@.len() == n,
            results@.len() == old(results)@.len(),
            forall|j: int|
                0 <= j < n ==> (#[trigger] vals@[j]).spec_ty() == tys@[j]
                    && vals@[j].spec_ty().spec_is_marshalable() && slots@[j] == slot_of_val(
                    vals@[j],
                ),
            forall|j: int| 0 <= j < k ==> #[trigger] results@[j] == vals@[j],
        decreases n - k,
    {
        match Val::read_value_from(slots[k], tys[k]) {
            Ok(v) => {
                proof {
                    lemma_marshal_roundtrip(vals@[k as int]);
                }
                results[k] = v;
            },
            Err(t) => {
                // Unreachable: every kind was just checked marshalable.
                return Err(t);
            },
        }
        k = k + 1;
    }
    proof {
        assert(results@ =~= vals@);
    }
    Ok(())
}

impl Func {
    /// Synthesizes a guest-callable export around the host callable
    /// `callable` of declared type `ty`: builds the compiled signature —
    /// two reserved execution-context entries ahead of the declared
    /// parameters —, stores the callable behind it, and returns the
    /// handle. Every kind of the declared type must fit a call slot; a
    /// type the generator cannot bridge is an engine defect, not a
    /// recoverable condition.
    pub fn new<C>(store: &mut Store<C>, ty: FuncType, callable: C) -> (f: Func)
        requires
            old(store).wf(),
            ty.spec_marshalable(),
        ensures
            final(store).wf(),
            same_except_funcs(*old(store), *final(store)),
            final(store).funcs@.len() == old(store).funcs@.len() + 1,
            final(store).funcs@[old(store).funcs@.len() as int].ty == ty,
            final(store).funcs@[old(store).funcs@.len() as int].callable == callable,
            forall|j: int|
                0 <= j < old(store).funcs@.len() ==> final(store).funcs@[j] == #[trigger] old(
                    store,
                ).funcs@[j],
            f == (Func { store_id: old(store).id, index: old(store).funcs@.len() as usize }),
            f.index as int == old(store).funcs@.len() as int,
            final(store).owns_func(f),
    {
        let mut sig_params: Vec<ValType> = Vec::new();
        sig_params.push(ValType::I64);
        sig_params.push(ValType::I64);
        let mut k: usize = 0;
        while k < ty.params.len()
            invariant
                k <= ty.params@.len(),
                sig_params@ == seq![ValType::I64, ValType::I64] + ty.params@.subrange(0, k as int),
            decreases ty.params@.len() - k,
        {
            sig_params.push(ty.params[k]);
            proof {
                assert(sig_params@ =~= seq![ValType::I64, ValType::I64] + ty.params@.subrange(
                    0,
                    (k + 1) as int,
                ));
            }
            k = k + 1;
        }
        proof {
            assert(ty.params@.subrange(0, ty.params@.len() as int) == ty.params@);
        }
        let sig = Signature { params: sig_params, returns: copy_val_types(&ty.results) };
        let index = store.funcs.len();
        let ghost pre = *old(store);
        store.funcs.push(FuncInstance { ty, sig, callable });
        proof {
            let post = *store;
            lemma_instances_ok_preserved::<C>(pre, post);
            assert forall|i: int|
                0 <= i < post.globals@.len() implies post.global_ok(
                #[trigger] post.globals@[i],
            ) by {
                assert(pre.global_ok(pre.globals@[i]));
            }
            assert forall|i: int|
                0 <= i < post.tables@.len() implies post.table_ok(#[trigger] post.tables@[i]) by {
                assert(pre.table_ok(pre.tables@[i]));
            }
            assert forall|i: int|
                0 <= i < post.funcs@.len() implies (#[trigger] post.funcs@[i]).ok() by {
                if i < pre.funcs@.len() {
                    assert(pre.funcs@[i].ok());
                }
            }
        }
        Func { store_id: store.id, index }
    }

    /// The declared type of this function.
    pub fn ty<'a, C>(&self, store: &'a Store<C>) -> (r: &'a FuncType)
        requires
            store.owns_func(*self),
        ensures
            *r == store.funcs@[self.index as int].ty,
    {
        &store.funcs[self.index].ty
    }

    /// Bridges a host call into the callee this handle names.
    ///
    /// The invoker validates the argument count and the result buffer
    /// length against the declared type — failing with an arity fault
    /// before anything runs —, marshals each argument into its call slot —
    /// failing on the first kind mismatch before the callee is invoked —,
    /// dispatches through the synthesized trampoline to the stored
    /// callable, and unmarshals the callee's results in declared order
    /// into `results`. Every fault, the callee's own included, surfaces as
    /// a recoverable [`Trap`]; on any fault `results` is left untouched,
    /// and the store is never changed.
    pub fn call<C: Callable>(
        &self,
        store: &Store<C>,
        params: &Vec<Val>,
        results: &mut Vec<Val>,
    ) -> (r: Result<(), Trap>)
        requires
            store.wf(),
            store.owns_func(*self),
        ensures
            ({
                let fty = store.funcs@[self.index as int].ty;
                &&& params@.len() != fty.params@.len() ==> r == Err::<(), Trap>(
                    Trap::ArityMismatch {
                        expected: fty.params@.len() as usize,
                        got: params@.len() as usize,
                    },
                )
                &&& params@.len() == fty.params@.len() && old(results)@.len() != fty.results@.len()
                    ==> r == Err::<(), Trap>(
                    Trap::ResultArityMismatch {
                        expected: fty.results@.len() as usize,
                        got: old(results)@.len() as usize,
                    },
                )
                &&& params@.len() == fty.params@.len() && old(results)@.len() == fty.results@.len()
                    && !args_match(params@, fty.params@) ==> exists|i: int|
                    is_first_mismatch(params@, fty.params@, i) && r == Err::<(), Trap>(
                        Trap::TypeMismatch { expected: fty.params@[i], got: params@[i].spec_ty() },
                    )
                &&& r is Err ==> final(results)@ == old(results)@
                &&& r is Ok ==> params@.len() == fty.params@.len() && args_match(
                    params@,
                    fty.params@,
                ) && final(results)@.len() == fty.results@.len() && results_ok(
                    final(results)@,
                    fty.results@,
                )
            }),
    {
        let fi = &store.funcs[self.index];
        proof {
            assert(fi.ok());
        }
        let pn = fi.sig.params.len() - 2;
        if params.len() != pn {
            return Err(Trap::ArityMismatch { expected: pn, got: params.len() });
        }
        let rn = fi.sig.returns.len();
        if results.len() != rn {
            return Err(Trap::ResultArityMismatch { expected: rn, got: results.len() });
        }
        // One scratch slot buffer serves both directions of the call.
        proof {
            assert(pn <= usize::MAX - 2);
        }
        let cap = if pn > rn {
            pn
        } else {
            rn
        };
        let mut slots: Vec<u128> = Vec::new();
        while slots.len() < cap
            invariant
                slots@.len() <= cap,
            decreases cap - slots@.len(),
        {
            slots.push(0);
        }
        // Marshal the arguments, validating each kind per slot; a mismatch
        // fails before the callee is invoked.
        let ghost fty = store.funcs@[self.index as int].ty;
        let mut i: usize = 0;
        while i < pn
            invariant
                i <= pn,
                store.owns_func(*self),
                *fi == store.funcs@[self.index as int],
                fi.ok(),
                fty == fi.ty,
                pn == fty.params@.len(),
                pn <= usize::MAX - 2,
                params@.len() == pn,
                slots@.len() == cap,
                cap >= pn,
                cap >= rn,
                rn == fty.results@.len(),
                old(results)@.len() == rn,
                results@ == old(results)@,
                forall|j: int|
                    0 <= j < i ==> (#[trigger] params@[j]).spec_ty() == fty.params@[j] && slots@[j]
                        == slot_of_val(params@[j]),
            decreases pn - i,
        {
            let expected = fi.sig.params[i + 2];
            match params[i].write_value_to(expected, &mut slots[i]) {
                Err(t) => {
                    proof {
                        assert(fty.params@[i as int].spec_is_marshalable());
                        assert(is_first_mismatch(params@, fty.params@, i as int));
                    }
                    return Err(t);
                },
                Ok(()) => {},
            }
            i = i + 1;
        }
        // The synthesized stub reads the typed arguments back out of the
        // slots for the stored callable.
        let mut args: Vec<Val> = Vec::new();
        let mut k: usize = 0;
        while k < pn
            invariant
                k <= pn,
                store.owns_func(*self),
                *fi == store.funcs@[self.index as int],
                fi.ok(),
                fty == fi.ty,
                pn == fty.params@.len(),
                pn <= usize::MAX - 2,
                params@.len() == pn,
                slots@.len() == cap,
                cap >= pn,
                cap >= rn,
                rn == fty.results@.len(),
                old(results)@.len() == rn,
                results@ == old(results)@,
                args@.len() == k,
                forall|j: int|
                    0 <= j < pn ==> (#[trigger] params@[j]).spec_ty() == fty.params@[j] && slots@[j]
                        == slot_of_val(params@[j]),
                forall|j: int| 0 <= j < k ==> #[trigger] args@[j] == params@[j],
            decreases pn - k,
        {
            let t = fi.sig.params[k + 2];
            match Val::read_value_from(slots[k], t) {
                Ok(v) => {
                    proof {
                        assert(fty.params@[k as int].spec_is_marshalable());
                        lemma_marshal_roundtrip(params@[k as int]);
                    }
                    args.push(v);
                },
                Err(t) => {
                    // Unreachable: the declared type is marshalable.
                    proof {
                        assert(fty.params@[k as int].spec_is_marshalable());
                    }
                    return Err(t);
                },
            }
            k = k + 1;
        }
        proof {
            assert(args@ =~= params@);
        }
        // A typed placeholder buffer for the callee to fill.
        let mut buf: Vec<Val> = Vec::new();
        let mut b: usize = 0;
        while b < rn
            invariant
                b <= rn,
                store.owns_func(*self),
                *fi == store.funcs@[self.index as int],
                fi.ok(),
                fty == fi.ty,
                rn == fty.results@.len(),
                old(results)@.len() == rn,
                cap >= rn,
                slots@.len() == cap,
                params@.len() == pn,
                pn == fty.params@.len(),
                args_match(params@, fty.params@),
                results@ == old(results)@,
                buf@.len() == b,
            decreases rn - b,
        {
            buf.push(scratch_val(fi.sig.returns[b]));
            b = b + 1;
        }
        // Invoke the stored host callable — the guest side of the export.
        match fi.callable.call(&args, &mut buf) {
            Err(t) => {
                return Err(t);
            },
            Ok(()) => {},
        }
        // Marshal whatever the callee left in the buffer back to the
        // caller, validating count and kind per slot.
        deliver_results(&buf, &fi.sig.returns, &mut slots, results)
    }
}

} // verus!
