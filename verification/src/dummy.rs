//! Dummy implementations of the items a module can import: placeholder
//! functions that return default values, and default-constructed globals,
//! tables and memories, one for each import a module declares.

use vstd::prelude::*;

use crate::callable::{Callable, Func};
use crate::error::Trap;
use crate::externals::{AdapterFunc, Extern, Global, Memory, Table};
use crate::store::{same_except_funcs, same_except_globals, same_except_memories, same_except_tables, Store};
use crate::types::{
    ExternType, FuncType, GlobalType, ImportType, MemoryType, TableType, ValType, PAGE_SIZE,
};
use crate::values::Val;

verus! {

/// Whether a default value exists for the kind `t`: it does for every
/// numeric kind, and for none of the vector or reference kinds.
pub open spec fn dummy_supported(t: ValType) -> bool {
    match t {
        ValType::V128 => false,
        ValType::AnyRef => false,
        ValType::FuncRef => false,
        _ => true,
    }
}

/// The default (zero) value of a supported kind.
pub open spec fn spec_dummy_value(t: ValType) -> Val {
    match t {
        ValType::I32 => Val::I32(0),
        ValType::I64 => Val::I64(0),
        ValType::F32 => Val::F32(0),
        ValType::F64 => Val::F64(0),
        ValType::S8 => Val::S8(0),
        ValType::U8 => Val::U8(0),
        ValType::S16 => Val::S16(0),
        ValType::U16 => Val::U16(0),
        ValType::S32 => Val::S32(0),
        ValType::U32 => Val::U32(0),
        ValType::S64 => Val::S64(0),
        ValType::U64 => Val::U64(0),
        _ => Val::NullRef,
    }
}

/// Constructs the default value for the given kind, or fails for a kind
/// that has none.
pub fn dummy_value(val_ty: &ValType) -> (r: Result<Val, Trap>)
    ensures
        dummy_supported(*val_ty) ==> r == Ok::<Val, Trap>(spec_dummy_value(*val_ty)),
        !dummy_supported(*val_ty) ==> r == Err::<Val, Trap>(Trap::UnsupportedType(*val_ty)),
{
    match val_ty {
        ValType::I32 => Ok(Val::I32(0)),
        ValType::I64 => Ok(Val::I64(0)),
        ValType::F32 => Ok(Val::F32(0)),
        ValType::F64 => Ok(Val::F64(0)),
        ValType::V128 => Err(Trap::UnsupportedType(ValType::V128)),
        ValType::AnyRef => Err(Trap::UnsupportedType(ValType::AnyRef)),
        ValType::FuncRef => Err(Trap::UnsupportedType(ValType::FuncRef)),
        ValType::S8 => Ok(Val::S8(0)),
        ValType::U8 => Ok(Val::U8(0)),
        ValType::S16 => Ok(Val::S16(0)),
        ValType::U16 => Ok(Val::U16(0)),
        ValType::S32 => Ok(Val::S32(0)),
        ValType::U32 => Ok(Val::U32(0)),
        ValType::S64 => Ok(Val::S64(0)),
        ValType::U64 => Ok(Val::U64(0)),
    }
}

/// Whether `i` is the first position of `tys` whose kind has no default
/// value.
pub open spec fn is_first_unsupported(tys: Seq<ValType>, i: int) -> bool {
    &&& 0 <= i < tys.len()
    &&& !dummy_supported(tys[i])
    &&& forall|j: int| 0 <= j < i ==> dummy_supported(#[trigger] tys[j])
}

/// Constructs the sequence of default values for the given kinds, or
/// fails on the first kind that has none.
pub fn dummy_values(val_tys: &Vec<ValType>) -> (r: Result<Vec<Val>, Trap>)
    ensures
        (forall|i: int| 0 <= i < val_tys@.len() ==> dummy_supported(#[trigger] val_tys@[i]))
            <==> r is Ok,
        r matches Ok(vs) ==> vs@.len() == val_tys@.len() && forall|i: int|
            0 <= i < val_tys@.len() ==> vs@[i] == spec_dummy_value(#[trigger] val_tys@[i]),
        r matches Err(t) ==> exists|i: int|
            is_first_unsupported(val_tys@, i) && t == Trap::UnsupportedType(val_tys@[i]),
{
    let mut vs: Vec<Val> = Vec::new();
    let mut i: usize = 0;
    while i < val_tys.len()
        invariant
            i <= val_tys@.len(),
            vs@.len() == i,
            forall|j: int| 0 <= j < i ==> dummy_supported(#[trigger] val_tys@[j]),
            forall|j: int| 0 <= j < i ==> vs@[j] == spec_dummy_value(#[trigger] val_tys@[j]),
        decreases val_tys@.len() - i,
    {
        match dummy_value(&val_tys[i]) {
            Ok(v) => {
                vs.push(v);
            },
            Err(t) => {
                proof {
                    assert(is_first_unsupported(val_tys@, i as int));
                }
                return Err(t);
            },
        }
        i = i + 1;
    }
    Ok(vs)
}

/// A placeholder callable that ignores its arguments and fills the result
/// buffer with the default value of each declared result kind.
pub struct DummyFunc(pub FuncType);

impl Callable for DummyFunc {
    fn call(&self, _params: &Vec<Val>, results: &mut Vec<Val>) -> Result<(), Trap> {
        let n = if self.0.results.len() < results.len() {
            self.0.results.len()
        } else {
            results.len()
        };
        let mut i: usize = 0;
        while i < n
            invariant
                i <= n,
                n <= results@.len(),
                n <= self.0.results@.len(),
                results@.len() == old(results)@.len(),
            decreases n - i,
        {
            match dummy_value(&self.0.results[i]) {
                Ok(v) => {
                    results[i] = v;
                },
                Err(t) => {
                    return Err(t);
                },
            }
            i = i + 1;
        }
        Ok(())
    }
}

impl DummyFunc {
    /// Synthesizes a placeholder function of type `ty` in `store`. The
    /// type must be bridgeable like any other export the generator
    /// accepts.
    pub fn new(store: &mut Store<DummyFunc>, ty: FuncType) -> (f: Func)
        requires
            old(store).wf(),
            ty.spec_marshalable(),
        ensures
            final(store).wf(),
            same_except_funcs(*old(store), *final(store)),
            final(store).funcs@.len() == old(store).funcs@.len() + 1,
            final(store).funcs@[old(store).funcs@.len() as int].ty == ty,
            forall|j: int|
                0 <= j < old(store).funcs@.len() ==> final(store).funcs@[j] == #[trigger] old(
                    store,
                ).funcs@[j],
            f == (Func { store_id: old(store).id, index: old(store).funcs@.len() as usize }),
            f.index as int == old(store).funcs@.len() as int,
            final(store).owns_func(f),
    {
        let callable = DummyFunc(ty.duplicate());
        Func::new(store, ty, callable)
    }
}

/// Constructs a dummy global of type `ty`: a cell holding the default
/// value of the content kind, or a fault if that kind has none.
pub fn dummy_global<C>(store: &mut Store<C>, ty: GlobalType) -> (r: Result<Global, Trap>)
    requires
        old(store).wf(),
    ensures
        final(store).wf(),
        !dummy_supported(ty.content) ==> r == Err::<Global, Trap>(
            Trap::UnsupportedType(ty.content),
        ) && *final(store) == *old(store),
        dummy_supported(ty.content) ==> (r matches Ok(g) && {
            &&& same_except_globals(*old(store), *final(store))
            &&& forall|j: int|
                0 <= j < old(store).globals@.len() ==> final(store).globals@[j] == #[trigger] old(
                    store,
                ).globals@[j]
            &&& final(store).globals@.len() == old(store).globals@.len() + 1
            &&& final(store).globals@[old(store).globals@.len() as int].ty == ty
            &&& final(store).globals@[old(store).globals@.len() as int].value == spec_dummy_value(
                ty.content,
            )
            &&& g == (Global {
                store_id: old(store).id,
                index: old(store).globals@.len() as usize,
                ty,
            })
            &&& g.index as int == old(store).globals@.len() as int
            &&& final(store).owns_global(g)
        }),
{
    let val = match dummy_value(&ty.content) {
        Ok(v) => v,
        Err(t) => {
            return Err(t);
        },
    };
    proof {
        assert(old(store).val_ok(val));
        assert(val.spec_ty() == ty.content);
    }
    match Global::new(store, ty, val) {
        Ok(g) => Ok(g),
        Err(_) => vstd::pervasive::unreached(),
    }
}

/// Constructs a dummy table of type `ty`, every slot holding the null
/// reference. Only a table of a reference kind with satisfiable bounds can
/// be populated at all.
pub fn dummy_table<C>(store: &mut Store<C>, ty: TableType) -> (r: Result<Table, Trap>)
    requires
        old(store).wf(),
        ty.element.spec_is_ref(),
        ty.limits.spec_valid(),
    ensures
        final(store).wf(),
        r matches Ok(t) && ({
            &&& same_except_tables(*old(store), *final(store))
            &&& forall|j: int|
                0 <= j < old(store).tables@.len() ==> final(store).tables@[j] == #[trigger] old(
                    store,
                ).tables@[j]
            &&& final(store).tables@.len() == old(store).tables@.len() + 1
            &&& final(store).tables@[old(store).tables@.len() as int].ty == ty
            &&& final(store).tables@[old(store).tables@.len() as int].elements@ == Seq::new(
                ty.limits.min as nat,
                |i: int| Val::NullRef,
            )
            &&& t == (Table {
                store_id: old(store).id,
                index: old(store).tables@.len() as usize,
                ty,
            })
            &&& t.index as int == old(store).tables@.len() as int
            &&& final(store).owns_table(t)
        }),
{
    match Table::new(store, ty, Val::NullRef) {
        Ok(t) => Ok(t),
        Err(_) => vstd::pervasive::unreached(),
    }
}

/// Constructs a dummy memory of type `ty`: zero-initialized at the
/// declared initial page count, like any other memory.
pub fn dummy_memory<C>(store: &mut Store<C>, ty: MemoryType) -> (r: Memory)
    requires
        old(store).wf(),
        ty.spec_valid(),
        ty.limits.min as nat * (PAGE_SIZE as nat) <= usize::MAX,
    ensures
        final(store).wf(),
        same_except_memories(*old(store), *final(store)),
        forall|j: int|
            0 <= j < old(store).memories@.len() ==> final(store).memories@[j] == #[trigger] old(
                store,
            ).memories@[j],
        final(store).memories@.len() == old(store).memories@.len() + 1,
        final(store).memories@[old(store).memories@.len() as int].ty == ty,
        r == (Memory { store_id: old(store).id, index: old(store).memories@.len() as usize, ty }),
        r.index as int == old(store).memories@.len() as int,
        final(store).owns_memory(r),
{
    Memory::new(store, ty)
}

/// Whether a dummy item can be synthesized for the import `it` at all;
/// what it cannot be synthesized for is an engine limit, not an input to
/// recover from.
pub open spec fn dummy_import_ok(it: ImportType) -> bool {
    match it.ty {
        ExternType::Func(ft) => ft.spec_marshalable(),
        ExternType::Global(_) => true,
        ExternType::Table(tt) => tt.element.spec_is_ref() && tt.limits.spec_valid(),
        ExternType::Memory(mt) => mt.spec_valid() && mt.limits.min as nat * (PAGE_SIZE as nat)
            <= usize::MAX,
        ExternType::Adapter(_) => true,
    }
}

/// Whether synthesizing a dummy item for the import `it` succeeds: only a
/// global whose content kind has no default value fails.
pub open spec fn dummy_import_succeeds(it: ImportType) -> bool {
    match it.ty {
        ExternType::Global(gt) => dummy_supported(gt.content),
        _ => true,
    }
}

/// Whether `i` is the first position of `imports` whose dummy item cannot
/// be synthesized.
pub open spec fn is_first_failing_import(imports: Seq<ImportType>, i: int) -> bool {
    &&& 0 <= i < imports.len()
    &&& !dummy_import_succeeds(imports[i])
    &&& forall|j: int| 0 <= j < i ==> dummy_import_succeeds(#[trigger] imports[j])
}

/// Whether the external item `ext` satisfies the import `it` under
/// `store`: the right kind of item, owned by `store`, of the imported
/// type.
pub open spec fn import_satisfied<C>(store: Store<C>, it: ImportType, ext: Extern) -> bool {
    match it.ty {
        ExternType::Func(ft) => ext matches Extern::Func(f) && store.owns_func(f)
            && store.funcs@[f.index as int].ty.params@ == ft.params@
            && store.funcs@[f.index as int].ty.results@ == ft.results@,
        ExternType::Global(gt) => ext matches Extern::Global(g) && store.owns_global(g) && g.ty
            == gt,
        ExternType::Table(tt) => ext matches Extern::Table(t) && store.owns_table(t) && t.ty == tt,
        ExternType::Memory(mt) => ext matches Extern::Memory(m) && store.owns_memory(m) && m.ty
            == mt,
        ExternType::Adapter(ft) => ext matches Extern::Adapter(a) && store.owns_adapter(a)
            && store.adapters@[a.index as int].params@ == ft.params@
            && store.adapters@[a.index as int].results@ == ft.results@,
    }
}

/// One store state extends another: same identity, and every instance the
/// first held is still there, unchanged, at its index.
pub open spec fn store_extends<C>(pre: Store<C>, post: Store<C>) -> bool {
    &&& post.id == pre.id
    &&& pre.globals@.len() <= post.globals@.len()
    &&& forall|j: int| 0 <= j < pre.globals@.len() ==> post.globals@[j] == #[trigger] pre.globals@[j]
    &&& pre.tables@.len() <= post.tables@.len()
    &&& forall|j: int| 0 <= j < pre.tables@.len() ==> post.tables@[j] == #[trigger] pre.tables@[j]
    &&& pre.memories@.len() <= post.memories@.len()
    &&& forall|j: int|
        0 <= j < pre.memories@.len() ==> post.memories@[j] == #[trigger] pre.memories@[j]
    &&& pre.funcs@.len() <= post.funcs@.len()
    &&& forall|j: int| 0 <= j < pre.funcs@.len() ==> post.funcs@[j] == #[trigger] pre.funcs@[j]
    &&& pre.adapters@.len() <= post.adapters@.len()
    &&& forall|j: int| 0 <= j < pre.adapters@.len() ==> post.adapters@[j] == #[trigger] pre.adapters@[j]
}

/// An item satisfying an import keeps satisfying it when the store only
/// grows.
pub proof fn lemma_import_satisfied_monotonic<C>(
    pre: Store<C>,
    post: Store<C>,
    it: ImportType,
    ext: Extern,
)
    requires
        store_extends(pre, post),
        import_satisfied(pre, it, ext),
    ensures
        import_satisfied(post, it, ext),
{
}

/// Synthesizes one dummy item per declared import: a placeholder function
/// for a function import, a default-valued global, a null-filled table, a
/// zero-filled memory, an adapter. Fails on the first global import whose
/// content kind has no default value; the items synthesized up to that
/// point stay in the store.
pub fn dummy_imports(store: &mut Store<DummyFunc>, import_tys: &Vec<ImportType>) -> (r: Result<
    Vec<Extern>,
    Trap,
>)
    requires
        old(store).wf(),
        forall|i: int| 0 <= i < import_tys@.len() ==> dummy_import_ok(#[trigger] import_tys@[i]),
    ensures
        final(store).wf(),
        store_extends(*old(store), *final(store)),
        r is Ok <==> (forall|i: int|
            0 <= i < import_tys@.len() ==> dummy_import_succeeds(#[trigger] import_tys@[i])),
        r matches Ok(v) ==> v@.len() == import_tys@.len() && forall|i: int|
            0 <= i < import_tys@.len() ==> import_satisfied(
                *final(store),
                #[trigger] import_tys@[i],
                v@[i],
            ),
        r matches Err(t) ==> exists|i: int|
            is_first_failing_import(import_tys@, i) && (import_tys@[i].ty matches
            ExternType::Global(gt) && t == Trap::UnsupportedType(gt.content)),
{
    let mut imports: Vec<Extern> = Vec::new();
    let mut i: usize = 0;
    while i < import_tys.len()
        invariant
            i <= import_tys@.len(),
            imports@.len() == i,
            store.wf(),
            store_extends(*old(store), *store),
            forall|j: int|
                0 <= j < import_tys@.len() ==> dummy_import_ok(#[trigger] import_tys@[j]),
            forall|j: int|
                0 <= j < i ==> dummy_import_succeeds(#[trigger] import_tys@[j]),
            forall|j: int|
                0 <= j < i ==> import_satisfied(*store, #[trigger] import_tys@[j], imports@[j]),
        decreases import_tys@.len() - i,
    {
        let ghost snap = *store;
        let ext = match import_tys[i].ty() {
            ExternType::Func(func_ty) => {
                let dup = func_ty.duplicate();
                proof {
                    FuncType::lemma_marshalable_like(*func_ty, dup);
                }
                Extern::Func(DummyFunc::new(store, dup))
            },
            ExternType::Global(global_ty) => {
                match dummy_global(store, *global_ty) {
                    Ok(g) => Extern::Global(g),
                    Err(t) => {
                        proof {
                            assert(is_first_failing_import(import_tys@, i as int));
                        }
                        return Err(t);
                    },
                }
            },
            ExternType::Table(table_ty) => {
                match dummy_table(store, *table_ty) {
                    Ok(t) => Extern::Table(t),
                    Err(t) => {
                        return Err(t);
                    },
                }
            },
            ExternType::Memory(mem_ty) => Extern::Memory(dummy_memory(store, *mem_ty)),
            ExternType::Adapter(adapter_ty) => Extern::Adapter(
                AdapterFunc::new(store, adapter_ty.duplicate()),
            ),
        };
        proof {
            assert(store_extends(snap, *store));
            assert(import_satisfied(*store, import_tys@[i as int], ext));
            assert forall|j: int|
                0 <= j < i implies import_satisfied(
                *store,
                #[trigger] import_tys@[j],
                imports@[j],
            ) by {
                lemma_import_satisfied_monotonic(snap, *store, import_tys@[j], imports@[j]);
            }
        }
        imports.push(ext);
        i = i + 1;
    }
    Ok(imports)
}

} // verus!
