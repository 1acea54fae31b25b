//! The canonical owner of all boundary state.
//!
//! A [`Store`] holds the storage of every global cell, table, linear
//! memory and callable function created under it; the handle types of
//! [`crate::externals`] and [`crate::callable`] name slots of this arena.
//! Each store carries the identity its [`Engine`] gave it, and every
//! operation that combines items checks that they share one store.

use vstd::prelude::*;

use crate::callable::Func;
use crate::error::ValidationError;
use crate::types::{FuncType, GlobalType, MemoryType, Signature, TableType, ValType, PAGE_SIZE};
use crate::values::Val;

verus! {

/// The storage of one global cell: its declared type and current value.
pub struct GlobalInstance {
    /// The declared content type and mutability.
    pub ty: GlobalType,
    /// The value currently stored.
    pub value: Val,
}

/// The storage of one table: its declared type and current elements.
pub struct TableInstance {
    /// The declared element type and size bounds.
    pub ty: TableType,
    /// The elements currently stored; the length is the table's size.
    pub elements: Vec<Val>,
}

/// The storage of one linear memory: its declared type and current bytes.
pub struct MemoryInstance {
    /// The declared size bounds, in pages.
    pub ty: MemoryType,
    /// The raw bytes; the length is always a whole number of pages.
    pub data: Vec<u8>,
}

/// The storage of one callable function: its public type, the compiled
/// calling-convention signature synthesized for it, and the host callable
/// the guest-facing trampoline dispatches to.
pub struct FuncInstance<C> {
    /// The type the host declared for the function.
    pub ty: FuncType,
    /// The compiled signature: two reserved execution-context entries
    /// followed by the declared parameters.
    pub sig: Signature,
    /// The host-supplied callable behind the synthesized export.
    pub callable: C,
}

impl MemoryInstance {
    /// The current size in pages.
    pub open spec fn spec_pages(self) -> nat {
        self.data@.len() / (PAGE_SIZE as nat)
    }

    /// The memory's internal invariant: the byte length is a whole number
    /// of pages and never exceeds the effective page limit.
    pub open spec fn ok(self) -> bool {
        &&& self.data@.len() % (PAGE_SIZE as nat) == 0
        &&& self.data@.len() <= self.ty.spec_page_limit() * (PAGE_SIZE as nat)
    }
}

impl<C> FuncInstance<C> {
    /// The function's internal invariant: the compiled signature is the
    /// declared type behind two reserved context entries, and every kind
    /// in it fits a call slot.
    pub open spec fn ok(self) -> bool {
        &&& self.ty.spec_marshalable()
        &&& self.sig.params@.len() == self.ty.params@.len() + 2
        &&& self.sig.params@[0] == ValType::I64
        &&& self.sig.params@[1] == ValType::I64
        &&& forall|i: int|
            0 <= i < self.ty.params@.len() ==> self.sig.params@[i + 2] == #[trigger] self.ty.params@[i]
        &&& self.sig.returns@ == self.ty.results@
    }
}

/// The factory of stores. It only hands out store identities, so that two
/// stores created under one engine are never confused with one another.
pub struct Engine {
    /// The identity the next store will receive.
    pub next_store_id: u64,
}

impl Engine {
    /// Builds a fresh engine.
    pub fn new() -> (r: Engine)
        ensures
            r.next_store_id == 0,
    {
        Engine { next_store_id: 0 }
    }
}

/// The canonical owner of boundary state: all globals, tables, memories
/// and functions created under one store identity. `C` is the host's
/// callable type (see [`crate::callable::Callable`]).
pub struct Store<C> {
    /// The identity the engine assigned to this store.
    pub id: u64,
    /// The storage of every global cell of this store.
    pub globals: Vec<GlobalInstance>,
    /// The storage of every table of this store.
    pub tables: Vec<TableInstance>,
    /// The storage of every linear memory of this store.
    pub memories: Vec<MemoryInstance>,
    /// The storage of every callable function of this store.
    pub funcs: Vec<FuncInstance<C>>,
    /// The types of the adapter functions of this store.
    pub adapters: Vec<FuncType>,
}

impl<C> Store<C> {
    /// Builds an empty store with a fresh identity from `engine`.
    pub fn new(engine: &mut Engine) -> (s: Store<C>)
        requires
            old(engine).next_store_id < u64::MAX,
        ensures
            final(engine).next_store_id == old(engine).next_store_id + 1,
            s.id == old(engine).next_store_id,
            s.globals@.len() == 0,
            s.tables@.len() == 0,
            s.memories@.len() == 0,
            s.funcs@.len() == 0,
            s.adapters@.len() == 0,
            s.wf(),
    {
        let id = engine.next_store_id;
        engine.next_store_id = engine.next_store_id + 1;
        Store {
            id,
            globals: Vec::new(),
            tables: Vec::new(),
            memories: Vec::new(),
            funcs: Vec::new(),
            adapters: Vec::new(),
        }
    }

    /// Whether `f` is a handle this store owns.
    pub open spec fn owns_func(self, f: Func) -> bool {
        &&& f.store_id == self.id
        &&& f.index < self.funcs@.len()
    }

    /// Whether a value may live inside this store: a function reference
    /// must name a function the store owns.
    pub open spec fn val_ok(self, v: Val) -> bool {
        match v {
            Val::FuncRef(f) => self.owns_func(f),
            _ => true,
        }
    }

    /// Whether `v` has the right shape for a slot of element type
    /// `element`: the declared kind itself or the null reference. Only
    /// reference kinds populate tables.
    pub open spec fn elem_type_accepts(element: ValType, v: Val) -> bool {
        match v {
            Val::NullRef => element.spec_is_ref(),
            Val::FuncRef(_) => element == ValType::FuncRef,
            _ => false,
        }
    }

    /// Whether `v` may occupy a slot of element type `element` in this
    /// store: the right shape, and any function reference owned here.
    pub open spec fn elem_ok(self, element: ValType, v: Val) -> bool {
        &&& Self::elem_type_accepts(element, v)
        &&& self.val_ok(v)
    }

    /// The invariant of one global instance under this store.
    pub open spec fn global_ok(self, g: GlobalInstance) -> bool {
        &&& g.value.spec_ty() == g.ty.content
        &&& self.val_ok(g.value)
    }

    /// The invariant of one table instance under this store: the size
    /// respects the declared maximum and fits the 32-bit index space, and
    /// every occupied slot holds the declared element kind or null.
    pub open spec fn table_ok(self, t: TableInstance) -> bool {
        &&& t.elements@.len() <= u32::MAX
        &&& match t.ty.limits.max {
            Some(m) => t.elements@.len() <= m,
            None => true,
        }
        &&& forall|i: int|
            0 <= i < t.elements@.len() ==> self.elem_ok(t.ty.element, #[trigger] t.elements@[i])
    }

    /// The well-formedness of the whole store: every instance satisfies
    /// its invariant. Every operation of the library preserves it.
    pub open spec fn wf(self) -> bool {
        &&& forall|i: int| 0 <= i < self.globals@.len() ==> self.global_ok(#[trigger] self.globals@[i])
        &&& forall|i: int| 0 <= i < self.tables@.len() ==> self.table_ok(#[trigger] self.tables@[i])
        &&& forall|i: int| 0 <= i < self.memories@.len() ==> (#[trigger] self.memories@[i]).ok()
        &&& forall|i: int| 0 <= i < self.funcs@.len() ==> (#[trigger] self.funcs@[i]).ok()
    }

    /// Checks whether `v` may occupy a slot of element type `element` in
    /// this store, reporting a type mismatch for the wrong shape and a
    /// cross-store fault for a reference this store does not own.
    pub fn check_elem(&self, element: ValType, v: &Val) -> (r: Result<(), ValidationError>)
        ensures
            r is Ok <==> self.elem_ok(element, *v),
            !Self::elem_type_accepts(element, *v) ==> r == Err::<(), ValidationError>(
                ValidationError::TypeMismatch { expected: element, got: v.spec_ty() },
            ),
            Self::elem_type_accepts(element, *v) && !self.val_ok(*v) ==> r == Err::<(),
            ValidationError>(ValidationError::CrossStore),
    {
        match v {
            Val::NullRef => {
                if element.is_ref() {
                    Ok(())
                } else {
                    Err(ValidationError::TypeMismatch { expected: element, got: v.ty() })
                }
            },
            Val::FuncRef(f) => {
                if element != ValType::FuncRef {
                    Err(ValidationError::TypeMismatch { expected: element, got: v.ty() })
                } else if f.store_id == self.id && f.index < self.funcs.len() {
                    Ok(())
                } else {
                    Err(ValidationError::CrossStore)
                }
            },
            _ => Err(ValidationError::TypeMismatch { expected: element, got: v.ty() }),
        }
    }
}

impl Val {
    /// Whether this value may live inside `store`: true of every plain
    /// value, and of a function reference exactly when `store` owns it.
    pub fn comes_from_same_store<C>(&self, store: &Store<C>) -> (r: bool)
        ensures
            r == store.val_ok(*self),
    {
        match self {
            Val::FuncRef(f) => f.store_id == store.id && f.index < store.funcs.len(),
            _ => true,
        }
    }
}

/// Everything of `pre` except its globals storage is unchanged in `post`.
pub open spec fn same_except_globals<C>(pre: Store<C>, post: Store<C>) -> bool {
    &&& post.id == pre.id
    &&& post.tables@ == pre.tables@
    &&& post.memories@ == pre.memories@
    &&& post.funcs@ == pre.funcs@
    &&& post.adapters@ == pre.adapters@
}

/// Everything of `pre` except its tables storage is unchanged in `post`.
pub open spec fn same_except_tables<C>(pre: Store<C>, post: Store<C>) -> bool {
    &&& post.id == pre.id
    &&& post.globals@ == pre.globals@
    &&& post.memories@ == pre.memories@
    &&& post.funcs@ == pre.funcs@
    &&& post.adapters@ == pre.adapters@
}

/// Everything of `pre` except its memories storage is unchanged in `post`.
pub open spec fn same_except_memories<C>(pre: Store<C>, post: Store<C>) -> bool {
    &&& post.id == pre.id
    &&& post.globals@ == pre.globals@
    &&& post.tables@ == pre.tables@
    &&& post.funcs@ == pre.funcs@
    &&& post.adapters@ == pre.adapters@
}

/// Everything of `pre` except its functions storage is unchanged in
/// `post`.
pub open spec fn same_except_funcs<C>(pre: Store<C>, post: Store<C>) -> bool {
    &&& post.id == pre.id
    &&& post.globals@ == pre.globals@
    &&& post.tables@ == pre.tables@
    &&& post.memories@ == pre.memories@
    &&& post.adapters@ == pre.adapters@
}

/// Everything of `pre` except its adapters storage is unchanged in
/// `post`.
pub open spec fn same_except_adapters<C>(pre: Store<C>, post: Store<C>) -> bool {
    &&& post.id == pre.id
    &&& post.globals@ == pre.globals@
    &&& post.tables@ == pre.tables@
    &&& post.memories@ == pre.memories@
    &&& post.funcs@ == pre.funcs@
}

/// A byte length that is a whole number of pages and bounded by a page
/// limit divides back into a page count bounded by that limit.
pub proof fn lemma_page_arith(len: int, limit: int)
    requires
        len >= 0,
        limit >= 0,
        len % (PAGE_SIZE as int) == 0,
        len <= limit * (PAGE_SIZE as int),
    ensures
        len == (len / (PAGE_SIZE as int)) * (PAGE_SIZE as int),
        len / (PAGE_SIZE as int) <= limit,
{
    vstd::arithmetic::div_mod::lemma_fundamental_div_mod(len, PAGE_SIZE as int);
    vstd::arithmetic::div_mod::lemma_div_is_ordered(
        len,
        limit * (PAGE_SIZE as int),
        PAGE_SIZE as int,
    );
    vstd::arithmetic::div_mod::lemma_div_multiples_vanish(limit, PAGE_SIZE as int);
}

/// A whole number of pages turns into a byte length that is a multiple of
/// the page size and divides back into the same page count.
pub proof fn lemma_pages_to_bytes(pages: int)
    requires
        pages >= 0,
    ensures
        (pages * (PAGE_SIZE as int)) % (PAGE_SIZE as int) == 0,
        (pages * (PAGE_SIZE as int)) / (PAGE_SIZE as int) == pages,
{
    vstd::arithmetic::div_mod::lemma_mod_multiples_basic(pages, PAGE_SIZE as int);
    vstd::arithmetic::div_mod::lemma_div_multiples_vanish(pages, PAGE_SIZE as int);
}

/// Copies a vector of plain values element by element.
pub fn copy_vec<T: Copy>(v: &Vec<T>) -> (r: Vec<T>)
    ensures
        r@ == v@,
{
    let mut r: Vec<T> = Vec::new();
    let mut i: usize = 0;
    while i < v.len()
        invariant
            i <= v@.len(),
            r@ == v@.subrange(0, i as int),
        decreases v@.len() - i,
    {
        r.push(v[i]);
        i = i + 1;
    }
    proof {
        assert(v@.subrange(0, v@.len() as int) == v@);
    }
    r
}

/// Instance invariants only mention the store through its identity and
/// how many functions it owns, so they survive any step that keeps the
/// identity and does not shrink the function storage.
pub proof fn lemma_instances_ok_preserved<C>(pre: Store<C>, post: Store<C>)
    requires
        post.id == pre.id,
        post.funcs@.len() >= pre.funcs@.len(),
    ensures
        forall|v: Val| pre.val_ok(v) ==> #[trigger] post.val_ok(v),
        forall|e: ValType, v: Val| pre.elem_ok(e, v) ==> #[trigger] post.elem_ok(e, v),
        forall|g: GlobalInstance| pre.global_ok(g) ==> #[trigger] post.global_ok(g),
        forall|t: TableInstance| pre.table_ok(t) ==> #[trigger] post.table_ok(t),
{
    assert forall|v: Val| pre.val_ok(v) implies #[trigger] post.val_ok(v) by {
        match v {
            Val::FuncRef(_) => {},
            _ => {},
        }
    }
    assert forall|t: TableInstance| pre.table_ok(t) implies #[trigger] post.table_ok(t) by {
        assert forall|i: int|
            0 <= i < t.elements@.len() implies post.elem_ok(
            t.ty.element,
            #[trigger] t.elements@[i],
        ) by {
            assert(pre.elem_ok(t.ty.element, t.elements@[i]));
        }
    }
}

} // verus!
