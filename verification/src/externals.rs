//! The external object model: typed handles over the globals, tables and
//! linear memories a store owns.
//!
//! A handle is a small copyable token naming one slot of the store's
//! arena; clones of a handle observe the same storage. Construction
//! checks types, every access is bounds-checked, and every operation that
//! combines two items first checks that they share one store and fails
//! without mutating anything otherwise.

use vstd::prelude::*;

use crate::callable::Func;
use crate::error::ValidationError;
use crate::store::{
    copy_vec, same_except_adapters, same_except_globals, same_except_memories, same_except_tables,
    lemma_instances_ok_preserved, lemma_page_arith, lemma_pages_to_bytes, GlobalInstance,
    MemoryInstance, Store, TableInstance,
};
use crate::types::{
    ExternType, FuncType, GlobalType, MemoryType, Mutability, TableType, ValType, PAGE_SIZE,
};
use crate::values::Val;

verus! {

/// A handle to a global cell owned by a store.
#[derive(Clone, Copy, Debug, PartialEq, Eq)]
pub struct Global {
    /// The identity of the owning store.
    pub store_id: u64,
    /// The index of the cell's storage within the owning store.
    pub index: usize,
    /// The declared type of the cell.
    pub ty: GlobalType,
}

/// A handle to a table owned by a store.
#[derive(Clone, Copy, Debug, PartialEq, Eq)]
pub struct Table {
    /// The identity of the owning store.
    pub store_id: u64,
    /// The index of the table's storage within the owning store.
    pub index: usize,
    /// The declared type of the table.
    pub ty: TableType,
}

/// A handle to a linear memory owned by a store.
#[derive(Clone, Copy, Debug, PartialEq, Eq)]
pub struct Memory {
    /// The identity of the owning store.
    pub store_id: u64,
    /// The index of the memory's storage within the owning store.
    pub index: usize,
    /// The declared type of the memory.
    pub ty: MemoryType,
}

/// A handle to an adapter function of a non-core extension.
#[derive(Clone, Copy, Debug, PartialEq, Eq)]
pub struct AdapterFunc {
    /// The identity of the owning store.
    pub store_id: u64,
    /// The index of the adapter's type within the owning store.
    pub index: usize,
}

impl<C> Store<C> {
    /// Whether `g` is a global handle this store owns, with the type its
    /// storage declares.
    pub open spec fn owns_global(self, g: Global) -> bool {
        &&& g.store_id == self.id
        &&& g.index < self.globals@.len()
        &&& self.globals@[g.index as int].ty == g.ty
    }

    /// Whether `t` is a table handle this store owns, with the type its
    /// storage declares.
    pub open spec fn owns_table(self, t: Table) -> bool {
        &&& t.store_id == self.id
        &&& t.index < self.tables@.len()
        &&& self.tables@[t.index as int].ty == t.ty
    }

    /// Whether `m` is a memory handle this store owns, with the type its
    /// storage declares.
    pub open spec fn owns_memory(self, m: Memory) -> bool {
        &&& m.store_id == self.id
        &&& m.index < self.memories@.len()
        &&& self.memories@[m.index as int].ty == m.ty
    }

    /// Whether `a` is an adapter handle this store owns.
    pub open spec fn owns_adapter(self, a: AdapterFunc) -> bool {
        &&& a.store_id == self.id
        &&& a.index < self.adapters@.len()
    }
}

/// Whether `set` may store `val` into the global `g` names: the cell is
/// mutable, the value has the declared content kind, and the value lives
/// in the same store.
pub open spec fn global_can_set<C>(s: Store<C>, g: Global, val: Val) -> bool {
    &&& g.ty.mutability == Mutability::Var
    &&& val.spec_ty() == g.ty.content
    &&& s.val_ok(val)
}

/// `post` is `pre` with exactly the cell `g` names overwritten by `val`.
pub open spec fn global_set_post<C>(pre: Store<C>, post: Store<C>, g: Global, val: Val) -> bool {
    &&& same_except_globals(pre, post)
    &&& post.globals@.len() == pre.globals@.len()
    &&& post.globals@[g.index as int].ty == pre.globals@[g.index as int].ty
    &&& post.globals@[g.index as int].value == val
    &&& forall|j: int|
        0 <= j < pre.globals@.len() && j != g.index ==> post.globals@[j] == #[trigger] pre.globals@[j]
}

impl Global {
    /// Creates a new global cell in `store` with type `ty` and initial
    /// value `val`. Fails with a cross-store error if `val` lives in
    /// another store, and with a type mismatch if `val`'s kind is not the
    /// declared content kind; on failure the store is untouched.
    pub fn new<C>(store: &mut Store<C>, ty: GlobalType, val: Val) -> (r: Result<
        Global,
        ValidationError,
    >)
        requires
            old(store).wf(),
        ensures
            final(store).wf(),
            r is Ok <==> old(store).val_ok(val) && val.spec_ty() == ty.content,
            !old(store).val_ok(val) ==> r == Err::<Global, ValidationError>(
                ValidationError::CrossStore,
            ),
            old(store).val_ok(val) && val.spec_ty() != ty.content ==> r == Err::<
                Global,
                ValidationError,
            >(ValidationError::TypeMismatch { expected: ty.content, got: val.spec_ty() }),
            r is Err ==> *final(store) == *old(store),
            r matches Ok(g) ==> ({
                &&& same_except_globals(*old(store), *final(store))
                &&& final(store).globals@ == old(store).globals@.push(
                    GlobalInstance { ty, value: val },
                )
                &&& g == (Global {
                    store_id: old(store).id,
                    index: old(store).globals@.len() as usize,
                    ty,
                })
                &&& g.index as int == old(store).globals@.len() as int
                &&& final(store).owns_global(g)
            }),
    {
        if !val.comes_from_same_store(store) {
            return Err(ValidationError::CrossStore);
        }
        let got = val.ty();
        if got != ty.content {
            return Err(ValidationError::TypeMismatch { expected: ty.content, got });
        }
        let index = store.globals.len();
        store.globals.push(GlobalInstance { ty, value: val });
        proof {
            let pre = *old(store);
            let post = *store;
            lemma_instances_ok_preserved::<C>(pre, post);
            assert forall|i: int|
                0 <= i < post.globals@.len() implies post.global_ok(
                #[trigger] post.globals@[i],
            ) by {
                if i < pre.globals@.len() {
                    assert(pre.global_ok(pre.globals@[i]));
                } else {
                    assert(post.globals@[i] == (GlobalInstance { ty, value: val }));
                }
            }
            assert forall|i: int|
                0 <= i < post.tables@.len() implies post.table_ok(#[trigger] post.tables@[i]) by {
                assert(pre.table_ok(pre.tables@[i]));
            }
        }
        Ok(Global { store_id: store.id, index, ty })
    }

    /// The declared type of this global.
    pub fn ty(&self) -> (r: GlobalType)
        ensures
            r == self.ty,
    {
        self.ty
    }

    /// The value currently stored in the cell this handle names.
    pub fn get<C>(&self, store: &Store<C>) -> (r: Val)
        requires
            store.wf(),
            store.owns_global(*self),
        ensures
            r == store.globals@[self.index as int].value,
            r.spec_ty() == self.ty.content,
    {
        proof {
            assert(store.global_ok(store.globals@[self.index as int]));
        }
        store.globals[self.index].value
    }

    /// Stores `val` into the cell this handle names. Fails — leaving the
    /// store untouched — if the cell is immutable, if `val`'s kind is not
    /// the declared content kind, or if `val` lives in another store; on
    /// success the new value is immediately visible to every handle of the
    /// cell.
    pub fn set<C>(&self, store: &mut Store<C>, val: Val) -> (r: Result<(), ValidationError>)
        requires
            old(store).wf(),
            old(store).owns_global(*self),
        ensures
            final(store).wf(),
            final(store).owns_global(*self),
            r is Ok <==> global_can_set(*old(store), *self, val),
            self.ty.mutability != Mutability::Var ==> r == Err::<(), ValidationError>(
                ValidationError::ImmutableGlobal,
            ),
            self.ty.mutability == Mutability::Var && val.spec_ty() != self.ty.content ==> r
                == Err::<(), ValidationError>(
                ValidationError::TypeMismatch { expected: self.ty.content, got: val.spec_ty() },
            ),
            self.ty.mutability == Mutability::Var && val.spec_ty() == self.ty.content && !old(
                store,
            ).val_ok(val) ==> r == Err::<(), ValidationError>(ValidationError::CrossStore),
            r is Err ==> *final(store) == *old(store),
            r is Ok ==> global_set_post(*old(store), *final(store), *self, val),
    {
        if !(self.ty.mutability == Mutability::Var) {
            return Err(ValidationError::ImmutableGlobal);
        }
        let got = val.ty();
        if got != self.ty.content {
            return Err(ValidationError::TypeMismatch { expected: self.ty.content, got });
        }
        if !val.comes_from_same_store(store) {
            return Err(ValidationError::CrossStore);
        }
        store.globals[self.index] = GlobalInstance { ty: self.ty, value: val };
        proof {
            let pre = *old(store);
            let post = *store;
            lemma_instances_ok_preserved::<C>(pre, post);
            assert forall|i: int|
                0 <= i < post.globals@.len() implies post.global_ok(
                #[trigger] post.globals@[i],
            ) by {
                if i != self.index {
                    assert(pre.global_ok(pre.globals@[i]));
                }
            }
            assert forall|i: int|
                0 <= i < post.tables@.len() implies post.table_ok(#[trigger] post.tables@[i]) by {
                assert(pre.table_ok(pre.tables@[i]));
            }
        }
        Ok(())
    }
}

/// Whether `grow` may extend the table `t` names by `delta` slots filled
/// with `init`: the fill value may occupy a slot, and the new size fits
/// both the 32-bit index space and the declared maximum.
pub open spec fn table_can_grow<C>(s: Store<C>, t: Table, delta: u32, init: Val) -> bool {
    &&& s.elem_ok(t.ty.element, init)
    &&& s.tables@[t.index as int].elements@.len() + delta <= u32::MAX
    &&& match t.ty.limits.max {
        Some(m) => s.tables@[t.index as int].elements@.len() + delta <= m,
        None => true,
    }
}

/// `post` is `pre` with exactly the table `t` names extended by `delta`
/// copies of `init`.
pub open spec fn table_grow_post<C>(
    pre: Store<C>,
    post: Store<C>,
    t: Table,
    delta: u32,
    init: Val,
) -> bool {
    &&& same_except_tables(pre, post)
    &&& post.tables@.len() == pre.tables@.len()
    &&& post.tables@[t.index as int].ty == pre.tables@[t.index as int].ty
    &&& post.tables@[t.index as int].elements@ == pre.tables@[t.index as int].elements@
        + Seq::new(delta as nat, |i: int| init)
    &&& forall|j: int|
        0 <= j < pre.tables@.len() && j != t.index ==> post.tables@[j] == #[trigger] pre.tables@[j]
}

/// Whether `copy` may move `len` elements from `src` at `src_index` into
/// `dst` at `dst_index` under store `s`: both handles belong to `s`, the
/// element types agree, and both sub-ranges lie within the current sizes.
pub open spec fn table_copy_args_ok<C>(
    s: Store<C>,
    dst: Table,
    dst_index: u32,
    src: Table,
    src_index: u32,
    len: u32,
) -> bool {
    &&& dst.store_id == s.id
    &&& src.store_id == s.id
    &&& dst.ty.element == src.ty.element
    &&& src_index + len <= s.tables@[src.index as int].elements@.len()
    &&& dst_index + len <= s.tables@[dst.index as int].elements@.len()
}

/// `post` is `pre` with exactly the destination sub-range overwritten by
/// the source sub-range as `pre` held it; everything else, the rest of the
/// destination included, is unchanged.
pub open spec fn table_copy_post<C>(
    pre: Store<C>,
    post: Store<C>,
    dst: Table,
    dst_index: u32,
    src: Table,
    src_index: u32,
    len: u32,
) -> bool {
    &&& same_except_tables(pre, post)
    &&& post.tables@.len() == pre.tables@.len()
    &&& post.tables@[dst.index as int].ty == pre.tables@[dst.index as int].ty
    &&& post.tables@[dst.index as int].elements@.len() == pre.tables@[dst.index as int].elements@.len()
    &&& forall|p: int|
        dst_index <= p < dst_index + len ==> #[trigger] post.tables@[dst.index as int].elements@[p]
            == pre.tables@[src.index as int].elements@[p - dst_index + src_index]
    &&& forall|p: int|
        0 <= p < pre.tables@[dst.index as int].elements@.len() && !(dst_index <= p < dst_index
            + len) ==> #[trigger] post.tables@[dst.index as int].elements@[p]
            == pre.tables@[dst.index as int].elements@[p]
    &&& forall|j: int|
        0 <= j < pre.tables@.len() && j != dst.index ==> post.tables@[j] == #[trigger] pre.tables@[j]
}

impl Table {
    /// Creates a new table in `store` with type `ty`, sized to the
    /// declared initial size with every slot holding `init`. Fails —
    /// leaving the store untouched — if `init` may not occupy a slot of
    /// the element type, if it lives in another store, or if the declared
    /// bounds are unsatisfiable.
    pub fn new<C>(store: &mut Store<C>, ty: TableType, init: Val) -> (r: Result<
        Table,
        ValidationError,
    >)
        requires
            old(store).wf(),
        ensures
            final(store).wf(),
            r is Ok <==> old(store).elem_ok(ty.element, init) && ty.limits.spec_valid(),
            !Store::<C>::elem_type_accepts(ty.element, init) ==> r == Err::<Table, ValidationError>(
                ValidationError::TypeMismatch { expected: ty.element, got: init.spec_ty() },
            ),
            Store::<C>::elem_type_accepts(ty.element, init) && !old(store).val_ok(init) ==> r
                == Err::<Table, ValidationError>(ValidationError::CrossStore),
            old(store).elem_ok(ty.element, init) && !ty.limits.spec_valid() ==> r == Err::<
                Table,
                ValidationError,
            >(ValidationError::InvalidLimits),
            r is Err ==> *final(store) == *old(store),
            r matches Ok(t) ==> ({
                &&& same_except_tables(*old(store), *final(store))
                &&& final(store).tables@.len() == old(store).tables@.len() + 1
                &&& final(store).tables@[old(store).tables@.len() as int].ty == ty
                &&& final(store).tables@[old(store).tables@.len() as int].elements@ == Seq::new(
                    ty.limits.min as nat,
                    |i: int| init,
                )
                &&& forall|j: int|
                    0 <= j < old(store).tables@.len() ==> final(store).tables@[j] == #[trigger] old(
                        store,
                    ).tables@[j]
                &&& t == (Table {
                    store_id: old(store).id,
                    index: old(store).tables@.len() as usize,
                    ty,
                })
                &&& t.index as int == old(store).tables@.len() as int
                &&& final(store).owns_table(t)
            }),
    {
        match store.check_elem(ty.element, &init) {
            Err(e) => {
                return Err(e);
            },
            Ok(()) => {},
        }
        if !ty.limits.valid() {
            return Err(ValidationError::InvalidLimits);
        }
        let n = ty.limits.min as usize;
        let mut elems: Vec<Val> = Vec::new();
        let mut k: usize = 0;
        while k < n
            invariant
                k <= n,
                elems@ == Seq::new(k as nat, |i: int| init),
            decreases n - k,
        {
            elems.push(init);
            proof {
                assert(elems@ == Seq::new((k + 1) as nat, |i: int| init)) by {
                    assert(elems@ =~= Seq::new((k + 1) as nat, |i: int| init));
                }
            }
            k = k + 1;
        }
        let index = store.tables.len();
        store.tables.push(TableInstance { ty, elements: elems });
        proof {
            let pre = *old(store);
            let post = *store;
            lemma_instances_ok_preserved::<C>(pre, post);
            assert forall|i: int|
                0 <= i < post.globals@.len() implies post.global_ok(
                #[trigger] post.globals@[i],
            ) by {
                assert(pre.global_ok(pre.globals@[i]));
            }
            assert forall|i: int|
                0 <= i < post.tables@.len() implies post.table_ok(#[trigger] post.tables@[i]) by {
                if i < pre.tables@.len() {
                    assert(pre.table_ok(pre.tables@[i]));
                } else {
                    assert forall|p: int|
                        0 <= p < post.tables@[i].elements@.len() implies post.elem_ok(
                        post.tables@[i].ty.element,
                        #[trigger] post.tables@[i].elements@[p],
                    ) by {
                        assert(post.tables@[i].elements@[p] == init);
                        assert(pre.elem_ok(ty.element, init));
                    }
                }
            }
        }
        Ok(Table { store_id: store.id, index, ty })
    }

    /// The declared type of this table.
    pub fn ty(&self) -> (r: TableType)
        ensures
            r == self.ty,
    {
        self.ty
    }

    /// The element stored at `index`, or an absent result — never a
    /// failure — when `index` lies at or beyond the current size.
    pub fn get<C>(&self, store: &Store<C>, index: u32) -> (r: Option<Val>)
        requires
            store.wf(),
            store.owns_table(*self),
        ensures
            index as int >= store.tables@[self.index as int].elements@.len() ==> r is None,
            (index as int) < store.tables@[self.index as int].elements@.len() ==> r == Some(
                store.tables@[self.index as int].elements@[index as int],
            ),
    {
        let elems = &store.tables[self.index].elements;
        let i = index as usize;
        if i >= elems.len() {
            None
        } else {
            Some(elems[i])
        }
    }

    /// Stores `val` at `index`. Fails — leaving the store untouched — if
    /// `val` may not occupy a slot of the element type, if it lives in
    /// another store, or if `index` lies at or beyond the current size.
    pub fn set<C>(&self, store: &mut Store<C>, index: u32, val: Val) -> (r: Result<
        (),
        ValidationError,
    >)
        requires
            old(store).wf(),
            old(store).owns_table(*self),
        ensures
            final(store).wf(),
            final(store).owns_table(*self),
            r is Ok <==> old(store).elem_ok(self.ty.element, val) && (index as int) < old(
                store,
            ).tables@[self.index as int].elements@.len(),
            !Store::<C>::elem_type_accepts(self.ty.element, val) ==> r == Err::<(),
            ValidationError>(
                ValidationError::TypeMismatch { expected: self.ty.element, got: val.spec_ty() },
            ),
            Store::<C>::elem_type_accepts(self.ty.element, val) && !old(store).val_ok(val) ==> r
                == Err::<(), ValidationError>(ValidationError::CrossStore),
            old(store).elem_ok(self.ty.element, val) && index as int >= old(store).tables@[self.index as int].elements@.len()
                ==> r == Err::<(), ValidationError>(ValidationError::OutOfBounds),
            r is Err ==> *final(store) == *old(store),
            r is Ok ==> ({
                &&& same_except_tables(*old(store), *final(store))
                &&& final(store).tables@.len() == old(store).tables@.len()
                &&& final(store).tables@[self.index as int].ty == self.ty
                &&& final(store).tables@[self.index as int].elements@ == old(
                    store,
                ).tables@[self.index as int].elements@.update(index as int, val)
                &&& forall|j: int|
                    0 <= j < old(store).tables@.len() && j != self.index ==> final(store).tables@[j]
                        == #[trigger] old(store).tables@[j]
            }),
    {
        match store.check_elem(self.ty.element, &val) {
            Err(e) => {
                return Err(e);
            },
            Ok(()) => {},
        }
        let i = index as usize;
        if i >= store.tables[self.index].elements.len() {
            return Err(ValidationError::OutOfBounds);
        }
        let t = &mut store.tables[self.index];
        t.elements[i] = val;
        proof {
            let pre = *old(store);
            let post = *store;
            lemma_instances_ok_preserved::<C>(pre, post);
            assert forall|i2: int|
                0 <= i2 < post.globals@.len() implies post.global_ok(
                #[trigger] post.globals@[i2],
            ) by {
                assert(pre.global_ok(pre.globals@[i2]));
            }
            assert forall|i2: int|
                0 <= i2 < post.tables@.len() implies post.table_ok(#[trigger] post.tables@[i2]) by {
                if i2 != self.index {
                    assert(pre.table_ok(pre.tables@[i2]));
                } else {
                    assert(pre.table_ok(pre.tables@[i2]));
                    assert forall|p: int|
                        0 <= p < post.tables@[i2].elements@.len() implies post.elem_ok(
                        post.tables@[i2].ty.element,
                        #[trigger] post.tables@[i2].elements@[p],
                    ) by {
                        if p == index as int {
                            assert(pre.elem_ok(self.ty.element, val));
                        } else {
                            assert(pre.elem_ok(pre.tables@[i2].ty.element, pre.tables@[i2].elements@[p]));
                        }
                    }
                }
            }
        }
        Ok(())
    }

    /// The current size of this table, in elements.
    pub fn size<C>(&self, store: &Store<C>) -> (r: u32)
        requires
            store.wf(),
            store.owns_table(*self),
        ensures
            r as int == store.tables@[self.index as int].elements@.len(),
    {
        proof {
            assert(store.table_ok(store.tables@[self.index as int]));
        }
        store.tables[self.index].elements.len() as u32
    }

    /// Extends this table by `delta` slots, each holding `init`, and
    /// returns the size before growth; growing by zero changes nothing and
    /// returns the current size. Fails — leaving the store untouched — if
    /// `init` may not occupy a slot, if it lives in another store, or if
    /// the grown size would exceed the declared maximum or the 32-bit
    /// index space.
    pub fn grow<C>(&self, store: &mut Store<C>, delta: u32, init: Val) -> (r: Result<
        u32,
        ValidationError,
    >)
        requires
            old(store).wf(),
            old(store).owns_table(*self),
        ensures
            final(store).wf(),
            final(store).owns_table(*self),
            r is Ok <==> table_can_grow(*old(store), *self, delta, init),
            !Store::<C>::elem_type_accepts(self.ty.element, init) ==> r == Err::<u32,
            ValidationError>(
                ValidationError::TypeMismatch { expected: self.ty.element, got: init.spec_ty() },
            ),
            Store::<C>::elem_type_accepts(self.ty.element, init) && !old(store).val_ok(init) ==> r
                == Err::<u32, ValidationError>(ValidationError::CrossStore),
            old(store).elem_ok(self.ty.element, init) && !table_can_grow(
                *old(store),
                *self,
                delta,
                init,
            ) ==> r == Err::<u32, ValidationError>(ValidationError::GrowFailure),
            r is Err ==> *final(store) == *old(store),
            r matches Ok(n) ==> n as int == old(store).tables@[self.index as int].elements@.len()
                && table_grow_post(*old(store), *final(store), *self, delta, init),
    {
        match store.check_elem(self.ty.element, &init) {
            Err(e) => {
                return Err(e);
            },
            Ok(()) => {},
        }
        proof {
            assert(store.table_ok(store.tables@[self.index as int]));
        }
        let cur = store.tables[self.index].elements.len() as u32;
        let new_size: u64 = cur as u64 + delta as u64;
        if new_size > u32::MAX as u64 {
            return Err(ValidationError::GrowFailure);
        }
        match self.ty.limits.max {
            Some(m) => {
                if new_size > m as u64 {
                    return Err(ValidationError::GrowFailure);
                }
            },
            None => {},
        }
        let mut elems = copy_vec(&store.tables[self.index].elements);
        let ghost orig = store.tables@[self.index as int].elements@;
        let mut k: u32 = 0;
        while k < delta
            invariant
                k <= delta,
                elems@ == orig + Seq::new(k as nat, |i: int| init),
            decreases delta - k,
        {
            elems.push(init);
            proof {
                assert(elems@ =~= orig + Seq::new((k + 1) as nat, |i: int| init));
            }
            k = k + 1;
        }
        store.tables[self.index] = TableInstance { ty: self.ty, elements: elems };
        proof {
            let pre = *old(store);
            let post = *store;
            lemma_instances_ok_preserved::<C>(pre, post);
            assert forall|i2: int|
                0 <= i2 < post.globals@.len() implies post.global_ok(
                #[trigger] post.globals@[i2],
            ) by {
                assert(pre.global_ok(pre.globals@[i2]));
            }
            assert forall|i2: int|
                0 <= i2 < post.tables@.len() implies post.table_ok(#[trigger] post.tables@[i2]) by {
                if i2 != self.index {
                    assert(pre.table_ok(pre.tables@[i2]));
                } else {
                    assert(pre.table_ok(pre.tables@[i2]));
                    assert forall|p: int|
                        0 <= p < post.tables@[i2].elements@.len() implies post.elem_ok(
                        post.tables@[i2].ty.element,
                        #[trigger] post.tables@[i2].elements@[p],
                    ) by {
                        if p < orig.len() {
                            assert(pre.elem_ok(pre.tables@[i2].ty.element, pre.tables@[i2].elements@[p]));
                        } else {
                            assert(post.tables@[i2].elements@[p] == init);
                            assert(pre.elem_ok(self.ty.element, init));
                        }
                    }
                }
            }
        }
        Ok(cur)
    }

    /// Copies `len` elements from `src_table` starting at `src_index` into
    /// `dst_table` starting at `dst_index`. The tables may differ but must
    /// belong to the same store — to `store` — and share one element
    /// type; if either sub-range is out of bounds, or any check fails,
    /// neither table is changed in any way.
    pub fn copy<C>(
        store: &mut Store<C>,
        dst_table: &Table,
        dst_index: u32,
        src_table: &Table,
        src_index: u32,
        len: u32,
    ) -> (r: Result<(), ValidationError>)
        requires
            old(store).wf(),
            dst_table.store_id == old(store).id ==> old(store).owns_table(*dst_table),
            src_table.store_id == old(store).id ==> old(store).owns_table(*src_table),
        ensures
            final(store).wf(),
            r is Ok <==> table_copy_args_ok(
                *old(store),
                *dst_table,
                dst_index,
                *src_table,
                src_index,
                len,
            ),
            dst_table.store_id != src_table.store_id || dst_table.store_id != old(store).id ==> r
                == Err::<(), ValidationError>(ValidationError::CrossStore),
            dst_table.store_id == src_table.store_id && dst_table.store_id == old(store).id
                && dst_table.ty.element != src_table.ty.element ==> r == Err::<(),
            ValidationError>(
                ValidationError::TypeMismatch {
                    expected: dst_table.ty.element,
                    got: src_table.ty.element,
                },
            ),
            dst_table.store_id == src_table.store_id && dst_table.store_id == old(store).id
                && dst_table.ty.element == src_table.ty.element && !table_copy_args_ok(
                *old(store),
                *dst_table,
                dst_index,
                *src_table,
                src_index,
                len,
            ) ==> r == Err::<(), ValidationError>(ValidationError::OutOfBounds),
            r is Err ==> *final(store) == *old(store),
            r is Ok ==> table_copy_post(
                *old(store),
                *final(store),
                *dst_table,
                dst_index,
                *src_table,
                src_index,
                len,
            ),
    {
        if dst_table.store_id != src_table.store_id {
            return Err(ValidationError::CrossStore);
        }
        if dst_table.store_id != store.id {
            return Err(ValidationError::CrossStore);
        }
        if dst_table.ty.element != src_table.ty.element {
            return Err(
                ValidationError::TypeMismatch {
                    expected: dst_table.ty.element,
                    got: src_table.ty.element,
                },
            );
        }
        let src_len = store.tables[src_table.index].elements.len();
        let dst_len = store.tables[dst_table.index].elements.len();
        if src_index as u64 + len as u64 > src_len as u64 {
            return Err(ValidationError::OutOfBounds);
        }
        if dst_index as u64 + len as u64 > dst_len as u64 {
            return Err(ValidationError::OutOfBounds);
        }
        let si = src_index as usize;
        let di = dst_index as usize;
        let n = len as usize;
        let mut tmp: Vec<Val> = Vec::new();
        let mut k: usize = 0;
        while k < n
            invariant
                k <= n,
                si + n <= src_len,
                src_len == store.tables@[src_table.index as int].elements@.len(),
                src_table.index < store.tables@.len(),
                tmp@.len() == k,
                forall|p: int|
                    0 <= p < k ==> #[trigger] tmp@[p] == store.tables@[src_table.index as int].elements@[si + p],
            decreases n - k,
        {
            tmp.push(store.tables[src_table.index].elements[si + k]);
            k = k + 1;
        }
        let mut elems = copy_vec(&store.tables[dst_table.index].elements);
        let ghost orig_dst = store.tables@[dst_table.index as int].elements@;
        let mut k2: usize = 0;
        while k2 < n
            invariant
                k2 <= n,
                di + n <= dst_len,
                dst_len == orig_dst.len(),
                elems@.len() == orig_dst.len(),
                tmp@.len() == n,
                forall|p: int|
                    di <= p < di + k2 ==> #[trigger] elems@[p] == tmp@[p - di],
                forall|p: int|
                    0 <= p < orig_dst.len() && !(di <= p < di + k2) ==> #[trigger] elems@[p]
                        == orig_dst[p],
            decreases n - k2,
        {
            elems[di + k2] = tmp[k2];
            k2 = k2 + 1;
        }
        store.tables[dst_table.index] = TableInstance { ty: dst_table.ty, elements: elems };
        proof {
            let pre = *old(store);
            let post = *store;
            lemma_instances_ok_preserved::<C>(pre, post);
            assert forall|i2: int|
                0 <= i2 < post.globals@.len() implies post.global_ok(
                #[trigger] post.globals@[i2],
            ) by {
                assert(pre.global_ok(pre.globals@[i2]));
            }
            assert forall|i2: int|
                0 <= i2 < post.tables@.len() implies post.table_ok(#[trigger] post.tables@[i2]) by {
                if i2 != dst_table.index {
                    assert(pre.table_ok(pre.tables@[i2]));
                } else {
                    assert(pre.table_ok(pre.tables@[i2]));
                    assert(pre.table_ok(pre.tables@[src_table.index as int]));
                    assert forall|p: int|
                        0 <= p < post.tables@[i2].elements@.len() implies post.elem_ok(
                        post.tables@[i2].ty.element,
                        #[trigger] post.tables@[i2].elements@[p],
                    ) by {
                        if di <= p < di + n {
                            assert(post.tables@[i2].elements@[p]
                                == pre.tables@[src_table.index as int].elements@[p - di + si]);
                            assert(pre.elem_ok(
                                src_table.ty.element,
                                pre.tables@[src_table.index as int].elements@[p - di + si],
                            ));
                        } else {
                            assert(pre.elem_ok(pre.tables@[i2].ty.element, pre.tables@[i2].elements@[p]));
                        }
                    }
                }
            }
        }
        Ok(())
    }
}

/// Whether `grow` may extend the memory `m` names by `delta` pages: the
/// grown page count stays within the effective page limit and the grown
/// byte length is one the allocator can satisfy at all.
pub open spec fn memory_can_grow<C>(s: Store<C>, m: Memory, delta: u32) -> bool {
    &&& s.memories@[m.index as int].spec_pages() + delta <= m.ty.spec_page_limit()
    &&& (s.memories@[m.index as int].spec_pages() + delta) * (PAGE_SIZE as nat) <= usize::MAX
}

/// `post` is `pre` with exactly the memory `m` names extended by `delta`
/// pages of zero bytes.
pub open spec fn memory_grow_post<C>(pre: Store<C>, post: Store<C>, m: Memory, delta: u32) -> bool {
    &&& same_except_memories(pre, post)
    &&& post.memories@.len() == pre.memories@.len()
    &&& post.memories@[m.index as int].ty == pre.memories@[m.index as int].ty
    &&& post.memories@[m.index as int].data@ == pre.memories@[m.index as int].data@ + Seq::new(
        delta as nat * (PAGE_SIZE as nat),
        |i: int| 0u8,
    )
    &&& forall|j: int|
        0 <= j < pre.memories@.len() && j != m.index ==> post.memories@[j] == #[trigger] pre.memories@[j]
}

impl Memory {
    /// Creates a new linear memory in `store`, zero-initialized and sized
    /// to the declared initial page count. The declared bounds must be
    /// satisfiable and the initial buffer must be one the host address
    /// space can hold at all; a failure to allocate it is an engine
    /// defect, not a recoverable condition.
    pub fn new<C>(store: &mut Store<C>, ty: MemoryType) -> (r: Memory)
        requires
            old(store).wf(),
            ty.spec_valid(),
            ty.limits.min as nat * (PAGE_SIZE as nat) <= usize::MAX,
        ensures
            final(store).wf(),
            same_except_memories(*old(store), *final(store)),
            final(store).memories@.len() == old(store).memories@.len() + 1,
            final(store).memories@[old(store).memories@.len() as int].ty == ty,
            final(store).memories@[old(store).memories@.len() as int].data@ == Seq::new(
                ty.limits.min as nat * (PAGE_SIZE as nat),
                |i: int| 0u8,
            ),
            forall|j: int|
                0 <= j < old(store).memories@.len() ==> final(store).memories@[j] == #[trigger] old(
                    store,
                ).memories@[j],
            r == (Memory { store_id: old(store).id, index: old(store).memories@.len() as usize, ty }),
            r.index as int == old(store).memories@.len() as int,
            final(store).owns_memory(r),
    {
        let n: usize = (ty.limits.min as usize) * (PAGE_SIZE as usize);
        let mut data: Vec<u8> = Vec::new();
        let mut k: usize = 0;
        while k < n
            invariant
                k <= n,
                data@ == Seq::new(k as nat, |i: int| 0u8),
            decreases n - k,
        {
            data.push(0u8);
            proof {
                assert(data@ =~= Seq::new((k + 1) as nat, |i: int| 0u8));
            }
            k = k + 1;
        }
        let index = store.memories.len();
        store.memories.push(MemoryInstance { ty, data });
        proof {
            let pre = *old(store);
            let post = *store;
            lemma_instances_ok_preserved::<C>(pre, post);
            assert forall|i: int|
                0 <= i < post.globals@.len() implies post.global_ok(
                #[trigger] post.globals@[i],
            ) by {
                assert(pre.global_ok(pre.globals@[i]));
            }
            assert forall|i: int|
                0 <= i < post.tables@.len() implies post.table_ok(#[trigger] post.tables@[i]) by {
                assert(pre.table_ok(pre.tables@[i]));
            }
            assert forall|i: int|
                0 <= i < post.memories@.len() implies (#[trigger] post.memories@[i]).ok() by {
                if i < pre.memories@.len() {
                    assert(pre.memories@[i].ok());
                } else {
                    lemma_pages_to_bytes(ty.limits.min as int);
                    vstd::arithmetic::mul::lemma_mul_inequality(
                        ty.limits.min as int,
                        ty.spec_page_limit() as int,
                        PAGE_SIZE as int,
                    );
                }
            }
        }
        Memory { store_id: store.id, index, ty }
    }

    /// The declared type of this memory.
    pub fn ty(&self) -> (r: MemoryType)
        ensures
            r == self.ty,
    {
        self.ty
    }

    /// The current byte length of this memory; always a whole number of
    /// pages.
    pub fn data_size<C>(&self, store: &Store<C>) -> (r: usize)
        requires
            store.owns_memory(*self),
        ensures
            r == store.memories@[self.index as int].data@.len(),
    {
        store.memories[self.index].data.len()
    }

    /// The current size of this memory, in pages.
    pub fn size<C>(&self, store: &Store<C>) -> (r: u32)
        requires
            store.wf(),
            store.owns_memory(*self),
        ensures
            r as nat == store.memories@[self.index as int].spec_pages(),
    {
        proof {
            assert(store.memories@[self.index as int].ok());
            lemma_page_arith(
                store.memories@[self.index as int].data@.len() as int,
                self.ty.spec_page_limit() as int,
            );
        }
        (store.memories[self.index].data.len() / (PAGE_SIZE as usize)) as u32
    }

    /// The byte at `offset`, or an absent result when `offset` lies at or
    /// beyond the current byte length.
    pub fn read<C>(&self, store: &Store<C>, offset: usize) -> (r: Option<u8>)
        requires
            store.owns_memory(*self),
        ensures
            offset >= store.memories@[self.index as int].data@.len() ==> r is None,
            offset < store.memories@[self.index as int].data@.len() ==> r == Some(
                store.memories@[self.index as int].data@[offset as int],
            ),
    {
        let data = &store.memories[self.index].data;
        if offset >= data.len() {
            None
        } else {
            Some(data[offset])
        }
    }

    /// Stores `byte` at `offset`. Fails — leaving the store untouched —
    /// when `offset` lies at or beyond the current byte length.
    pub fn write<C>(&self, store: &mut Store<C>, offset: usize, byte: u8) -> (r: Result<
        (),
        ValidationError,
    >)
        requires
            old(store).wf(),
            old(store).owns_memory(*self),
        ensures
            final(store).wf(),
            final(store).owns_memory(*self),
            r is Ok <==> offset < old(store).memories@[self.index as int].data@.len(),
            offset >= old(store).memories@[self.index as int].data@.len() ==> r == Err::<(),
            ValidationError>(ValidationError::OutOfBounds),
            r is Err ==> *final(store) == *old(store),
            r is Ok ==> ({
                &&& same_except_memories(*old(store), *final(store))
                &&& final(store).memories@.len() == old(store).memories@.len()
                &&& final(store).memories@[self.index as int].ty == self.ty
                &&& final(store).memories@[self.index as int].data@ == old(
                    store,
                ).memories@[self.index as int].data@.update(offset as int, byte)
                &&& forall|j: int|
                    0 <= j < old(store).memories@.len() && j != self.index ==> final(store).memories@[j]
                        == #[trigger] old(store).memories@[j]
            }),
    {
        if offset >= store.memories[self.index].data.len() {
            return Err(ValidationError::OutOfBounds);
        }
        let m = &mut store.memories[self.index];
        m.data[offset] = byte;
        proof {
            let pre = *old(store);
            let post = *store;
            lemma_instances_ok_preserved::<C>(pre, post);
            assert forall|i2: int|
                0 <= i2 < post.globals@.len() implies post.global_ok(
                #[trigger] post.globals@[i2],
            ) by {
                assert(pre.global_ok(pre.globals@[i2]));
            }
            assert forall|i2: int|
                0 <= i2 < post.tables@.len() implies post.table_ok(#[trigger] post.tables@[i2]) by {
                assert(pre.table_ok(pre.tables@[i2]));
            }
            assert forall|i2: int|
                0 <= i2 < post.memories@.len() implies (#[trigger] post.memories@[i2]).ok() by {
                assert(pre.memories@[i2].ok());
            }
        }
        Ok(())
    }

    /// Extends this memory by `delta` pages of zero bytes, possibly
    /// relocating the buffer, and returns the page count before growth.
    /// Fails — leaving the store untouched — if the grown size would
    /// exceed the declared maximum, the absolute page limit, or what the
    /// allocator can satisfy.
    pub fn grow<C>(&self, store: &mut Store<C>, delta: u32) -> (r: Result<u32, ValidationError>)
        requires
            old(store).wf(),
            old(store).owns_memory(*self),
        ensures
            final(store).wf(),
            final(store).owns_memory(*self),
            r is Ok <==> memory_can_grow(*old(store), *self, delta),
            !memory_can_grow(*old(store), *self, delta) ==> r == Err::<u32, ValidationError>(
                ValidationError::GrowFailure,
            ),
            r is Err ==> *final(store) == *old(store),
            r matches Ok(n) ==> n as nat == old(store).memories@[self.index as int].spec_pages()
                && memory_grow_post(*old(store), *final(store), *self, delta),
    {
        proof {
            assert(store.memories@[self.index as int].ok());
            lemma_page_arith(
                store.memories@[self.index as int].data@.len() as int,
                self.ty.spec_page_limit() as int,
            );
        }
        let cur_bytes = store.memories[self.index].data.len();
        let cur_pages: u64 = (cur_bytes / (PAGE_SIZE as usize)) as u64;
        let new_pages: u64 = cur_pages + delta as u64;
        let limit = self.ty.page_limit();
        if new_pages > limit as u64 {
            proof {
                assert(!memory_can_grow(*old(store), *self, delta));
            }
            return Err(ValidationError::GrowFailure);
        }
        let new_bytes: u64 = new_pages * (PAGE_SIZE as u64);
        proof {
            vstd::arithmetic::mul::lemma_mul_inequality(
                new_pages as int,
                limit as int,
                PAGE_SIZE as int,
            );
        }
        if new_bytes > usize::MAX as u64 {
            return Err(ValidationError::GrowFailure);
        }
        let mut data = copy_vec(&store.memories[self.index].data);
        let ghost orig = store.memories@[self.index as int].data@;
        let add: usize = (new_bytes as usize) - cur_bytes;
        proof {
            assert(add == delta as nat * (PAGE_SIZE as nat)) by {
                vstd::arithmetic::mul::lemma_mul_is_distributive_add(
                    PAGE_SIZE as int,
                    cur_pages as int,
                    delta as int,
                );
            }
        }
        let mut k: usize = 0;
        while k < add
            invariant
                k <= add,
                data@ == orig + Seq::new(k as nat, |i: int| 0u8),
            decreases add - k,
        {
            data.push(0u8);
            proof {
                assert(data@ =~= orig + Seq::new((k + 1) as nat, |i: int| 0u8));
            }
            k = k + 1;
        }
        store.memories[self.index] = MemoryInstance { ty: self.ty, data };
        proof {
            let pre = *old(store);
            let post = *store;
            lemma_instances_ok_preserved::<C>(pre, post);
            assert forall|i2: int|
                0 <= i2 < post.globals@.len() implies post.global_ok(
                #[trigger] post.globals@[i2],
            ) by {
                assert(pre.global_ok(pre.globals@[i2]));
            }
            assert forall|i2: int|
                0 <= i2 < post.tables@.len() implies post.table_ok(#[trigger] post.tables@[i2]) by {
                assert(pre.table_ok(pre.tables@[i2]));
            }
            assert forall|i2: int|
                0 <= i2 < post.memories@.len() implies (#[trigger] post.memories@[i2]).ok() by {
                if i2 != self.index {
                    assert(pre.memories@[i2].ok());
                } else {
                    assert(post.memories@[i2].data@.len() == new_pages as nat * (PAGE_SIZE as nat));
                    lemma_pages_to_bytes(new_pages as int);
                    vstd::arithmetic::mul::lemma_mul_inequality(
                        new_pages as int,
                        self.ty.spec_page_limit() as int,
                        PAGE_SIZE as int,
                    );
                }
            }
        }
        Ok(cur_pages as u32)
    }
}

impl AdapterFunc {
    /// Registers an adapter function of type `ty` in `store` and returns
    /// a handle to it.
    pub fn new<C>(store: &mut Store<C>, ty: FuncType) -> (r: AdapterFunc)
        requires
            old(store).wf(),
        ensures
            final(store).wf(),
            same_except_adapters(*old(store), *final(store)),
            final(store).adapters@.len() == old(store).adapters@.len() + 1,
            final(store).adapters@[old(store).adapters@.len() as int] == ty,
            forall|j: int|
                0 <= j < old(store).adapters@.len() ==> final(store).adapters@[j] == #[trigger] old(
                    store,
                ).adapters@[j],
            r == (AdapterFunc { store_id: old(store).id, index: old(store).adapters@.len() as usize }),
            r.index as int == old(store).adapters@.len() as int,
            final(store).owns_adapter(r),
    {
        let index = store.adapters.len();
        store.adapters.push(ty);
        proof {
            let pre = *old(store);
            let post = *store;
            lemma_instances_ok_preserved::<C>(pre, post);
            assert forall|i: int|
                0 <= i < post.globals@.len() implies post.global_ok(
                #[trigger] post.globals@[i],
            ) by {
                assert(pre.global_ok(pre.globals@[i]));
            }
            assert forall|i: int|
                0 <= i < post.tables@.len() implies post.table_ok(#[trigger] post.tables@[i]) by {
                assert(pre.table_ok(pre.tables@[i]));
            }
        }
        AdapterFunc { store_id: store.id, index }
    }

    /// The declared type of this adapter function.
    pub fn ty<'a, C>(&self, store: &'a Store<C>) -> (r: &'a FuncType)
        requires
            store.owns_adapter(*self),
        ensures
            *r == store.adapters@[self.index as int],
    {
        &store.adapters[self.index]
    }
}

/// An external item: anything one module can make available to, or
/// require from, its environment. The variant set is closed, and every
/// consumption site matches it exhaustively.
#[derive(Clone, Copy, Debug, PartialEq, Eq)]
pub enum Extern {
    /// A callable function.
    Func(Func),
    /// A typed global cell.
    Global(Global),
    /// A table of reference elements.
    Table(Table),
    /// A linear memory.
    Memory(Memory),
    /// An adapter function of a non-core extension.
    Adapter(AdapterFunc),
}

impl Extern {
    /// The underlying function handle, or an absent result if this item is
    /// of another kind.
    pub fn func(&self) -> (r: Option<Func>)
        ensures
            match *self {
                Extern::Func(f) => r == Some(f),
                _ => r is None,
            },
    {
        match self {
            Extern::Func(f) => Some(*f),
            _ => None,
        }
    }

    /// The underlying adapter handle, or an absent result if this item is
    /// of another kind.
    pub fn adapter(&self) -> (r: Option<AdapterFunc>)
        ensures
            match *self {
                Extern::Adapter(a) => r == Some(a),
                _ => r is None,
            },
    {
        match self {
            Extern::Adapter(a) => Some(*a),
            _ => None,
        }
    }

    /// The underlying global handle, or an absent result if this item is
    /// of another kind.
    pub fn global(&self) -> (r: Option<Global>)
        ensures
            match *self {
                Extern::Global(g) => r == Some(g),
                _ => r is None,
            },
    {
        match self {
            Extern::Global(g) => Some(*g),
            _ => None,
        }
    }

    /// The underlying table handle, or an absent result if this item is of
    /// another kind.
    pub fn table(&self) -> (r: Option<Table>)
        ensures
            match *self {
                Extern::Table(t) => r == Some(t),
                _ => r is None,
            },
    {
        match self {
            Extern::Table(t) => Some(*t),
            _ => None,
        }
    }

    /// The underlying memory handle, or an absent result if this item is
    /// of another kind.
    pub fn memory(&self) -> (r: Option<Memory>)
        ensures
            match *self {
                Extern::Memory(m) => r == Some(m),
                _ => r is None,
            },
    {
        match self {
            Extern::Memory(m) => Some(*m),
            _ => None,
        }
    }

    /// The identity of the store this item was constructed under.
    pub open spec fn spec_store_id(self) -> u64 {
        match self {
            Extern::Func(f) => f.store_id,
            Extern::Global(g) => g.store_id,
            Extern::Table(t) => t.store_id,
            Extern::Memory(m) => m.store_id,
            Extern::Adapter(a) => a.store_id,
        }
    }

    /// Whether `store` owns the handle inside this item.
    pub open spec fn owned_by<C>(self, store: Store<C>) -> bool {
        match self {
            Extern::Func(f) => store.owns_func(f),
            Extern::Global(g) => store.owns_global(g),
            Extern::Table(t) => store.owns_table(t),
            Extern::Memory(m) => store.owns_memory(m),
            Extern::Adapter(a) => store.owns_adapter(a),
        }
    }

    /// Whether this item was constructed under `store`. Every operation
    /// that combines two items requires this of both and fails otherwise.
    pub fn comes_from_same_store<C>(&self, store: &Store<C>) -> (r: bool)
        ensures
            r == (self.spec_store_id() == store.id),
    {
        match self {
            Extern::Func(f) => f.store_id == store.id,
            Extern::Global(g) => g.store_id == store.id,
            Extern::Table(t) => t.store_id == store.id,
            Extern::Memory(m) => m.store_id == store.id,
            Extern::Adapter(a) => a.store_id == store.id,
        }
    }

    /// The type of this item, for structural compatibility checks.
    pub fn ty<C>(&self, store: &Store<C>) -> (r: ExternType)
        requires
            self.owned_by(*store),
        ensures
            match *self {
                Extern::Func(f) => r matches ExternType::Func(ft) && ft.params@
                    == store.funcs@[f.index as int].ty.params@ && ft.results@
                    == store.funcs@[f.index as int].ty.results@,
                Extern::Global(g) => r == ExternType::Global(g.ty),
                Extern::Table(t) => r == ExternType::Table(t.ty),
                Extern::Memory(m) => r == ExternType::Memory(m.ty),
                Extern::Adapter(a) => r matches ExternType::Adapter(ft) && ft.params@
                    == store.adapters@[a.index as int].params@ && ft.results@
                    == store.adapters@[a.index as int].results@,
            },
    {
        match self {
            Extern::Func(f) => ExternType::Func(store.funcs[f.index].ty.duplicate()),
            Extern::Global(g) => ExternType::Global(g.ty),
            Extern::Table(t) => ExternType::Table(t.ty),
            Extern::Memory(m) => ExternType::Memory(m.ty),
            Extern::Adapter(a) => ExternType::Adapter(store.adapters[a.index].duplicate()),
        }
    }
}

impl From<Func> for Extern {
    /// Wraps a function handle as an external item.
    fn from(f: Func) -> (r: Extern) {
        Extern::Func(f)
    }
}

impl vstd::std_specs::convert::FromSpecImpl<Func> for Extern {
    open spec fn obeys_from_spec() -> bool {
        true
    }

    open spec fn from_spec(f: Func) -> Extern {
        Extern::Func(f)
    }
}

impl From<Global> for Extern {
    /// Wraps a global handle as an external item.
    fn from(g: Global) -> (r: Extern) {
        Extern::Global(g)
    }
}

impl vstd::std_specs::convert::FromSpecImpl<Global> for Extern {
    open spec fn obeys_from_spec() -> bool {
        true
    }

    open spec fn from_spec(g: Global) -> Extern {
        Extern::Global(g)
    }
}

impl From<Table> for Extern {
    /// Wraps a table handle as an external item.
    fn from(t: Table) -> (r: Extern) {
        Extern::Table(t)
    }
}

impl vstd::std_specs::convert::FromSpecImpl<Table> for Extern {
    open spec fn obeys_from_spec() -> bool {
        true
    }

    open spec fn from_spec(t: Table) -> Extern {
        Extern::Table(t)
    }
}

impl From<Memory> for Extern {
    /// Wraps a memory handle as an external item.
    fn from(m: Memory) -> (r: Extern) {
        Extern::Memory(m)
    }
}

impl vstd::std_specs::convert::FromSpecImpl<Memory> for Extern {
    open spec fn obeys_from_spec() -> bool {
        true
    }

    open spec fn from_spec(m: Memory) -> Extern {
        Extern::Memory(m)
    }
}

} // verus!
