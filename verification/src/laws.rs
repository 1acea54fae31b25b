//! Laws of the boundary layer that relate several operations, proved once
//! and for all over the store model. Each one is stated over the same
//! spec functions the operations' own contracts use, so it composes with
//! them directly.

use vstd::prelude::*;

use crate::callable::Func;
use crate::externals::{
    global_can_set, global_set_post, memory_can_grow, memory_grow_post, table_copy_args_ok,
    table_grow_post, Global, Memory, Table,
};
use crate::store::{lemma_page_arith, lemma_pages_to_bytes, Store};
use crate::types::{Mutability, MAX_PAGES, PAGE_SIZE};
use crate::values::Val;

verus! {

/// Setting a mutable global with a correctly typed value of the same
/// store succeeds, and a read that follows sees exactly that value, under
/// the same handle or any clone of it.
pub proof fn lemma_global_set_then_get<C>(pre: Store<C>, post: Store<C>, g: Global, v: Val)
    requires
        pre.wf(),
        pre.owns_global(g),
        global_can_set(pre, g, v),
        global_set_post(pre, post, g, v),
    ensures
        post.owns_global(g),
        post.globals@[g.index as int].value == v,
{
}

/// A write to a global whose type is immutable never succeeds, whatever
/// the value and whatever the store.
pub proof fn lemma_immutable_global_rejects<C>(s: Store<C>, g: Global, v: Val)
    requires
        g.ty.mutability == Mutability::Const,
    ensures
        !global_can_set(s, g, v),
{
}

/// A function reference constructed under one store can never be written
/// into a global of a store with another identity.
pub proof fn lemma_cross_store_global_set_rejects<C>(s: Store<C>, g: Global, f: Func)
    requires
        f.store_id != s.id,
    ensures
        !global_can_set(s, g, Val::FuncRef(f)),
{
}

/// A copy between tables constructed under stores of different identities
/// is never permitted, under any store and whatever the ranges.
pub proof fn lemma_cross_store_copy_rejects<C>(
    s: Store<C>,
    dst: Table,
    dst_index: u32,
    src: Table,
    src_index: u32,
    len: u32,
)
    requires
        dst.store_id != src.store_id,
    ensures
        !table_copy_args_ok(s, dst, dst_index, src, src_index, len),
{
}

/// Growing a table by zero slots leaves its contents exactly as they
/// were, whatever the fill value.
pub proof fn lemma_table_grow_zero<C>(pre: Store<C>, post: Store<C>, t: Table, init: Val)
    requires
        table_grow_post(pre, post, t, 0, init),
    ensures
        post.tables@[t.index as int].elements@ == pre.tables@[t.index as int].elements@,
{
    assert(post.tables@[t.index as int].elements@ =~= pre.tables@[t.index as int].elements@);
}

/// Memory growth accounts exactly: after a successful grow by `delta`
/// pages the page count has risen by `delta`, the byte length equals the
/// new page count times the page size, and the handle still names the
/// memory.
pub proof fn lemma_memory_grow_accounting<C>(pre: Store<C>, post: Store<C>, m: Memory, delta: u32)
    requires
        pre.wf(),
        pre.owns_memory(m),
        memory_grow_post(pre, post, m, delta),
    ensures
        post.owns_memory(m),
        post.memories@[m.index as int].spec_pages() == pre.memories@[m.index as int].spec_pages()
            + delta,
        post.memories@[m.index as int].data@.len() == (pre.memories@[m.index as int].spec_pages()
            + delta) * (PAGE_SIZE as nat),
{
    let pages = pre.memories@[m.index as int].spec_pages();
    assert(pre.memories@[m.index as int].ok());
    lemma_page_arith(
        pre.memories@[m.index as int].data@.len() as int,
        pre.memories@[m.index as int].ty.spec_page_limit() as int,
    );
    assert(pre.memories@[m.index as int].data@.len() == pages * (PAGE_SIZE as nat));
    assert(post.memories@[m.index as int].data@.len() == pages * (PAGE_SIZE as nat) + delta as nat
        * (PAGE_SIZE as nat));
    assert(pages * (PAGE_SIZE as nat) + delta as nat * (PAGE_SIZE as nat) == (pages + delta) * (
    PAGE_SIZE as nat)) by {
        vstd::arithmetic::mul::lemma_mul_is_distributive_add_other_way(
            PAGE_SIZE as int,
            pages as int,
            delta as int,
        );
    }
    lemma_pages_to_bytes((pages + delta) as int);
}

/// For a memory whose declared maximum is `max_pages`, growth by `delta`
/// pages is permitted exactly while the current page count plus `delta`
/// stays within that maximum (sizes the host address space can hold at
/// all).
pub proof fn lemma_memory_grow_bound<C>(s: Store<C>, m: Memory, delta: u32, max_pages: u32)
    requires
        m.ty.limits.max == Some(max_pages),
        max_pages <= MAX_PAGES,
        (s.memories@[m.index as int].spec_pages() + delta) * (PAGE_SIZE as nat) <= usize::MAX,
    ensures
        memory_can_grow(s, m, delta) <==> s.memories@[m.index as int].spec_pages() + delta
            <= max_pages,
{
}

} // verus!
