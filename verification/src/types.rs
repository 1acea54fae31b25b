//! Type descriptors for the items that cross the host/guest boundary:
//! value kinds, limits, and the types of functions, globals, tables and
//! memories, together with the compiled calling-convention signature.

use vstd::prelude::*;

verus! {

/// The size in bytes of one page of linear memory.
pub const PAGE_SIZE: u32 = 65536;

/// The largest page count any linear memory may reach, whatever its
/// declared maximum: the address space of the guest is 32 bits wide.
pub const MAX_PAGES: u32 = 65536;

/// The kind of a value that can cross the boundary.
#[derive(Clone, Copy, Debug, PartialEq, Eq, Structural)]
pub enum ValType {
    /// A signed 32-bit integer as the guest's numeric type.
    I32,
    /// A signed 64-bit integer as the guest's numeric type.
    I64,
    /// A 32-bit floating point number, carried as its raw bit pattern.
    F32,
    /// A 64-bit floating point number, carried as its raw bit pattern.
    F64,
    /// A 128-bit vector.
    V128,
    /// An opaque reference to a host object, or a null reference.
    AnyRef,
    /// A reference to a callable function.
    FuncRef,
    /// A signed 8-bit integer.
    S8,
    /// An unsigned 8-bit integer.
    U8,
    /// A signed 16-bit integer.
    S16,
    /// An unsigned 16-bit integer.
    U16,
    /// A signed 32-bit integer.
    S32,
    /// An unsigned 32-bit integer.
    U32,
    /// A signed 64-bit integer.
    S64,
    /// An unsigned 64-bit integer.
    U64,
}

impl ValType {
    /// Whether a value of this kind occupies one raw call slot, so that it
    /// can be marshaled through the calling convention. Reference kinds
    /// never do.
    pub open spec fn spec_is_marshalable(self) -> bool {
        match self {
            ValType::AnyRef => false,
            ValType::FuncRef => false,
            _ => true,
        }
    }

    /// Executable twin of [`ValType::spec_is_marshalable`].
    pub fn is_marshalable(&self) -> (r: bool)
        ensures
            r == self.spec_is_marshalable(),
    {
        match self {
            ValType::AnyRef => false,
            ValType::FuncRef => false,
            _ => true,
        }
    }

    /// Whether this kind is a reference kind; only those may populate a
    /// table.
    pub open spec fn spec_is_ref(self) -> bool {
        self == ValType::AnyRef || self == ValType::FuncRef
    }

    /// Executable twin of [`ValType::spec_is_ref`].
    pub fn is_ref(&self) -> (r: bool)
        ensures
            r == self.spec_is_ref(),
    {
        match self {
            ValType::AnyRef => true,
            ValType::FuncRef => true,
            _ => false,
        }
    }
}

/// Whether a typed global cell may be written after construction.
#[derive(Clone, Copy, Debug, PartialEq, Eq, Structural)]
pub enum Mutability {
    /// The cell is read-only once constructed.
    Const,
    /// The cell may be overwritten by `set`.
    Var,
}

/// Size bounds of a table (in elements) or a memory (in pages).
#[derive(Clone, Copy, Debug, PartialEq, Eq)]
pub struct Limits {
    /// The initial (and least) size.
    pub min: u32,
    /// The declared maximum size, if any.
    pub max: Option<u32>,
}

impl Limits {
    /// Builds bounds from an initial size and an optional maximum.
    pub fn new(min: u32, max: Option<u32>) -> (r: Limits)
        ensures
            r.min == min,
            r.max == max,
    {
        Limits { min, max }
    }

    /// The initial size.
    pub fn min(&self) -> (r: u32)
        ensures
            r == self.min,
    {
        self.min
    }

    /// The declared maximum size, if any.
    pub fn max(&self) -> (r: Option<u32>)
        ensures
            r == self.max,
    {
        self.max
    }

    /// Whether the bounds are satisfiable: the initial size does not
    /// exceed the declared maximum.
    pub open spec fn spec_valid(self) -> bool {
        match self.max {
            Some(m) => self.min <= m,
            None => true,
        }
    }

    /// Executable twin of [`Limits::spec_valid`].
    pub fn valid(&self) -> (r: bool)
        ensures
            r == self.spec_valid(),
    {
        match self.max {
            Some(m) => self.min <= m,
            None => true,
        }
    }
}

/// The type of a global cell: its content kind and its mutability.
#[derive(Clone, Copy, Debug, PartialEq, Eq)]
pub struct GlobalType {
    /// The kind of value the cell holds.
    pub content: ValType,
    /// Whether the cell may be written after construction.
    pub mutability: Mutability,
}

impl GlobalType {
    /// Builds a global type from a content kind and a mutability flag.
    pub fn new(content: ValType, mutability: Mutability) -> (r: GlobalType)
        ensures
            r.content == content,
            r.mutability == mutability,
    {
        GlobalType { content, mutability }
    }

    /// The kind of value the cell holds.
    pub fn content(&self) -> (r: ValType)
        ensures
            r == self.content,
    {
        self.content
    }

    /// Whether the cell may be written after construction.
    pub fn mutability(&self) -> (r: Mutability)
        ensures
            r == self.mutability,
    {
        self.mutability
    }
}

/// The type of a table: its element kind and its size bounds in elements.
#[derive(Clone, Copy, Debug, PartialEq, Eq)]
pub struct TableType {
    /// The kind every occupied slot must hold.
    pub element: ValType,
    /// The initial size and the optional maximum size, in elements.
    pub limits: Limits,
}

impl TableType {
    /// Builds a table type from an element kind and size bounds.
    pub fn new(element: ValType, limits: Limits) -> (r: TableType)
        ensures
            r.element == element,
            r.limits == limits,
    {
        TableType { element, limits }
    }

    /// The kind every occupied slot must hold.
    pub fn element(&self) -> (r: ValType)
        ensures
            r == self.element,
    {
        self.element
    }

    /// The size bounds, in elements.
    pub fn limits(&self) -> (r: Limits)
        ensures
            r == self.limits,
    {
        self.limits
    }
}

/// The type of a linear memory: its size bounds in pages.
#[derive(Clone, Copy, Debug, PartialEq, Eq)]
pub struct MemoryType {
    /// The initial size and the optional maximum size, in pages.
    pub limits: Limits,
}

impl MemoryType {
    /// Builds a memory type from size bounds in pages.
    pub fn new(limits: Limits) -> (r: MemoryType)
        ensures
            r.limits == limits,
    {
        MemoryType { limits }
    }

    /// The size bounds, in pages.
    pub fn limits(&self) -> (r: Limits)
        ensures
            r == self.limits,
    {
        self.limits
    }

    /// The page count this memory may never exceed: its declared maximum
    /// capped by the absolute limit of the guest address space.
    pub open spec fn spec_page_limit(self) -> nat {
        match self.limits.max {
            Some(m) => if m <= MAX_PAGES {
                m as nat
            } else {
                MAX_PAGES as nat
            },
            None => MAX_PAGES as nat,
        }
    }

    /// Executable twin of [`MemoryType::spec_page_limit`].
    pub fn page_limit(&self) -> (r: u32)
        ensures
            r == self.spec_page_limit(),
    {
        match self.limits.max {
            Some(m) => if m <= MAX_PAGES {
                m
            } else {
                MAX_PAGES
            },
            None => MAX_PAGES,
        }
    }

    /// Whether a memory of this type can be allocated at all: the initial
    /// page count must not exceed the effective page limit.
    pub open spec fn spec_valid(self) -> bool {
        self.limits.min as nat <= self.spec_page_limit()
    }

    /// Executable twin of [`MemoryType::spec_valid`].
    pub fn valid(&self) -> (r: bool)
        ensures
            r == self.spec_valid(),
    {
        self.limits.min <= self.page_limit()
    }
}

/// The type of a function: its ordered parameter and result kinds, as the
/// host sees them (the reserved execution-context slots of the compiled
/// convention are not part of it).
#[derive(Debug, Clone, PartialEq, Eq)]
pub struct FuncType {
    /// The parameter kinds, in call order.
    pub params: Vec<ValType>,
    /// The result kinds, in return order.
    pub results: Vec<ValType>,
}

impl FuncType {
    /// Builds a function type from parameter and result kinds.
    pub fn new(params: Vec<ValType>, results: Vec<ValType>) -> (r: FuncType)
        ensures
            r.params == params,
            r.results == results,
    {
        FuncType { params, results }
    }

    /// The parameter kinds, in call order.
    pub fn params(&self) -> (r: &Vec<ValType>)
        ensures
            r == &self.params,
    {
        &self.params
    }

    /// The result kinds, in return order.
    pub fn results(&self) -> (r: &Vec<ValType>)
        ensures
            r == &self.results,
    {
        &self.results
    }

    /// Whether every parameter and result kind fits one call slot, so
    /// that a call of this type can be bridged at all.
    pub open spec fn spec_marshalable(self) -> bool {
        &&& forall|i: int|
            0 <= i < self.params@.len() ==> (#[trigger] self.params@[i]).spec_is_marshalable()
        &&& forall|i: int|
            0 <= i < self.results@.len() ==> (#[trigger] self.results@[i]).spec_is_marshalable()
    }

    /// Executable twin of [`FuncType::spec_marshalable`].
    pub fn marshalable(&self) -> (r: bool)
        ensures
            r == self.spec_marshalable(),
    {
        let mut i: usize = 0;
        while i < self.params.len()
            invariant
                i <= self.params@.len(),
                forall|j: int| 0 <= j < i ==> (#[trigger] self.params@[j]).spec_is_marshalable(),
            decreases self.params@.len() - i,
        {
            if !self.params[i].is_marshalable() {
                return false;
            }
            i = i + 1;
        }
        let mut k: usize = 0;
        while k < self.results.len()
            invariant
                k <= self.results@.len(),
                forall|j: int| 0 <= j < k ==> (#[trigger] self.results@[j]).spec_is_marshalable(),
            decreases self.results@.len() - k,
        {
            if !self.results[k].is_marshalable() {
                return false;
            }
            k = k + 1;
        }
        true
    }

    /// A function type whose parameter and result kinds equal those of a
    /// marshalable one is marshalable itself.
    pub proof fn lemma_marshalable_like(a: FuncType, b: FuncType)
        requires
            b.params@ == a.params@,
            b.results@ == a.results@,
            a.spec_marshalable(),
        ensures
            b.spec_marshalable(),
    {
        assert forall|i: int|
            0 <= i < b.params@.len() implies (#[trigger] b.params@[i]).spec_is_marshalable() by {
            assert(a.params@[i].spec_is_marshalable());
        }
        assert forall|i: int|
            0 <= i < b.results@.len() implies (#[trigger] b.results@[i]).spec_is_marshalable() by {
            assert(a.results@[i].spec_is_marshalable());
        }
    }

    /// Builds a second, independent value of the same function type.
    pub fn duplicate(&self) -> (r: FuncType)
        ensures
            r.params@ == self.params@,
            r.results@ == self.results@,
    {
        FuncType { params: copy_val_types(&self.params), results: copy_val_types(&self.results) }
    }
}

/// Copies a list of value kinds element by element.
pub fn copy_val_types(v: &Vec<ValType>) -> (r: Vec<ValType>)
    ensures
        r@ == v@,
{
    let mut r: Vec<ValType> = Vec::new();
    let mut i: usize = 0;
    while i < v.len()
        invariant
            i <= v@.len(),
            r@ == v@.subrange(0, i as int),
        decreases v@.len() - i,
    {
        r.push(v[i]);
        i = i + 1;
    }
    proof {
        assert(v@.subrange(0, v@.len() as int) == v@);
    }
    r
}

/// The compiled calling-convention form of a function type. Its parameter
/// list starts with two reserved execution-context entries that the public
/// call interface never exposes.
#[derive(Debug)]
pub struct Signature {
    /// The parameter kinds of the compiled convention; the first two are
    /// the reserved context entries.
    pub params: Vec<ValType>,
    /// The result kinds.
    pub returns: Vec<ValType>,
}

/// The type of any external item, used for structural compatibility
/// checks wherever an import is bound to an export.
#[derive(Debug, Clone, PartialEq, Eq)]
pub enum ExternType {
    /// A callable function.
    Func(FuncType),
    /// A typed global cell.
    Global(GlobalType),
    /// A table of reference elements.
    Table(TableType),
    /// A linear memory.
    Memory(MemoryType),
    /// An adapter function of a non-core extension.
    Adapter(FuncType),
}

/// One import a module requires from its environment: the module and field
/// names under which it is looked up, and the expected type.
#[derive(Debug)]
pub struct ImportType {
    /// The name of the module the import is looked up in.
    pub module: String,
    /// The field name within that module.
    pub name: String,
    /// The type the provided item must have.
    pub ty: ExternType,
}

impl ImportType {
    /// Builds an import descriptor.
    pub fn new(module: String, name: String, ty: ExternType) -> (r: ImportType)
        ensures
            r.module == module,
            r.name == name,
            r.ty == ty,
    {
        ImportType { module, name, ty }
    }

    /// The name of the module the import is looked up in.
    pub fn module(&self) -> (r: &String)
        ensures
            r == &self.module,
    {
        &self.module
    }

    /// The field name within that module.
    pub fn name(&self) -> (r: &String)
        ensures
            r == &self.name,
    {
        &self.name
    }

    /// The type the provided item must have.
    pub fn ty(&self) -> (r: &ExternType)
        ensures
            r == &self.ty,
    {
        &self.ty
    }
}

} // verus!
