//! The VM-context accessor of one function being compiled.
//!
//! Code reads every VM entity (memories, tables, signature ids, globals,
//! imported functions, builtins) through pointers into the VM context. The
//! accessor materializes those pointers on demand, at most once per entity,
//! by appending instructions to the function's entry block, and tags every
//! load with the alias label of what it reads.
use vstd::prelude::*;
use crate::offsets::{
    vmctx_builtin_function, vmctx_vmfunction_import, vmctx_vmglobal_definition,
    vmctx_vmglobal_import, vmctx_vmmemory_definition, vmctx_vmmemory_import,
    vmctx_vmshared_signature_id, vmctx_vmtable_definition_base,
    vmctx_vmtable_definition_current_elements, vmctx_vmtable_import_definition,
    vmtable_definition_base, vmtable_definition_current_elements, builtin_functions_begin, builtin_index, globals_begin, imported_functions_begin,
    imported_globals_begin, imported_memories_begin, imported_tables_begin, memories_begin,
    offsets_fit, ps, tables_begin, MemoryBuiltin,
};
use crate::tbaa::TbaaLabel;

verus! {

/// Opaque error of the compiler interface.
#[verifier::external_type_specification]
#[verifier::external_body]
pub struct ExCompileError(wasmer_compiler::CompileError);

/// WebAssembly value types.
#[derive(Clone, Copy, Debug, PartialEq, Eq, Structural)]
pub enum ValType {
    I32,
    I64,
    F32,
    F64,
    V128,
    FuncRef,
    ExternRef,
}

/// Whether a global can be written.
#[derive(Clone, Copy, Debug, PartialEq, Eq, Structural)]
pub enum Mutability {
    Const,
    Var,
}

/// The declared type of a global.
#[derive(Clone, Copy, Debug, PartialEq, Eq, Structural)]
pub struct GlobalType {
    pub ty: ValType,
    pub mutability: Mutability,
}

/// How a linear memory is laid out: whether its base may move.
#[derive(Clone, Copy, Debug, PartialEq, Eq, Structural)]
pub enum MemoryStyle {
    /// The memory may move when it grows; base and length are re-read.
    Dynamic,
    /// The memory never moves; its base is loaded once.
    Static,
}

/// What the accessor needs to know of a module: how many entities of each
/// kind it has, imported ones first, and the types of its globals.
pub struct ModuleLayout {
    pub num_signatures: u32,
    pub num_imported_functions: u32,
    pub num_functions: u32,
    pub num_imported_tables: u32,
    pub num_tables: u32,
    pub num_imported_memories: u32,
    pub num_memories: u32,
    pub num_imported_globals: u32,
    /// Every global of the module, imported ones first.
    pub globals: Vec<GlobalType>,
}

/// Pointer width of the targets the accessor generates code for.
pub const POINTER_SIZE: u8 = 8;

impl ModuleLayout {
    /// Imported entities come before local ones, and every count fits in a `u32`.
    pub open spec fn wf(&self) -> bool {
        &&& self.num_imported_functions <= self.num_functions
        &&& self.num_imported_tables <= self.num_tables
        &&& self.num_imported_memories <= self.num_memories
        &&& self.num_imported_globals <= self.globals@.len() <= u32::MAX
    }

    /// The runtime's offset table of the layout, as `VMOffsets::new` builds it
    /// for a pointer width of eight bytes: its table, memory and global
    /// counts are the module's whole counts, imported ones included.
    pub open spec fn offsets_spec(&self) -> wasmer_vm::VMOffsets {
        wasmer_vm::VMOffsets {
            pointer_size: POINTER_SIZE,
            num_signature_ids: self.num_signatures,
            num_imported_functions: self.num_imported_functions,
            num_imported_tables: self.num_imported_tables,
            num_imported_memories: self.num_imported_memories,
            num_imported_globals: self.num_imported_globals,
            num_local_tables: self.num_tables,
            num_local_memories: self.num_memories,
            num_local_globals: self.globals@.len() as u32,
        }
    }

    /// Whether the layout is well formed and its VM context fits in a `u32`.
    pub fn is_valid(&self) -> (r: bool)
        ensures
            r == (self.wf() && offsets_fit(self.offsets_spec())),
    {
        if self.num_imported_functions > self.num_functions || self.num_imported_tables
            > self.num_tables || self.num_imported_memories > self.num_memories
            || self.globals.len() > 0xffff_ffff || (self.num_imported_globals as usize)
            > self.globals.len() {
            return false;
        }
        let funcs: u64 = self.num_signatures as u64 * 4;
        let tables_imp: u64 = funcs + self.num_imported_functions as u64 * 16;
        let mems_imp: u64 = tables_imp + self.num_imported_tables as u64 * 24;
        let globals_imp: u64 = mems_imp + self.num_imported_memories as u64 * 24;
        let tables: u64 = globals_imp + self.num_imported_globals as u64 * 16;
        let mems: u64 = tables + self.num_tables as u64 * 16;
        let mems_end: u64 = mems + self.num_memories as u64 * 16;
        let globals: u64 = (mems_end + 15) / 16 * 16;
        let builtins: u64 = globals + self.globals.len() as u64 * 8;
        let size: u64 = builtins + 26 * 8;
        size + 15 <= 0xffff_ffff
    }

    /// Whether `o` is the runtime's offset table of this layout.
    pub fn describes(&self, o: &wasmer_vm::VMOffsets) -> (r: bool)
        requires
            self.wf(),
        ensures
            r == (*o == self.offsets_spec()),
    {
        o.pointer_size == POINTER_SIZE && o.num_signature_ids == self.num_signatures
            && o.num_imported_functions == self.num_imported_functions && o.num_imported_tables
            == self.num_imported_tables && o.num_imported_memories == self.num_imported_memories
            && o.num_imported_globals == self.num_imported_globals && o.num_local_tables
            == self.num_tables && o.num_local_memories == self.num_memories && o.num_local_globals
            == self.globals.len() as u32
    }

    /// The local index of memory `index`, or `None` if it is imported.
    pub fn local_memory_index(&self, index: u32) -> (r: Option<u32>)
        ensures
            index < self.num_imported_memories ==> r is None,
            index >= self.num_imported_memories ==> r == Some(
                (index - self.num_imported_memories) as u32,
            ),
    {
        if index < self.num_imported_memories {
            None
        } else {
            Some(index - self.num_imported_memories)
        }
    }

    /// The local index of table `index`, or `None` if it is imported.
    pub fn local_table_index(&self, index: u32) -> (r: Option<u32>)
        ensures
            index < self.num_imported_tables ==> r is None,
            index >= self.num_imported_tables ==> r == Some(
                (index - self.num_imported_tables) as u32,
            ),
    {
        if index < self.num_imported_tables {
            None
        } else {
            Some(index - self.num_imported_tables)
        }
    }

    /// The local index of global `index`, or `None` if it is imported.
    pub fn local_global_index(&self, index: u32) -> (r: Option<u32>)
        ensures
            index < self.num_imported_globals ==> r is None,
            index >= self.num_imported_globals ==> r == Some(
                (index - self.num_imported_globals) as u32,
            ),
    {
        if index < self.num_imported_globals {
            None
        } else {
            Some(index - self.num_imported_globals)
        }
    }
}

/// An SSA value of the function being compiled.
#[derive(Clone, Copy, Debug, PartialEq, Eq, Structural)]
pub enum Value {
    /// The VM-context parameter.
    VmCtx,
    /// The result of the entry-block instruction at this position.
    Inst(usize),
    /// The address of the function declared at this position.
    Function(usize),
}

/// Backend types of WebAssembly values.
#[derive(Clone, Copy, Debug, PartialEq, Eq, Structural)]
pub enum IrType {
    I32,
    I64,
    F32,
    F64,
    I128,
    FuncRef,
    ExternRef,
}

/// Pointer types that the accessor casts to.
#[derive(Clone, Copy, Debug, PartialEq, Eq, Structural)]
pub enum PtrType {
    /// `i8**`
    BytePtrPtr,
    /// `i32*`
    I32Ptr,
    /// `i32**`
    I32PtrPtr,
    /// Pointer to a memory definition `{ base, current_length }`.
    MemoryDefinitionPtr,
    /// Pointer to a function import `{ body, vmctx }`.
    FunctionImportPtr,
    /// Pointer to a value of this type.
    PtrTo(IrType),
    /// Pointer to a pointer to the builtin's function type.
    BuiltinPtrPtr(MemoryBuiltin),
    /// Pointer to a function of the lowered type with this handle.
    FunctionPtr(u32),
}

/// An instruction appended to the entry block.
#[derive(Clone, Copy, Debug, PartialEq, Eq, Structural)]
pub enum Inst {
    /// `base + offset`, in bytes.
    Gep { base: Value, offset: u32 },
    Bitcast { value: Value, ty: PtrType },
    /// Address of field `field` of the struct `ptr` points to.
    StructGep { ptr: Value, field: u32 },
    /// A load, tagged with an alias label when it has one.
    Load { ptr: Value, label: Option<TbaaLabel> },
}

/// Field of a memory definition holding the base pointer.
pub const MEMORY_DEFINITION_BASE_FIELD: u32 = 0;

/// Field of a memory definition holding the current length.
pub const MEMORY_DEFINITION_LENGTH_FIELD: u32 = 1;

/// Field of a function import holding the body pointer.
pub const FUNCTION_IMPORT_BODY_FIELD: u32 = 0;

/// Field of a function import holding its VM context.
pub const FUNCTION_IMPORT_VMCTX_FIELD: u32 = 1;

/// The backend type of a WebAssembly value type.
pub open spec fn ir_type(ty: ValType) -> IrType {
    match ty {
        ValType::I32 => IrType::I32,
        ValType::I64 => IrType::I64,
        ValType::F32 => IrType::F32,
        ValType::F64 => IrType::F64,
        ValType::V128 => IrType::I128,
        ValType::FuncRef => IrType::FuncRef,
        ValType::ExternRef => IrType::ExternRef,
    }
}

/// The backend type of a WebAssembly value type.
pub fn type_to_llvm(ty: ValType) -> (r: Result<IrType, wasmer_compiler::CompileError>)
    ensures
        r == Ok::<IrType, wasmer_compiler::CompileError>(ir_type(ty)),
{
    Ok(
        match ty {
            ValType::I32 => IrType::I32,
            ValType::I64 => IrType::I64,
            ValType::F32 => IrType::F32,
            ValType::F64 => IrType::F64,
            ValType::V128 => IrType::I128,
            ValType::FuncRef => IrType::FuncRef,
            ValType::ExternRef => IrType::ExternRef,
        },
    )
}

/// The backend pointer type to a value of a WebAssembly value type.
pub fn type_to_llvm_ptr(ty: ValType) -> (r: Result<PtrType, wasmer_compiler::CompileError>)
    ensures
        r == Ok::<PtrType, wasmer_compiler::CompileError>(PtrType::PtrTo(ir_type(ty))),
{
    match type_to_llvm(ty) {
        Ok(t) => Ok(PtrType::PtrTo(t)),
        Err(e) => Err(e),
    }
}

/// Pointers to a memory's base and length.
#[derive(Clone, Copy, Debug, PartialEq, Eq, Structural)]
pub enum MemoryCache {
    /// The memory moves around: both are re-read at each use.
    Dynamic { ptr_to_base_ptr: Value, ptr_to_current_length: Value },
    /// The memory is always in the same place: its base, loaded once.
    Static { base_ptr: Value },
}

/// A table's base pointer and element count, loaded once.
#[derive(Clone, Copy, Debug, PartialEq, Eq, Structural)]
pub struct TableCache {
    pub ptr_to_base_ptr: Value,
    pub ptr_to_bounds: Value,
    pub base_ptr: Value,
    pub bounds: Value,
}

/// A global: a pointer to a mutable one, or the loaded value of a constant one.
#[derive(Clone, Copy, Debug, PartialEq, Eq, Structural)]
pub enum GlobalCache {
    Mut { ptr_to_value: Value },
    Const { value: Value },
}

/// Where a function attribute is attached.
#[derive(Clone, Copy, Debug, PartialEq, Eq, Structural)]
pub enum AttrLoc {
    Function,
    Return,
    Param(u32),
}

/// A function attribute, by the handle of the backend attribute, and where it goes.
#[derive(Clone, Copy, Debug, PartialEq, Eq, Structural)]
pub struct FuncAttr {
    pub attr: u32,
    pub loc: AttrLoc,
}

/// A function signature as the calling convention lowered it: the handle of
/// the backend function type, and the attributes calls must carry.
pub struct LoweredSignature {
    pub ty: u32,
    pub attrs: Vec<FuncAttr>,
}

/// A callable function: its address, its VM context and its call attributes.
pub struct FunctionCache {
    pub func: Value,
    pub vmctx: Value,
    pub attrs: Vec<FuncAttr>,
}

/// Mathematical value of a `FunctionCache`.
pub struct FunctionEntry {
    pub func: Value,
    pub vmctx: Value,
    pub attrs: Seq<FuncAttr>,
}

impl View for FunctionCache {
    type V = FunctionEntry;

    open spec fn view(&self) -> FunctionEntry {
        FunctionEntry { func: self.func, vmctx: self.vmctx, attrs: self.attrs@ }
    }
}

fn copy_attrs(attrs: &Vec<FuncAttr>) -> (r: Vec<FuncAttr>)
    ensures
        r@ == attrs@,
{
    let mut r: Vec<FuncAttr> = Vec::new();
    let mut i: usize = 0;
    while i < attrs.len()
        invariant
            i <= attrs@.len(),
            r@ == attrs@.subrange(0, i as int),
        decreases attrs@.len() - i,
    {
        r.push(attrs[i]);
        i += 1;
        assert(r@ =~= attrs@.subrange(0, i as int));
    }
    assert(r@ =~= attrs@);
    r
}

impl FunctionCache {
    /// A copy of the entry.
    pub fn copy(&self) -> (r: FunctionCache)
        ensures
            r@ == self@,
    {
        FunctionCache { func: self.func, vmctx: self.vmctx, attrs: copy_attrs(&self.attrs) }
    }
}

/// An external function symbol declared for a local function.
pub struct FunctionDecl {
    pub name: String,
    pub ty: u32,
    pub attrs: Vec<FuncAttr>,
}

/// Mathematical value of a `FunctionDecl`.
pub struct DeclEntry {
    pub name: Seq<char>,
    pub ty: u32,
    pub attrs: Seq<FuncAttr>,
}

impl View for FunctionDecl {
    type V = DeclEntry;

    open spec fn view(&self) -> DeclEntry {
        DeclEntry { name: self.name@, ty: self.ty, attrs: self.attrs@ }
    }
}

/// Mathematical value of the accessor: the layout and offsets it reads, the
/// entry block and declarations it has emitted, and one cache slot per entity.
pub struct CtxView {
    pub offsets: wasmer_vm::VMOffsets,
    pub insts: Seq<Inst>,
    pub decls: Seq<DeclEntry>,
    pub memories: Seq<Option<MemoryCache>>,
    pub tables: Seq<Option<TableCache>>,
    pub sigindices: Seq<Option<Value>>,
    pub globals: Seq<Option<GlobalCache>>,
    pub functions: Seq<Option<FunctionEntry>>,
    pub memory_grow: Seq<Option<Value>>,
    pub memory_size: Seq<Option<Value>>,
    /// The imported functions whose import records have been loaded.
    pub loaded_imports: Set<u32>,
}

/// Why an accessor request was refused.
#[derive(Clone, Copy, Debug, PartialEq, Eq, Structural)]
pub enum CacheError {
    /// The function already has a cache entry.
    DuplicateFunction(u32),
}

/// The accessor of the VM context for one function being compiled.
pub struct CtxType {
    layout: ModuleLayout,
    offsets: wasmer_vm::VMOffsets,
    cache_builder: Vec<Inst>,
    declared: Vec<FunctionDecl>,
    cached_memories: Vec<Option<MemoryCache>>,
    cached_tables: Vec<Option<TableCache>>,
    cached_sigindices: Vec<Option<Value>>,
    cached_globals: Vec<Option<GlobalCache>>,
    cached_functions: Vec<Option<FunctionCache>>,
    cached_memory_grow: Vec<Option<Value>>,
    cached_memory_size: Vec<Option<Value>>,
    loaded_imports: Ghost<Set<u32>>,
}

/// The value produced by the instruction at position `k`.
pub open spec fn at(k: int) -> Value {
    Value::Inst(k as usize)
}

/// `n` empty cache slots.
pub open spec fn empty_slots<T>(n: nat) -> Seq<Option<T>> {
    Seq::new(n, |i: int| None::<T>)
}

/// What `memory` appends to an entry block of `n` instructions, and returns.
pub open spec fn memory_emission(
    o: wasmer_vm::VMOffsets,
    num_imported: u32,
    index: u32,
    style: MemoryStyle,
    n: int,
) -> (Seq<Inst>, MemoryCache) {
    let (pre, def) = if index >= num_imported {
        let off = memories_begin(o) + (index - num_imported) * (2 * ps(o));
        (
            seq![
                Inst::Gep { base: Value::VmCtx, offset: off as u32 },
                Inst::Bitcast { value: at(n), ty: PtrType::MemoryDefinitionPtr },
                Inst::StructGep { ptr: at(n + 1), field: MEMORY_DEFINITION_BASE_FIELD },
            ],
            at(n + 1),
        )
    } else {
        let off = imported_memories_begin(o) + index * (3 * ps(o));
        (
            seq![
                Inst::Gep { base: Value::VmCtx, offset: off as u32 },
                Inst::Bitcast { value: at(n), ty: PtrType::BytePtrPtr },
                Inst::Load { ptr: at(n + 1), label: Some(TbaaLabel::MemoryDefinition(index)) },
                Inst::Bitcast { value: at(n + 2), ty: PtrType::MemoryDefinitionPtr },
                Inst::StructGep { ptr: at(n + 3), field: MEMORY_DEFINITION_BASE_FIELD },
            ],
            at(n + 3),
        )
    };
    let k = n + pre.len();
    match style {
        MemoryStyle::Dynamic => (
            pre.push(Inst::StructGep { ptr: def, field: MEMORY_DEFINITION_LENGTH_FIELD }),
            MemoryCache::Dynamic { ptr_to_base_ptr: at(k - 1), ptr_to_current_length: at(k) },
        ),
        MemoryStyle::Static => (
            pre.push(Inst::Load { ptr: at(k - 1), label: Some(TbaaLabel::MemoryBasePtr(index)) }),
            MemoryCache::Static { base_ptr: at(k) },
        ),
    }
}

/// What `table` appends to an entry block of `n` instructions, and returns.
pub open spec fn table_emission(
    o: wasmer_vm::VMOffsets,
    num_imported: u32,
    index: u32,
    n: int,
) -> (Seq<Inst>, TableCache) {
    let (pre, base, bounds) = if index >= num_imported {
        let local = index - num_imported;
        let off_base = tables_begin(o) + local * (2 * ps(o));
        let off_bounds = off_base + ps(o);
        (
            seq![
                Inst::Gep { base: Value::VmCtx, offset: off_base as u32 },
                Inst::Bitcast { value: at(n), ty: PtrType::BytePtrPtr },
                Inst::Gep { base: Value::VmCtx, offset: off_bounds as u32 },
                Inst::Bitcast { value: at(n + 2), ty: PtrType::I32Ptr },
            ],
            at(n + 1),
            at(n + 3),
        )
    } else {
        let off = imported_tables_begin(o) + index * (3 * ps(o));
        (
            seq![
                Inst::Gep { base: Value::VmCtx, offset: off as u32 },
                Inst::Bitcast { value: at(n), ty: PtrType::BytePtrPtr },
                Inst::Load { ptr: at(n + 1), label: Some(TbaaLabel::TableDefinition(index)) },
                Inst::Gep { base: at(n + 2), offset: 0 },
                Inst::Bitcast { value: at(n + 3), ty: PtrType::BytePtrPtr },
                Inst::Gep { base: at(n + 2), offset: o.pointer_size as u32 },
                Inst::Bitcast { value: at(n + 5), ty: PtrType::I32Ptr },
            ],
            at(n + 4),
            at(n + 6),
        )
    };
    let k = n + pre.len();
    (
        pre + seq![
            Inst::Load { ptr: base, label: Some(TbaaLabel::TableBasePtr(index)) },
            Inst::Load { ptr: bounds, label: Some(TbaaLabel::TableBounds(index)) },
        ],
        TableCache { ptr_to_base_ptr: base, ptr_to_bounds: bounds, base_ptr: at(k), bounds: at(k + 1) },
    )
}

/// What `dynamic_sigindex` appends to an entry block of `n` instructions.
pub open spec fn sigindex_emission(index: u32, n: int) -> Seq<Inst> {
    seq![
        Inst::Gep { base: Value::VmCtx, offset: (index * 4) as u32 },
        Inst::Bitcast { value: at(n), ty: PtrType::I32Ptr },
        Inst::Load { ptr: at(n + 1), label: Some(TbaaLabel::SigIndex(index)) },
    ]
}

/// What `global` appends to an entry block of `n` instructions, and returns.
pub open spec fn global_emission(
    o: wasmer_vm::VMOffsets,
    num_imported: u32,
    index: u32,
    gt: GlobalType,
    n: int,
) -> (Seq<Inst>, GlobalCache) {
    let off = if index >= num_imported {
        globals_begin(o) + (index - num_imported) * ps(o)
    } else {
        imported_globals_begin(o) + index * (2 * ps(o))
    };
    let pre = seq![
        Inst::Gep { base: Value::VmCtx, offset: off as u32 },
        Inst::Bitcast { value: at(n), ty: PtrType::I32PtrPtr },
        Inst::Load { ptr: at(n + 1), label: Some(TbaaLabel::GlobalPtr(index)) },
        Inst::Bitcast { value: at(n + 2), ty: PtrType::PtrTo(ir_type(gt.ty)) },
    ];
    match gt.mutability {
        Mutability::Const => (
            pre.push(Inst::Load { ptr: at(n + 3), label: Some(TbaaLabel::Global(index)) }),
            GlobalCache::Const { value: at(n + 4) },
        ),
        Mutability::Var => (pre, GlobalCache::Mut { ptr_to_value: at(n + 3) }),
    }
}

/// What `func` appends to an entry block of `n` instructions for an imported
/// function whose lowered type has handle `ty`.
pub open spec fn func_emission(o: wasmer_vm::VMOffsets, index: u32, ty: u32, n: int) -> Seq<Inst> {
    let off = imported_functions_begin(o) + index * (2 * ps(o));
    seq![
        Inst::Gep { base: Value::VmCtx, offset: off as u32 },
        Inst::Bitcast { value: at(n), ty: PtrType::FunctionImportPtr },
        Inst::StructGep { ptr: at(n + 1), field: FUNCTION_IMPORT_BODY_FIELD },
        Inst::Load { ptr: at(n + 2), label: Some(TbaaLabel::FunctionBody(index)) },
        Inst::Bitcast { value: at(n + 3), ty: PtrType::FunctionPtr(ty) },
        Inst::StructGep { ptr: at(n + 1), field: FUNCTION_IMPORT_VMCTX_FIELD },
        Inst::Load { ptr: at(n + 5), label: Some(TbaaLabel::FunctionVmctx(index)) },
    ]
}

/// What `memory_grow` or `memory_size` appends to an entry block of `n`
/// instructions to load the pointer of builtin `b`, tagged with `label`.
pub open spec fn builtin_emission(
    o: wasmer_vm::VMOffsets,
    b: MemoryBuiltin,
    label: TbaaLabel,
    n: int,
) -> Seq<Inst> {
    let off = builtin_functions_begin(o) + builtin_index(b) * ps(o);
    seq![
        Inst::Gep { base: Value::VmCtx, offset: off as u32 },
        Inst::Bitcast { value: at(n), ty: PtrType::BuiltinPtrPtr(b) },
        Inst::Load { ptr: at(n + 1), label: Some(label) },
    ]
}

/// The builtin that `memory_grow` reads for memory `index`.
pub open spec fn grow_builtin(num_imported: u32, index: u32) -> MemoryBuiltin {
    if index >= num_imported {
        MemoryBuiltin::Memory32Grow
    } else {
        MemoryBuiltin::ImportedMemory32Grow
    }
}

/// The builtin that `memory_size` reads for memory `index`.
pub open spec fn size_builtin(num_imported: u32, index: u32) -> MemoryBuiltin {
    if index >= num_imported {
        MemoryBuiltin::Memory32Size
    } else {
        MemoryBuiltin::ImportedMemory32Size
    }
}

/// Whether `i` is a load tagged with label `l`.
pub open spec fn is_load_of(i: Inst, l: TbaaLabel) -> bool {
    match i {
        Inst::Load { label: Some(m), .. } => m == l,
        _ => false,
    }
}

/// Number of loads in `s` tagged with label `l`.
pub open spec fn loads_of(s: Seq<Inst>, l: TbaaLabel) -> nat
    decreases s.len(),
{
    if s.len() == 0 {
        0
    } else {
        loads_of(s.drop_last(), l) + if is_load_of(s.last(), l) {
            1nat
        } else {
            0nat
        }
    }
}

/// Loads are counted piecewise over concatenation.
pub proof fn lemma_loads_of_concat(a: Seq<Inst>, b: Seq<Inst>, l: TbaaLabel)
    ensures
        loads_of(a + b, l) == loads_of(a, l) + loads_of(b, l),
    decreases b.len(),
{
    if b.len() == 0 {
        assert(a + b =~= a);
    } else {
        lemma_loads_of_concat(a, b.drop_last(), l);
        assert((a + b).drop_last() =~= a + b.drop_last());
    }
}

/// The first access to a memory emits one load of its base pointer if it is
/// static, one load of its definition pointer if it is imported, and no other
/// tagged load.
pub proof fn lemma_memory_loads_once(
    o: wasmer_vm::VMOffsets,
    num_imported: u32,
    index: u32,
    style: MemoryStyle,
    n: int,
    l: TbaaLabel,
)
    ensures
        loads_of(memory_emission(o, num_imported, index, style, n).0, l) == (if l
            == TbaaLabel::MemoryBasePtr(index) && style == MemoryStyle::Static {
            1nat
        } else {
            0nat
        }) + (if l == TbaaLabel::MemoryDefinition(index) && index < num_imported {
            1nat
        } else {
            0nat
        }),
{
    reveal_with_fuel(loads_of, 7);
}

/// The first access to a table emits one load of its base pointer, one of its
/// bounds, one of its definition pointer if it is imported, and no other
/// tagged load.
pub proof fn lemma_table_loads_once(
    o: wasmer_vm::VMOffsets,
    num_imported: u32,
    index: u32,
    n: int,
    l: TbaaLabel,
)
    ensures
        loads_of(table_emission(o, num_imported, index, n).0, l) == (if l
            == TbaaLabel::TableBasePtr(index) || l == TbaaLabel::TableBounds(index) {
            1nat
        } else {
            0nat
        }) + (if l == TbaaLabel::TableDefinition(index) && index < num_imported {
            1nat
        } else {
            0nat
        }),
{
    reveal_with_fuel(loads_of, 10);
}

/// The first access to a signature id emits one tagged load, of that id.
pub proof fn lemma_sigindex_loads_once(index: u32, n: int, l: TbaaLabel)
    ensures
        loads_of(sigindex_emission(index, n), l) == if l == TbaaLabel::SigIndex(index) {
            1nat
        } else {
            0nat
        },
{
    reveal_with_fuel(loads_of, 4);
}

/// The first access to a global emits one load of its pointer, one of its
/// value if it is constant, and no other tagged load.
pub proof fn lemma_global_loads_once(
    o: wasmer_vm::VMOffsets,
    num_imported: u32,
    index: u32,
    gt: GlobalType,
    n: int,
    l: TbaaLabel,
)
    ensures
        loads_of(global_emission(o, num_imported, index, gt, n).0, l) == (if l
            == TbaaLabel::GlobalPtr(index) {
            1nat
        } else {
            0nat
        }) + (if l == TbaaLabel::Global(index) && gt.mutability == Mutability::Const {
            1nat
        } else {
            0nat
        }),
{
    reveal_with_fuel(loads_of, 6);
}

/// The first access to an imported function emits one load of its body
/// pointer and one of its VM context, and no other tagged load.
pub proof fn lemma_func_loads_once(o: wasmer_vm::VMOffsets, index: u32, ty: u32, n: int, l: TbaaLabel)
    ensures
        loads_of(func_emission(o, index, ty, n), l) == if l == TbaaLabel::FunctionBody(index) || l
            == TbaaLabel::FunctionVmctx(index) {
            1nat
        } else {
            0nat
        },
{
    reveal_with_fuel(loads_of, 8);
}

/// The first access to a memory builtin emits one tagged load, of its pointer.
pub proof fn lemma_builtin_loads_once(
    o: wasmer_vm::VMOffsets,
    b: MemoryBuiltin,
    label: TbaaLabel,
    n: int,
    l: TbaaLabel,
)
    ensures
        loads_of(builtin_emission(o, b, label, n), l) == if l == label {
            1nat
        } else {
            0nat
        },
{
    reveal_with_fuel(loads_of, 4);
}

/// How many loads tagged with `l` the entry block of an accessor in state `v`
/// holds: one if the entity `l` names has been accessed and its access reads
/// what `l` names, else none.
pub open spec fn expected_loads(v: CtxView, l: TbaaLabel) -> nat {
    let nim = v.offsets.num_imported_memories;
    let nit = v.offsets.num_imported_tables;
    match l {
        TbaaLabel::MemoryDefinition(i) => if i < v.memories.len() && v.memories[i as int] is Some
            && i < nim {
            1
        } else {
            0
        },
        TbaaLabel::MemoryBasePtr(i) => if i < v.memories.len() && v.memories[i as int] matches Some(
            MemoryCache::Static { .. },
        ) {
            1
        } else {
            0
        },
        TbaaLabel::TableDefinition(i) => if i < v.tables.len() && v.tables[i as int] is Some && i
            < nit {
            1
        } else {
            0
        },
        TbaaLabel::TableBasePtr(i) => if i < v.tables.len() && v.tables[i as int] is Some {
            1
        } else {
            0
        },
        TbaaLabel::TableBounds(i) => if i < v.tables.len() && v.tables[i as int] is Some {
            1
        } else {
            0
        },
        TbaaLabel::SigIndex(i) => if i < v.sigindices.len() && v.sigindices[i as int] is Some {
            1
        } else {
            0
        },
        TbaaLabel::GlobalPtr(i) => if i < v.globals.len() && v.globals[i as int] is Some {
            1
        } else {
            0
        },
        TbaaLabel::Global(i) => if i < v.globals.len() && v.globals[i as int] matches Some(
            GlobalCache::Const { .. },
        ) {
            1
        } else {
            0
        },
        TbaaLabel::FunctionBody(i) => if v.loaded_imports.contains(i) {
            1
        } else {
            0
        },
        TbaaLabel::FunctionVmctx(i) => if v.loaded_imports.contains(i) {
            1
        } else {
            0
        },
        TbaaLabel::MemoryGrow(i) => if i < v.memory_grow.len() && v.memory_grow[i as int] is Some {
            1
        } else {
            0
        },
        TbaaLabel::MemorySize(i) => if i < v.memory_size.len() && v.memory_size[i as int] is Some {
            1
        } else {
            0
        },
    }
}

fn empty_cache<T>(n: u32) -> (r: Vec<Option<T>>)
    ensures
        r@ == empty_slots::<T>(n as nat),
{
    let mut v: Vec<Option<T>> = Vec::new();
    let mut i: u32 = 0;
    while i < n
        invariant
            i <= n,
            v@ == empty_slots::<T>(i as nat),
        decreases n - i,
    {
        v.push(None);
        i += 1;
        assert(v@ =~= empty_slots::<T>(i as nat));
    }
    v
}

fn empty_functions(n: u32) -> (r: Vec<Option<FunctionCache>>)
    ensures
        r@.len() == n,
        forall|i: int| 0 <= i < n ==> r@[i] is None,
{
    let mut v: Vec<Option<FunctionCache>> = Vec::new();
    let mut i: u32 = 0;
    while i < n
        invariant
            i <= n,
            v@.len() == i,
            forall|j: int| 0 <= j < i ==> v@[j] is None,
        decreases n - i,
    {
        v.push(None);
        i += 1;
    }
    v
}

impl CtxType {
    /// The accessor's mathematical value.
    pub closed spec fn view(&self) -> CtxView {
        CtxView {
            offsets: self.offsets,
            insts: self.cache_builder@,
            decls: self.declared@.map_values(|d: FunctionDecl| d@),
            memories: self.cached_memories@,
            tables: self.cached_tables@,
            sigindices: self.cached_sigindices@,
            globals: self.cached_globals@,
            functions: self.cached_functions@.map_values(
                |f: Option<FunctionCache>|
                    match f {
                        Some(c) => Some(c@),
                        None => None,
                    },
            ),
            memory_grow: self.cached_memory_grow@,
            memory_size: self.cached_memory_size@,
            loaded_imports: self.loaded_imports@,
        }
    }

    /// The module layout the accessor reads.
    pub closed spec fn layout_spec(&self) -> &ModuleLayout {
        &self.layout
    }

    /// The accessor's invariant: its shape, and one tagged load in the entry
    /// block for each label whose entity has been accessed.
    pub closed spec fn wf(&self) -> bool {
        &&& self.wf_shape()
        &&& forall|l: TbaaLabel|
            #[trigger] loads_of(self.cache_builder@, l) == expected_loads(self.view(), l)
    }

    /// A well-formed layout whose offsets fit, its offset table, and one
    /// cache slot per entity.
    closed spec fn wf_shape(&self) -> bool {
        &&& self.layout.wf()
        &&& self.offsets == self.layout.offsets_spec()
        &&& offsets_fit(self.offsets)
        &&& self.cached_memories@.len() == self.layout.num_memories
        &&& self.cached_tables@.len() == self.layout.num_tables
        &&& self.cached_sigindices@.len() == self.layout.num_signatures
        &&& self.cached_globals@.len() == self.layout.globals@.len()
        &&& self.cached_functions@.len() == self.layout.num_functions
        &&& self.cached_memory_grow@.len() == self.layout.num_memories
        &&& self.cached_memory_size@.len() == self.layout.num_memories
        &&& forall|i: u32|
            #[trigger] self.loaded_imports@.contains(i) ==> i < self.cached_functions@.len()
                && self.cached_functions@[i as int] is Some
    }

    /// A fresh accessor, with an empty entry block and empty caches.
    pub fn new(layout: ModuleLayout, offsets: wasmer_vm::VMOffsets) -> (r: Self)
        requires
            layout.wf(),
            offsets == layout.offsets_spec(),
            offsets_fit(layout.offsets_spec()),
        ensures
            r.wf(),
            r.layout_spec() == layout,
            r.view() == (CtxView {
                offsets: layout.offsets_spec(),
                insts: Seq::empty(),
                decls: Seq::empty(),
                memories: empty_slots(layout.num_memories as nat),
                tables: empty_slots(layout.num_tables as nat),
                sigindices: empty_slots(layout.num_signatures as nat),
                globals: empty_slots(layout.globals@.len()),
                functions: empty_slots(layout.num_functions as nat),
                memory_grow: empty_slots(layout.num_memories as nat),
                memory_size: empty_slots(layout.num_memories as nat),
                loaded_imports: Set::empty(),
            }),
    {
        let cached_memories = empty_cache(layout.num_memories);
        let cached_tables = empty_cache(layout.num_tables);
        let cached_sigindices = empty_cache(layout.num_signatures);
        let cached_globals = empty_cache(layout.globals.len() as u32);
        let cached_functions = empty_functions(layout.num_functions);
        let cached_memory_grow = empty_cache(layout.num_memories);
        let cached_memory_size = empty_cache(layout.num_memories);
        let r = CtxType {
            layout,
            offsets,
            cache_builder: Vec::new(),
            declared: Vec::new(),
            cached_memories,
            cached_tables,
            cached_sigindices,
            cached_globals,
            cached_functions,
            cached_memory_grow,
            cached_memory_size,
            loaded_imports: Ghost(Set::empty()),
        };
        assert(r.view().decls =~= Seq::<DeclEntry>::empty());
        assert(r.view().functions =~= empty_slots::<FunctionEntry>(layout.num_functions as nat));
        r
    }

    /// The VM-context parameter.
    pub fn basic(&self) -> (r: Value)
        ensures
            r == Value::VmCtx,
    {
        Value::VmCtx
    }

    /// The offset table the accessor reads.
    pub fn get_offsets(&self) -> (r: &wasmer_vm::VMOffsets)
        ensures
            *r == self.view().offsets,
    {
        &self.offsets
    }

    /// The instructions emitted into the entry block so far.
    pub fn entry_block(&self) -> (r: &Vec<Inst>)
        ensures
            r@ == self.view().insts,
    {
        &self.cache_builder
    }

    /// The functions declared so far.
    pub fn declared_functions(&self) -> (r: &Vec<FunctionDecl>)
        ensures
            r@.map_values(|d: FunctionDecl| d@) == self.view().decls,
    {
        &self.declared
    }

    fn emit(&mut self, inst: Inst) -> (r: Value)
        ensures
            final(self).view() == (CtxView {
                insts: old(self).view().insts.push(inst),
                ..old(self).view()
            }),
            final(self).layout == old(self).layout,
            final(self).wf_shape() == old(self).wf_shape(),
            r == at(old(self).view().insts.len() as int),
    {
        let k = self.cache_builder.len();
        self.cache_builder.push(inst);
        Value::Inst(k)
    }

    /// Pointers to the base and current length of memory `index`, emitted on
    /// first use. A local memory's definition lies inline in the context; an
    /// imported one's is reached through the pointer in its import record.
    pub fn memory(&mut self, index: u32, memory_styles: &Vec<MemoryStyle>) -> (r: MemoryCache)
        requires
            old(self).wf(),
            index < old(self).layout_spec().num_memories,
            index < memory_styles@.len(),
            old(self).view().insts.len() + 8 <= usize::MAX,
        ensures
            final(self).wf(),
            final(self).layout_spec() == old(self).layout_spec(),
            old(self).view().memories[index as int] matches Some(c) ==> r == c && final(self).view() == old(self).view(),
            old(self).view().memories[index as int] is None ==> ({
                let (emitted, c) = memory_emission(
                    old(self).view().offsets,
                    old(self).layout_spec().num_imported_memories,
                    index,
                    memory_styles@[index as int],
                    old(self).view().insts.len() as int,
                );
                &&& r == c
                &&& final(self).view() == (CtxView {
                    insts: old(self).view().insts + emitted,
                    memories: old(self).view().memories.update(index as int, Some(c)),
                    ..old(self).view()
                })
            }),
    {
        if let Some(c) = self.cached_memories[index as usize] {
            return c;
        }
        let style = memory_styles[index as usize];
        let nim = self.layout.num_imported_memories;
        let def = if index >= nim {
            let off = vmctx_vmmemory_definition(&self.offsets, index - nim);
            let p = self.emit(Inst::Gep { base: Value::VmCtx, offset: off });
            self.emit(Inst::Bitcast { value: p, ty: PtrType::MemoryDefinitionPtr })
        } else {
            let off = vmctx_vmmemory_import(&self.offsets, index);
            let pp = self.emit(Inst::Gep { base: Value::VmCtx, offset: off });
            let pp = self.emit(Inst::Bitcast { value: pp, ty: PtrType::BytePtrPtr });
            let d = self.emit(
                Inst::Load { ptr: pp, label: Some(TbaaLabel::MemoryDefinition(index)) },
            );
            self.emit(Inst::Bitcast { value: d, ty: PtrType::MemoryDefinitionPtr })
        };
        let base_ptr = self.emit(Inst::StructGep { ptr: def, field: MEMORY_DEFINITION_BASE_FIELD });
        let c = match style {
            MemoryStyle::Dynamic => {
                let len = self.emit(
                    Inst::StructGep { ptr: def, field: MEMORY_DEFINITION_LENGTH_FIELD },
                );
                MemoryCache::Dynamic { ptr_to_base_ptr: base_ptr, ptr_to_current_length: len }
            },
            MemoryStyle::Static => {
                let b = self.emit(
                    Inst::Load { ptr: base_ptr, label: Some(TbaaLabel::MemoryBasePtr(index)) },
                );
                MemoryCache::Static { base_ptr: b }
            },
        };
        self.cached_memories.set(index as usize, Some(c));
        proof {
            let (emitted, c2) = memory_emission(
                old(self).view().offsets,
                nim,
                index,
                style,
                old(self).view().insts.len() as int,
            );
            assert(self.view().insts =~= old(self).view().insts + emitted);
            assert(self.view().memories =~= old(self).view().memories.update(index as int, Some(c)));
            assert forall|l: TbaaLabel| #[trigger] loads_of(self.cache_builder@, l) == expected_loads(self.view(), l) by {
                lemma_loads_of_concat(old(self).view().insts, emitted, l);
                lemma_memory_loads_once(old(self).view().offsets, nim, index, style, old(self).view().insts.len() as int, l);
            }
        }
        c
    }

    fn table_prepare(&mut self, index: u32) -> (r: (Value, Value))
        requires
            old(self).wf(),
            index < old(self).layout_spec().num_tables,
            old(self).view().insts.len() + 16 <= usize::MAX,
        ensures
            final(self).wf_shape(),
            final(self).layout_spec() == old(self).layout_spec(),
            ({
                let (emitted, c) = table_emission(
                    old(self).view().offsets,
                    old(self).layout_spec().num_imported_tables,
                    index,
                    old(self).view().insts.len() as int,
                );
                let pre = emitted.take(emitted.len() - 2);
                &&& r == (c.ptr_to_base_ptr, c.ptr_to_bounds)
                &&& final(self).view() == (CtxView {
                    insts: old(self).view().insts + pre,
                    ..old(self).view()
                })
            }),
    {
        let nit = self.layout.num_imported_tables;
        if index >= nit {
            let local = index - nit;
            let off = vmctx_vmtable_definition_base(&self.offsets, local);
            let p = self.emit(Inst::Gep { base: Value::VmCtx, offset: off });
            let base = self.emit(Inst::Bitcast { value: p, ty: PtrType::BytePtrPtr });
            let off = vmctx_vmtable_definition_current_elements(&self.offsets, local);
            let p = self.emit(Inst::Gep { base: Value::VmCtx, offset: off });
            let bounds = self.emit(Inst::Bitcast { value: p, ty: PtrType::I32Ptr });
            proof {
                let (emitted, c) = table_emission(
                    old(self).view().offsets,
                    nit,
                    index,
                    old(self).view().insts.len() as int,
                );
                assert(self.view().insts =~= old(self).view().insts + emitted.take(
                    emitted.len() - 2,
                ));
            }
            (base, bounds)
        } else {
            let off = vmctx_vmtable_import_definition(&self.offsets, index);
            let pp = self.emit(Inst::Gep { base: Value::VmCtx, offset: off });
            let pp = self.emit(Inst::Bitcast { value: pp, ty: PtrType::BytePtrPtr });
            let def = self.emit(
                Inst::Load { ptr: pp, label: Some(TbaaLabel::TableDefinition(index)) },
            );
            let off = vmtable_definition_base(&self.offsets);
            let p = self.emit(Inst::Gep { base: def, offset: off as u32 });
            let base = self.emit(Inst::Bitcast { value: p, ty: PtrType::BytePtrPtr });
            let off = vmtable_definition_current_elements(&self.offsets);
            let p = self.emit(Inst::Gep { base: def, offset: off as u32 });
            let bounds = self.emit(Inst::Bitcast { value: p, ty: PtrType::I32Ptr });
            proof {
                let (emitted, c) = table_emission(
                    old(self).view().offsets,
                    nit,
                    index,
                    old(self).view().insts.len() as int,
                );
                assert(self.view().insts =~= old(self).view().insts + emitted.take(
                    emitted.len() - 2,
                ));
            }
            (base, bounds)
        }
    }

    /// The base pointer and element count of table `index`, loaded once, with
    /// the pointers they were loaded through.
    pub fn table(&mut self, index: u32) -> (r: TableCache)
        requires
            old(self).wf(),
            index < old(self).layout_spec().num_tables,
            old(self).view().insts.len() + 16 <= usize::MAX,
        ensures
            final(self).wf(),
            final(self).layout_spec() == old(self).layout_spec(),
            old(self).view().tables[index as int] matches Some(c) ==> r == c && final(self).view() == old(self).view(),
            old(self).view().tables[index as int] is None ==> ({
                let (emitted, c) = table_emission(
                    old(self).view().offsets,
                    old(self).layout_spec().num_imported_tables,
                    index,
                    old(self).view().insts.len() as int,
                );
                &&& r == c
                &&& final(self).view() == (CtxView {
                    insts: old(self).view().insts + emitted,
                    tables: old(self).view().tables.update(index as int, Some(c)),
                    ..old(self).view()
                })
            }),
    {
        if let Some(c) = self.cached_tables[index as usize] {
            return c;
        }
        let (ptr_to_base_ptr, ptr_to_bounds) = self.table_prepare(index);
        let base_ptr = self.emit(
            Inst::Load { ptr: ptr_to_base_ptr, label: Some(TbaaLabel::TableBasePtr(index)) },
        );
        let bounds = self.emit(
            Inst::Load { ptr: ptr_to_bounds, label: Some(TbaaLabel::TableBounds(index)) },
        );
        let c = TableCache { ptr_to_base_ptr, ptr_to_bounds, base_ptr, bounds };
        self.cached_tables.set(index as usize, Some(c));
        proof {
            let (emitted, c2) = table_emission(
                old(self).view().offsets,
                old(self).layout.num_imported_tables,
                index,
                old(self).view().insts.len() as int,
            );
            assert(emitted =~= emitted.take(emitted.len() - 2) + emitted.skip(emitted.len() - 2));
            assert(self.view().insts =~= old(self).view().insts + emitted);
            assert(self.view().tables =~= old(self).view().tables.update(index as int, Some(c)));
            assert forall|l: TbaaLabel| #[trigger] loads_of(self.cache_builder@, l) == expected_loads(self.view(), l) by {
                lemma_loads_of_concat(old(self).view().insts, emitted, l);
                lemma_table_loads_once(old(self).view().offsets, old(self).layout.num_imported_tables, index, old(self).view().insts.len() as int, l);
            }
        }
        c
    }

    /// The shared id of signature `index`, loaded once; indirect calls compare
    /// against it.
    pub fn dynamic_sigindex(&mut self, index: u32) -> (r: Value)
        requires
            old(self).wf(),
            index < old(self).layout_spec().num_signatures,
            old(self).view().insts.len() + 8 <= usize::MAX,
        ensures
            final(self).wf(),
            final(self).layout_spec() == old(self).layout_spec(),
            old(self).view().sigindices[index as int] matches Some(v) ==> r == v && final(self).view() == old(self).view(),
            old(self).view().sigindices[index as int] is None ==> ({
                let n = old(self).view().insts.len() as int;
                &&& r == at(n + 2)
                &&& final(self).view() == (CtxView {
                    insts: old(self).view().insts + sigindex_emission(index, n),
                    sigindices: old(self).view().sigindices.update(index as int, Some(r)),
                    ..old(self).view()
                })
            }),
    {
        if let Some(v) = self.cached_sigindices[index as usize] {
            return v;
        }
        let off = vmctx_vmshared_signature_id(&self.offsets, index);
        let p = self.emit(Inst::Gep { base: Value::VmCtx, offset: off });
        let p = self.emit(Inst::Bitcast { value: p, ty: PtrType::I32Ptr });
        let v = self.emit(Inst::Load { ptr: p, label: Some(TbaaLabel::SigIndex(index)) });
        self.cached_sigindices.set(index as usize, Some(v));
        proof {
            let n = old(self).view().insts.len() as int;
            assert(self.view().insts =~= old(self).view().insts + sigindex_emission(index, n));
            assert(self.view().sigindices =~= old(self).view().sigindices.update(
                index as int,
                Some(v),
            ));
            assert forall|l: TbaaLabel| #[trigger] loads_of(self.cache_builder@, l) == expected_loads(self.view(), l) by {
                lemma_loads_of_concat(old(self).view().insts, sigindex_emission(index, n), l);
                lemma_sigindex_loads_once(index, n, l);
            }
        }
        v
    }

    /// Global `index`: a pointer to its value if it is mutable, else its value,
    /// loaded once since it cannot change during the call.
    pub fn global(&mut self, index: u32) -> (r: Result<GlobalCache, wasmer_compiler::CompileError>)
        requires
            old(self).wf(),
            index < old(self).layout_spec().globals@.len(),
            old(self).view().insts.len() + 8 <= usize::MAX,
        ensures
            final(self).wf(),
            final(self).layout_spec() == old(self).layout_spec(),
            old(self).view().globals[index as int] matches Some(c) ==> r == Ok::<
                GlobalCache,
                wasmer_compiler::CompileError,
            >(c) && final(self).view() == old(self).view(),
            old(self).view().globals[index as int] is None ==> ({
                let (emitted, c) = global_emission(
                    old(self).view().offsets,
                    old(self).layout_spec().num_imported_globals,
                    index,
                    old(self).layout_spec().globals@[index as int],
                    old(self).view().insts.len() as int,
                );
                &&& r == Ok::<GlobalCache, wasmer_compiler::CompileError>(c)
                &&& final(self).view() == (CtxView {
                    insts: old(self).view().insts + emitted,
                    globals: old(self).view().globals.update(index as int, Some(c)),
                    ..old(self).view()
                })
            }),
    {
        if let Some(c) = self.cached_globals[index as usize] {
            return Ok(c);
        }
        let gt = self.layout.globals[index as usize];
        let nig = self.layout.num_imported_globals;
        let off = if index >= nig {
            vmctx_vmglobal_definition(&self.offsets, index - nig)
        } else {
            vmctx_vmglobal_import(&self.offsets, index)
        };
        let pp = self.emit(Inst::Gep { base: Value::VmCtx, offset: off });
        let pp = self.emit(Inst::Bitcast { value: pp, ty: PtrType::I32PtrPtr });
        let p = self.emit(Inst::Load { ptr: pp, label: Some(TbaaLabel::GlobalPtr(index)) });
        let ty = match type_to_llvm_ptr(gt.ty) {
            Ok(t) => t,
            Err(e) => {
                return Err(e);
            },
        };
        let p = self.emit(Inst::Bitcast { value: p, ty });
        let c = match gt.mutability {
            Mutability::Const => {
                let v = self.emit(Inst::Load { ptr: p, label: Some(TbaaLabel::Global(index)) });
                GlobalCache::Const { value: v }
            },
            Mutability::Var => GlobalCache::Mut { ptr_to_value: p },
        };
        self.cached_globals.set(index as usize, Some(c));
        proof {
            let (emitted, c2) = global_emission(
                old(self).view().offsets,
                nig,
                index,
                gt,
                old(self).view().insts.len() as int,
            );
            assert(self.view().insts =~= old(self).view().insts + emitted);
            assert(self.view().globals =~= old(self).view().globals.update(index as int, Some(c)));
            assert forall|l: TbaaLabel| #[trigger] loads_of(self.cache_builder@, l) == expected_loads(self.view(), l) by {
                lemma_loads_of_concat(old(self).view().insts, emitted, l);
                lemma_global_loads_once(old(self).view().offsets, nig, index, gt, old(self).view().insts.len() as int, l);
            }
        }
        Ok(c)
    }

    /// Record a ready-made entry for function `index`. A second entry for the
    /// same function is refused.
    pub fn add_func(
        &mut self,
        function_index: u32,
        func: Value,
        vmctx: Value,
        attrs: &Vec<FuncAttr>,
    ) -> (r: Result<(), CacheError>)
        requires
            old(self).wf(),
            function_index < old(self).layout_spec().num_functions,
        ensures
            final(self).wf(),
            final(self).layout_spec() == old(self).layout_spec(),
            old(self).view().functions[function_index as int] is Some ==> r == Err::<
                (),
                CacheError,
            >(CacheError::DuplicateFunction(function_index)) && final(self).view() == old(self).view(),
            old(self).view().functions[function_index as int] is None ==> r is Ok && final(self).view() == (CtxView {
                functions: old(self).view().functions.update(
                    function_index as int,
                    Some(FunctionEntry { func, vmctx, attrs: attrs@ }),
                ),
                ..old(self).view()
            }),
    {
        if self.cached_functions[function_index as usize].is_some() {
            return Err(CacheError::DuplicateFunction(function_index));
        }
        let entry = FunctionCache { func, vmctx, attrs: copy_attrs(attrs) };
        self.cached_functions.set(function_index as usize, Some(entry));
        proof {
            assert(self.view().functions =~= old(self).view().functions.update(
                function_index as int,
                Some(FunctionEntry { func, vmctx, attrs: attrs@ }),
            ));
        }
        Ok(())
    }

    /// Local function `function_index`, called by a fresh external symbol
    /// named `function_name` with the lowered signature, and the caller's
    /// own VM context.
    pub fn local_func(
        &mut self,
        _local_function_index: u32,
        function_index: u32,
        sig: &LoweredSignature,
        function_name: &str,
    ) -> (r: FunctionCache)
        requires
            old(self).wf(),
            function_index < old(self).layout_spec().num_functions,
            old(self).view().decls.len() + 1 <= usize::MAX,
        ensures
            final(self).wf(),
            final(self).layout_spec() == old(self).layout_spec(),
            old(self).view().functions[function_index as int] matches Some(e) ==> r@ == e
                && final(self).view() == old(self).view(),
            old(self).view().functions[function_index as int] is None ==> ({
                let e = FunctionEntry {
                    func: Value::Function(old(self).view().decls.len() as usize),
                    vmctx: Value::VmCtx,
                    attrs: sig.attrs@,
                };
                &&& r@ == e
                &&& final(self).view() == (CtxView {
                    decls: old(self).view().decls.push(
                        DeclEntry { name: function_name@, ty: sig.ty, attrs: sig.attrs@ },
                    ),
                    functions: old(self).view().functions.update(function_index as int, Some(e)),
                    ..old(self).view()
                })
            }),
    {
        if let Some(c) = &self.cached_functions[function_index as usize] {
            return c.copy();
        }
        let k = self.declared.len();
        self.declared.push(
            FunctionDecl {
                name: function_name.to_owned(),
                ty: sig.ty,
                attrs: copy_attrs(&sig.attrs),
            },
        );
        let entry = FunctionCache {
            func: Value::Function(k),
            vmctx: Value::VmCtx,
            attrs: copy_attrs(&sig.attrs),
        };
        let r = entry.copy();
        self.cached_functions.set(function_index as usize, Some(entry));
        proof {
            assert(self.view().decls =~= old(self).view().decls.push(
                DeclEntry { name: function_name@, ty: sig.ty, attrs: sig.attrs@ },
            ));
            assert(self.view().functions =~= old(self).view().functions.update(
                function_index as int,
                Some(r@),
            ));
        }
        r
    }

    /// Imported function `function_index`: its body pointer, cast to the
    /// lowered signature, and its VM context, both loaded from its import record.
    pub fn func(&mut self, function_index: u32, sig: &LoweredSignature) -> (r: FunctionCache)
        requires
            old(self).wf(),
            function_index < old(self).layout_spec().num_functions,
            function_index < old(self).layout_spec().num_imported_functions
                || old(self).view().functions[function_index as int] is Some,
            old(self).view().insts.len() + 8 <= usize::MAX,
        ensures
            final(self).wf(),
            final(self).layout_spec() == old(self).layout_spec(),
            old(self).view().functions[function_index as int] matches Some(e) ==> r@ == e
                && final(self).view() == old(self).view(),
            old(self).view().functions[function_index as int] is None ==> ({
                let n = old(self).view().insts.len() as int;
                let e = FunctionEntry { func: at(n + 4), vmctx: at(n + 6), attrs: sig.attrs@ };
                &&& r@ == e
                &&& final(self).view() == (CtxView {
                    insts: old(self).view().insts + func_emission(
                        old(self).view().offsets,
                        function_index,
                        sig.ty,
                        n,
                    ),
                    functions: old(self).view().functions.update(function_index as int, Some(e)),
                    loaded_imports: old(self).view().loaded_imports.insert(function_index),
                    ..old(self).view()
                })
            }),
    {
        if let Some(c) = &self.cached_functions[function_index as usize] {
            return c.copy();
        }
        let off = vmctx_vmfunction_import(&self.offsets, function_index);
        let p = self.emit(Inst::Gep { base: Value::VmCtx, offset: off });
        let import = self.emit(Inst::Bitcast { value: p, ty: PtrType::FunctionImportPtr });
        let body_pp = self.emit(Inst::StructGep { ptr: import, field: FUNCTION_IMPORT_BODY_FIELD });
        let body = self.emit(
            Inst::Load { ptr: body_pp, label: Some(TbaaLabel::FunctionBody(function_index)) },
        );
        let body = self.emit(Inst::Bitcast { value: body, ty: PtrType::FunctionPtr(sig.ty) });
        let vmctx_pp = self.emit(
            Inst::StructGep { ptr: import, field: FUNCTION_IMPORT_VMCTX_FIELD },
        );
        let vmctx = self.emit(
            Inst::Load { ptr: vmctx_pp, label: Some(TbaaLabel::FunctionVmctx(function_index)) },
        );
        let entry = FunctionCache { func: body, vmctx, attrs: copy_attrs(&sig.attrs) };
        let r = entry.copy();
        self.cached_functions.set(function_index as usize, Some(entry));
        proof {
            self.loaded_imports = Ghost(self.loaded_imports@.insert(function_index));
        }
        proof {
            let n = old(self).view().insts.len() as int;
            assert(self.view().insts =~= old(self).view().insts + func_emission(
                old(self).view().offsets,
                function_index,
                sig.ty,
                n,
            ));
            assert forall|l: TbaaLabel| #[trigger] loads_of(self.cache_builder@, l) == expected_loads(self.view(), l) by {
                lemma_loads_of_concat(old(self).view().insts, func_emission(old(self).view().offsets, function_index, sig.ty, n), l);
                lemma_func_loads_once(old(self).view().offsets, function_index, sig.ty, n, l);
            }
            assert(self.view().functions =~= old(self).view().functions.update(
                function_index as int,
                Some(r@),
            ));
        }
        r
    }

    fn builtin_ptr(&mut self, b: MemoryBuiltin, label: TbaaLabel) -> (r: Value)
        requires
            old(self).wf(),
            old(self).view().insts.len() + 8 <= usize::MAX,
        ensures
            final(self).wf_shape(),
            final(self).layout == old(self).layout,
            ({
                let n = old(self).view().insts.len() as int;
                &&& r == at(n + 2)
                &&& final(self).view() == (CtxView {
                    insts: old(self).view().insts + builtin_emission(old(self).view().offsets, b, label, n),
                    ..old(self).view()
                })
            }),
    {
        let off = vmctx_builtin_function(&self.offsets, b);
        let p = self.emit(Inst::Gep { base: Value::VmCtx, offset: off });
        let p = self.emit(Inst::Bitcast { value: p, ty: PtrType::BuiltinPtrPtr(b) });
        let v = self.emit(Inst::Load { ptr: p, label: Some(label) });
        proof {
            let n = old(self).view().insts.len() as int;
            assert(self.view().insts =~= old(self).view().insts + builtin_emission(
                old(self).view().offsets,
                b,
                label,
                n,
            ));
        }
        v
    }

    /// Pointer to the `memory.grow` builtin for memory `index`, local or
    /// imported variant, loaded once.
    pub fn memory_grow(&mut self, memory_index: u32) -> (r: Value)
        requires
            old(self).wf(),
            memory_index < old(self).layout_spec().num_memories,
            old(self).view().insts.len() + 8 <= usize::MAX,
        ensures
            final(self).wf(),
            final(self).layout_spec() == old(self).layout_spec(),
            old(self).view().memory_grow[memory_index as int] matches Some(v) ==> r == v
                && final(self).view() == old(self).view(),
            old(self).view().memory_grow[memory_index as int] is None ==> ({
                let n = old(self).view().insts.len() as int;
                let b = grow_builtin(old(self).layout_spec().num_imported_memories, memory_index);
                let label = TbaaLabel::MemoryGrow(memory_index);
                &&& r == at(n + 2)
                &&& final(self).view() == (CtxView {
                    insts: old(self).view().insts + builtin_emission(old(self).view().offsets, b, label, n),
                    memory_grow: old(self).view().memory_grow.update(memory_index as int, Some(r)),
                    ..old(self).view()
                })
            }),
    {
        if let Some(v) = self.cached_memory_grow[memory_index as usize] {
            return v;
        }
        let b = if self.layout.local_memory_index(memory_index).is_some() {
            MemoryBuiltin::Memory32Grow
        } else {
            MemoryBuiltin::ImportedMemory32Grow
        };
        let label = TbaaLabel::MemoryGrow(memory_index);
        let v = self.builtin_ptr(b, label);
        self.cached_memory_grow.set(memory_index as usize, Some(v));
        proof {
            assert(self.view().memory_grow =~= old(self).view().memory_grow.update(
                memory_index as int,
                Some(v),
            ));
            assert forall|l: TbaaLabel| #[trigger] loads_of(self.cache_builder@, l) == expected_loads(self.view(), l) by {
                let n = old(self).view().insts.len() as int;
                lemma_loads_of_concat(old(self).view().insts, builtin_emission(old(self).view().offsets, b, label, n), l);
                lemma_builtin_loads_once(old(self).view().offsets, b, label, n, l);
            }
        }
        v
    }

    /// Pointer to the `memory.size` builtin for memory `index`, local or
    /// imported variant, loaded once.
    pub fn memory_size(&mut self, memory_index: u32) -> (r: Value)
        requires
            old(self).wf(),
            memory_index < old(self).layout_spec().num_memories,
            old(self).view().insts.len() + 8 <= usize::MAX,
        ensures
            final(self).wf(),
            final(self).layout_spec() == old(self).layout_spec(),
            old(self).view().memory_size[memory_index as int] matches Some(v) ==> r == v
                && final(self).view() == old(self).view(),
            old(self).view().memory_size[memory_index as int] is None ==> ({
                let n = old(self).view().insts.len() as int;
                let b = size_builtin(old(self).layout_spec().num_imported_memories, memory_index);
                let label = TbaaLabel::MemorySize(memory_index);
                &&& r == at(n + 2)
                &&& final(self).view() == (CtxView {
                    insts: old(self).view().insts + builtin_emission(old(self).view().offsets, b, label, n),
                    memory_size: old(self).view().memory_size.update(memory_index as int, Some(r)),
                    ..old(self).view()
                })
            }),
    {
        if let Some(v) = self.cached_memory_size[memory_index as usize] {
            return v;
        }
        let b = if self.layout.local_memory_index(memory_index).is_some() {
            MemoryBuiltin::Memory32Size
        } else {
            MemoryBuiltin::ImportedMemory32Size
        };
        let label = TbaaLabel::MemorySize(memory_index);
        let v = self.builtin_ptr(b, label);
        self.cached_memory_size.set(memory_index as usize, Some(v));
        proof {
            assert(self.view().memory_size =~= old(self).view().memory_size.update(
                memory_index as int,
                Some(v),
            ));
            assert forall|l: TbaaLabel| #[trigger] loads_of(self.cache_builder@, l) == expected_loads(self.view(), l) by {
                let n = old(self).view().insts.len() as int;
                lemma_loads_of_concat(old(self).view().insts, builtin_emission(old(self).view().offsets, b, label, n), l);
                lemma_builtin_loads_once(old(self).view().offsets, b, label, n, l);
            }
        }
        v
    }
}


/// Each alias-labelled quantity is loaded at most once per function: for every
/// label, the entry block holds exactly one load tagged with it once the
/// entity it names has been accessed (and that access reads it), and none
/// before, however many times the entity is asked for.
pub proof fn lemma_each_label_loaded_once(c: &CtxType, l: TbaaLabel)
    requires
        c.wf(),
    ensures
        loads_of(c.view().insts, l) == expected_loads(c.view(), l),
        loads_of(c.view().insts, l) <= 1,
{
    assert(loads_of(c.cache_builder@, l) == expected_loads(c.view(), l));
}


/// A well-formed accessor reads the layout's offset table and has one cache
/// slot per entity of its layout.
pub proof fn lemma_cache_slots(c: &CtxType)
    requires
        c.wf(),
    ensures
        c.view().offsets == c.layout_spec().offsets_spec(),
        c.view().memories.len() == c.layout_spec().num_memories,
        c.view().tables.len() == c.layout_spec().num_tables,
        c.view().sigindices.len() == c.layout_spec().num_signatures,
        c.view().globals.len() == c.layout_spec().globals@.len(),
        c.view().functions.len() == c.layout_spec().num_functions,
        c.view().memory_grow.len() == c.layout_spec().num_memories,
        c.view().memory_size.len() == c.layout_spec().num_memories,
{
}

} // verus!
