//! Byte offsets of the fields of the VM context, as the runtime lays it out.
//! The layout is computed by the runtime crate's `VMOffsets`; the spec
//! functions here state what each of its methods returns.
use vstd::prelude::*;

verus! {

/// The runtime's offset table. Its fields are plain counts, visible here.
#[verifier::external_type_specification]
pub struct ExVMOffsets(wasmer_vm::VMOffsets);

/// Opaque builtin-function index of the runtime.
#[verifier::external_type_specification]
#[verifier::external_body]
pub struct ExVMBuiltinFunctionIndex(wasmer_vm::VMBuiltinFunctionIndex);

/// The builtin functions that code reads out of the VM context.
#[derive(Clone, Copy, Debug, PartialEq, Eq, Structural)]
pub enum MemoryBuiltin {
    Memory32Grow,
    ImportedMemory32Grow,
    Memory32Size,
    ImportedMemory32Size,
}

/// Position of the builtin in the runtime's builtin-function array.
pub open spec fn builtin_index(b: MemoryBuiltin) -> int {
    match b {
        MemoryBuiltin::Memory32Grow => 0,
        MemoryBuiltin::ImportedMemory32Grow => 1,
        MemoryBuiltin::Memory32Size => 2,
        MemoryBuiltin::ImportedMemory32Size => 3,
    }
}

/// Number of entries of the builtin-function array.
pub open spec fn builtin_count() -> int {
    26
}

pub open spec fn ps(o: wasmer_vm::VMOffsets) -> int {
    o.pointer_size as int
}

pub open spec fn imported_functions_begin(o: wasmer_vm::VMOffsets) -> int {
    o.num_signature_ids * 4
}

pub open spec fn imported_tables_begin(o: wasmer_vm::VMOffsets) -> int {
    imported_functions_begin(o) + o.num_imported_functions * (2 * ps(o))
}

pub open spec fn imported_memories_begin(o: wasmer_vm::VMOffsets) -> int {
    imported_tables_begin(o) + o.num_imported_tables * (3 * ps(o))
}

pub open spec fn imported_globals_begin(o: wasmer_vm::VMOffsets) -> int {
    imported_memories_begin(o) + o.num_imported_memories * (3 * ps(o))
}

pub open spec fn tables_begin(o: wasmer_vm::VMOffsets) -> int {
    imported_globals_begin(o) + o.num_imported_globals * (2 * ps(o))
}

pub open spec fn memories_begin(o: wasmer_vm::VMOffsets) -> int {
    tables_begin(o) + o.num_local_tables * (2 * ps(o))
}

/// `x` rounded up to a multiple of 16.
pub open spec fn align16(x: int) -> int {
    (x + 15) / 16 * 16
}

pub open spec fn globals_begin(o: wasmer_vm::VMOffsets) -> int {
    align16(memories_begin(o) + o.num_local_memories * (2 * ps(o)))
}

pub open spec fn builtin_functions_begin(o: wasmer_vm::VMOffsets) -> int {
    globals_begin(o) + o.num_local_globals * ps(o)
}

/// Size of the whole VM context.
pub open spec fn size_of_vmctx(o: wasmer_vm::VMOffsets) -> int {
    builtin_functions_begin(o) + builtin_count() * ps(o)
}

/// The table can be computed without overflow: the pointer size times three
/// fits in a byte and the whole context, rounding included, in a `u32`.
pub open spec fn offsets_fit(o: wasmer_vm::VMOffsets) -> bool {
    &&& 3 * ps(o) <= u8::MAX
    &&& size_of_vmctx(o) + 15 <= u32::MAX
}

/// Relies on VMOffsets::vmctx_vmmemory_definition: start of the definition
/// of local memory `local`.
#[verifier::external_body]
pub(crate) fn vmctx_vmmemory_definition(o: &wasmer_vm::VMOffsets, local: u32) -> (r: u32)
    requires
        offsets_fit(*o),
        local < o.num_local_memories,
    ensures
        r == memories_begin(*o) + local * (2 * ps(*o)),
{
    o.vmctx_vmmemory_definition(wasmer_types::LocalMemoryIndex::from_u32(local))
}

/// Relies on VMOffsets::vmctx_vmmemory_import: start of the import record of
/// imported memory `index`, whose first field points to its definition.
#[verifier::external_body]
pub(crate) fn vmctx_vmmemory_import(o: &wasmer_vm::VMOffsets, index: u32) -> (r: u32)
    requires
        offsets_fit(*o),
        index < o.num_imported_memories,
    ensures
        r == imported_memories_begin(*o) + index * (3 * ps(*o)),
{
    o.vmctx_vmmemory_import(wasmer_types::MemoryIndex::from_u32(index))
}

/// Relies on VMOffsets::vmctx_vmtable_definition_base: the base-pointer field
/// of the definition of local table `local`.
#[verifier::external_body]
pub(crate) fn vmctx_vmtable_definition_base(o: &wasmer_vm::VMOffsets, local: u32) -> (r: u32)
    requires
        offsets_fit(*o),
        local < o.num_local_tables,
    ensures
        r == tables_begin(*o) + local * (2 * ps(*o)),
{
    o.vmctx_vmtable_definition_base(wasmer_types::LocalTableIndex::from_u32(local))
}

/// Relies on VMOffsets::vmctx_vmtable_definition_current_elements: the
/// element-count field of the definition of local table `local`.
#[verifier::external_body]
pub(crate) fn vmctx_vmtable_definition_current_elements(
    o: &wasmer_vm::VMOffsets,
    local: u32,
) -> (r: u32)
    requires
        offsets_fit(*o),
        local < o.num_local_tables,
    ensures
        r == tables_begin(*o) + local * (2 * ps(*o)) + ps(*o),
{
    o.vmctx_vmtable_definition_current_elements(wasmer_types::LocalTableIndex::from_u32(local))
}

/// Relies on VMOffsets::vmctx_vmtable_import_definition: the field of the
/// import record of imported table `index` that points to its definition.
#[verifier::external_body]
pub(crate) fn vmctx_vmtable_import_definition(o: &wasmer_vm::VMOffsets, index: u32) -> (r: u32)
    requires
        offsets_fit(*o),
        index < o.num_imported_tables,
    ensures
        r == imported_tables_begin(*o) + index * (3 * ps(*o)),
{
    o.vmctx_vmtable_import_definition(wasmer_types::TableIndex::from_u32(index))
}

/// Relies on VMOffsets::vmtable_definition_base: offset of the base pointer
/// inside a table definition.
#[verifier::external_body]
pub(crate) fn vmtable_definition_base(o: &wasmer_vm::VMOffsets) -> (r: u8)
    requires
        offsets_fit(*o),
    ensures
        r == 0,
{
    o.vmtable_definition_base()
}

/// Relies on VMOffsets::vmtable_definition_current_elements: offset of the
/// element count inside a table definition.
#[verifier::external_body]
pub(crate) fn vmtable_definition_current_elements(o: &wasmer_vm::VMOffsets) -> (r: u8)
    requires
        offsets_fit(*o),
    ensures
        r == ps(*o),
{
    o.vmtable_definition_current_elements()
}

/// Relies on VMOffsets::vmctx_vmshared_signature_id: the shared signature id
/// of signature `index`.
#[verifier::external_body]
pub(crate) fn vmctx_vmshared_signature_id(o: &wasmer_vm::VMOffsets, index: u32) -> (r: u32)
    requires
        offsets_fit(*o),
        index < o.num_signature_ids,
    ensures
        r == index * 4,
{
    o.vmctx_vmshared_signature_id(wasmer_types::SignatureIndex::from_u32(index))
}

/// Relies on VMOffsets::vmctx_vmglobal_definition: the slot of local global
/// `local`, which points to its value.
#[verifier::external_body]
pub(crate) fn vmctx_vmglobal_definition(o: &wasmer_vm::VMOffsets, local: u32) -> (r: u32)
    requires
        offsets_fit(*o),
        local < o.num_local_globals,
    ensures
        r == globals_begin(*o) + local * ps(*o),
{
    o.vmctx_vmglobal_definition(wasmer_types::LocalGlobalIndex::from_u32(local))
}

/// Relies on VMOffsets::vmctx_vmglobal_import: the import record of imported
/// global `index`, whose first field points to its value.
#[verifier::external_body]
pub(crate) fn vmctx_vmglobal_import(o: &wasmer_vm::VMOffsets, index: u32) -> (r: u32)
    requires
        offsets_fit(*o),
        index < o.num_imported_globals,
    ensures
        r == imported_globals_begin(*o) + index * (2 * ps(*o)),
{
    o.vmctx_vmglobal_import(wasmer_types::GlobalIndex::from_u32(index))
}

/// Relies on VMOffsets::vmctx_vmfunction_import: the import record (body,
/// vmctx) of imported function `index`.
#[verifier::external_body]
pub(crate) fn vmctx_vmfunction_import(o: &wasmer_vm::VMOffsets, index: u32) -> (r: u32)
    requires
        offsets_fit(*o),
        index < o.num_imported_functions,
    ensures
        r == imported_functions_begin(*o) + index * (2 * ps(*o)),
{
    o.vmctx_vmfunction_import(wasmer_types::FunctionIndex::from_u32(index))
}

/// Relies on VMOffsets::vmctx_builtin_function with the runtime's
/// VMBuiltinFunctionIndex getters: the slot of the builtin's pointer.
#[verifier::external_body]
pub(crate) fn vmctx_builtin_function(o: &wasmer_vm::VMOffsets, b: MemoryBuiltin) -> (r: u32)
    requires
        offsets_fit(*o),
    ensures
        r == builtin_functions_begin(*o) + builtin_index(b) * ps(*o),
{
    let index = match b {
        MemoryBuiltin::Memory32Grow => wasmer_vm::VMBuiltinFunctionIndex::get_memory32_grow_index(),
        MemoryBuiltin::ImportedMemory32Grow => {
            wasmer_vm::VMBuiltinFunctionIndex::get_imported_memory32_grow_index()
        },
        MemoryBuiltin::Memory32Size => wasmer_vm::VMBuiltinFunctionIndex::get_memory32_size_index(),
        MemoryBuiltin::ImportedMemory32Size => {
            wasmer_vm::VMBuiltinFunctionIndex::get_imported_memory32_size_index()
        },
    };
    o.vmctx_builtin_function(index)
}

} // verus!
