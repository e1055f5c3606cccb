use wasm_codegen::offsets::MemoryBuiltin;
use wasmer_types::{FunctionType, MemoryType, SignatureIndex, TableType, Type};
use wasm_codegen::tbaa::{tbaa_label, TbaaLabel, TbaaNode, TbaaRegistry};
use wasm_codegen::vmctx::{
    type_to_llvm, type_to_llvm_ptr, AttrLoc, CacheError, CtxType, FuncAttr, GlobalCache,
    GlobalType, Inst, IrType, LoweredSignature, MemoryCache, MemoryStyle, ModuleLayout,
    Mutability, PtrType, TableCache, ValType, Value,
};

struct Counts {
    signatures: u32,
    imported_functions: u32,
    functions: u32,
    imported_tables: u32,
    tables: u32,
    imported_memories: u32,
    memories: u32,
    imported_globals: u32,
}

const NONE: Counts = Counts {
    signatures: 0,
    imported_functions: 0,
    functions: 0,
    imported_tables: 0,
    tables: 0,
    imported_memories: 0,
    memories: 0,
    imported_globals: 0,
};

fn layout(c: Counts, globals: Vec<GlobalType>) -> ModuleLayout {
    ModuleLayout {
        num_signatures: c.signatures,
        num_imported_functions: c.imported_functions,
        num_functions: c.functions,
        num_imported_tables: c.imported_tables,
        num_tables: c.tables,
        num_imported_memories: c.imported_memories,
        num_memories: c.memories,
        num_imported_globals: c.imported_globals,
        globals,
    }
}

/// The runtime's module description with the same counts as `l`.
fn module_info(l: &ModuleLayout) -> wasmer_vm::ModuleInfo {
    let mut info = wasmer_vm::ModuleInfo::new();
    for _ in 0..l.num_signatures {
        info.signatures.push(FunctionType::new(vec![], vec![]));
    }
    for _ in 0..l.num_functions {
        info.functions.push(SignatureIndex::from_u32(0));
    }
    for _ in 0..l.num_tables {
        info.tables.push(TableType::new(Type::FuncRef, 0, None));
    }
    for _ in 0..l.num_memories {
        info.memories.push(MemoryType::new(1u32, None, false));
    }
    for _ in 0..l.globals.len() {
        info.globals.push(wasmer_types::GlobalType::new(Type::I32, wasmer_types::Mutability::Var));
    }
    info.num_imported_functions = l.num_imported_functions as usize;
    info.num_imported_tables = l.num_imported_tables as usize;
    info.num_imported_memories = l.num_imported_memories as usize;
    info.num_imported_globals = l.num_imported_globals as usize;
    info
}

fn ctx(l: ModuleLayout) -> CtxType {
    assert!(l.is_valid());
    let offsets = wasmer_vm::VMOffsets::new(8, &module_info(&l));
    assert!(l.describes(&offsets));
    CtxType::new(l, offsets)
}

fn load(ptr: Value, label: TbaaLabel) -> Inst {
    Inst::Load { ptr, label: Some(label) }
}

fn loads_with(insts: &[Inst], l: TbaaLabel) -> usize {
    insts.iter().filter(|i| matches!(i, Inst::Load { label: Some(m), .. } if *m == l)).count()
}

#[test]
fn dynamic_local_memory_access() {
    let mut c = ctx(layout(
        Counts { signatures: 2, imported_functions: 1, functions: 3, memories: 1, ..NONE },
        vec![],
    ));
    let styles = vec![MemoryStyle::Dynamic];
    let first = c.memory(0, &styles);
    let second = c.memory(0, &styles);
    assert_eq!(
        first,
        MemoryCache::Dynamic { ptr_to_base_ptr: Value::Inst(2), ptr_to_current_length: Value::Inst(3) }
    );
    assert_eq!(first, second);
    assert_eq!(
        c.entry_block().clone(),
        vec![
            Inst::Gep { base: Value::VmCtx, offset: 24 },
            Inst::Bitcast { value: Value::Inst(0), ty: PtrType::MemoryDefinitionPtr },
            Inst::StructGep { ptr: Value::Inst(1), field: 0 },
            Inst::StructGep { ptr: Value::Inst(1), field: 1 },
        ]
    );
    let o = c.get_offsets();
    assert_eq!(o.vmctx_vmmemory_definition(wasmer_types::LocalMemoryIndex::from_u32(0)), 24);
}

#[test]
fn static_local_memory_loads_its_base_once() {
    let mut c = ctx(layout(Counts { memories: 1, ..NONE }, vec![]));
    let styles = vec![MemoryStyle::Static];
    let first = c.memory(0, &styles);
    let second = c.memory(0, &styles);
    assert_eq!(first, MemoryCache::Static { base_ptr: Value::Inst(3) });
    assert_eq!(first, second);
    assert_eq!(c.entry_block().len(), 4);
    assert_eq!(loads_with(c.entry_block(), TbaaLabel::MemoryBasePtr(0)), 1);
}

#[test]
fn imported_static_memory_access() {
    let mut c = ctx(layout(
        Counts { signatures: 1, imported_memories: 1, memories: 1, ..NONE },
        vec![],
    ));
    let r = c.memory(0, &vec![MemoryStyle::Static]);
    assert_eq!(r, MemoryCache::Static { base_ptr: Value::Inst(5) });
    assert_eq!(
        c.entry_block().clone(),
        vec![
            Inst::Gep { base: Value::VmCtx, offset: 4 },
            Inst::Bitcast { value: Value::Inst(0), ty: PtrType::BytePtrPtr },
            load(Value::Inst(1), TbaaLabel::MemoryDefinition(0)),
            Inst::Bitcast { value: Value::Inst(2), ty: PtrType::MemoryDefinitionPtr },
            Inst::StructGep { ptr: Value::Inst(3), field: 0 },
            load(Value::Inst(4), TbaaLabel::MemoryBasePtr(0)),
        ]
    );
    assert_eq!(TbaaLabel::MemoryDefinition(0).text(), "memory 0 definition");
    assert_eq!(TbaaLabel::MemoryBasePtr(0).text(), "memory base_ptr 0");
    let o = c.get_offsets();
    assert_eq!(o.vmctx_vmmemory_import(wasmer_types::MemoryIndex::from_u32(0)), 4);
}

#[test]
fn immutable_global_is_loaded_once() {
    let globals = vec![
        GlobalType { ty: ValType::I32, mutability: Mutability::Var },
        GlobalType { ty: ValType::F32, mutability: Mutability::Var },
        GlobalType { ty: ValType::I64, mutability: Mutability::Const },
    ];
    let mut c = ctx(layout(NONE, globals));
    let first = c.global(2).ok().unwrap();
    let second = c.global(2).ok().unwrap();
    assert_eq!(first, GlobalCache::Const { value: Value::Inst(4) });
    assert_eq!(first, second);
    assert_eq!(
        c.entry_block().clone(),
        vec![
            Inst::Gep { base: Value::VmCtx, offset: 16 },
            Inst::Bitcast { value: Value::Inst(0), ty: PtrType::I32PtrPtr },
            load(Value::Inst(1), TbaaLabel::GlobalPtr(2)),
            Inst::Bitcast { value: Value::Inst(2), ty: PtrType::PtrTo(IrType::I64) },
            load(Value::Inst(3), TbaaLabel::Global(2)),
        ]
    );
    assert_eq!(loads_with(c.entry_block(), TbaaLabel::Global(2)), 1);
}

#[test]
fn mutable_imported_global_gives_its_pointer() {
    let globals = vec![
        GlobalType { ty: ValType::F64, mutability: Mutability::Var },
        GlobalType { ty: ValType::I32, mutability: Mutability::Const },
    ];
    let mut c = ctx(layout(Counts { imported_memories: 1, memories: 1, imported_globals: 1, ..NONE }, globals));
    let r = c.global(0).ok().unwrap();
    assert_eq!(r, GlobalCache::Mut { ptr_to_value: Value::Inst(3) });
    assert_eq!(c.entry_block()[0], Inst::Gep { base: Value::VmCtx, offset: 24 });
    assert_eq!(
        c.entry_block()[3],
        Inst::Bitcast { value: Value::Inst(2), ty: PtrType::PtrTo(IrType::F64) }
    );
    assert_eq!(c.entry_block().len(), 4);
    let o = c.get_offsets();
    assert_eq!(o.vmctx_vmglobal_import(wasmer_types::GlobalIndex::from_u32(0)), 24);
}

#[test]
fn local_table_access() {
    let mut c = ctx(layout(Counts { tables: 1, ..NONE }, vec![]));
    let first = c.table(0);
    let second = c.table(0);
    assert_eq!(
        first,
        TableCache {
            ptr_to_base_ptr: Value::Inst(1),
            ptr_to_bounds: Value::Inst(3),
            base_ptr: Value::Inst(4),
            bounds: Value::Inst(5),
        }
    );
    assert_eq!(first, second);
    assert_eq!(
        c.entry_block().clone(),
        vec![
            Inst::Gep { base: Value::VmCtx, offset: 0 },
            Inst::Bitcast { value: Value::Inst(0), ty: PtrType::BytePtrPtr },
            Inst::Gep { base: Value::VmCtx, offset: 8 },
            Inst::Bitcast { value: Value::Inst(2), ty: PtrType::I32Ptr },
            load(Value::Inst(1), TbaaLabel::TableBasePtr(0)),
            load(Value::Inst(3), TbaaLabel::TableBounds(0)),
        ]
    );
}

#[test]
fn imported_and_local_tables() {
    let mut c = ctx(layout(Counts { imported_tables: 1, tables: 2, ..NONE }, vec![]));
    let imported = c.table(0);
    assert_eq!(imported.base_ptr, Value::Inst(7));
    assert_eq!(imported.bounds, Value::Inst(8));
    assert_eq!(
        c.entry_block()[..7].to_vec(),
        vec![
            Inst::Gep { base: Value::VmCtx, offset: 0 },
            Inst::Bitcast { value: Value::Inst(0), ty: PtrType::BytePtrPtr },
            load(Value::Inst(1), TbaaLabel::TableDefinition(0)),
            Inst::Gep { base: Value::Inst(2), offset: 0 },
            Inst::Bitcast { value: Value::Inst(3), ty: PtrType::BytePtrPtr },
            Inst::Gep { base: Value::Inst(2), offset: 8 },
            Inst::Bitcast { value: Value::Inst(5), ty: PtrType::I32Ptr },
        ]
    );
    let local = c.table(1);
    assert_eq!(local.ptr_to_base_ptr, Value::Inst(10));
    assert_eq!(c.entry_block()[9], Inst::Gep { base: Value::VmCtx, offset: 24 });
    assert_eq!(c.entry_block()[11], Inst::Gep { base: Value::VmCtx, offset: 32 });
    assert_eq!(TbaaLabel::TableBounds(1).text(), "table_bounds 1");
}

#[test]
fn signature_id_is_loaded_once() {
    let mut c = ctx(layout(Counts { signatures: 3, ..NONE }, vec![]));
    assert_eq!(c.dynamic_sigindex(2), Value::Inst(2));
    assert_eq!(c.dynamic_sigindex(2), Value::Inst(2));
    assert_eq!(
        c.entry_block().clone(),
        vec![
            Inst::Gep { base: Value::VmCtx, offset: 8 },
            Inst::Bitcast { value: Value::Inst(0), ty: PtrType::I32Ptr },
            load(Value::Inst(1), TbaaLabel::SigIndex(2)),
        ]
    );
    assert_eq!(TbaaLabel::SigIndex(7).text(), "sigindex 7");
}

fn sig(ty: u32) -> LoweredSignature {
    LoweredSignature { ty, attrs: vec![FuncAttr { attr: 3, loc: AttrLoc::Param(0) }] }
}

#[test]
fn imported_function_loads_body_and_vmctx() {
    let mut c = ctx(layout(Counts { signatures: 1, imported_functions: 2, functions: 2, ..NONE }, vec![]));
    let f = c.func(1, &sig(7));
    assert_eq!(f.func, Value::Inst(4));
    assert_eq!(f.vmctx, Value::Inst(6));
    assert_eq!(f.attrs, vec![FuncAttr { attr: 3, loc: AttrLoc::Param(0) }]);
    assert_eq!(
        c.entry_block().clone(),
        vec![
            Inst::Gep { base: Value::VmCtx, offset: 20 },
            Inst::Bitcast { value: Value::Inst(0), ty: PtrType::FunctionImportPtr },
            Inst::StructGep { ptr: Value::Inst(1), field: 0 },
            load(Value::Inst(2), TbaaLabel::FunctionBody(1)),
            Inst::Bitcast { value: Value::Inst(3), ty: PtrType::FunctionPtr(7) },
            Inst::StructGep { ptr: Value::Inst(1), field: 1 },
            load(Value::Inst(5), TbaaLabel::FunctionVmctx(1)),
        ]
    );
    let again = c.func(1, &sig(7));
    assert_eq!(again.func, Value::Inst(4));
    assert_eq!(c.entry_block().len(), 7);
}

#[test]
fn local_function_is_declared_once() {
    let mut c = ctx(layout(Counts { imported_functions: 1, functions: 3, ..NONE }, vec![]));
    let f = c.local_func(1, 2, &sig(9), "f2");
    assert_eq!(f.func, Value::Function(0));
    assert_eq!(f.vmctx, Value::VmCtx);
    let g = c.local_func(1, 2, &sig(9), "f2");
    assert_eq!(g.func, Value::Function(0));
    assert_eq!(c.declared_functions().len(), 1);
    assert_eq!(c.declared_functions()[0].name, "f2");
    assert_eq!(c.declared_functions()[0].ty, 9);
    assert!(c.entry_block().is_empty());
}

#[test]
fn add_func_twice_is_refused() {
    let mut c = ctx(layout(Counts { functions: 2, ..NONE }, vec![]));
    assert_eq!(c.add_func(1, Value::Function(5), Value::VmCtx, &vec![]), Ok(()));
    assert_eq!(
        c.add_func(1, Value::Function(6), Value::VmCtx, &vec![]),
        Err(CacheError::DuplicateFunction(1))
    );
    let f = c.func(1, &sig(0));
    assert_eq!(f.func, Value::Function(5));
}

#[test]
fn memory_builtins_pick_local_or_imported_variant() {
    let mut c = ctx(layout(Counts { imported_memories: 1, memories: 2, ..NONE }, vec![]));
    assert_eq!(c.memory_grow(1), Value::Inst(2));
    assert_eq!(c.memory_grow(1), Value::Inst(2));
    assert_eq!(c.memory_grow(0), Value::Inst(5));
    assert_eq!(c.memory_size(1), Value::Inst(8));
    assert_eq!(c.memory_size(0), Value::Inst(11));
    let b = c.entry_block().clone();
    assert_eq!(b.len(), 12);
    assert_eq!(b[0], Inst::Gep { base: Value::VmCtx, offset: 64 });
    assert_eq!(
        b[1],
        Inst::Bitcast { value: Value::Inst(0), ty: PtrType::BuiltinPtrPtr(MemoryBuiltin::Memory32Grow) }
    );
    assert_eq!(b[2], load(Value::Inst(1), TbaaLabel::MemoryGrow(1)));
    assert_eq!(b[3], Inst::Gep { base: Value::VmCtx, offset: 72 });
    assert_eq!(b[5], load(Value::Inst(4), TbaaLabel::MemoryGrow(0)));
    assert_eq!(b[6], Inst::Gep { base: Value::VmCtx, offset: 80 });
    assert_eq!(b[8], load(Value::Inst(7), TbaaLabel::MemorySize(1)));
    assert_eq!(b[9], Inst::Gep { base: Value::VmCtx, offset: 88 });
    let o = c.get_offsets();
    assert_eq!(
        o.vmctx_builtin_function(wasmer_vm::VMBuiltinFunctionIndex::get_memory32_grow_index()),
        64
    );
    assert_eq!(
        o.vmctx_builtin_function(wasmer_vm::VMBuiltinFunctionIndex::get_imported_memory32_size_index()),
        88
    );
    assert_eq!(o.num_local_memories, 2);
}

#[test]
fn layout_validity() {
    assert!(layout(Counts { memories: 2, imported_memories: 1, ..NONE }, vec![]).is_valid());
    assert!(!layout(Counts { memories: 1, imported_memories: 2, ..NONE }, vec![]).is_valid());
    assert!(!layout(Counts { signatures: u32::MAX, ..NONE }, vec![]).is_valid());
}

#[test]
fn local_indices() {
    let l = layout(Counts { imported_memories: 2, memories: 3, imported_tables: 1, tables: 1, ..NONE }, vec![]);
    assert_eq!(l.local_memory_index(1), None);
    assert_eq!(l.local_memory_index(2), Some(0));
    assert_eq!(l.local_table_index(0), None);
    assert_eq!(l.local_global_index(0), Some(0));
}

#[test]
fn value_types_lower() {
    assert_eq!(type_to_llvm(ValType::V128).ok(), Some(IrType::I128));
    assert_eq!(type_to_llvm(ValType::ExternRef).ok(), Some(IrType::ExternRef));
    assert_eq!(type_to_llvm_ptr(ValType::F32).ok(), Some(PtrType::PtrTo(IrType::F32)));
}

#[test]
fn distinct_labels_get_distinct_descriptors() {
    let mut reg = TbaaRegistry::new();
    let a = tbaa_label(&mut reg, TbaaLabel::MemoryBasePtr(3));
    let b = tbaa_label(&mut reg, TbaaLabel::MemoryDefinition(3));
    let a2 = tbaa_label(&mut reg, TbaaLabel::MemoryBasePtr(3));
    assert_eq!(a, a2);
    assert_ne!(a.base, b.base);
    assert_eq!(a.base, a.access);
    assert_eq!(a.offset, 0);
    assert_eq!(a.base, TbaaNode::Descriptor(0));
    assert_eq!(b.base, TbaaNode::Descriptor(1));
    assert_eq!(reg.labels().len(), 2);
    assert_eq!(reg.find(TbaaLabel::MemoryDefinition(3)), Some(1));
    assert_eq!(reg.find(TbaaLabel::Global(0)), None);
}

#[test]
fn label_texts() {
    assert_eq!(TbaaLabel::MemoryBasePtr(3).text(), "memory base_ptr 3");
    assert_eq!(TbaaLabel::TableDefinition(1).text(), "table 1 definition");
    assert_eq!(TbaaLabel::TableBasePtr(1).text(), "table_base_ptr 1");
    assert_eq!(TbaaLabel::GlobalPtr(2).text(), "global_ptr 2");
    assert_eq!(TbaaLabel::Global(2).text(), "global 2");
    assert_eq!(TbaaLabel::SigIndex(1234).text(), "sigindex 1234");
    assert_eq!(TbaaLabel::FunctionBody(4).text(), "func_body 4");
    assert_eq!(TbaaLabel::FunctionVmctx(4).text(), "func_vmctx 4");
    assert_eq!(TbaaLabel::MemoryGrow(0).text(), "memory_grow 0");
    assert_eq!(TbaaLabel::MemorySize(10).text(), "memory_size 10");
}

#[test]
fn repeated_accesses_load_each_label_once() {
    let globals = vec![
        GlobalType { ty: ValType::I32, mutability: Mutability::Const },
        GlobalType { ty: ValType::I64, mutability: Mutability::Var },
    ];
    let mut c = ctx(layout(
        Counts {
            signatures: 2,
            imported_functions: 1,
            functions: 2,
            imported_tables: 1,
            tables: 2,
            imported_memories: 1,
            memories: 2,
            imported_globals: 1,
        },
        globals,
    ));
    let styles = vec![MemoryStyle::Static, MemoryStyle::Static];
    for _ in 0..3 {
        c.memory(0, &styles);
        c.memory(1, &styles);
        c.table(0);
        c.table(1);
        c.dynamic_sigindex(1);
        c.global(0).ok().unwrap();
        c.global(1).ok().unwrap();
        c.memory_grow(0);
        c.memory_size(1);
    }
    let b = c.entry_block().clone();
    for l in [
        TbaaLabel::MemoryDefinition(0),
        TbaaLabel::MemoryBasePtr(0),
        TbaaLabel::MemoryBasePtr(1),
        TbaaLabel::TableDefinition(0),
        TbaaLabel::TableBasePtr(0),
        TbaaLabel::TableBounds(0),
        TbaaLabel::TableBasePtr(1),
        TbaaLabel::TableBounds(1),
        TbaaLabel::SigIndex(1),
        TbaaLabel::GlobalPtr(0),
        TbaaLabel::Global(0),
        TbaaLabel::GlobalPtr(1),
        TbaaLabel::MemoryGrow(0),
        TbaaLabel::MemorySize(1),
    ] {
        assert_eq!(loads_with(&b, l), 1, "{:?}", l);
    }
    for l in [
        TbaaLabel::MemoryDefinition(1),
        TbaaLabel::TableDefinition(1),
        TbaaLabel::SigIndex(0),
        TbaaLabel::Global(1),
        TbaaLabel::MemoryGrow(1),
        TbaaLabel::MemorySize(0),
    ] {
        assert_eq!(loads_with(&b, l), 0, "{:?}", l);
    }
}

#[test]
fn offsets_match_the_runtime_with_imports() {
    let l = layout(
        Counts {
            signatures: 1,
            imported_functions: 1,
            functions: 2,
            imported_tables: 1,
            tables: 2,
            imported_memories: 1,
            memories: 2,
            imported_globals: 1,
        },
        vec![
            GlobalType { ty: ValType::I32, mutability: Mutability::Var },
            GlobalType { ty: ValType::I64, mutability: Mutability::Const },
        ],
    );
    let runtime = wasmer_vm::VMOffsets::new(8, &module_info(&l));
    assert!(l.describes(&runtime));
    let mut c = CtxType::new(l, runtime.clone());
    let styles = vec![MemoryStyle::Dynamic, MemoryStyle::Dynamic];
    c.memory(1, &styles);
    assert_eq!(
        c.entry_block()[0],
        Inst::Gep {
            base: Value::VmCtx,
            offset: runtime.vmctx_vmmemory_definition(wasmer_types::LocalMemoryIndex::from_u32(0)),
        }
    );
    let g = c.global(1).ok().unwrap();
    assert_eq!(g, GlobalCache::Const { value: Value::Inst(8) });
    assert_eq!(
        c.entry_block()[4],
        Inst::Gep {
            base: Value::VmCtx,
            offset: runtime.vmctx_vmglobal_definition(wasmer_types::LocalGlobalIndex::from_u32(0)),
        }
    );
}

#[test]
fn other_offset_tables_are_not_described() {
    let l = layout(Counts { imported_memories: 1, memories: 2, ..NONE }, vec![]);
    let mut o = wasmer_vm::VMOffsets::new(8, &module_info(&l));
    assert!(l.describes(&o));
    o.num_local_memories = 1;
    assert!(!l.describes(&o));
}
