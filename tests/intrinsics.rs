use std::collections::HashSet;
use wasmer_vm::TrapCode;
use wasm_codegen::intrinsics::{
    all_intrinsic_ids, IntrinsicId, Intrinsics, IrTy, Shape, STACK_PROBE_FUNCTION,
    STACK_PROBE_KIND,
};

#[test]
fn every_function_is_declared_once() {
    let i = Intrinsics::declare();
    assert_eq!(i.functions.len(), 68);
    let names: HashSet<&str> = i.functions.iter().map(|d| d.name).collect();
    assert_eq!(names.len(), 68);
    assert_eq!(all_intrinsic_ids().len(), 68);
}

#[test]
fn raise_trap_never_returns() {
    let i = Intrinsics::declare();
    let t = i.get(IntrinsicId::ThrowTrap);
    assert_eq!(t.name, "wasmer_vm_raise_trap");
    assert!(t.noreturn);
    assert!(!t.readonly);
    assert_eq!(t.signature.params, vec![IrTy::I32]);
    assert_eq!(t.signature.ret, IrTy::Void);
    let noreturn: Vec<&str> = i.functions.iter().filter(|d| d.noreturn).map(|d| d.name).collect();
    assert_eq!(noreturn, vec!["wasmer_vm_raise_trap"]);
}

#[test]
fn func_ref_is_readonly() {
    let i = Intrinsics::declare();
    let f = i.get(IntrinsicId::FuncRef);
    assert_eq!(f.name, "wasmer_vm_func_ref");
    assert!(f.readonly);
    assert_eq!(f.signature.ret, IrTy::FuncRef);
    assert_eq!(f.signature.params, vec![IrTy::CtxPtr, IrTy::I32]);
}

#[test]
fn personality_has_external_linkage() {
    let i = Intrinsics::declare();
    let p = i.get(IntrinsicId::Personality);
    assert_eq!(p.name, "__gxx_personality_v0");
    assert!(p.external);
    assert_eq!(i.functions.iter().filter(|d| d.external).count(), 1);
}

#[test]
fn compiled_functions_get_stack_probes() {
    let i = Intrinsics::declare();
    assert_eq!(i.stack_probe, ("probe-stack", "wasmer_vm_probestack"));
    assert_eq!(STACK_PROBE_KIND, "probe-stack");
    assert_eq!(STACK_PROBE_FUNCTION, "wasmer_vm_probestack");
}

#[test]
fn trap_codes_match_the_runtime() {
    let i = Intrinsics::declare();
    assert_eq!(i.trap_unreachable, TrapCode::UnreachableCodeReached as u32);
    assert_eq!(i.trap_call_indirect_null, TrapCode::IndirectCallToNull as u32);
    assert_eq!(i.trap_call_indirect_sig, TrapCode::BadSignature as u32);
    assert_eq!(i.trap_memory_oob, TrapCode::HeapAccessOutOfBounds as u32);
    assert_eq!(i.trap_illegal_arithmetic, TrapCode::IntegerOverflow as u32);
    assert_eq!(i.trap_integer_division_by_zero, TrapCode::IntegerDivisionByZero as u32);
    assert_eq!(i.trap_bad_conversion_to_integer, TrapCode::BadConversionToInteger as u32);
    assert_eq!(i.trap_unaligned_atomic, TrapCode::UnalignedAtomic as u32);
    assert_eq!(i.trap_table_access_oob, TrapCode::TableAccessOutOfBounds as u32);
    assert_eq!(i.trap_unreachable, 10);
    assert_eq!(i.trap_table_access_oob, 3);
}

#[test]
fn intrinsic_signatures() {
    let i = Intrinsics::declare();
    let ctlz = i.get(IntrinsicId::CtlzI32);
    assert_eq!(ctlz.name, "llvm.ctlz.i32");
    assert_eq!(ctlz.signature.params, vec![IrTy::I32, IrTy::I1]);
    let sm = i.get(IntrinsicId::ExperimentalStackmap);
    assert!(sm.signature.variadic);
    assert_eq!(sm.signature.params, vec![IrTy::I64, IrTy::I32]);
    assert_eq!(i.get(IntrinsicId::SaddSatI16x8).name, "llvm.sadd.sat.v8i16");
    assert_eq!(i.get(IntrinsicId::NearbyintF64x2).name, "llvm.nearbyint.v2f64");
    assert_eq!(i.get(IntrinsicId::MemoryInit).name, "wasmer_vm_memory32_init");
    let fill = Shape::TableFill.signature();
    assert_eq!(fill.params, vec![IrTy::CtxPtr, IrTy::I32, IrTy::I32, IrTy::AnyRef, IrTy::I32]);
    assert!(i.functions.iter().filter(|d| d.name.starts_with("wasmer_vm_")).count() == 20);
}
