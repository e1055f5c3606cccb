//! The catalog of backend intrinsics and runtime library calls that
//! generated code may call, with their signatures, linkage and attributes,
//! and the trap codes passed to the runtime.
use vstd::prelude::*;

verus! {

/// Opaque trap code of the runtime.
#[verifier::external_type_specification]
#[verifier::external_body]
pub struct ExTrapCode(wasmer_vm::TrapCode);

/// Backend types that appear in the catalog's signatures.
#[derive(Clone, Copy, Debug, PartialEq, Eq, Structural)]
pub enum IrTy {
    Void,
    I1,
    I32,
    I64,
    F32,
    F64,
    I8x16,
    I16x8,
    F32x4,
    F64x2,
    /// Pointer to the VM context (`i8*`).
    CtxPtr,
    /// Opaque reference (`i8*`).
    AnyRef,
    /// Pointer to a caller-checked function record.
    FuncRef,
}

/// The function types of the catalog.
#[derive(Clone, Copy, Debug, PartialEq, Eq, Structural)]
pub enum Shape {
    I32TakeI32I1,
    I64TakeI64I1,
    I32TakeI32,
    I64TakeI64,
    I8x16TakeI8x16,
    F32TakeF32,
    F64TakeF64,
    F32x4TakeF32x4,
    F64x2TakeF64x2,
    F32TakeF32F32,
    F64TakeF64F64,
    F32x4TakeF32x4F32x4,
    F64x2TakeF64x2F64x2,
    I8x16TakeI8x16I8x16,
    I16x8TakeI16x8I16x8,
    I1TakeI1I1,
    VoidTakeNothing,
    I32TakeNothing,
    Stackmap,
    VoidTakeCtxFiveI32,
    TableFill,
    I32TakeCtxI32,
    AnyrefTakeCtxI32I32,
    VoidTakeCtxI32I32Anyref,
    I32TakeCtxAnyrefI32I32,
    VoidTakeCtxFourI32,
    VoidTakeCtxI32,
    FuncrefTakeCtxI32,
    VoidTakeI32,
}

/// A function type: result, parameters, and whether more arguments may follow.
pub struct FnSig {
    pub ret: IrTy,
    pub params: Vec<IrTy>,
    pub variadic: bool,
}

/// The result type of a shape.
pub open spec fn shape_ret(s: Shape) -> IrTy {
    match s {
        Shape::I32TakeI32I1 => IrTy::I32,
        Shape::I64TakeI64I1 => IrTy::I64,
        Shape::I32TakeI32 => IrTy::I32,
        Shape::I64TakeI64 => IrTy::I64,
        Shape::I8x16TakeI8x16 => IrTy::I8x16,
        Shape::F32TakeF32 => IrTy::F32,
        Shape::F64TakeF64 => IrTy::F64,
        Shape::F32x4TakeF32x4 => IrTy::F32x4,
        Shape::F64x2TakeF64x2 => IrTy::F64x2,
        Shape::F32TakeF32F32 => IrTy::F32,
        Shape::F64TakeF64F64 => IrTy::F64,
        Shape::F32x4TakeF32x4F32x4 => IrTy::F32x4,
        Shape::F64x2TakeF64x2F64x2 => IrTy::F64x2,
        Shape::I8x16TakeI8x16I8x16 => IrTy::I8x16,
        Shape::I16x8TakeI16x8I16x8 => IrTy::I16x8,
        Shape::I1TakeI1I1 => IrTy::I1,
        Shape::VoidTakeNothing => IrTy::Void,
        Shape::I32TakeNothing => IrTy::I32,
        Shape::Stackmap => IrTy::Void,
        Shape::VoidTakeCtxFiveI32 => IrTy::Void,
        Shape::TableFill => IrTy::Void,
        Shape::I32TakeCtxI32 => IrTy::I32,
        Shape::AnyrefTakeCtxI32I32 => IrTy::AnyRef,
        Shape::VoidTakeCtxI32I32Anyref => IrTy::Void,
        Shape::I32TakeCtxAnyrefI32I32 => IrTy::I32,
        Shape::VoidTakeCtxFourI32 => IrTy::Void,
        Shape::VoidTakeCtxI32 => IrTy::Void,
        Shape::FuncrefTakeCtxI32 => IrTy::FuncRef,
        Shape::VoidTakeI32 => IrTy::Void,
    }
}

/// The parameter types of a shape.
pub open spec fn shape_params(s: Shape) -> Seq<IrTy> {
    match s {
        Shape::I32TakeI32I1 => seq![IrTy::I32, IrTy::I1],
        Shape::I64TakeI64I1 => seq![IrTy::I64, IrTy::I1],
        Shape::I32TakeI32 => seq![IrTy::I32],
        Shape::I64TakeI64 => seq![IrTy::I64],
        Shape::I8x16TakeI8x16 => seq![IrTy::I8x16],
        Shape::F32TakeF32 => seq![IrTy::F32],
        Shape::F64TakeF64 => seq![IrTy::F64],
        Shape::F32x4TakeF32x4 => seq![IrTy::F32x4],
        Shape::F64x2TakeF64x2 => seq![IrTy::F64x2],
        Shape::F32TakeF32F32 => seq![IrTy::F32, IrTy::F32],
        Shape::F64TakeF64F64 => seq![IrTy::F64, IrTy::F64],
        Shape::F32x4TakeF32x4F32x4 => seq![IrTy::F32x4, IrTy::F32x4],
        Shape::F64x2TakeF64x2F64x2 => seq![IrTy::F64x2, IrTy::F64x2],
        Shape::I8x16TakeI8x16I8x16 => seq![IrTy::I8x16, IrTy::I8x16],
        Shape::I16x8TakeI16x8I16x8 => seq![IrTy::I16x8, IrTy::I16x8],
        Shape::I1TakeI1I1 => seq![IrTy::I1, IrTy::I1],
        Shape::VoidTakeNothing => seq![],
        Shape::I32TakeNothing => seq![],
        Shape::Stackmap => seq![IrTy::I64, IrTy::I32],
        Shape::VoidTakeCtxFiveI32 => seq![IrTy::CtxPtr, IrTy::I32, IrTy::I32, IrTy::I32, IrTy::I32, IrTy::I32],
        Shape::TableFill => seq![IrTy::CtxPtr, IrTy::I32, IrTy::I32, IrTy::AnyRef, IrTy::I32],
        Shape::I32TakeCtxI32 => seq![IrTy::CtxPtr, IrTy::I32],
        Shape::AnyrefTakeCtxI32I32 => seq![IrTy::CtxPtr, IrTy::I32, IrTy::I32],
        Shape::VoidTakeCtxI32I32Anyref => seq![IrTy::CtxPtr, IrTy::I32, IrTy::I32, IrTy::AnyRef],
        Shape::I32TakeCtxAnyrefI32I32 => seq![IrTy::CtxPtr, IrTy::AnyRef, IrTy::I32, IrTy::I32],
        Shape::VoidTakeCtxFourI32 => seq![IrTy::CtxPtr, IrTy::I32, IrTy::I32, IrTy::I32, IrTy::I32],
        Shape::VoidTakeCtxI32 => seq![IrTy::CtxPtr, IrTy::I32],
        Shape::FuncrefTakeCtxI32 => seq![IrTy::CtxPtr, IrTy::I32],
        Shape::VoidTakeI32 => seq![IrTy::I32],
    }
}

/// Whether a shape takes further arguments.
pub open spec fn shape_variadic(s: Shape) -> bool {
    s == Shape::Stackmap
}

impl Shape {
    /// The function type of the shape.
    pub fn signature(&self) -> (r: FnSig)
        ensures
            r.ret == shape_ret(*self),
            r.params@ == shape_params(*self),
            r.variadic == shape_variadic(*self),
    {
        let (ret, params, variadic) = match self {
            Shape::I32TakeI32I1 => (IrTy::I32, vec![IrTy::I32, IrTy::I1], false),
            Shape::I64TakeI64I1 => (IrTy::I64, vec![IrTy::I64, IrTy::I1], false),
            Shape::I32TakeI32 => (IrTy::I32, vec![IrTy::I32], false),
            Shape::I64TakeI64 => (IrTy::I64, vec![IrTy::I64], false),
            Shape::I8x16TakeI8x16 => (IrTy::I8x16, vec![IrTy::I8x16], false),
            Shape::F32TakeF32 => (IrTy::F32, vec![IrTy::F32], false),
            Shape::F64TakeF64 => (IrTy::F64, vec![IrTy::F64], false),
            Shape::F32x4TakeF32x4 => (IrTy::F32x4, vec![IrTy::F32x4], false),
            Shape::F64x2TakeF64x2 => (IrTy::F64x2, vec![IrTy::F64x2], false),
            Shape::F32TakeF32F32 => (IrTy::F32, vec![IrTy::F32, IrTy::F32], false),
            Shape::F64TakeF64F64 => (IrTy::F64, vec![IrTy::F64, IrTy::F64], false),
            Shape::F32x4TakeF32x4F32x4 => (IrTy::F32x4, vec![IrTy::F32x4, IrTy::F32x4], false),
            Shape::F64x2TakeF64x2F64x2 => (IrTy::F64x2, vec![IrTy::F64x2, IrTy::F64x2], false),
            Shape::I8x16TakeI8x16I8x16 => (IrTy::I8x16, vec![IrTy::I8x16, IrTy::I8x16], false),
            Shape::I16x8TakeI16x8I16x8 => (IrTy::I16x8, vec![IrTy::I16x8, IrTy::I16x8], false),
            Shape::I1TakeI1I1 => (IrTy::I1, vec![IrTy::I1, IrTy::I1], false),
            Shape::VoidTakeNothing => (IrTy::Void, vec![], false),
            Shape::I32TakeNothing => (IrTy::I32, vec![], false),
            Shape::Stackmap => (IrTy::Void, vec![IrTy::I64, IrTy::I32], true),
            Shape::VoidTakeCtxFiveI32 => (IrTy::Void, vec![IrTy::CtxPtr, IrTy::I32, IrTy::I32, IrTy::I32, IrTy::I32, IrTy::I32], false),
            Shape::TableFill => (IrTy::Void, vec![IrTy::CtxPtr, IrTy::I32, IrTy::I32, IrTy::AnyRef, IrTy::I32], false),
            Shape::I32TakeCtxI32 => (IrTy::I32, vec![IrTy::CtxPtr, IrTy::I32], false),
            Shape::AnyrefTakeCtxI32I32 => (IrTy::AnyRef, vec![IrTy::CtxPtr, IrTy::I32, IrTy::I32], false),
            Shape::VoidTakeCtxI32I32Anyref => (IrTy::Void, vec![IrTy::CtxPtr, IrTy::I32, IrTy::I32, IrTy::AnyRef], false),
            Shape::I32TakeCtxAnyrefI32I32 => (IrTy::I32, vec![IrTy::CtxPtr, IrTy::AnyRef, IrTy::I32, IrTy::I32], false),
            Shape::VoidTakeCtxFourI32 => (IrTy::Void, vec![IrTy::CtxPtr, IrTy::I32, IrTy::I32, IrTy::I32, IrTy::I32], false),
            Shape::VoidTakeCtxI32 => (IrTy::Void, vec![IrTy::CtxPtr, IrTy::I32], false),
            Shape::FuncrefTakeCtxI32 => (IrTy::FuncRef, vec![IrTy::CtxPtr, IrTy::I32], false),
            Shape::VoidTakeI32 => (IrTy::Void, vec![IrTy::I32], false),
        };
        FnSig { ret, params, variadic }
    }
}

/// Every function the catalog declares.
#[derive(Clone, Copy, Debug, PartialEq, Eq, Structural)]
pub enum IntrinsicId {
    CtlzI32,
    CtlzI64,
    CttzI32,
    CttzI64,
    CtpopI32,
    CtpopI64,
    CtpopI8x16,
    SqrtF32,
    SqrtF64,
    SqrtF32x4,
    SqrtF64x2,
    CeilF32,
    CeilF64,
    CeilF32x4,
    CeilF64x2,
    FloorF32,
    FloorF64,
    FloorF32x4,
    FloorF64x2,
    TruncF32,
    TruncF64,
    TruncF32x4,
    TruncF64x2,
    NearbyintF32,
    NearbyintF64,
    NearbyintF32x4,
    NearbyintF64x2,
    FabsF32,
    FabsF64,
    FabsF32x4,
    FabsF64x2,
    CopysignF32,
    CopysignF64,
    CopysignF32x4,
    CopysignF64x2,
    SaddSatI8x16,
    SaddSatI16x8,
    UaddSatI8x16,
    UaddSatI16x8,
    SsubSatI8x16,
    SsubSatI16x8,
    UsubSatI8x16,
    UsubSatI16x8,
    ExpectI1,
    Trap,
    DebugTrap,
    Personality,
    ExperimentalStackmap,
    TableCopy,
    TableInit,
    TableFill,
    TableSize,
    ImportedTableSize,
    TableGet,
    ImportedTableGet,
    TableSet,
    ImportedTableSet,
    TableGrow,
    ImportedTableGrow,
    MemoryInit,
    MemoryCopy,
    ImportedMemoryCopy,
    MemoryFill,
    ImportedMemoryFill,
    DataDrop,
    FuncRef,
    ElemDrop,
    ThrowTrap,
}

/// The symbol name of a declared function: the ABI with the backend and the runtime.
pub open spec fn intrinsic_name(id: IntrinsicId) -> Seq<char> {
    match id {
        IntrinsicId::CtlzI32 => "llvm.ctlz.i32"@,
        IntrinsicId::CtlzI64 => "llvm.ctlz.i64"@,
        IntrinsicId::CttzI32 => "llvm.cttz.i32"@,
        IntrinsicId::CttzI64 => "llvm.cttz.i64"@,
        IntrinsicId::CtpopI32 => "llvm.ctpop.i32"@,
        IntrinsicId::CtpopI64 => "llvm.ctpop.i64"@,
        IntrinsicId::CtpopI8x16 => "llvm.ctpop.v16i8"@,
        IntrinsicId::SqrtF32 => "llvm.sqrt.f32"@,
        IntrinsicId::SqrtF64 => "llvm.sqrt.f64"@,
        IntrinsicId::SqrtF32x4 => "llvm.sqrt.v4f32"@,
        IntrinsicId::SqrtF64x2 => "llvm.sqrt.v2f64"@,
        IntrinsicId::CeilF32 => "llvm.ceil.f32"@,
        IntrinsicId::CeilF64 => "llvm.ceil.f64"@,
        IntrinsicId::CeilF32x4 => "llvm.ceil.v4f32"@,
        IntrinsicId::CeilF64x2 => "llvm.ceil.v2f64"@,
        IntrinsicId::FloorF32 => "llvm.floor.f32"@,
        IntrinsicId::FloorF64 => "llvm.floor.f64"@,
        IntrinsicId::FloorF32x4 => "llvm.floor.v4f32"@,
        IntrinsicId::FloorF64x2 => "llvm.floor.v2f64"@,
        IntrinsicId::TruncF32 => "llvm.trunc.f32"@,
        IntrinsicId::TruncF64 => "llvm.trunc.f64"@,
        IntrinsicId::TruncF32x4 => "llvm.trunc.v4f32"@,
        IntrinsicId::TruncF64x2 => "llvm.trunc.v2f64"@,
        IntrinsicId::NearbyintF32 => "llvm.nearbyint.f32"@,
        IntrinsicId::NearbyintF64 => "llvm.nearbyint.f64"@,
        IntrinsicId::NearbyintF32x4 => "llvm.nearbyint.v4f32"@,
        IntrinsicId::NearbyintF64x2 => "llvm.nearbyint.v2f64"@,
        IntrinsicId::FabsF32 => "llvm.fabs.f32"@,
        IntrinsicId::FabsF64 => "llvm.fabs.f64"@,
        IntrinsicId::FabsF32x4 => "llvm.fabs.v4f32"@,
        IntrinsicId::FabsF64x2 => "llvm.fabs.v2f64"@,
        IntrinsicId::CopysignF32 => "llvm.copysign.f32"@,
        IntrinsicId::CopysignF64 => "llvm.copysign.f64"@,
        IntrinsicId::CopysignF32x4 => "llvm.copysign.v4f32"@,
        IntrinsicId::CopysignF64x2 => "llvm.copysign.v2f64"@,
        IntrinsicId::SaddSatI8x16 => "llvm.sadd.sat.v16i8"@,
        IntrinsicId::SaddSatI16x8 => "llvm.sadd.sat.v8i16"@,
        IntrinsicId::UaddSatI8x16 => "llvm.uadd.sat.v16i8"@,
        IntrinsicId::UaddSatI16x8 => "llvm.uadd.sat.v8i16"@,
        IntrinsicId::SsubSatI8x16 => "llvm.ssub.sat.v16i8"@,
        IntrinsicId::SsubSatI16x8 => "llvm.ssub.sat.v8i16"@,
        IntrinsicId::UsubSatI8x16 => "llvm.usub.sat.v16i8"@,
        IntrinsicId::UsubSatI16x8 => "llvm.usub.sat.v8i16"@,
        IntrinsicId::ExpectI1 => "llvm.expect.i1"@,
        IntrinsicId::Trap => "llvm.trap"@,
        IntrinsicId::DebugTrap => "llvm.debugtrap"@,
        IntrinsicId::Personality => "__gxx_personality_v0"@,
        IntrinsicId::ExperimentalStackmap => "llvm.experimental.stackmap"@,
        IntrinsicId::TableCopy => "wasmer_vm_table_copy"@,
        IntrinsicId::TableInit => "wasmer_vm_table_init"@,
        IntrinsicId::TableFill => "wasmer_vm_table_fill"@,
        IntrinsicId::TableSize => "wasmer_vm_table_size"@,
        IntrinsicId::ImportedTableSize => "wasmer_vm_imported_table_size"@,
        IntrinsicId::TableGet => "wasmer_vm_table_get"@,
        IntrinsicId::ImportedTableGet => "wasmer_vm_imported_table_get"@,
        IntrinsicId::TableSet => "wasmer_vm_table_set"@,
        IntrinsicId::ImportedTableSet => "wasmer_vm_imported_table_set"@,
        IntrinsicId::TableGrow => "wasmer_vm_table_grow"@,
        IntrinsicId::ImportedTableGrow => "wasmer_vm_imported_table_grow"@,
        IntrinsicId::MemoryInit => "wasmer_vm_memory32_init"@,
        IntrinsicId::MemoryCopy => "wasmer_vm_memory32_copy"@,
        IntrinsicId::ImportedMemoryCopy => "wasmer_vm_imported_memory32_copy"@,
        IntrinsicId::MemoryFill => "wasmer_vm_memory32_fill"@,
        IntrinsicId::ImportedMemoryFill => "wasmer_vm_imported_memory32_fill"@,
        IntrinsicId::DataDrop => "wasmer_vm_data_drop"@,
        IntrinsicId::FuncRef => "wasmer_vm_func_ref"@,
        IntrinsicId::ElemDrop => "wasmer_vm_elem_drop"@,
        IntrinsicId::ThrowTrap => "wasmer_vm_raise_trap"@,
    }
}

/// The function type of a declared function.
pub open spec fn intrinsic_shape(id: IntrinsicId) -> Shape {
    match id {
        IntrinsicId::CtlzI32 => Shape::I32TakeI32I1,
        IntrinsicId::CtlzI64 => Shape::I64TakeI64I1,
        IntrinsicId::CttzI32 => Shape::I32TakeI32I1,
        IntrinsicId::CttzI64 => Shape::I64TakeI64I1,
        IntrinsicId::CtpopI32 => Shape::I32TakeI32,
        IntrinsicId::CtpopI64 => Shape::I64TakeI64,
        IntrinsicId::CtpopI8x16 => Shape::I8x16TakeI8x16,
        IntrinsicId::SqrtF32 => Shape::F32TakeF32,
        IntrinsicId::SqrtF64 => Shape::F64TakeF64,
        IntrinsicId::SqrtF32x4 => Shape::F32x4TakeF32x4,
        IntrinsicId::SqrtF64x2 => Shape::F64x2TakeF64x2,
        IntrinsicId::CeilF32 => Shape::F32TakeF32,
        IntrinsicId::CeilF64 => Shape::F64TakeF64,
        IntrinsicId::CeilF32x4 => Shape::F32x4TakeF32x4,
        IntrinsicId::CeilF64x2 => Shape::F64x2TakeF64x2,
        IntrinsicId::FloorF32 => Shape::F32TakeF32,
        IntrinsicId::FloorF64 => Shape::F64TakeF64,
        IntrinsicId::FloorF32x4 => Shape::F32x4TakeF32x4,
        IntrinsicId::FloorF64x2 => Shape::F64x2TakeF64x2,
        IntrinsicId::TruncF32 => Shape::F32TakeF32,
        IntrinsicId::TruncF64 => Shape::F64TakeF64,
        IntrinsicId::TruncF32x4 => Shape::F32x4TakeF32x4,
        IntrinsicId::TruncF64x2 => Shape::F64x2TakeF64x2,
        IntrinsicId::NearbyintF32 => Shape::F32TakeF32,
        IntrinsicId::NearbyintF64 => Shape::F64TakeF64,
        IntrinsicId::NearbyintF32x4 => Shape::F32x4TakeF32x4,
        IntrinsicId::NearbyintF64x2 => Shape::F64x2TakeF64x2,
        IntrinsicId::FabsF32 => Shape::F32TakeF32,
        IntrinsicId::FabsF64 => Shape::F64TakeF64,
        IntrinsicId::FabsF32x4 => Shape::F32x4TakeF32x4,
        IntrinsicId::FabsF64x2 => Shape::F64x2TakeF64x2,
        IntrinsicId::CopysignF32 => Shape::F32TakeF32F32,
        IntrinsicId::CopysignF64 => Shape::F64TakeF64F64,
        IntrinsicId::CopysignF32x4 => Shape::F32x4TakeF32x4F32x4,
        IntrinsicId::CopysignF64x2 => Shape::F64x2TakeF64x2F64x2,
        IntrinsicId::SaddSatI8x16 => Shape::I8x16TakeI8x16I8x16,
        IntrinsicId::SaddSatI16x8 => Shape::I16x8TakeI16x8I16x8,
        IntrinsicId::UaddSatI8x16 => Shape::I8x16TakeI8x16I8x16,
        IntrinsicId::UaddSatI16x8 => Shape::I16x8TakeI16x8I16x8,
        IntrinsicId::SsubSatI8x16 => Shape::I8x16TakeI8x16I8x16,
        IntrinsicId::SsubSatI16x8 => Shape::I16x8TakeI16x8I16x8,
        IntrinsicId::UsubSatI8x16 => Shape::I8x16TakeI8x16I8x16,
        IntrinsicId::UsubSatI16x8 => Shape::I16x8TakeI16x8I16x8,
        IntrinsicId::ExpectI1 => Shape::I1TakeI1I1,
        IntrinsicId::Trap => Shape::VoidTakeNothing,
        IntrinsicId::DebugTrap => Shape::VoidTakeNothing,
        IntrinsicId::Personality => Shape::I32TakeNothing,
        IntrinsicId::ExperimentalStackmap => Shape::Stackmap,
        IntrinsicId::TableCopy => Shape::VoidTakeCtxFiveI32,
        IntrinsicId::TableInit => Shape::VoidTakeCtxFiveI32,
        IntrinsicId::TableFill => Shape::TableFill,
        IntrinsicId::TableSize => Shape::I32TakeCtxI32,
        IntrinsicId::ImportedTableSize => Shape::I32TakeCtxI32,
        IntrinsicId::TableGet => Shape::AnyrefTakeCtxI32I32,
        IntrinsicId::ImportedTableGet => Shape::AnyrefTakeCtxI32I32,
        IntrinsicId::TableSet => Shape::VoidTakeCtxI32I32Anyref,
        IntrinsicId::ImportedTableSet => Shape::VoidTakeCtxI32I32Anyref,
        IntrinsicId::TableGrow => Shape::I32TakeCtxAnyrefI32I32,
        IntrinsicId::ImportedTableGrow => Shape::I32TakeCtxAnyrefI32I32,
        IntrinsicId::MemoryInit => Shape::VoidTakeCtxFiveI32,
        IntrinsicId::MemoryCopy => Shape::VoidTakeCtxFourI32,
        IntrinsicId::ImportedMemoryCopy => Shape::VoidTakeCtxFourI32,
        IntrinsicId::MemoryFill => Shape::VoidTakeCtxFourI32,
        IntrinsicId::ImportedMemoryFill => Shape::VoidTakeCtxFourI32,
        IntrinsicId::DataDrop => Shape::VoidTakeCtxI32,
        IntrinsicId::FuncRef => Shape::FuncrefTakeCtxI32,
        IntrinsicId::ElemDrop => Shape::VoidTakeCtxI32,
        IntrinsicId::ThrowTrap => Shape::VoidTakeI32,
    }
}

/// Every declared function, in declaration order.
pub open spec fn all_intrinsics() -> Seq<IntrinsicId> {
    seq![
        IntrinsicId::CtlzI32,
        IntrinsicId::CtlzI64,
        IntrinsicId::CttzI32,
        IntrinsicId::CttzI64,
        IntrinsicId::CtpopI32,
        IntrinsicId::CtpopI64,
        IntrinsicId::CtpopI8x16,
        IntrinsicId::SqrtF32,
        IntrinsicId::SqrtF64,
        IntrinsicId::SqrtF32x4,
        IntrinsicId::SqrtF64x2,
        IntrinsicId::CeilF32,
        IntrinsicId::CeilF64,
        IntrinsicId::CeilF32x4,
        IntrinsicId::CeilF64x2,
        IntrinsicId::FloorF32,
        IntrinsicId::FloorF64,
        IntrinsicId::FloorF32x4,
        IntrinsicId::FloorF64x2,
        IntrinsicId::TruncF32,
        IntrinsicId::TruncF64,
        IntrinsicId::TruncF32x4,
        IntrinsicId::TruncF64x2,
        IntrinsicId::NearbyintF32,
        IntrinsicId::NearbyintF64,
        IntrinsicId::NearbyintF32x4,
        IntrinsicId::NearbyintF64x2,
        IntrinsicId::FabsF32,
        IntrinsicId::FabsF64,
        IntrinsicId::FabsF32x4,
        IntrinsicId::FabsF64x2,
        IntrinsicId::CopysignF32,
        IntrinsicId::CopysignF64,
        IntrinsicId::CopysignF32x4,
        IntrinsicId::CopysignF64x2,
        IntrinsicId::SaddSatI8x16,
        IntrinsicId::SaddSatI16x8,
        IntrinsicId::UaddSatI8x16,
        IntrinsicId::UaddSatI16x8,
        IntrinsicId::SsubSatI8x16,
        IntrinsicId::SsubSatI16x8,
        IntrinsicId::UsubSatI8x16,
        IntrinsicId::UsubSatI16x8,
        IntrinsicId::ExpectI1,
        IntrinsicId::Trap,
        IntrinsicId::DebugTrap,
        IntrinsicId::Personality,
        IntrinsicId::ExperimentalStackmap,
        IntrinsicId::TableCopy,
        IntrinsicId::TableInit,
        IntrinsicId::TableFill,
        IntrinsicId::TableSize,
        IntrinsicId::ImportedTableSize,
        IntrinsicId::TableGet,
        IntrinsicId::ImportedTableGet,
        IntrinsicId::TableSet,
        IntrinsicId::ImportedTableSet,
        IntrinsicId::TableGrow,
        IntrinsicId::ImportedTableGrow,
        IntrinsicId::MemoryInit,
        IntrinsicId::MemoryCopy,
        IntrinsicId::ImportedMemoryCopy,
        IntrinsicId::MemoryFill,
        IntrinsicId::ImportedMemoryFill,
        IntrinsicId::DataDrop,
        IntrinsicId::FuncRef,
        IntrinsicId::ElemDrop,
        IntrinsicId::ThrowTrap,
    ]
}

impl IntrinsicId {
    /// The symbol name.
    pub fn name(&self) -> (r: &'static str)
        ensures
            r@ == intrinsic_name(*self),
    {
        match self {
            IntrinsicId::CtlzI32 => "llvm.ctlz.i32",
            IntrinsicId::CtlzI64 => "llvm.ctlz.i64",
            IntrinsicId::CttzI32 => "llvm.cttz.i32",
            IntrinsicId::CttzI64 => "llvm.cttz.i64",
            IntrinsicId::CtpopI32 => "llvm.ctpop.i32",
            IntrinsicId::CtpopI64 => "llvm.ctpop.i64",
            IntrinsicId::CtpopI8x16 => "llvm.ctpop.v16i8",
            IntrinsicId::SqrtF32 => "llvm.sqrt.f32",
            IntrinsicId::SqrtF64 => "llvm.sqrt.f64",
            IntrinsicId::SqrtF32x4 => "llvm.sqrt.v4f32",
            IntrinsicId::SqrtF64x2 => "llvm.sqrt.v2f64",
            IntrinsicId::CeilF32 => "llvm.ceil.f32",
            IntrinsicId::CeilF64 => "llvm.ceil.f64",
            IntrinsicId::CeilF32x4 => "llvm.ceil.v4f32",
            IntrinsicId::CeilF64x2 => "llvm.ceil.v2f64",
            IntrinsicId::FloorF32 => "llvm.floor.f32",
            IntrinsicId::FloorF64 => "llvm.floor.f64",
            IntrinsicId::FloorF32x4 => "llvm.floor.v4f32",
            IntrinsicId::FloorF64x2 => "llvm.floor.v2f64",
            IntrinsicId::TruncF32 => "llvm.trunc.f32",
            IntrinsicId::TruncF64 => "llvm.trunc.f64",
            IntrinsicId::TruncF32x4 => "llvm.trunc.v4f32",
            IntrinsicId::TruncF64x2 => "llvm.trunc.v2f64",
            IntrinsicId::NearbyintF32 => "llvm.nearbyint.f32",
            IntrinsicId::NearbyintF64 => "llvm.nearbyint.f64",
            IntrinsicId::NearbyintF32x4 => "llvm.nearbyint.v4f32",
            IntrinsicId::NearbyintF64x2 => "llvm.nearbyint.v2f64",
            IntrinsicId::FabsF32 => "llvm.fabs.f32",
            IntrinsicId::FabsF64 => "llvm.fabs.f64",
            IntrinsicId::FabsF32x4 => "llvm.fabs.v4f32",
            IntrinsicId::FabsF64x2 => "llvm.fabs.v2f64",
            IntrinsicId::CopysignF32 => "llvm.copysign.f32",
            IntrinsicId::CopysignF64 => "llvm.copysign.f64",
            IntrinsicId::CopysignF32x4 => "llvm.copysign.v4f32",
            IntrinsicId::CopysignF64x2 => "llvm.copysign.v2f64",
            IntrinsicId::SaddSatI8x16 => "llvm.sadd.sat.v16i8",
            IntrinsicId::SaddSatI16x8 => "llvm.sadd.sat.v8i16",
            IntrinsicId::UaddSatI8x16 => "llvm.uadd.sat.v16i8",
            IntrinsicId::UaddSatI16x8 => "llvm.uadd.sat.v8i16",
            IntrinsicId::SsubSatI8x16 => "llvm.ssub.sat.v16i8",
            IntrinsicId::SsubSatI16x8 => "llvm.ssub.sat.v8i16",
            IntrinsicId::UsubSatI8x16 => "llvm.usub.sat.v16i8",
            IntrinsicId::UsubSatI16x8 => "llvm.usub.sat.v8i16",
            IntrinsicId::ExpectI1 => "llvm.expect.i1",
            IntrinsicId::Trap => "llvm.trap",
            IntrinsicId::DebugTrap => "llvm.debugtrap",
            IntrinsicId::Personality => "__gxx_personality_v0",
            IntrinsicId::ExperimentalStackmap => "llvm.experimental.stackmap",
            IntrinsicId::TableCopy => "wasmer_vm_table_copy",
            IntrinsicId::TableInit => "wasmer_vm_table_init",
            IntrinsicId::TableFill => "wasmer_vm_table_fill",
            IntrinsicId::TableSize => "wasmer_vm_table_size",
            IntrinsicId::ImportedTableSize => "wasmer_vm_imported_table_size",
            IntrinsicId::TableGet => "wasmer_vm_table_get",
            IntrinsicId::ImportedTableGet => "wasmer_vm_imported_table_get",
            IntrinsicId::TableSet => "wasmer_vm_table_set",
            IntrinsicId::ImportedTableSet => "wasmer_vm_imported_table_set",
            IntrinsicId::TableGrow => "wasmer_vm_table_grow",
            IntrinsicId::ImportedTableGrow => "wasmer_vm_imported_table_grow",
            IntrinsicId::MemoryInit => "wasmer_vm_memory32_init",
            IntrinsicId::MemoryCopy => "wasmer_vm_memory32_copy",
            IntrinsicId::ImportedMemoryCopy => "wasmer_vm_imported_memory32_copy",
            IntrinsicId::MemoryFill => "wasmer_vm_memory32_fill",
            IntrinsicId::ImportedMemoryFill => "wasmer_vm_imported_memory32_fill",
            IntrinsicId::DataDrop => "wasmer_vm_data_drop",
            IntrinsicId::FuncRef => "wasmer_vm_func_ref",
            IntrinsicId::ElemDrop => "wasmer_vm_elem_drop",
            IntrinsicId::ThrowTrap => "wasmer_vm_raise_trap",
        }
    }

    /// The function type.
    pub fn shape(&self) -> (r: Shape)
        ensures
            r == intrinsic_shape(*self),
    {
        match self {
            IntrinsicId::CtlzI32 => Shape::I32TakeI32I1,
            IntrinsicId::CtlzI64 => Shape::I64TakeI64I1,
            IntrinsicId::CttzI32 => Shape::I32TakeI32I1,
            IntrinsicId::CttzI64 => Shape::I64TakeI64I1,
            IntrinsicId::CtpopI32 => Shape::I32TakeI32,
            IntrinsicId::CtpopI64 => Shape::I64TakeI64,
            IntrinsicId::CtpopI8x16 => Shape::I8x16TakeI8x16,
            IntrinsicId::SqrtF32 => Shape::F32TakeF32,
            IntrinsicId::SqrtF64 => Shape::F64TakeF64,
            IntrinsicId::SqrtF32x4 => Shape::F32x4TakeF32x4,
            IntrinsicId::SqrtF64x2 => Shape::F64x2TakeF64x2,
            IntrinsicId::CeilF32 => Shape::F32TakeF32,
            IntrinsicId::CeilF64 => Shape::F64TakeF64,
            IntrinsicId::CeilF32x4 => Shape::F32x4TakeF32x4,
            IntrinsicId::CeilF64x2 => Shape::F64x2TakeF64x2,
            IntrinsicId::FloorF32 => Shape::F32TakeF32,
            IntrinsicId::FloorF64 => Shape::F64TakeF64,
            IntrinsicId::FloorF32x4 => Shape::F32x4TakeF32x4,
            IntrinsicId::FloorF64x2 => Shape::F64x2TakeF64x2,
            IntrinsicId::TruncF32 => Shape::F32TakeF32,
            IntrinsicId::TruncF64 => Shape::F64TakeF64,
            IntrinsicId::TruncF32x4 => Shape::F32x4TakeF32x4,
            IntrinsicId::TruncF64x2 => Shape::F64x2TakeF64x2,
            IntrinsicId::NearbyintF32 => Shape::F32TakeF32,
            IntrinsicId::NearbyintF64 => Shape::F64TakeF64,
            IntrinsicId::NearbyintF32x4 => Shape::F32x4TakeF32x4,
            IntrinsicId::NearbyintF64x2 => Shape::F64x2TakeF64x2,
            IntrinsicId::FabsF32 => Shape::F32TakeF32,
            IntrinsicId::FabsF64 => Shape::F64TakeF64,
            IntrinsicId::FabsF32x4 => Shape::F32x4TakeF32x4,
            IntrinsicId::FabsF64x2 => Shape::F64x2TakeF64x2,
            IntrinsicId::CopysignF32 => Shape::F32TakeF32F32,
            IntrinsicId::CopysignF64 => Shape::F64TakeF64F64,
            IntrinsicId::CopysignF32x4 => Shape::F32x4TakeF32x4F32x4,
            IntrinsicId::CopysignF64x2 => Shape::F64x2TakeF64x2F64x2,
            IntrinsicId::SaddSatI8x16 => Shape::I8x16TakeI8x16I8x16,
            IntrinsicId::SaddSatI16x8 => Shape::I16x8TakeI16x8I16x8,
            IntrinsicId::UaddSatI8x16 => Shape::I8x16TakeI8x16I8x16,
            IntrinsicId::UaddSatI16x8 => Shape::I16x8TakeI16x8I16x8,
            IntrinsicId::SsubSatI8x16 => Shape::I8x16TakeI8x16I8x16,
            IntrinsicId::SsubSatI16x8 => Shape::I16x8TakeI16x8I16x8,
            IntrinsicId::UsubSatI8x16 => Shape::I8x16TakeI8x16I8x16,
            IntrinsicId::UsubSatI16x8 => Shape::I16x8TakeI16x8I16x8,
            IntrinsicId::ExpectI1 => Shape::I1TakeI1I1,
            IntrinsicId::Trap => Shape::VoidTakeNothing,
            IntrinsicId::DebugTrap => Shape::VoidTakeNothing,
            IntrinsicId::Personality => Shape::I32TakeNothing,
            IntrinsicId::ExperimentalStackmap => Shape::Stackmap,
            IntrinsicId::TableCopy => Shape::VoidTakeCtxFiveI32,
            IntrinsicId::TableInit => Shape::VoidTakeCtxFiveI32,
            IntrinsicId::TableFill => Shape::TableFill,
            IntrinsicId::TableSize => Shape::I32TakeCtxI32,
            IntrinsicId::ImportedTableSize => Shape::I32TakeCtxI32,
            IntrinsicId::TableGet => Shape::AnyrefTakeCtxI32I32,
            IntrinsicId::ImportedTableGet => Shape::AnyrefTakeCtxI32I32,
            IntrinsicId::TableSet => Shape::VoidTakeCtxI32I32Anyref,
            IntrinsicId::ImportedTableSet => Shape::VoidTakeCtxI32I32Anyref,
            IntrinsicId::TableGrow => Shape::I32TakeCtxAnyrefI32I32,
            IntrinsicId::ImportedTableGrow => Shape::I32TakeCtxAnyrefI32I32,
            IntrinsicId::MemoryInit => Shape::VoidTakeCtxFiveI32,
            IntrinsicId::MemoryCopy => Shape::VoidTakeCtxFourI32,
            IntrinsicId::ImportedMemoryCopy => Shape::VoidTakeCtxFourI32,
            IntrinsicId::MemoryFill => Shape::VoidTakeCtxFourI32,
            IntrinsicId::ImportedMemoryFill => Shape::VoidTakeCtxFourI32,
            IntrinsicId::DataDrop => Shape::VoidTakeCtxI32,
            IntrinsicId::FuncRef => Shape::FuncrefTakeCtxI32,
            IntrinsicId::ElemDrop => Shape::VoidTakeCtxI32,
            IntrinsicId::ThrowTrap => Shape::VoidTakeI32,
        }
    }
}

/// Every declared function, in declaration order.
pub fn all_intrinsic_ids() -> (r: Vec<IntrinsicId>)
    ensures
        r@ == all_intrinsics(),
{
    let r = vec![
        IntrinsicId::CtlzI32,
        IntrinsicId::CtlzI64,
        IntrinsicId::CttzI32,
        IntrinsicId::CttzI64,
        IntrinsicId::CtpopI32,
        IntrinsicId::CtpopI64,
        IntrinsicId::CtpopI8x16,
        IntrinsicId::SqrtF32,
        IntrinsicId::SqrtF64,
        IntrinsicId::SqrtF32x4,
        IntrinsicId::SqrtF64x2,
        IntrinsicId::CeilF32,
        IntrinsicId::CeilF64,
        IntrinsicId::CeilF32x4,
        IntrinsicId::CeilF64x2,
        IntrinsicId::FloorF32,
        IntrinsicId::FloorF64,
        IntrinsicId::FloorF32x4,
        IntrinsicId::FloorF64x2,
        IntrinsicId::TruncF32,
        IntrinsicId::TruncF64,
        IntrinsicId::TruncF32x4,
        IntrinsicId::TruncF64x2,
        IntrinsicId::NearbyintF32,
        IntrinsicId::NearbyintF64,
        IntrinsicId::NearbyintF32x4,
        IntrinsicId::NearbyintF64x2,
        IntrinsicId::FabsF32,
        IntrinsicId::FabsF64,
        IntrinsicId::FabsF32x4,
        IntrinsicId::FabsF64x2,
        IntrinsicId::CopysignF32,
        IntrinsicId::CopysignF64,
        IntrinsicId::CopysignF32x4,
        IntrinsicId::CopysignF64x2,
        IntrinsicId::SaddSatI8x16,
        IntrinsicId::SaddSatI16x8,
        IntrinsicId::UaddSatI8x16,
        IntrinsicId::UaddSatI16x8,
        IntrinsicId::SsubSatI8x16,
        IntrinsicId::SsubSatI16x8,
        IntrinsicId::UsubSatI8x16,
        IntrinsicId::UsubSatI16x8,
        IntrinsicId::ExpectI1,
        IntrinsicId::Trap,
        IntrinsicId::DebugTrap,
        IntrinsicId::Personality,
        IntrinsicId::ExperimentalStackmap,
        IntrinsicId::TableCopy,
        IntrinsicId::TableInit,
        IntrinsicId::TableFill,
        IntrinsicId::TableSize,
        IntrinsicId::ImportedTableSize,
        IntrinsicId::TableGet,
        IntrinsicId::ImportedTableGet,
        IntrinsicId::TableSet,
        IntrinsicId::ImportedTableSet,
        IntrinsicId::TableGrow,
        IntrinsicId::ImportedTableGrow,
        IntrinsicId::MemoryInit,
        IntrinsicId::MemoryCopy,
        IntrinsicId::ImportedMemoryCopy,
        IntrinsicId::MemoryFill,
        IntrinsicId::ImportedMemoryFill,
        IntrinsicId::DataDrop,
        IntrinsicId::FuncRef,
        IntrinsicId::ElemDrop,
        IntrinsicId::ThrowTrap,
    ];
    assert(r@ =~= all_intrinsics());
    r
}

/// The traps that generated code raises through the runtime.
#[derive(Clone, Copy, Debug, PartialEq, Eq, Structural)]
pub enum TrapKind {
    UnreachableCodeReached,
    IndirectCallToNull,
    BadSignature,
    HeapAccessOutOfBounds,
    IntegerOverflow,
    IntegerDivisionByZero,
    BadConversionToInteger,
    UnalignedAtomic,
    TableAccessOutOfBounds,
}

/// The runtime's code of a trap.
pub open spec fn trap_code_spec(k: TrapKind) -> u32 {
    match k {
        TrapKind::UnreachableCodeReached => 10,
        TrapKind::IndirectCallToNull => 5,
        TrapKind::BadSignature => 6,
        TrapKind::HeapAccessOutOfBounds => 1,
        TrapKind::IntegerOverflow => 7,
        TrapKind::IntegerDivisionByZero => 8,
        TrapKind::BadConversionToInteger => 9,
        TrapKind::UnalignedAtomic => 11,
        TrapKind::TableAccessOutOfBounds => 3,
    }
}

/// Relies on the discriminants of wasmer_vm::TrapCode (`#[repr(u32)]`): the
/// code the runtime gives each trap.
#[verifier::external_body]
fn trap_code(k: TrapKind) -> (r: u32)
    ensures
        r == trap_code_spec(k),
{
    let c = match k {
        TrapKind::UnreachableCodeReached => wasmer_vm::TrapCode::UnreachableCodeReached,
        TrapKind::IndirectCallToNull => wasmer_vm::TrapCode::IndirectCallToNull,
        TrapKind::BadSignature => wasmer_vm::TrapCode::BadSignature,
        TrapKind::HeapAccessOutOfBounds => wasmer_vm::TrapCode::HeapAccessOutOfBounds,
        TrapKind::IntegerOverflow => wasmer_vm::TrapCode::IntegerOverflow,
        TrapKind::IntegerDivisionByZero => wasmer_vm::TrapCode::IntegerDivisionByZero,
        TrapKind::BadConversionToInteger => wasmer_vm::TrapCode::BadConversionToInteger,
        TrapKind::UnalignedAtomic => wasmer_vm::TrapCode::UnalignedAtomic,
        TrapKind::TableAccessOutOfBounds => wasmer_vm::TrapCode::TableAccessOutOfBounds,
    };
    c as u32
}

/// A function of the catalog as declared in a compilation module.
pub struct IntrinsicDecl {
    pub id: IntrinsicId,
    pub name: &'static str,
    pub signature: FnSig,
    /// External linkage; the others get the default.
    pub external: bool,
    /// Calls never return.
    pub noreturn: bool,
    /// Calls do not write memory.
    pub readonly: bool,
}

/// What the declaration of `id` is: its name, type, linkage and attributes.
pub open spec fn declared_as(d: IntrinsicDecl, id: IntrinsicId) -> bool {
    &&& d.id == id
    &&& d.name@ == intrinsic_name(id)
    &&& d.signature.ret == shape_ret(intrinsic_shape(id))
    &&& d.signature.params@ == shape_params(intrinsic_shape(id))
    &&& d.signature.variadic == shape_variadic(intrinsic_shape(id))
    &&& d.external == (id == IntrinsicId::Personality)
    &&& d.noreturn == (id == IntrinsicId::ThrowTrap)
    &&& d.readonly == (id == IntrinsicId::FuncRef)
}

/// Name of the string attribute that asks the backend for stack probes.
pub const STACK_PROBE_KIND: &'static str = "probe-stack";

/// The runtime's stack-probe routine.
pub const STACK_PROBE_FUNCTION: &'static str = "wasmer_vm_probestack";

/// The declarations of one compilation module, and the constants that
/// code generation passes to them.
pub struct Intrinsics {
    /// Every function of the catalog, in declaration order.
    pub functions: Vec<IntrinsicDecl>,
    pub trap_unreachable: u32,
    pub trap_call_indirect_null: u32,
    pub trap_call_indirect_sig: u32,
    pub trap_memory_oob: u32,
    pub trap_illegal_arithmetic: u32,
    pub trap_integer_division_by_zero: u32,
    pub trap_bad_conversion_to_integer: u32,
    pub trap_unaligned_atomic: u32,
    pub trap_table_access_oob: u32,
    /// The attribute (kind, value) that every compiled function carries.
    pub stack_probe: (&'static str, &'static str),
}

impl Intrinsics {
    /// The declarations of a fresh compilation module: the whole catalog,
    /// each function once, with `noreturn` on the trap call, `readonly` on
    /// the function-reference call and external linkage on the personality.
    pub fn declare() -> (r: Self)
        ensures
            r.functions@.len() == all_intrinsics().len(),
            forall|k: int|
                0 <= k < r.functions@.len() ==> declared_as(
                    #[trigger] r.functions@[k],
                    all_intrinsics()[k],
                ),
            r.trap_unreachable == trap_code_spec(TrapKind::UnreachableCodeReached),
            r.trap_call_indirect_null == trap_code_spec(TrapKind::IndirectCallToNull),
            r.trap_call_indirect_sig == trap_code_spec(TrapKind::BadSignature),
            r.trap_memory_oob == trap_code_spec(TrapKind::HeapAccessOutOfBounds),
            r.trap_illegal_arithmetic == trap_code_spec(TrapKind::IntegerOverflow),
            r.trap_integer_division_by_zero == trap_code_spec(TrapKind::IntegerDivisionByZero),
            r.trap_bad_conversion_to_integer == trap_code_spec(TrapKind::BadConversionToInteger),
            r.trap_unaligned_atomic == trap_code_spec(TrapKind::UnalignedAtomic),
            r.trap_table_access_oob == trap_code_spec(TrapKind::TableAccessOutOfBounds),
            r.stack_probe.0@ == "probe-stack"@,
            r.stack_probe.1@ == "wasmer_vm_probestack"@,
    {
        let ids = all_intrinsic_ids();
        let mut functions: Vec<IntrinsicDecl> = Vec::new();
        let mut i: usize = 0;
        while i < ids.len()
            invariant
                i <= ids@.len(),
                ids@ == all_intrinsics(),
                functions@.len() == i,
                forall|k: int| 0 <= k < i ==> declared_as(#[trigger] functions@[k], ids@[k]),
            decreases ids@.len() - i,
        {
            let id = ids[i];
            functions.push(
                IntrinsicDecl {
                    id,
                    name: id.name(),
                    signature: id.shape().signature(),
                    external: id == IntrinsicId::Personality,
                    noreturn: id == IntrinsicId::ThrowTrap,
                    readonly: id == IntrinsicId::FuncRef,
                },
            );
            i += 1;
        }
        Intrinsics {
            functions,
            trap_unreachable: trap_code(TrapKind::UnreachableCodeReached),
            trap_call_indirect_null: trap_code(TrapKind::IndirectCallToNull),
            trap_call_indirect_sig: trap_code(TrapKind::BadSignature),
            trap_memory_oob: trap_code(TrapKind::HeapAccessOutOfBounds),
            trap_illegal_arithmetic: trap_code(TrapKind::IntegerOverflow),
            trap_integer_division_by_zero: trap_code(TrapKind::IntegerDivisionByZero),
            trap_bad_conversion_to_integer: trap_code(TrapKind::BadConversionToInteger),
            trap_unaligned_atomic: trap_code(TrapKind::UnalignedAtomic),
            trap_table_access_oob: trap_code(TrapKind::TableAccessOutOfBounds),
            stack_probe: (STACK_PROBE_KIND, STACK_PROBE_FUNCTION),
        }
    }

    /// The declaration of `id`.
    pub fn get(&self, id: IntrinsicId) -> (r: &IntrinsicDecl)
        requires
            self.functions@.len() == all_intrinsics().len(),
            forall|k: int|
                0 <= k < self.functions@.len() ==> declared_as(
                    #[trigger] self.functions@[k],
                    all_intrinsics()[k],
                ),
        ensures
            declared_as(*r, id),
    {
        let mut i: usize = 0;
        while i < self.functions.len()
            invariant
                i <= self.functions@.len(),
                forall|k: int| 0 <= k < i ==> self.functions@[k].id != id,
                self.functions@.len() == all_intrinsics().len(),
                forall|k: int|
                    0 <= k < self.functions@.len() ==> declared_as(
                        #[trigger] self.functions@[k],
                        all_intrinsics()[k],
                    ),
            decreases self.functions@.len() - i,
        {
            if self.functions[i].id == id {
                assert(declared_as(self.functions@[i as int], all_intrinsics()[i as int]));
                return &self.functions[i];
            }
            i += 1;
        }
        proof {
            lemma_every_id_declared(id);
            let k = choose|k: int| 0 <= k < all_intrinsics().len() && all_intrinsics()[k] == id;
            assert(declared_as(self.functions@[k], all_intrinsics()[k]));
        }
        &self.functions[0]
    }
}

/// Position of a function in the declaration order.
pub open spec fn intrinsic_position(id: IntrinsicId) -> int {
    match id {
        IntrinsicId::CtlzI32 => 0,
        IntrinsicId::CtlzI64 => 1,
        IntrinsicId::CttzI32 => 2,
        IntrinsicId::CttzI64 => 3,
        IntrinsicId::CtpopI32 => 4,
        IntrinsicId::CtpopI64 => 5,
        IntrinsicId::CtpopI8x16 => 6,
        IntrinsicId::SqrtF32 => 7,
        IntrinsicId::SqrtF64 => 8,
        IntrinsicId::SqrtF32x4 => 9,
        IntrinsicId::SqrtF64x2 => 10,
        IntrinsicId::CeilF32 => 11,
        IntrinsicId::CeilF64 => 12,
        IntrinsicId::CeilF32x4 => 13,
        IntrinsicId::CeilF64x2 => 14,
        IntrinsicId::FloorF32 => 15,
        IntrinsicId::FloorF64 => 16,
        IntrinsicId::FloorF32x4 => 17,
        IntrinsicId::FloorF64x2 => 18,
        IntrinsicId::TruncF32 => 19,
        IntrinsicId::TruncF64 => 20,
        IntrinsicId::TruncF32x4 => 21,
        IntrinsicId::TruncF64x2 => 22,
        IntrinsicId::NearbyintF32 => 23,
        IntrinsicId::NearbyintF64 => 24,
        IntrinsicId::NearbyintF32x4 => 25,
        IntrinsicId::NearbyintF64x2 => 26,
        IntrinsicId::FabsF32 => 27,
        IntrinsicId::FabsF64 => 28,
        IntrinsicId::FabsF32x4 => 29,
        IntrinsicId::FabsF64x2 => 30,
        IntrinsicId::CopysignF32 => 31,
        IntrinsicId::CopysignF64 => 32,
        IntrinsicId::CopysignF32x4 => 33,
        IntrinsicId::CopysignF64x2 => 34,
        IntrinsicId::SaddSatI8x16 => 35,
        IntrinsicId::SaddSatI16x8 => 36,
        IntrinsicId::UaddSatI8x16 => 37,
        IntrinsicId::UaddSatI16x8 => 38,
        IntrinsicId::SsubSatI8x16 => 39,
        IntrinsicId::SsubSatI16x8 => 40,
        IntrinsicId::UsubSatI8x16 => 41,
        IntrinsicId::UsubSatI16x8 => 42,
        IntrinsicId::ExpectI1 => 43,
        IntrinsicId::Trap => 44,
        IntrinsicId::DebugTrap => 45,
        IntrinsicId::Personality => 46,
        IntrinsicId::ExperimentalStackmap => 47,
        IntrinsicId::TableCopy => 48,
        IntrinsicId::TableInit => 49,
        IntrinsicId::TableFill => 50,
        IntrinsicId::TableSize => 51,
        IntrinsicId::ImportedTableSize => 52,
        IntrinsicId::TableGet => 53,
        IntrinsicId::ImportedTableGet => 54,
        IntrinsicId::TableSet => 55,
        IntrinsicId::ImportedTableSet => 56,
        IntrinsicId::TableGrow => 57,
        IntrinsicId::ImportedTableGrow => 58,
        IntrinsicId::MemoryInit => 59,
        IntrinsicId::MemoryCopy => 60,
        IntrinsicId::ImportedMemoryCopy => 61,
        IntrinsicId::MemoryFill => 62,
        IntrinsicId::ImportedMemoryFill => 63,
        IntrinsicId::DataDrop => 64,
        IntrinsicId::FuncRef => 65,
        IntrinsicId::ElemDrop => 66,
        IntrinsicId::ThrowTrap => 67,
    }
}

/// The declaration order lists every function exactly once: the function
/// at each position is the one whose position that is, so no function is
/// declared twice.
pub proof fn lemma_each_intrinsic_declared_once(i: int, j: int)
    requires
        0 <= i < all_intrinsics().len(),
        0 <= j < all_intrinsics().len(),
        i != j,
    ensures
        all_intrinsics()[i] != all_intrinsics()[j],
        intrinsic_position(all_intrinsics()[i]) == i,
{
    lemma_positions();
}

proof fn lemma_positions()
    ensures
        forall|k: int|
            0 <= k < all_intrinsics().len() ==> intrinsic_position(#[trigger] all_intrinsics()[k])
                == k,
{
    let s = all_intrinsics();
    assert(intrinsic_position(s[0]) == 0);
    assert(intrinsic_position(s[1]) == 1);
    assert(intrinsic_position(s[2]) == 2);
    assert(intrinsic_position(s[3]) == 3);
    assert(intrinsic_position(s[4]) == 4);
    assert(intrinsic_position(s[5]) == 5);
    assert(intrinsic_position(s[6]) == 6);
    assert(intrinsic_position(s[7]) == 7);
    assert(intrinsic_position(s[8]) == 8);
    assert(intrinsic_position(s[9]) == 9);
    assert(intrinsic_position(s[10]) == 10);
    assert(intrinsic_position(s[11]) == 11);
    assert(intrinsic_position(s[12]) == 12);
    assert(intrinsic_position(s[13]) == 13);
    assert(intrinsic_position(s[14]) == 14);
    assert(intrinsic_position(s[15]) == 15);
    assert(intrinsic_position(s[16]) == 16);
    assert(intrinsic_position(s[17]) == 17);
    assert(intrinsic_position(s[18]) == 18);
    assert(intrinsic_position(s[19]) == 19);
    assert(intrinsic_position(s[20]) == 20);
    assert(intrinsic_position(s[21]) == 21);
    assert(intrinsic_position(s[22]) == 22);
    assert(intrinsic_position(s[23]) == 23);
    assert(intrinsic_position(s[24]) == 24);
    assert(intrinsic_position(s[25]) == 25);
    assert(intrinsic_position(s[26]) == 26);
    assert(intrinsic_position(s[27]) == 27);
    assert(intrinsic_position(s[28]) == 28);
    assert(intrinsic_position(s[29]) == 29);
    assert(intrinsic_position(s[30]) == 30);
    assert(intrinsic_position(s[31]) == 31);
    assert(intrinsic_position(s[32]) == 32);
    assert(intrinsic_position(s[33]) == 33);
    assert(intrinsic_position(s[34]) == 34);
    assert(intrinsic_position(s[35]) == 35);
    assert(intrinsic_position(s[36]) == 36);
    assert(intrinsic_position(s[37]) == 37);
    assert(intrinsic_position(s[38]) == 38);
    assert(intrinsic_position(s[39]) == 39);
    assert(intrinsic_position(s[40]) == 40);
    assert(intrinsic_position(s[41]) == 41);
    assert(intrinsic_position(s[42]) == 42);
    assert(intrinsic_position(s[43]) == 43);
    assert(intrinsic_position(s[44]) == 44);
    assert(intrinsic_position(s[45]) == 45);
    assert(intrinsic_position(s[46]) == 46);
    assert(intrinsic_position(s[47]) == 47);
    assert(intrinsic_position(s[48]) == 48);
    assert(intrinsic_position(s[49]) == 49);
    assert(intrinsic_position(s[50]) == 50);
    assert(intrinsic_position(s[51]) == 51);
    assert(intrinsic_position(s[52]) == 52);
    assert(intrinsic_position(s[53]) == 53);
    assert(intrinsic_position(s[54]) == 54);
    assert(intrinsic_position(s[55]) == 55);
    assert(intrinsic_position(s[56]) == 56);
    assert(intrinsic_position(s[57]) == 57);
    assert(intrinsic_position(s[58]) == 58);
    assert(intrinsic_position(s[59]) == 59);
    assert(intrinsic_position(s[60]) == 60);
    assert(intrinsic_position(s[61]) == 61);
    assert(intrinsic_position(s[62]) == 62);
    assert(intrinsic_position(s[63]) == 63);
    assert(intrinsic_position(s[64]) == 64);
    assert(intrinsic_position(s[65]) == 65);
    assert(intrinsic_position(s[66]) == 66);
    assert(intrinsic_position(s[67]) == 67);
}

/// Every function of the catalog has a place in the declaration order.
pub proof fn lemma_every_id_declared(id: IntrinsicId)
    ensures
        all_intrinsics().contains(id),
{
    let s = all_intrinsics();
    assert(exists|k: int| 0 <= k < s.len() && s[k] == id) by {
        match id {
            IntrinsicId::CtlzI32 => assert(s[0] == id),
            IntrinsicId::CtlzI64 => assert(s[1] == id),
            IntrinsicId::CttzI32 => assert(s[2] == id),
            IntrinsicId::CttzI64 => assert(s[3] == id),
            IntrinsicId::CtpopI32 => assert(s[4] == id),
            IntrinsicId::CtpopI64 => assert(s[5] == id),
            IntrinsicId::CtpopI8x16 => assert(s[6] == id),
            IntrinsicId::SqrtF32 => assert(s[7] == id),
            IntrinsicId::SqrtF64 => assert(s[8] == id),
            IntrinsicId::SqrtF32x4 => assert(s[9] == id),
            IntrinsicId::SqrtF64x2 => assert(s[10] == id),
            IntrinsicId::CeilF32 => assert(s[11] == id),
            IntrinsicId::CeilF64 => assert(s[12] == id),
            IntrinsicId::CeilF32x4 => assert(s[13] == id),
            IntrinsicId::CeilF64x2 => assert(s[14] == id),
            IntrinsicId::FloorF32 => assert(s[15] == id),
            IntrinsicId::FloorF64 => assert(s[16] == id),
            IntrinsicId::FloorF32x4 => assert(s[17] == id),
            IntrinsicId::FloorF64x2 => assert(s[18] == id),
            IntrinsicId::TruncF32 => assert(s[19] == id),
            IntrinsicId::TruncF64 => assert(s[20] == id),
            IntrinsicId::TruncF32x4 => assert(s[21] == id),
            IntrinsicId::TruncF64x2 => assert(s[22] == id),
            IntrinsicId::NearbyintF32 => assert(s[23] == id),
            IntrinsicId::NearbyintF64 => assert(s[24] == id),
            IntrinsicId::NearbyintF32x4 => assert(s[25] == id),
            IntrinsicId::NearbyintF64x2 => assert(s[26] == id),
            IntrinsicId::FabsF32 => assert(s[27] == id),
            IntrinsicId::FabsF64 => assert(s[28] == id),
            IntrinsicId::FabsF32x4 => assert(s[29] == id),
            IntrinsicId::FabsF64x2 => assert(s[30] == id),
            IntrinsicId::CopysignF32 => assert(s[31] == id),
            IntrinsicId::CopysignF64 => assert(s[32] == id),
            IntrinsicId::CopysignF32x4 => assert(s[33] == id),
            IntrinsicId::CopysignF64x2 => assert(s[34] == id),
            IntrinsicId::SaddSatI8x16 => assert(s[35] == id),
            IntrinsicId::SaddSatI16x8 => assert(s[36] == id),
            IntrinsicId::UaddSatI8x16 => assert(s[37] == id),
            IntrinsicId::UaddSatI16x8 => assert(s[38] == id),
            IntrinsicId::SsubSatI8x16 => assert(s[39] == id),
            IntrinsicId::SsubSatI16x8 => assert(s[40] == id),
            IntrinsicId::UsubSatI8x16 => assert(s[41] == id),
            IntrinsicId::UsubSatI16x8 => assert(s[42] == id),
            IntrinsicId::ExpectI1 => assert(s[43] == id),
            IntrinsicId::Trap => assert(s[44] == id),
            IntrinsicId::DebugTrap => assert(s[45] == id),
            IntrinsicId::Personality => assert(s[46] == id),
            IntrinsicId::ExperimentalStackmap => assert(s[47] == id),
            IntrinsicId::TableCopy => assert(s[48] == id),
            IntrinsicId::TableInit => assert(s[49] == id),
            IntrinsicId::TableFill => assert(s[50] == id),
            IntrinsicId::TableSize => assert(s[51] == id),
            IntrinsicId::ImportedTableSize => assert(s[52] == id),
            IntrinsicId::TableGet => assert(s[53] == id),
            IntrinsicId::ImportedTableGet => assert(s[54] == id),
            IntrinsicId::TableSet => assert(s[55] == id),
            IntrinsicId::ImportedTableSet => assert(s[56] == id),
            IntrinsicId::TableGrow => assert(s[57] == id),
            IntrinsicId::ImportedTableGrow => assert(s[58] == id),
            IntrinsicId::MemoryInit => assert(s[59] == id),
            IntrinsicId::MemoryCopy => assert(s[60] == id),
            IntrinsicId::ImportedMemoryCopy => assert(s[61] == id),
            IntrinsicId::MemoryFill => assert(s[62] == id),
            IntrinsicId::ImportedMemoryFill => assert(s[63] == id),
            IntrinsicId::DataDrop => assert(s[64] == id),
            IntrinsicId::FuncRef => assert(s[65] == id),
            IntrinsicId::ElemDrop => assert(s[66] == id),
            IntrinsicId::ThrowTrap => assert(s[67] == id),
        }
    }
}

} // verus!
