use tidec::basic_blocks::BasicBlockData;
use tidec::index_vec::IdxVec;
use tidec::lir::{
    CallConv, CallConvUtils, DefId, EmitKind, Linkage, LirBody, LirBodyKind, LirBodyMetadata,
    LirCtx, LirItemKind, LirUnit, LirUnitMetadata, UnnamedAddress, Visibility,
};
use tidec::record::{RecordBuilder, RecordCtx, RecordInst, RecordValue};
use tidec::ssa::lir::{allocate_local, LocalRef, OperandVal};
use tidec::ssa::traits::{BuilderMethods, CodegenMethods, PreDefineCodegenMethods};
use tidec::syntax::{
    ConstOperand, ConstScalar, ConstValue, LirTy, Local, LocalData, Place, RValue, RawScalarValue,
    Statement, Terminator,
};
use tidec::target::BackendKind;

fn metadata(def_id: usize, name: &str) -> LirBodyMetadata {
    LirBodyMetadata {
        def_id: DefId(def_id),
        name: name.to_string(),
        kind: LirBodyKind::Item(LirItemKind::Function),
        inlined: false,
        linkage: Linkage::External,
        visibility: Visibility::Default,
        unnamed_address: UnnamedAddress::No,
        call_conv: CallConv::C,
    }
}

/// A body with no parameters that assigns one scalar constant to its
/// return slot and returns it.
fn const_return_body(def_id: usize, name: &str, ty: LirTy, data: u128, size: u8) -> LirBody {
    LirBody {
        metadata: metadata(def_id, name),
        ret_and_args: IdxVec::from_raw(vec![LocalData { ty, mutable: false }]),
        locals: IdxVec::new(),
        basic_blocks: IdxVec::from_raw(vec![BasicBlockData {
            statements: vec![Statement::Assign(Box::new((
                Place { local: Local(0), projection: vec![] },
                RValue::Const(ConstOperand::Value(
                    ConstValue::Scalar(ConstScalar::Value(RawScalarValue::new(data, size))),
                    ty,
                )),
            )))],
            terminator: Terminator::Return,
        }]),
    }
}

fn unit_of(name: &str, bodies: Vec<LirBody>) -> LirUnit {
    LirUnit {
        metadata: LirUnitMetadata { unit_name: name.to_string() },
        bodies: IdxVec::from_raw(bodies),
    }
}

fn fresh_ctx() -> RecordCtx {
    RecordCtx::new(LirCtx::new(BackendKind::Llvm, EmitKind::Object))
}

#[test]
fn return_zero_compiles_to_ret_const_zero() {
    let unit = unit_of("main_unit", vec![const_return_body(0, "main", LirTy::I32, 0, 4)]);
    let mut ctx = fresh_ctx();
    ctx.compile_unit(&unit);
    assert_eq!(ctx.functions.len(), 1);
    let f = &ctx.functions[0];
    assert_eq!(f.name, "main");
    assert_eq!(f.ret_ty, LirTy::I32);
    assert_eq!(f.params.len(), 0);
    // A body with a single entry block still compiles: one block, and its
    // only instruction returns the constant directly.
    assert_eq!(f.blocks.len(), 1);
    assert_eq!(f.blocks[0].name, "entry");
    assert_eq!(
        f.blocks[0].insts,
        vec![RecordInst::Ret(Some(RecordValue::Const { bits: 0, size: 4 }))]
    );
}

#[test]
fn return_five_compiles_to_ret_const_five() {
    let unit = unit_of("main_unit", vec![const_return_body(0, "main", LirTy::I32, 5, 4)]);
    let mut ctx = fresh_ctx();
    ctx.compile_unit(&unit);
    assert_eq!(
        ctx.functions[0].blocks[0].insts,
        vec![RecordInst::Ret(Some(RecordValue::Const { bits: 5, size: 4 }))]
    );
}

#[test]
fn large_integer_constant_returns_all_bits() {
    let data: u128 = 0x0123_4567_89AB_CDEF_0011_2233_4455_6677;
    let unit = unit_of("wide", vec![const_return_body(0, "wide", LirTy::I128, data, 16)]);
    let mut ctx = fresh_ctx();
    ctx.compile_unit(&unit);
    assert_eq!(
        ctx.functions[0].blocks[0].insts,
        vec![RecordInst::Ret(Some(RecordValue::Const { bits: data, size: 16 }))]
    );
}

#[test]
fn zst_return_emits_ret_void_and_no_storage() {
    // A function returning a memory-layout zero-sized type: `ret void`,
    // and the return local never receives storage.
    let body = LirBody {
        metadata: metadata(0, "unit_fn"),
        ret_and_args: IdxVec::from_raw(vec![LocalData { ty: LirTy::Metadata, mutable: false }]),
        locals: IdxVec::new(),
        basic_blocks: IdxVec::from_raw(vec![BasicBlockData {
            statements: vec![],
            terminator: Terminator::Return,
        }]),
    };
    let unit = unit_of("zst", vec![body]);
    let mut ctx = fresh_ctx();
    ctx.compile_unit(&unit);
    let insts = &ctx.functions[0].blocks[0].insts;
    assert_eq!(*insts, vec![RecordInst::Ret(None)]);
    assert!(!insts.iter().any(|i| matches!(i, RecordInst::Alloca { .. })));
}

#[test]
fn two_bodies_predefine_before_define() {
    let unit = unit_of(
        "pair",
        vec![
            const_return_body(0, "foo", LirTy::I32, 1, 4),
            const_return_body(1, "bar", LirTy::I32, 2, 4),
        ],
    );
    let mut ctx = fresh_ctx();
    ctx.compile_unit(&unit);
    // Both declarations exist, in declaration order, and both bodies were
    // lowered against them.
    assert_eq!(ctx.functions.len(), 2);
    assert_eq!(ctx.functions[0].name, "foo");
    assert_eq!(ctx.functions[1].name, "bar");
    assert_eq!(ctx.get_fn(&metadata(0, "foo")), Some(0));
    assert_eq!(ctx.get_fn(&metadata(1, "bar")), Some(1));
    assert_eq!(ctx.functions[0].blocks.len(), 1);
    assert_eq!(ctx.functions[1].blocks.len(), 1);
    // The identifier map got exactly one entry per body, none overwritten.
    assert_eq!(ctx.fn_ids, vec![(0, 0), (1, 1)]);
}

#[test]
fn compilation_is_deterministic() {
    let make = || {
        unit_of(
            "twice",
            vec![
                const_return_body(0, "foo", LirTy::I64, 7, 8),
                const_return_body(1, "bar", LirTy::I8, 3, 1),
            ],
        )
    };
    let mut ctx1 = fresh_ctx();
    ctx1.compile_unit(&make());
    let mut ctx2 = fresh_ctx();
    ctx2.compile_unit(&make());
    assert_eq!(ctx1.functions, ctx2.functions);
    assert_eq!(ctx1.fn_ids, ctx2.fn_ids);
}

#[test]
fn function_records_symbol_data() {
    let unit = unit_of("sym", vec![const_return_body(9, "answer", LirTy::I8, 42, 1)]);
    let mut ctx = fresh_ctx();
    ctx.compile_unit(&unit);
    let f = &ctx.functions[0];
    assert_eq!(f.linkage, Linkage::External);
    assert_eq!(f.visibility, Visibility::Default);
    assert_eq!(f.unnamed_address, UnnamedAddress::No);
    assert_eq!(f.call_conv, 0);
    assert_eq!(ctx.get_fn(&metadata(9, "answer")), Some(0));
    assert_eq!(ctx.get_fn(&metadata(8, "missing")), None);
}

#[test]
fn call_conv_numbers_match_the_backend() {
    assert_eq!(CallConv::C.into_call_conv(), 0);
    assert_eq!(CallConv::Rust.into_call_conv(), 1);
    assert_eq!(CallConv::Fast.into_call_conv(), 8);
    assert_eq!(CallConv::X86StdCall.into_call_conv(), 64);
    assert_eq!(CallConv::MaxID.into_call_conv(), 1023);
}

#[test]
fn locals_allocation_policy() {
    let mut ctx = fresh_ctx();
    // Declare a function and give it a block to position a builder at.
    let meta = metadata(0, "host");
    let ret_and_args = IdxVec::from_raw(vec![LocalData { ty: LirTy::I32, mutable: false }]);
    ctx.predefine_body(&meta, &ret_and_args);
    let bb = RecordBuilder::append_basic_block(&mut ctx, 0, "entry");
    let mut builder = RecordBuilder::build(&mut ctx, bb);
    // A zero-sized local becomes an empty operand.
    let zst = allocate_local::<RecordBuilder>(&mut builder, &mut ctx, LirTy::Metadata);
    assert!(matches!(
        zst,
        LocalRef::OperandRef(o) if matches!(o.operand_val, OperandVal::Zst)
    ));
    // A scalar local waits for its first assignment.
    let pending = allocate_local::<RecordBuilder>(&mut builder, &mut ctx, LirTy::I64);
    assert!(matches!(pending, LocalRef::PendingOperandRef));
    // Neither allocation emitted storage.
    assert!(ctx.functions[0].blocks[0].insts.is_empty());
}

#[test]
fn two_block_body_names_blocks_in_order() {
    // The entry block is created up front; every further block is created
    // on first use and named after its index.
    let body = LirBody {
        metadata: metadata(0, "twoblocks"),
        ret_and_args: IdxVec::from_raw(vec![LocalData { ty: LirTy::I16, mutable: false }]),
        locals: IdxVec::new(),
        basic_blocks: IdxVec::from_raw(vec![
            BasicBlockData {
                statements: vec![Statement::Assign(Box::new((
                    Place { local: Local(0), projection: vec![] },
                    RValue::Const(ConstOperand::Value(
                        ConstValue::Scalar(ConstScalar::Value(RawScalarValue::new(9, 2))),
                        LirTy::I16,
                    )),
                )))],
                terminator: Terminator::Return,
            },
            BasicBlockData { statements: vec![], terminator: Terminator::Return },
        ]),
    };
    let unit = unit_of("blocks", vec![body]);
    let mut ctx = fresh_ctx();
    ctx.compile_unit(&unit);
    let f = &ctx.functions[0];
    assert_eq!(f.blocks.len(), 2);
    assert_eq!(f.blocks[0].name, "entry");
    assert_eq!(f.blocks[1].name, "bb1");
    let ret9 = RecordInst::Ret(Some(RecordValue::Const { bits: 9, size: 2 }));
    assert_eq!(f.blocks[0].insts, vec![ret9]);
    assert_eq!(f.blocks[1].insts, vec![ret9]);
}

#[test]
fn declaration_records_signature() {
    // The declaration carries the return type and one entry per formal
    // parameter, in order.
    let body = LirBody {
        metadata: metadata(0, "takes_args"),
        ret_and_args: IdxVec::from_raw(vec![
            LocalData { ty: LirTy::I32, mutable: false },
            LocalData { ty: LirTy::I64, mutable: false },
            LocalData { ty: LirTy::Metadata, mutable: false },
        ]),
        locals: IdxVec::new(),
        basic_blocks: IdxVec::from_raw(vec![BasicBlockData {
            statements: vec![Statement::Assign(Box::new((
                Place { local: Local(0), projection: vec![] },
                RValue::Const(ConstOperand::Value(
                    ConstValue::Scalar(ConstScalar::Value(RawScalarValue::new(1, 4))),
                    LirTy::I32,
                )),
            )))],
            terminator: Terminator::Return,
        }]),
    };
    let unit = unit_of("args", vec![body]);
    let mut ctx = fresh_ctx();
    ctx.compile_unit(&unit);
    let f = &ctx.functions[0];
    assert_eq!(f.ret_ty, LirTy::I32);
    assert_eq!(f.params, vec![LirTy::I64, LirTy::Metadata]);
}
