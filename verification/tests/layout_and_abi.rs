use tidec::calling_convention::function::{fn_abi_of_ret_and_args, PassMode};
use tidec::index_vec::IdxVec;
use tidec::layout::BackendRepr;
use tidec::layout_ctx::LayoutCtx;
use tidec::lir::{EmitKind, LirCtx};
use tidec::syntax::{LirTy, LocalData};
use tidec::target::BackendKind;

#[test]
fn test_layout_ctx_new() {
    let lir_ctx = LirCtx::new(BackendKind::Llvm, EmitKind::Object);
    let layout_ctx = LayoutCtx::new(&lir_ctx);
    // Test that the context is stored correctly (by reference)
    assert!(std::ptr::eq(layout_ctx.lir_ty_ctx, &lir_ctx));
}

#[test]
fn primitive_sizes_and_aligns() {
    let lir_ctx = LirCtx::new(BackendKind::Llvm, EmitKind::Object);
    let cases = [
        (LirTy::I8, 1u64, 1u64),
        (LirTy::I16, 2, 2),
        (LirTy::I32, 4, 4),
        (LirTy::I64, 8, 4),
        (LirTy::I128, 16, 4),
        (LirTy::Metadata, 0, 1),
    ];
    for (ty, size, align) in cases {
        let l = lir_ctx.layout_of(ty);
        assert_eq!(l.ty, ty);
        assert_eq!(l.layout.size.bytes(), size);
        assert_eq!(l.layout.align.abi.bytes(), align);
        // Every size is one of the allowed byte counts and every ABI
        // alignment is a power of two.
        assert!([0u64, 1, 2, 4, 8, 16].contains(&l.layout.size.bytes()));
        let a = l.layout.align.abi.bytes();
        assert!(a != 0 && a & (a - 1) == 0);
    }
}

#[test]
fn metadata_is_the_only_zst() {
    let lir_ctx = LirCtx::new(BackendKind::Llvm, EmitKind::Object);
    for ty in [LirTy::I8, LirTy::I16, LirTy::I32, LirTy::I64, LirTy::I128] {
        let l = lir_ctx.layout_of(ty);
        assert!(!l.layout.is_zst());
        assert!(l.layout.is_immediate());
        assert!(!l.layout.is_memory());
        assert!(matches!(l.layout.backend_repr, BackendRepr::Scalar(_)));
    }
    let m = lir_ctx.layout_of(LirTy::Metadata);
    assert!(m.layout.is_zst());
    assert!(m.layout.is_memory());
    assert!(!m.layout.is_immediate());
}

fn slot(ty: LirTy) -> LocalData {
    LocalData { ty, mutable: false }
}

#[test]
fn fn_abi_one_arg_slot_per_parameter() {
    let lir_ctx = LirCtx::new(BackendKind::Llvm, EmitKind::Object);
    let ret_and_args = IdxVec::from_raw(vec![
        slot(LirTy::I32),
        slot(LirTy::I64),
        slot(LirTy::Metadata),
        slot(LirTy::I8),
    ]);
    let abi = fn_abi_of_ret_and_args(&lir_ctx, &ret_and_args);
    // One argument slot for each slot after the return.
    assert_eq!(abi.args.len(), 3);
    assert_eq!(abi.ret.mode, PassMode::Direct);
    assert_eq!(abi.args[0].mode, PassMode::Direct);
    assert_eq!(abi.args[1].mode, PassMode::Ignore);
    assert_eq!(abi.args[2].mode, PassMode::Direct);
}

#[test]
fn fn_abi_zst_return_is_ignored() {
    let lir_ctx = LirCtx::new(BackendKind::Llvm, EmitKind::Object);
    let ret_and_args = IdxVec::from_raw(vec![slot(LirTy::Metadata)]);
    let abi = fn_abi_of_ret_and_args(&lir_ctx, &ret_and_args);
    assert_eq!(abi.args.len(), 0);
    assert_eq!(abi.ret.mode, PassMode::Ignore);
}
