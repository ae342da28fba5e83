use tidec::lir::{EmitKind, LirCtx};
use tidec::target::{BackendKind, Endianess, LirTarget, TargetDataLayout, TargetTriple};

#[test]
fn default_datalayout_string_shape() {
    let target = LirTarget::new(BackendKind::Llvm);
    let s = target.data_layout_string();
    assert!(s.starts_with('E'));
    assert!(s.contains("-p:64:8:8"));
    assert!(s.contains("-i32:4:4"));
    assert!(s.contains("-i64:4:8"));
    assert!(s.contains("-v64:8:8"));
    assert!(s.ends_with("-P0"));
}

#[test]
fn default_datalayout_string_exact() {
    let dl = TargetDataLayout::new();
    let s = dl.as_llvm_datalayout_string();
    let expected = "E-p:64:8:8-i1:1:1-i8:1:1-i16:2:2-i32:4:4-i64:4:8-i128:4:8-f16:2:2-f32:4:4-f64:8:8-f128:16:16-a:0:8-v64:8:8-v128:16:16-P0";
    assert_eq!(s, expected);
}

#[test]
fn datalayout_string_is_deterministic() {
    let a = TargetDataLayout::new().as_llvm_datalayout_string();
    let b = TargetDataLayout::new().as_llvm_datalayout_string();
    assert_eq!(a, b);
}

#[test]
fn little_endian_layout_starts_with_e() {
    let mut dl = TargetDataLayout::new();
    dl.endianess = Endianess::Little;
    assert!(dl.as_llvm_datalayout_string().starts_with('e'));
}

#[test]
fn triple_joins_with_dashes() {
    let t = TargetTriple::new("x86_64", "unknown", "linux", "gnu", "gnu");
    assert_eq!(t.into_llvm_triple_string(), "x86_64-unknown-linux-gnu-gnu");
}

#[test]
fn target_without_triple_serializes_to_none() {
    let target = LirTarget::new(BackendKind::Llvm);
    assert!(target.target_triple_string().is_none());
    let mut with = LirTarget::new(BackendKind::Llvm);
    with.target_triple = Some(TargetTriple::new("aarch64", "apple", "darwin", "none", "macho"));
    assert_eq!(
        with.target_triple_string().unwrap(),
        "aarch64-apple-darwin-none-macho"
    );
}

#[test]
fn lir_ctx_exposes_backend_and_emit_kind() {
    let ctx = LirCtx::new(BackendKind::Llvm, EmitKind::Assembly);
    assert_eq!(*ctx.backend_kind(), BackendKind::Llvm);
    assert_eq!(*ctx.emit_kind(), EmitKind::Assembly);
    assert!(ctx.target().target_triple.is_none());
}
