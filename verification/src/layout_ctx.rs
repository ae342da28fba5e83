//! The layout engine: maps an LIR type to its size, alignment, and backend
//! representation.

use vstd::prelude::*;

use crate::layout::{BackendRepr, Layout, Primitive, TyAndLayout};
use crate::lir::LirCtx;
use crate::size_and_align::{is_power_of_two, AbiAndPrefAlign, Align, Size};
use crate::syntax::LirTy;
use crate::target::even_align;

verus! {

/// The layout of each LIR type under the default data layout: integers are
/// scalars of their natural size, `Metadata` is a zero-sized memory value.
pub open spec fn spec_layout_of(ty: LirTy) -> TyAndLayout<LirTy> {
    let layout = match ty {
        LirTy::I8 => Layout {
            size: Size(1),
            align: even_align(1),
            backend_repr: BackendRepr::Scalar(Primitive::I8),
        },
        LirTy::I16 => Layout {
            size: Size(2),
            align: even_align(2),
            backend_repr: BackendRepr::Scalar(Primitive::I16),
        },
        LirTy::I32 => Layout {
            size: Size(4),
            align: even_align(4),
            backend_repr: BackendRepr::Scalar(Primitive::I32),
        },
        LirTy::I64 => Layout {
            size: Size(8),
            align: AbiAndPrefAlign { abi: Align(4), pref: Align(8) },
            backend_repr: BackendRepr::Scalar(Primitive::I64),
        },
        LirTy::I128 => Layout {
            size: Size(16),
            align: AbiAndPrefAlign { abi: Align(4), pref: Align(8) },
            backend_repr: BackendRepr::Scalar(Primitive::I128),
        },
        LirTy::Metadata => Layout {
            size: Size(0),
            align: even_align(1),
            backend_repr: BackendRepr::Memory,
        },
    };
    TyAndLayout { ty, layout }
}

/// The layout engine. It borrows the compilation context, whose data layout
/// the computed alignments come from.
pub struct LayoutCtx<'a> {
    /// The compilation context the engine reads the data layout from.
    pub lir_ty_ctx: &'a LirCtx,
}

impl<'a> LayoutCtx<'a> {
    /// Creates a layout engine over the given context.
    pub fn new(lir_ty_ctx: &'a LirCtx) -> (r: Self)
        ensures
            r.lir_ty_ctx == lir_ty_ctx,
    {
        LayoutCtx { lir_ty_ctx }
    }

    /// Computes the layout of `ty`: the size and representation are fixed
    /// by the type; the alignment comes from the context's data layout.
    /// Under the default data layout the result is `spec_layout_of`.
    pub fn compute_layout(&self, ty: LirTy) -> (r: TyAndLayout<LirTy>)
        ensures
            r.ty == ty,
            r.layout.size == spec_layout_of(ty).layout.size,
            r.layout.backend_repr == spec_layout_of(ty).layout.backend_repr,
            r.layout.align == (match ty {
                LirTy::I8 => self.lir_ty_ctx.target.data_layout.i8_align,
                LirTy::I16 => self.lir_ty_ctx.target.data_layout.i16_align,
                LirTy::I32 => self.lir_ty_ctx.target.data_layout.i32_align,
                LirTy::I64 => self.lir_ty_ctx.target.data_layout.i64_align,
                LirTy::I128 => self.lir_ty_ctx.target.data_layout.i128_align,
                LirTy::Metadata => even_align(1),
            }),
            self.lir_ty_ctx.wf() ==> r == spec_layout_of(ty),
    {
        let data_layout = &self.lir_ty_ctx.target().data_layout;
        let (size, align, backend_repr) = match ty {
            LirTy::I8 => (
                Size::from_bits(8),
                data_layout.i8_align,
                BackendRepr::Scalar(Primitive::I8),
            ),
            LirTy::I16 => (
                Size::from_bits(16),
                data_layout.i16_align,
                BackendRepr::Scalar(Primitive::I16),
            ),
            LirTy::I32 => (
                Size::from_bits(32),
                data_layout.i32_align,
                BackendRepr::Scalar(Primitive::I32),
            ),
            LirTy::I64 => (
                Size::from_bits(64),
                data_layout.i64_align,
                BackendRepr::Scalar(Primitive::I64),
            ),
            LirTy::I128 => (
                Size::from_bits(128),
                data_layout.i128_align,
                BackendRepr::Scalar(Primitive::I128),
            ),
            LirTy::Metadata => (
                Size::from_bits(0),
                AbiAndPrefAlign::new(1, 1),
                BackendRepr::Memory,
            ),
        };
        TyAndLayout { ty, layout: Layout { size, align, backend_repr } }
    }
}

/// Every primitive LIR type has a size of zero, one, two, four, eight or
/// sixteen bytes, and an ABI alignment that is a power of two.
pub proof fn lemma_layout_size_and_align(ty: LirTy)
    ensures
        spec_layout_of(ty).layout.size.0 == 0 || spec_layout_of(ty).layout.size.0 == 1
            || spec_layout_of(ty).layout.size.0 == 2 || spec_layout_of(ty).layout.size.0 == 4
            || spec_layout_of(ty).layout.size.0 == 8 || spec_layout_of(ty).layout.size.0 == 16,
        is_power_of_two(spec_layout_of(ty).layout.align.abi.0 as int),
{
    reveal_with_fuel(is_power_of_two, 4);
}

/// A layout is never both scalar-shaped and zero-sized: a zero-sized type
/// is always memory-shaped, and under the default data layout the only
/// zero-sized primitive is `Metadata`.
pub proof fn lemma_zst_is_memory(ty: LirTy)
    ensures
        spec_layout_of(ty).layout.spec_is_zst() ==> spec_layout_of(ty).layout.spec_is_memory(),
        spec_layout_of(ty).layout.spec_is_zst() <==> ty == LirTy::Metadata,
{
}

} // verus!
