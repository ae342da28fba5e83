//! Operand and place references, the three-state story of a local, and the
//! per-body driver of the lowering.

use vstd::prelude::*;

use crate::basic_blocks::BasicBlock;
use crate::calling_convention::function::is_fn_abi_of;
use crate::index_vec::IdxVec;
use crate::layout::TyAndLayout;
use crate::layout_ctx::spec_layout_of;
use crate::lir::LirBody;
use crate::size_and_align::{Align, Size};
use crate::ssa::entry::{
    body_blocks_traced, body_defined_in, body_lowerable, local_state_at, locals_state,
    ret_only_trace, FnCtx,
};
use crate::ssa::traits::{
    ctx_frame, decls_frame, emits_one, insts_frame, BuiltInst, BuilderMethods, CodegenMethods,
    FnAbiOf, LayoutOf, PreDefineCodegenMethods,
};
use crate::syntax::{ConstValue, LirTy, Local};

verus! {

/// A backend value paired with the alignment of the storage it points to:
/// the underlying storage of a place.
#[derive(Clone, Copy)]
pub struct PlaceVal<V> {
    /// The backend value of the storage, typically a pointer.
    pub value: V,
    /// The alignment of the storage.
    pub align: Align,
}

/// A memory location during code generation: its backend storage and the
/// type and layout of what it holds.
#[derive(Clone, Copy)]
pub struct PlaceRef<V> {
    /// The backend storage of this place.
    pub place_val: PlaceVal<V>,
    /// The type and layout of the value the place holds.
    pub ty_layout: TyAndLayout<LirTy>,
}

/// The backend shape of an operand value.
#[derive(Clone, Copy)]
pub enum OperandVal<V> {
    /// A zero-sized value: no data at all.
    Zst,
    /// A single immediate scalar.
    Immediate(V),
    /// Two scalars forming one compound value.
    Pair(V, V),
    /// A reference to a place in memory.
    Ref(PlaceVal<V>),
}

/// A computed value during code generation: usable directly, without a
/// memory location of its own.
#[derive(Clone, Copy)]
pub struct OperandRef<V> {
    /// The value's backend shape.
    pub operand_val: OperandVal<V>,
    /// The type and layout of the operand.
    pub ty_layout: TyAndLayout<LirTy>,
}

/// Whether a constant value agrees with the layout of its type: a scalar
/// constant needs a scalar layout of the same byte count, a zero-sized
/// constant a zero-sized layout.
pub open spec fn const_matches_layout(const_val: ConstValue, lir_ty: LirTy) -> bool {
    match const_val {
        ConstValue::ZST => spec_layout_of(lir_ty).layout.spec_is_zst(),
        ConstValue::Scalar(cs) => {
            &&& spec_layout_of(lir_ty).layout.spec_is_immediate()
            &&& cs->Value_0.wf()
            &&& cs->Value_0.size as int == spec_layout_of(lir_ty).layout.size.0
        },
    }
}

impl<V> OperandRef<V> {
    /// The operand of a zero-sized type: it has no data.
    pub fn new_zst(ty_layout: TyAndLayout<LirTy>) -> (r: Self)
        ensures
            r.ty_layout == ty_layout,
            r.operand_val is Zst,
    {
        OperandRef { operand_val: OperandVal::Zst, ty_layout }
    }

    /// An operand holding the given immediate value.
    pub fn new_immediate(value: V, ty_layout: TyAndLayout<LirTy>) -> (r: Self)
        ensures
            r.ty_layout == ty_layout,
            r.operand_val == OperandVal::Immediate(value),
    {
        OperandRef { operand_val: OperandVal::Immediate(value), ty_layout }
    }

    /// Materializes a constant as an operand: a scalar constant becomes an
    /// immediate, a zero-sized constant becomes the empty operand. The
    /// constant must match its type's layout.
    pub fn new_const<B: BuilderMethods<Value = V>>(
        builder: &mut B,
        ctx: &mut B::CodegenCtx,
        const_val: ConstValue,
        lir_ty: LirTy,
    ) -> (r: Self)
        requires
            old(ctx).layout_wf(),
            old(ctx).bb_valid(old(builder).at_bb()),
            const_matches_layout(const_val, lir_ty),
        ensures
            final(builder).at_bb() == old(builder).at_bb(),
            r.ty_layout == spec_layout_of(lir_ty),
            const_val is ZST ==> r.operand_val is Zst,
            const_val is Scalar ==> r.operand_val is Immediate,
            ctx_frame(*old(ctx), *final(ctx)),
            insts_frame(*old(ctx), *final(ctx)),
            decls_frame(*old(ctx), *final(ctx)),
    {
        let ty_layout = ctx.layout_of(lir_ty);
        let operand_val = match const_val {
            ConstValue::Scalar(const_scalar) => {
                let be_val = builder.const_scalar_to_backend_value(ctx, const_scalar, ty_layout);
                OperandVal::Immediate(be_val)
            },
            ConstValue::ZST => OperandVal::Zst,
        };
        OperandRef { operand_val, ty_layout }
    }
}

impl<V: Copy> PlaceVal<V> {
    /// Emits stack storage of the given size and alignment and wraps the
    /// returned pointer with that alignment.
    pub fn alloca<B: BuilderMethods<Value = V>>(
        builder: &mut B,
        ctx: &mut B::CodegenCtx,
        size: Size,
        align: Align,
    ) -> (r: Self)
        requires
            old(ctx).layout_wf(),
            old(ctx).bb_valid(old(builder).at_bb()),
        ensures
            final(builder).at_bb() == old(builder).at_bb(),
            r.align == align,
            ctx_frame(*old(ctx), *final(ctx)),
            emits_one(
                *old(ctx),
                *final(ctx),
                old(builder).at_bb(),
                BuiltInst::Alloca { size, align, result: r.value },
            ),
            decls_frame(*old(ctx), *final(ctx)),
    {
        let value = builder.alloca(ctx, size, align);
        PlaceVal { value, align }
    }

    /// Pairs this storage with the layout of what it holds.
    pub fn with_layout(self, layout: TyAndLayout<LirTy>) -> (r: PlaceRef<V>)
        ensures
            r.place_val == self,
            r.ty_layout == layout,
    {
        PlaceRef { place_val: self, ty_layout: layout }
    }
}

impl<V: Copy> PlaceRef<V> {
    /// Allocates addressable storage for a value of the given layout, with
    /// the layout's ABI alignment. Zero-sized layouts never get storage.
    pub fn alloca<B: BuilderMethods<Value = V>>(
        builder: &mut B,
        ctx: &mut B::CodegenCtx,
        ty_and_layout: TyAndLayout<LirTy>,
    ) -> (r: Self)
        requires
            old(ctx).layout_wf(),
            old(ctx).bb_valid(old(builder).at_bb()),
            !ty_and_layout.layout.spec_is_zst(),
        ensures
            final(builder).at_bb() == old(builder).at_bb(),
            r.ty_layout == ty_and_layout,
            r.place_val.align == ty_and_layout.layout.align.abi,
            ctx_frame(*old(ctx), *final(ctx)),
            emits_one(
                *old(ctx),
                *final(ctx),
                old(builder).at_bb(),
                BuiltInst::Alloca {
                    size: ty_and_layout.layout.size,
                    align: ty_and_layout.layout.align.abi,
                    result: r.place_val.value,
                },
            ),
            decls_frame(*old(ctx), *final(ctx)),
    {
        let pv = PlaceVal::alloca::<B>(
            builder,
            ctx,
            ty_and_layout.layout.size,
            ty_and_layout.layout.align.abi,
        );
        pv.with_layout(ty_and_layout)
    }
}

/// How a local lives during code generation.
///
/// A zero-sized local is an empty operand from the start; a memory-layout
/// local is addressable storage; a scalar local starts pending and becomes
/// an operand at its first assignment.
#[derive(Clone, Copy)]
pub enum LocalRef<V> {
    /// A local backed by addressable storage.
    PlaceRef(PlaceRef<V>),
    /// A local held as a direct operand value.
    OperandRef(OperandRef<V>),
    /// A scalar local waiting for its first assignment.
    PendingOperandRef,
}

/// Allocates the backing of one local from its type's layout: a zero-sized
/// local is an empty operand and never receives storage; a memory-layout
/// local gets addressable storage with the layout's alignment; a scalar
/// local is left pending until its first assignment.
pub fn allocate_local<B: BuilderMethods>(builder: &mut B, ctx: &mut B::CodegenCtx, ty: LirTy) -> (r:
    LocalRef<B::Value>)
    requires
        old(ctx).layout_wf(),
        old(ctx).bb_valid(old(builder).at_bb()),
    ensures
        final(builder).at_bb() == old(builder).at_bb(),
        spec_layout_of(ty).layout.spec_is_zst() ==> (r matches LocalRef::OperandRef(o)
            && o.ty_layout == spec_layout_of(ty) && o.operand_val is Zst),
        !spec_layout_of(ty).layout.spec_is_zst() && spec_layout_of(ty).layout.spec_is_memory()
            ==> (r matches LocalRef::PlaceRef(p) && p.ty_layout == spec_layout_of(ty)
            && p.place_val.align == spec_layout_of(ty).layout.align.abi),
        !spec_layout_of(ty).layout.spec_is_zst() && !spec_layout_of(ty).layout.spec_is_memory()
            ==> r is PendingOperandRef,
        ctx_frame(*old(ctx), *final(ctx)),
        decls_frame(*old(ctx), *final(ctx)),
        spec_layout_of(ty).layout.spec_is_zst() || !spec_layout_of(ty).layout.spec_is_memory()
            ==> insts_frame(*old(ctx), *final(ctx)),
        !spec_layout_of(ty).layout.spec_is_zst() && spec_layout_of(ty).layout.spec_is_memory()
            ==> (r matches LocalRef::PlaceRef(p) && emits_one(
                *old(ctx),
                *final(ctx),
                old(builder).at_bb(),
                BuiltInst::Alloca {
                    size: spec_layout_of(ty).layout.size,
                    align: spec_layout_of(ty).layout.align.abi,
                    result: p.place_val.value,
                },
            )),
{
    let layout = ctx.layout_of(ty);
    if layout.layout.is_zst() {
        // Zero-sized locals do not need to be allocated.
        LocalRef::OperandRef(OperandRef::new_zst(layout))
    } else if layout.layout.is_memory() {
        LocalRef::PlaceRef(PlaceRef::alloca::<B>(builder, ctx, layout))
    } else {
        LocalRef::PendingOperandRef
    }
}

/// Define (compile) one LIR body against the backend: compute its ABI,
/// fetch its predefined handle, allocate its locals, and lower its blocks
/// in index order.
pub fn codegen_lir_body<B: BuilderMethods>(ctx: &mut B::CodegenCtx, lir_body: &LirBody)
    requires
        old(ctx).layout_wf(),
        body_lowerable(*lir_body),
        old(ctx).fn_map().dom().contains(lir_body.metadata.def_id.0 as int),
    ensures
        ctx_frame(*old(ctx), *final(ctx)),
        insts_frame(*old(ctx), *final(ctx)),
        decls_frame(*old(ctx), *final(ctx)),
        body_defined_in(*final(ctx), *lir_body),
{
    let fn_abi = ctx.fn_abi_of(ctx.lir_ctx(), &lir_body.ret_and_args);
    let fn_value = ctx.get_or_define_fn(&lir_body.metadata, &lir_body.ret_and_args);
    let entry_bb = B::append_basic_block(ctx, fn_value, "entry");
    let mut start_builder = B::build(ctx, entry_bb);

    // Pre-create the block cache: the entry slot holds the entry block, all
    // other slots are still empty.
    let n_blocks = lir_body.basic_blocks.len();
    let mut cached_bbs: IdxVec<BasicBlock, Option<B::BasicBlock>> = IdxVec::new();
    let mut k: usize = 0;
    while k < n_blocks
        invariant
            k <= n_blocks,
            cached_bbs@.len() == k,
            k >= 1 ==> cached_bbs@[0] == Some(entry_bb),
            forall|i: int| 1 <= i < k ==> (#[trigger] cached_bbs@[i]) is None,
        decreases n_blocks - k,
    {
        if k == 0 {
            cached_bbs.push(Some(entry_bb));
        } else {
            cached_bbs.push(None);
        }
        k = k + 1;
    }

    // Allocate the return slot and the arguments, then the rest of the
    // locals.
    let mut locals: IdxVec<Local, LocalRef<B::Value>> = IdxVec::new();
    let n_ra = lir_body.ret_and_args.len();
    let n_all = n_ra + lir_body.locals.len();
    let mut l: usize = 0;
    while l < n_all
        invariant
            l <= n_all,
            n_ra == lir_body.ret_and_args@.len(),
            n_all == lir_body.spec_n_locals(),
            locals@.len() == l,
            ctx.layout_wf(),
            ctx.bb_valid(entry_bb),
            !old(ctx).bb_valid(entry_bb),
            start_builder.at_bb() == entry_bb,
            ctx_frame(*old(ctx), *ctx),
            insts_frame(*old(ctx), *ctx),
            decls_frame(*old(ctx), *ctx),
            ctx.insts(entry_bb) == Seq::<BuiltInst<B::Value>>::empty(),
            ctx.fn_valid(fn_value),
            forall|i: int|
                0 <= i < l ==> local_state_at(*lir_body, #[trigger] locals@[i], i, 0, 0),
        decreases n_all - l,
    {
        let local_data = if l < n_ra {
            *lir_body.ret_and_args.index(Local(l))
        } else {
            *lir_body.locals.index(Local(l - n_ra))
        };
        proof {
            // No primitive layout is memory-shaped without being zero-sized,
            // so allocation never emits storage here.
            crate::layout_ctx::lemma_zst_is_memory(local_data.ty);
        }
        let local_ref = allocate_local::<B>(&mut start_builder, ctx, local_data.ty);
        proof {
            crate::ssa::entry::lemma_nothing_assigned_at_start(*lir_body, l as int);
            assert(lir_body.spec_local_data(l as int) == local_data);
        }
        locals.push(local_ref);
        l = l + 1;
    }

    let mut fn_ctx: FnCtx<B> = FnCtx { fn_abi, fn_value, locals, cached_bbs };

    // The start builder's work is done; each block gets its own builder.
    let _ = start_builder;

    // Lower each basic block in index order.
    let ghost mode = crate::calling_convention::function::spec_arg_abi(
        lir_body.ret_and_args@[0].ty,
    ).mode;
    let mut bb: usize = 0;
    while bb < n_blocks
        invariant
            bb <= n_blocks,
            n_blocks == lir_body.basic_blocks@.len(),
            body_lowerable(*lir_body),
            is_fn_abi_of(fn_ctx.fn_abi, lir_body.ret_and_args@),
            fn_ctx.cached_bbs@.len() == n_blocks,
            locals_state(*lir_body, fn_ctx.locals@, bb as int, 0),
            ctx.layout_wf(),
            ctx.fn_valid(fn_ctx.fn_value),
            forall|i: int|
                0 <= i < fn_ctx.cached_bbs@.len() && (#[trigger] fn_ctx.cached_bbs@[i]) is Some
                    ==> ctx.bb_valid(fn_ctx.cached_bbs@[i]->0),
            ctx_frame(*old(ctx), *ctx),
            insts_frame(*old(ctx), *ctx),
            decls_frame(*old(ctx), *ctx),
            mode == crate::calling_convention::function::spec_arg_abi(
                lir_body.ret_and_args@[0].ty,
            ).mode,
            // Handles already created are fresh relative to the caller and
            // pairwise distinct, lowered blocks hold exactly their return,
            // and blocks not yet lowered are still empty.
            forall|i: int|
                0 <= i < fn_ctx.cached_bbs@.len() && (#[trigger] fn_ctx.cached_bbs@[i]) is Some
                    ==> !old(ctx).bb_valid(fn_ctx.cached_bbs@[i]->0),
            forall|i: int, j: int|
                0 <= i < j < fn_ctx.cached_bbs@.len() && (#[trigger] fn_ctx.cached_bbs@[i]) is Some
                    && (#[trigger] fn_ctx.cached_bbs@[j]) is Some ==> fn_ctx.cached_bbs@[i]->0
                    != fn_ctx.cached_bbs@[j]->0,
            forall|i: int|
                0 <= i < bb ==> (#[trigger] fn_ctx.cached_bbs@[i]) is Some && ret_only_trace(
                    ctx.insts(fn_ctx.cached_bbs@[i]->0),
                    mode,
                ),
            forall|i: int|
                bb <= i < fn_ctx.cached_bbs@.len() && (#[trigger] fn_ctx.cached_bbs@[i]) is Some
                    ==> ctx.insts(fn_ctx.cached_bbs@[i]->0) == Seq::<BuiltInst<B::Value>>::empty(),
        decreases n_blocks - bb,
    {
        let ghost pre_cached = fn_ctx.cached_bbs@;
        let ghost pre_ctx = *ctx;
        fn_ctx.codegen_basic_block(ctx, lir_body, BasicBlock(bb));
        proof {
            // Whether the block's handle was the pre-created entry or fresh,
            // it started empty, so it now holds exactly its return.
            let h = fn_ctx.cached_bbs@[bb as int]->0;
            assert(ret_only_trace(ctx.insts(h), mode)) by {
                if pre_cached[bb as int] is Some {
                    assert(pre_ctx.insts(h) == Seq::<BuiltInst<B::Value>>::empty());
                }
            }
        }
        bb = bb + 1;
    }
    proof {
        let ghost hs = Seq::new(
            lir_body.basic_blocks@.len() as nat,
            |k: int| fn_ctx.cached_bbs@[k]->0,
        );
        assert forall|k: int| 0 <= k < hs.len() implies ctx.bb_valid(#[trigger] hs[k])
            && ret_only_trace(ctx.insts(hs[k]), mode) by {
            assert(fn_ctx.cached_bbs@[k] is Some);
        }
        assert(body_blocks_traced(*ctx, *lir_body, hs));
        assert(body_defined_in(*ctx, *lir_body));
    }
}

} // verus!
