//! The backend abstraction: capability traits that isolate the
//! IR-walking pipeline from any particular code-generation backend.
//!
//! The contracts model what every backend must honor: the function map is
//! populated by `predefine_body` and never overwrites an entry, a handle
//! once handed out stays valid, and layout and ABI computations agree with
//! the layout engine.

use vstd::prelude::*;

use crate::calling_convention::function::{is_fn_abi_of, FnAbi};
use crate::index_vec::IdxVec;
use crate::layout::TyAndLayout;
use crate::layout_ctx::spec_layout_of;
use crate::lir::{
    CallConvUtils, Linkage, LirBody, LirBodyMetadata, LirCtx, UnnamedAddress, Visibility,
};
use crate::size_and_align::{Align, Size};
use crate::ssa::entry::body_lowerable;
use crate::ssa::lir::{OperandRef, PlaceRef};
use crate::syntax::{ConstScalar, LirTy, Local, LocalData};

verus! {

/// Computing layouts of LIR types.
pub trait LayoutOf {
    /// Whether this context is in a state where layout computation and the
    /// backend's bookkeeping are trustworthy. Constructors establish it and
    /// every operation preserves it.
    spec fn layout_wf(&self) -> bool;

    /// Returns the layout of the given type, as the layout engine computes
    /// it.
    fn layout_of(&self, ty: LirTy) -> (r: TyAndLayout<LirTy>)
        requires
            self.layout_wf(),
        ensures
            r == spec_layout_of(ty),
    ;
}

/// Computing function ABIs.
pub trait FnAbiOf {
    /// Returns the function ABI for the given return-and-arguments slots.
    fn fn_abi_of(&self, lir_ctx: &LirCtx, ret_and_args: &IdxVec<Local, LocalData>) -> (r: FnAbi<
        LirTy,
    >)
        requires
            lir_ctx.wf(),
            ret_and_args@.len() >= 1,
        ensures
            is_fn_abi_of(r, ret_and_args@),
    ;
}

/// The opaque handle types of a code-generation backend. All are
/// lightweight copyable values whose meaning the backend defines.
pub trait CodegenBackendTypes {
    /// A basic block in the backend.
    type BasicBlock: Copy;

    /// A type in the backend.
    type Type: Copy;

    /// A value in the backend: an instruction result, a constant, or an
    /// argument.
    type Value: Copy;

    /// A function type in the backend.
    type FunctionType: Copy;

    /// A function value in the backend.
    type FunctionValue: Copy;

    /// A metadata type in the backend.
    type MetadataType: Copy;

    /// A metadata value in the backend.
    type MetadataValue: Copy;
}

/// The backend's whole-module types.
pub trait CodegenBackend: Sized + CodegenBackendTypes {
    /// The backend's module: the artifact under construction.
    type Module;

    /// The backend's host context that owns types and values.
    type Context;
}

/// The backend-neutral shape of one emitted instruction, for stating what
/// a builder call appended to a block.
pub enum BuiltInst<V> {
    /// Stack storage of `size` bytes aligned to `align` bytes; `result` is
    /// the returned pointer value.
    Alloca {
        /// The number of bytes allocated.
        size: Size,
        /// The alignment of the storage.
        align: Align,
        /// The pointer value the allocation produced.
        result: V,
    },
    /// A load through `ptr` with the given alignment; `result` is the
    /// loaded value.
    Load {
        /// The pointer loaded through.
        ptr: V,
        /// The alignment of the access.
        align: Align,
        /// The value the load produced.
        result: V,
    },
    /// A return of the given value, or of void for `None`.
    Ret(Option<V>),
}

/// The declaration a backend materialized for one function symbol.
#[verifier::ext_equal]
pub struct FnDecl {
    /// The symbol name.
    pub name: Seq<char>,
    /// The linkage of the symbol.
    pub linkage: Linkage,
    /// The visibility of the symbol.
    pub visibility: Visibility,
    /// How significant the symbol's address is.
    pub unnamed_address: UnnamedAddress,
    /// The calling convention, as the backend numbers it.
    pub call_conv: u32,
    /// The LIR type of the return slot.
    pub ret_ty: LirTy,
    /// The LIR types of the formal parameters, in order.
    pub params: Seq<LirTy>,
}

/// The declaration that a body's metadata and slots call for.
pub open spec fn spec_fn_decl(m: LirBodyMetadata, ret_and_args: Seq<LocalData>) -> FnDecl {
    FnDecl {
        name: m.name@,
        linkage: m.linkage,
        visibility: m.visibility,
        unnamed_address: m.unnamed_address,
        call_conv: m.call_conv.spec_call_conv(),
        ret_ty: ret_and_args[0].ty,
        params: Seq::new((ret_and_args.len() - 1) as nat, |i: int| ret_and_args[i + 1].ty),
    }
}

/// Declaring functions ahead of their bodies. All declarations of a unit
/// complete before any body is defined, so every callee handle exists
/// before a body could reference it.
pub trait PreDefineCodegenMethods: Sized + CodegenBackendTypes + LayoutOf {
    /// The handles of the functions declared so far, keyed by the number of
    /// the body's `DefId`.
    spec fn fn_map(&self) -> Map<int, Self::FunctionValue>;

    /// Whether a function handle is one this context handed out.
    spec fn fn_valid(&self, f: Self::FunctionValue) -> bool;

    /// Whether a basic-block handle is one this context handed out.
    spec fn bb_valid(&self, bb: Self::BasicBlock) -> bool;

    /// The instructions emitted so far into the given block, in order.
    spec fn insts(&self, bb: Self::BasicBlock) -> Seq<BuiltInst<Self::Value>>;

    /// The declaration materialized for the given function handle.
    spec fn fn_decl(&self, f: Self::FunctionValue) -> FnDecl;

    /// Declares the body: materializes a function declaration with the
    /// metadata's linkage, visibility, address significance and calling
    /// convention, and registers its handle under the body's identifier.
    /// The identifier must be fresh: the map never overwrites an entry.
    fn predefine_body(
        &mut self,
        lir_body_metadata: &LirBodyMetadata,
        lir_body_ret_and_args: &IdxVec<Local, LocalData>,
    )
        requires
            old(self).layout_wf(),
            !old(self).fn_map().dom().contains(lir_body_metadata.def_id.0 as int),
            lir_body_ret_and_args@.len() >= 1,
        ensures
            final(self).layout_wf(),
            forall|f: Self::FunctionValue| #![trigger final(self).fn_valid(f)]
                old(self).fn_valid(f) ==> final(self).fn_valid(f),
            forall|b: Self::BasicBlock| #![trigger final(self).bb_valid(b)]
                old(self).bb_valid(b) ==> final(self).bb_valid(b),
            final(self).fn_map() == old(self).fn_map().insert(
                lir_body_metadata.def_id.0 as int,
                final(self).fn_map()[lir_body_metadata.def_id.0 as int],
            ),
            final(self).fn_valid(final(self).fn_map()[lir_body_metadata.def_id.0 as int]),
            final(self).fn_decl(final(self).fn_map()[lir_body_metadata.def_id.0 as int])
                == spec_fn_decl(*lir_body_metadata, lir_body_ret_and_args@),
            forall|b: Self::BasicBlock| #![trigger final(self).insts(b)]
                old(self).bb_valid(b) ==> final(self).insts(b) == old(self).insts(b),
            forall|f: Self::FunctionValue| #![trigger final(self).fn_decl(f)]
                old(self).fn_valid(f) ==> final(self).fn_decl(f) == old(self).fn_decl(f),
    ;
}

/// What every backend operation preserves of a context: its
/// well-formedness, and the validity of every handle already handed out.
pub open spec fn ctx_valid_frame<C: PreDefineCodegenMethods>(pre: C, post: C) -> bool {
    &&& post.layout_wf()
    &&& forall|f: C::FunctionValue| #![trigger post.fn_valid(f)]
        pre.fn_valid(f) ==> post.fn_valid(f)
    &&& forall|b: C::BasicBlock| #![trigger post.bb_valid(b)]
        pre.bb_valid(b) ==> post.bb_valid(b)
}

/// What an operation that leaves the function map alone preserves: the
/// valid-handle frame, and the map itself.
pub open spec fn ctx_frame<C: PreDefineCodegenMethods>(pre: C, post: C) -> bool {
    &&& ctx_valid_frame(pre, post)
    &&& post.fn_map() == pre.fn_map()
}

/// No block the context had handed out changes its instructions.
pub open spec fn insts_frame<C: PreDefineCodegenMethods>(pre: C, post: C) -> bool {
    forall|b: C::BasicBlock| #![trigger post.insts(b)]
        pre.bb_valid(b) ==> post.insts(b) == pre.insts(b)
}

/// No function the context had handed out changes its declaration.
pub open spec fn decls_frame<C: PreDefineCodegenMethods>(pre: C, post: C) -> bool {
    forall|f: C::FunctionValue| #![trigger post.fn_decl(f)]
        pre.fn_valid(f) ==> post.fn_decl(f) == pre.fn_decl(f)
}

/// Exactly one instruction was emitted, into block `bb`: it got `inst` at
/// its end, and every other handed-out block is unchanged.
pub open spec fn emits_one<C: PreDefineCodegenMethods>(
    pre: C,
    post: C,
    bb: C::BasicBlock,
    inst: BuiltInst<C::Value>,
) -> bool {
    &&& post.insts(bb) == pre.insts(bb).push(inst)
    &&& forall|b: C::BasicBlock| #![trigger post.insts(b)]
        pre.bb_valid(b) && b != bb ==> post.insts(b) == pre.insts(b)
}

/// Defining (compiling) the body of an already-declared function.
pub trait DefineCodegenMethods: Sized + CodegenBackendTypes + LayoutOf + PreDefineCodegenMethods {
    /// Compiles the body against this backend. The body's declaration must
    /// already stand in the function map: declaration precedes definition.
    fn define_body(&mut self, lir_body: &LirBody)
        requires
            old(self).layout_wf(),
            body_lowerable(*lir_body),
            old(self).fn_map().dom().contains(lir_body.metadata.def_id.0 as int),
        ensures
            final(self).layout_wf(),
            forall|f: Self::FunctionValue| #![trigger final(self).fn_valid(f)]
                old(self).fn_valid(f) ==> final(self).fn_valid(f),
            forall|b: Self::BasicBlock| #![trigger final(self).bb_valid(b)]
                old(self).bb_valid(b) ==> final(self).bb_valid(b),
            final(self).fn_map() == old(self).fn_map(),
            insts_frame(*old(self), *final(self)),
            decls_frame(*old(self), *final(self)),
            crate::ssa::entry::body_defined_in(*final(self), *lir_body),
    ;
}

/// The full set of context-level backend operations.
pub trait CodegenMethods:
    Sized
    + LayoutOf
    + FnAbiOf
    + CodegenBackendTypes
    + CodegenBackend
    + PreDefineCodegenMethods
    + DefineCodegenMethods {
    /// Returns the compilation context this backend compiles under.
    fn lir_ctx(&self) -> (r: &LirCtx)
        ensures
            self.layout_wf() ==> r.wf(),
    ;

    /// Returns the handle of the body's declaration, when one exists.
    fn get_fn(&self, lir_body_metadata: &LirBodyMetadata) -> (r: Option<Self::FunctionValue>)
        requires
            self.layout_wf(),
        ensures
            self.fn_map().dom().contains(lir_body_metadata.def_id.0 as int) ==> r is Some && r->0
                == self.fn_map()[lir_body_metadata.def_id.0 as int] && self.fn_valid(r->0),
            !self.fn_map().dom().contains(lir_body_metadata.def_id.0 as int) ==> r is None,
    ;

    /// Returns the handle of the body's declaration, declaring it first
    /// when it does not exist yet. A handle that was already declared is
    /// returned unchanged: it stays the same for the lifetime of the unit.
    fn get_or_define_fn(
        &mut self,
        lir_fn_metadata: &LirBodyMetadata,
        lir_fn_ret_and_args: &IdxVec<Local, LocalData>,
    ) -> (r: Self::FunctionValue)
        requires
            old(self).layout_wf(),
            lir_fn_ret_and_args@.len() >= 1,
        ensures
            final(self).layout_wf(),
            forall|f: Self::FunctionValue| #![trigger final(self).fn_valid(f)]
                old(self).fn_valid(f) ==> final(self).fn_valid(f),
            forall|b: Self::BasicBlock| #![trigger final(self).bb_valid(b)]
                old(self).bb_valid(b) ==> final(self).bb_valid(b),
            final(self).fn_valid(r),
            final(self).fn_map().dom().contains(lir_fn_metadata.def_id.0 as int),
            r == final(self).fn_map()[lir_fn_metadata.def_id.0 as int],
            old(self).fn_map().dom().contains(lir_fn_metadata.def_id.0 as int)
                ==> final(self).fn_map() == old(self).fn_map(),
            !old(self).fn_map().dom().contains(lir_fn_metadata.def_id.0 as int)
                ==> final(self).fn_map() == old(self).fn_map().insert(
                lir_fn_metadata.def_id.0 as int,
                r,
            ) && final(self).fn_decl(r) == spec_fn_decl(*lir_fn_metadata, lir_fn_ret_and_args@),
            insts_frame(*old(self), *final(self)),
            decls_frame(*old(self), *final(self)),
    ;
}

/// A builder positioned at the end of one basic block, through which
/// instructions are emitted.
pub trait BuilderMethods: Sized + CodegenBackendTypes {
    /// The context type this builder emits into.
    type CodegenCtx: CodegenMethods<
        BasicBlock = Self::BasicBlock,
        Type = Self::Type,
        Value = Self::Value,
        FunctionType = Self::FunctionType,
        FunctionValue = Self::FunctionValue,
        MetadataType = Self::MetadataType,
        MetadataValue = Self::MetadataValue,
    >;

    /// The block this builder is positioned at.
    spec fn at_bb(&self) -> Self::BasicBlock;

    /// Creates a builder positioned at the end of `bb`.
    fn build(ctx: &mut Self::CodegenCtx, bb: Self::BasicBlock) -> (r: Self)
        requires
            old(ctx).layout_wf(),
            old(ctx).bb_valid(bb),
        ensures
            r.at_bb() == bb,
            final(ctx).layout_wf(),
            final(ctx).fn_map() == old(ctx).fn_map(),
            forall|f: Self::FunctionValue| #![trigger final(ctx).fn_valid(f)]
                old(ctx).fn_valid(f) ==> final(ctx).fn_valid(f),
            forall|b: Self::BasicBlock| #![trigger final(ctx).bb_valid(b)]
                old(ctx).bb_valid(b) ==> final(ctx).bb_valid(b),
            insts_frame(*old(ctx), *final(ctx)),
            decls_frame(*old(ctx), *final(ctx)),
    ;

    /// Emits stack storage of exactly the requested size and alignment and
    /// returns the pointer to it. The caller keeps it reachable from the
    /// function's entry.
    fn alloca(&mut self, ctx: &mut Self::CodegenCtx, size: Size, align: Align) -> (r: Self::Value)
        requires
            old(ctx).layout_wf(),
            old(ctx).bb_valid(old(self).at_bb()),
        ensures
            final(self).at_bb() == old(self).at_bb(),
            final(ctx).layout_wf(),
            final(ctx).fn_map() == old(ctx).fn_map(),
            forall|f: Self::FunctionValue| #![trigger final(ctx).fn_valid(f)]
                old(ctx).fn_valid(f) ==> final(ctx).fn_valid(f),
            forall|b: Self::BasicBlock| #![trigger final(ctx).bb_valid(b)]
                old(ctx).bb_valid(b) ==> final(ctx).bb_valid(b),
            emits_one(
                *old(ctx),
                *final(ctx),
                old(self).at_bb(),
                BuiltInst::Alloca { size, align, result: r },
            ),
            decls_frame(*old(ctx), *final(ctx)),
    ;

    /// Appends a fresh basic block named `name` to the given function and
    /// returns its handle.
    fn append_basic_block(
        ctx: &mut Self::CodegenCtx,
        fn_value: Self::FunctionValue,
        name: &str,
    ) -> (r: Self::BasicBlock)
        requires
            old(ctx).layout_wf(),
            old(ctx).fn_valid(fn_value),
        ensures
            final(ctx).layout_wf(),
            final(ctx).fn_map() == old(ctx).fn_map(),
            forall|f: Self::FunctionValue| #![trigger final(ctx).fn_valid(f)]
                old(ctx).fn_valid(f) ==> final(ctx).fn_valid(f),
            forall|b: Self::BasicBlock| #![trigger final(ctx).bb_valid(b)]
                old(ctx).bb_valid(b) ==> final(ctx).bb_valid(b),
            final(ctx).bb_valid(r),
            !old(ctx).bb_valid(r),
            final(ctx).insts(r) == Seq::<BuiltInst<Self::Value>>::empty(),
            insts_frame(*old(ctx), *final(ctx)),
            decls_frame(*old(ctx), *final(ctx)),
    ;

    /// Emits a return. `None` returns void: the value is ignored, or it
    /// travels through the hidden pointer of an indirect return.
    fn build_return(&mut self, ctx: &mut Self::CodegenCtx, return_value: Option<Self::Value>)
        requires
            old(ctx).layout_wf(),
            old(ctx).bb_valid(old(self).at_bb()),
        ensures
            final(self).at_bb() == old(self).at_bb(),
            final(ctx).layout_wf(),
            final(ctx).fn_map() == old(ctx).fn_map(),
            forall|f: Self::FunctionValue| #![trigger final(ctx).fn_valid(f)]
                old(ctx).fn_valid(f) ==> final(ctx).fn_valid(f),
            forall|b: Self::BasicBlock| #![trigger final(ctx).bb_valid(b)]
                old(ctx).bb_valid(b) ==> final(ctx).bb_valid(b),
            emits_one(*old(ctx), *final(ctx), old(self).at_bb(), BuiltInst::Ret(return_value)),
            decls_frame(*old(ctx), *final(ctx)),
    ;

    /// Loads the operand a place holds. Only scalar and zero-sized layouts
    /// have a lowering so far: a zero-sized place yields a zero-sized
    /// operand, a scalar place an immediate.
    fn load_operand(&mut self, ctx: &mut Self::CodegenCtx, place_ref: &PlaceRef<Self::Value>) -> (r:
        OperandRef<Self::Value>)
        requires
            old(ctx).layout_wf(),
            old(ctx).bb_valid(old(self).at_bb()),
            !place_ref.ty_layout.layout.spec_is_zst()
                ==> place_ref.ty_layout.layout.spec_is_immediate(),
        ensures
            final(self).at_bb() == old(self).at_bb(),
            r.ty_layout == place_ref.ty_layout,
            place_ref.ty_layout.layout.spec_is_zst() ==> r.operand_val is Zst,
            !place_ref.ty_layout.layout.spec_is_zst() ==> r.operand_val is Immediate,
            final(ctx).layout_wf(),
            final(ctx).fn_map() == old(ctx).fn_map(),
            forall|f: Self::FunctionValue| #![trigger final(ctx).fn_valid(f)]
                old(ctx).fn_valid(f) ==> final(ctx).fn_valid(f),
            forall|b: Self::BasicBlock| #![trigger final(ctx).bb_valid(b)]
                old(ctx).bb_valid(b) ==> final(ctx).bb_valid(b),
            place_ref.ty_layout.layout.spec_is_zst() ==> insts_frame(*old(ctx), *final(ctx)),
            !place_ref.ty_layout.layout.spec_is_zst() ==> insts_frame(*old(ctx), *final(ctx))
                || emits_one(
                *old(ctx),
                *final(ctx),
                old(self).at_bb(),
                BuiltInst::Load {
                    ptr: place_ref.place_val.value,
                    align: place_ref.place_val.align,
                    result: r.operand_val->Immediate_0,
                },
            ),
            decls_frame(*old(ctx), *final(ctx)),
    ;

    /// Emits a load of the given type from `ptr` with the given alignment
    /// and returns the loaded value.
    fn build_load(
        &mut self,
        ctx: &mut Self::CodegenCtx,
        ty: Self::Type,
        ptr: Self::Value,
        align: Align,
    ) -> (r: Self::Value)
        requires
            old(ctx).layout_wf(),
            old(ctx).bb_valid(old(self).at_bb()),
        ensures
            final(self).at_bb() == old(self).at_bb(),
            final(ctx).layout_wf(),
            final(ctx).fn_map() == old(ctx).fn_map(),
            forall|f: Self::FunctionValue| #![trigger final(ctx).fn_valid(f)]
                old(ctx).fn_valid(f) ==> final(ctx).fn_valid(f),
            forall|b: Self::BasicBlock| #![trigger final(ctx).bb_valid(b)]
                old(ctx).bb_valid(b) ==> final(ctx).bb_valid(b),
            emits_one(
                *old(ctx),
                *final(ctx),
                old(self).at_bb(),
                BuiltInst::Load { ptr, align, result: r },
            ),
            decls_frame(*old(ctx), *final(ctx)),
    ;

    /// Materializes a scalar constant of the layout's size as a backend
    /// value: an integer of that many bytes, or a constant pointer. The
    /// scalar's size must agree with the layout's, and only scalar layouts
    /// are accepted.
    fn const_scalar_to_backend_value(
        &mut self,
        ctx: &mut Self::CodegenCtx,
        const_scalar: ConstScalar,
        ty_layout: TyAndLayout<LirTy>,
    ) -> (r: Self::Value)
        requires
            old(ctx).layout_wf(),
            old(ctx).bb_valid(old(self).at_bb()),
            ty_layout.layout.spec_is_immediate(),
            const_scalar->Value_0.wf(),
            const_scalar->Value_0.size as int == ty_layout.layout.size.0,
        ensures
            final(self).at_bb() == old(self).at_bb(),
            final(ctx).layout_wf(),
            final(ctx).fn_map() == old(ctx).fn_map(),
            forall|f: Self::FunctionValue| #![trigger final(ctx).fn_valid(f)]
                old(ctx).fn_valid(f) ==> final(ctx).fn_valid(f),
            forall|b: Self::BasicBlock| #![trigger final(ctx).bb_valid(b)]
                old(ctx).bb_valid(b) ==> final(ctx).bb_valid(b),
            insts_frame(*old(ctx), *final(ctx)),
            decls_frame(*old(ctx), *final(ctx)),
    ;
}

} // verus!
