//! A recording backend: the concrete realization of the backend
//! abstraction that keeps the whole module as plain data.
//!
//! Where the LLVM realization hands declarations and instructions to a
//! native library, this backend records them, so that what the pipeline
//! emits can be inspected, compared and tested value by value.

use vstd::prelude::*;
use vstd::string::*;

use crate::calling_convention::function::{fn_abi_of_ret_and_args, FnAbi};
use crate::index_vec::IdxVec;
use crate::layout::TyAndLayout;
use crate::lir::{
    CallConvUtils, Linkage, LirBody, LirBodyMetadata, LirCtx, LirUnit, UnnamedAddress, Visibility,
};
use crate::size_and_align::{Align, Size};
use crate::ssa::entry::{body_lowerable, compile_lir_unit};
use crate::ssa::lir::{codegen_lir_body, OperandRef, PlaceRef};
use crate::ssa::traits::{
    BuiltInst, BuilderMethods, CodegenBackend, CodegenBackendTypes, CodegenMethods,
    DefineCodegenMethods, FnAbiOf, FnDecl, LayoutOf, PreDefineCodegenMethods,
};
use crate::syntax::{ConstScalar, LirTy, Local, LocalData};

verus! {

/// A value as this backend records it: a constant with its bits, or the
/// result of an earlier instruction, named by its number.
#[derive(Debug, Clone, Copy, PartialEq, Eq, Structural)]
pub enum RecordValue {
    /// A constant: the low `size` bytes of `bits`.
    Const {
        /// The constant's bits; bytes beyond `size` are zero.
        bits: u128,
        /// The constant's size in bytes.
        size: u64,
    },
    /// The result of the instruction numbered `id`.
    Inst {
        /// The number of the instruction that produced this value.
        id: u64,
    },
}

/// One recorded instruction.
#[derive(Debug, Clone, Copy, PartialEq, Eq, Structural)]
pub enum RecordInst {
    /// Stack storage of `size` bytes aligned to `align` bytes; the result
    /// `id` is the pointer to it.
    Alloca {
        /// The number of the resulting pointer value.
        id: u64,
        /// The number of bytes allocated.
        size: u64,
        /// The alignment of the storage, in bytes.
        align: u64,
    },
    /// A load through `ptr` with the given alignment, producing value `id`.
    Load {
        /// The number of the loaded value.
        id: u64,
        /// The pointer loaded through.
        ptr: RecordValue,
        /// The alignment of the access, in bytes.
        align: u64,
    },
    /// A return: of a value, or void when there is none.
    Ret(Option<RecordValue>),
}

/// One recorded basic block: its label and its instructions in emission
/// order.
#[derive(Debug, Clone, PartialEq, Eq)]
pub struct RecordBlock {
    /// The block's label.
    pub name: String,
    /// The instructions, in the order they were emitted.
    pub insts: Vec<RecordInst>,
}

/// One recorded function: its symbol data, signature, and blocks.
#[derive(Debug, Clone, PartialEq, Eq)]
pub struct RecordFunction {
    /// The symbol name.
    pub name: String,
    /// The linkage of the symbol.
    pub linkage: Linkage,
    /// The visibility of the symbol.
    pub visibility: Visibility,
    /// How significant the symbol's address is.
    pub unnamed_address: UnnamedAddress,
    /// The calling convention, as the backend numbers it.
    pub call_conv: u32,
    /// The LIR type of the return slot.
    pub ret_ty: LirTy,
    /// The LIR types of the formal parameters, in order.
    pub params: Vec<LirTy>,
    /// The function's basic blocks, in creation order.
    pub blocks: Vec<RecordBlock>,
}

/// A placeholder handle for the backend notions this backend does not
/// need to distinguish: function types and metadata.
#[derive(Debug, Clone, Copy, PartialEq, Eq, Structural)]
pub struct RecordToken;

/// A handle to one recorded basic block: which function, which block.
#[derive(Debug, Clone, Copy, PartialEq, Eq, Structural)]
pub struct RecordBlockId {
    /// The index of the function the block belongs to.
    pub func: usize,
    /// The index of the block inside its function.
    pub block: usize,
}

/// The backend-neutral shape of one recorded instruction.
pub open spec fn spec_inst_shape(i: RecordInst) -> BuiltInst<RecordValue> {
    match i {
        RecordInst::Alloca { id, size, align } => BuiltInst::Alloca {
            size: Size(size),
            align: Align(align),
            result: RecordValue::Inst { id },
        },
        RecordInst::Load { id, ptr, align } => BuiltInst::Load {
            ptr,
            align: Align(align),
            result: RecordValue::Inst { id },
        },
        RecordInst::Ret(rv) => BuiltInst::Ret(rv),
    }
}

/// The map that an association list of `(identifier, function index)`
/// pairs stands for; a later pair wins.
pub open spec fn ids_map(s: Seq<(usize, usize)>) -> Map<int, usize>
    decreases s.len(),
{
    if s.len() == 0 {
        Map::empty()
    } else {
        ids_map(s.drop_last()).insert(s.last().0 as int, s.last().1)
    }
}

/// Searches the first `n` pairs of `ids` for `key`, the latest pair
/// winning, as the map the list stands for does.
fn lookup_fn_id(ids: &Vec<(usize, usize)>, n: usize, key: usize) -> (r: Option<usize>)
    requires
        n <= ids@.len(),
    ensures
        ids_map(ids@.subrange(0, n as int)).dom().contains(key as int) ==> r is Some && r->0
            == ids_map(ids@.subrange(0, n as int))[key as int],
        !ids_map(ids@.subrange(0, n as int)).dom().contains(key as int) ==> r is None,
        r is Some ==> exists|i: int| 0 <= i < n && (#[trigger] ids@[i]).1 == r->0,
    decreases n,
{
    if n == 0 {
        proof {
            assert(ids@.subrange(0, 0) =~= Seq::<(usize, usize)>::empty());
        }
        None
    } else {
        let (k, v) = ids[n - 1];
        proof {
            assert(ids@.subrange(0, n as int).drop_last() =~= ids@.subrange(0, n as int - 1));
            assert(ids@.subrange(0, n as int).last() == ids@[n as int - 1]);
        }
        if k == key {
            proof {
                assert((#[trigger] ids@[n as int - 1]).1 == v);
            }
            Some(v)
        } else {
            lookup_fn_id(ids, n - 1, key)
        }
    }
}

/// The recording backend's context: the compilation context, the module
/// recorded so far, and the map from body identifier to function index.
#[derive(Debug)]
pub struct RecordCtx {
    /// The compilation context this backend compiles under.
    pub lir_ctx: LirCtx,
    /// The functions recorded so far; a function index points here.
    pub functions: Vec<RecordFunction>,
    /// Pairs of body identifier and function index, in declaration order.
    pub fn_ids: Vec<(usize, usize)>,
    /// The number the next emitted instruction will get.
    pub next_value: u64,
}

impl RecordCtx {
    /// A well-formed recording context: its compilation context is
    /// well-formed and every registered function index points at a
    /// recorded function.
    pub open spec fn wf(&self) -> bool {
        &&& self.lir_ctx.wf()
        &&& forall|i: int|
            0 <= i < self.fn_ids@.len() ==> (#[trigger] self.fn_ids@[i]).1 < self.functions@.len()
    }

    /// Creates an empty recording context over the given compilation
    /// context.
    pub fn new(lir_ctx: LirCtx) -> (r: Self)
        requires
            lir_ctx.wf(),
        ensures
            r.wf(),
            r.lir_ctx == lir_ctx,
            r.functions@ == Seq::<RecordFunction>::empty(),
            r.fn_map() == Map::<int, usize>::empty(),
    {
        let r = RecordCtx { lir_ctx, functions: Vec::new(), fn_ids: Vec::new(), next_value: 0 };
        proof {
            assert(r.fn_ids@ =~= Seq::<(usize, usize)>::empty());
        }
        r
    }

    /// Hands out a fresh instruction number.
    fn fresh_id(&mut self) -> (r: u64)
        ensures
            final(self).lir_ctx == old(self).lir_ctx,
            final(self).functions == old(self).functions,
            final(self).fn_ids == old(self).fn_ids,
    {
        let id = self.next_value;
        if self.next_value < u64::MAX {
            self.next_value = self.next_value + 1;
        }
        id
    }

    /// Appends one instruction to the block `bb` points at; nothing else
    /// changes.
    fn push_inst(&mut self, bb: RecordBlockId, inst: RecordInst)
        requires
            old(self).wf(),
            old(self).bb_valid(bb),
        ensures
            final(self).wf(),
            final(self).lir_ctx == old(self).lir_ctx,
            final(self).fn_ids == old(self).fn_ids,
            final(self).next_value == old(self).next_value,
            final(self).functions@.len() == old(self).functions@.len(),
            forall|i: int|
                0 <= i < old(self).functions@.len() && i != bb.func ==> final(self).functions@[i]
                    == old(self).functions@[i],
            final(self).functions@[bb.func as int].blocks@.len() == old(self).functions@[
                bb.func as int].blocks@.len(),
            forall|b: RecordBlockId| #![trigger final(self).bb_valid(b)]
                old(self).bb_valid(b) ==> final(self).bb_valid(b),
            final(self).functions@[bb.func as int].blocks@[bb.block as int].insts@
                == old(self).functions@[bb.func as int].blocks@[bb.block as int].insts@.push(
                inst,
            ),
            forall|j: int|
                0 <= j < old(self).functions@[bb.func as int].blocks@.len() && j != bb.block
                    ==> final(self).functions@[bb.func as int].blocks@[j]
                    == old(self).functions@[bb.func as int].blocks@[j],
            final(self).insts(bb) == old(self).insts(bb).push(spec_inst_shape(inst)),
            forall|b: RecordBlockId| #![trigger final(self).insts(b)]
                old(self).bb_valid(b) && b != bb ==> final(self).insts(b) == old(self).insts(b),
            forall|f: usize| #![trigger final(self).fn_decl(f)]
                old(self).fn_valid(f) ==> final(self).fn_decl(f) == old(self).fn_decl(f),
    {
        let func = bb.func;
        let block = bb.block;
        self.functions[func].blocks[block].insts.push(inst);
        proof {
            assert forall|b: RecordBlockId| old(self).bb_valid(b) implies self.bb_valid(b) by {
                assert(self.functions@[b.func as int].blocks@.len()
                    == old(self).functions@[b.func as int].blocks@.len());
            }
            assert(self.insts(bb) =~= old(self).insts(bb).push(spec_inst_shape(inst)));
            assert forall|b: RecordBlockId|
                old(self).bb_valid(b) && b != bb implies self.insts(b) == old(self).insts(b) by {
                if b.func == bb.func {
                    assert(self.functions@[b.func as int].blocks@[b.block as int]
                        == old(self).functions@[b.func as int].blocks@[b.block as int]);
                }
            }
        }
    }

    /// Compiles a whole unit against this backend: declare every body,
    /// then define every body.
    pub fn compile_unit(&mut self, lir_unit: &LirUnit)
        requires
            old(self).wf(),
            lir_unit.distinct_def_ids(),
            forall|i: int|
                0 <= i < lir_unit.bodies@.len() ==> body_lowerable(#[trigger] lir_unit.bodies@[i]),
            forall|i: int|
                0 <= i < lir_unit.bodies@.len() ==> !old(self).fn_map().dom().contains(
                    (#[trigger] lir_unit.bodies@[i]).metadata.def_id.0 as int,
                ),
        ensures
            final(self).wf(),
            forall|i: int|
                0 <= i < lir_unit.bodies@.len() ==> final(self).fn_map().dom().contains(
                    (#[trigger] lir_unit.bodies@[i]).metadata.def_id.0 as int,
                ),
            forall|i: int|
                0 <= i < lir_unit.bodies@.len() ==> crate::ssa::entry::body_defined_in(
                    *final(self),
                    #[trigger] lir_unit.bodies@[i],
                ),
    {
        compile_lir_unit::<RecordBuilder>(self, lir_unit);
    }
}

impl CodegenBackendTypes for RecordCtx {
    type BasicBlock = RecordBlockId;

    type Type = LirTy;

    type Value = RecordValue;

    type FunctionType = RecordToken;

    type FunctionValue = usize;

    type MetadataType = RecordToken;

    type MetadataValue = RecordToken;
}

impl CodegenBackend for RecordCtx {
    type Module = Vec<RecordFunction>;

    type Context = ();
}

impl LayoutOf for RecordCtx {
    open spec fn layout_wf(&self) -> bool {
        self.wf()
    }

    fn layout_of(&self, ty: LirTy) -> TyAndLayout<LirTy> {
        self.lir_ctx.layout_of(ty)
    }
}

impl FnAbiOf for RecordCtx {
    fn fn_abi_of(&self, lir_ctx: &LirCtx, ret_and_args: &IdxVec<Local, LocalData>) -> FnAbi<
        LirTy,
    > {
        fn_abi_of_ret_and_args(lir_ctx, ret_and_args)
    }
}

impl PreDefineCodegenMethods for RecordCtx {
    open spec fn fn_map(&self) -> Map<int, usize> {
        ids_map(self.fn_ids@)
    }

    open spec fn fn_valid(&self, f: usize) -> bool {
        f < self.functions@.len()
    }

    open spec fn bb_valid(&self, bb: RecordBlockId) -> bool {
        &&& bb.func < self.functions@.len()
        &&& bb.block < self.functions@[bb.func as int].blocks@.len()
    }

    open spec fn insts(&self, bb: RecordBlockId) -> Seq<BuiltInst<RecordValue>> {
        self.functions@[bb.func as int].blocks@[bb.block as int].insts@.map_values(
            |i: RecordInst| spec_inst_shape(i),
        )
    }

    open spec fn fn_decl(&self, f: usize) -> FnDecl {
        let rf = self.functions@[f as int];
        FnDecl {
            name: rf.name@,
            linkage: rf.linkage,
            visibility: rf.visibility,
            unnamed_address: rf.unnamed_address,
            call_conv: rf.call_conv,
            ret_ty: rf.ret_ty,
            params: rf.params@,
        }
    }

    fn predefine_body(
        &mut self,
        lir_body_metadata: &LirBodyMetadata,
        lir_body_ret_and_args: &IdxVec<Local, LocalData>,
    ) {
        let ret_ty = lir_body_ret_and_args.index(Local(0)).ty;
        let n = lir_body_ret_and_args.len();
        let mut params: Vec<LirTy> = Vec::new();
        let mut k: usize = 1;
        while k < n
            invariant
                1 <= k <= n,
                n == lir_body_ret_and_args@.len(),
                params@.len() == k - 1,
                forall|i: int|
                    0 <= i < params@.len() ==> #[trigger] params@[i] == lir_body_ret_and_args@[i
                        + 1].ty,
            decreases n - k,
        {
            params.push(lir_body_ret_and_args.index(Local(k)).ty);
            k = k + 1;
        }
        proof {
            assert(params@ =~= Seq::new(
                (lir_body_ret_and_args@.len() - 1) as nat,
                |i: int| lir_body_ret_and_args@[i + 1].ty,
            ));
        }
        let function = RecordFunction {
            name: lir_body_metadata.name.clone(),
            linkage: lir_body_metadata.linkage,
            visibility: lir_body_metadata.visibility,
            unnamed_address: lir_body_metadata.unnamed_address,
            call_conv: lir_body_metadata.call_conv.into_call_conv(),
            ret_ty,
            params,
            blocks: Vec::new(),
        };
        let idx = self.functions.len();
        self.functions.push(function);
        self.fn_ids.push((lir_body_metadata.def_id.0, idx));
        proof {
            assert(self.fn_ids@.drop_last() =~= old(self).fn_ids@);
            assert(self.fn_map() =~= old(self).fn_map().insert(
                lir_body_metadata.def_id.0 as int,
                idx,
            ));
        }
    }
}

impl DefineCodegenMethods for RecordCtx {
    fn define_body(&mut self, lir_body: &LirBody) {
        codegen_lir_body::<RecordBuilder>(self, lir_body);
    }
}

impl CodegenMethods for RecordCtx {
    fn lir_ctx(&self) -> &LirCtx {
        &self.lir_ctx
    }

    fn get_fn(&self, lir_body_metadata: &LirBodyMetadata) -> (r: Option<usize>) {
        let n = self.fn_ids.len();
        proof {
            assert(self.fn_ids@.subrange(0, n as int) =~= self.fn_ids@);
        }
        lookup_fn_id(&self.fn_ids, n, lir_body_metadata.def_id.0)
    }

    fn get_or_define_fn(
        &mut self,
        lir_fn_metadata: &LirBodyMetadata,
        lir_fn_ret_and_args: &IdxVec<Local, LocalData>,
    ) -> (r: usize) {
        match self.get_fn(lir_fn_metadata) {
            Some(fn_val) => fn_val,
            None => {
                self.predefine_body(lir_fn_metadata, lir_fn_ret_and_args);
                match self.get_fn(lir_fn_metadata) {
                    Some(fn_val) => fn_val,
                    None => {
                        proof {
                            assert(false);
                        }
                        0
                    },
                }
            },
        }
    }
}

/// The recording backend's builder: it remembers the block it is
/// positioned at and appends instructions to it.
#[derive(Debug, Clone, Copy)]
pub struct RecordBuilder {
    /// The block this builder appends to.
    pub bb: RecordBlockId,
}

impl CodegenBackendTypes for RecordBuilder {
    type BasicBlock = RecordBlockId;

    type Type = LirTy;

    type Value = RecordValue;

    type FunctionType = RecordToken;

    type FunctionValue = usize;

    type MetadataType = RecordToken;

    type MetadataValue = RecordToken;
}

impl BuilderMethods for RecordBuilder {
    type CodegenCtx = RecordCtx;

    open spec fn at_bb(&self) -> RecordBlockId {
        self.bb
    }

    fn build(ctx: &mut RecordCtx, bb: RecordBlockId) -> RecordBuilder {
        RecordBuilder { bb }
    }

    fn alloca(&mut self, ctx: &mut RecordCtx, size: Size, align: Align) -> RecordValue {
        let id = ctx.fresh_id();
        ctx.push_inst(self.bb, RecordInst::Alloca { id, size: size.bytes(), align: align.bytes() });
        RecordValue::Inst { id }
    }

    fn append_basic_block(ctx: &mut RecordCtx, fn_value: usize, name: &str) -> (r: RecordBlockId) {
        let block = ctx.functions[fn_value].blocks.len();
        let new_block = RecordBlock { name: name.to_owned(), insts: Vec::new() };
        ctx.functions[fn_value].blocks.push(new_block);
        proof {
            assert forall|b: RecordBlockId| old(ctx).bb_valid(b) implies ctx.bb_valid(b) by {
                assert(ctx.functions@[b.func as int].blocks@.len()
                    >= old(ctx).functions@[b.func as int].blocks@.len());
            }
        }
        RecordBlockId { func: fn_value, block }
    }

    fn build_return(&mut self, ctx: &mut RecordCtx, return_value: Option<RecordValue>) {
        ctx.push_inst(self.bb, RecordInst::Ret(return_value));
    }

    fn load_operand(&mut self, ctx: &mut RecordCtx, place_ref: &PlaceRef<RecordValue>) -> (r:
        OperandRef<RecordValue>) {
        if place_ref.ty_layout.layout.is_zst() {
            return OperandRef::new_zst(place_ref.ty_layout);
        }
        let llval = self.build_load(
            ctx,
            place_ref.ty_layout.ty,
            place_ref.place_val.value,
            place_ref.place_val.align,
        );
        OperandRef::new_immediate(llval, place_ref.ty_layout)
    }

    fn build_load(&mut self, ctx: &mut RecordCtx, ty: LirTy, ptr: RecordValue, align: Align) -> (r:
        RecordValue) {
        let id = ctx.fresh_id();
        ctx.push_inst(self.bb, RecordInst::Load { id, ptr, align: align.bytes() });
        RecordValue::Inst { id }
    }

    fn const_scalar_to_backend_value(
        &mut self,
        ctx: &mut RecordCtx,
        const_scalar: ConstScalar,
        ty_layout: TyAndLayout<LirTy>,
    ) -> (r: RecordValue) {
        match const_scalar {
            ConstScalar::Value(raw_scalar_value) => {
                let bits = raw_scalar_value.to_bits(ty_layout.layout.size);
                RecordValue::Const { bits, size: ty_layout.layout.size.bytes() }
            },
        }
    }
}

} // verus!
