//! The per-function lowering: the state machine of locals, statement and
//! terminator lowering, and the two-phase driver of a whole unit.

use vstd::prelude::*;

use crate::basic_blocks::BasicBlock;
use crate::calling_convention::function::{is_fn_abi_of, spec_arg_abi, FnAbi, PassMode};
use crate::index_vec::IdxVec;
use crate::layout_ctx::spec_layout_of;
use crate::lir::{LirBody, LirUnit};
use crate::ssa::lir::{
    const_matches_layout, LocalRef, OperandRef, OperandVal,
};
use crate::ssa::traits::{
    ctx_frame, decls_frame, emits_one, insts_frame, BuiltInst, BuilderMethods, CodegenMethods,
    DefineCodegenMethods, LayoutOf, PreDefineCodegenMethods,
};
use crate::syntax::{Body, ConstOperand, Local, RValue, Statement, Terminator};
use crate::target::push_dec;
use vstd::string::*;

verus! {

/// Whether the statement at position `s` of block `b` assigns the whole of
/// local `l`.
pub open spec fn assigns_at(body: LirBody, b: int, s: int, l: int) -> bool {
    &&& 0 <= b < body.basic_blocks@.len()
    &&& 0 <= s < body.basic_blocks@[b].statements@.len()
    &&& match body.basic_blocks@[b].statements@[s] {
        Statement::Assign(bx) => bx.0.projection@.len() == 0 && bx.0.local.0 == l,
    }
}

/// Whether some statement strictly before position `(b, s)` — earlier
/// block, or same block and earlier statement — assigns the whole of local
/// `l`. A block's terminator sits after all its statements.
pub open spec fn assigned_before(body: LirBody, l: int, b: int, s: int) -> bool {
    exists|b2: int, s2: int|
        (b2 < b || (b2 == b && s2 < s)) && #[trigger] assigns_at(body, b2, s2, l)
}

/// A statement the lowering can handle: a whole-local assignment of a
/// constant whose value fits the declared type of the local.
pub open spec fn stmt_wf(body: LirBody, stmt: Statement) -> bool {
    match stmt {
        Statement::Assign(bx) => {
            &&& bx.0.projection@.len() == 0
            &&& 0 <= bx.0.local.0 < body.spec_n_locals()
            &&& match bx.1 {
                RValue::Const(co) => match co {
                    ConstOperand::Value(cv, ty) => {
                        &&& ty == body.spec_local_data(bx.0.local.0 as int).ty
                        &&& const_matches_layout(cv, ty)
                    },
                },
            }
        },
    }
}

/// Each local that is not zero-sized is assigned at most once: a scalar
/// local is a dataflow value produced by its single assignment.
pub open spec fn assigns_once(body: LirBody) -> bool {
    forall|b1: int, s1: int, b2: int, s2: int, l: int|
        #[trigger] assigns_at(body, b1, s1, l) && #[trigger] assigns_at(body, b2, s2, l)
            && !spec_layout_of(body.spec_local_data(l).ty).layout.spec_is_zst() ==> b1 == b2 && s1
            == s2
}

/// When the return travels directly, every block's terminator sees the
/// return local already assigned: no use before definition.
pub open spec fn return_ready(body: LirBody) -> bool {
    spec_arg_abi(body.ret_and_args@[0].ty).mode == PassMode::Direct ==> forall|b: int|
        0 <= b < body.basic_blocks@.len() ==> assigned_before(
            body,
            0,
            b,
            #[trigger] body.basic_blocks@[b].statements@.len() as int,
        )
}

/// A body the lowering can compile: structurally well-formed, every
/// statement handled, single assignment of non-zero-sized locals, and the
/// return local defined before every return.
pub open spec fn body_lowerable(body: LirBody) -> bool {
    &&& body.structurally_wf()
    &&& body.spec_n_locals() <= usize::MAX
    &&& forall|b: int, s: int|
        0 <= b < body.basic_blocks@.len() && 0 <= s < body.basic_blocks@[b].statements@.len()
            ==> stmt_wf(body, #[trigger] body.basic_blocks@[b].statements@[s])
    &&& assigns_once(body)
    &&& return_ready(body)
}

/// The state of one local at position `(b, s)` of the lowering.
///
/// A zero-sized local is an empty operand from allocation on; a
/// memory-layout local is addressable storage with the layout's ABI
/// alignment; a scalar local is pending until its assignment has been
/// lowered and an immediate operand afterwards.
pub open spec fn local_state_at<V>(body: LirBody, lr: LocalRef<V>, l: int, b: int, s: int) -> bool {
    let lay = spec_layout_of(body.spec_local_data(l).ty);
    if lay.layout.spec_is_zst() {
        lr matches LocalRef::OperandRef(o) && o.ty_layout == lay && o.operand_val is Zst
    } else if lay.layout.spec_is_memory() {
        lr matches LocalRef::PlaceRef(p) && p.ty_layout == lay && p.place_val.align
            == lay.layout.align.abi
    } else if assigned_before(body, l, b, s) {
        lr matches LocalRef::OperandRef(o) && o.ty_layout == lay && o.operand_val is Immediate
    } else {
        lr is PendingOperandRef
    }
}

/// The state of the whole local table at position `(b, s)`.
pub open spec fn locals_state<V>(body: LirBody, locals: Seq<LocalRef<V>>, b: int, s: int) -> bool {
    &&& locals.len() == body.spec_n_locals()
    &&& forall|l: int| 0 <= l < locals.len() ==> local_state_at(body, #[trigger] locals[l], l, b, s)
}

/// Before the first statement of the entry block nothing has been
/// assigned.
pub proof fn lemma_nothing_assigned_at_start(body: LirBody, l: int)
    ensures
        !assigned_before(body, l, 0, 0),
{
    if assigned_before(body, l, 0, 0) {
        let (b2, s2) = choose|b2: int, s2: int|
            (b2 < 0 || (b2 == 0 && s2 < 0)) && #[trigger] assigns_at(body, b2, s2, l);
        assert(false);
    }
}

/// Stepping past one statement adds exactly that statement's assignment,
/// if it is one, to what has been assigned.
pub proof fn lemma_assigned_before_stmt_step(body: LirBody, l: int, b: int, s: int)
    ensures
        assigns_at(body, b, s, l) ==> assigned_before(body, l, b, s + 1),
        assigned_before(body, l, b, s) ==> assigned_before(body, l, b, s + 1),
        !assigns_at(body, b, s, l) ==> (assigned_before(body, l, b, s + 1) <==> assigned_before(
            body,
            l,
            b,
            s,
        )),
{
    if assigns_at(body, b, s, l) {
        assert((b < b || (b == b && s < s + 1)) && assigns_at(body, b, s, l));
    }
    if assigned_before(body, l, b, s) {
        let (b2, s2) = choose|b2: int, s2: int|
            (b2 < b || (b2 == b && s2 < s)) && #[trigger] assigns_at(body, b2, s2, l);
        assert((b2 < b || (b2 == b && s2 < s + 1)) && assigns_at(body, b2, s2, l));
    }
    if !assigns_at(body, b, s, l) && assigned_before(body, l, b, s + 1) {
        let (b2, s2) = choose|b2: int, s2: int|
            (b2 < b || (b2 == b && s2 < s + 1)) && #[trigger] assigns_at(body, b2, s2, l);
        if !(b2 < b || (b2 == b && s2 < s)) {
            assert(b2 == b && s2 == s);
            assert(false);
        }
        assert((b2 < b || (b2 == b && s2 < s)) && assigns_at(body, b2, s2, l));
    }
}

/// What is assigned after the last statement of block `b` is what is
/// assigned before the first statement of block `b + 1`.
pub proof fn lemma_assigned_before_block_step(body: LirBody, l: int, b: int)
    requires
        0 <= b < body.basic_blocks@.len(),
    ensures
        assigned_before(body, l, b, body.basic_blocks@[b].statements@.len() as int)
            <==> assigned_before(body, l, b + 1, 0),
{
    let len_b = body.basic_blocks@[b].statements@.len() as int;
    if assigned_before(body, l, b, len_b) {
        let (b2, s2) = choose|b2: int, s2: int|
            (b2 < b || (b2 == b && s2 < len_b)) && #[trigger] assigns_at(body, b2, s2, l);
        assert((b2 < b + 1 || (b2 == b + 1 && s2 < 0)) && assigns_at(body, b2, s2, l));
    }
    if assigned_before(body, l, b + 1, 0) {
        let (b2, s2) = choose|b2: int, s2: int|
            (b2 < b + 1 || (b2 == b + 1 && s2 < 0)) && #[trigger] assigns_at(body, b2, s2, l);
        assert((b2 < b || (b2 == b && s2 < len_b)) && assigns_at(body, b2, s2, l));
    }
}

/// One block's trace under the current lowering: exactly one return,
/// carrying a value exactly when the return mode is direct.
pub open spec fn ret_only_trace<V>(tr: Seq<BuiltInst<V>>, mode: PassMode) -> bool {
    &&& tr.len() == 1
    &&& match tr[0] {
        BuiltInst::Ret(rv) => (mode == PassMode::Direct <==> rv is Some),
        _ => false,
    }
}

/// `hs` are the backend blocks of the lowered `body`: one per LIR block,
/// each handed out by `ctx` and holding exactly that block's lowering.
pub open spec fn body_blocks_traced<C: PreDefineCodegenMethods>(
    ctx: C,
    body: LirBody,
    hs: Seq<C::BasicBlock>,
) -> bool {
    &&& hs.len() == body.basic_blocks@.len()
    &&& forall|k: int|
        0 <= k < hs.len() ==> ctx.bb_valid(#[trigger] hs[k]) && ret_only_trace(
            ctx.insts(hs[k]),
            spec_arg_abi(body.ret_and_args@[0].ty).mode,
        )
}

/// The body stands defined in the context: backend blocks exist that hold
/// its lowering, one return per block.
pub open spec fn body_defined_in<C: PreDefineCodegenMethods>(ctx: C, body: LirBody) -> bool {
    exists|hs: Seq<C::BasicBlock>| #[trigger] body_blocks_traced(ctx, body, hs)
}

/// A body once defined stays defined: an operation that keeps handed-out
/// blocks valid and their instructions unchanged preserves the trace.
pub proof fn lemma_body_defined_preserved<C: PreDefineCodegenMethods>(pre: C, post: C, body: LirBody)
    requires
        body_defined_in(pre, body),
        forall|b: C::BasicBlock| #![trigger post.bb_valid(b)]
            pre.bb_valid(b) ==> post.bb_valid(b),
        insts_frame(pre, post),
    ensures
        body_defined_in(post, body),
{
    let hs = choose|hs: Seq<C::BasicBlock>| #[trigger] body_blocks_traced(pre, body, hs);
    assert forall|k: int| 0 <= k < hs.len() implies post.bb_valid(#[trigger] hs[k])
        && ret_only_trace(post.insts(hs[k]), spec_arg_abi(body.ret_and_args@[0].ty).mode) by {
        assert(pre.bb_valid(hs[k]));
    }
    assert(body_blocks_traced(post, body, hs));
}

/// The per-function lowering context: the function's ABI and backend
/// handle, the state of its locals, and the cache of already-created
/// backend blocks.
pub struct FnCtx<B: BuilderMethods> {
    /// The function's ABI: calling convention information for the return
    /// value and every argument.
    pub fn_abi: FnAbi<crate::syntax::LirTy>,
    /// The backend handle of the function being generated.
    pub fn_value: B::FunctionValue,
    /// The allocated locals and temporaries of the function.
    pub locals: IdxVec<Local, LocalRef<B::Value>>,
    /// The backend block for each LIR block, created at most once.
    pub cached_bbs: IdxVec<BasicBlock, Option<B::BasicBlock>>,
}

impl<B: BuilderMethods> FnCtx<B> {
    /// Returns the backend block for `bb`, creating and caching it on the
    /// first request so that forward references never duplicate a block.
    pub fn get_or_insert_bb(&mut self, ctx: &mut B::CodegenCtx, bb: BasicBlock) -> (r:
        B::BasicBlock)
        requires
            old(ctx).layout_wf(),
            old(ctx).fn_valid(old(self).fn_value),
            0 <= bb.0 < old(self).cached_bbs@.len(),
            forall|i: int|
                0 <= i < old(self).cached_bbs@.len() && (#[trigger] old(self).cached_bbs@[i])
                    is Some ==> old(ctx).bb_valid(old(self).cached_bbs@[i]->0),
        ensures
            final(self).fn_abi == old(self).fn_abi,
            final(self).fn_value == old(self).fn_value,
            final(self).locals == old(self).locals,
            final(self).cached_bbs@ == old(self).cached_bbs@.update(bb.0 as int, Some(r)),
            final(ctx).bb_valid(r),
            old(self).cached_bbs@[bb.0 as int] is Some ==> r == old(self).cached_bbs@[bb.0 as int]->0
                && *final(ctx) == *old(ctx),
            old(self).cached_bbs@[bb.0 as int] is None ==> !old(ctx).bb_valid(r)
                && final(ctx).insts(r) == Seq::<BuiltInst<B::Value>>::empty(),
            ctx_frame(*old(ctx), *final(ctx)),
            insts_frame(*old(ctx), *final(ctx)),
            decls_frame(*old(ctx), *final(ctx)),
    {
        let cached = *self.cached_bbs.index(bb);
        if let Some(be_bb) = cached {
            proof {
                assert(old(self).cached_bbs@ =~= old(self).cached_bbs@.update(
                    bb.0 as int,
                    Some(be_bb),
                ));
            }
            return be_bb;
        }
        let mut name = String::new();
        name.append("bb");
        push_dec(&mut name, bb.0 as u64);
        let be_bb = B::append_basic_block(ctx, self.fn_value, name.as_str());
        self.cached_bbs.set(bb, Some(be_bb));
        be_bb
    }

    /// Replaces the state of one local.
    fn overwrite_local(&mut self, local: Local, new_ref: LocalRef<B::Value>)
        requires
            0 <= local.0 < old(self).locals@.len(),
        ensures
            final(self).fn_abi == old(self).fn_abi,
            final(self).fn_value == old(self).fn_value,
            final(self).cached_bbs == old(self).cached_bbs,
            final(self).locals@ == old(self).locals@.update(local.0 as int, new_ref),
    {
        self.locals.set(local, new_ref);
    }

    /// Lowers an rvalue to an operand. A constant becomes an immediate or
    /// an empty operand, depending on its layout.
    pub fn codegen_rvalue_operand(
        &mut self,
        builder: &mut B,
        ctx: &mut B::CodegenCtx,
        rvalue: &RValue,
    ) -> (r: OperandRef<B::Value>)
        requires
            old(ctx).layout_wf(),
            old(ctx).bb_valid(old(builder).at_bb()),
            match *rvalue {
                RValue::Const(co) => const_matches_layout(co->Value_0, co->Value_1),
            },
        ensures
            *final(self) == *old(self),
            final(builder).at_bb() == old(builder).at_bb(),
            ctx_frame(*old(ctx), *final(ctx)),
            insts_frame(*old(ctx), *final(ctx)),
            decls_frame(*old(ctx), *final(ctx)),
            match *rvalue {
                RValue::Const(co) => {
                    &&& r.ty_layout == spec_layout_of(co->Value_1)
                    &&& (co->Value_0 is ZST ==> r.operand_val is Zst)
                    &&& (co->Value_0 is Scalar ==> r.operand_val is Immediate)
                },
            },
    {
        match rvalue {
            RValue::Const(const_operand) => OperandRef::new_const::<B>(
                builder,
                ctx,
                const_operand.value(),
                const_operand.ty(),
            ),
        }
    }

    /// Lowers the statement at position `(bb, s)`: a whole-local
    /// assignment. A pending scalar local becomes an immediate operand; an
    /// assignment to a zero-sized local still lowers its rvalue and
    /// discards it.
    pub fn codegen_statement(
        &mut self,
        builder: &mut B,
        ctx: &mut B::CodegenCtx,
        body: &LirBody,
        bb: BasicBlock,
        s: usize,
    )
        requires
            old(ctx).layout_wf(),
            old(ctx).bb_valid(old(builder).at_bb()),
            body_lowerable(*body),
            0 <= bb.0 < body.basic_blocks@.len(),
            s < body.basic_blocks@[bb.0 as int].statements@.len(),
            locals_state(*body, old(self).locals@, bb.0 as int, s as int),
        ensures
            final(self).fn_abi == old(self).fn_abi,
            final(self).fn_value == old(self).fn_value,
            final(self).cached_bbs == old(self).cached_bbs,
            locals_state(*body, final(self).locals@, bb.0 as int, s as int + 1),
            final(builder).at_bb() == old(builder).at_bb(),
            ctx_frame(*old(ctx), *final(ctx)),
            insts_frame(*old(ctx), *final(ctx)),
            decls_frame(*old(ctx), *final(ctx)),
    {
        let bb_data = body.basic_blocks.index(bb);
        let stmt = &bb_data.statements[s];
        proof {
            assert(stmt_wf(*body, body.basic_blocks@[bb.0 as int].statements@[s as int]));
        }
        match stmt {
            Statement::Assign(assig) => {
                let place = &assig.0;
                let rvalue = &assig.1;
                match place.try_local() {
                    Some(local) => {
                        let ghost l = local.0 as int;
                        proof {
                            assert(assigns_at(*body, bb.0 as int, s as int, l));
                        }
                        let lr = *self.locals.index(local);
                        match lr {
                            LocalRef::PlaceRef(_place_ref) => {
                                // A memory-layout local that is not
                                // zero-sized does not exist among the
                                // primitive layouts, so no local is ever
                                // storage-backed here.
                                proof {
                                    crate::layout_ctx::lemma_zst_is_memory(
                                        body.spec_local_data(l).ty,
                                    );
                                    assert(false);
                                }
                            },
                            LocalRef::OperandRef(operand_ref) => {
                                // Only a zero-sized local may be assigned
                                // again: its operand carries no value. The
                                // rvalue is still lowered for its effects.
                                proof {
                                    if !operand_ref.ty_layout.layout.spec_is_zst() {
                                        let (b2, s2) = choose|b2: int, s2: int|
                                            (b2 < bb.0 as int || (b2 == bb.0 as int && s2
                                                < s as int)) && #[trigger] assigns_at(
                                                *body,
                                                b2,
                                                s2,
                                                l,
                                            );
                                        assert(false);
                                    }
                                }
                                let _ = self.codegen_rvalue_operand(builder, ctx, rvalue);
                            },
                            LocalRef::PendingOperandRef => {
                                let operand = self.codegen_rvalue_operand(builder, ctx, rvalue);
                                self.overwrite_local(local, LocalRef::OperandRef(operand));
                            },
                        }
                    },
                    None => {
                        // Assignments through projections have no lowering
                        // yet; well-formed input never reaches here.
                        proof {
                            assert(false);
                        }
                    },
                }
            },
        }
        proof {
            assert forall|l2: int| 0 <= l2 < final(self).locals@.len() implies local_state_at(
                *body,
                #[trigger] final(self).locals@[l2],
                l2,
                bb.0 as int,
                s as int + 1,
            ) by {
                lemma_assigned_before_stmt_step(*body, l2, bb.0 as int, s as int);
                assert(local_state_at(*body, old(self).locals@[l2], l2, bb.0 as int, s as int));
            }
        }
    }

    /// Reads the value of a local so it can be consumed: a zero-sized
    /// local yields the empty operand, a scalar local its operand. The
    /// local must have been assigned already: use before definition is
    /// malformed input.
    pub fn codegen_consume(
        &mut self,
        builder: &mut B,
        ctx: &mut B::CodegenCtx,
        body: &LirBody,
        local: Local,
    ) -> (r: OperandRef<B::Value>)
        requires
            old(ctx).layout_wf(),
            old(ctx).bb_valid(old(builder).at_bb()),
            0 <= local.0 < body.ret_and_args@.len(),
            local.0 < old(self).locals@.len(),
            local_consumable(*body, old(self).locals@[local.0 as int], local.0 as int),
        ensures
            *final(self) == *old(self),
            final(builder).at_bb() == old(builder).at_bb(),
            ctx_frame(*old(ctx), *final(ctx)),
            r.ty_layout == spec_layout_of(body.ret_and_args@[local.0 as int].ty),
            spec_layout_of(body.ret_and_args@[local.0 as int].ty).layout.spec_is_zst()
                ==> r.operand_val is Zst,
            !spec_layout_of(body.ret_and_args@[local.0 as int].ty).layout.spec_is_zst() ==> (old(
                self,
            ).locals@[local.0 as int] matches LocalRef::OperandRef(o) && r == o),
            insts_frame(*old(ctx), *final(ctx)),
            decls_frame(*old(ctx), *final(ctx)),
    {
        let layout = ctx.layout_of(body.ret_and_args.index(local).ty);
        proof {
            assert(body.spec_local_data(local.0 as int) == body.ret_and_args@[local.0 as int]);
        }
        if layout.layout.is_zst() {
            return OperandRef::new_zst(layout);
        }
        let lr = *self.locals.index(local);
        match lr {
            LocalRef::OperandRef(operand_ref) => operand_ref,
            LocalRef::PlaceRef(place_ref) => {
                // No memory-layout local can be consumed yet; well-formed
                // input never reaches here.
                proof {
                    assert(false);
                }
                builder.load_operand(ctx, &place_ref)
            },
            LocalRef::PendingOperandRef => {
                // Use before definition; well-formed input never reaches
                // here.
                proof {
                    assert(false);
                }
                OperandRef::new_zst(layout)
            },
        }
    }

    /// Lowers a return terminator. An ignored or indirect return returns
    /// void; a direct return consumes the return local and returns its
    /// immediate value.
    pub fn codegen_return_terminator(
        &mut self,
        builder: &mut B,
        ctx: &mut B::CodegenCtx,
        body: &LirBody,
        bb: BasicBlock,
    )
        requires
            old(ctx).layout_wf(),
            old(ctx).bb_valid(old(builder).at_bb()),
            body_lowerable(*body),
            0 <= bb.0 < body.basic_blocks@.len(),
            is_fn_abi_of(old(self).fn_abi, body.ret_and_args@),
            locals_state(
                *body,
                old(self).locals@,
                bb.0 as int,
                body.basic_blocks@[bb.0 as int].statements@.len() as int,
            ),
        ensures
            *final(self) == *old(self),
            final(builder).at_bb() == old(builder).at_bb(),
            ctx_frame(*old(ctx), *final(ctx)),
            decls_frame(*old(ctx), *final(ctx)),
            emits_one(
                *old(ctx),
                *final(ctx),
                old(builder).at_bb(),
                BuiltInst::Ret(
                    if spec_arg_abi(body.ret_and_args@[0].ty).mode == PassMode::Direct {
                        Some(old(self).locals@[0]->OperandRef_0.operand_val->Immediate_0)
                    } else {
                        None
                    },
                ),
            ),
    {
        let is_direct = match self.fn_abi.ret.mode {
            PassMode::Ignore => false,
            PassMode::Indirect => false,
            PassMode::Direct => true,
        };
        if !is_direct {
            builder.build_return(ctx, None);
            return ;
        }
        proof {
            // The return travels directly, so its layout is a scalar and
            // the body guarantees it was assigned before every return.
            assert(spec_arg_abi(body.ret_and_args@[0].ty).mode == PassMode::Direct);
            assert(assigned_before(
                *body,
                0,
                bb.0 as int,
                body.basic_blocks@[bb.0 as int].statements@.len() as int,
            ));
            assert(local_state_at(
                *body,
                old(self).locals@[0],
                0,
                bb.0 as int,
                body.basic_blocks@[bb.0 as int].statements@.len() as int,
            ));
        }
        let operand_ref = self.codegen_consume(builder, ctx, body, Local(0));
        proof {
            assert(operand_ref == old(self).locals@[0]->OperandRef_0);
        }
        let be_val = match operand_ref.operand_val {
            OperandVal::Immediate(val) => val,
            OperandVal::Zst => {
                proof {
                    assert(false);
                }
                return ;
            },
            OperandVal::Ref(_) => {
                proof {
                    assert(false);
                }
                return ;
            },
            OperandVal::Pair(_, _) => {
                proof {
                    assert(false);
                }
                return ;
            },
        };
        builder.build_return(ctx, Some(be_val));
    }

    /// Lowers the terminator of block `bb`.
    pub fn codegen_terminator(
        &mut self,
        builder: &mut B,
        ctx: &mut B::CodegenCtx,
        body: &LirBody,
        bb: BasicBlock,
    )
        requires
            old(ctx).layout_wf(),
            old(ctx).bb_valid(old(builder).at_bb()),
            body_lowerable(*body),
            0 <= bb.0 < body.basic_blocks@.len(),
            is_fn_abi_of(old(self).fn_abi, body.ret_and_args@),
            locals_state(
                *body,
                old(self).locals@,
                bb.0 as int,
                body.basic_blocks@[bb.0 as int].statements@.len() as int,
            ),
        ensures
            *final(self) == *old(self),
            final(builder).at_bb() == old(builder).at_bb(),
            ctx_frame(*old(ctx), *final(ctx)),
            decls_frame(*old(ctx), *final(ctx)),
            emits_one(
                *old(ctx),
                *final(ctx),
                old(builder).at_bb(),
                BuiltInst::Ret(
                    if spec_arg_abi(body.ret_and_args@[0].ty).mode == PassMode::Direct {
                        Some(old(self).locals@[0]->OperandRef_0.operand_val->Immediate_0)
                    } else {
                        None
                    },
                ),
            ),
    {
        let bb_data = body.basic_blocks.index(bb);
        match &bb_data.terminator {
            Terminator::Return => self.codegen_return_terminator(builder, ctx, body, bb),
        }
    }

    /// Lowers one basic block: fetches or creates its backend block,
    /// lowers each statement in order, then the terminator.
    pub fn codegen_basic_block(&mut self, ctx: &mut B::CodegenCtx, body: &LirBody, bb: BasicBlock)
        requires
            old(ctx).layout_wf(),
            old(ctx).fn_valid(old(self).fn_value),
            body_lowerable(*body),
            0 <= bb.0 < body.basic_blocks@.len(),
            old(self).cached_bbs@.len() == body.basic_blocks@.len(),
            forall|i: int|
                0 <= i < old(self).cached_bbs@.len() && (#[trigger] old(self).cached_bbs@[i])
                    is Some ==> old(ctx).bb_valid(old(self).cached_bbs@[i]->0),
            is_fn_abi_of(old(self).fn_abi, body.ret_and_args@),
            locals_state(*body, old(self).locals@, bb.0 as int, 0),
        ensures
            final(self).fn_abi == old(self).fn_abi,
            final(self).fn_value == old(self).fn_value,
            final(self).cached_bbs@.len() == old(self).cached_bbs@.len(),
            forall|i: int|
                0 <= i < final(self).cached_bbs@.len() && (#[trigger] final(self).cached_bbs@[i])
                    is Some ==> final(ctx).bb_valid(final(self).cached_bbs@[i]->0),
            locals_state(*body, final(self).locals@, bb.0 as int + 1, 0),
            ctx_frame(*old(ctx), *final(ctx)),
            decls_frame(*old(ctx), *final(ctx)),
            final(self).cached_bbs@ == old(self).cached_bbs@.update(
                bb.0 as int,
                final(self).cached_bbs@[bb.0 as int],
            ),
            final(self).cached_bbs@[bb.0 as int] is Some,
            ({
                let h = final(self).cached_bbs@[bb.0 as int]->0;
                &&& (old(self).cached_bbs@[bb.0 as int] is Some ==> h == old(
                    self,
                ).cached_bbs@[bb.0 as int]->0)
                &&& (old(self).cached_bbs@[bb.0 as int] is None ==> !old(ctx).bb_valid(h))
                &&& final(ctx).insts(h) == (if old(self).cached_bbs@[bb.0 as int] is Some {
                    old(ctx).insts(h)
                } else {
                    Seq::<BuiltInst<B::Value>>::empty()
                }).push(
                    BuiltInst::Ret(
                        if spec_arg_abi(body.ret_and_args@[0].ty).mode == PassMode::Direct {
                            Some(final(self).locals@[0]->OperandRef_0.operand_val->Immediate_0)
                        } else {
                            None
                        },
                    ),
                )
                &&& forall|b2: B::BasicBlock| #![trigger final(ctx).insts(b2)]
                    old(ctx).bb_valid(b2) && b2 != h ==> final(ctx).insts(b2) == old(ctx).insts(b2)
            }),
    {
        let ghost was_cached = old(self).cached_bbs@[bb.0 as int] is Some;
        let be_bb = self.get_or_insert_bb(ctx, bb);
        let mut builder = B::build(ctx, be_bb);
        let ghost insts0 = ctx.insts(be_bb);
        proof {
            assert(insts0 == if was_cached {
                old(ctx).insts(be_bb)
            } else {
                Seq::<BuiltInst<B::Value>>::empty()
            });
        }
        let n_stmts = body.basic_blocks.index(bb).statements.len();
        let mut s: usize = 0;
        while s < n_stmts
            invariant
                s <= n_stmts,
                n_stmts == body.basic_blocks@[bb.0 as int].statements@.len(),
                0 <= bb.0 < body.basic_blocks@.len(),
                body_lowerable(*body),
                ctx.layout_wf(),
                ctx.bb_valid(be_bb),
                builder.at_bb() == be_bb,
                self.fn_abi == old(self).fn_abi,
                self.fn_value == old(self).fn_value,
                self.cached_bbs@ == old(self).cached_bbs@.update(bb.0 as int, Some(be_bb)),
                is_fn_abi_of(self.fn_abi, body.ret_and_args@),
                locals_state(*body, self.locals@, bb.0 as int, s as int),
                ctx_frame(*old(ctx), *ctx),
                decls_frame(*old(ctx), *ctx),
                ctx.insts(be_bb) == insts0,
                forall|b2: B::BasicBlock| #![trigger ctx.insts(b2)]
                    old(ctx).bb_valid(b2) && b2 != be_bb ==> ctx.insts(b2) == old(ctx).insts(b2),
                forall|i: int|
                    0 <= i < self.cached_bbs@.len() && (#[trigger] self.cached_bbs@[i]) is Some
                        ==> ctx.bb_valid(self.cached_bbs@[i]->0),
            decreases n_stmts - s,
        {
            self.codegen_statement(&mut builder, ctx, body, bb, s);
            s = s + 1;
        }
        self.codegen_terminator(&mut builder, ctx, body, bb);
        proof {
            assert forall|l2: int| 0 <= l2 < self.locals@.len() implies local_state_at(
                *body,
                #[trigger] self.locals@[l2],
                l2,
                bb.0 as int + 1,
                0,
            ) by {
                lemma_assigned_before_block_step(*body, l2, bb.0 as int);
                assert(local_state_at(*body, self.locals@[l2], l2, bb.0 as int, n_stmts as int));
            }
        }
    }
}

/// Whether a local's state lets it be consumed: a zero-sized local always
/// can; a scalar local must already hold an immediate operand of its
/// layout. Storage-backed locals have no consumption lowering yet.
pub open spec fn local_consumable<V>(body: LirBody, lr: LocalRef<V>, l: int) -> bool {
    let lay = spec_layout_of(body.spec_local_data(l).ty);
    if lay.layout.spec_is_zst() {
        true
    } else if lay.layout.spec_is_memory() {
        false
    } else {
        lr matches LocalRef::OperandRef(o) && o.ty_layout == lay && o.operand_val is Immediate
    }
}

/// Compiles a whole unit in two phases: first declare every body, then
/// define every body. Declaration of all bodies precedes every definition,
/// so each `define_body` call finds every body of the unit — its own and
/// every possible callee — already in the function map.
pub fn compile_lir_unit<B: BuilderMethods>(ctx: &mut B::CodegenCtx, lir_unit: &LirUnit)
    requires
        old(ctx).layout_wf(),
        lir_unit.distinct_def_ids(),
        forall|i: int|
            0 <= i < lir_unit.bodies@.len() ==> body_lowerable(#[trigger] lir_unit.bodies@[i]),
        forall|i: int|
            0 <= i < lir_unit.bodies@.len() ==> !old(ctx).fn_map().dom().contains(
                (#[trigger] lir_unit.bodies@[i]).metadata.def_id.0 as int,
            ),
    ensures
        final(ctx).layout_wf(),
        forall|i: int|
            0 <= i < lir_unit.bodies@.len() ==> final(ctx).fn_map().dom().contains(
                (#[trigger] lir_unit.bodies@[i]).metadata.def_id.0 as int,
            ),
        forall|d: int| #![trigger old(ctx).fn_map().dom().contains(d)]
            old(ctx).fn_map().dom().contains(d) ==> final(ctx).fn_map().dom().contains(d)
                && final(ctx).fn_map()[d] == old(ctx).fn_map()[d],
        forall|i: int|
            0 <= i < lir_unit.bodies@.len() ==> body_defined_in(
                *final(ctx),
                #[trigger] lir_unit.bodies@[i],
            ),
{
    let n = lir_unit.bodies.len();

    // Predefine the functions: create every declaration first.
    let mut i: usize = 0;
    while i < n
        invariant
            i <= n,
            n == lir_unit.bodies@.len(),
            ctx.layout_wf(),
            lir_unit.distinct_def_ids(),
            forall|j: int|
                0 <= j < lir_unit.bodies@.len() ==> body_lowerable(#[trigger] lir_unit.bodies@[j]),
            forall|j: int|
                0 <= j < i ==> ctx.fn_map().dom().contains(
                    (#[trigger] lir_unit.bodies@[j]).metadata.def_id.0 as int,
                ),
            forall|j: int|
                i <= j < n ==> !ctx.fn_map().dom().contains(
                    (#[trigger] lir_unit.bodies@[j]).metadata.def_id.0 as int,
                ),
            forall|d: int| #![trigger old(ctx).fn_map().dom().contains(d)]
                old(ctx).fn_map().dom().contains(d) ==> ctx.fn_map().dom().contains(d)
                    && ctx.fn_map()[d] == old(ctx).fn_map()[d],
        decreases n - i,
    {
        let lir_body = lir_unit.bodies.index(Body(i));
        ctx.predefine_body(&lir_body.metadata, &lir_body.ret_and_args);
        i = i + 1;
    }

    // Now that all functions are declared, compile the bodies.
    let mut i2: usize = 0;
    while i2 < n
        invariant
            i2 <= n,
            n == lir_unit.bodies@.len(),
            ctx.layout_wf(),
            forall|j: int|
                0 <= j < lir_unit.bodies@.len() ==> body_lowerable(#[trigger] lir_unit.bodies@[j]),
            forall|j: int|
                0 <= j < n ==> ctx.fn_map().dom().contains(
                    (#[trigger] lir_unit.bodies@[j]).metadata.def_id.0 as int,
                ),
            forall|d: int| #![trigger old(ctx).fn_map().dom().contains(d)]
                old(ctx).fn_map().dom().contains(d) ==> ctx.fn_map().dom().contains(d)
                    && ctx.fn_map()[d] == old(ctx).fn_map()[d],
            forall|j: int|
                0 <= j < i2 ==> body_defined_in(*ctx, #[trigger] lir_unit.bodies@[j]),
        decreases n - i2,
    {
        let ghost pre = *ctx;
        let lir_body = lir_unit.bodies.index(Body(i2));
        ctx.define_body(lir_body);
        proof {
            assert forall|j: int| 0 <= j < i2 + 1 implies body_defined_in(
                *ctx,
                #[trigger] lir_unit.bodies@[j],
            ) by {
                if j < i2 {
                    lemma_body_defined_preserved(pre, *ctx, lir_unit.bodies@[j]);
                } else {
                    assert(lir_unit.bodies@[j] == *lir_body);
                }
            }
        }
        i2 = i2 + 1;
    }
}

} // verus!
