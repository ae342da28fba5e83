//! The ABI of a function: how each argument is passed and how the return
//! value is produced.

use vstd::prelude::*;

use crate::index_vec::IdxVec;
use crate::layout::TyAndLayout;
use crate::layout_ctx::{spec_layout_of, LayoutCtx};
use crate::lir::LirCtx;
use crate::syntax::{LirTy, Local, LocalData};

verus! {

/// The ways a value can cross the ABI boundary.
#[derive(Debug, Clone, Copy, PartialEq, Eq, Structural)]
pub enum PassMode {
    /// The value is dropped entirely: a zero-sized type.
    Ignore,
    /// The value travels directly, in registers or as an immediate.
    Direct,
    /// The value travels through a hidden pointer to caller- or
    /// callee-provided memory.
    Indirect,
}

/// How a single argument or return value is represented and passed.
#[derive(Debug, Clone, Copy, PartialEq, Eq, Structural)]
pub struct ArgAbi<T> {
    /// The type and layout of the value.
    pub layout: TyAndLayout<T>,
    /// How the value crosses the boundary.
    pub mode: PassMode,
}

impl<T> ArgAbi<T> {
    /// Creates an `ArgAbi` from a layout and a passing mode.
    pub fn new(layout: TyAndLayout<T>, mode: PassMode) -> (r: Self)
        ensures
            r.layout == layout,
            r.mode == mode,
    {
        ArgAbi { layout, mode }
    }
}

/// The full ABI of a function: how each argument is passed and how the
/// return value is produced.
#[derive(Debug)]
pub struct FnAbi<T> {
    /// The layout and passing convention of each argument, in declaration
    /// order.
    pub args: Vec<ArgAbi<T>>,
    /// The layout and passing convention of the return value.
    pub ret: ArgAbi<T>,
}

/// The ABI of one slot of type `ty`: a scalar passes directly, a memory
/// value indirectly, and a zero-sized one not at all.
pub open spec fn spec_arg_abi(ty: LirTy) -> ArgAbi<LirTy> {
    let layout = spec_layout_of(ty);
    let mode = if layout.layout.spec_is_zst() {
        PassMode::Ignore
    } else if layout.layout.spec_is_immediate() {
        PassMode::Direct
    } else {
        PassMode::Indirect
    };
    ArgAbi { layout, mode }
}

/// Whether `abi` is the function ABI that the slots `ret_and_args` call
/// for: the return slot first, then one argument per remaining slot, each
/// classified by `spec_arg_abi`.
pub open spec fn is_fn_abi_of(abi: FnAbi<LirTy>, ret_and_args: Seq<LocalData>) -> bool {
    &&& abi.ret == spec_arg_abi(ret_and_args[0].ty)
    &&& abi.args@.len() == ret_and_args.len() - 1
    &&& forall|i: int|
        0 <= i < abi.args@.len() ==> #[trigger] abi.args@[i] == spec_arg_abi(
            ret_and_args[i + 1].ty,
        )
}

/// Computes the function ABI called for by `ret_and_args`, whose slot zero
/// is the return and whose remaining slots are the formal parameters.
pub fn fn_abi_of_ret_and_args(lir_ctx: &LirCtx, ret_and_args: &IdxVec<Local, LocalData>) -> (r:
    FnAbi<LirTy>)
    requires
        lir_ctx.wf(),
        ret_and_args@.len() >= 1,
    ensures
        is_fn_abi_of(r, ret_and_args@),
{
    let layout_ctx = LayoutCtx::new(lir_ctx);
    let n = ret_and_args.len();
    let ret = arg_abi_of(&layout_ctx, ret_and_args.index(Local(0)).ty);
    let mut args: Vec<ArgAbi<LirTy>> = Vec::new();
    let mut k: usize = 1;
    while k < n
        invariant
            1 <= k <= n,
            n == ret_and_args@.len(),
            lir_ctx.wf(),
            layout_ctx.lir_ty_ctx == lir_ctx,
            args@.len() == k - 1,
            forall|i: int|
                0 <= i < args@.len() ==> #[trigger] args@[i] == spec_arg_abi(
                    ret_and_args@[i + 1].ty,
                ),
        decreases n - k,
    {
        let a = arg_abi_of(&layout_ctx, ret_and_args.index(Local(k)).ty);
        args.push(a);
        k = k + 1;
    }
    FnAbi { args, ret }
}

/// Classifies one slot of type `ty`.
fn arg_abi_of(layout_ctx: &LayoutCtx<'_>, ty: LirTy) -> (r: ArgAbi<LirTy>)
    requires
        layout_ctx.lir_ty_ctx.wf(),
    ensures
        r == spec_arg_abi(ty),
{
    let layout = layout_ctx.compute_layout(ty);
    let mode = if layout.layout.is_zst() {
        PassMode::Ignore
    } else if layout.layout.is_immediate() {
        PassMode::Direct
    } else {
        PassMode::Indirect
    };
    ArgAbi::new(layout, mode)
}

/// For every function, the ABI has exactly one argument slot per formal
/// parameter: one fewer than `ret_and_args`, whose first slot is the
/// return.
pub proof fn lemma_fn_abi_arg_count(abi: FnAbi<LirTy>, ret_and_args: Seq<LocalData>)
    requires
        ret_and_args.len() >= 1,
        is_fn_abi_of(abi, ret_and_args),
    ensures
        abi.args@.len() == ret_and_args.len() - 1,
{
}

} // verus!
