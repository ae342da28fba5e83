//! The LIR of whole functions and units: bodies, their metadata, and the
//! context a compilation runs in.

use vstd::prelude::*;

use crate::basic_blocks::{BasicBlock, BasicBlockData};
use crate::index_vec::IdxVec;
use crate::layout::TyAndLayout;
use crate::layout_ctx::{spec_layout_of, LayoutCtx};
use crate::syntax::{Body, LirTy, Local, LocalData};
use crate::target::{is_default_data_layout, BackendKind, LirTarget};

verus! {

/// A unit-unique identifier of a body.
#[derive(Debug, Clone, Copy, PartialEq, Eq, Hash, Structural)]
pub struct DefId(pub usize);

/// The linkage of a symbol: how it takes part in symbol resolution when
/// objects are linked together.
#[derive(Debug, Clone, Copy, PartialEq, Eq, Structural)]
pub enum Linkage {
    /// Only directly accessible inside the current module; does not appear
    /// in the object file's symbol table.
    Private,
    /// Like `Private`, but shown as a local symbol in the object file.
    Internal,
    /// Never emitted into the object; equivalent to an external declaration
    /// from the linker's point of view, kept for inlining.
    AvailableExternally,
    /// Merged with same-named globals at link time; unreferenced copies may
    /// be discarded.
    LinkOnce,
    /// Merged like `LinkOnce`, but unreferenced copies are kept.
    Weak,
    /// For tentative definitions: merged like weak symbols, zero-initialized,
    /// never discarded.
    Common,
    /// Arrays appended together at link time; for special backend globals.
    Appending,
    /// Weak until linked; unresolved references become null instead of
    /// errors.
    ExternWeak,
    /// `LinkOnce` under the one-definition rule: all definitions can be
    /// assumed equivalent.
    LinkOnceODR,
    /// `Weak` under the one-definition rule.
    WeakODR,
    /// Externally visible: takes part in linkage and resolves external
    /// references.
    External,
}

/// The visibility of a symbol with regard to dynamic linking.
#[derive(Debug, Clone, Copy, PartialEq, Eq, Structural)]
pub enum Visibility {
    /// Visible to other modules; in shared libraries the definition may be
    /// overridden.
    Default,
    /// Not placed into the dynamic symbol table: other modules cannot
    /// reference it directly.
    Hidden,
    /// In the dynamic symbol table, but references inside the defining
    /// module bind locally and cannot be overridden.
    Protected,
}

/// A user-callable item of LIR.
#[derive(Debug, Clone, Copy, PartialEq, Eq, Structural)]
pub enum LirItemKind {
    /// A function.
    Function,
    /// A closure.
    Closure,
    /// A coroutine.
    Coroutine,
}

/// How significant the address of a global value is, which controls
/// constant-merging optimizations.
#[derive(Debug, Clone, Copy, PartialEq, Eq, Structural)]
pub enum UnnamedAddress {
    /// The address is significant and must not be merged.
    No,
    /// The address is significant only inside the translation unit.
    Local,
    /// The address is insignificant; identical constants may be merged
    /// across units.
    Global,
}

/// The calling convention of a function: how arguments travel to it and how
/// the return value comes back. The numbers are the backend's.
#[derive(Debug, Clone, Copy, PartialEq, Eq, Structural)]
pub enum CallConv {
    C,
    Rust,
    Fast,
    Cold,
    GHC,
    HiPE,
    AnyReg,
    PreserveMost,
    PreserveAll,
    Swift,
    CxxFastTls,
    Tail,
    CfguardCheck,
    SwiftTail,
    PreserveNone,
    FirstTargetCC,
    X86StdCall,
    X86FastCall,
    ArmApcs,
    ArmAapcs,
    ArmAapcsVfp,
    Msp430Intr,
    X86ThisCall,
    PtxKernel,
    PtxDevice,
    SpirFunc,
    SpirKernel,
    IntelOclBi,
    X86_64SysV,
    Win64,
    X86VectorCall,
    DummyHhvm,
    DummyHhvmC,
    X86Intr,
    AvrIntr,
    AvrSignal,
    AvrBuiltin,
    AmdgpuVs,
    AmdgpuGs,
    AmdgpuPs,
    AmdgpuCs,
    AmdgpuKernel,
    X86RegCall,
    AmdgpuHs,
    Msp430Builtin,
    AmdgpuLs,
    AmdgpuEs,
    Aarch64VectorCall,
    Aarch64SveVectorCall,
    WasmEmscriptenInvoke,
    AmdgpuGfx,
    M68kIntr,
    Aarch64SmeAbiSupportRoutinesPreserveMostFromX0,
    Aarch64SmeAbiSupportRoutinesPreserveMostFromX2,
    AmdgpuCsChain,
    AmdgpuCsChainPreserve,
    M68kRtd,
    GRAAL,
    Arm64ecThunkX64,
    Arm64ecThunkNative,
    RiscvVectorCall,
    Aarch64SmeAbiSupportRoutinesPreserveMostFromX1,
    MaxID,
}

/// Converts a calling convention to the number the backend knows it by.
pub trait CallConvUtils: Sized {
    /// The number the backend knows this calling convention by.
    spec fn spec_call_conv(&self) -> u32;

    /// Returns the number the backend knows this calling convention by.
    fn into_call_conv(&self) -> (r: u32)
        ensures
            r == self.spec_call_conv(),
    ;
}

impl CallConvUtils for CallConv {
    open spec fn spec_call_conv(&self) -> u32 {
        match *self {
            CallConv::C => 0,
            CallConv::Rust => 1,
            CallConv::Fast => 8,
            CallConv::Cold => 9,
            CallConv::GHC => 10,
            CallConv::HiPE => 11,
            CallConv::AnyReg => 13,
            CallConv::PreserveMost => 14,
            CallConv::PreserveAll => 15,
            CallConv::Swift => 16,
            CallConv::CxxFastTls => 17,
            CallConv::Tail => 18,
            CallConv::CfguardCheck => 19,
            CallConv::SwiftTail => 20,
            CallConv::PreserveNone => 21,
            CallConv::FirstTargetCC => 63,
            CallConv::X86StdCall => 64,
            CallConv::X86FastCall => 65,
            CallConv::ArmApcs => 66,
            CallConv::ArmAapcs => 67,
            CallConv::ArmAapcsVfp => 68,
            CallConv::Msp430Intr => 69,
            CallConv::X86ThisCall => 70,
            CallConv::PtxKernel => 71,
            CallConv::PtxDevice => 72,
            CallConv::SpirFunc => 75,
            CallConv::SpirKernel => 76,
            CallConv::IntelOclBi => 77,
            CallConv::X86_64SysV => 78,
            CallConv::Win64 => 79,
            CallConv::X86VectorCall => 80,
            CallConv::DummyHhvm => 81,
            CallConv::DummyHhvmC => 82,
            CallConv::X86Intr => 83,
            CallConv::AvrIntr => 84,
            CallConv::AvrSignal => 85,
            CallConv::AvrBuiltin => 86,
            CallConv::AmdgpuVs => 87,
            CallConv::AmdgpuGs => 88,
            CallConv::AmdgpuPs => 89,
            CallConv::AmdgpuCs => 90,
            CallConv::AmdgpuKernel => 91,
            CallConv::X86RegCall => 92,
            CallConv::AmdgpuHs => 93,
            CallConv::Msp430Builtin => 94,
            CallConv::AmdgpuLs => 95,
            CallConv::AmdgpuEs => 96,
            CallConv::Aarch64VectorCall => 97,
            CallConv::Aarch64SveVectorCall => 98,
            CallConv::WasmEmscriptenInvoke => 99,
            CallConv::AmdgpuGfx => 100,
            CallConv::M68kIntr => 101,
            CallConv::Aarch64SmeAbiSupportRoutinesPreserveMostFromX0 => 102,
            CallConv::Aarch64SmeAbiSupportRoutinesPreserveMostFromX2 => 103,
            CallConv::AmdgpuCsChain => 104,
            CallConv::AmdgpuCsChainPreserve => 105,
            CallConv::M68kRtd => 106,
            CallConv::GRAAL => 107,
            CallConv::Arm64ecThunkX64 => 108,
            CallConv::Arm64ecThunkNative => 109,
            CallConv::RiscvVectorCall => 110,
            CallConv::Aarch64SmeAbiSupportRoutinesPreserveMostFromX1 => 111,
            CallConv::MaxID => 1023,
        }
    }

    fn into_call_conv(&self) -> (r: u32) {
        match *self {
            CallConv::C => 0,
            CallConv::Rust => 1,
            CallConv::Fast => 8,
            CallConv::Cold => 9,
            CallConv::GHC => 10,
            CallConv::HiPE => 11,
            CallConv::AnyReg => 13,
            CallConv::PreserveMost => 14,
            CallConv::PreserveAll => 15,
            CallConv::Swift => 16,
            CallConv::CxxFastTls => 17,
            CallConv::Tail => 18,
            CallConv::CfguardCheck => 19,
            CallConv::SwiftTail => 20,
            CallConv::PreserveNone => 21,
            CallConv::FirstTargetCC => 63,
            CallConv::X86StdCall => 64,
            CallConv::X86FastCall => 65,
            CallConv::ArmApcs => 66,
            CallConv::ArmAapcs => 67,
            CallConv::ArmAapcsVfp => 68,
            CallConv::Msp430Intr => 69,
            CallConv::X86ThisCall => 70,
            CallConv::PtxKernel => 71,
            CallConv::PtxDevice => 72,
            CallConv::SpirFunc => 75,
            CallConv::SpirKernel => 76,
            CallConv::IntelOclBi => 77,
            CallConv::X86_64SysV => 78,
            CallConv::Win64 => 79,
            CallConv::X86VectorCall => 80,
            CallConv::DummyHhvm => 81,
            CallConv::DummyHhvmC => 82,
            CallConv::X86Intr => 83,
            CallConv::AvrIntr => 84,
            CallConv::AvrSignal => 85,
            CallConv::AvrBuiltin => 86,
            CallConv::AmdgpuVs => 87,
            CallConv::AmdgpuGs => 88,
            CallConv::AmdgpuPs => 89,
            CallConv::AmdgpuCs => 90,
            CallConv::AmdgpuKernel => 91,
            CallConv::X86RegCall => 92,
            CallConv::AmdgpuHs => 93,
            CallConv::Msp430Builtin => 94,
            CallConv::AmdgpuLs => 95,
            CallConv::AmdgpuEs => 96,
            CallConv::Aarch64VectorCall => 97,
            CallConv::Aarch64SveVectorCall => 98,
            CallConv::WasmEmscriptenInvoke => 99,
            CallConv::AmdgpuGfx => 100,
            CallConv::M68kIntr => 101,
            CallConv::Aarch64SmeAbiSupportRoutinesPreserveMostFromX0 => 102,
            CallConv::Aarch64SmeAbiSupportRoutinesPreserveMostFromX2 => 103,
            CallConv::AmdgpuCsChain => 104,
            CallConv::AmdgpuCsChainPreserve => 105,
            CallConv::M68kRtd => 106,
            CallConv::GRAAL => 107,
            CallConv::Arm64ecThunkX64 => 108,
            CallConv::Arm64ecThunkNative => 109,
            CallConv::RiscvVectorCall => 110,
            CallConv::Aarch64SmeAbiSupportRoutinesPreserveMostFromX1 => 111,
            CallConv::MaxID => 1023,
        }
    }
}

/// The kind of a LIR body.
#[derive(Debug, Clone, Copy, PartialEq, Eq, Structural)]
pub enum LirBodyKind {
    /// A user-callable item.
    Item(LirItemKind),
}

/// The metadata of a body: its identity and how its symbol is emitted.
#[derive(Debug)]
pub struct LirBodyMetadata {
    /// The unit-unique identifier of the body.
    pub def_id: DefId,
    /// The name of the body; the backend's symbol name.
    pub name: String,
    /// The kind of the body.
    pub kind: LirBodyKind,
    /// Whether the body should be inlined.
    pub inlined: bool,
    /// The linkage of the symbol.
    pub linkage: Linkage,
    /// The visibility of the symbol.
    pub visibility: Visibility,
    /// How significant the symbol's address is.
    pub unnamed_address: UnnamedAddress,
    /// The calling convention of the body.
    pub call_conv: CallConv,
}

/// The body of one function (or closure, or coroutine): a complete unit of
/// execution, already monomorphized.
pub struct LirBody {
    /// The metadata of the body.
    pub metadata: LirBodyMetadata,
    /// The return slot at index zero, then the formal parameters in
    /// declaration order.
    pub ret_and_args: IdxVec<Local, LocalData>,
    /// The rest of the locals.
    pub locals: IdxVec<Local, LocalData>,
    /// The basic blocks; index zero is the entry block.
    pub basic_blocks: IdxVec<BasicBlock, BasicBlockData>,
}

impl LirBody {
    /// The number of locals: the return slot, the parameters, and the rest.
    pub open spec fn spec_n_locals(&self) -> int {
        self.ret_and_args@.len() + self.locals@.len() as int
    }

    /// The declaration of the local with position `l`, counted through
    /// `ret_and_args` first.
    pub open spec fn spec_local_data(&self, l: int) -> LocalData {
        if l < self.ret_and_args@.len() {
            self.ret_and_args@[l]
        } else {
            self.locals@[l - self.ret_and_args@.len()]
        }
    }

    /// A structurally well-formed body: it has a return slot and an entry
    /// block.
    pub open spec fn structurally_wf(&self) -> bool {
        &&& self.ret_and_args@.len() >= 1
        &&& self.basic_blocks@.len() >= 1
    }
}

/// The metadata of a unit.
pub struct LirUnitMetadata {
    /// The unit's name; output files are named after it.
    pub unit_name: String,
}

/// A compilation unit: a module of bodies.
pub struct LirUnit {
    /// The metadata of the unit.
    pub metadata: LirUnitMetadata,
    /// The bodies of the unit.
    pub bodies: IdxVec<Body, LirBody>,
}

impl LirUnit {
    /// Body identifiers never repeat inside a unit.
    pub open spec fn distinct_def_ids(&self) -> bool {
        forall|i: int, j: int|
            0 <= i < j < self.bodies@.len() ==> (#[trigger] self.bodies@[i]).metadata.def_id != (
            #[trigger] self.bodies@[j]).metadata.def_id
    }
}

/// What kind of output to write.
#[derive(Debug, Clone, Copy, PartialEq, Eq, Structural)]
pub enum EmitKind {
    /// An object file.
    Object,
    /// An assembly file.
    Assembly,
}

/// The caller-provided arguments of a compilation.
#[derive(Debug, Clone, Copy, PartialEq, Eq, Structural)]
pub struct LirArgs {
    /// What kind of output to write.
    pub emit_kind: EmitKind,
}

/// The context of a compilation: the target and the caller's arguments. It
/// lives for the whole compile and is only read.
#[derive(Debug)]
pub struct LirCtx {
    /// The target being compiled for.
    pub target: LirTarget,
    /// The caller's arguments.
    pub arguments: LirArgs,
}

impl LirCtx {
    /// A well-formed context: its data layout is the default one, which the
    /// layout engine computes against.
    pub open spec fn wf(&self) -> bool {
        is_default_data_layout(self.target.data_layout)
    }

    /// Creates a context for the given backend and output kind, with the
    /// default target data layout and no target triple.
    pub fn new(codegen_backend: BackendKind, emit_kind: EmitKind) -> (r: Self)
        ensures
            r.wf(),
            r.target.codegen_backend == codegen_backend,
            r.target.target_triple is None,
            r.arguments.emit_kind == emit_kind,
    {
        let target = LirTarget::new(codegen_backend);
        let arguments = LirArgs { emit_kind };
        LirCtx { target, arguments }
    }

    /// Returns the target.
    pub fn target(&self) -> (r: &LirTarget)
        ensures
            *r == self.target,
    {
        &self.target
    }

    /// Computes the layout of `ty` against this context's data layout.
    pub fn layout_of(&self, ty: LirTy) -> (r: TyAndLayout<LirTy>)
        requires
            self.wf(),
        ensures
            r == spec_layout_of(ty),
    {
        let layout_ctx = LayoutCtx::new(self);
        layout_ctx.compute_layout(ty)
    }

    /// Returns the backend being compiled through.
    pub fn backend_kind(&self) -> (r: &BackendKind)
        ensures
            *r == self.target.codegen_backend,
    {
        &self.target.codegen_backend
    }

    /// Returns what kind of output the caller asked for.
    pub fn emit_kind(&self) -> (r: &EmitKind)
        ensures
            *r == self.arguments.emit_kind,
    {
        &self.arguments.emit_kind
    }
}

} // verus!
