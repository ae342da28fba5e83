//! The compilation target: backend choice, data layout, and target triple,
//! with their backend-native serializations.

use vstd::prelude::*;
use vstd::string::*;

use crate::size_and_align::{align_bytes_ok, AbiAndPrefAlign, Align, Size};

verus! {

/// The code-generation backend a target compiles through.
#[derive(Debug, Clone, Copy, PartialEq, Eq, Structural)]
pub enum BackendKind {
    /// The LLVM backend.
    Llvm,
    /// The Cranelift backend.
    Cranelift,
    /// The GCC (GNU Compiler Collection) backend.
    Gcc,
}

/// The address space an operation works in. Special address spaces change
/// code generation on targets that have them.
#[derive(Debug, Clone, Copy, PartialEq, Eq, Structural)]
pub enum AddressSpace {
    /// The default address space.
    DATA,
}

impl AddressSpace {
    /// The number the backend knows this address space by.
    pub open spec fn spec_as_u32(&self) -> u32 {
        match *self {
            AddressSpace::DATA => 0,
        }
    }

    /// Returns the number the backend knows this address space by.
    pub fn as_u32(&self) -> (r: u32)
        ensures
            r == self.spec_as_u32(),
    {
        match *self {
            AddressSpace::DATA => 0,
        }
    }
}

/// The byte order of the target architecture.
#[derive(Debug, Clone, Copy, PartialEq, Eq, Structural)]
pub enum Endianess {
    /// Least-significant byte first.
    Little,
    /// Most-significant byte first.
    Big,
}

/// The decimal digit standing for the value `d`.
pub open spec fn dec_digit(d: int) -> char {
    if d == 0 {
        '0'
    } else if d == 1 {
        '1'
    } else if d == 2 {
        '2'
    } else if d == 3 {
        '3'
    } else if d == 4 {
        '4'
    } else if d == 5 {
        '5'
    } else if d == 6 {
        '6'
    } else if d == 7 {
        '7'
    } else if d == 8 {
        '8'
    } else {
        '9'
    }
}

/// The decimal notation of `n`, most significant digit first.
pub open spec fn spec_dec(n: int) -> Seq<char>
    decreases n,
{
    if n < 10 {
        seq![dec_digit(n)]
    } else {
        spec_dec(n / 10).push(dec_digit(n % 10))
    }
}

/// Appends the single decimal digit `d` to `s`.
fn push_digit(s: &mut String, d: u64)
    requires
        d < 10,
    ensures
        final(s)@ == old(s)@.push(dec_digit(d as int)),
{
    if d == 0 {
        s.append("0");
    } else if d == 1 {
        s.append("1");
    } else if d == 2 {
        s.append("2");
    } else if d == 3 {
        s.append("3");
    } else if d == 4 {
        s.append("4");
    } else if d == 5 {
        s.append("5");
    } else if d == 6 {
        s.append("6");
    } else if d == 7 {
        s.append("7");
    } else if d == 8 {
        s.append("8");
    } else {
        s.append("9");
    }
    proof {
        reveal_strlit("0");
        reveal_strlit("1");
        reveal_strlit("2");
        reveal_strlit("3");
        reveal_strlit("4");
        reveal_strlit("5");
        reveal_strlit("6");
        reveal_strlit("7");
        reveal_strlit("8");
        reveal_strlit("9");
        assert(s@ =~= old(s)@.push(dec_digit(d as int)));
    }
}

/// Appends the decimal notation of `n` to `s`.
pub fn push_dec(s: &mut String, n: u64)
    ensures
        final(s)@ == old(s)@ + spec_dec(n as int),
    decreases n,
{
    if n < 10 {
        push_digit(s, n);
        proof {
            assert(s@ =~= old(s)@ + spec_dec(n as int));
        }
    } else {
        push_dec(s, n / 10);
        push_digit(s, n % 10);
        proof {
            assert(s@ =~= old(s)@ + spec_dec(n as int));
        }
    }
}

/// One `-<name>:<abi>:<pref>` clause of an LLVM data-layout string, with the
/// alignments in bytes.
pub open spec fn spec_align_part(name: Seq<char>, a: AbiAndPrefAlign) -> Seq<char> {
    ("-")@ + name + (":")@ + spec_dec(a.abi.0 as int) + (":")@ + spec_dec(a.pref.0 as int)
}

/// Appends `-<name>:<abi>:<pref>` to `s`.
fn push_align_part(s: &mut String, name: &str, a: &AbiAndPrefAlign)
    ensures
        final(s)@ == old(s)@ + spec_align_part(name@, *a),
{
    s.append("-");
    s.append(name);
    s.append(":");
    push_dec(s, a.abi.bytes());
    s.append(":");
    push_dec(s, a.pref.bytes());
    proof {
        assert(s@ =~= old(s)@ + spec_align_part(name@, *a));
    }
}

/// One `-v<bits>:<abi>:<pref>` clause for a vector width, the width in bits
/// and the alignments in bytes.
pub open spec fn spec_vector_part(v: (Size, AbiAndPrefAlign)) -> Seq<char> {
    ("-v")@ + spec_dec(v.0.0 * 8) + (":")@ + spec_dec(v.1.abi.0 as int) + (":")@ + spec_dec(
        v.1.pref.0 as int,
    )
}

/// The `-v...` clauses for every vector width, in order.
pub open spec fn spec_vector_parts(vs: Seq<(Size, AbiAndPrefAlign)>) -> Seq<char>
    decreases vs.len(),
{
    if vs.len() == 0 {
        Seq::empty()
    } else {
        spec_vector_parts(vs.drop_last()) + spec_vector_part(vs.last())
    }
}

/// Describes the target platform's data layout: type alignments, pointer
/// size, and the other ABI-relevant properties code generation needs.
#[derive(Debug, Clone, PartialEq, Eq)]
pub struct TargetDataLayout {
    /// The byte order of the target architecture.
    pub endianess: Endianess,
    /// Alignment of one-bit integers.
    pub i1_align: AbiAndPrefAlign,
    /// Alignment of eight-bit integers.
    pub i8_align: AbiAndPrefAlign,
    /// Alignment of sixteen-bit integers.
    pub i16_align: AbiAndPrefAlign,
    /// Alignment of thirty-two-bit integers.
    pub i32_align: AbiAndPrefAlign,
    /// Alignment of sixty-four-bit integers.
    pub i64_align: AbiAndPrefAlign,
    /// Alignment of 128-bit integers.
    pub i128_align: AbiAndPrefAlign,
    /// Alignment of sixteen-bit floating-point numbers.
    pub f16_align: AbiAndPrefAlign,
    /// Alignment of thirty-two-bit floating-point numbers.
    pub f32_align: AbiAndPrefAlign,
    /// Alignment of sixty-four-bit floating-point numbers.
    pub f64_align: AbiAndPrefAlign,
    /// Alignment of 128-bit floating-point numbers.
    pub f128_align: AbiAndPrefAlign,
    /// The size of pointers in bits.
    pub pointer_size: u64,
    /// The ABI and preferred alignment for pointers.
    pub pointer_align: AbiAndPrefAlign,
    /// The minimum and preferred alignment of aggregates (structs, arrays).
    pub aggregate_align: AbiAndPrefAlign,
    /// Alignments for vector types, by vector size.
    pub vector_align: Vec<(Size, AbiAndPrefAlign)>,
    /// The address space that instructions live in.
    pub instruction_address_space: AddressSpace,
}

/// An alignment pair whose members are both the given byte count.
pub open spec fn even_align(bytes: u64) -> AbiAndPrefAlign {
    AbiAndPrefAlign { abi: Align(bytes), pref: Align(bytes) }
}

/// Whether `dl` is the default data layout: big-endian, sixty-four-bit
/// pointers, natural alignments up to four bytes, and sixty-four- and
/// 128-bit vectors.
pub open spec fn is_default_data_layout(dl: TargetDataLayout) -> bool {
    &&& dl.endianess == Endianess::Big
    &&& dl.i1_align == even_align(1)
    &&& dl.i8_align == even_align(1)
    &&& dl.i16_align == even_align(2)
    &&& dl.i32_align == even_align(4)
    &&& dl.i64_align == AbiAndPrefAlign { abi: Align(4), pref: Align(8) }
    &&& dl.i128_align == AbiAndPrefAlign { abi: Align(4), pref: Align(8) }
    &&& dl.f16_align == even_align(2)
    &&& dl.f32_align == even_align(4)
    &&& dl.f64_align == even_align(8)
    &&& dl.f128_align == even_align(16)
    &&& dl.pointer_size == 64
    &&& dl.pointer_align == even_align(8)
    &&& dl.aggregate_align == AbiAndPrefAlign { abi: Align(0), pref: Align(8) }
    &&& dl.vector_align@ =~= seq![
        (Size(8), even_align(8)),
        (Size(16), even_align(16)),
    ]
    &&& dl.instruction_address_space == AddressSpace::DATA
}

/// The LLVM data-layout string for `dl`: endianness, the pointer clause,
/// one clause per integer and floating-point width, the aggregate clause,
/// the vector clauses, and the instruction address space.
pub open spec fn spec_llvm_datalayout(dl: TargetDataLayout) -> Seq<char> {
    (if dl.endianess == Endianess::Little {
        ("e")@
    } else {
        ("E")@
    }) + ("-p:")@ + spec_dec(dl.pointer_size as int) + (":")@ + spec_dec(
        dl.pointer_align.abi.0 as int,
    ) + (":")@ + spec_dec(dl.pointer_align.pref.0 as int) + spec_align_part(("i1")@, dl.i1_align)
        + spec_align_part(("i8")@, dl.i8_align) + spec_align_part(("i16")@, dl.i16_align)
        + spec_align_part(("i32")@, dl.i32_align) + spec_align_part(("i64")@, dl.i64_align)
        + spec_align_part(("i128")@, dl.i128_align) + spec_align_part(("f16")@, dl.f16_align)
        + spec_align_part(("f32")@, dl.f32_align) + spec_align_part(("f64")@, dl.f64_align)
        + spec_align_part(("f128")@, dl.f128_align) + spec_align_part(("a")@, dl.aggregate_align)
        + spec_vector_parts(dl.vector_align@) + ("-P")@ + spec_dec(
        dl.instruction_address_space.spec_as_u32() as int,
    )
}

impl Default for TargetDataLayout {
    /// The default data layout.
    fn default() -> (r: Self)
        ensures
            is_default_data_layout(r),
    {
        proof {
            reveal_with_fuel(crate::size_and_align::is_power_of_two, 10);
            assert(align_bytes_ok(0) && align_bytes_ok(1) && align_bytes_ok(2) && align_bytes_ok(4)
                && align_bytes_ok(8) && align_bytes_ok(16));
        }
        let mut vector_align: Vec<(Size, AbiAndPrefAlign)> = Vec::new();
        vector_align.push((Size::from_bits(64), AbiAndPrefAlign::new(8, 8)));
        vector_align.push((Size::from_bits(128), AbiAndPrefAlign::new(16, 16)));
        TargetDataLayout {
            endianess: Endianess::Big,
            i1_align: AbiAndPrefAlign::new(1, 1),
            i8_align: AbiAndPrefAlign::new(1, 1),
            i16_align: AbiAndPrefAlign::new(2, 2),
            i32_align: AbiAndPrefAlign::new(4, 4),
            i64_align: AbiAndPrefAlign::new(4, 8),
            i128_align: AbiAndPrefAlign::new(4, 8),
            f16_align: AbiAndPrefAlign::new(2, 2),
            f32_align: AbiAndPrefAlign::new(4, 4),
            f64_align: AbiAndPrefAlign::new(8, 8),
            f128_align: AbiAndPrefAlign::new(16, 16),
            pointer_size: 64,
            pointer_align: AbiAndPrefAlign::new(8, 8),
            aggregate_align: AbiAndPrefAlign::new(0, 8),
            vector_align,
            instruction_address_space: AddressSpace::DATA,
        }
    }
}

impl TargetDataLayout {
    /// Creates the default data layout.
    pub fn new() -> (r: Self)
        ensures
            is_default_data_layout(r),
    {
        TargetDataLayout::default()
    }

    /// Serializes the layout in LLVM's data-layout notation, for example
    /// `E-p:64:8:8-i1:1:1-...-P0`.
    pub fn as_llvm_datalayout_string(&self) -> (r: String)
        requires
            forall|i: int|
                0 <= i < self.vector_align@.len() ==> (#[trigger] self.vector_align@[i]).0.0 * 8
                    <= u64::MAX,
        ensures
            r@ == spec_llvm_datalayout(*self),
    {
        let mut s = String::new();
        if self.endianess == Endianess::Little {
            s.append("e");
        } else {
            s.append("E");
        }
        s.append("-p:");
        push_dec(&mut s, self.pointer_size);
        s.append(":");
        push_dec(&mut s, self.pointer_align.abi.bytes());
        s.append(":");
        push_dec(&mut s, self.pointer_align.pref.bytes());
        let ghost head = s@;
        push_align_part(&mut s, "i1", &self.i1_align);
        push_align_part(&mut s, "i8", &self.i8_align);
        push_align_part(&mut s, "i16", &self.i16_align);
        push_align_part(&mut s, "i32", &self.i32_align);
        push_align_part(&mut s, "i64", &self.i64_align);
        push_align_part(&mut s, "i128", &self.i128_align);
        push_align_part(&mut s, "f16", &self.f16_align);
        push_align_part(&mut s, "f32", &self.f32_align);
        push_align_part(&mut s, "f64", &self.f64_align);
        push_align_part(&mut s, "f128", &self.f128_align);
        push_align_part(&mut s, "a", &self.aggregate_align);
        let ghost mid = s@;
        let mut k: usize = 0;
        let n = self.vector_align.len();
        while k < n
            invariant
                n == self.vector_align@.len(),
                k <= n,
                forall|i: int|
                    0 <= i < self.vector_align@.len() ==> (#[trigger] self.vector_align@[i]).0.0
                        * 8 <= u64::MAX,
                s@ == mid + spec_vector_parts(self.vector_align@.subrange(0, k as int)),
            decreases n - k,
        {
            let (size, align) = self.vector_align[k];
            let ghost before = s@;
            s.append("-v");
            push_dec(&mut s, size.bytes() * 8);
            s.append(":");
            push_dec(&mut s, align.abi.bytes());
            s.append(":");
            push_dec(&mut s, align.pref.bytes());
            proof {
                assert(s@ =~= before + spec_vector_part(self.vector_align@[k as int]));
                assert(self.vector_align@.subrange(0, k + 1).drop_last() =~= self
                    .vector_align@.subrange(0, k as int));
                assert(self.vector_align@.subrange(0, k + 1).last() == self.vector_align@[
                    k as int]);
                assert(s@ =~= mid + spec_vector_parts(self.vector_align@.subrange(0, k + 1)));
            }
            k = k + 1;
        }
        s.append("-P");
        push_dec(&mut s, self.instruction_address_space.as_u32() as u64);
        proof {
            assert(self.vector_align@.subrange(0, self.vector_align@.len() as int) =~= self
                .vector_align@);
            assert(s@ =~= spec_llvm_datalayout(*self));
        }
        s
    }
}

/// A target triple: the architecture, vendor, operating system, environment
/// and ABI that together identify a compilation target, each kept
/// separately.
#[derive(Debug, Clone, PartialEq, Eq)]
pub struct TargetTriple {
    /// The target architecture (for example `x86_64` or `aarch64`).
    pub arch: String,
    /// The target vendor (for example `unknown` or `apple`).
    pub vendor: String,
    /// The target operating system (for example `linux` or `windows`).
    pub os: String,
    /// The target environment or runtime (for example `gnu` or `musl`).
    pub env: String,
    /// The ABI used on the target (for example `eabi`).
    pub abi: String,
}

/// The dash-joined form of a triple, as LLVM expects it.
pub open spec fn spec_llvm_triple(t: TargetTriple) -> Seq<char> {
    t.arch@ + ("-")@ + t.vendor@ + ("-")@ + t.os@ + ("-")@ + t.env@ + ("-")@ + t.abi@
}

impl TargetTriple {
    /// Creates a triple from its five components.
    pub fn new(arch: &str, vendor: &str, os: &str, env: &str, abi: &str) -> (r: Self)
        ensures
            r.arch@ == arch@,
            r.vendor@ == vendor@,
            r.os@ == os@,
            r.env@ == env@,
            r.abi@ == abi@,
    {
        TargetTriple {
            arch: arch.to_owned(),
            vendor: vendor.to_owned(),
            os: os.to_owned(),
            env: env.to_owned(),
            abi: abi.to_owned(),
        }
    }

    /// Serializes the triple in LLVM's dash-joined notation, architecture
    /// first.
    pub fn into_llvm_triple_string(&self) -> (r: String)
        ensures
            r@ == spec_llvm_triple(*self),
    {
        let mut s = String::new();
        s.append(self.arch.as_str());
        s.append("-");
        s.append(self.vendor.as_str());
        s.append("-");
        s.append(self.os.as_str());
        s.append("-");
        s.append(self.env.as_str());
        s.append("-");
        s.append(self.abi.as_str());
        proof {
            assert(s@ =~= spec_llvm_triple(*self));
        }
        s
    }
}

/// The target configuration code generation runs against: the backend, the
/// data layout, and an optional triple.
#[derive(Debug)]
pub struct LirTarget {
    /// The code-generation backend to use.
    pub codegen_backend: BackendKind,
    /// The data layout of the target.
    pub data_layout: TargetDataLayout,
    /// The target triple. When absent, the backend falls back to its host
    /// default, which may change platform-specific behaviour.
    pub target_triple: Option<TargetTriple>,
}

impl LirTarget {
    /// Creates a target with the default data layout and no triple.
    pub fn new(codegen_backend: BackendKind) -> (r: Self)
        ensures
            r.codegen_backend == codegen_backend,
            is_default_data_layout(r.data_layout),
            r.target_triple is None,
    {
        LirTarget { data_layout: TargetDataLayout::new(), codegen_backend, target_triple: None }
    }

    /// Serializes the data layout in the backend's native notation. Only the
    /// LLVM flavour exists so far.
    pub fn data_layout_string(&self) -> (r: String)
        requires
            self.codegen_backend == BackendKind::Llvm,
            forall|i: int|
                0 <= i < self.data_layout.vector_align@.len() ==> (
                #[trigger] self.data_layout.vector_align@[i]).0.0 * 8 <= u64::MAX,
        ensures
            r@ == spec_llvm_datalayout(self.data_layout),
    {
        self.data_layout.as_llvm_datalayout_string()
    }

    /// Serializes the target triple in the backend's native notation, or
    /// `None` when no triple is set. Only the LLVM flavour exists so far.
    pub fn target_triple_string(&self) -> (r: Option<String>)
        requires
            self.target_triple is Some ==> self.codegen_backend == BackendKind::Llvm,
        ensures
            self.target_triple is None ==> r is None,
            self.target_triple is Some ==> r is Some && r->0@ == spec_llvm_triple(
                self.target_triple->0,
            ),
    {
        match &self.target_triple {
            None => None,
            Some(t) => Some(t.into_llvm_triple_string()),
        }
    }
}

} // verus!
