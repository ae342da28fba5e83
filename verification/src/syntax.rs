//! The LIR syntax: types, locals, places, rvalues, constants, statements
//! and terminators. Pure data; the operations live in the codegen modules.

use vstd::prelude::*;

use crate::idx::Idx;

verus! {

/// The primitive types of LIR: signed integers, plus a distinguished
/// `Metadata` type used only for backend metadata parameters.
#[derive(Debug, Clone, Copy, PartialEq, Eq, Structural)]
pub enum LirTy {
    I8,
    I16,
    I32,
    I64,
    I128,
    /// A zero-sized type carrying backend metadata.
    Metadata,
}

/// A local variable in the LIR: a dense index into the table of locals of a
/// body. Index zero is the return place.
#[derive(Debug, Clone, Copy, PartialEq, Eq, Structural)]
pub struct Local(pub usize);

impl Local {
    /// The return place of a body: the local with index zero.
    pub open spec fn spec_return_local() -> Local {
        Local(0)
    }

    /// Returns the return place: the local with index zero.
    pub fn return_local() -> (r: Local)
        ensures
            r == Local::spec_return_local(),
    {
        Local(0)
    }

    /// The local one position after this one.
    pub fn next(&self) -> (r: Local)
        requires
            self.0 + 1 <= usize::MAX,
        ensures
            r.0 == self.0 + 1,
    {
        Local(self.0 + 1)
    }
}

/// A body identifier inside a unit: a dense index into the unit's table of
/// bodies.
#[derive(Debug, Clone, Copy, PartialEq, Eq, Structural)]
pub struct Body(pub usize);

impl Idx for Local {
    open spec fn widx(&self) -> int {
        self.0 as int
    }

    open spec fn from_widx(idx: int) -> Local {
        Local(idx as usize)
    }

    proof fn widx_in_range(&self) {
    }

    proof fn from_widx_widx(idx: int) {
    }

    fn new(idx: usize) -> Local {
        Local(idx)
    }

    fn idx(&self) -> usize {
        self.0
    }

    fn incr(&mut self) {
        self.0 = self.0 + 1;
    }

    fn incr_by(&mut self, by: usize) {
        self.0 = self.0 + by;
    }
}

impl Idx for Body {
    open spec fn widx(&self) -> int {
        self.0 as int
    }

    open spec fn from_widx(idx: int) -> Body {
        Body(idx as usize)
    }

    proof fn widx_in_range(&self) {
    }

    proof fn from_widx_widx(idx: int) {
    }

    fn new(idx: usize) -> Body {
        Body(idx)
    }

    fn idx(&self) -> usize {
        self.0
    }

    fn incr(&mut self) {
        self.0 = self.0 + 1;
    }

    fn incr_by(&mut self, by: usize) {
        self.0 = self.0 + by;
    }
}

/// One step of a place's projection path: field access, dereference, or
/// indexing. Only a placeholder exists so far; assignments go to whole
/// locals.
#[derive(Debug, Clone, Copy, PartialEq, Eq, Structural)]
pub enum Projection {
    /// The placeholder projection; no lowering exists for it yet.
    Todo,
}

/// A memory location in LIR: a base local and a (possibly empty) projection
/// path into its subparts.
#[derive(Debug)]
pub struct Place {
    /// The base local this place starts from.
    pub local: Local,
    /// Steps from the base local into its subparts, outermost first.
    pub projection: Vec<Projection>,
}

impl Place {
    /// Returns the place's local when the place is the whole local, and
    /// `None` when a projection path remains.
    pub fn try_local(&self) -> (r: Option<Local>)
        ensures
            self.projection@.len() == 0 ==> r == Some(self.local),
            self.projection@.len() != 0 ==> r is None,
    {
        if self.projection.is_empty() {
            Some(self.local)
        } else {
            None
        }
    }
}

/// The number of 0xff bytes that a scalar of `bytes` bytes can hold: the
/// mask that keeps a value's low `bytes` bytes.
pub open spec fn scalar_mask(bytes: int) -> u128
    decreases bytes,
{
    if bytes <= 0 {
        0
    } else {
        (scalar_mask(bytes - 1) * 256 + 255) as u128
    }
}

/// Returns the mask that keeps a value's low `bytes` bytes.
pub fn scalar_mask_of(bytes: u8) -> (r: u128)
    requires
        bytes <= 16,
    ensures
        r == scalar_mask(bytes as int),
{
    proof {
        reveal_with_fuel(scalar_mask, 18);
    }
    if bytes == 0 {
        0
    } else if bytes == 1 {
        0xff
    } else if bytes == 2 {
        0xffff
    } else if bytes == 3 {
        0xffffff
    } else if bytes == 4 {
        0xffffffff
    } else if bytes == 5 {
        0xffffffffff
    } else if bytes == 6 {
        0xffffffffffff
    } else if bytes == 7 {
        0xffffffffffffff
    } else if bytes == 8 {
        0xffffffffffffffff
    } else if bytes == 9 {
        0xffffffffffffffffff
    } else if bytes == 10 {
        0xffffffffffffffffffff
    } else if bytes == 11 {
        0xffffffffffffffffffffff
    } else if bytes == 12 {
        0xffffffffffffffffffffffff
    } else if bytes == 13 {
        0xffffffffffffffffffffffffff
    } else if bytes == 14 {
        0xffffffffffffffffffffffffffff
    } else if bytes == 15 {
        0xffffffffffffffffffffffffffffff
    } else {
        0xffffffffffffffffffffffffffffffff
    }
}

/// Keeping a value's low bytes twice keeps them once: masking is
/// idempotent, so a scalar written with `bytes` bytes reads back unchanged.
pub proof fn lemma_scalar_mask_idempotent(x: u128, m: u128)
    ensures
        (x & m) & m == x & m,
{
    assert((x & m) & m == x & m) by (bit_vector);
}

/// The raw bytes of a scalar constant: up to sixteen meaningful low-order
/// bytes of a 128-bit word, the rest zero.
#[derive(Debug, Clone, Copy, PartialEq, Eq, Structural)]
pub struct RawScalarValue {
    /// The value, held in the low-order `size` bytes. The higher bytes are
    /// zero.
    pub data: u128,
    /// How many low-order bytes of `data` are meaningful: one to sixteen.
    pub size: u8,
}

impl RawScalarValue {
    /// A well-formed scalar: the size is between one and sixteen bytes and
    /// no byte beyond it is set.
    pub open spec fn wf(&self) -> bool {
        &&& 1 <= self.size <= 16
        &&& self.data == self.data & scalar_mask(self.size as int)
    }

    /// Creates a scalar of `size` bytes holding the low `size` bytes of
    /// `data`.
    pub fn new(data: u128, size: u8) -> (r: RawScalarValue)
        requires
            1 <= size <= 16,
        ensures
            r.size == size,
            r.data == data & scalar_mask(size as int),
            r.wf(),
    {
        let m = scalar_mask_of(size);
        let masked = data & m;
        proof {
            lemma_scalar_mask_idempotent(data, m);
        }
        RawScalarValue { data: masked, size }
    }

    /// Returns the raw bits of a scalar whose size agrees with the layout
    /// size `size`; a disagreement is a malformed constant and is ruled out.
    pub fn to_bits(&self, size: crate::size_and_align::Size) -> (r: u128)
        requires
            self.wf(),
            self.size as int == size.0,
        ensures
            r == self.data,
            r == r & scalar_mask(size.0 as int),
    {
        self.data
    }
}

/// Round trip for a raw scalar: materializing the low `bytes` bytes of `x`
/// and reading the same low bytes back preserves exactly `x` masked to
/// those bytes.
pub proof fn lemma_raw_scalar_round_trip(x: u128, bytes: u8)
    requires
        1 <= bytes <= 16,
    ensures
        (x & scalar_mask(bytes as int)) & scalar_mask(bytes as int) == x & scalar_mask(
            bytes as int,
        ),
{
    lemma_scalar_mask_idempotent(x, scalar_mask(bytes as int));
}

/// A constant scalar value, as raw bytes.
#[derive(Debug, Clone, Copy, PartialEq, Eq, Structural)]
pub enum ConstScalar {
    /// Raw byte representation of the constant.
    Value(RawScalarValue),
}

/// A constant value: nothing at all for a zero-sized type, or a scalar.
#[derive(Debug, Clone, Copy, PartialEq, Eq, Structural)]
pub enum ConstValue {
    /// A constant of a zero-sized type.
    ZST,
    /// A constant scalar.
    Scalar(ConstScalar),
}

/// A compile-time constant together with its LIR type.
#[derive(Debug, Clone, Copy, PartialEq, Eq, Structural)]
pub enum ConstOperand {
    /// A constant value of the given type.
    Value(ConstValue, LirTy),
}

impl ConstOperand {
    /// The constant's value.
    pub fn value(&self) -> (r: ConstValue)
        ensures
            r == self->Value_0,
    {
        match *self {
            ConstOperand::Value(v, _) => v,
        }
    }

    /// The constant's LIR type.
    pub fn ty(&self) -> (r: LirTy)
        ensures
            r == self->Value_1,
    {
        match *self {
            ConstOperand::Value(_, t) => t,
        }
    }
}

/// A right-hand side: something evaluated to produce a value. Only
/// constants exist so far.
#[derive(Debug)]
pub enum RValue {
    /// A constant known at compile time.
    Const(ConstOperand),
}

/// A local's declaration: its type and whether it may be written more than
/// once.
#[derive(Debug, Clone, Copy, PartialEq, Eq, Structural)]
pub struct LocalData {
    /// The type of the local.
    pub ty: LirTy,
    /// Whether the local is mutable.
    pub mutable: bool,
}

/// A statement of a basic block: an operation that does not transfer
/// control.
#[derive(Debug)]
pub enum Statement {
    /// Evaluate the rvalue and store it into the place.
    Assign(Box<(Place, RValue)>),
}

/// The terminator of a basic block: the operation that ends it and hands
/// control on.
#[derive(Debug)]
pub enum Terminator {
    /// Return from the body; the value is whatever the return place holds.
    Return,
}

} // verus!
