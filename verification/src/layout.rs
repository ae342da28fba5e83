//! How a type is laid out: its size, alignment, and the shape in which a
//! backend handles its values.

use vstd::prelude::*;

use crate::size_and_align::{AbiAndPrefAlign, Size};
use crate::target::AddressSpace;

verus! {

/// Primitive value shapes a backend can hold in a single scalar.
#[derive(Debug, Clone, Copy, PartialEq, Eq, Structural)]
pub enum Primitive {
    /// A signed integer of the named width.
    I8,
    I16,
    I32,
    I64,
    I128,
    /// An unsigned integer of the named width.
    U8,
    U16,
    U32,
    U64,
    U128,
    /// A floating-point number of the named width.
    F16,
    F32,
    F64,
    F128,
    /// A pointer into the given address space.
    Pointer(AddressSpace),
}

/// How a value of a type is handed to the backend: as a single scalar, or
/// as a block of memory. A pair of scalars is a planned extension.
#[derive(Debug, Clone, Copy, PartialEq, Eq, Structural)]
pub enum BackendRepr {
    /// The value is a scalar, such as an integer or a pointer.
    Scalar(Primitive),
    /// The value lives in memory and is handled through its address.
    Memory,
}

/// The layout of a type: size, alignment, and backend representation.
#[derive(Debug, Clone, Copy, PartialEq, Eq, Structural)]
pub struct Layout {
    /// The size of the type in bytes.
    pub size: Size,
    /// The ABI and preferred alignment of the type.
    pub align: AbiAndPrefAlign,
    /// How the backend holds values of the type.
    pub backend_repr: BackendRepr,
}

impl Layout {
    /// Whether this layout is a zero-sized type: memory-shaped with no bytes.
    /// Scalar layouts are never zero-sized.
    pub open spec fn spec_is_zst(&self) -> bool {
        match self.backend_repr {
            BackendRepr::Scalar(_) => false,
            BackendRepr::Memory => self.size.0 == 0,
        }
    }

    /// Whether values of this layout are single scalars.
    pub open spec fn spec_is_immediate(&self) -> bool {
        self.backend_repr is Scalar
    }

    /// Whether values of this layout live in memory.
    pub open spec fn spec_is_memory(&self) -> bool {
        self.backend_repr is Memory
    }

    /// Returns true when the layout is a zero-sized type.
    pub fn is_zst(&self) -> (r: bool)
        ensures
            r == self.spec_is_zst(),
    {
        match self.backend_repr {
            BackendRepr::Scalar(_) => false,
            BackendRepr::Memory => self.size.bytes() == 0,
        }
    }

    /// Returns true when values of this layout are single scalars.
    pub fn is_immediate(&self) -> (r: bool)
        ensures
            r == self.spec_is_immediate(),
    {
        match self.backend_repr {
            BackendRepr::Scalar(_) => true,
            BackendRepr::Memory => false,
        }
    }

    /// Returns true when values of this layout live in memory.
    pub fn is_memory(&self) -> (r: bool)
        ensures
            r == self.spec_is_memory(),
    {
        match self.backend_repr {
            BackendRepr::Memory => true,
            BackendRepr::Scalar(_) => false,
        }
    }
}

impl BackendRepr {
    /// Returns the primitive of a scalar representation. A memory
    /// representation has none, so the caller must rule it out.
    pub fn to_primitive(&self) -> (r: Primitive)
        requires
            self is Scalar,
        ensures
            r == self->Scalar_0,
    {
        match self {
            BackendRepr::Scalar(p) => *p,
            BackendRepr::Memory => {
                proof {
                    assert(false);
                }
                Primitive::I8
            },
        }
    }
}

/// A type together with its layout.
#[derive(Debug, Clone, Copy, PartialEq, Eq, Structural)]
pub struct TyAndLayout<T> {
    /// The type this layout describes.
    pub ty: T,
    /// The layout of the type.
    pub layout: Layout,
}

} // verus!
