//! Sizes and alignments of types, counted in whole bytes.

use vstd::prelude::*;

verus! {

/// Size of a type in bytes.
#[derive(Debug, Clone, Copy, PartialEq, Eq, Structural)]
pub struct Size(pub u64);

/// Alignment of a type in bytes: a power of two, or `0` as a sentinel
/// meaning "natural alignment" (one byte).
#[derive(Debug, Clone, Copy, PartialEq, Eq, Structural)]
pub struct Align(pub u64);

/// Why a byte count was rejected as an alignment.
#[derive(Debug, Clone, Copy, PartialEq, Eq, Structural)]
pub enum AlignError {
    /// The count does not fit the machine's address arithmetic.
    TooLarge(u64),
    /// The count is neither zero nor a power of two.
    NotPowerOfTwo(u64),
}

/// Whether `n` is a power of two.
pub open spec fn is_power_of_two(n: int) -> bool
    decreases n,
{
    if n <= 0 {
        false
    } else if n == 1 {
        true
    } else {
        n % 2 == 0 && is_power_of_two(n / 2)
    }
}

/// The number of whole bytes needed to hold `bits` bits: `bits / 8`,
/// rounded up.
pub open spec fn spec_size_from_bits(bits: int) -> int {
    bits / 8 + if bits % 8 == 0 {
        0int
    } else {
        1int
    }
}

/// What `Align::from_bytes` returns for each byte count: zero is the
/// sentinel and is accepted; a count that is not a power of two is refused
/// before one that is too large for address arithmetic.
pub open spec fn spec_align_from_bytes(align: u64) -> Result<Align, AlignError> {
    if align == 0 {
        Ok(Align(0))
    } else if !is_power_of_two(align as int) {
        Err(AlignError::NotPowerOfTwo(align))
    } else if align > u64::MAX / 8 {
        Err(AlignError::TooLarge(align))
    } else {
        Ok(Align(align))
    }
}

impl Size {
    /// Rounds `bits` up to the next-higher byte boundary, if `bits` is not a
    /// multiple of eight.
    pub fn from_bits(bits: u64) -> (r: Size)
        ensures
            r.0 == spec_size_from_bits(bits as int),
    {
        // Avoid potential overflow from `bits + 7`.
        Size(bits / 8 + ((bits % 8) + 7) / 8)
    }

    /// Returns the size in bytes.
    pub fn bytes(&self) -> (r: u64)
        ensures
            r == self.0,
    {
        self.0
    }
}

impl Align {
    /// Creates an `Align` from a bit count, rounding up to whole bytes.
    pub fn from_bits(bits: u64) -> (r: Result<Align, AlignError>)
        ensures
            r == spec_align_from_bytes(spec_size_from_bits(bits as int) as u64),
    {
        Align::from_bytes(Size::from_bits(bits).bytes())
    }

    /// Creates an `Align` from a byte count; zero stands for natural
    /// (one-byte) alignment and is accepted.
    pub fn from_bytes(align: u64) -> (r: Result<Align, AlignError>)
        ensures
            r == spec_align_from_bytes(align),
    {
        if align == 0 {
            return Ok(Align(0));
        }
        let mut m = align;
        while m % 2 == 0
            invariant
                m > 0,
                is_power_of_two(align as int) <==> is_power_of_two(m as int),
            decreases m,
        {
            m = m / 2;
        }
        if m != 1 {
            return Err(AlignError::NotPowerOfTwo(align));
        }
        if align > u64::MAX / 8 {
            return Err(AlignError::TooLarge(align));
        }
        Ok(Align(align))
    }

    /// Returns the alignment in bytes; zero is the natural-alignment
    /// sentinel.
    pub fn bytes(&self) -> (r: u64)
        ensures
            r == self.0,
    {
        self.0
    }
}

/// The ABI-required and the preferred alignment of a type, in bytes.
///
/// Both are powers of two (or the zero sentinel). The ABI alignment is the
/// minimum the platform demands; the preferred one may be larger where that
/// runs faster.
#[derive(Debug, Clone, Copy, PartialEq, Eq, Structural)]
pub struct AbiAndPrefAlign {
    /// The alignment required by the ABI for this type.
    pub abi: Align,
    /// The preferred alignment, which may be larger than the ABI alignment.
    pub pref: Align,
}

/// Whether a byte count is a valid alignment: zero (the sentinel) or a
/// power of two small enough for address arithmetic.
pub open spec fn align_bytes_ok(bytes: u64) -> bool {
    spec_align_from_bytes(bytes) is Ok
}

impl AbiAndPrefAlign {
    /// Creates an `AbiAndPrefAlign` from the ABI-required and the preferred
    /// alignment, both given in bytes.
    pub fn new(abi: u64, pref: u64) -> (r: Self)
        requires
            align_bytes_ok(abi),
            align_bytes_ok(pref),
        ensures
            r.abi == Align(abi),
            r.pref == Align(pref),
    {
        let a = match Align::from_bytes(abi) {
            Ok(a) => a,
            Err(_) => {
                proof {
                    assert(false);
                }
                Align(0)
            },
        };
        let p = match Align::from_bytes(pref) {
            Ok(p) => p,
            Err(_) => {
                proof {
                    assert(false);
                }
                Align(0)
            },
        };
        AbiAndPrefAlign { abi: a, pref: p }
    }
}

} // verus!
