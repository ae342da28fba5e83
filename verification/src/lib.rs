//! Core of a retargetable compiler back end: a low-level intermediate
//! representation (LIR), a layout and calling-convention engine, and a
//! two-phase code-generation pipeline that is generic over a backend.
//!
//! The pipeline walks a [`lir::LirUnit`] and drives a backend through the
//! capability traits of [`ssa::traits`]: first every body is declared, then
//! every body is defined. The [`record`] backend is the concrete
//! realization that keeps the emitted module as plain data.

pub mod basic_blocks;
pub mod calling_convention;
pub mod idx;
pub mod index_slice;
pub mod index_vec;
pub mod layout;
pub mod layout_ctx;
pub mod lir;
pub mod record;
pub mod ssa;
pub mod size_and_align;
pub mod syntax;
pub mod target;
