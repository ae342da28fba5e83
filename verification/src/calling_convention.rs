//! Calling conventions: how values cross a function boundary.

pub mod function;
