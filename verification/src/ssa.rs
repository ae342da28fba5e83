//! The backend-independent half of code generation: the backend
//! abstraction, operand and place references, and the lowering pipeline.

pub mod entry;
pub mod lir;
pub mod traits;
