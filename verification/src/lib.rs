//! Safe abstractions for CPU-accessible, kernel-allocated graphics buffers:
//! descriptor metadata, scoped memory mappings, and a closed error taxonomy
//! for raw operating-system error codes.

pub mod buffer;
pub mod control;
pub mod result;
