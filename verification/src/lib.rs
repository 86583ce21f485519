//! Execution core of a small 32-bit CPU with segmented addressing: a register
//! file with variable-width aliasing, a width-tagged ALU with exact flag
//! semantics, an instruction fetch / operand decode engine, and an address bus
//! that routes byte- and word-granularity accesses to mapped devices.

pub mod consts;
pub mod memory;
pub mod processor;
pub mod regval;
pub mod rustmemory;
pub mod utils;
