//! A lane-level model of the SSE4a operations: bit-field extraction and
//! insertion on the low 64-bit lane of a 128-bit register, and the two
//! scalar non-temporal stores with their store-fence obligation.
//!
//! Every operation is a total function on plain values whose contract fixes
//! the defined part of the instruction's result and excludes, by `requires`,
//! the operand combinations for which the instruction leaves it undefined.

pub mod lane;
pub mod descriptor;
pub mod bitfield;
pub mod stream;
