//! Core of a two-dimensional artificial-life simulation.
//!
//! A grid cell is empty, carries a passive block, or hosts an organism whose
//! behaviour is driven by a small recurrent network.  Each tick runs in two
//! phases: a read-only step phase in which every cell inspects its eight
//! neighbours and emits a local diff together with eight outgoing move
//! proposals, and a mutating update phase in which every cell resolves the
//! proposals addressed to it, applies stochastic spawn-in events, and mutates
//! its network.
//!
//! Scalar activations and weights are carried as `u32` activation codes: the
//! bit patterns of the IEEE single-precision values that the numeric kernel
//! works with.  For the nonnegative values the kernel produces, unsigned
//! comparison of codes agrees with numeric comparison, which is all the
//! decision logic here ever needs.  The numeric kernel itself (the gated
//! recurrent arithmetic) and every random draw live outside this crate; the
//! functions here consume their results as plain values.

pub mod brain;
pub mod cell;
pub mod decode;
pub mod engine;
pub mod laws;
