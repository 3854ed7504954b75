//! A gravitational five-body kernel (sun plus four outer planets) advanced by a
//! fixed-step symplectic integrator.
//!
//! Every scalar in this crate is the bit pattern of an IEEE-754 double, carried
//! as a `u64`. The four arithmetic operations and the square root are performed
//! by a software floating-point library behind trusted wrappers (`fp`); each
//! operation's result is given an uninterpreted name, and the integrator, the
//! momentum offset and the energy diagnostic are verified to compute exactly
//! the fold of those named operations that the kernel's contract prescribes:
//! pair geometry frozen at the start of a step, velocities kicked pair by pair
//! in lexicographic order, positions drifted last.

pub mod fp;
pub mod triple;
pub mod sim;
pub mod laws;


