//! Verified core of a Monte Carlo path tracer: the row-major frame of 8-bit
//! RGB pixels that a render fills, its PNG encoding, and the control of the
//! depth-bounded light-transport recursion.

pub mod frame;
pub mod encode;
pub mod integrator;
