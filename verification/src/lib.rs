//! A multi-stage color transform engine on fixed-point samples.
//!
//! A pipeline is an ordered chain of stages. Samples are signed fixed-point
//! numbers in which `sample::ONE` stands for 1.0, so every kernel is exact
//! integer arithmetic with one rounding per output.

pub mod sample;
pub mod stage_type;
pub mod stage;
pub mod pipeline;
pub mod fixed_point;
pub mod laws;
