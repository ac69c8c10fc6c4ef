//! Processor core registers

pub mod apsr;
pub mod control;
pub mod primask;
