//! Low level access to Cortex-M processors, with machine-checked contracts.
//!
//! This crate provides:
//!
//! - Decoders for core registers like CONTROL, APSR and PRIMASK.
//! - Critical sections, and storage that only a critical section can reach.
//! - Storage local to one execution context.
//! - A model of the Nested Vector Interrupt Controller.
//!
//! Everything that touches the processor itself goes through the
//! [`interrupt::Mask`] trait, so the same verified code runs on a device and
//! on a host.

pub mod bits;
pub mod ctxt;
pub mod interrupt;
pub mod peripheral;
pub mod register;
