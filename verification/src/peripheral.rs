//! Core peripherals

pub mod nvic;
