//! A CHIP-8 virtual machine core: the instruction set, the fetch-decode-dispatch
//! cycle and the timers, each stated against a mathematical model of the machine.
//!
//! `machine` holds the model and `laws` what is proved of it; `processor` and
//! `chip_8` are two interpreters that meet it, `display` lays the screen out
//! on a host window.

pub mod fault;
pub mod font;
pub mod machine;
pub mod sprite;
pub mod laws;
pub mod rng;
pub mod processor;
pub mod chip_8;
pub mod display;
