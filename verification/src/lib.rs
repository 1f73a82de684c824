//! Core of a pen-driven virtual steering wheel: the decisions that turn pen
//! samples into wheel and horn commands, the model of the virtual
//! force-feedback controller, and the fixed-rate tick schedule.
//!
//! The core decides and keeps; it does not compute with real numbers, wait,
//! read or write. Single-precision numbers pass through it as their bits:
//! it compares, clamps and negates them exactly, and leaves their
//! arithmetic, like all input and output, to the program around it.

pub mod config;
pub mod controller;
pub mod device;
pub mod event;
pub mod mapping;
pub mod pen;
pub mod single;
pub mod source;
pub mod state;
pub mod timer;
pub mod wheel;
