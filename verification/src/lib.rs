//! A CHIP-8 interpreter whose behaviour is stated in contracts and proved.
//!
//! `machine` holds the mathematical model: the state of the interpreter and
//! what each instruction, step and frame does to it. `cpu` is the executable
//! interpreter, proved to follow the model. `renderer`, `keyboard` and
//! `speaker` are the display, keypad and tone that the interpreter works on,
//! and `pacing` says when a frame is due; windows, audio devices, clocks and
//! files are left to the host. `laws` states what holds of the model as a
//! whole.
#![allow(non_snake_case)]

pub mod cpu;
pub mod fault;
pub mod instruction;
pub mod keyboard;
pub mod laws;
pub mod machine;
pub mod pacing;
mod random;
pub mod renderer;
pub mod speaker;
pub mod sprite;
pub mod tile;
