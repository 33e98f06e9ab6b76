//! A CHIP-8 virtual machine core: memory, registers, call stack, timers,
//! framebuffer and keypad, driven one instruction per step.

pub mod instruction;
pub mod keyboard;
pub mod outcome;
pub mod ram;
pub mod display;
pub mod model;
pub mod cpu;
pub mod chip8;
pub mod random;
pub mod laws;
