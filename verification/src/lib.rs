//! A CHIP-8 virtual machine: memory, registers, call stack, framebuffer,
//! keypad, instruction decoder and interpreter, each with a machine-checked
//! contract.

pub mod chip8;
pub mod display;
pub mod emulator;
pub mod error;
pub mod instruction;
pub mod instructions;
pub mod keyboard;
pub mod machine;
pub mod memory;
pub mod processor;
pub mod registers;
pub mod stack;
pub mod theorems;
