//! A CHIP-8 interpreter core: memory, registers, call stack, timers,
//! keypad and framebuffer, with every instruction specified and verified.
pub mod instruction;
pub mod machine;
pub mod cpu;
pub mod display;
pub mod laws;
