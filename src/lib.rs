//! The core of an ARM7TDMI handheld console, with its behaviour stated in
//! contracts and proved.
//!
//! - `alu`: barrel shifter and arithmetic primitives with carry and overflow.
//! - `registers`: the banked register file and the status words.
//! - `ioreg`, `memory`: the memory map, its mirrors and the I/O page masks.
//! - `cpu`: the processor state, operand reads, exception entry and return.
//! - `transfer`: block loads and stores shared by both instruction sets.
//! - `thumb`, `arm`: the two interpreters; `machine`: one fetch-execute step.
//! - `render`, `sprites`: background and sprite scanline producers.
//! - `lcd`: line buffers and the per-pixel compositor.
//! - `gba`: the frame driver's decisions over scanlines and interrupts.
pub mod alu;
pub mod registers;
pub mod ioreg;
pub mod memory;
pub mod cpu;
pub mod lcd;
pub mod transfer;
pub mod thumb;
pub mod arm;
pub mod machine;
pub mod render;
pub mod sprites;
pub mod gba;
