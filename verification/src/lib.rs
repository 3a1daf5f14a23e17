//! A verified CHIP-8 virtual-machine core: opcode decoding, the CPU state
//! machine, a bit-level framebuffer with XOR sprite blitting, the key latch,
//! and a disassembler for diagnostics.

pub mod cpu;
pub mod disasm;
pub mod gpu;
pub mod instr;
pub mod keyboard;
