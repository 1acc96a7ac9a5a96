//! Core of a Sharp LR35902 (Game Boy) CPU interpreter: registers and flags,
//! a flat 64 KiB memory with memory-mapped interrupt registers, the
//! instruction set with its two decoders, and the executor.

pub mod arith;
pub mod bit_ops;
pub mod control_ops;
pub mod cpu;
pub mod eight_bit_arithm_logic_ops;
pub mod eight_bit_load_ops;
pub mod instructions;
pub mod interrupts;
pub mod jump_ops;
pub mod lemmas;
pub mod memory;
pub mod registers;
pub mod rotate_ops;
pub mod sixteen_bit_arithm_logic_ops;
pub mod sixteen_bit_load_ops;
