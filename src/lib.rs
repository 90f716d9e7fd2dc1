//! A cycle-level simulator for a small 32-bit RISC machine with a classic
//! five-stage pipeline (fetch, decode, execute, memory, write-back), no
//! hazard forwarding and no squashing of delay slots.

pub mod emulator;
pub mod error;
pub mod isa;
pub mod memory;
pub mod processor;
pub mod registers;
