//! The instruction core of a MOS 6502 as found in the NES: registers, status
//! flags, a flat 64 KiB memory, the addressing-mode resolver, the opcode
//! registry and the fetch-decode-execute loop, each with a machine-checked
//! contract against the mathematical model in [`semantics`].

pub mod status;
pub mod opcodes;
pub mod semantics;
pub mod cpu;
pub mod laws;
