//! The register file and instruction execution of a Game Boy (DMG-01) style CPU.

pub mod cpu;
pub mod instruction;
pub mod registers;
