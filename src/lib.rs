//! Readers for RISC-V (RV32I) executables: a container-header validator and
//! an instruction-word decoder, both pure functions over their input bytes.
pub mod header;
pub mod instr;
pub mod registers;
