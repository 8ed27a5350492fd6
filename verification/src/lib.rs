//! An Intel 8080 processor core with the arcade hardware that surrounds it:
//! the external shift register, the port map, the interrupt schedule and a
//! disassembler that walks the same byte stream as the processor.

pub mod alu;
pub mod arcade;
pub mod decode;
pub mod disassembler;
pub mod flags;
pub mod intel8080;
pub mod laws;
pub mod pacing;
pub mod semantics;
pub mod shift_register;
pub mod state;
