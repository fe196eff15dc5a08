pub mod generate;
pub mod opcode;
