pub mod opcode;
