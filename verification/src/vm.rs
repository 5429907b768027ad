pub mod bytecode;
pub mod frame;
pub mod value;
