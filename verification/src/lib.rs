//! The execution core of a small Java virtual machine: the access-flag
//! tables of the class-file model and the operand-stack / local-variable
//! machine of a method frame.
pub mod model;
pub mod vm;
