//! Run-time values held in local variables and on the operand stack.
use vstd::prelude::*;

verus! {

/// A value of the Java virtual machine as a frame holds it.
///
/// Floating-point values are carried by their IEEE 754 bit patterns: the
/// frame moves them between the operand stack and the local variables but
/// never computes with them. References name heap objects and arrays by a
/// handle that the surrounding machine hands out.
#[derive(Clone, Copy, Debug, PartialEq, Eq, Structural)]
pub enum Value {
    Int(i32),
    Long(i64),
    Float(u32),
    Double(u64),
    ScalarReference(u64),
    ArrayReference(u64),
    NullReference,
}

/// A `long` or a `double`: a value that occupies two slots of the local
/// variable array.
pub open spec fn is_wide(v: Value) -> bool {
    v is Long || v is Double
}

impl Value {
    /// Whether the value belongs to computational category 2 (`long` or
    /// `double`).
    pub fn is_category2(&self) -> (r: bool)
        ensures
            r == is_wide(*self),
    {
        match self {
            Value::Long(_) | Value::Double(_) => true,
            _ => false,
        }
    }
}

} // verus!
