//! Values of access flags for parameters.
use vstd::prelude::*;

verus! {

#[allow(non_camel_case_types)]
pub type access_flag = super::u2;

#[allow(non_camel_case_types)]
pub type t = access_flag;

/// Indicates that the formal parameter was declared final.
pub const ACC_FINAL: t = 0x0010;

/// Indicates that the formal parameter was not explicitly or implicitly
/// declared in source code, according to the specification of the language
/// in which the source code was written (JLS §13.1). (The formal parameter
/// is an implementation artifact of the compiler which produced this class
/// file.)
pub const ACC_SYNTHETIC: t = 0x1000;

/// Indicates that the formal parameter was implicitly declared in source
/// code, according to the specification of the language in which the source
/// code was written (JLS §13.1). (The formal parameter is mandated by a
/// language specification, so all compilers for the language must emit it.)
pub const ACC_MANDATED: t = 0x8000;

} // verus!
