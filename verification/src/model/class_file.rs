pub mod access_flags;

use vstd::prelude::*;

verus! {

/// An unsigned two-byte quantity of the class-file format.
#[allow(non_camel_case_types)]
pub type u2 = u16;

} // verus!
