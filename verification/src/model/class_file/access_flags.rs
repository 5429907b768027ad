//! Values of the access flags of classes, fields, methods and parameters.
pub mod class_access_flags;
pub mod field_access_flags;
pub mod inner_class_access_flags;
pub mod method_access_flags;
pub mod parameter_access_flags;

use vstd::prelude::*;

verus! {

#[allow(non_camel_case_types)]
pub type u2 = super::u2;

} // verus!
