//! Values of access flags for a class or interface.
use vstd::prelude::*;

verus! {

#[allow(non_camel_case_types)]
pub type access_flag = super::u2;

#[allow(non_camel_case_types)]
pub type t = access_flag;

/// Declared `public`; may be accessed from outside its package.
pub const ACC_PUBLIC: t = 0x0001;

/// Declared `final`; no subclasses allowed.
pub const ACC_FINAL: t = 0x0010;

/// Treat superclass methods specially when invoked by the _invokespecial_
/// instruction.
pub const ACC_SUPER: t = 0x0020;

/// Is an interface, not a class.
pub const ACC_INTERFACE: t = 0x0200;

/// Declared `abstract`; must not be instantiated.
pub const ACC_ABSTRACT: t = 0x0400;

/// Declared synthetic; not present in the source code.
pub const ACC_SYNTHETIC: t = 0x1000;

/// Declared as an annotation type.
pub const ACC_ANNOTATION: t = 0x2000;

/// Declared as an `enum` type.
pub const ACC_ENUM: t = 0x4000;

} // verus!
