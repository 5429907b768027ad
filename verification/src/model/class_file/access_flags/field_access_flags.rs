//! Values of access flags for a field.
use vstd::prelude::*;

verus! {

#[allow(non_camel_case_types)]
pub type access_flag = super::u2;

#[allow(non_camel_case_types)]
pub type t = access_flag;

/// Declared `public`; may be accessed from outside its package.
pub const ACC_PUBLIC: t = 0x0001;

/// Declared `private`; usable only within the defining class.
pub const ACC_PRIVATE: t = 0x0002;

/// Declared `protected`; may be accessed within subclasses.
pub const ACC_PROTECTED: t = 0x0004;

/// Declared `static`.
pub const ACC_STATIC: t = 0x0008;

/// Declared `final`; no subclasses allowed.
pub const ACC_FINAL: t = 0x0010;

/// Declared `volatile`; cannot be cached.
pub const ACC_VOLATILE: t = 0x0040;

/// Declared `transient`; not written or read by a persistent object
/// manager.
pub const ACC_TRANSIENT: t = 0x0080;

/// Declared synthetic; not present in the source code.
pub const ACC_SYNTHETIC: t = 0x1000;

/// Declared as an element of an `enum`.
pub const ACC_ENUM: t = 0x4000;

} // verus!
