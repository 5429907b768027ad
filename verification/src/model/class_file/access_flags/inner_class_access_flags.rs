//! Values of access flags for an inner class.
use vstd::prelude::*;

verus! {

#[allow(non_camel_case_types)]
pub type access_flag = super::u2;

#[allow(non_camel_case_types)]
pub type t = access_flag;

/// Marked or implicitly `public` in source.
pub const ACC_PUBLIC: t = 0x0001;

/// Marked `private` in source.
pub const ACC_PRIVATE: t = 0x0002;

/// Marked `protected` in source.
pub const ACC_PROTECTED: t = 0x0004;

/// Marked or implicitly `static` in source.
pub const ACC_STATIC: t = 0x0008;

/// Marked `final` in source.
pub const ACC_FINAL: t = 0x0010;

/// Was an `interface` in source.
pub const ACC_INTERFACE: t = 0x0200;

/// Marked or implicitly `abstract` in source.
pub const ACC_ABSTRACT: t = 0x0400;

/// Declared synthetic; not present in the source code.
pub const ACC_SYNTHETIC: t = 0x1000;

/// Declared as an annotation type.
pub const ACC_ANNOTATION: t = 0x2000;

/// Declared as an `enum` type.
pub const ACC_ENUM: t = 0x4000;

} // verus!
