//! Values of access flags for a method.
use vstd::prelude::*;

verus! {

#[allow(non_camel_case_types)]
pub type access_flag = super::u2;

#[allow(non_camel_case_types)]
pub type t = access_flag;

/// Declared `public`; may be accessed from outside its package.
pub const ACC_PUBLIC: t = 0x0001;

/// Declared `private`; usable only within the defining class.
pub const ACC_PRIVATE: t = 0x0002;

/// Declared `protected`; may be accessed within subclasses.
pub const ACC_PROTECTED: t = 0x0004;

/// Declared `static`.
pub const ACC_STATIC: t = 0x0008;

/// Declared `final`; must not be overriden.
pub const ACC_FINAL: t = 0x0010;

/// Declared `synchronized`; invocation is wrapped by a monitor use.
pub const ACC_SYNCHRONIZED: t = 0x0020;

/// A bridge method, generated by the compiler.
pub const ACC_BRIDGE: t = 0x0040;

/// Declared with variable number of arguments.
pub const ACC_VARARGS: t = 0x0080;

/// Declared `native`; implemented in a language other than Java.
pub const ACC_NATIVE: t = 0x0100;

/// Declared `abstract`; no implementation is provided.
pub const ACC_ABSTRACT: t = 0x0400;

/// Declared `strictfp`; floating-point mode is FP-strict.
pub const ACC_STRICT: t = 0x0800;

/// Declared synthetic; not present in the source code.
pub const ACC_SYNTHETIC: t = 0x1000;

} // verus!
