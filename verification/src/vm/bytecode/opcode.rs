//! The opcodes of the Java virtual machine instruction set that frames execute.
use vstd::prelude::*;

verus! {

/// Do nothing.
pub const NOP: u8 = 0x00;

/// Push `null`.
pub const ACONST_NULL: u8 = 0x01;

/// Push the `int` constant -1.
pub const ICONST_M1: u8 = 0x02;

/// Push the `int` constant 0.
pub const ICONST_0: u8 = 0x03;

/// Push the `int` constant 1.
pub const ICONST_1: u8 = 0x04;

/// Push the `int` constant 2.
pub const ICONST_2: u8 = 0x05;

/// Push the `int` constant 3.
pub const ICONST_3: u8 = 0x06;

/// Push the `int` constant 4.
pub const ICONST_4: u8 = 0x07;

/// Push the `int` constant 5.
pub const ICONST_5: u8 = 0x08;

/// Push the `long` constant 0.
pub const LCONST_0: u8 = 0x09;

/// Push the `long` constant 1.
pub const LCONST_1: u8 = 0x0a;

/// Push the `float` constant 0.0.
pub const FCONST_0: u8 = 0x0b;

/// Push the `float` constant 1.0.
pub const FCONST_1: u8 = 0x0c;

/// Push the `float` constant 2.0.
pub const FCONST_2: u8 = 0x0d;

/// Push the `double` constant 0.0.
pub const DCONST_0: u8 = 0x0e;

/// Push the `double` constant 1.0.
pub const DCONST_1: u8 = 0x0f;

/// Push a byte operand.
pub const BIPUSH: u8 = 0x10;

/// Push a short operand.
pub const SIPUSH: u8 = 0x11;

/// Push an item from the run-time constant pool (one-byte index).
pub const LDC: u8 = 0x12;

/// Push an item from the run-time constant pool (two-byte index).
pub const LDC_W: u8 = 0x13;

/// Push a `long` or `double` from the run-time constant pool.
pub const LDC2_W: u8 = 0x14;

/// Load a local variable named by a one-byte index.
pub const ILOAD: u8 = 0x15;

/// Load a local variable named by a one-byte index.
pub const LLOAD: u8 = 0x16;

/// Load a local variable named by a one-byte index.
pub const FLOAD: u8 = 0x17;

/// Load a local variable named by a one-byte index.
pub const DLOAD: u8 = 0x18;

/// Load a local variable named by a one-byte index.
pub const ALOAD: u8 = 0x19;

/// Load local variable 0.
pub const ILOAD_0: u8 = 0x1a;

/// Load local variable 1.
pub const ILOAD_1: u8 = 0x1b;

/// Load local variable 2.
pub const ILOAD_2: u8 = 0x1c;

/// Load local variable 3.
pub const ILOAD_3: u8 = 0x1d;

/// Load local variable 0.
pub const LLOAD_0: u8 = 0x1e;

/// Load local variable 1.
pub const LLOAD_1: u8 = 0x1f;

/// Load local variable 2.
pub const LLOAD_2: u8 = 0x20;

/// Load local variable 3.
pub const LLOAD_3: u8 = 0x21;

/// Load local variable 0.
pub const FLOAD_0: u8 = 0x22;

/// Load local variable 1.
pub const FLOAD_1: u8 = 0x23;

/// Load local variable 2.
pub const FLOAD_2: u8 = 0x24;

/// Load local variable 3.
pub const FLOAD_3: u8 = 0x25;

/// Load local variable 0.
pub const DLOAD_0: u8 = 0x26;

/// Load local variable 1.
pub const DLOAD_1: u8 = 0x27;

/// Load local variable 2.
pub const DLOAD_2: u8 = 0x28;

/// Load local variable 3.
pub const DLOAD_3: u8 = 0x29;

/// Load local variable 0.
pub const ALOAD_0: u8 = 0x2a;

/// Load local variable 1.
pub const ALOAD_1: u8 = 0x2b;

/// Load local variable 2.
pub const ALOAD_2: u8 = 0x2c;

/// Load local variable 3.
pub const ALOAD_3: u8 = 0x2d;

/// Load an element from an array.
pub const IALOAD: u8 = 0x2e;

/// Load an element from an array.
pub const LALOAD: u8 = 0x2f;

/// Load an element from an array.
pub const FALOAD: u8 = 0x30;

/// Load an element from an array.
pub const DALOAD: u8 = 0x31;

/// Load an element from an array.
pub const AALOAD: u8 = 0x32;

/// Load an element from an array.
pub const BALOAD: u8 = 0x33;

/// Load an element from an array.
pub const CALOAD: u8 = 0x34;

/// Load an element from an array.
pub const SALOAD: u8 = 0x35;

/// Store into a local variable named by a one-byte index.
pub const ISTORE: u8 = 0x36;

/// Store into a local variable named by a one-byte index.
pub const LSTORE: u8 = 0x37;

/// Store into a local variable named by a one-byte index.
pub const FSTORE: u8 = 0x38;

/// Store into a local variable named by a one-byte index.
pub const DSTORE: u8 = 0x39;

/// Store into a local variable named by a one-byte index.
pub const ASTORE: u8 = 0x3a;

/// Store into local variable 0.
pub const ISTORE_0: u8 = 0x3b;

/// Store into local variable 1.
pub const ISTORE_1: u8 = 0x3c;

/// Store into local variable 2.
pub const ISTORE_2: u8 = 0x3d;

/// Store into local variable 3.
pub const ISTORE_3: u8 = 0x3e;

/// Store into local variable 0.
pub const LSTORE_0: u8 = 0x3f;

/// Store into local variable 1.
pub const LSTORE_1: u8 = 0x40;

/// Store into local variable 2.
pub const LSTORE_2: u8 = 0x41;

/// Store into local variable 3.
pub const LSTORE_3: u8 = 0x42;

/// Store into local variable 0.
pub const FSTORE_0: u8 = 0x43;

/// Store into local variable 1.
pub const FSTORE_1: u8 = 0x44;

/// Store into local variable 2.
pub const FSTORE_2: u8 = 0x45;

/// Store into local variable 3.
pub const FSTORE_3: u8 = 0x46;

/// Store into local variable 0.
pub const DSTORE_0: u8 = 0x47;

/// Store into local variable 1.
pub const DSTORE_1: u8 = 0x48;

/// Store into local variable 2.
pub const DSTORE_2: u8 = 0x49;

/// Store into local variable 3.
pub const DSTORE_3: u8 = 0x4a;

/// Store into local variable 0.
pub const ASTORE_0: u8 = 0x4b;

/// Store into local variable 1.
pub const ASTORE_1: u8 = 0x4c;

/// Store into local variable 2.
pub const ASTORE_2: u8 = 0x4d;

/// Store into local variable 3.
pub const ASTORE_3: u8 = 0x4e;

/// Store into an array element.
pub const IASTORE: u8 = 0x4f;

/// Store into an array element.
pub const LASTORE: u8 = 0x50;

/// Store into an array element.
pub const FASTORE: u8 = 0x51;

/// Store into an array element.
pub const DASTORE: u8 = 0x52;

/// Store into an array element.
pub const AASTORE: u8 = 0x53;

/// Store into an array element.
pub const BASTORE: u8 = 0x54;

/// Store into an array element.
pub const CASTORE: u8 = 0x55;

/// Store into an array element.
pub const SASTORE: u8 = 0x56;

/// Pop the top operand stack value.
pub const POP: u8 = 0x57;

/// Pop the top one or two operand stack values.
pub const POP2: u8 = 0x58;

/// Duplicate the top operand stack value.
pub const DUP: u8 = 0x59;

/// Duplicate the top value and insert it two values down.
pub const DUP_X1: u8 = 0x5a;

/// Duplicate the top value and insert it two or three values down.
pub const DUP_X2: u8 = 0x5b;

/// Duplicate the top one or two operand stack values.
pub const DUP2: u8 = 0x5c;

/// Return `void` from a method.
pub const RETURN: u8 = 0xb1;

/// Get a static field of a class.
pub const GETSTATIC: u8 = 0xb2;

/// Set a static field of a class.
pub const PUTSTATIC: u8 = 0xb3;

/// Fetch a field from an object.
pub const GETFIELD: u8 = 0xb4;

/// Set a field of an object.
pub const PUTFIELD: u8 = 0xb5;

/// Invoke an instance method, dispatching on the class of the receiver.
pub const INVOKEVIRTUAL: u8 = 0xb6;

/// Invoke an instance method with special handling of superclass, private and initialization methods.
pub const INVOKESPECIAL: u8 = 0xb7;

/// Invoke a class (`static`) method.
pub const INVOKESTATIC: u8 = 0xb8;

/// Create a new object.
pub const NEW: u8 = 0xbb;

/// Create a new array of a primitive type.
pub const NEWARRAY: u8 = 0xbc;

/// Get the length of an array.
pub const ARRAYLENGTH: u8 = 0xbe;

} // verus!
