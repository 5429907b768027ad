# rust_jvm

The execution core of a small Java virtual machine, verified with Verus.

- `src/model/class_file/access_flags/`: the access-flag values of classes,
  inner classes, fields, methods and parameters.
- `src/vm/bytecode/opcode.rs`: the opcodes that frames execute.
- `src/vm/value.rs`: run-time values (floating-point values as bit patterns,
  references as heap handles).
- `src/vm/frame/semantics.rs`: the meaning of each instruction over the
  abstract state of a frame (`step_spec`).
- `src/vm/frame.rs`: `Frame` and its `step`, proved to follow `step_spec`,
  and the operations that the surrounding machine calls while it completes
  an instruction (argument passing, operand pops, `invokespecial` selection).
- `src/vm/frame/laws.rs`: properties across instructions (store/load round
  trip, the two-slot layout of local variables, program counter progress).
- `app/lib.rs`: the loop that runs a frame, performing the class loading,
  heap and invocation work that each step hands out through a `Runtime`.
