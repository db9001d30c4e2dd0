# rjvm

A small machine for Java bytecode: it loads classes, creates objects and arrays, and executes
methods. Its executable code is proved against a semantics of the instructions.

- `src/semantics.rs` says what each operation does to a frame and to the machine, and what the
  run of a method is. `src/call_frame.rs`, `src/stack.rs` and `src/vm.rs` are the machine itself;
  their contracts are stated over the semantics.
- `src/instruction.rs` holds the instructions and the operation that each performs.
  `src/numeric.rs` and `src/float.rs` hold the arithmetic; floating-point numbers are carried as
  bits, and a `FloatUnit` that the caller provides computes with them.
- `src/class_file.rs`, `src/class.rs`, `src/class_loader.rs`, `src/field_type.rs`, `src/value.rs`
  and `src/heap.rs` hold the data: class files, loaded classes, types, values, and the heap.
- `src/laws.rs`, `src/soundness.rs`, `src/instruction_laws.rs`, `src/class_laws.rs` and
  `src/instance_laws.rs` hold what is proved of every program.
- `app/` connects the machine to a host: floating-point arithmetic, logging, and the reader of
  class files.

A run has a result, or an error that the program made, or it stops: with a fault where the
machine has no way to go on, or when its budget of instructions is used up. `invoke_bounded` and
`execute_bounded` report all of these; `invoke` and `execute` are for calls that end. The faults
are:

- a store to a local that does not exist,
- the quotient or the remainder of the smallest integer, or the smallest long, and minus one,
- an array of negative length,
- a field that the object does not hold, and an object or an array that does not exist,
- the call of a method that has no code,
- the search for a virtual method that neither the class it starts in nor the superclass of that
  class declares. The search ends with that superclass; classes further up are not looked at.

Calls are run in their frames on the stack. When a run stops without an end, the frames of all
calls that were going on are still there.
