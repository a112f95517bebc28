# unwinding

A stack unwinder for AArch64, verified with Verus. It implements the two-phase unwind
protocol of the Itanium C++ ABI on `.eh_frame` tables, and the personality routine of
Rust.

- `src/` is the library. It decides what is done: which frame an address belongs to, what
  the caller's registers are, which landing pad is entered, when a walk over the stack
  ends and how. It is written without access to memory: a computation that needs a word
  stops and names the word's address, and is started again once the word is known.
- `app/` is the runtime around it. It saves and loads registers, reads memory, calls
  personality routines, stop functions and trace functions, and exports the functions of
  the unwind interface.
- `tests/` runs the library on small stacks and tables.

The frame tables and the DWARF expressions in them are read by `gimli`. What the library
takes from it on trust stands in `src/reader.rs`, `src/encoding.rs`,
`src/unwinder/table.rs`, `src/unwinder/operation.rs`, `src/unwinder/expression.rs` and
`src/unwinder/arch/aarch64.rs`, in the functions marked `external_body`.

The `law_` functions state what holds of the library as a whole, such as that phase 2
reaches the handler that phase 1 has found.
