//! What the unwinder can be told to do or to leave out.

use vstd::prelude::*;

verus! {

/// Switches of the unwinder.
#[derive(Clone, Copy, PartialEq, Eq, Structural, Debug)]
pub struct Features {
    /// Whether the expressions of the frame table are evaluated. Rust's own frames
    /// need none; those of other languages can.
    pub dwarf_expr: bool,
    /// Whether a backtrace leaves out the unwinder's own frames.
    pub hide_trace: bool,
}

} // verus!
