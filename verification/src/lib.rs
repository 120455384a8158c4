use vstd::prelude::*;

pub mod cell;
pub mod symbols;
pub mod text;
pub mod maze_view;
pub mod algorithms;
pub mod app;
pub mod keys;
pub mod render;
pub mod laws;

verus! {

/// Clamp `v` into the inclusive range `[lo, hi]` (assumes `lo <= hi`).
pub open spec fn spec_clamp(v: int, lo: int, hi: int) -> int {
    if v < lo {
        lo
    } else if v > hi {
        hi
    } else {
        v
    }
}

} // verus!
