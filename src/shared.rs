use vstd::prelude::*;

verus! {

/// Which byte of a 16-bit register the next access of a byte-wide port reaches.
#[derive(Clone, Copy, Debug, PartialEq, Eq, Structural)]
pub enum FlipFlop {
    Low,
    High,
}

} // verus!
