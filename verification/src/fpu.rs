//! One slot of the x87/MMX register stack: an 80-bit extended-precision
//! value held as sign, exponent and significand, with no normalisation.

use vstd::prelude::*;

verus! {

/// Number of slots in the register stack.
pub const FPU_SLOTS: usize = 8;

/// An extended-precision value split into its three parts.
#[derive(Clone, Copy, Debug, PartialEq, Eq, Structural)]
pub struct FPUMMXRegister {
    pub mantissa: u64,
    /// Only the low fifteen bits are architecturally significant.
    pub exp: u16,
    pub sign: bool,
}

/// What the unit recorded of the last floating-point instruction: its
/// opcode, and the selectors and offsets of the instruction and of its
/// memory operand.
#[derive(Clone, Copy, Debug, PartialEq, Eq, Structural)]
pub struct LastFpuInstruction {
    pub opcode: u16,
    pub cs: u16,
    pub ds: u16,
    pub ip: u64,
    pub dp: u64,
}

/// The physical slot that the stack-relative index `logical` names when the
/// stack top is at slot `top`: the slots are counted from the top and wrap
/// round after the last one. Neither index may reach the number of slots.
pub open spec fn spec_stack_slot(top: usize, logical: usize) -> Option<usize> {
    if top < 8 && logical < 8 {
        Some(((top + logical) % 8) as usize)
    } else {
        None
    }
}

/// Computes the physical slot of a stack-relative index.
pub fn stack_slot(top: usize, logical: usize) -> (r: Option<usize>)
    ensures
        r == spec_stack_slot(top, logical),
        r.is_some() ==> r.unwrap() < 8,
{
    if top < FPU_SLOTS && logical < FPU_SLOTS {
        Some((top + logical) % FPU_SLOTS)
    } else {
        None
    }
}

impl FPUMMXRegister {
    /// A slot that holds the three given parts as they are.
    pub fn new(mantissa: u64, exp: u16, sign: bool) -> (r: FPUMMXRegister)
        ensures
            r == (FPUMMXRegister { mantissa, exp, sign }),
    {
        FPUMMXRegister { mantissa, exp, sign }
    }
}

/// Stack-relative index 0 names the stack top itself, and two different
/// stack-relative indices never name the same slot.
pub proof fn lemma_stack_slots(top: usize, a: usize, b: usize)
    requires
        top < 8,
        a < 8,
        b < 8,
    ensures
        spec_stack_slot(top, 0) == Some(top),
        spec_stack_slot(top, a).is_some(),
        spec_stack_slot(top, a).unwrap() < 8,
        a != b ==> spec_stack_slot(top, a) != spec_stack_slot(top, b),
{
}

} // verus!
