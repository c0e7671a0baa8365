//! Names of registers, used only as keys into the register file.

use crate::gpr::Width;
use vstd::prelude::*;

verus! {

/// The 8-bit registers that need no prefix byte.
#[derive(Clone, Copy, Debug, PartialEq, Eq, Structural)]
pub enum Reg8 {
    AL,
    CL,
    DL,
    BL,
    AH,
    CH,
    DH,
    BH,
}

/// The 16-bit registers that need no prefix byte.
#[derive(Clone, Copy, Debug, PartialEq, Eq, Structural)]
pub enum Reg16 {
    AX,
    CX,
    DX,
    BX,
    SP,
    BP,
    SI,
    DI,
}

/// The 32-bit registers that need no prefix byte.
#[derive(Clone, Copy, Debug, PartialEq, Eq, Structural)]
pub enum Reg32 {
    EAX,
    ECX,
    EDX,
    EBX,
    ESP,
    EBP,
    ESI,
    EDI,
}

/// The six segment registers.
#[derive(Clone, Copy, Debug, PartialEq, Eq, Structural)]
pub enum SegReg {
    ES,
    CS,
    SS,
    DS,
    FS,
    GS,
}

/// The four descriptor-table registers.
#[derive(Clone, Copy, Debug, PartialEq, Eq, Structural)]
pub enum TableReg {
    GDTR,
    LDTR,
    IDTR,
    TR,
}

impl Reg8 {
    /// The general-purpose register that this name is a byte of.
    pub open spec fn spec_gpr(self) -> usize {
        match self {
            Reg8::AL | Reg8::AH => 0,
            Reg8::CL | Reg8::CH => 1,
            Reg8::DL | Reg8::DH => 2,
            Reg8::BL | Reg8::BH => 3,
        }
    }

    /// The view through which this name reads its register.
    pub open spec fn spec_width(self) -> Width {
        match self {
            Reg8::AH | Reg8::CH | Reg8::DH | Reg8::BH => Width::High8,
            _ => Width::Low8,
        }
    }

    /// The general-purpose register that this name is a byte of.
    pub fn gpr(self) -> (r: usize)
        ensures
            r == self.spec_gpr(),
            r < 4,
    {
        match self {
            Reg8::AL | Reg8::AH => 0,
            Reg8::CL | Reg8::CH => 1,
            Reg8::DL | Reg8::DH => 2,
            Reg8::BL | Reg8::BH => 3,
        }
    }

    /// The view through which this name reads its register.
    pub fn width(self) -> (r: Width)
        ensures
            r == self.spec_width(),
    {
        match self {
            Reg8::AH | Reg8::CH | Reg8::DH | Reg8::BH => Width::High8,
            _ => Width::Low8,
        }
    }
}

impl Reg16 {
    /// The general-purpose register that this name is the low half-word of.
    pub open spec fn spec_gpr(self) -> usize {
        match self {
            Reg16::AX => 0,
            Reg16::CX => 1,
            Reg16::DX => 2,
            Reg16::BX => 3,
            Reg16::SP => 4,
            Reg16::BP => 5,
            Reg16::SI => 6,
            Reg16::DI => 7,
        }
    }

    /// The general-purpose register that this name is the low half-word of.
    pub fn gpr(self) -> (r: usize)
        ensures
            r == self.spec_gpr(),
            r < 8,
    {
        match self {
            Reg16::AX => 0,
            Reg16::CX => 1,
            Reg16::DX => 2,
            Reg16::BX => 3,
            Reg16::SP => 4,
            Reg16::BP => 5,
            Reg16::SI => 6,
            Reg16::DI => 7,
        }
    }
}

impl Reg32 {
    /// The general-purpose register that this name is the low half of.
    pub open spec fn spec_gpr(self) -> usize {
        match self {
            Reg32::EAX => 0,
            Reg32::ECX => 1,
            Reg32::EDX => 2,
            Reg32::EBX => 3,
            Reg32::ESP => 4,
            Reg32::EBP => 5,
            Reg32::ESI => 6,
            Reg32::EDI => 7,
        }
    }

    /// The general-purpose register that this name is the low half of.
    pub fn gpr(self) -> (r: usize)
        ensures
            r == self.spec_gpr(),
            r < 8,
    {
        match self {
            Reg32::EAX => 0,
            Reg32::ECX => 1,
            Reg32::EDX => 2,
            Reg32::EBX => 3,
            Reg32::ESP => 4,
            Reg32::EBP => 5,
            Reg32::ESI => 6,
            Reg32::EDI => 7,
        }
    }
}

impl SegReg {
    /// The slot of this segment register in the register file.
    pub open spec fn spec_slot(self) -> usize {
        match self {
            SegReg::ES => 0,
            SegReg::CS => 1,
            SegReg::SS => 2,
            SegReg::DS => 3,
            SegReg::FS => 4,
            SegReg::GS => 5,
        }
    }

    /// The slot of this segment register in the register file.
    pub fn slot(self) -> (r: usize)
        ensures
            r == self.spec_slot(),
            r < 6,
    {
        match self {
            SegReg::ES => 0,
            SegReg::CS => 1,
            SegReg::SS => 2,
            SegReg::DS => 3,
            SegReg::FS => 4,
            SegReg::GS => 5,
        }
    }
}

} // verus!
