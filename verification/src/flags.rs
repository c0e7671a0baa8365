//! The flags register: a structured value and its packed 64-bit encoding.

use crate::flags_laws::{
    lemma_encode_decode, lemma_encode_fixed_bits, lemma_get_is_bit, lemma_set_is_bit,
};
use vstd::prelude::*;

verus! {

/// Structured form of the flags register: sixteen single-bit flags and the
/// two-bit I/O privilege level.
#[derive(Clone, Copy, Debug, PartialEq, Eq, Structural)]
pub struct Flags {
    pub carry: bool,
    pub parity: bool,
    pub adjust: bool,
    pub zero: bool,
    pub sign: bool,
    pub trap: bool,
    pub intr: bool,
    pub direction: bool,
    pub overflow: bool,
    /// Only the low two bits are architecturally significant.
    pub iopl: u8,
    pub nested_task: bool,
    pub resume: bool,
    pub vm8086: bool,
    pub ac: bool,
    pub vif: bool,
    pub vip: bool,
    pub id: bool,
}

/// The names of the sixteen single-bit flags.
#[derive(Clone, Copy, Debug, PartialEq, Eq, Structural)]
pub enum Flag {
    Carry,
    Parity,
    Adjust,
    Zero,
    Sign,
    Trap,
    Intr,
    Direction,
    Overflow,
    NestedTask,
    Resume,
    Vm8086,
    Ac,
    Vif,
    Vip,
    Id,
}

impl Flag {
    /// The position of this flag in the packed form.
    pub open spec fn spec_offset(self) -> u64 {
        match self {
            Flag::Carry => 0,
            Flag::Parity => 2,
            Flag::Adjust => 4,
            Flag::Zero => 6,
            Flag::Sign => 7,
            Flag::Trap => 8,
            Flag::Intr => 9,
            Flag::Direction => 10,
            Flag::Overflow => 11,
            Flag::NestedTask => 14,
            Flag::Resume => 16,
            Flag::Vm8086 => 17,
            Flag::Ac => 18,
            Flag::Vif => 19,
            Flag::Vip => 20,
            Flag::Id => 21,
        }
    }

    /// The position of this flag in the packed form.
    pub fn offset(self) -> (r: u64)
        ensures
            r == self.spec_offset(),
            r < 64,
    {
        match self {
            Flag::Carry => 0,
            Flag::Parity => 2,
            Flag::Adjust => 4,
            Flag::Zero => 6,
            Flag::Sign => 7,
            Flag::Trap => 8,
            Flag::Intr => 9,
            Flag::Direction => 10,
            Flag::Overflow => 11,
            Flag::NestedTask => 14,
            Flag::Resume => 16,
            Flag::Vm8086 => 17,
            Flag::Ac => 18,
            Flag::Vif => 19,
            Flag::Vip => 20,
            Flag::Id => 21,
        }
    }
}

/// Bit 1 of the packed form, which the hardware fixes at one.
pub const FIXED_ONE: u64 = 0x2;

/// The bits of the packed form that hold the flags below the privilege level.
pub const LOW_BITS: u64 = 0xFD5;

/// The two bits of the packed form that hold the privilege level.
pub const IOPL_BITS: u64 = 0x3000;

/// The bits of the packed form that hold the flags above the privilege level.
pub const HIGH_BITS: u64 = 0x3F_4000;

/// Every bit of the packed form that carries a named field.
pub const DEFINED_BITS: u64 = 0x3F_7FD5;

/// The word whose only possibly set bit is bit `pos`, set exactly when `b` holds.
pub open spec fn bit_at(b: bool, pos: u64) -> u64 {
    if b {
        1u64 << pos
    } else {
        0u64
    }
}

/// Whether bit `pos` of `word` is set.
pub open spec fn bit_of(word: u64, pos: u64) -> bool {
    word & (1u64 << pos) == (1u64 << pos)
}

/// The flags of bits 0 to 11, each at its architectural offset.
#[verifier::opaque]
pub open spec fn low_field(f: Flags) -> u64 {
    bit_at(f.carry, 0)
    | bit_at(f.parity, 2)
    | bit_at(f.adjust, 4)
    | bit_at(f.zero, 6)
    | bit_at(f.sign, 7)
    | bit_at(f.trap, 8)
    | bit_at(f.intr, 9)
    | bit_at(f.direction, 10)
    | bit_at(f.overflow, 11)
}

/// The privilege level placed in bits 12 and 13: only its low two bits are kept.
pub open spec fn iopl_field(iopl: u8) -> u64 {
    ((iopl & 3) as u64) << 12
}

/// The flags of bits 14 to 21, each at its architectural offset.
#[verifier::opaque]
pub open spec fn high_field(f: Flags) -> u64 {
    bit_at(f.nested_task, 14)
    | bit_at(f.resume, 16)
    | bit_at(f.vm8086, 17)
    | bit_at(f.ac, 18)
    | bit_at(f.vif, 19)
    | bit_at(f.vip, 20)
    | bit_at(f.id, 21)
}

fn place(b: bool, pos: u64) -> (r: u64)
    requires
        pos < 64,
    ensures
        r == bit_at(b, pos),
{
    if b {
        1u64 << pos
    } else {
        0u64
    }
}

fn bit_set(word: u64, pos: u64) -> (r: bool)
    requires
        pos < 64,
    ensures
        r == bit_of(word, pos),
{
    word & (1u64 << pos) == (1u64 << pos)
}

impl Flags {
    /// Whether the privilege level fits its two architectural bits.
    pub open spec fn wf(self) -> bool {
        self.iopl < 4
    }

    /// This value with the privilege level reduced to its two low bits.
    pub open spec fn truncated(self) -> Flags {
        Flags { iopl: self.iopl & 3, ..self }
    }

    /// The packed 64-bit encoding of this value: every field at its
    /// architectural offset, and bit 1 set.
    pub open spec fn spec_encode(self) -> u64 {
        low_field(self) | iopl_field(self.iopl) | high_field(self) | FIXED_ONE
    }

    /// The structured value that a packed word stands for.
    pub open spec fn spec_decode(val: u64) -> Flags {
        Flags {
            carry: bit_of(val, 0),
            parity: bit_of(val, 2),
            adjust: bit_of(val, 4),
            zero: bit_of(val, 6),
            sign: bit_of(val, 7),
            trap: bit_of(val, 8),
            intr: bit_of(val, 9),
            direction: bit_of(val, 10),
            overflow: bit_of(val, 11),
            iopl: ((val >> 12) & 3) as u8,
            nested_task: bit_of(val, 14),
            resume: bit_of(val, 16),
            vm8086: bit_of(val, 17),
            ac: bit_of(val, 18),
            vif: bit_of(val, 19),
            vip: bit_of(val, 20),
            id: bit_of(val, 21),
        }
    }

    /// Packs every field at its architectural bit offset and sets bit 1.
    /// Only the low two bits of `iopl` are encoded.
    pub fn encode(self) -> (r: u64)
        ensures
            r == self.spec_encode(),
            r & FIXED_ONE == FIXED_ONE,
            r & !(DEFINED_BITS | FIXED_ONE) == 0,
    {
        proof {
            lemma_encode_fixed_bits(self);
        }
        self.low_word() | (((self.iopl & 3) as u64) << 12) | self.high_word() | FIXED_ONE
    }

    fn low_word(self) -> (r: u64)
        ensures
            r == low_field(self),
    {
        reveal(low_field);
        place(self.carry, 0)
        | place(self.parity, 2)
        | place(self.adjust, 4)
        | place(self.zero, 6)
        | place(self.sign, 7)
        | place(self.trap, 8)
        | place(self.intr, 9)
        | place(self.direction, 10)
        | place(self.overflow, 11)
    }

    fn high_word(self) -> (r: u64)
        ensures
            r == high_field(self),
    {
        reveal(high_field);
        place(self.nested_task, 14)
        | place(self.resume, 16)
        | place(self.vm8086, 17)
        | place(self.ac, 18)
        | place(self.vif, 19)
        | place(self.vip, 20)
        | place(self.id, 21)
    }

    /// The value of the named flag.
    pub open spec fn spec_get(self, flag: Flag) -> bool {
        match flag {
            Flag::Carry => self.carry,
            Flag::Parity => self.parity,
            Flag::Adjust => self.adjust,
            Flag::Zero => self.zero,
            Flag::Sign => self.sign,
            Flag::Trap => self.trap,
            Flag::Intr => self.intr,
            Flag::Direction => self.direction,
            Flag::Overflow => self.overflow,
            Flag::NestedTask => self.nested_task,
            Flag::Resume => self.resume,
            Flag::Vm8086 => self.vm8086,
            Flag::Ac => self.ac,
            Flag::Vif => self.vif,
            Flag::Vip => self.vip,
            Flag::Id => self.id,
        }
    }

    /// This value with the flag at offset `off`, if there is one, replaced by
    /// `value`.
    pub open spec fn spec_with_bit(self, off: u64, value: bool) -> Flags {
        Flags {
            carry: if off == 0 { value } else { self.carry },
            parity: if off == 2 { value } else { self.parity },
            adjust: if off == 4 { value } else { self.adjust },
            zero: if off == 6 { value } else { self.zero },
            sign: if off == 7 { value } else { self.sign },
            trap: if off == 8 { value } else { self.trap },
            intr: if off == 9 { value } else { self.intr },
            direction: if off == 10 { value } else { self.direction },
            overflow: if off == 11 { value } else { self.overflow },
            iopl: self.iopl,
            nested_task: if off == 14 { value } else { self.nested_task },
            resume: if off == 16 { value } else { self.resume },
            vm8086: if off == 17 { value } else { self.vm8086 },
            ac: if off == 18 { value } else { self.ac },
            vif: if off == 19 { value } else { self.vif },
            vip: if off == 20 { value } else { self.vip },
            id: if off == 21 { value } else { self.id },
        }
    }

    /// This value with the named flag replaced by `value`.
    pub open spec fn spec_set(self, flag: Flag, value: bool) -> Flags {
        self.spec_with_bit(flag.spec_offset(), value)
    }

    fn with_bit(self, off: u64, value: bool) -> (r: Flags)
        ensures
            r == self.spec_with_bit(off, value),
    {
        Flags {
            carry: if off == 0 { value } else { self.carry },
            parity: if off == 2 { value } else { self.parity },
            adjust: if off == 4 { value } else { self.adjust },
            zero: if off == 6 { value } else { self.zero },
            sign: if off == 7 { value } else { self.sign },
            trap: if off == 8 { value } else { self.trap },
            intr: if off == 9 { value } else { self.intr },
            direction: if off == 10 { value } else { self.direction },
            overflow: if off == 11 { value } else { self.overflow },
            iopl: self.iopl,
            nested_task: if off == 14 { value } else { self.nested_task },
            resume: if off == 16 { value } else { self.resume },
            vm8086: if off == 17 { value } else { self.vm8086 },
            ac: if off == 18 { value } else { self.ac },
            vif: if off == 19 { value } else { self.vif },
            vip: if off == 20 { value } else { self.vip },
            id: if off == 21 { value } else { self.id },
        }
    }

    /// Reads one flag by name: the bit that the packed form holds at the
    /// flag's offset.
    pub fn get(&self, flag: Flag) -> (r: bool)
        ensures
            r == self.spec_get(flag),
            r == bit_of(self.spec_encode(), flag.spec_offset()),
    {
        proof {
            lemma_get_is_bit(*self, flag);
        }
        match flag {
            Flag::Carry => self.carry,
            Flag::Parity => self.parity,
            Flag::Adjust => self.adjust,
            Flag::Zero => self.zero,
            Flag::Sign => self.sign,
            Flag::Trap => self.trap,
            Flag::Intr => self.intr,
            Flag::Direction => self.direction,
            Flag::Overflow => self.overflow,
            Flag::NestedTask => self.nested_task,
            Flag::Resume => self.resume,
            Flag::Vm8086 => self.vm8086,
            Flag::Ac => self.ac,
            Flag::Vif => self.vif,
            Flag::Vip => self.vip,
            Flag::Id => self.id,
        }
    }

    /// Replaces one flag by name. In the packed form this changes the bit at
    /// the flag's offset and no other.
    pub fn set(&mut self, flag: Flag, value: bool)
        ensures
            *final(self) == old(self).spec_set(flag, value),
            final(self).spec_encode() == (old(self).spec_encode() & !(1u64 << flag.spec_offset()))
                | bit_at(value, flag.spec_offset()),
    {
        proof {
            lemma_set_is_bit(*self, flag, value);
        }
        *self = self.with_bit(flag.offset(), value);
    }

    /// Extracts every named field from a packed word; all other bits are dropped.
    pub fn decode(val: u64) -> (r: Flags)
        ensures
            r == Flags::spec_decode(val),
            r.wf(),
    {
        proof {
            lemma_encode_decode(val);
        }
        Flags {
            carry: bit_set(val, 0),
            parity: bit_set(val, 2),
            adjust: bit_set(val, 4),
            zero: bit_set(val, 6),
            sign: bit_set(val, 7),
            trap: bit_set(val, 8),
            intr: bit_set(val, 9),
            direction: bit_set(val, 10),
            overflow: bit_set(val, 11),
            iopl: ((val >> 12) & 3) as u8,
            nested_task: bit_set(val, 14),
            resume: bit_set(val, 16),
            vm8086: bit_set(val, 17),
            ac: bit_set(val, 18),
            vif: bit_set(val, 19),
            vip: bit_set(val, 20),
            id: bit_set(val, 21),
        }
    }
}

impl From<u64> for Flags {
    /// Decodes a packed word.
    fn from(val: u64) -> (r: Flags) {
        Flags::decode(val)
    }
}

impl vstd::std_specs::convert::FromSpecImpl<u64> for Flags {
    open spec fn obeys_from_spec() -> bool {
        true
    }

    open spec fn from_spec(val: u64) -> Flags {
        Flags::spec_decode(val)
    }
}

impl Into<u64> for Flags {
    /// Encodes this value as a packed word.
    fn into(self) -> (r: u64) {
        self.encode()
    }
}

impl vstd::std_specs::convert::IntoSpecImpl<u64> for Flags {
    open spec fn obeys_into_spec() -> bool {
        true
    }

    open spec fn into_spec(self) -> u64 {
        self.spec_encode()
    }
}

} // verus!
