//! Sub-register views of a 64-bit general-purpose register: which bits of
//! the backing word a view reads, and what a write through it leaves behind.

use vstd::prelude::*;

verus! {

/// Number of general-purpose registers.
pub const GPR_COUNT: usize = 16;

/// Number of registers whose second byte has a view of its own.
pub const HIGH_BYTE_COUNT: usize = 4;

/// The width classes through which a general-purpose register is accessed.
#[derive(Clone, Copy, Debug, PartialEq, Eq, Structural)]
pub enum Width {
    /// Bits 0 to 7.
    Low8,
    /// Bits 8 to 15.
    High8,
    /// Bits 0 to 15.
    Word,
    /// Bits 0 to 31.
    Dword,
    /// The whole word.
    Qword,
}

impl Width {
    /// One more than the largest value that a view of this width holds.
    pub open spec fn modulus(self) -> int {
        match self {
            Width::Low8 => 0x100,
            Width::High8 => 0x100,
            Width::Word => 0x1_0000,
            Width::Dword => 0x1_0000_0000,
            Width::Qword => 0x1_0000_0000_0000_0000,
        }
    }
}

/// The value that the view of width `width` reads from `word`.
pub open spec fn view_of(word: int, width: Width) -> int {
    match width {
        Width::Low8 => word % 0x100,
        Width::High8 => (word / 0x100) % 0x100,
        Width::Word => word % 0x1_0000,
        Width::Dword => word % 0x1_0000_0000,
        Width::Qword => word,
    }
}

/// The backing word after `value` is written through the view of width
/// `width`: an 8-bit or 16-bit write replaces the bits of the view and keeps
/// all others, a 32-bit write clears the upper half, a 64-bit write replaces
/// the word. Bits of `value` above the width are not used.
pub open spec fn merged(word: int, width: Width, value: int) -> int {
    match width {
        Width::Low8 => word - word % 0x100 + value % 0x100,
        Width::High8 => word - ((word / 0x100) % 0x100) * 0x100 + (value % 0x100) * 0x100,
        Width::Word => word - word % 0x1_0000 + value % 0x1_0000,
        Width::Dword => value % 0x1_0000_0000,
        Width::Qword => value,
    }
}

/// Reads the view of width `width` from `word`.
pub fn extract(word: u64, width: Width) -> (r: u64)
    ensures
        r == view_of(word as int, width),
{
    proof {
        lemma_read_masks(word);
    }
    match width {
        Width::Low8 => word & 0xFF,
        Width::High8 => (word >> 8) & 0xFF,
        Width::Word => word & 0xFFFF,
        Width::Dword => word & 0xFFFF_FFFF,
        Width::Qword => word,
    }
}

/// Writes `value` through the view of width `width` into `word` and returns
/// the new backing word.
pub fn insert(word: u64, width: Width, value: u64) -> (r: u64)
    ensures
        r == merged(word as int, width, value as int),
{
    match width {
        Width::Low8 => {
            let r: u64 = (word & !0xFFu64) | (value & 0xFF);
            proof {
                lemma_write_low8(word, value, r);
                assert(r % 0x100 == value % 0x100);
            }
            r
        },
        Width::High8 => {
            let r: u64 = (word & !0xFF00u64) | ((value & 0xFF) << 8);
            proof {
                lemma_write_high8(word, value, r);
                assert(r % 0x100 == word % 0x100);
            }
            r
        },
        Width::Word => {
            let r: u64 = (word & !0xFFFFu64) | (value & 0xFFFF);
            proof {
                lemma_write_word(word, value, r);
                assert(r % 0x1_0000 == value % 0x1_0000);
            }
            r
        },
        Width::Dword => {
            proof {
                lemma_read_masks(value);
            }
            value & 0xFFFF_FFFF
        },
        Width::Qword => value,
    }
}

proof fn lemma_read_masks(word: u64)
    by (bit_vector)
    ensures
        word & 0xFF == word % 0x100,
        (word >> 8) & 0xFF == (word / 0x100) % 0x100,
        word & 0xFFFF == word % 0x1_0000,
        word & 0xFFFF_FFFF == word % 0x1_0000_0000,
{
}

proof fn lemma_write_low8(word: u64, value: u64, r: u64)
    by (bit_vector)
    requires
        r == (word & !0xFFu64) | (value & 0xFF),
    ensures
        r % 0x100 == value % 0x100,
        r / 0x100 == word / 0x100,
{
}

proof fn lemma_write_high8(word: u64, value: u64, r: u64)
    by (bit_vector)
    requires
        r == (word & !0xFF00u64) | ((value & 0xFF) << 8),
    ensures
        r % 0x100 == word % 0x100,
        (r / 0x100) % 0x100 == value % 0x100,
        (r / 0x100) / 0x100 == (word / 0x100) / 0x100,
{
}

proof fn lemma_write_word(word: u64, value: u64, r: u64)
    by (bit_vector)
    requires
        r == (word & !0xFFFFu64) | (value & 0xFFFF),
    ensures
        r % 0x1_0000 == value % 0x1_0000,
        r / 0x1_0000 == word / 0x1_0000,
{
}

/// A write never leaves the range of the backing word.
pub proof fn lemma_merged_fits(word: u64, width: Width, value: u64)
    ensures
        0 <= merged(word as int, width, value as int) <= u64::MAX,
{
}

/// Reading a view after writing through it gives the written value, reduced
/// to the width of the view.
pub proof fn lemma_read_after_write(word: u64, width: Width, value: u64)
    ensures
        view_of(merged(word as int, width, value as int), width) == value as int % width.modulus(),
{
    if width == Width::Qword {
        vstd::arithmetic::div_mod::lemma_small_mod(value as nat, 0x1_0000_0000_0000_0000);
    }
}

/// An 8-bit or 16-bit write keeps every bit outside the view.
pub proof fn lemma_narrow_write_keeps_rest(word: u64, value: u64)
    ensures
        merged(word as int, Width::Low8, value as int) / 0x100 == word / 0x100,
        merged(word as int, Width::High8, value as int) % 0x100 == word % 0x100,
        merged(word as int, Width::High8, value as int) / 0x1_0000 == word / 0x1_0000,
        merged(word as int, Width::Word, value as int) / 0x1_0000 == word / 0x1_0000,
{
}

/// A 32-bit write clears the upper half of the backing word, whatever the
/// word held before; a 64-bit write replaces the word.
pub proof fn lemma_wide_write_replaces(word: u64, value: u64)
    ensures
        merged(word as int, Width::Dword, value as int) == value % 0x1_0000_0000,
        merged(word as int, Width::Dword, value as int) / 0x1_0000_0000 == 0,
        merged(word as int, Width::Qword, value as int) == value,
{
}

} // verus!
