//! What holds of the flags codec: the encoding read bit by bit, the two
//! round trips, the fixed and reserved bits, and single-flag access in terms
//! of the packed form.

use crate::flags::{
    bit_at, bit_of, high_field, iopl_field, low_field, Flag, Flags, DEFINED_BITS, FIXED_ONE,
    HIGH_BITS, IOPL_BITS, LOW_BITS,
};
use vstd::prelude::*;

verus! {

proof fn lemma_low_chain(
    word: u64,
    carry: bool,
    parity: bool,
    adjust: bool,
    zero: bool,
    sign: bool,
    trap: bool,
    intr: bool,
    direction: bool,
    overflow: bool,
)
    by (bit_vector)
    requires
        word == bit_at(carry, 0)
            | bit_at(parity, 2)
            | bit_at(adjust, 4)
            | bit_at(zero, 6)
            | bit_at(sign, 7)
            | bit_at(trap, 8)
            | bit_at(intr, 9)
            | bit_at(direction, 10)
            | bit_at(overflow, 11),
    ensures
        bit_of(word, 0) == carry,
        bit_of(word, 2) == parity,
        bit_of(word, 4) == adjust,
        bit_of(word, 6) == zero,
        bit_of(word, 7) == sign,
        bit_of(word, 8) == trap,
        bit_of(word, 9) == intr,
        bit_of(word, 10) == direction,
        bit_of(word, 11) == overflow,
        word & !LOW_BITS == 0,
{
}

proof fn lemma_high_chain(
    word: u64,
    nested_task: bool,
    resume: bool,
    vm8086: bool,
    ac: bool,
    vif: bool,
    vip: bool,
    id: bool,
)
    by (bit_vector)
    requires
        word == bit_at(nested_task, 14)
            | bit_at(resume, 16)
            | bit_at(vm8086, 17)
            | bit_at(ac, 18)
            | bit_at(vif, 19)
            | bit_at(vip, 20)
            | bit_at(id, 21),
    ensures
        bit_of(word, 14) == nested_task,
        bit_of(word, 16) == resume,
        bit_of(word, 17) == vm8086,
        bit_of(word, 18) == ac,
        bit_of(word, 19) == vif,
        bit_of(word, 20) == vip,
        bit_of(word, 21) == id,
        word & !HIGH_BITS == 0,
{
}

proof fn lemma_low_of_word(
    val: u64,
    word: u64,
    carry: bool,
    parity: bool,
    adjust: bool,
    zero: bool,
    sign: bool,
    trap: bool,
    intr: bool,
    direction: bool,
    overflow: bool,
)
    by (bit_vector)
    requires
        carry == bit_of(val, 0),
        parity == bit_of(val, 2),
        adjust == bit_of(val, 4),
        zero == bit_of(val, 6),
        sign == bit_of(val, 7),
        trap == bit_of(val, 8),
        intr == bit_of(val, 9),
        direction == bit_of(val, 10),
        overflow == bit_of(val, 11),
        word == bit_at(carry, 0)
            | bit_at(parity, 2)
            | bit_at(adjust, 4)
            | bit_at(zero, 6)
            | bit_at(sign, 7)
            | bit_at(trap, 8)
            | bit_at(intr, 9)
            | bit_at(direction, 10)
            | bit_at(overflow, 11),
    ensures
        word == val & LOW_BITS,
{
}

proof fn lemma_high_of_word(
    val: u64,
    word: u64,
    nested_task: bool,
    resume: bool,
    vm8086: bool,
    ac: bool,
    vif: bool,
    vip: bool,
    id: bool,
)
    by (bit_vector)
    requires
        nested_task == bit_of(val, 14),
        resume == bit_of(val, 16),
        vm8086 == bit_of(val, 17),
        ac == bit_of(val, 18),
        vif == bit_of(val, 19),
        vip == bit_of(val, 20),
        id == bit_of(val, 21),
        word == bit_at(nested_task, 14)
            | bit_at(resume, 16)
            | bit_at(vm8086, 17)
            | bit_at(ac, 18)
            | bit_at(vif, 19)
            | bit_at(vip, 20)
            | bit_at(id, 21),
    ensures
        word == val & HIGH_BITS,
{
}

proof fn lemma_iopl_bits(iopl: u8)
    by (bit_vector)
    ensures
        iopl_field(iopl) & !IOPL_BITS == 0,
        (iopl_field(iopl) >> 12) & 3 == (iopl & 3) as u64,
        (iopl & 3) < 4,
        iopl < 4 ==> (iopl & 3) == iopl,
        (((iopl & 3) as u64) as u8) == (iopl & 3),
{
}

proof fn lemma_iopl_of_word(val: u64)
    by (bit_vector)
    ensures
        iopl_field(((val >> 12) & 3) as u8) == val & IOPL_BITS,
        (((val >> 12) & 3) as u8) < 4,
        (val & LOW_BITS) | (val & IOPL_BITS) | (val & HIGH_BITS) | FIXED_ONE == (val
            & DEFINED_BITS) | FIXED_ONE,
{
}

proof fn lemma_join(low: u64, io: u64, high: u64)
    by (bit_vector)
    requires
        low & !LOW_BITS == 0,
        io & !IOPL_BITS == 0,
        high & !HIGH_BITS == 0,
    ensures
        bit_of(low | io | high | FIXED_ONE, 0) == bit_of(low, 0),
        bit_of(low | io | high | FIXED_ONE, 2) == bit_of(low, 2),
        bit_of(low | io | high | FIXED_ONE, 4) == bit_of(low, 4),
        bit_of(low | io | high | FIXED_ONE, 6) == bit_of(low, 6),
        bit_of(low | io | high | FIXED_ONE, 7) == bit_of(low, 7),
        bit_of(low | io | high | FIXED_ONE, 8) == bit_of(low, 8),
        bit_of(low | io | high | FIXED_ONE, 9) == bit_of(low, 9),
        bit_of(low | io | high | FIXED_ONE, 10) == bit_of(low, 10),
        bit_of(low | io | high | FIXED_ONE, 11) == bit_of(low, 11),
        bit_of(low | io | high | FIXED_ONE, 14) == bit_of(high, 14),
        bit_of(low | io | high | FIXED_ONE, 16) == bit_of(high, 16),
        bit_of(low | io | high | FIXED_ONE, 17) == bit_of(high, 17),
        bit_of(low | io | high | FIXED_ONE, 18) == bit_of(high, 18),
        bit_of(low | io | high | FIXED_ONE, 19) == bit_of(high, 19),
        bit_of(low | io | high | FIXED_ONE, 20) == bit_of(high, 20),
        bit_of(low | io | high | FIXED_ONE, 21) == bit_of(high, 21),
        ((low | io | high | FIXED_ONE) >> 12) & 3 == (io >> 12) & 3,
        (low | io | high | FIXED_ONE) & FIXED_ONE == FIXED_ONE,
        (low | io | high | FIXED_ONE) & !(DEFINED_BITS | FIXED_ONE) == 0,
{
}

/// Each flag below the privilege level is read back from the low field at
/// its own offset, and the field sets no other bit.
pub proof fn lemma_low_field(f: Flags)
    ensures
        bit_of(low_field(f), 0) == f.carry,
        bit_of(low_field(f), 2) == f.parity,
        bit_of(low_field(f), 4) == f.adjust,
        bit_of(low_field(f), 6) == f.zero,
        bit_of(low_field(f), 7) == f.sign,
        bit_of(low_field(f), 8) == f.trap,
        bit_of(low_field(f), 9) == f.intr,
        bit_of(low_field(f), 10) == f.direction,
        bit_of(low_field(f), 11) == f.overflow,
        low_field(f) & !LOW_BITS == 0,
{
    reveal(low_field);
    lemma_low_chain(
        low_field(f),
        f.carry,
        f.parity,
        f.adjust,
        f.zero,
        f.sign,
        f.trap,
        f.intr,
        f.direction,
        f.overflow,
    );
}

/// Each flag above the privilege level is read back from the high field at
/// its own offset, and the field sets no other bit.
pub proof fn lemma_high_field(f: Flags)
    ensures
        bit_of(high_field(f), 14) == f.nested_task,
        bit_of(high_field(f), 16) == f.resume,
        bit_of(high_field(f), 17) == f.vm8086,
        bit_of(high_field(f), 18) == f.ac,
        bit_of(high_field(f), 19) == f.vif,
        bit_of(high_field(f), 20) == f.vip,
        bit_of(high_field(f), 21) == f.id,
        high_field(f) & !HIGH_BITS == 0,
{
    reveal(high_field);
    lemma_high_chain(high_field(f), f.nested_task, f.resume, f.vm8086, f.ac, f.vif, f.vip, f.id);
}

/// Each named flag is read back from the encoding at its own offset.
pub proof fn lemma_encode_bits(f: Flags)
    ensures
        bit_of(f.spec_encode(), 0) == f.carry,
        bit_of(f.spec_encode(), 2) == f.parity,
        bit_of(f.spec_encode(), 4) == f.adjust,
        bit_of(f.spec_encode(), 6) == f.zero,
        bit_of(f.spec_encode(), 7) == f.sign,
        bit_of(f.spec_encode(), 8) == f.trap,
        bit_of(f.spec_encode(), 9) == f.intr,
        bit_of(f.spec_encode(), 10) == f.direction,
        bit_of(f.spec_encode(), 11) == f.overflow,
        bit_of(f.spec_encode(), 14) == f.nested_task,
        bit_of(f.spec_encode(), 16) == f.resume,
        bit_of(f.spec_encode(), 17) == f.vm8086,
        bit_of(f.spec_encode(), 18) == f.ac,
        bit_of(f.spec_encode(), 19) == f.vif,
        bit_of(f.spec_encode(), 20) == f.vip,
        bit_of(f.spec_encode(), 21) == f.id,
{
    lemma_low_field(f);
    lemma_high_field(f);
    lemma_iopl_bits(f.iopl);
    lemma_join(low_field(f), iopl_field(f.iopl), high_field(f));
}

/// The encoded privilege level is the low two bits of the field, whatever
/// the field holds.
pub proof fn lemma_encode_iopl(f: Flags)
    ensures
        (f.spec_encode() >> 12) & 3 == (f.iopl & 3) as u64,
        (f.spec_encode() >> 12) & 3 < 4,
{
    lemma_low_field(f);
    lemma_high_field(f);
    lemma_iopl_bits(f.iopl);
    lemma_join(low_field(f), iopl_field(f.iopl), high_field(f));
}

/// Bit 1 of every encoding is set, and no bit outside the named fields and
/// bit 1 is ever set.
pub proof fn lemma_encode_fixed_bits(f: Flags)
    ensures
        f.spec_encode() & FIXED_ONE == FIXED_ONE,
        f.spec_encode() & !(DEFINED_BITS | FIXED_ONE) == 0,
{
    lemma_low_field(f);
    lemma_high_field(f);
    lemma_iopl_bits(f.iopl);
    lemma_join(low_field(f), iopl_field(f.iopl), high_field(f));
}

proof fn lemma_change_bit(word: u64, off: u64, bit: u64, k: u64)
    by (bit_vector)
    requires
        off < 64,
        k < 64,
        bit == 0 || bit == 1u64 << off,
    ensures
        bit_of((word & !(1u64 << off)) | bit, off) == (bit != 0),
        k != off ==> bit_of((word & !(1u64 << off)) | bit, k) == bit_of(word, k),
        off != 12 && off != 13 ==> ((((word & !(1u64 << off)) | bit) >> 12) & 3) as u8 == ((word
            >> 12) & 3) as u8,
        1u64 << off != 0,
{
}

proof fn lemma_defined_bit_stays(word: u64, off: u64, bit: u64)
    by (bit_vector)
    requires
        off < 64,
        bit == 0 || bit == 1u64 << off,
        (1u64 << off) & DEFINED_BITS == (1u64 << off),
        word & FIXED_ONE == FIXED_ONE,
        word & !(DEFINED_BITS | FIXED_ONE) == 0,
    ensures
        (((word & !(1u64 << off)) | bit) & DEFINED_BITS) | FIXED_ONE == (word & !(1u64 << off))
            | bit,
{
}

proof fn lemma_offset_bits(off: u64)
    by (bit_vector)
    requires
        is_flag_offset(off),
    ensures
        (1u64 << off) & DEFINED_BITS == (1u64 << off),
{
}

/// The privilege level enters the encoding through its two low bits alone.
pub proof fn lemma_encode_truncated(f: Flags)
    ensures
        f.truncated().spec_encode() == f.spec_encode(),
{
    assert(low_field(f.truncated()) == low_field(f)) by {
        reveal(low_field);
    }
    assert(high_field(f.truncated()) == high_field(f)) by {
        reveal(high_field);
    }
    assert(iopl_field(f.iopl & 3) == iopl_field(f.iopl)) by {
        let i = f.iopl;
        assert(((((i & 3) & 3) as u64) << 12) == (((i & 3) as u64) << 12)) by (bit_vector);
    }
}

/// A flag read by name is the bit that the encoding holds at its offset.
pub proof fn lemma_get_is_bit(f: Flags, flag: Flag)
    ensures
        f.spec_get(flag) == bit_of(f.spec_encode(), flag.spec_offset()),
{
    lemma_encode_bits(f);
}

/// Whether `g` is `f` with the flag at offset `off`, if there is one, set
/// exactly when `bit` is not zero.
#[verifier::opaque]
spec fn differs_at(f: Flags, g: Flags, off: u64, bit: u64) -> bool {
    &&& g.iopl == f.iopl
    &&& g.carry == (if off == 0 { bit != 0 } else { f.carry })
    &&& g.parity == (if off == 2 { bit != 0 } else { f.parity })
    &&& g.adjust == (if off == 4 { bit != 0 } else { f.adjust })
    &&& g.zero == (if off == 6 { bit != 0 } else { f.zero })
    &&& g.sign == (if off == 7 { bit != 0 } else { f.sign })
    &&& g.trap == (if off == 8 { bit != 0 } else { f.trap })
    &&& g.intr == (if off == 9 { bit != 0 } else { f.intr })
    &&& g.direction == (if off == 10 { bit != 0 } else { f.direction })
    &&& g.overflow == (if off == 11 { bit != 0 } else { f.overflow })
    &&& g.nested_task == (if off == 14 { bit != 0 } else { f.nested_task })
    &&& g.resume == (if off == 16 { bit != 0 } else { f.resume })
    &&& g.vm8086 == (if off == 17 { bit != 0 } else { f.vm8086 })
    &&& g.ac == (if off == 18 { bit != 0 } else { f.ac })
    &&& g.vif == (if off == 19 { bit != 0 } else { f.vif })
    &&& g.vip == (if off == 20 { bit != 0 } else { f.vip })
    &&& g.id == (if off == 21 { bit != 0 } else { f.id })
}

/// Whether `word` holds each flag of `g` at its offset, and the two low bits
/// of its privilege level.
#[verifier::opaque]
spec fn reads_as(word: u64, g: Flags) -> bool {
    &&& bit_of(word, 0) == g.carry
    &&& bit_of(word, 2) == g.parity
    &&& bit_of(word, 4) == g.adjust
    &&& bit_of(word, 6) == g.zero
    &&& bit_of(word, 7) == g.sign
    &&& bit_of(word, 8) == g.trap
    &&& bit_of(word, 9) == g.intr
    &&& bit_of(word, 10) == g.direction
    &&& bit_of(word, 11) == g.overflow
    &&& bit_of(word, 14) == g.nested_task
    &&& bit_of(word, 16) == g.resume
    &&& bit_of(word, 17) == g.vm8086
    &&& bit_of(word, 18) == g.ac
    &&& bit_of(word, 19) == g.vif
    &&& bit_of(word, 20) == g.vip
    &&& bit_of(word, 21) == g.id
    &&& ((word >> 12) & 3) as u8 == g.iopl & 3
}

/// Whether `word` decodes to `g`, the privilege level taken by its two low bits.
#[verifier::opaque]
spec fn decodes_to(word: u64, g: Flags) -> bool {
    Flags::spec_decode(word) == g.truncated()
}

/// Whether some flag lies at offset `off`.
#[verifier::opaque]
spec fn is_flag_offset(off: u64) -> bool {
    off == 0 || off == 2 || off == 4 || off == 6 || off == 7 || off == 8 || off == 9 || off == 10
        || off == 11 || off == 14 || off == 16 || off == 17 || off == 18 || off == 19 || off == 20
        || off == 21
}

proof fn lemma_reads_decodes(word: u64, g: Flags)
    requires
        reads_as(word, g),
    ensures
        decodes_to(word, g),
{
    reveal(reads_as);
    reveal(decodes_to);
}

proof fn lemma_changed_reads(f: Flags, g: Flags, word: u64, off: u64, bit: u64)
    requires
        off < 64 && off != 12 && off != 13,
        bit == 0 || bit == 1u64 << off,
        differs_at(f, g, off, bit),
        decodes_to(word, f),
    ensures
        reads_as((word & !(1u64 << off)) | bit, g),
{
    reveal(differs_at);
    reveal(decodes_to);
    reveal(reads_as);
    lemma_change_bit(word, off, bit, 0);
    lemma_change_bit(word, off, bit, 2);
    lemma_change_bit(word, off, bit, 4);
    lemma_change_bit(word, off, bit, 6);
    lemma_change_bit(word, off, bit, 7);
    lemma_change_bit(word, off, bit, 8);
    lemma_change_bit(word, off, bit, 9);
    lemma_change_bit(word, off, bit, 10);
    lemma_change_bit(word, off, bit, 11);
    lemma_change_bit(word, off, bit, 14);
    lemma_change_bit(word, off, bit, 16);
    lemma_change_bit(word, off, bit, 17);
    lemma_change_bit(word, off, bit, 18);
    lemma_change_bit(word, off, bit, 19);
    lemma_change_bit(word, off, bit, 20);
    lemma_change_bit(word, off, bit, 21);
}

proof fn lemma_encoding_decodes(f: Flags)
    ensures
        decodes_to(f.spec_encode(), f),
{
    reveal(decodes_to);
    lemma_decode_encode(f);
}

proof fn lemma_decoded_encoding(word: u64, g: Flags)
    requires
        decodes_to(word, g),
        word == (word & DEFINED_BITS) | FIXED_ONE,
    ensures
        g.spec_encode() == word,
{
    reveal(decodes_to);
    lemma_encode_decode(word);
    lemma_encode_truncated(g);
}

proof fn lemma_one_bit_differs(f: Flags, g: Flags, off: u64, bit: u64)
    requires
        is_flag_offset(off),
        bit == 0 || bit == 1u64 << off,
        differs_at(f, g, off, bit),
    ensures
        g.spec_encode() == (f.spec_encode() & !(1u64 << off)) | bit,
{
    let word = f.spec_encode();
    let changed = (word & !(1u64 << off)) | bit;
    reveal(is_flag_offset);
    lemma_offset_bits(off);
    lemma_encoding_decodes(f);
    lemma_changed_reads(f, g, word, off, bit);
    lemma_reads_decodes(changed, g);
    lemma_encode_fixed_bits(f);
    lemma_defined_bit_stays(word, off, bit);
    lemma_decoded_encoding(changed, g);
}

proof fn lemma_with_bit_differs(f: Flags, off: u64, value: bool, bit: u64)
    requires
        value == (bit != 0),
    ensures
        differs_at(f, f.spec_with_bit(off, value), off, bit),
{
    reveal(differs_at);
}

proof fn lemma_flag_bit(flag: Flag, value: bool)
    ensures
        is_flag_offset(flag.spec_offset()),
        value == (bit_at(value, flag.spec_offset()) != 0),
        bit_at(value, flag.spec_offset()) == 0 || bit_at(value, flag.spec_offset()) == 1u64
            << flag.spec_offset(),
{
    let off = flag.spec_offset();
    reveal(is_flag_offset);
    assert(1u64 << off != 0) by (bit_vector)
        requires
            off < 64,
    ;
}

/// A flag replaced by name is read back under that name; every other flag
/// and the privilege level stay.
pub proof fn lemma_get_after_set(f: Flags, flag: Flag, value: bool, other: Flag)
    ensures
        f.spec_set(flag, value).spec_get(flag) == value,
        other != flag ==> f.spec_set(flag, value).spec_get(other) == f.spec_get(other),
        f.spec_set(flag, value).iopl == f.iopl,
{
    let g = f.spec_set(flag, value);
    let off = flag.spec_offset();
    lemma_get_is_bit(g, flag);
    lemma_get_is_bit(g, other);
    lemma_get_is_bit(f, other);
    lemma_set_is_bit(f, flag, value);
    lemma_flag_bit(flag, value);
    lemma_offsets_apart(flag, other);
    lemma_change_bit(f.spec_encode(), off, bit_at(value, off), other.spec_offset());
}

proof fn lemma_offsets_apart(a: Flag, b: Flag)
    ensures
        a.spec_offset() < 64,
        b.spec_offset() < 64,
        a != b ==> a.spec_offset() != b.spec_offset(),
{
}

/// Replacing a flag by name changes, in the encoding, the bit at that flag's
/// offset and no other.
pub proof fn lemma_set_is_bit(f: Flags, flag: Flag, value: bool)
    ensures
        f.spec_set(flag, value).spec_encode() == (f.spec_encode() & !(1u64 << flag.spec_offset()))
            | bit_at(value, flag.spec_offset()),
{
    let off = flag.spec_offset();
    let bit = bit_at(value, off);
    lemma_flag_bit(flag, value);
    lemma_with_bit_differs(f, off, value, bit);
    lemma_one_bit_differs(f, f.spec_set(flag, value), off, bit);
}

/// Decoding an encoded value gives every flag back unchanged, and the
/// privilege level reduced to its two low bits; a well-formed value is given
/// back whole.
pub proof fn lemma_decode_encode(f: Flags)
    ensures
        Flags::spec_decode(f.spec_encode()) == f.truncated(),
        f.wf() ==> Flags::spec_decode(f.spec_encode()) == f,
{
    lemma_encode_bits(f);
    lemma_encode_iopl(f);
    lemma_iopl_bits(f.iopl);
}

/// Encoding a decoded word keeps every defined bit of the word, sets bit 1
/// and clears all other bits; a decoded value is always well formed.
pub proof fn lemma_encode_decode(val: u64)
    ensures
        Flags::spec_decode(val).spec_encode() == (val & DEFINED_BITS) | FIXED_ONE,
        Flags::spec_decode(val).wf(),
{
    let d = Flags::spec_decode(val);
    assert(low_field(d) == val & LOW_BITS) by {
        reveal(low_field);
        lemma_low_of_word(
            val,
            low_field(d),
            d.carry,
            d.parity,
            d.adjust,
            d.zero,
            d.sign,
            d.trap,
            d.intr,
            d.direction,
            d.overflow,
        );
    }
    assert(high_field(d) == val & HIGH_BITS) by {
        reveal(high_field);
        lemma_high_of_word(
            val,
            high_field(d),
            d.nested_task,
            d.resume,
            d.vm8086,
            d.ac,
            d.vif,
            d.vip,
            d.id,
        );
    }
    lemma_iopl_of_word(val);
}

} // verus!
