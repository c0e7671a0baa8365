use cpu_regs::flags::{Flag, Flags, DEFINED_BITS, FIXED_ONE};

fn cleared() -> Flags {
    Flags {
        carry: false,
        parity: false,
        adjust: false,
        zero: false,
        sign: false,
        trap: false,
        intr: false,
        direction: false,
        overflow: false,
        iopl: 0,
        nested_task: false,
        resume: false,
        vm8086: false,
        ac: false,
        vif: false,
        vip: false,
        id: false,
    }
}

fn all_set() -> Flags {
    Flags {
        carry: true,
        parity: true,
        adjust: true,
        zero: true,
        sign: true,
        trap: true,
        intr: true,
        direction: true,
        overflow: true,
        iopl: 3,
        nested_task: true,
        resume: true,
        vm8086: true,
        ac: true,
        vif: true,
        vip: true,
        id: true,
    }
}

const ALL_FLAGS: [(Flag, u64); 16] = [
    (Flag::Carry, 0),
    (Flag::Parity, 2),
    (Flag::Adjust, 4),
    (Flag::Zero, 6),
    (Flag::Sign, 7),
    (Flag::Trap, 8),
    (Flag::Intr, 9),
    (Flag::Direction, 10),
    (Flag::Overflow, 11),
    (Flag::NestedTask, 14),
    (Flag::Resume, 16),
    (Flag::Vm8086, 17),
    (Flag::Ac, 18),
    (Flag::Vif, 19),
    (Flag::Vip, 20),
    (Flag::Id, 21),
];

#[test]
fn encode_of_cleared_flags_is_the_fixed_bit() {
    assert_eq!(cleared().encode(), 0x2);
}

#[test]
fn encode_of_all_flags_sets_every_defined_bit() {
    assert_eq!(all_set().encode(), 0x3F_7FD7);
    assert_eq!(all_set().encode(), DEFINED_BITS | FIXED_ONE);
}

#[test]
fn encode_places_each_flag_at_its_offset() {
    for (flag, offset) in ALL_FLAGS {
        let mut f = cleared();
        f.set(flag, true);
        assert_eq!(f.encode(), (1u64 << offset) | 0x2);
        assert_eq!(flag.offset(), offset);
    }
}

#[test]
fn encode_places_iopl_at_bits_12_and_13() {
    let mut f = cleared();
    f.iopl = 1;
    assert_eq!(f.encode(), 0x1002);
    f.iopl = 2;
    assert_eq!(f.encode(), 0x2002);
    f.iopl = 3;
    assert_eq!(f.encode(), 0x3002);
}

#[test]
fn encode_always_sets_bit_one() {
    for f in [cleared(), all_set()] {
        assert_eq!(f.encode() & 0x2, 0x2);
    }
    for (flag, _) in ALL_FLAGS {
        let mut f = cleared();
        f.set(flag, true);
        assert_eq!(f.encode() & 0x2, 0x2);
    }
}

#[test]
fn encode_truncates_iopl_to_two_bits() {
    let mut f = cleared();
    f.iopl = 7;
    let packed = f.encode();
    assert_eq!((packed >> 12) & 0x7, 3);
    assert_eq!(packed, 0x3002);
    f.iopl = 0xFC;
    assert_eq!(f.encode(), 0x2);
}

#[test]
fn decode_reads_each_flag_from_its_offset() {
    for (flag, offset) in ALL_FLAGS {
        let f = Flags::decode(1u64 << offset);
        for (other, _) in ALL_FLAGS {
            assert_eq!(f.get(other), other == flag);
        }
        assert_eq!(f.iopl, 0);
    }
}

#[test]
fn decode_reads_iopl() {
    assert_eq!(Flags::decode(0x1000).iopl, 1);
    assert_eq!(Flags::decode(0x2000).iopl, 2);
    assert_eq!(Flags::decode(0x3000).iopl, 3);
    assert_eq!(Flags::decode(0x3000), Flags { iopl: 3, ..cleared() });
}

#[test]
fn decode_drops_undefined_bits() {
    let undefined = !(DEFINED_BITS);
    assert_eq!(Flags::decode(undefined), cleared());
    assert_eq!(Flags::decode(u64::MAX), all_set());
    assert_eq!(Flags::decode(0), cleared());
}

#[test]
fn decode_after_encode_gives_the_value_back() {
    assert_eq!(Flags::decode(cleared().encode()), cleared());
    assert_eq!(Flags::decode(all_set().encode()), all_set());
    for (flag, _) in ALL_FLAGS {
        for iopl in 0..4u8 {
            let mut f = cleared();
            f.iopl = iopl;
            f.set(flag, true);
            assert_eq!(Flags::decode(f.encode()), f);
            let mut g = all_set();
            g.iopl = iopl;
            g.set(flag, false);
            assert_eq!(Flags::decode(g.encode()), g);
        }
    }
}

#[test]
fn decode_after_encode_truncates_a_wide_iopl() {
    let f = Flags { iopl: 7, carry: true, ..cleared() };
    assert_eq!(Flags::decode(f.encode()), Flags { iopl: 3, carry: true, ..cleared() });
}

#[test]
fn encode_after_decode_keeps_defined_bits_and_sets_bit_one() {
    for word in [0u64, 1, 2, 0x8000, 0x1234_5678_9ABC_DEF0, u64::MAX, 0x3F_7FD5, 0xFFC0_802A] {
        assert_eq!(Flags::decode(word).encode(), (word & 0x3F_7FD5) | 0x2);
    }
}

#[test]
fn conversions_agree_with_the_codec() {
    let f = Flags::from(0x8D5u64);
    assert_eq!(f, Flags::decode(0x8D5));
    assert!(f.carry && f.parity && f.zero && f.sign && f.overflow);
    assert!(!f.adjust || f.adjust == Flags::decode(0x8D5).adjust);
    let packed: u64 = f.into();
    assert_eq!(packed, 0x8D5 | 0x2);
    let all: u64 = all_set().into();
    assert_eq!(all, 0x3F_7FD7);
}

#[test]
fn get_reads_the_named_field() {
    let f = Flags { zero: true, vif: true, ..cleared() };
    assert!(f.get(Flag::Zero));
    assert!(f.get(Flag::Vif));
    assert!(!f.get(Flag::Carry));
    assert!(!f.get(Flag::Id));
}

#[test]
fn set_changes_one_bit_of_the_encoding() {
    for (flag, offset) in ALL_FLAGS {
        for start in [cleared(), all_set(), Flags { iopl: 2, sign: true, ac: true, ..cleared() }] {
            for value in [false, true] {
                let mut f = start;
                f.set(flag, value);
                let bit = if value { 1u64 << offset } else { 0 };
                assert_eq!(f.encode(), (start.encode() & !(1u64 << offset)) | bit);
                assert_eq!(f.get(flag), value);
                assert_eq!(f.iopl, start.iopl);
                for (other, _) in ALL_FLAGS {
                    if other != flag {
                        assert_eq!(f.get(other), start.get(other));
                    }
                }
            }
        }
    }
}

#[test]
fn set_keeps_a_wide_iopl_as_it_is() {
    let mut f = Flags { iopl: 0xFF, ..cleared() };
    f.set(Flag::Carry, true);
    assert_eq!(f, Flags { iopl: 0xFF, carry: true, ..cleared() });
}
