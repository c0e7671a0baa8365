use cpu_regs::flags::{Flag, Flags};
use cpu_regs::fpu::{stack_slot, FPUMMXRegister, LastFpuInstruction};
use cpu_regs::gpr::Width;
use cpu_regs::names::{Reg16, Reg32, Reg8, SegReg, TableReg};
use cpu_regs::regfile::{RegError, Registers};
use cpu_regs::segment::SegmentRegister;

fn zeroed() -> Registers {
    let seg = SegmentRegister::new(0, 0, 0, 0);
    let fpr = FPUMMXRegister::new(0, 0, false);
    Registers {
        gprs: [0; 16],
        rflags: Flags::decode(0),
        rip: 0,
        segs: [seg; 6],
        gdtr: seg,
        ldtr: seg,
        idtr: seg,
        tr: seg,
        fprs: [fpr; 8],
        top: 0,
        fpu_cw: 0,
        fpu_sw: 0,
        fpu_tw: 0,
        fpu_opcode: 0,
        fpu_cs: 0,
        fpu_ds: 0,
        fpu_ip: 0,
        fpu_dp: 0,
    }
}

const SEGS: [SegReg; 6] = [SegReg::ES, SegReg::CS, SegReg::SS, SegReg::DS, SegReg::FS, SegReg::GS];
const TABLES: [TableReg; 4] = [TableReg::GDTR, TableReg::LDTR, TableReg::IDTR, TableReg::TR];

#[test]
fn dword_write_zero_extends() {
    let mut r = zeroed();
    r.gprs[0] = 0x1122_3344_5566_7788;
    assert_eq!(r.write_gpr(0, Width::Dword, 0xFFFF_FFFF), Ok(()));
    assert_eq!(r.gprs[0], 0x0000_0000_FFFF_FFFF);
    assert_eq!(r.read_gpr(0, Width::Qword), Ok(0x0000_0000_FFFF_FFFF));
}

#[test]
fn low_byte_write_keeps_the_rest() {
    let mut r = zeroed();
    r.gprs[5] = 0x1122_3344_5566_7700;
    assert_eq!(r.write_gpr(5, Width::Low8, 0xAB), Ok(()));
    assert_eq!(r.gprs[5], 0x1122_3344_5566_77AB);
}

#[test]
fn word_write_keeps_the_rest() {
    let mut r = zeroed();
    r.gprs[15] = 0x1122_3344_5566_7788;
    assert_eq!(r.write_gpr(15, Width::Word, 0xBEEF), Ok(()));
    assert_eq!(r.gprs[15], 0x1122_3344_5566_BEEF);
}

#[test]
fn high_byte_view_on_the_first_four_registers() {
    let mut r = zeroed();
    for index in 0..4 {
        r.gprs[index] = 0x1122_3344_5566_7788;
        assert_eq!(r.read_gpr(index, Width::High8), Ok(0x77));
        assert_eq!(r.write_gpr(index, Width::High8, 0xAB), Ok(()));
        assert_eq!(r.gprs[index], 0x1122_3344_5566_AB88);
    }
}

#[test]
fn high_byte_view_of_register_eight_is_refused() {
    let mut r = zeroed();
    r.gprs[8] = 0x1122_3344_5566_7788;
    let before = r;
    assert_eq!(r.read_gpr(8, Width::High8), Err(RegError::InvalidWidth));
    assert_eq!(r.write_gpr(8, Width::High8, 0xAB), Err(RegError::InvalidWidth));
    assert_eq!(r, before);
}

#[test]
fn high_byte_view_is_refused_from_register_four_on() {
    let mut r = zeroed();
    let before = r;
    for index in 4..16 {
        assert_eq!(r.read_gpr(index, Width::High8), Err(RegError::InvalidWidth));
        assert_eq!(r.write_gpr(index, Width::High8, 1), Err(RegError::InvalidWidth));
    }
    assert_eq!(r, before);
}

#[test]
fn register_sixteen_is_refused() {
    let mut r = zeroed();
    let before = r;
    for width in [Width::Low8, Width::High8, Width::Word, Width::Dword, Width::Qword] {
        assert_eq!(r.read_gpr(16, width), Err(RegError::InvalidIndex));
        assert_eq!(r.write_gpr(16, width, 1), Err(RegError::InvalidIndex));
        assert_eq!(r.read_gpr(usize::MAX, width), Err(RegError::InvalidIndex));
    }
    assert_eq!(r, before);
}

#[test]
fn gpr_write_leaves_other_registers() {
    let mut r = zeroed();
    for index in 0..16 {
        r.gprs[index] = 0x0101_0101_0101_0101 * (index as u64 + 1);
    }
    let before = r;
    assert_eq!(r.write_gpr(7, Width::Qword, 0xDEAD_BEEF), Ok(()));
    for index in 0..16 {
        if index == 7 {
            assert_eq!(r.gprs[index], 0xDEAD_BEEF);
        } else {
            assert_eq!(r.gprs[index], before.gprs[index]);
        }
    }
    r.gprs[7] = before.gprs[7];
    assert_eq!(r, before);
}

#[test]
fn named_byte_registers_alias_the_first_four() {
    let mut r = zeroed();
    r.gprs[0] = 0x1122_3344_5566_7788;
    r.gprs[1] = 0x0000_0000_0000_ABCD;
    r.gprs[3] = 0xFFFF_FFFF_FFFF_FFFF;
    assert_eq!(r.read8(Reg8::AL), 0x88);
    assert_eq!(r.read8(Reg8::AH), 0x77);
    assert_eq!(r.read8(Reg8::CL), 0xCD);
    assert_eq!(r.read8(Reg8::CH), 0xAB);
    assert_eq!(r.read8(Reg8::DL), 0);
    assert_eq!(r.read8(Reg8::DH), 0);
    r.write8(Reg8::BH, 0x12);
    assert_eq!(r.gprs[3], 0xFFFF_FFFF_FFFF_12FF);
    r.write8(Reg8::BL, 0x34);
    assert_eq!(r.gprs[3], 0xFFFF_FFFF_FFFF_1234);
    r.write8(Reg8::DH, 0x56);
    assert_eq!(r.gprs[2], 0x5600);
    assert_eq!(r.gprs[0], 0x1122_3344_5566_7788);
}

#[test]
fn named_word_registers() {
    let mut r = zeroed();
    r.gprs[4] = 0x1122_3344_5566_7788;
    assert_eq!(r.read16(Reg16::SP), 0x7788);
    r.write16(Reg16::SP, 0xABCD);
    assert_eq!(r.gprs[4], 0x1122_3344_5566_ABCD);
    r.write16(Reg16::DI, 0xFFFF);
    assert_eq!(r.gprs[7], 0xFFFF);
    assert_eq!(r.read16(Reg16::AX), 0);
}

#[test]
fn named_dword_registers() {
    let mut r = zeroed();
    r.gprs[6] = 0x1122_3344_5566_7788;
    assert_eq!(r.read32(Reg32::ESI), 0x5566_7788);
    r.write32(Reg32::ESI, 0xFFFF_FFFF);
    assert_eq!(r.gprs[6], 0x0000_0000_FFFF_FFFF);
    r.gprs[1] = u64::MAX;
    r.write32(Reg32::ECX, 0);
    assert_eq!(r.gprs[1], 0);
}

#[test]
fn register_names_map_to_indices() {
    assert_eq!(Reg8::AL.gpr(), 0);
    assert_eq!(Reg8::BH.gpr(), 3);
    assert_eq!(Reg8::CH.width(), Width::High8);
    assert_eq!(Reg8::DL.width(), Width::Low8);
    assert_eq!(Reg16::BX.gpr(), 3);
    assert_eq!(Reg16::DI.gpr(), 7);
    assert_eq!(Reg32::EAX.gpr(), 0);
    assert_eq!(Reg32::EBP.gpr(), 5);
    assert_eq!(SegReg::ES.slot(), 0);
    assert_eq!(SegReg::GS.slot(), 5);
}

#[test]
fn flags_as_a_unit_and_by_name() {
    let mut r = zeroed();
    assert_eq!(r.rflags_bits(), 0x2);
    r.set_rflags_bits(0x8D5);
    assert_eq!(r.flags(), Flags::decode(0x8D5));
    assert_eq!(r.rflags_bits(), 0x8D7);
    assert!(r.flag(Flag::Carry));
    assert!(!r.flag(Flag::Trap));
    r.set_flag(Flag::Trap, true);
    assert_eq!(r.rflags_bits(), 0x9D7);
    r.set_flag(Flag::Carry, false);
    assert_eq!(r.rflags_bits(), 0x9D6);
    let f = Flags::decode(0x20_0000);
    r.set_flags(f);
    assert_eq!(r.flags(), f);
    assert!(r.flag(Flag::Id));
}

#[test]
fn instruction_pointer() {
    let mut r = zeroed();
    let before = r;
    r.set_rip(0xFFF0);
    assert_eq!(r.rip(), 0xFFF0);
    r.set_rip(0);
    assert_eq!(r, before);
}

#[test]
fn segment_write_leaves_other_registers() {
    for name in SEGS {
        let mut r = zeroed();
        for (i, other) in SEGS.iter().enumerate() {
            r.set_seg(*other, SegmentRegister::new(i as u64, i as u32, i as u16, i as u16));
        }
        for (i, table) in TABLES.iter().enumerate() {
            r.set_table(*table, SegmentRegister::new(100 + i as u64, 100, 100, 100));
        }
        let before = r;
        let mut seg = r.seg(name);
        seg.set_base(0xFFFF_8000_0000_0000);
        seg.set_limit(0xFFFF_FFFF);
        seg.set_access(0xA09B);
        seg.set_selector(0x10);
        r.set_seg(name, seg);
        assert_eq!(
            r.seg(name),
            SegmentRegister::new(0xFFFF_8000_0000_0000, 0xFFFF_FFFF, 0xA09B, 0x10)
        );
        for other in SEGS {
            if other != name {
                assert_eq!(r.seg(other), before.seg(other));
            }
        }
        for table in TABLES {
            assert_eq!(r.table(table), before.table(table));
        }
        r.set_seg(name, before.seg(name));
        assert_eq!(r, before);
    }
}

#[test]
fn table_write_leaves_other_registers() {
    for name in TABLES {
        let mut r = zeroed();
        let before = r;
        let value = SegmentRegister::new(0x1000, 0x7F, 0x82, 0x28);
        r.set_table(name, value);
        assert_eq!(r.table(name), value);
        for other in TABLES {
            if other != name {
                assert_eq!(r.table(other), before.table(other));
            }
        }
        for seg in SEGS {
            assert_eq!(r.seg(seg), before.seg(seg));
        }
        r.set_table(name, before.table(name));
        assert_eq!(r, before);
    }
}

#[test]
fn segment_fields_are_independent() {
    let mut seg = SegmentRegister::new(1, 2, 3, 4);
    seg.set_base(0xAAAA);
    assert_eq!(seg, SegmentRegister { base: 0xAAAA, limit: 2, access: 3, selector: 4 });
    seg.set_limit(0xBBBB);
    assert_eq!(seg, SegmentRegister { base: 0xAAAA, limit: 0xBBBB, access: 3, selector: 4 });
    seg.set_access(0xCCCC);
    assert_eq!(seg, SegmentRegister { base: 0xAAAA, limit: 0xBBBB, access: 0xCCCC, selector: 4 });
    seg.set_selector(0xDDDD);
    assert_eq!(
        seg,
        SegmentRegister { base: 0xAAAA, limit: 0xBBBB, access: 0xCCCC, selector: 0xDDDD }
    );
}

#[test]
fn stack_slot_wraps_round() {
    assert_eq!(stack_slot(3, 0), Some(3));
    assert_eq!(stack_slot(3, 6), Some(1));
    assert_eq!(stack_slot(7, 1), Some(0));
    assert_eq!(stack_slot(0, 7), Some(7));
    assert_eq!(stack_slot(7, 7), Some(6));
    assert_eq!(stack_slot(8, 0), None);
    assert_eq!(stack_slot(0, 8), None);
    assert_eq!(stack_slot(usize::MAX, usize::MAX), None);
}

#[test]
fn stack_relative_access_with_top_three() {
    let mut r = zeroed();
    assert_eq!(r.set_top(3), Ok(()));
    assert_eq!(r.top(), 3);
    let a = FPUMMXRegister::new(0x8000_0000_0000_0000, 0x3FFF, false);
    let b = FPUMMXRegister::new(0xC000_0000_0000_0000, 0x4000, true);
    assert_eq!(r.set_st(0, a), Ok(()));
    assert_eq!(r.fpr(3), Ok(a));
    assert_eq!(r.set_st(6, b), Ok(()));
    assert_eq!(r.fpr(1), Ok(b));
    assert_eq!(r.st(6), Ok(b));
    assert_eq!(r.st(0), Ok(a));
    for slot in [0usize, 2, 4, 5, 6, 7] {
        assert_eq!(r.fpr(slot), Ok(FPUMMXRegister::new(0, 0, false)));
    }
}

#[test]
fn physical_stack_access() {
    let mut r = zeroed();
    let v = FPUMMXRegister::new(u64::MAX, 0xFFFF, true);
    assert_eq!(r.set_fpr(7, v), Ok(()));
    assert_eq!(r.fpr(7), Ok(v));
    assert_eq!(r.fprs[7], v);
    let before = r;
    assert_eq!(r.set_fpr(8, v), Err(RegError::InvalidIndex));
    assert_eq!(r.fpr(8), Err(RegError::InvalidIndex));
    assert_eq!(r, before);
}

#[test]
fn stack_access_outside_the_stack_is_refused() {
    let mut r = zeroed();
    let v = FPUMMXRegister::new(1, 1, false);
    let before = r;
    assert_eq!(r.st(8), Err(RegError::InvalidIndex));
    assert_eq!(r.set_st(8, v), Err(RegError::InvalidIndex));
    assert_eq!(r.set_top(8), Err(RegError::InvalidIndex));
    assert_eq!(r, before);
    r.top = 9;
    let broken = r;
    assert_eq!(r.st(0), Err(RegError::InvalidIndex));
    assert_eq!(r.set_st(0, v), Err(RegError::InvalidIndex));
    assert_eq!(r, broken);
}

#[test]
fn slot_holds_its_parts_as_given() {
    let v = FPUMMXRegister::new(0x0123_4567_89AB_CDEF, 0xFFFF, true);
    assert_eq!(v.mantissa, 0x0123_4567_89AB_CDEF);
    assert_eq!(v.exp, 0xFFFF);
    assert!(v.sign);
}

#[test]
fn fpu_housekeeping_words() {
    let mut r = zeroed();
    r.set_fpu_cw(0x037F);
    r.set_fpu_sw(0x3800);
    r.set_fpu_tw(0xFFFF);
    assert_eq!(r.fpu_cw(), 0x037F);
    assert_eq!(r.fpu_sw(), 0x3800);
    assert_eq!(r.fpu_tw(), 0xFFFF);
    let last =
        LastFpuInstruction { opcode: 0x5D8, cs: 0x33, ds: 0x2B, ip: 0x40_1000, dp: 0x7FFF_0000 };
    r.set_last_fpu_instruction(last);
    assert_eq!(r.last_fpu_instruction(), last);
    assert_eq!(r.fpu_opcode, 0x5D8);
    assert_eq!(r.fpu_cs, 0x33);
    assert_eq!(r.fpu_ds, 0x2B);
    assert_eq!(r.fpu_ip, 0x40_1000);
    assert_eq!(r.fpu_dp, 0x7FFF_0000);
    assert_eq!(r.fpu_cw(), 0x037F);
    assert_eq!(r.top(), 0);
}

#[test]
fn well_formedness_follows_the_stack_top() {
    let mut r = zeroed();
    assert!(r.is_wf());
    r.top = 7;
    assert!(r.is_wf());
    r.top = 8;
    assert!(!r.is_wf());
}

#[test]
fn whole_state_is_copied_in_one_assignment() {
    let mut a = zeroed();
    a.set_rip(0xFFF0);
    a.gprs[2] = 0x42;
    a.set_seg(SegReg::CS, SegmentRegister::new(0xFFFF_0000, 0xFFFF, 0x9B, 0xF000));
    let mut b = zeroed();
    assert_ne!(a, b);
    b = a;
    assert_eq!(a, b);
    assert_eq!(b.rip(), 0xFFF0);
    assert_eq!(b.seg(SegReg::CS).selector, 0xF000);
}
