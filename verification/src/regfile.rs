//! The register file of one processor: general-purpose registers with their
//! sub-register views, flags, instruction pointer, segment and table
//! registers, and the x87/MMX register stack with its bookkeeping.

use crate::flags::{bit_of, Flag, Flags, DEFINED_BITS, FIXED_ONE};
use crate::fpu::{spec_stack_slot, stack_slot, FPUMMXRegister, LastFpuInstruction, FPU_SLOTS};
use crate::gpr::{extract, insert, merged, view_of, Width, GPR_COUNT, HIGH_BYTE_COUNT};
use crate::names::{Reg16, Reg32, Reg8, SegReg, TableReg};
use crate::segment::SegmentRegister;
use vstd::prelude::*;

verus! {

/// Why an access to the register file was refused.
#[derive(Clone, Copy, Debug, PartialEq, Eq, Structural)]
pub enum RegError {
    /// The width class has no view on the register that was named.
    InvalidWidth,
    /// The index names no register or stack slot.
    InvalidIndex,
}

/// The complete architectural register state of one processor.
#[derive(Clone, Copy, Debug, PartialEq, Eq)]
pub struct Registers {
    pub gprs: [u64; 16],
    pub rflags: Flags,
    pub rip: u64,
    pub segs: [SegmentRegister; 6],
    pub gdtr: SegmentRegister,
    pub ldtr: SegmentRegister,
    pub idtr: SegmentRegister,
    pub tr: SegmentRegister,
    pub fprs: [FPUMMXRegister; 8],
    /// Physical slot of the stack top, below 8.
    pub top: usize,
    pub fpu_cw: u16,
    pub fpu_sw: u16,
    pub fpu_tw: u16,
    pub fpu_opcode: u16,
    pub fpu_cs: u16,
    pub fpu_ds: u16,
    pub fpu_ip: u64,
    pub fpu_dp: u64,
}

/// The register file as a mathematical value: each array as a sequence.
pub struct RegistersView {
    pub gprs: Seq<u64>,
    pub rflags: Flags,
    pub rip: u64,
    pub segs: Seq<SegmentRegister>,
    pub gdtr: SegmentRegister,
    pub ldtr: SegmentRegister,
    pub idtr: SegmentRegister,
    pub tr: SegmentRegister,
    pub fprs: Seq<FPUMMXRegister>,
    pub top: usize,
    pub fpu_cw: u16,
    pub fpu_sw: u16,
    pub fpu_tw: u16,
    pub fpu_opcode: u16,
    pub fpu_cs: u16,
    pub fpu_ds: u16,
    pub fpu_ip: u64,
    pub fpu_dp: u64,
}

impl View for Registers {
    type V = RegistersView;

    open spec fn view(&self) -> RegistersView {
        RegistersView {
            gprs: self.gprs@,
            rflags: self.rflags,
            rip: self.rip,
            segs: self.segs@,
            gdtr: self.gdtr,
            ldtr: self.ldtr,
            idtr: self.idtr,
            tr: self.tr,
            fprs: self.fprs@,
            top: self.top,
            fpu_cw: self.fpu_cw,
            fpu_sw: self.fpu_sw,
            fpu_tw: self.fpu_tw,
            fpu_opcode: self.fpu_opcode,
            fpu_cs: self.fpu_cs,
            fpu_ds: self.fpu_ds,
            fpu_ip: self.fpu_ip,
            fpu_dp: self.fpu_dp,
        }
    }
}

impl RegistersView {
    /// The same state with general-purpose register `index` holding `word`.
    pub open spec fn with_gpr(self, index: int, word: u64) -> RegistersView {
        RegistersView { gprs: self.gprs.update(index, word), ..self }
    }

    /// The segment register of the given name.
    pub open spec fn seg(self, name: SegReg) -> SegmentRegister {
        self.segs[name.spec_slot() as int]
    }

    /// The same state with the named segment register holding `value`.
    pub open spec fn with_seg(self, name: SegReg, value: SegmentRegister) -> RegistersView {
        RegistersView { segs: self.segs.update(name.spec_slot() as int, value), ..self }
    }

    /// The descriptor-table register of the given name.
    pub open spec fn table(self, name: TableReg) -> SegmentRegister {
        match name {
            TableReg::GDTR => self.gdtr,
            TableReg::LDTR => self.ldtr,
            TableReg::IDTR => self.idtr,
            TableReg::TR => self.tr,
        }
    }

    /// The same state with the named descriptor-table register holding `value`.
    pub open spec fn with_table(self, name: TableReg, value: SegmentRegister) -> RegistersView {
        match name {
            TableReg::GDTR => RegistersView { gdtr: value, ..self },
            TableReg::LDTR => RegistersView { ldtr: value, ..self },
            TableReg::IDTR => RegistersView { idtr: value, ..self },
            TableReg::TR => RegistersView { tr: value, ..self },
        }
    }

    /// The record of the last floating-point instruction.
    pub open spec fn last_fpu_instruction(self) -> LastFpuInstruction {
        LastFpuInstruction {
            opcode: self.fpu_opcode,
            cs: self.fpu_cs,
            ds: self.fpu_ds,
            ip: self.fpu_ip,
            dp: self.fpu_dp,
        }
    }

    /// The same state with the record of the last floating-point instruction
    /// replaced.
    pub open spec fn with_last_fpu_instruction(self, last: LastFpuInstruction) -> RegistersView {
        RegistersView {
            fpu_opcode: last.opcode,
            fpu_cs: last.cs,
            fpu_ds: last.ds,
            fpu_ip: last.ip,
            fpu_dp: last.dp,
            ..self
        }
    }

    /// The same state with physical stack slot `slot` holding `value`.
    pub open spec fn with_fpr(self, slot: int, value: FPUMMXRegister) -> RegistersView {
        RegistersView { fprs: self.fprs.update(slot, value), ..self }
    }
}

/// The error that an access to general-purpose register `index` through the
/// view of width `width` meets, if any: the index must be below 16, and the
/// second byte has a view only on the first four registers.
pub open spec fn view_error(index: usize, width: Width) -> Option<RegError> {
    if index >= GPR_COUNT {
        Some(RegError::InvalidIndex)
    } else if width == Width::High8 && index >= HIGH_BYTE_COUNT {
        Some(RegError::InvalidWidth)
    } else {
        None
    }
}

impl Registers {
    /// Whether the stack top names one of the eight slots.
    pub open spec fn wf(&self) -> bool {
        self.top < FPU_SLOTS
    }

    /// Tests whether the stack top names one of the eight slots, as it must
    /// after the fields were filled in from outside.
    pub fn is_wf(&self) -> (r: bool)
        ensures
            r == self.wf(),
    {
        self.top < FPU_SLOTS
    }

    /// Reads general-purpose register `index` through the view of width
    /// `width`.
    pub fn read_gpr(&self, index: usize, width: Width) -> (r: Result<u64, RegError>)
        ensures
            match view_error(index, width) {
                Some(e) => r == Err::<u64, RegError>(e),
                None => r.is_ok() && r.unwrap() == view_of(self@.gprs[index as int] as int, width),
            },
    {
        if index >= GPR_COUNT {
            return Err(RegError::InvalidIndex);
        }
        if matches!(width, Width::High8) && index >= HIGH_BYTE_COUNT {
            return Err(RegError::InvalidWidth);
        }
        Ok(extract(self.gprs[index], width))
    }

    /// Writes `value` to general-purpose register `index` through the view of
    /// width `width`. A refused write changes nothing.
    pub fn write_gpr(&mut self, index: usize, width: Width, value: u64) -> (r: Result<
        (),
        RegError,
    >)
        ensures
            match view_error(index, width) {
                Some(e) => r == Err::<(), RegError>(e) && *final(self) == *old(self),
                None => r.is_ok() && final(self)@ == old(self)@.with_gpr(
                    index as int,
                    merged(old(self)@.gprs[index as int] as int, width, value as int) as u64,
                ),
            },
    {
        if index >= GPR_COUNT {
            return Err(RegError::InvalidIndex);
        }
        if matches!(width, Width::High8) && index >= HIGH_BYTE_COUNT {
            return Err(RegError::InvalidWidth);
        }
        let word: u64 = insert(self.gprs[index], width, value);
        self.gprs[index] = word;
        Ok(())
    }

    /// Reads an 8-bit register by name.
    pub fn read8(&self, name: Reg8) -> (r: u8)
        ensures
            r == view_of(self@.gprs[name.spec_gpr() as int] as int, name.spec_width()),
    {
        extract(self.gprs[name.gpr()], name.width()) as u8
    }

    /// Writes an 8-bit register by name; every other bit of the backing word
    /// stays.
    pub fn write8(&mut self, name: Reg8, value: u8)
        ensures
            final(self)@ == old(self)@.with_gpr(
                name.spec_gpr() as int,
                merged(
                    old(self)@.gprs[name.spec_gpr() as int] as int,
                    name.spec_width(),
                    value as int,
                ) as u64,
            ),
    {
        let index: usize = name.gpr();
        let word: u64 = insert(self.gprs[index], name.width(), value as u64);
        self.gprs[index] = word;
    }

    /// Reads a 16-bit register by name.
    pub fn read16(&self, name: Reg16) -> (r: u16)
        ensures
            r == view_of(self@.gprs[name.spec_gpr() as int] as int, Width::Word),
    {
        extract(self.gprs[name.gpr()], Width::Word) as u16
    }

    /// Writes a 16-bit register by name; the upper 48 bits of the backing
    /// word stay.
    pub fn write16(&mut self, name: Reg16, value: u16)
        ensures
            final(self)@ == old(self)@.with_gpr(
                name.spec_gpr() as int,
                merged(
                    old(self)@.gprs[name.spec_gpr() as int] as int,
                    Width::Word,
                    value as int,
                ) as u64,
            ),
    {
        let index: usize = name.gpr();
        let word: u64 = insert(self.gprs[index], Width::Word, value as u64);
        self.gprs[index] = word;
    }

    /// Reads a 32-bit register by name.
    pub fn read32(&self, name: Reg32) -> (r: u32)
        ensures
            r == view_of(self@.gprs[name.spec_gpr() as int] as int, Width::Dword),
    {
        extract(self.gprs[name.gpr()], Width::Dword) as u32
    }

    /// Writes a 32-bit register by name; the backing word becomes the value,
    /// zero-extended.
    pub fn write32(&mut self, name: Reg32, value: u32)
        ensures
            final(self)@ == old(self)@.with_gpr(name.spec_gpr() as int, value as u64),
    {
        let index: usize = name.gpr();
        let word: u64 = insert(self.gprs[index], Width::Dword, value as u64);
        self.gprs[index] = word;
    }

    /// The flags as a structured value.
    pub fn flags(&self) -> (r: Flags)
        ensures
            r == self@.rflags,
    {
        self.rflags
    }

    /// Replaces the flags.
    pub fn set_flags(&mut self, flags: Flags)
        ensures
            final(self)@ == (RegistersView { rflags: flags, ..old(self)@ }),
    {
        self.rflags = flags;
    }

    /// The flags in their packed 64-bit form.
    pub fn rflags_bits(&self) -> (r: u64)
        ensures
            r == self@.rflags.spec_encode(),
            r & FIXED_ONE == FIXED_ONE,
            r & !(DEFINED_BITS | FIXED_ONE) == 0,
    {
        self.rflags.encode()
    }

    /// Replaces the flags by those that a packed word stands for.
    pub fn set_rflags_bits(&mut self, val: u64)
        ensures
            final(self)@ == (RegistersView { rflags: Flags::spec_decode(val), ..old(self)@ }),
    {
        self.rflags = Flags::decode(val);
    }

    /// The instruction pointer.
    pub fn rip(&self) -> (r: u64)
        ensures
            r == self@.rip,
    {
        self.rip
    }

    /// Replaces the instruction pointer.
    pub fn set_rip(&mut self, rip: u64)
        ensures
            final(self)@ == (RegistersView { rip, ..old(self)@ }),
    {
        self.rip = rip;
    }

    /// The segment register of the given name.
    pub fn seg(&self, name: SegReg) -> (r: SegmentRegister)
        ensures
            r == self@.seg(name),
    {
        self.segs[name.slot()]
    }

    /// Replaces the segment register of the given name; no other register
    /// changes.
    pub fn set_seg(&mut self, name: SegReg, value: SegmentRegister)
        ensures
            final(self)@ == old(self)@.with_seg(name, value),
    {
        self.segs[name.slot()] = value;
    }

    /// The descriptor-table register of the given name.
    pub fn table(&self, name: TableReg) -> (r: SegmentRegister)
        ensures
            r == self@.table(name),
    {
        match name {
            TableReg::GDTR => self.gdtr,
            TableReg::LDTR => self.ldtr,
            TableReg::IDTR => self.idtr,
            TableReg::TR => self.tr,
        }
    }

    /// Replaces the descriptor-table register of the given name; no other
    /// register changes.
    pub fn set_table(&mut self, name: TableReg, value: SegmentRegister)
        ensures
            final(self)@ == old(self)@.with_table(name, value),
    {
        match name {
            TableReg::GDTR => {
                self.gdtr = value;
            },
            TableReg::LDTR => {
                self.ldtr = value;
            },
            TableReg::IDTR => {
                self.idtr = value;
            },
            TableReg::TR => {
                self.tr = value;
            },
        }
    }

    /// Reads the stack slot with physical index `slot`.
    pub fn fpr(&self, slot: usize) -> (r: Result<FPUMMXRegister, RegError>)
        ensures
            slot < 8 ==> r == Ok::<FPUMMXRegister, RegError>(self@.fprs[slot as int]),
            slot >= 8 ==> r == Err::<FPUMMXRegister, RegError>(RegError::InvalidIndex),
    {
        if slot >= FPU_SLOTS {
            return Err(RegError::InvalidIndex);
        }
        Ok(self.fprs[slot])
    }

    /// Writes the stack slot with physical index `slot`. A refused write
    /// changes nothing.
    pub fn set_fpr(&mut self, slot: usize, value: FPUMMXRegister) -> (r: Result<(), RegError>)
        ensures
            slot < 8 ==> r.is_ok() && final(self)@ == old(self)@.with_fpr(slot as int, value),
            slot >= 8 ==> r == Err::<(), RegError>(RegError::InvalidIndex) && *final(self) == *old(
                self,
            ),
    {
        if slot >= FPU_SLOTS {
            return Err(RegError::InvalidIndex);
        }
        self.fprs[slot] = value;
        Ok(())
    }

    /// Reads the stack slot that lies `logical` places from the stack top.
    pub fn st(&self, logical: usize) -> (r: Result<FPUMMXRegister, RegError>)
        ensures
            match spec_stack_slot(self@.top, logical) {
                Some(slot) => r == Ok::<FPUMMXRegister, RegError>(self@.fprs[slot as int]),
                None => r == Err::<FPUMMXRegister, RegError>(RegError::InvalidIndex),
            },
    {
        match stack_slot(self.top, logical) {
            Some(slot) => Ok(self.fprs[slot]),
            None => Err(RegError::InvalidIndex),
        }
    }

    /// Writes the stack slot that lies `logical` places from the stack top.
    /// A refused write changes nothing.
    pub fn set_st(&mut self, logical: usize, value: FPUMMXRegister) -> (r: Result<(), RegError>)
        ensures
            match spec_stack_slot(old(self)@.top, logical) {
                Some(slot) => r.is_ok() && final(self)@ == old(self)@.with_fpr(slot as int, value),
                None => r == Err::<(), RegError>(RegError::InvalidIndex) && *final(self) == *old(
                    self,
                ),
            },
    {
        match stack_slot(self.top, logical) {
            Some(slot) => {
                self.fprs[slot] = value;
                Ok(())
            },
            None => Err(RegError::InvalidIndex),
        }
    }

    /// The physical slot of the stack top.
    pub fn top(&self) -> (r: usize)
        ensures
            r == self@.top,
    {
        self.top
    }

    /// Moves the stack top to physical slot `top`. A slot outside the stack
    /// is refused and changes nothing.
    pub fn set_top(&mut self, top: usize) -> (r: Result<(), RegError>)
        ensures
            top < 8 ==> r.is_ok() && final(self)@ == (RegistersView { top, ..old(self)@ })
                && final(self).wf(),
            top >= 8 ==> r == Err::<(), RegError>(RegError::InvalidIndex) && *final(self) == *old(
                self,
            ),
    {
        if top >= FPU_SLOTS {
            return Err(RegError::InvalidIndex);
        }
        self.top = top;
        Ok(())
    }

    /// Reads one flag by name: the bit that the packed flags hold at the
    /// flag's offset.
    pub fn flag(&self, flag: Flag) -> (r: bool)
        ensures
            r == self@.rflags.spec_get(flag),
            r == bit_of(self@.rflags.spec_encode(), flag.spec_offset()),
    {
        self.rflags.get(flag)
    }

    /// Replaces one flag by name; nothing else changes.
    pub fn set_flag(&mut self, flag: Flag, value: bool)
        ensures
            final(self)@ == (RegistersView {
                rflags: old(self)@.rflags.spec_set(flag, value),
                ..old(self)@
            }),
    {
        self.rflags.set(flag, value);
    }

    /// The x87 control word.
    pub fn fpu_cw(&self) -> (r: u16)
        ensures
            r == self@.fpu_cw,
    {
        self.fpu_cw
    }

    /// Replaces the x87 control word.
    pub fn set_fpu_cw(&mut self, word: u16)
        ensures
            final(self)@ == (RegistersView { fpu_cw: word, ..old(self)@ }),
    {
        self.fpu_cw = word;
    }

    /// The x87 status word.
    pub fn fpu_sw(&self) -> (r: u16)
        ensures
            r == self@.fpu_sw,
    {
        self.fpu_sw
    }

    /// Replaces the x87 status word.
    pub fn set_fpu_sw(&mut self, word: u16)
        ensures
            final(self)@ == (RegistersView { fpu_sw: word, ..old(self)@ }),
    {
        self.fpu_sw = word;
    }

    /// The x87 tag word.
    pub fn fpu_tw(&self) -> (r: u16)
        ensures
            r == self@.fpu_tw,
    {
        self.fpu_tw
    }

    /// Replaces the x87 tag word.
    pub fn set_fpu_tw(&mut self, word: u16)
        ensures
            final(self)@ == (RegistersView { fpu_tw: word, ..old(self)@ }),
    {
        self.fpu_tw = word;
    }

    /// The record of the last floating-point instruction.
    pub fn last_fpu_instruction(&self) -> (r: LastFpuInstruction)
        ensures
            r == self@.last_fpu_instruction(),
    {
        LastFpuInstruction {
            opcode: self.fpu_opcode,
            cs: self.fpu_cs,
            ds: self.fpu_ds,
            ip: self.fpu_ip,
            dp: self.fpu_dp,
        }
    }

    /// Replaces the record of the last floating-point instruction.
    pub fn set_last_fpu_instruction(&mut self, last: LastFpuInstruction)
        ensures
            final(self)@ == old(self)@.with_last_fpu_instruction(last),
    {
        self.fpu_opcode = last.opcode;
        self.fpu_cs = last.cs;
        self.fpu_ds = last.ds;
        self.fpu_ip = last.ip;
        self.fpu_dp = last.dp;
    }
}

/// A write to a general-purpose register is read back through the same view,
/// reduced to the width of the view, and leaves every other general-purpose
/// register as it was.
pub proof fn lemma_gpr_write_is_local(
    r: Registers,
    index: usize,
    width: Width,
    value: u64,
    other: usize,
)
    requires
        view_error(index, width).is_none(),
        other < 16,
    ensures
        ({
            let word = merged(r@.gprs[index as int] as int, width, value as int) as u64;
            let after = r@.with_gpr(index as int, word);
            &&& view_of(after.gprs[index as int] as int, width) == value as int % width.modulus()
            &&& other != index ==> after.gprs[other as int] == r@.gprs[other as int]
        }),
{
    crate::gpr::lemma_merged_fits(r@.gprs[index as int], width, value);
    crate::gpr::lemma_read_after_write(r@.gprs[index as int], width, value);
}

/// A write to one segment register is read back under the same name and
/// leaves every other segment register and every table register as it was.
pub proof fn lemma_seg_write_is_local(
    r: Registers,
    name: SegReg,
    value: SegmentRegister,
    other: SegReg,
    table: TableReg,
)
    ensures
        r@.with_seg(name, value).seg(name) == value,
        other != name ==> r@.with_seg(name, value).seg(other) == r@.seg(other),
        r@.with_seg(name, value).table(table) == r@.table(table),
{
}

/// A write to one table register is read back under the same name and
/// leaves every other table register and every segment register as it was.
pub proof fn lemma_table_write_is_local(
    r: Registers,
    name: TableReg,
    value: SegmentRegister,
    other: TableReg,
    seg: SegReg,
)
    ensures
        r@.with_table(name, value).table(name) == value,
        other != name ==> r@.with_table(name, value).table(other) == r@.table(other),
        r@.with_table(name, value).seg(seg) == r@.seg(seg),
{
}

/// With the stack top inside the stack, a stack-relative index below 8 names
/// the slot that lies that many places above the top, counted round the
/// stack; a value written there is read back from that physical slot, and
/// every other slot stays.
pub proof fn lemma_stack_addressing(
    r: Registers,
    logical: usize,
    value: FPUMMXRegister,
    other: usize,
)
    requires
        r.wf(),
        logical < 8,
        other < 8,
    ensures
        spec_stack_slot(r@.top, logical) == Some(((r@.top + logical) % 8) as usize),
        ({
            let slot = (r@.top + logical) % 8;
            let after = r@.with_fpr(slot, value);
            &&& after.fprs[slot] == value
            &&& other != slot ==> after.fprs[other as int] == r@.fprs[other as int]
        }),
{
}

} // verus!
