//! Segment and descriptor-table registers: base, limit, access rights and
//! selector, stored as given and never interpreted.

use vstd::prelude::*;

verus! {

/// The state of one segment register or descriptor-table register.
#[derive(Clone, Copy, Debug, PartialEq, Eq, Structural)]
pub struct SegmentRegister {
    pub base: u64,
    pub limit: u32,
    pub access: u16,
    pub selector: u16,
}

impl SegmentRegister {
    /// A register that holds the four given fields.
    pub fn new(base: u64, limit: u32, access: u16, selector: u16) -> (r: SegmentRegister)
        ensures
            r == (SegmentRegister { base, limit, access, selector }),
    {
        SegmentRegister { base, limit, access, selector }
    }

    /// Replaces the base address; the other three fields stay.
    pub fn set_base(&mut self, base: u64)
        ensures
            *final(self) == (SegmentRegister { base, ..*old(self) }),
    {
        self.base = base;
    }

    /// Replaces the limit; the other three fields stay.
    pub fn set_limit(&mut self, limit: u32)
        ensures
            *final(self) == (SegmentRegister { limit, ..*old(self) }),
    {
        self.limit = limit;
    }

    /// Replaces the access rights; the other three fields stay.
    pub fn set_access(&mut self, access: u16)
        ensures
            *final(self) == (SegmentRegister { access, ..*old(self) }),
    {
        self.access = access;
    }

    /// Replaces the selector; the other three fields stay.
    pub fn set_selector(&mut self, selector: u16)
        ensures
            *final(self) == (SegmentRegister { selector, ..*old(self) }),
    {
        self.selector = selector;
    }
}

} // verus!
