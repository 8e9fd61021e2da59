//! Edge-triggered shared registers, used where a memory-mapped write (or
//! read) must be observed by the owning peripheral before the next one is
//! accepted. A typed access latches a pending event; further accesses fail
//! until the owner acknowledges the latch. At most one unacknowledged latch
//! exists per register.

use vstd::prelude::*;
use crate::register::{byte_of, with_byte, half_of, with_half};

verus! {

/// The kind of access a pending latch records.
#[derive(Clone, Copy, PartialEq, Eq, Structural, Debug)]
pub enum LatchKind {
    Read,
    Write,
}

/// A 32-bit edge register: a value plus at most one pending latch event.
#[derive(Clone, Copy, PartialEq, Eq, Structural, Debug)]
pub struct B32EdgeRegister {
    pub value: u32,
    pub latch: Option<LatchKind>,
}

impl B32EdgeRegister {
    /// A latch event is waiting for the owner's acknowledgement.
    pub open spec fn pending(self) -> bool {
        self.latch is Some
    }

    /// The guest-side transition: an access of kind `kind` that would leave
    /// the register holding `value`. Fails (leaving the register unchanged)
    /// while a latch is pending.
    pub open spec fn spec_try_op(self, kind: LatchKind, value: u32) -> (B32EdgeRegister, bool) {
        if self.pending() {
            (self, false)
        } else {
            (B32EdgeRegister { value, latch: Some(kind) }, true)
        }
    }

    /// The owner-side transition: consume the latch, rewriting the value.
    pub open spec fn spec_acknowledge(self, value: u32) -> B32EdgeRegister {
        B32EdgeRegister { value, latch: None }
    }

    pub fn new() -> (r: B32EdgeRegister)
        ensures
            r.value == 0u32,
            !r.pending(),
    {
        B32EdgeRegister { value: 0, latch: None }
    }

    pub fn read_u8(&mut self, offset: u32) -> (r: Result<u8, ()>)
        requires
            offset < 4,
        ensures
            old(self).pending() ==> r is Err && *final(self) == *old(self),
            !old(self).pending() ==> r == Ok::<u8, ()>(byte_of(old(self).value, offset)) && *final(self) == old(self).spec_try_op(LatchKind::Read, old(self).value).0,
    {
        if self.latch.is_some() {
            return Err(());
        }
        self.latch = Some(LatchKind::Read);
        let shift: u32 = 8 * offset;
        Ok(((self.value >> shift) & 0xFF) as u8)
    }

    pub fn write_u8(&mut self, offset: u32, value: u8) -> (r: Result<(), ()>)
        requires
            offset < 4,
        ensures
            old(self).pending() ==> r is Err && *final(self) == *old(self),
            !old(self).pending() ==> r is Ok && *final(self) == old(self).spec_try_op(
                LatchKind::Write,
                with_byte(old(self).value, offset, value),
            ).0,
    {
        if self.latch.is_some() {
            return Err(());
        }
        self.latch = Some(LatchKind::Write);
        let shift: u32 = 8 * offset;
        self.value = (self.value & !(0xFFu32 << shift)) | ((value as u32) << shift);
        Ok(())
    }

    pub fn read_u16(&mut self, offset: u32) -> (r: Result<u16, ()>)
        requires
            offset < 2,
        ensures
            old(self).pending() ==> r is Err && *final(self) == *old(self),
            !old(self).pending() ==> r == Ok::<u16, ()>(half_of(old(self).value, offset)) && *final(self) == old(self).spec_try_op(LatchKind::Read, old(self).value).0,
    {
        if self.latch.is_some() {
            return Err(());
        }
        self.latch = Some(LatchKind::Read);
        let shift: u32 = 16 * offset;
        Ok(((self.value >> shift) & 0xFFFF) as u16)
    }

    pub fn write_u16(&mut self, offset: u32, value: u16) -> (r: Result<(), ()>)
        requires
            offset < 2,
        ensures
            old(self).pending() ==> r is Err && *final(self) == *old(self),
            !old(self).pending() ==> r is Ok && *final(self) == old(self).spec_try_op(
                LatchKind::Write,
                with_half(old(self).value, offset, value),
            ).0,
    {
        if self.latch.is_some() {
            return Err(());
        }
        self.latch = Some(LatchKind::Write);
        let shift: u32 = 16 * offset;
        self.value = (self.value & !(0xFFFFu32 << shift)) | ((value as u32) << shift);
        Ok(())
    }

    pub fn read_u32(&mut self) -> (r: Result<u32, ()>)
        ensures
            old(self).pending() ==> r is Err && *final(self) == *old(self),
            !old(self).pending() ==> r == Ok::<u32, ()>(old(self).value) && *final(self) == old(self).spec_try_op(LatchKind::Read, old(self).value).0,
    {
        if self.latch.is_some() {
            return Err(());
        }
        self.latch = Some(LatchKind::Read);
        Ok(self.value)
    }

    pub fn write_u32(&mut self, value: u32) -> (r: Result<(), ()>)
        ensures
            old(self).pending() ==> r is Err && *final(self) == *old(self),
            !old(self).pending() ==> r is Ok && *final(self) == old(self).spec_try_op(
                LatchKind::Write,
                value,
            ).0,
    {
        if self.latch.is_some() {
            return Err(());
        }
        self.latch = Some(LatchKind::Write);
        self.value = value;
        Ok(())
    }

    /// Owner side: if a latch event is pending, clears it and hands the
    /// current value and the event kind to the caller, who may rewrite the
    /// value with `update`. Together these form the owner's atomic
    /// acknowledge transaction.
    pub fn acknowledge(&mut self) -> (r: Option<(u32, LatchKind)>)
        ensures
            old(self).pending() ==> r == Some((old(self).value, old(self).latch->0)) && *final(self)
                == old(self).spec_acknowledge(old(self).value),
            !old(self).pending() ==> r is None && *final(self) == *old(self),
    {
        match self.latch {
            Some(kind) => {
                self.latch = None;
                Some((self.value, kind))
            },
            None => None,
        }
    }

    /// Owner side: rewrites the value without touching the latch. Used for
    /// read-only-to-guest status bits kept inside a latched register.
    pub fn update(&mut self, value: u32)
        ensures
            final(self).value == value,
            final(self).latch == old(self).latch,
    {
        self.value = value;
    }

    /// Owner side: reads the value without latching.
    pub fn read_direct(&self) -> (r: u32)
        ensures
            r == self.value,
    {
        self.value
    }
}

/// Edge protocol: a successful guest access cannot be followed by another
/// successful access, of either kind, until the owner acknowledges; and the
/// acknowledged register accepts the next access again.
pub proof fn lemma_edge_access_needs_acknowledge(
    r0: B32EdgeRegister,
    k1: LatchKind,
    v1: u32,
    k2: LatchKind,
    v2: u32,
    v3: u32,
)
    ensures
        ({
            let (r1, ok1) = r0.spec_try_op(k1, v1);
            ok1 ==> !r1.spec_try_op(k2, v2).1
        }),
        ({
            let (r1, ok1) = r0.spec_try_op(k1, v1);
            r1.spec_acknowledge(v3).spec_try_op(k2, v2).1
        }),
{
}

/// A 16-bit edge register; the same latch protocol over a 16-bit value.
#[derive(Clone, Copy, PartialEq, Eq, Structural, Debug)]
pub struct B16EdgeRegister {
    pub value: u16,
    pub latch: Option<LatchKind>,
}

impl B16EdgeRegister {
    pub open spec fn pending(self) -> bool {
        self.latch is Some
    }

    pub open spec fn spec_try_op(self, kind: LatchKind, value: u16) -> (B16EdgeRegister, bool) {
        if self.pending() {
            (self, false)
        } else {
            (B16EdgeRegister { value, latch: Some(kind) }, true)
        }
    }

    pub open spec fn spec_acknowledge(self, value: u16) -> B16EdgeRegister {
        B16EdgeRegister { value, latch: None }
    }

    pub fn new() -> (r: B16EdgeRegister)
        ensures
            r.value == 0u16,
            !r.pending(),
    {
        B16EdgeRegister { value: 0, latch: None }
    }

    pub fn read_u8(&mut self, offset: u32) -> (r: Result<u8, ()>)
        requires
            offset < 2,
        ensures
            old(self).pending() ==> r is Err && *final(self) == *old(self),
            !old(self).pending() ==> r == Ok::<u8, ()>(byte_of(old(self).value as u32, offset))
                && *final(self) == old(self).spec_try_op(LatchKind::Read, old(self).value).0,
    {
        if self.latch.is_some() {
            return Err(());
        }
        self.latch = Some(LatchKind::Read);
        let shift: u32 = 8 * offset;
        Ok((((self.value as u32) >> shift) & 0xFF) as u8)
    }

    pub fn write_u8(&mut self, offset: u32, value: u8) -> (r: Result<(), ()>)
        requires
            offset < 2,
        ensures
            old(self).pending() ==> r is Err && *final(self) == *old(self),
            !old(self).pending() ==> r is Ok && *final(self) == old(self).spec_try_op(
                LatchKind::Write,
                with_byte(old(self).value as u32, offset, value) as u16,
            ).0,
    {
        if self.latch.is_some() {
            return Err(());
        }
        self.latch = Some(LatchKind::Write);
        let shift: u32 = 8 * offset;
        let wide: u32 = self.value as u32;
        let updated: u32 = (wide & !(0xFFu32 << shift)) | ((value as u32) << shift);
        proof {
            lemma_u16_byte_update_fits(wide, shift, value);
        }
        self.value = updated as u16;
        Ok(())
    }

    pub fn read_u16(&mut self) -> (r: Result<u16, ()>)
        ensures
            old(self).pending() ==> r is Err && *final(self) == *old(self),
            !old(self).pending() ==> r == Ok::<u16, ()>(old(self).value) && *final(self) == old(self).spec_try_op(LatchKind::Read, old(self).value).0,
    {
        if self.latch.is_some() {
            return Err(());
        }
        self.latch = Some(LatchKind::Read);
        Ok(self.value)
    }

    pub fn write_u16(&mut self, value: u16) -> (r: Result<(), ()>)
        ensures
            old(self).pending() ==> r is Err && *final(self) == *old(self),
            !old(self).pending() ==> r is Ok && *final(self) == old(self).spec_try_op(
                LatchKind::Write,
                value,
            ).0,
    {
        if self.latch.is_some() {
            return Err(());
        }
        self.latch = Some(LatchKind::Write);
        self.value = value;
        Ok(())
    }

    pub fn acknowledge(&mut self) -> (r: Option<(u16, LatchKind)>)
        ensures
            old(self).pending() ==> r == Some((old(self).value, old(self).latch->0)) && *final(self)
                == old(self).spec_acknowledge(old(self).value),
            !old(self).pending() ==> r is None && *final(self) == *old(self),
    {
        match self.latch {
            Some(kind) => {
                self.latch = None;
                Some((self.value, kind))
            },
            None => None,
        }
    }

    pub fn update(&mut self, value: u16)
        ensures
            final(self).value == value,
            final(self).latch == old(self).latch,
    {
        self.value = value;
    }

    pub fn read_direct(&self) -> (r: u16)
        ensures
            r == self.value,
    {
        self.value
    }
}

/// Edge protocol for the 16-bit flavour.
pub proof fn lemma_edge16_access_needs_acknowledge(
    r0: B16EdgeRegister,
    k1: LatchKind,
    v1: u16,
    k2: LatchKind,
    v2: u16,
    v3: u16,
)
    ensures
        ({
            let (r1, ok1) = r0.spec_try_op(k1, v1);
            ok1 ==> !r1.spec_try_op(k2, v2).1
        }),
        ({
            let (r1, ok1) = r0.spec_try_op(k1, v1);
            r1.spec_acknowledge(v3).spec_try_op(k2, v2).1
        }),
{
}

/// An 8-bit edge register; the same latch protocol over a single byte.
#[derive(Clone, Copy, PartialEq, Eq, Structural, Debug)]
pub struct B8EdgeRegister {
    pub value: u8,
    pub latch: Option<LatchKind>,
}

impl B8EdgeRegister {
    pub open spec fn pending(self) -> bool {
        self.latch is Some
    }

    pub open spec fn spec_try_op(self, kind: LatchKind, value: u8) -> (B8EdgeRegister, bool) {
        if self.pending() {
            (self, false)
        } else {
            (B8EdgeRegister { value, latch: Some(kind) }, true)
        }
    }

    pub open spec fn spec_acknowledge(self, value: u8) -> B8EdgeRegister {
        B8EdgeRegister { value, latch: None }
    }

    pub fn new() -> (r: B8EdgeRegister)
        ensures
            r.value == 0u8,
            !r.pending(),
    {
        B8EdgeRegister { value: 0, latch: None }
    }

    pub fn read_u8(&mut self) -> (r: Result<u8, ()>)
        ensures
            old(self).pending() ==> r is Err && *final(self) == *old(self),
            !old(self).pending() ==> r == Ok::<u8, ()>(old(self).value) && *final(self) == old(self).spec_try_op(LatchKind::Read, old(self).value).0,
    {
        if self.latch.is_some() {
            return Err(());
        }
        self.latch = Some(LatchKind::Read);
        Ok(self.value)
    }

    pub fn write_u8(&mut self, value: u8) -> (r: Result<(), ()>)
        ensures
            old(self).pending() ==> r is Err && *final(self) == *old(self),
            !old(self).pending() ==> r is Ok && *final(self) == old(self).spec_try_op(
                LatchKind::Write,
                value,
            ).0,
    {
        if self.latch.is_some() {
            return Err(());
        }
        self.latch = Some(LatchKind::Write);
        self.value = value;
        Ok(())
    }

    pub fn acknowledge(&mut self) -> (r: Option<(u8, LatchKind)>)
        ensures
            old(self).pending() ==> r == Some((old(self).value, old(self).latch->0)) && *final(self)
                == old(self).spec_acknowledge(old(self).value),
            !old(self).pending() ==> r is None && *final(self) == *old(self),
    {
        match self.latch {
            Some(kind) => {
                self.latch = None;
                Some((self.value, kind))
            },
            None => None,
        }
    }

    pub fn update(&mut self, value: u8)
        ensures
            final(self).value == value,
            final(self).latch == old(self).latch,
    {
        self.value = value;
    }

    pub fn read_direct(&self) -> (r: u8)
        ensures
            r == self.value,
    {
        self.value
    }
}

/// Edge protocol for the 8-bit flavour.
pub proof fn lemma_edge8_access_needs_acknowledge(
    r0: B8EdgeRegister,
    k1: LatchKind,
    v1: u8,
    k2: LatchKind,
    v2: u8,
    v3: u8,
)
    ensures
        ({
            let (r1, ok1) = r0.spec_try_op(k1, v1);
            ok1 ==> !r1.spec_try_op(k2, v2).1
        }),
        ({
            let (r1, ok1) = r0.spec_try_op(k1, v1);
            r1.spec_acknowledge(v3).spec_try_op(k2, v2).1
        }),
{
}

/// A byte update of a 16-bit-ranged value stays within 16 bits.
proof fn lemma_u16_byte_update_fits(wide: u32, shift: u32, value: u8)
    by (bit_vector)
    requires
        wide <= 0xFFFF,
        shift == 0 || shift == 8,
    ensures
        ((wide & !(0xFFu32 << shift)) | ((value as u32) << shift)) <= 0xFFFF,
{
}

} // verus!
