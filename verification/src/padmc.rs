//! Pad and memory-card serial interface: the transmit and receive FIFOs
//! and the handful of registers the guest drives them through.

use vstd::prelude::*;
use crate::fifo::Fifo;
use crate::memory::{WriteErrorKind, WriteResult};
use crate::register::{B16LevelRegister, B32LevelRegister};

verus! {

/// The control register, with the write latch its owner polls.
pub struct Ctrl {
    pub register: B16LevelRegister,
    pub write_latch: bool,
}

impl Ctrl {
    pub fn new() -> (r: Ctrl)
        ensures
            r.register.value == 0u16,
            !r.write_latch,
    {
        Ctrl { register: B16LevelRegister::new(), write_latch: false }
    }

    pub fn read_u16(&self, offset: u32) -> (r: u16)
        requires
            offset == 0,
        ensures
            r == self.register.value,
    {
        self.register.read_u16()
    }

    /// Consecutive guest writes are allowed here: the latch only records
    /// that at least one write happened since the owner last looked.
    pub fn write_u16(&mut self, offset: u32, value: u16)
        requires
            offset == 0,
        ensures
            final(self).register.value == value,
            final(self).write_latch,
    {
        self.write_latch = true;
        self.register.write_u16(value);
    }
}

/// The serial interface's registers and FIFOs.
pub struct Padmc {
    pub rx_fifo: Fifo<u8>,
    pub tx_fifo: Fifo<u8>,
    pub stat: B32LevelRegister,
    pub mode: B16LevelRegister,
    pub ctrl: Ctrl,
    pub baud_reload: B16LevelRegister,
}

impl Padmc {
    pub open spec fn wf(&self) -> bool {
        &&& self.rx_fifo.wf()
        &&& self.tx_fifo.wf()
        &&& self.rx_fifo.capacity() == 16
        &&& self.tx_fifo.capacity() == 16
    }

    pub fn new() -> (r: Padmc)
        ensures
            r.wf(),
            r.rx_fifo.contents() == Seq::<u8>::empty(),
            r.tx_fifo.contents() == Seq::<u8>::empty(),
            !r.ctrl.write_latch,
    {
        Padmc {
            rx_fifo: Fifo::new(16, 0),
            tx_fifo: Fifo::new(16, 0),
            stat: B32LevelRegister::new(),
            mode: B16LevelRegister::new(),
            ctrl: Ctrl::new(),
            baud_reload: B16LevelRegister::new(),
        }
    }

    /// The guest reads a received byte; an idle line reads as all ones.
    pub fn data_read_u8(&mut self) -> (r: u8)
        requires
            old(self).wf(),
        ensures
            final(self).wf(),
            old(self).rx_fifo.contents().len() > 0 ==> r == old(self).rx_fifo.contents()[0]
                && final(self).rx_fifo.contents() == old(self).rx_fifo.contents().drop_first(),
            old(self).rx_fifo.contents().len() == 0 ==> r == 0xFFu8 && final(self).rx_fifo.contents()
                == old(self).rx_fifo.contents(),
            final(self).tx_fifo == old(self).tx_fifo,
    {
        match self.rx_fifo.read_one() {
            Ok(b) => b,
            Err(()) => 0xFF,
        }
    }

    /// The guest queues a byte for transmission; a full queue rejects it.
    pub fn data_write_u8(&mut self, value: u8) -> (r: WriteResult)
        requires
            old(self).wf(),
        ensures
            final(self).wf(),
            old(self).tx_fifo.contents().len() < old(self).tx_fifo.capacity() ==> r is Ok && final(self).tx_fifo.contents() == old(self).tx_fifo.contents().push(value),
            old(self).tx_fifo.contents().len() == old(self).tx_fifo.capacity() ==> r == Err::<
                (),
                WriteErrorKind,
            >(WriteErrorKind::Full) && final(self).tx_fifo.contents() == old(self).tx_fifo.contents(),
            final(self).rx_fifo == old(self).rx_fifo,
    {
        match self.tx_fifo.write_one(value) {
            Ok(()) => Ok(()),
            Err(()) => Err(WriteErrorKind::Full),
        }
    }
}

/// Serial-interface initialisation: the FIFOs and registers power up
/// empty already, so there is nothing further to wire.
pub fn initialize(state: &mut Padmc)
    ensures
        *final(state) == *old(state),
{
}

} // verus!
