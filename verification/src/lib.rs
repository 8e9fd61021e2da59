//! A verified core of a PlayStation-style console emulator: bit-exact
//! register primitives, FIFOs, and the controller state machines for the
//! interrupt controller, DMA, timers, GPU command framing, CD-ROM and SPU,
//! together with the round executor protocol that schedules them.

pub mod bitfield;
pub mod cdrom;
pub mod cp0;
pub mod debug;
pub mod cp2;
pub mod dmac;
pub mod gpu;
pub mod intc;
pub mod edge;
pub mod executor;
pub mod fifo;
pub mod memory;
pub mod mips;
pub mod padmc;
pub mod r3000;
pub mod register;
pub mod spu;
pub mod system;
pub mod timers;
