//! Interrupt controller: eleven peripheral lines aggregated into one status
//! word. Peripherals assert lines; the guest clears them by writing an
//! acknowledge mask (a zero bit clears, a one bit preserves). Each tick the
//! controller drives the CP0 interrupt pin from `status & mask`.

use vstd::prelude::*;
use crate::cp0::{Cause, IrqLine};
use crate::register::B32LevelRegister;

verus! {

/// The eleven peripheral interrupt lines.
#[derive(Clone, Copy, PartialEq, Eq, Structural, Debug)]
pub enum Line {
    Vblank,
    Gpu,
    Cdrom,
    Dma,
    Tmr0,
    Tmr1,
    Tmr2,
    Padmc,
    Sio,
    Spu,
    Pio,
}

/// The single-bit mask of a line inside the status word.
pub open spec fn line_mask(line: Line) -> u32 {
    match line {
        Line::Vblank => 0x1u32,
        Line::Gpu => 0x2u32,
        Line::Cdrom => 0x4u32,
        Line::Dma => 0x8u32,
        Line::Tmr0 => 0x10u32,
        Line::Tmr1 => 0x20u32,
        Line::Tmr2 => 0x40u32,
        Line::Padmc => 0x80u32,
        Line::Sio => 0x100u32,
        Line::Spu => 0x200u32,
        Line::Pio => 0x400u32,
    }
}

/// The interrupt status register: one flag per line.
#[derive(Clone, Copy, PartialEq, Eq, Structural, Debug)]
pub struct Stat {
    pub vblank: bool,
    pub gpu: bool,
    pub cdrom: bool,
    pub dma: bool,
    pub tmr0: bool,
    pub tmr1: bool,
    pub tmr2: bool,
    pub padmc: bool,
    pub sio: bool,
    pub spu: bool,
    pub pio: bool,
}

impl Stat {
    /// The status word: every set flag at its canonical bit.
    pub open spec fn spec_value(self) -> u32 {
        (if self.vblank {
            0x1u32
        } else {
            0u32
        }) | (if self.gpu {
            0x2u32
        } else {
            0u32
        }) | (if self.cdrom {
            0x4u32
        } else {
            0u32
        }) | (if self.dma {
            0x8u32
        } else {
            0u32
        }) | (if self.tmr0 {
            0x10u32
        } else {
            0u32
        }) | (if self.tmr1 {
            0x20u32
        } else {
            0u32
        }) | (if self.tmr2 {
            0x40u32
        } else {
            0u32
        }) | (if self.padmc {
            0x80u32
        } else {
            0u32
        }) | (if self.sio {
            0x100u32
        } else {
            0u32
        }) | (if self.spu {
            0x200u32
        } else {
            0u32
        }) | (if self.pio {
            0x400u32
        } else {
            0u32
        })
    }

    /// `self` with `line`'s flag raised.
    pub open spec fn spec_assert_line(self, line: Line) -> Stat {
        match line {
            Line::Vblank => Stat { vblank: true, ..self },
            Line::Gpu => Stat { gpu: true, ..self },
            Line::Cdrom => Stat { cdrom: true, ..self },
            Line::Dma => Stat { dma: true, ..self },
            Line::Tmr0 => Stat { tmr0: true, ..self },
            Line::Tmr1 => Stat { tmr1: true, ..self },
            Line::Tmr2 => Stat { tmr2: true, ..self },
            Line::Padmc => Stat { padmc: true, ..self },
            Line::Sio => Stat { sio: true, ..self },
            Line::Spu => Stat { spu: true, ..self },
            Line::Pio => Stat { pio: true, ..self },
        }
    }

    /// The guest's acknowledge: a zero bit in the mask clears the flag, a
    /// one bit preserves it.
    pub open spec fn spec_acknowledge(self, mask: u32) -> Stat {
        Stat {
            vblank: self.vblank && (mask & 0x1u32 != 0),
            gpu: self.gpu && (mask & 0x2u32 != 0),
            cdrom: self.cdrom && (mask & 0x4u32 != 0),
            dma: self.dma && (mask & 0x8u32 != 0),
            tmr0: self.tmr0 && (mask & 0x10u32 != 0),
            tmr1: self.tmr1 && (mask & 0x20u32 != 0),
            tmr2: self.tmr2 && (mask & 0x40u32 != 0),
            padmc: self.padmc && (mask & 0x80u32 != 0),
            sio: self.sio && (mask & 0x100u32 != 0),
            spu: self.spu && (mask & 0x200u32 != 0),
            pio: self.pio && (mask & 0x400u32 != 0),
        }
    }

    pub fn new() -> (r: Stat)
        ensures
            r.spec_value() == 0u32,
            r == (Stat {
                vblank: false,
                gpu: false,
                cdrom: false,
                dma: false,
                tmr0: false,
                tmr1: false,
                tmr2: false,
                padmc: false,
                sio: false,
                spu: false,
                pio: false,
            }),
    {
        let r = Stat {
            vblank: false,
            gpu: false,
            cdrom: false,
            dma: false,
            tmr0: false,
            tmr1: false,
            tmr2: false,
            padmc: false,
            sio: false,
            spu: false,
            pio: false,
        };
        proof {
            assert(0u32 | 0u32 | 0u32 | 0u32 | 0u32 | 0u32 | 0u32 | 0u32 | 0u32 | 0u32 | 0u32
                == 0u32) by (bit_vector);
        }
        r
    }

    /// A peripheral raises its line. Assertion is monotonic: no other flag
    /// changes, and an already-set flag stays set.
    pub fn assert_line(&mut self, line: Line)
        ensures
            *final(self) == old(self).spec_assert_line(line),
    {
        match line {
            Line::Vblank => self.vblank = true,
            Line::Gpu => self.gpu = true,
            Line::Cdrom => self.cdrom = true,
            Line::Dma => self.dma = true,
            Line::Tmr0 => self.tmr0 = true,
            Line::Tmr1 => self.tmr1 = true,
            Line::Tmr2 => self.tmr2 = true,
            Line::Padmc => self.padmc = true,
            Line::Sio => self.sio = true,
            Line::Spu => self.spu = true,
            Line::Pio => self.pio = true,
        }
    }

    /// Applies the guest's acknowledge mask.
    pub fn acknowledge(&mut self, acknowledge_mask: u32)
        ensures
            *final(self) == old(self).spec_acknowledge(acknowledge_mask),
    {
        self.vblank = self.vblank && (acknowledge_mask & 0x1) != 0;
        self.gpu = self.gpu && (acknowledge_mask & 0x2) != 0;
        self.cdrom = self.cdrom && (acknowledge_mask & 0x4) != 0;
        self.dma = self.dma && (acknowledge_mask & 0x8) != 0;
        self.tmr0 = self.tmr0 && (acknowledge_mask & 0x10) != 0;
        self.tmr1 = self.tmr1 && (acknowledge_mask & 0x20) != 0;
        self.tmr2 = self.tmr2 && (acknowledge_mask & 0x40) != 0;
        self.padmc = self.padmc && (acknowledge_mask & 0x80) != 0;
        self.sio = self.sio && (acknowledge_mask & 0x100) != 0;
        self.spu = self.spu && (acknowledge_mask & 0x200) != 0;
        self.pio = self.pio && (acknowledge_mask & 0x400) != 0;
    }

    /// Composes the status word by inserting each flag at its canonical bit.
    pub fn value(&self) -> (r: u32)
        ensures
            r == self.spec_value(),
    {
        (if self.vblank {
            0x1u32
        } else {
            0u32
        }) | (if self.gpu {
            0x2u32
        } else {
            0u32
        }) | (if self.cdrom {
            0x4u32
        } else {
            0u32
        }) | (if self.dma {
            0x8u32
        } else {
            0u32
        }) | (if self.tmr0 {
            0x10u32
        } else {
            0u32
        }) | (if self.tmr1 {
            0x20u32
        } else {
            0u32
        }) | (if self.tmr2 {
            0x40u32
        } else {
            0u32
        }) | (if self.padmc {
            0x80u32
        } else {
            0u32
        }) | (if self.sio {
            0x100u32
        } else {
            0u32
        }) | (if self.spu {
            0x200u32
        } else {
            0u32
        }) | (if self.pio {
            0x400u32
        } else {
            0u32
        })
    }

    pub fn read_u16(&self, offset: u32) -> (r: u16)
        requires
            offset == 0,
        ensures
            r == self.spec_value() as u16,
    {
        let v = self.value();
        proof {
            lemma_stat_value_fits(*self);
        }
        v as u16
    }

    pub fn write_u16(&mut self, offset: u32, value: u16)
        requires
            offset == 0,
        ensures
            *final(self) == old(self).spec_acknowledge(value as u32),
    {
        self.acknowledge(value as u32)
    }

    pub fn read_u32(&self) -> (r: u32)
        ensures
            r == self.spec_value(),
    {
        self.value()
    }

    pub fn write_u32(&mut self, value: u32)
        ensures
            *final(self) == old(self).spec_acknowledge(value),
    {
        self.acknowledge(value)
    }
}

/// The status word never uses bits above the eleven line bits.
pub proof fn lemma_stat_value_fits(stat: Stat)
    ensures
        stat.spec_value() < 0x800u32,
        stat.spec_value() & 0x7FFu32 == stat.spec_value(),
{
    let a = if stat.vblank {
        0x1u32
    } else {
        0u32
    };
    let b = if stat.gpu {
        0x2u32
    } else {
        0u32
    };
    let c = if stat.cdrom {
        0x4u32
    } else {
        0u32
    };
    let d = if stat.dma {
        0x8u32
    } else {
        0u32
    };
    let e = if stat.tmr0 {
        0x10u32
    } else {
        0u32
    };
    let f = if stat.tmr1 {
        0x20u32
    } else {
        0u32
    };
    let g = if stat.tmr2 {
        0x40u32
    } else {
        0u32
    };
    let h = if stat.padmc {
        0x80u32
    } else {
        0u32
    };
    let i = if stat.sio {
        0x100u32
    } else {
        0u32
    };
    let j = if stat.spu {
        0x200u32
    } else {
        0u32
    };
    let k = if stat.pio {
        0x400u32
    } else {
        0u32
    };
    assert(stat.spec_value() == a | b | c | d | e | f | g | h | i | j | k);
    assert((a | b | c | d | e | f | g | h | i | j | k) < 0x800u32 && (a | b | c | d | e | f | g | h
        | i | j | k) & 0x7FFu32 == (a | b | c | d | e | f | g | h | i | j | k)) by (bit_vector)
        requires
            a <= 0x1u32,
            b <= 0x2u32,
            c <= 0x4u32,
            d <= 0x8u32,
            e <= 0x10u32,
            f <= 0x20u32,
            g <= 0x40u32,
            h <= 0x80u32,
            i <= 0x100u32,
            j <= 0x200u32,
            k <= 0x400u32,
    ;
}

/// The interrupt controller's shared registers: the line flags and the
/// guest-written mask.
pub struct State {
    pub stat: Stat,
    pub mask: B32LevelRegister,
}

impl State {
    pub fn new() -> (r: State)
        ensures
            r.stat.spec_value() == 0u32,
            r.mask.value == 0u32,
    {
        State { stat: Stat::new(), mask: B32LevelRegister::new() }
    }
}

/// One controller tick: drive the CP0 interrupt pin from `status & mask`.
/// The pin is asserted exactly when some unmasked line is pending; this is
/// the only path by which a peripheral interrupt reaches the CPU.
pub fn handle_interrupt_check(intc: &State, cause: &mut Cause)
    ensures
        final(cause).intc_pending == (intc.stat.spec_value() & intc.mask.value != 0u32),
        final(cause).register == old(cause).register,
{
    let stat_value = intc.stat.value();
    let mask_value = intc.mask.read_u32();
    let masked_value = stat_value & mask_value;

    if masked_value == 0 {
        cause.deassert_line(IrqLine::Intc);
    } else {
        cause.assert_line(IrqLine::Intc);
    }
}

} // verus!
