//! Timers: three 16-bit counters with target and overflow events, each able
//! to raise its interrupt line in pulse or toggle mode, once or repeatedly.

use vstd::prelude::*;
use crate::bitfield::{Bitfield, extract_bits, insert_bits};
use crate::intc::{Line, Stat};
use crate::register::B32LevelRegister;

verus! {

/// Which event fired on a timer this tick.
#[derive(Clone, Copy, PartialEq, Eq, Structural, Debug)]
pub enum IrqType {
    Overflow,
    Target,
}

/// One timer's memory-mapped registers: the running count, the mode word
/// and the target value.
pub struct TimerRegisters {
    pub count: B32LevelRegister,
    pub mode: B32LevelRegister,
    pub target: B32LevelRegister,
}

impl TimerRegisters {
    pub fn new() -> (r: TimerRegisters)
        ensures
            r.count.value == 0u32,
            r.mode.value == 0u32,
            r.target.value == 0u32,
    {
        TimerRegisters { count: B32LevelRegister::new(), mode: B32LevelRegister::new(), target: B32LevelRegister::new() }
    }
}

/// The timer block's registers.
pub struct State {
    pub timers: Vec<TimerRegisters>,
}

impl State {
    pub open spec fn wf(&self) -> bool {
        self.timers.len() == 3
    }

    pub fn new() -> (r: State)
        ensures
            r.wf(),
    {
        let mut timers: Vec<TimerRegisters> = Vec::new();
        timers.push(TimerRegisters::new());
        timers.push(TimerRegisters::new());
        timers.push(TimerRegisters::new());
        State { timers }
    }
}

/// The controller's private state: whether each timer has already raised
/// its one-shot interrupt since its mode was last written.
pub struct ControllerState {
    pub irq_raised: Vec<bool>,
}

impl ControllerState {
    pub open spec fn wf(&self) -> bool {
        self.irq_raised.len() == 3
    }

    pub fn new() -> (r: ControllerState)
        ensures
            r.wf(),
            forall|i: int| 0 <= i < 3 ==> !r.irq_raised[i],
    {
        let mut irq_raised: Vec<bool> = Vec::new();
        irq_raised.push(false);
        irq_raised.push(false);
        irq_raised.push(false);
        ControllerState { irq_raised }
    }
}

/// The interrupt line belonging to a timer.
pub open spec fn spec_timer_line(timer_id: int) -> Line {
    if timer_id == 0 {
        Line::Tmr0
    } else if timer_id == 1 {
        Line::Tmr1
    } else {
        Line::Tmr2
    }
}

/// Interrupt-on-overflow enable: mode bit 3.
pub open spec fn spec_mode_irq_overflow(mode: u32) -> bool {
    mode & 0x8u32 != 0
}

/// Interrupt-on-target enable: mode bit 4.
pub open spec fn spec_mode_irq_target(mode: u32) -> bool {
    mode & 0x10u32 != 0
}

/// Reset-on-target enable: mode bit 5.
pub open spec fn spec_mode_reset_on_target(mode: u32) -> bool {
    mode & 0x20u32 != 0
}

/// Repeat selector: mode bit 6. When set, every event raises the line;
/// when clear the timer is one-shot and only the first event after a mode
/// write does.
pub open spec fn spec_mode_oneshot(mode: u32) -> bool {
    mode & 0x40u32 == 0
}

/// Pulse/toggle selector: mode bit 7 clear is pulse, set is toggle.
pub open spec fn spec_mode_toggle(mode: u32) -> bool {
    mode & 0x80u32 != 0
}

/// The interrupt-status bit flipped by toggle mode: mode bit 10.
pub open spec fn spec_mode_irq_status(mode: u32) -> u32 {
    (mode >> 10u32) & 1u32
}

/// Raises a timer's interrupt line, honouring pulse against toggle mode:
/// in pulse mode every call asserts the line; in toggle mode the
/// interrupt-status bit flips and the line is asserted only on its
/// one-to-zero edge.
pub fn handle_irq_raise(state: &mut State, intc_stat: &mut Stat, timer_id: usize)
    requires
        old(state).wf(),
        timer_id < 3,
    ensures
        final(state).wf(),
        !spec_mode_toggle(old(state).timers[timer_id as int].mode.value) ==> *final(state) == *old(state) && *final(intc_stat) == old(intc_stat).spec_assert_line(spec_timer_line(timer_id as int)),
        spec_mode_toggle(old(state).timers[timer_id as int].mode.value) ==> {
            let flipped = spec_mode_irq_status(old(state).timers[timer_id as int].mode.value)
                ^ 1u32;
            &&& final(state).timers[timer_id as int].mode.value == (Bitfield {
                start: 10,
                length: 1,
            }).spec_insert(old(state).timers[timer_id as int].mode.value, flipped)
            &&& (flipped == 0 ==> *final(intc_stat) == old(intc_stat).spec_assert_line(
                spec_timer_line(timer_id as int),
            ))
            &&& (flipped != 0 ==> *final(intc_stat) == *old(intc_stat))
        },
        final(state).timers[timer_id as int].count == old(state).timers[timer_id as int].count,
        final(state).timers[timer_id as int].target == old(state).timers[timer_id as int].target,
        forall|t: int|
            0 <= t < 3 && t != timer_id ==> final(state).timers[t] == old(state).timers[t],
{
    let mode_value = state.timers[timer_id].mode.read_u32();
    let mut raise_irq = false;

    if mode_value & 0x80 == 0 {
        raise_irq = true;
    } else {
        let new_irq_status = ((mode_value >> 10u32) & 1) ^ 1;
        let mut regs = TimerRegisters {
            count: state.timers[timer_id].count,
            mode: state.timers[timer_id].mode,
            target: state.timers[timer_id].target,
        };
        regs.mode.write_bitfield(Bitfield::new(10, 1), new_irq_status);
        state.timers.set(timer_id, regs);
        if new_irq_status == 0 {
            raise_irq = true;
        }
    }

    if raise_irq {
        let line = if timer_id == 0 {
            Line::Tmr0
        } else if timer_id == 1 {
            Line::Tmr1
        } else {
            Line::Tmr2
        };
        intc_stat.assert_line(line);
    }
}

/// Delivers a timer event: in one-shot mode a timer that has already fired
/// stays quiet until its mode is rewritten; otherwise the event raises the
/// line when its enable bit is set.
pub fn handle_irq_trigger(
    state: &mut State,
    cs: &mut ControllerState,
    intc_stat: &mut Stat,
    timer_id: usize,
    irq_type: IrqType,
)
    requires
        old(state).wf(),
        old(cs).wf(),
        timer_id < 3,
    ensures
        final(state).wf(),
        final(cs).wf(),
        ({
            let mode = old(state).timers[timer_id as int].mode.value;
            let suppressed = spec_mode_oneshot(mode) && old(cs).irq_raised[timer_id as int];
            let enabled = match irq_type {
                IrqType::Overflow => spec_mode_irq_overflow(mode),
                IrqType::Target => spec_mode_irq_target(mode),
            };
            &&& (suppressed || !enabled ==> *final(state) == *old(state) && *final(intc_stat)
                == *old(intc_stat) && *final(cs) == *old(cs))
            &&& (!suppressed && enabled ==> final(cs).irq_raised@ == old(cs).irq_raised@.update(
                timer_id as int,
                true,
            ))
            &&& (!suppressed && enabled && !spec_mode_toggle(mode) ==> *final(intc_stat) == old(intc_stat).spec_assert_line(spec_timer_line(timer_id as int)) && *final(state) == *old(state))
            &&& (!suppressed && enabled && spec_mode_toggle(mode) ==> {
                let flipped = spec_mode_irq_status(mode) ^ 1u32;
                &&& final(state).timers[timer_id as int].mode.value == (Bitfield {
                    start: 10,
                    length: 1,
                }).spec_insert(mode, flipped)
                &&& (flipped == 0 ==> *final(intc_stat) == old(intc_stat).spec_assert_line(
                    spec_timer_line(timer_id as int),
                ))
                &&& (flipped != 0 ==> *final(intc_stat) == *old(intc_stat))
            })
        }),
        final(state).timers[timer_id as int].count == old(state).timers[timer_id as int].count,
        final(state).timers[timer_id as int].target == old(state).timers[timer_id as int].target,
        forall|t: int|
            0 <= t < 3 && t != timer_id ==> final(state).timers[t] == old(state).timers[t],
{
    let mode_value = state.timers[timer_id].mode.read_u32();

    let oneshot = mode_value & 0x40 == 0;
    if oneshot && cs.irq_raised[timer_id] {
        return ;
    }

    let trigger = match irq_type {
        IrqType::Overflow => mode_value & 0x8 != 0,
        IrqType::Target => mode_value & 0x10 != 0,
    };

    if trigger {
        handle_irq_raise(state, intc_stat, timer_id);
        cs.irq_raised.set(timer_id, true);
    }
}

/// Advances one timer by `cycles` ticks of its clock source. The count
/// wraps at sixteen bits, setting the overflow-reached bit (mode bit 12)
/// and delivering an overflow event; crossing the target value sets the
/// target-reached bit (mode bit 11) and delivers a target event; with
/// reset-on-target set, the count instead restarts from zero at the target.
pub fn tick(
    state: &mut State,
    cs: &mut ControllerState,
    intc_stat: &mut Stat,
    timer_id: usize,
    cycles: u32,
)
    requires
        old(state).wf(),
        old(cs).wf(),
        timer_id < 3,
    ensures
        final(state).wf(),
        final(cs).wf(),
        forall|t: int|
            0 <= t < 3 && t != timer_id ==> final(state).timers[t] == old(state).timers[t],
        forall|t: int|
            0 <= t < 3 && t != timer_id ==> final(cs).irq_raised[t] == old(cs).irq_raised[t],
        ({
            let mode = old(state).timers[timer_id as int].mode.value;
            let count = old(state).timers[timer_id as int].count.value & 0xFFFFu32;
            let target = old(state).timers[timer_id as int].target.value & 0xFFFFu32;
            let total = count + cycles;
            let crossed = target > 0 && count < target && target <= total;
            let overflowed = total >= 0x1_0000;
            !spec_mode_reset_on_target(mode) ==> {
                &&& final(state).timers[timer_id as int].count.value == (total % 0x1_0000) as u32
                &&& (crossed ==> extract_bits(
                    11,
                    1,
                    final(state).timers[timer_id as int].mode.value,
                ) == 1)
                &&& (overflowed ==> extract_bits(
                    12,
                    1,
                    final(state).timers[timer_id as int].mode.value,
                ) == 1)
                &&& (!crossed && !overflowed ==> final(state).timers[timer_id as int].mode == old(state).timers[timer_id as int].mode && *final(intc_stat) == *old(intc_stat) && *final(cs) == *old(cs))
                &&& (overflowed && !crossed && spec_mode_irq_overflow(mode) && !(spec_mode_oneshot(
                    mode,
                ) && old(cs).irq_raised[timer_id as int]) && !spec_mode_toggle(mode) ==> *final(intc_stat) == old(intc_stat).spec_assert_line(spec_timer_line(timer_id as int)) && final(cs).irq_raised[timer_id as int])
            }
        }),
{
    let count = state.timers[timer_id].count.read_u32() & 0xFFFF;
    let target = state.timers[timer_id].target.read_u32() & 0xFFFF;
    let mode_value = state.timers[timer_id].mode.read_u32();

    let total: u64 = count as u64 + cycles as u64;

    if mode_value & 0x20 != 0 {
        // Reset-on-target: the counter restarts from zero each time it
        // reaches the target value.
        if target > 0 && total >= target as u64 {
            let wrapped = (total % target as u64) as u32;
            let mut regs = TimerRegisters {
                count: state.timers[timer_id].count,
                mode: state.timers[timer_id].mode,
                target: state.timers[timer_id].target,
            };
            regs.count.write_u32(wrapped);
            regs.mode.write_bitfield(Bitfield::new(11, 1), 1);
            state.timers.set(timer_id, regs);
            handle_irq_trigger(state, cs, intc_stat, timer_id, IrqType::Target);
        } else {
            let mut regs = TimerRegisters {
                count: state.timers[timer_id].count,
                mode: state.timers[timer_id].mode,
                target: state.timers[timer_id].target,
            };
            regs.count.write_u32((total & 0xFFFF) as u32);
            state.timers.set(timer_id, regs);
        }
        return ;
    }

    let crossed_target = target > 0 && (count as u64) < (target as u64) && (target as u64)
        <= total;
    let overflowed = total >= 0x1_0000;
    let wrapped = (total % 0x1_0000) as u32;

    let mut regs = TimerRegisters {
        count: state.timers[timer_id].count,
        mode: state.timers[timer_id].mode,
        target: state.timers[timer_id].target,
    };
    regs.count.write_u32(wrapped);
    if crossed_target {
        regs.mode.write_bitfield(Bitfield::new(11, 1), 1);
    }
    if overflowed {
        regs.mode.write_bitfield(Bitfield::new(12, 1), 1);
    }
    proof {
        lemma_mode_event_bits(mode_value, crossed_target, overflowed);
    }
    let ghost event_mode: u32 = regs.mode.value;
    state.timers.set(timer_id, regs);

    if crossed_target {
        handle_irq_trigger(state, cs, intc_stat, timer_id, IrqType::Target);
        proof {
            if spec_mode_toggle(event_mode) {
                let flipped = spec_mode_irq_status(event_mode) ^ 1u32;
                crate::bitfield::lemma_disjoint_ranges_commute(10, 1, 11, 1, event_mode, flipped);
                crate::bitfield::lemma_disjoint_ranges_commute(10, 1, 12, 1, event_mode, flipped);
            }
        }
    }
    let ghost mid_mode: u32 = state.timers[timer_id as int].mode.value;
    if overflowed {
        handle_irq_trigger(state, cs, intc_stat, timer_id, IrqType::Overflow);
        proof {
            if spec_mode_toggle(mid_mode) {
                let flipped = spec_mode_irq_status(mid_mode) ^ 1u32;
                crate::bitfield::lemma_disjoint_ranges_commute(10, 1, 11, 1, mid_mode, flipped);
                crate::bitfield::lemma_disjoint_ranges_commute(10, 1, 12, 1, mid_mode, flipped);
            }
        }
    }
}

/// Latching the target-reached and overflow-reached bits touches nothing
/// else in the mode word.
proof fn lemma_mode_event_bits(m0: u32, crossed: bool, overflowed: bool)
    by (bit_vector)
    ensures
        ({
            let m1 = if crossed {
                insert_bits(11, 1, m0, 1u32)
            } else {
                m0
            };
            let m2 = if overflowed {
                insert_bits(12, 1, m1, 1u32)
            } else {
                m1
            };
            &&& m2 & 0x8u32 == m0 & 0x8u32
            &&& m2 & 0x10u32 == m0 & 0x10u32
            &&& m2 & 0x20u32 == m0 & 0x20u32
            &&& m2 & 0x40u32 == m0 & 0x40u32
            &&& m2 & 0x80u32 == m0 & 0x80u32
            &&& (crossed ==> extract_bits(11, 1, m2) == 1)
            &&& (overflowed ==> extract_bits(12, 1, m2) == 1)
            &&& (!crossed && !overflowed ==> m2 == m0)
        }),
{
}

} // verus!
