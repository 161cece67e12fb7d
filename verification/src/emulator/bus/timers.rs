//! The four hardware timers: counters that tick at a chosen rate, reload on overflow,
//! may cascade into the next timer and may request an interrupt.

use crate::emulator::bus::interrupts::{with_poll_scheduled, InterruptManager, Interrupts};
use crate::scheduler::{not_tag, EmuTime, EventTag, Scheduler, SchedulerView};
use crate::utils::{byte_of_u16, set_byte_u16, u16_le_bytes, u16_with_byte};
use vstd::prelude::*;

verus! {

pub const TIMER_IO_START: u32 = 0x0400_0100;

pub const TIMER_IO_END: u32 = 0x0400_010F;

/// The rate at which a timer ticks: every 1, 64, 256 or 1024 cycles.
#[derive(Debug, Copy, Clone, PartialEq, Eq, Structural)]
pub enum TimerFrequency {
    C1,
    C64,
    C256,
    C1024,
}

/// The cycles per tick of the frequency field (bits `0..=1`) of a timer control value.
pub open spec fn ticks_of(control: u16) -> u64 {
    let f = control & 3;
    if f == 0 {
        1
    } else if f == 1 {
        64
    } else if f == 2 {
        256
    } else {
        1024
    }
}

impl TimerFrequency {
    /// The cycles per tick.
    pub open spec fn spec_ticks(self) -> u64 {
        match self {
            TimerFrequency::C1 => 1,
            TimerFrequency::C64 => 64,
            TimerFrequency::C256 => 256,
            TimerFrequency::C1024 => 1024,
        }
    }

    /// The cycles per tick.
    pub fn to_ticks(&self) -> (r: u64)
        ensures
            r == self.spec_ticks(),
    {
        match self {
            TimerFrequency::C1 => 1,
            TimerFrequency::C64 => 64,
            TimerFrequency::C256 => 256,
            TimerFrequency::C1024 => 1024,
        }
    }
}

/// The control register of a timer.
#[derive(Debug, Copy, Clone, Default)]
pub struct TimerControl {
    pub bits: u16,
}

/// Whether the cascade bit (2) of a control value is set: the timer then counts overflows
/// of the previous timer.
pub open spec fn cascading(control: u16) -> bool {
    control & 4 != 0
}

/// Whether the interrupt bit (6) of a control value is set.
pub open spec fn irq_on_overflow_of(control: u16) -> bool {
    control & 0x40 != 0
}

/// Whether the enable bit (7) of a control value is set.
pub open spec fn enabled_of(control: u16) -> bool {
    control & 0x80 != 0
}

impl TimerControl {
    /// The tick rate.
    pub fn timer_frequency(&self) -> (r: TimerFrequency)
        ensures
            r.spec_ticks() == ticks_of(self.bits),
    {
        let f = self.bits & 3;
        if f == 0 {
            TimerFrequency::C1
        } else if f == 1 {
            TimerFrequency::C64
        } else if f == 2 {
            TimerFrequency::C256
        } else {
            TimerFrequency::C1024
        }
    }

    /// Whether the timer counts overflows of the previous timer.
    pub fn cascade_mode(&self) -> (r: bool)
        ensures
            r == cascading(self.bits),
    {
        self.bits & 4 != 0
    }

    /// Whether an overflow requests an interrupt.
    pub fn irq_on_overflow(&self) -> (r: bool)
        ensures
            r == irq_on_overflow_of(self.bits),
    {
        self.bits & 0x40 != 0
    }

    /// Whether the timer runs.
    pub fn enabled(&self) -> (r: bool)
        ensures
            r == enabled_of(self.bits),
    {
        self.bits & 0x80 != 0
    }
}

/// The abstract state of a timer.
pub struct TimerView {
    pub control: u16,
    pub value: u16,
    pub load_value: u16,
    pub starting: u64,
}

/// One timer.
#[derive(Debug, Copy, Clone)]
pub struct Timer {
    pub control: TimerControl,
    /// The counter as it was at `starting_timestamp`.
    pub value: u16,
    /// The value the counter reloads with.
    pub load_value: u16,
    /// When the counter last held `value`.
    pub starting_timestamp: EmuTime,
}

impl View for Timer {
    type V = TimerView;

    open spec fn view(&self) -> TimerView {
        TimerView {
            control: self.control.bits,
            value: self.value,
            load_value: self.load_value,
            starting: self.starting_timestamp.0,
        }
    }
}

impl Default for Timer {
    fn default() -> (r: Timer)
        ensures
            r@ == (TimerView { control: 0, value: 0, load_value: 0, starting: 0 }),
    {
        Timer { control: TimerControl { bits: 0 }, value: 0, load_value: 0, starting_timestamp: EmuTime(0) }
    }
}

/// The counter at time `now`: the stored value plus the ticks since the start, modulo 2^16.
pub open spec fn value_at(t: TimerView, now: u64) -> u16 {
    t.value.wrapping_add(((now.wrapping_sub(t.starting)) / ticks_of(t.control)) as u16)
}

/// The cycles until the counter passes 0xFFFF.
pub open spec fn overflow_time(t: TimerView) -> u64 {
    ((0xFFFF - t.value) * ticks_of(t.control)) as u64
}

impl Timer {
    /// The counter at time `current_timestamp`.
    pub fn calculate_current_value(&self, current_timestamp: EmuTime) -> (r: u16)
        ensures
            r == value_at(self@, current_timestamp.0),
    {
        let ticks_passed = (current_timestamp.0.wrapping_sub(self.starting_timestamp.0)
            / self.control.timer_frequency().to_ticks()) as u16;
        self.value.wrapping_add(ticks_passed)
    }

    /// The time from now until the counter overflows.
    pub fn calculate_overflow_time(&self) -> (r: EmuTime)
        ensures
            r.0 == overflow_time(self@),
    {
        let ticks = self.control.timer_frequency().to_ticks();
        assert((0xFFFF - self.value) * ticks <= 0xFFFF * 1024) by (nonlinear_arith)
            requires
                ticks <= 1024,
                self.value <= 0xFFFF,
        ;
        EmuTime((0xFFFF - self.value) as u64 * ticks)
    }
}

/// The event that signals the overflow of timer `idx`.
pub open spec fn timer_event(idx: int) -> EventTag {
    if idx == 0 {
        EventTag::Timer0Irq
    } else if idx == 1 {
        EventTag::Timer1Irq
    } else if idx == 2 {
        EventTag::Timer2Irq
    } else {
        EventTag::Timer3Irq
    }
}

/// The interrupt request bit of timer `idx`.
pub open spec fn timer_irq_bit(idx: int) -> u16 {
    if idx == 0 {
        Interrupts::Timer0.spec_bit()
    } else if idx == 1 {
        Interrupts::Timer1.spec_bit()
    } else if idx == 2 {
        Interrupts::Timer2.spec_bit()
    } else {
        Interrupts::Timer3.spec_bit()
    }
}

/// The timer index of a register address.
pub open spec fn timer_index(addr: u32) -> int {
    (addr - TIMER_IO_START) / 4
}

/// The byte that a read of a timer register returns: the counter (as it runs now when the
/// timer is enabled and not cascading) or the control register.
pub open spec fn timer_read_spec(ts: Seq<TimerView>, addr: u32, now: u64) -> u8 {
    let t = ts[timer_index(addr)];
    let off = (addr % 4) as int;
    if off < 2 {
        if cascading(t.control) || !enabled_of(t.control) {
            u16_le_bytes(t.value)[off]
        } else {
            u16_le_bytes(value_at(t, now))[off]
        }
    } else {
        u16_le_bytes(t.control)[off - 2]
    }
}

/// A timer with another counter value.
pub open spec fn with_value(t: TimerView, v: u16) -> TimerView {
    TimerView { value: v, ..t }
}

/// A write of a byte of a timer register: the reload value, or the control register. A
/// running timer first freezes its counter and drops its overflow event; a timer that starts
/// loads its reload value; a running timer that does not cascade schedules its overflow from
/// now; a timer that stops freezes its counter.
pub open spec fn timer_write_spec(ts: Seq<TimerView>, s: SchedulerView, addr: u32, value: u8) -> (
    Seq<TimerView>,
    SchedulerView,
) {
    let idx = timer_index(addr);
    let off = (addr % 4) as int;
    let t = ts[idx];
    let now = s.current_time;
    let tag = timer_event(idx);
    if off < 2 {
        (ts.update(idx, TimerView { load_value: u16_with_byte(t.load_value, off, value), ..t }), s)
    } else {
        let old_c = t.control;
        let (t1, s1) = if enabled_of(old_c) && !cascading(old_c) {
            (
                with_value(t, value_at(t, now)),
                SchedulerView { events: s.events.filter(not_tag(tag.spec_code())), ..s },
            )
        } else {
            (t, s)
        };
        let t2 = TimerView { control: u16_with_byte(t1.control, off - 2, value), ..t1 };
        let (t4, s2) = if enabled_of(t2.control) {
            let t3 = if !enabled_of(old_c) {
                with_value(t2, t2.load_value)
            } else {
                t2
            };
            if !cascading(t3.control) {
                let t4 = TimerView { starting: now, ..t3 };
                (t4, SchedulerView {
                    events: s1.events.insert((now.wrapping_add(overflow_time(t4)), tag.spec_code())),
                    ..s1
                })
            } else {
                (t3, s1)
            }
        } else if enabled_of(old_c) && !cascading(t2.control) {
            (with_value(t2, value_at(t2, now)), s1)
        } else {
            (t2, s1)
        };
        (ts.update(idx, t4), s2)
    }
}

/// The overflow of timer `idx` at `time`: it reloads, a cascading enabled next timer counts
/// one (overflowing in turn), an interrupt is requested when asked, and a timer that does not
/// cascade schedules its next overflow from `time`. Gives the timers, the scheduler and the
/// interrupt request flags.
pub open spec fn overflow_spec(ts: Seq<TimerView>, s: SchedulerView, flags: u16, idx: int, time: u64) -> (
    Seq<TimerView>,
    SchedulerView,
    u16,
)
    decreases 4 - idx,
{
    if idx < 0 || idx >= 4 {
        (ts, s, flags)
    } else {
        let ts1 = ts.update(idx, with_value(ts[idx], ts[idx].load_value));
        let (ts2, s2, f2) = if idx < 3 && cascading(ts1[idx + 1].control) && enabled_of(ts1[idx + 1].control) {
            let v = ts1[idx + 1].value;
            if v == 0xFFFF {
                overflow_spec(ts1, s, flags, idx + 1, time)
            } else {
                (ts1.update(idx + 1, with_value(ts1[idx + 1], (v + 1) as u16)), s, flags)
            }
        } else {
            (ts1, s, flags)
        };
        let (s3, f3) = if irq_on_overflow_of(ts2[idx].control) {
            (with_poll_scheduled(s2), f2 | timer_irq_bit(idx))
        } else {
            (s2, f2)
        };
        if !cascading(ts2[idx].control) {
            let t = ts2[idx];
            (
                ts2.update(idx, TimerView { starting: time, ..t }),
                SchedulerView {
                    events: s3.events.insert((time.wrapping_add(overflow_time(t)), timer_event(idx).spec_code())),
                    ..s3
                },
                f3,
            )
        } else {
            (ts2, s3, f3)
        }
    }
}

/// The four timers.
pub struct Timers {
    pub timers: [Timer; 4],
}

impl View for Timers {
    type V = Seq<TimerView>;

    open spec fn view(&self) -> Seq<TimerView> {
        self.timers@.map_values(|t: Timer| t@)
    }
}

/// The event of timer `idx`.
fn event_of(idx: usize) -> (r: EventTag)
    requires
        idx < 4,
    ensures
        r == timer_event(idx as int),
{
    if idx == 0 {
        EventTag::Timer0Irq
    } else if idx == 1 {
        EventTag::Timer1Irq
    } else if idx == 2 {
        EventTag::Timer2Irq
    } else {
        EventTag::Timer3Irq
    }
}

/// The interrupt of timer `idx`.
fn interrupt_of(idx: usize) -> (r: Interrupts)
    requires
        idx < 4,
    ensures
        r.spec_bit() == timer_irq_bit(idx as int),
{
    if idx == 0 {
        Interrupts::Timer0
    } else if idx == 1 {
        Interrupts::Timer1
    } else if idx == 2 {
        Interrupts::Timer2
    } else {
        Interrupts::Timer3
    }
}

impl Timers {
    /// Four stopped timers at zero.
    pub fn new() -> (r: Timers)
        ensures
            r@ =~= Seq::new(4, |i: int| TimerView { control: 0, value: 0, load_value: 0, starting: 0 }),
    {
        Timers { timers: [Timer::default(), Timer::default(), Timer::default(), Timer::default()] }
    }

    /// The timer index of a register address.
    fn addr_to_timer_idx(addr: u32) -> (r: usize)
        requires
            TIMER_IO_START <= addr <= TIMER_IO_END,
        ensures
            r == timer_index(addr),
            r < 4,
    {
        ((addr - TIMER_IO_START) / 4) as usize
    }

    /// Read a byte of the timer registers.
    pub fn read_registers(&mut self, addr: u32, scheduler: &mut Scheduler) -> (r: u8)
        requires
            TIMER_IO_START <= addr <= TIMER_IO_END,
        ensures
            r == timer_read_spec(old(self)@, addr, old(scheduler)@.current_time),
            final(self)@ == old(self)@,
            final(scheduler)@ == old(scheduler)@,
    {
        let timer_idx = Self::addr_to_timer_idx(addr);
        let timer = self.timers[timer_idx];
        let timer_addr = (addr % 4) as usize;
        if timer_addr < 2 {
            // A cascading or stopped timer holds its counter; a running one is computed.
            if timer.control.cascade_mode() || !timer.control.enabled() {
                byte_of_u16(timer.value, timer_addr)
            } else {
                let value = timer.calculate_current_value(scheduler.current_time());
                byte_of_u16(value, timer_addr)
            }
        } else {
            byte_of_u16(timer.control.bits, timer_addr - 2)
        }
    }

    /// Write a byte of the timer registers.
    pub fn write_registers(&mut self, addr: u32, value: u8, scheduler: &mut Scheduler)
        requires
            TIMER_IO_START <= addr <= TIMER_IO_END,
            old(scheduler).wf(),
        ensures
            final(scheduler).wf(),
            (final(self)@, final(scheduler)@) == timer_write_spec(old(self)@, old(scheduler)@, addr, value),
    {
        let timer_idx = Self::addr_to_timer_idx(addr);
        let mut timer = self.timers[timer_idx];
        let timer_addr = (addr % 4) as usize;
        let ghost ts = self@;
        if timer_addr < 2 {
            timer.load_value = set_byte_u16(timer.load_value, timer_addr, value);
        } else {
            let old_cnt = timer.control;
            // The counter is frozen now since the tick rate may change.
            if old_cnt.enabled() && !old_cnt.cascade_mode() {
                timer.value = timer.calculate_current_value(scheduler.current_time());
                scheduler.remove_event(event_of(timer_idx));
            }
            timer.control.bits = set_byte_u16(timer.control.bits, timer_addr - 2, value);
            if timer.control.enabled() {
                if !old_cnt.enabled() {
                    timer.value = timer.load_value;
                }
                // Schedule an overflow if not cascading
                if !timer.control.cascade_mode() {
                    timer.starting_timestamp = scheduler.current_time();
                    let overflow_time = timer.calculate_overflow_time();
                    scheduler.schedule_relative(event_of(timer_idx), overflow_time);
                }
            } else if old_cnt.enabled() {
                // Freeze the counter of the timer that stops.
                if !timer.control.cascade_mode() {
                    timer.value = timer.calculate_current_value(scheduler.current_time());
                }
            }
        }
        self.timers[timer_idx] = timer;
        assert(self@ =~= timer_write_spec(ts, old(scheduler)@, addr, value).0);
    }

    /// Handle the overflow of timer `timer_idx` at `interrupt_time`.
    pub fn timer_overflowed(
        &mut self,
        timer_idx: usize,
        scheduler: &mut Scheduler,
        interrupt_time: EmuTime,
        irq: &mut InterruptManager,
    )
        requires
            timer_idx < 4,
            old(scheduler).wf(),
        ensures
            final(scheduler).wf(),
            (final(self)@, final(scheduler)@, final(irq).flags.bits) == overflow_spec(
                old(self)@,
                old(scheduler)@,
                old(irq).flags.bits,
                timer_idx as int,
                interrupt_time.0,
            ),
            final(irq).enable == old(irq).enable,
            final(irq).master_enable == old(irq).master_enable,
        decreases 4 - timer_idx,
    {
        let ghost ts0 = self@;
        // Reload with the load value
        let mut t = self.timers[timer_idx];
        t.value = t.load_value;
        self.timers[timer_idx] = t;
        let ghost ts1 = self@;
        assert(ts1 =~= ts0.update(timer_idx as int, with_value(ts0[timer_idx as int], ts0[timer_idx as int].load_value)));
        // A cascading next timer counts this overflow.
        if timer_idx < 3 {
            let next_idx = timer_idx + 1;
            let next = self.timers[next_idx];
            if next.control.cascade_mode() && next.control.enabled() {
                if next.value == 0xFFFF {
                    self.timer_overflowed(next_idx, scheduler, interrupt_time, irq);
                } else {
                    let mut n = next;
                    n.value = next.value + 1;
                    self.timers[next_idx] = n;
                    assert(self@ =~= ts1.update(next_idx as int, with_value(ts1[next_idx as int], (next.value + 1) as u16)));
                }
            }
        }
        let ghost ts2 = self@;
        let t2 = self.timers[timer_idx];
        if t2.control.irq_on_overflow() {
            irq.request_interrupt(interrupt_of(timer_idx), scheduler);
        }
        // Schedule the next overflow from the time of this one, so the timers do not drift.
        if !t2.control.cascade_mode() {
            let overflow_time = t2.calculate_overflow_time();
            scheduler.schedule_event(event_of(timer_idx), EmuTime(interrupt_time.0.wrapping_add(overflow_time.0)));
            let mut t3 = t2;
            t3.starting_timestamp = interrupt_time;
            self.timers[timer_idx] = t3;
            assert(self@ =~= ts2.update(timer_idx as int, TimerView { starting: interrupt_time.0, ..ts2[timer_idx as int] }));
        }
    }
}

} // verus!
