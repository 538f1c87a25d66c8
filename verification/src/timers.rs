use vstd::prelude::*;
use crate::addressable::{AccessWidth, Addressable};
use crate::irq::{with_bit, InterruptController};
use crate::scheduler::{
    spec_insert_task, spec_unscheduled, Event, Scheduler, Task, TimerInterrupt, LINE_DURATION,
};

verus! {

/// How a counter is synchronised to the video timing.
#[derive(Clone, Copy, PartialEq, Eq, Structural, Debug)]
pub enum SyncMode {
    FreeRun,
    Paused,
    ResetOnHSync,
    HSyncOnly,
    PauseOnHSync,
    ResetOnVSync,
    VSyncOnly,
    PauseOnVSync,
    StartOnNextLine,
    StartOnNextFrame,
}

/// What a counter counts.
#[derive(Clone, Copy, PartialEq, Eq, Structural, Debug)]
pub enum ClockSource {
    Cpu,
    CpuDiv8,
    Dot,
    HBlank,
}

/// A counter mode register: bit 0 sync enable, 1-2 sync mode, 3 reset at
/// target, 4-5 IRQ at target / at FFFFh, 6 repeat, 7 toggle, 8-9 clock
/// source, 10 IRQ not requested, 11 reached target, 12 reached FFFFh.
#[derive(Clone, Copy)]
pub struct Mode(pub u32);

pub open spec fn spec_bit(x: u32, n: u32) -> bool {
    (x >> n) & 1 == 1
}

impl Mode {
    pub fn sync_enabled(&self) -> (r: bool)
        ensures
            r == spec_bit(self.0, 0),
    {
        (self.0 >> 0) & 1 == 1
    }

    pub fn sync_mode(&self) -> (r: u8)
        ensures
            r == (self.0 >> 1) & 3,
    {
        let v = self.0;
        proof {
            crate::bitfacts::lemma_and_le_u32(v >> 1, 3);
        }
        ((v >> 1) & 3) as u8
    }

    pub fn reset_to_target(&self) -> (r: bool)
        ensures
            r == spec_bit(self.0, 3),
    {
        (self.0 >> 3) & 1 == 1
    }

    pub fn irq_target(&self) -> (r: u32)
        ensures
            r == (self.0 >> 4) & 3,
            r < 4,
    {
        let v = self.0;
        proof {
            crate::bitfacts::lemma_and_le_u32(v >> 4, 3);
        }
        (v >> 4) & 3
    }

    pub fn irq_repeat(&self) -> (r: bool)
        ensures
            r == spec_bit(self.0, 6),
    {
        (self.0 >> 6) & 1 == 1
    }

    pub fn irq_toggle(&self) -> (r: bool)
        ensures
            r == spec_bit(self.0, 7),
    {
        (self.0 >> 7) & 1 == 1
    }

    pub fn clock_src(&self) -> (r: u32)
        ensures
            r == (self.0 >> 8) & 3,
            r < 4,
    {
        let v = self.0;
        proof {
            crate::bitfacts::lemma_and_le_u32(v >> 8, 3);
        }
        (v >> 8) & 3
    }

    pub fn irq_disabled(&self) -> (r: bool)
        ensures
            r == spec_bit(self.0, 10),
    {
        (self.0 >> 10) & 1 == 1
    }

    fn set(&mut self, n: u32, v: bool)
        requires
            n < 32,
        ensures
            final(self).0 == with_bit(old(self).0, n, v),
    {
        self.0 = crate::irq::set_bit_u32(self.0, n, v);
    }
}

/// One of the three counters.
#[derive(Clone, Copy)]
pub struct Timer {
    pub counter: u32,
    pub mode: Mode,
    pub target: u16,
    pub last_read: u64,
}

/// The value the counter wraps after: the target when bit 3 is set, else
/// FFFFh.
pub open spec fn spec_reset(m: Mode, target: u16) -> u32 {
    if spec_bit(m.0, 3) { target as u32 } else { 0xffff }
}

/// Ticks until the counter next reads `target`.
pub open spec fn spec_ticks_to(counter: u32, m: Mode, reset_target: u16, target: u16) -> u32 {
    let period = spec_reset(m, reset_target) + 1;
    if counter < target {
        (target - counter) as u32
    } else if counter == target {
        period as u32
    } else {
        (period - counter + target) as u32
    }
}

impl Timer {
    pub fn new() -> (r: Timer)
        ensures
            r.counter == 0 && r.mode.0 == 0 && r.target == 0 && r.last_read == 0,
    {
        Timer { counter: 0, mode: Mode(0), target: 0, last_read: 0 }
    }

    /// Writes the mode register: bits 11-12 keep their value, the counter is
    /// reset and no interrupt is requested.
    pub fn set_mode(&mut self, v: u32)
        ensures
            final(self).mode.0 == with_bit((v & !0x1800u32) | (old(self).mode.0 & 0x1800), 10, true),
            final(self).counter == 0,
            final(self).target == old(self).target,
            final(self).last_read == old(self).last_read,
    {
        self.mode.0 = (v & !0x1800) | (self.mode.0 & 0x1800);
        self.counter = 0;
        self.mode.set(10, true);
    }

    /// Reads the mode register, which clears the reached-target and
    /// reached-FFFFh flags.
    pub fn get_mode(&mut self) -> (r: u32)
        ensures
            r == old(self).mode.0,
            final(self).mode.0 == with_bit(with_bit(old(self).mode.0, 12, false), 11, false),
            final(self).counter == old(self).counter,
            final(self).target == old(self).target,
            final(self).last_read == old(self).last_read,
    {
        let r = self.mode.0;
        self.mode.set(12, false);
        self.mode.set(11, false);
        r
    }

    /// Ticks until the counter next reads `target`.
    pub fn get_ticks_to_value(&self, target: u16) -> (r: u32)
        requires
            self.counter > target ==> self.counter <= spec_reset(self.mode, self.target) + 1,
        ensures
            r == spec_ticks_to(self.counter, self.mode, self.target, target),
    {
        let counter = self.counter;
        let target = target as u32;
        let reset = if self.mode.reset_to_target() {
            self.target as u32
        } else {
            0xFFFF
        };
        let period = reset + 1;
        if counter < target {
            target - counter
        } else if counter == target {
            period
        } else {
            period - counter + target
        }
    }
}

/// Synchronisation of counter `which` for the raw sync mode `raw`.
pub open spec fn spec_sync_matrix(which: int, raw: u8) -> SyncMode {
    if which == 0 {
        if raw == 0 { SyncMode::PauseOnHSync } else if raw == 1 { SyncMode::ResetOnHSync } else if raw == 2 { SyncMode::HSyncOnly } else { SyncMode::StartOnNextLine }
    } else if which == 1 {
        if raw == 0 { SyncMode::PauseOnVSync } else if raw == 1 { SyncMode::ResetOnVSync } else if raw == 2 { SyncMode::VSyncOnly } else { SyncMode::StartOnNextFrame }
    } else {
        if raw == 0 || raw == 3 { SyncMode::Paused } else { SyncMode::FreeRun }
    }
}

/// Clock of counter `which` for the raw clock source `raw`.
pub open spec fn spec_clock_matrix(which: int, raw: u32) -> ClockSource {
    if which == 0 {
        if raw == 1 || raw == 3 { ClockSource::Dot } else { ClockSource::Cpu }
    } else if which == 1 {
        if raw == 1 || raw == 3 { ClockSource::HBlank } else { ClockSource::Cpu }
    } else {
        if raw >= 2 { ClockSource::CpuDiv8 } else { ClockSource::Cpu }
    }
}

/// The three counters and the blanking state they follow.
pub struct Timers {
    pub timers: [Timer; 3],
    pub in_hsync: bool,
    pub in_vsync: bool,
    pub hblanks: u32,
}

/// Whether a counter in sync mode `s` stands still now.
pub open spec fn spec_halted(s: SyncMode, in_hsync: bool, in_vsync: bool) -> bool {
    s == SyncMode::Paused || (s == SyncMode::PauseOnHSync && in_hsync) || (s == SyncMode::PauseOnVSync && in_vsync)
        || (s == SyncMode::HSyncOnly && !in_hsync) || (s == SyncMode::VSyncOnly && !in_vsync)
}

/// Cycles for `ticks` ticks of clock `c`.
pub open spec fn spec_ticks_to_cycles(c: ClockSource, ticks: u32) -> u64 {
    match c {
        ClockSource::Cpu => ticks as u64,
        ClockSource::CpuDiv8 => (ticks * 8) as u64,
        ClockSource::Dot => (ticks * 5) as u64,
        ClockSource::HBlank => (ticks * LINE_DURATION) as u64,
    }
}

impl Timers {
    pub open spec fn spec_sync_mode(&self, which: int) -> SyncMode {
        let m = self.timers[which].mode;
        if spec_bit(m.0, 0) {
            spec_sync_matrix(which, ((m.0 >> 1) & 3) as u8)
        } else {
            SyncMode::FreeRun
        }
    }

    pub open spec fn spec_clock_source(&self, which: int) -> ClockSource {
        spec_clock_matrix(which, (self.timers[which].mode.0 >> 8) & 3)
    }

    /// Counters at zero, in free-run mode, outside blanking.
    pub fn new() -> (r: Timers)
        ensures
            forall|i: int| 0 <= i < 3 ==> #[trigger] r.timers[i].counter == 0 && r.timers[i].mode.0 == 0
                && r.timers[i].target == 0 && r.timers[i].last_read == 0,
            !r.in_hsync && !r.in_vsync && r.hblanks == 0,
    {
        Timers { timers: [Timer::new(), Timer::new(), Timer::new()], in_hsync: false, in_vsync: false, hblanks: 0 }
    }

    /// The synchronisation of counter `which`.
    pub fn sync_mode(&self, which: usize) -> (r: SyncMode)
        requires
            which < 3,
        ensures
            r == self.spec_sync_mode(which as int),
    {
        let timer = &self.timers[which];
        if timer.mode.sync_enabled() {
            let raw = timer.mode.sync_mode();
            if which == 0 {
                if raw == 0 { SyncMode::PauseOnHSync } else if raw == 1 { SyncMode::ResetOnHSync } else if raw == 2 { SyncMode::HSyncOnly } else { SyncMode::StartOnNextLine }
            } else if which == 1 {
                if raw == 0 { SyncMode::PauseOnVSync } else if raw == 1 { SyncMode::ResetOnVSync } else if raw == 2 { SyncMode::VSyncOnly } else { SyncMode::StartOnNextFrame }
            } else {
                if raw == 0 || raw == 3 { SyncMode::Paused } else { SyncMode::FreeRun }
            }
        } else {
            SyncMode::FreeRun
        }
    }

    /// The clock that counter `which` counts.
    pub fn clock_source(&self, which: usize) -> (r: ClockSource)
        requires
            which < 3,
        ensures
            r == self.spec_clock_source(which as int),
    {
        let raw = self.timers[which].mode.clock_src();
        if which == 0 {
            if raw == 1 || raw == 3 { ClockSource::Dot } else { ClockSource::Cpu }
        } else if which == 1 {
            if raw == 1 || raw == 3 { ClockSource::HBlank } else { ClockSource::Cpu }
        } else {
            if raw >= 2 { ClockSource::CpuDiv8 } else { ClockSource::Cpu }
        }
    }

    /// CPU cycles that `ticks` ticks of counter `which` take.
    pub fn ticks_to_cycles(&self, which: usize, ticks: u32) -> (r: u64)
        requires
            which < 3,
        ensures
            r == spec_ticks_to_cycles(self.spec_clock_source(which as int), ticks),
    {
        let t = ticks as u64;
        match self.clock_source(which) {
            ClockSource::Cpu => t,
            ClockSource::CpuDiv8 => t * 8,
            ClockSource::Dot => t * 5,
            ClockSource::HBlank => t * LINE_DURATION,
        }
    }
}

/// Counter `t` after catching up to `cycle`: the ticks of its clock since
/// it was last brought up to date are added, wrapping after the reset
/// value, and the reached-target and reached-FFFFh flags tell whether this
/// passed them. `ticks` is what its clock counted (the blank count for an
/// HBlank clock).
pub open spec fn spec_advanced(t: Timer, ticks: u32) -> Timer {
    let old_counter = t.counter as int;
    let reset = spec_reset(t.mode, t.target);
    let reached_target = ticks > 0 && old_counter + ticks > t.target;
    let crossed = if spec_bit(t.mode.0, 3) { false } else { ticks > 0 && old_counter + ticks > 0xffff };
    Timer {
        counter: ((old_counter + ticks) % (reset + 1)) as u32,
        mode: Mode(with_bit(with_bit(t.mode.0, 11, reached_target), 12, crossed)),
        ..t
    }
}

/// Ticks of clock `c` in `cycles` CPU cycles (or, for the HBlank clock,
/// the blanks counted).
pub open spec fn spec_ticks(c: ClockSource, cycles: u32, hblanks: u32) -> u32 {
    match c {
        ClockSource::Cpu => cycles,
        ClockSource::CpuDiv8 => cycles / 8,
        ClockSource::Dot => cycles / 5,
        ClockSource::HBlank => hblanks,
    }
}

/// The counters after counter `which` was brought up to `cycle`.
pub open spec fn spec_update_ok(old: Timers, new: Timers, which: int, cycle: u64) -> bool {
    let t = old.timers[which];
    let t1 = Timer { last_read: cycle, ..t };
    let delta = (cycle - t.last_read) as u32;
    &&& forall|i: int| 0 <= i < 3 && i != which ==> #[trigger] new.timers[i] == old.timers[i]
    &&& new.in_hsync == old.in_hsync && new.in_vsync == old.in_vsync
    &&& if spec_halted(old.spec_sync_mode(which), old.in_hsync, old.in_vsync) {
        new.timers[which] == t1 && new.hblanks == old.hblanks
    } else {
        let c = old.spec_clock_source(which);
        &&& new.timers[which] == spec_advanced(t1, spec_ticks(c, delta, old.hblanks))
        &&& new.hblanks == (if c == ClockSource::HBlank { 0 } else { old.hblanks })
    }
}

/// The next interrupt that counter `which` will raise, as `(cycles from now,
/// repeat period, toggle mode)`, or `None` when it raises none.
pub open spec fn spec_irq_plan(t: Timers, which: int) -> Option<(u64, Option<u64>, bool)> {
    let tm = t.timers[which];
    let c = t.spec_clock_source(which);
    let to_target = spec_ticks_to_cycles(c, spec_ticks_to(tm.counter, tm.mode, tm.target, tm.target));
    let target_period = spec_ticks_to_cycles(c, tm.target as u32);
    let to_ffff = spec_ticks_to_cycles(c, spec_ticks_to(tm.counter, tm.mode, tm.target, 0xffff));
    let ffff_period = spec_ticks_to_cycles(c, 0xffff);
    let irq = (tm.mode.0 >> 4) & 3;
    let pick = if irq == 1 {
        (to_target, target_period)
    } else if irq == 2 {
        (to_ffff, ffff_period)
    } else if to_target < to_ffff {
        (to_target, target_period)
    } else {
        (to_ffff, ffff_period)
    };
    if spec_halted(t.spec_sync_mode(which), t.in_hsync, t.in_vsync) || irq == 0 {
        None
    } else {
        Some((pick.0, if spec_bit(tm.mode.0, 6) { Some(pick.1) } else { None }, spec_bit(tm.mode.0, 7)))
    }
}

/// The counter's value stays within its period.
pub open spec fn spec_counter_ok(t: Timer) -> bool {
    t.counter <= spec_reset(t.mode, t.target) + 1
}

/// The scheduler can take one more event, due within any counter period.
pub open spec fn spec_sched_room(s: Scheduler) -> bool {
    s.wf() && s.view().len() < 32 && s.cycle < crate::scheduler::CYCLE_LIMIT
}

/// The scheduler after the interrupt plan `plan` of counter `which`.
pub open spec fn spec_planned(old: Scheduler, new: Scheduler, which: int, plan: Option<(u64, Option<u64>, bool)>) -> bool {
    &&& new.wf()
    &&& new.cycle == old.cycle
    &&& match plan {
        None => new.view() == old.view(),
        Some(p) => {
            let e = Event::Timer(TimerInterrupt { which: which as usize, toggle: p.2 });
            new.view() == spec_insert_task(spec_unscheduled(old.view(), e), Task { cycle: (old.cycle + p.0) as u64, event: e, repeat: p.1 })
        },
    }
}

impl Timers {
    /// Brings counter `which` up to `cycle`.
    pub fn update_value(&mut self, which: usize, cycle: u64)
        requires
            which < 3,
            cycle >= old(self).timers[which as int].last_read,
        ensures
            spec_update_ok(*old(self), *final(self), which as int, cycle),
    {
        let mut t = self.timers[which];
        let clock_delta = (cycle - t.last_read) as u32;
        t.last_read = cycle;
        let sync = self.sync_mode(which);
        if sync == SyncMode::Paused || (sync == SyncMode::PauseOnHSync && self.in_hsync) || (sync
            == SyncMode::PauseOnVSync && self.in_vsync) || (sync == SyncMode::HSyncOnly && !self.in_hsync) || (sync
            == SyncMode::VSyncOnly && !self.in_vsync) {
            self.timers[which] = t;
            return;
        }
        let rtt = t.mode.reset_to_target();
        let reset: u32 = if rtt {
            t.target as u32
        } else {
            0xFFFF
        };
        let delta = match self.clock_source(which) {
            ClockSource::Cpu => clock_delta,
            ClockSource::CpuDiv8 => clock_delta / 8,
            ClockSource::Dot => clock_delta / 5,
            ClockSource::HBlank => {
                let h = self.hblanks;
                self.hblanks = 0;
                h
            },
        };
        let old_counter = t.counter as u64;
        let delta64 = delta as u64;
        let target64 = t.target as u64;
        t.mode.set(11, delta64 > 0 && old_counter + delta64 > target64);
        let crossed_ffff = if rtt {
            false
        } else {
            delta64 > 0 && old_counter + delta64 > 0xFFFF
        };
        t.mode.set(12, crossed_ffff);
        t.counter = ((old_counter + delta64) % (reset as u64 + 1)) as u32;
        self.timers[which] = t;
    }

    /// Schedules the next interrupt of counter `which`, if it raises one.
    /// Returns `false`, scheduling nothing, when the counter (set by a
    /// write) lies beyond its period, so that the time to its next
    /// interrupt cannot be counted in 32 bits.
    pub fn reschedule_interrupt_if_needed(&self, which: usize, scheduler: &mut Scheduler) -> (r: bool)
        requires
            which < 3,
            spec_sched_room(*old(scheduler)),
        ensures
            r == (spec_halted(self.spec_sync_mode(which as int), self.in_hsync, self.in_vsync) || spec_counter_ok(
                self.timers[which as int],
            )),
            r ==> spec_planned(*old(scheduler), *final(scheduler), which as int, spec_irq_plan(*self, which as int)),
            !r ==> *final(scheduler) == *old(scheduler),
    {
        let sync = self.sync_mode(which);
        if sync == SyncMode::Paused || (sync == SyncMode::PauseOnHSync && self.in_hsync) || (sync
            == SyncMode::PauseOnVSync && self.in_vsync) || (sync == SyncMode::HSyncOnly && !self.in_hsync) || (sync
            == SyncMode::VSyncOnly && !self.in_vsync) {
            return true;
        }
        let timer = &self.timers[which];
        let period: u64 = if timer.mode.reset_to_target() { timer.target as u64 + 1 } else { 0x10000 };
        if timer.counter as u64 > period {
            return false;
        }
        let ticks_till_target = timer.get_ticks_to_value(timer.target);
        let ticks_till_ffff = timer.get_ticks_to_value(0xFFFF);
        let cycles_till_target = self.ticks_to_cycles(which, ticks_till_target);
        let cycles_till_target_reset = self.ticks_to_cycles(which, timer.target as u32);
        let cycles_till_ffff = self.ticks_to_cycles(which, ticks_till_ffff);
        let cycles_till_ffff_reset = self.ticks_to_cycles(which, 0xFFFF);
        let irq = timer.mode.irq_target();
        if irq == 0 {
            return true;
        }
        let (cycles_till_irq, cycles_till_irq_reset) = if irq == 1 {
            (cycles_till_target, cycles_till_target_reset)
        } else if irq == 2 {
            (cycles_till_ffff, cycles_till_ffff_reset)
        } else if cycles_till_target < cycles_till_ffff {
            (cycles_till_target, cycles_till_target_reset)
        } else {
            (cycles_till_ffff, cycles_till_ffff_reset)
        };
        let repeat = if timer.mode.irq_repeat() {
            Some(cycles_till_irq_reset)
        } else {
            None
        };
        let toggle = timer.mode.irq_toggle();
        proof {
            crate::scheduler::lemma_unscheduled_len_bound(
                scheduler.view(),
                Event::Timer(TimerInterrupt { which, toggle }),
            );
        }
        scheduler.schedule(Event::Timer(TimerInterrupt { which, toggle }), cycles_till_irq, repeat);
        true
    }

    /// Raises the interrupt of a counter: in toggle mode bit 10 flips and the
    /// interrupt is raised when it goes from 1 to 0; in pulse mode bit 10 is
    /// set and the interrupt raised.
    pub fn process_interrupt(&mut self, irq: TimerInterrupt, irqctl: &mut InterruptController)
        requires
            irq.which < 3,
        ensures
            forall|i: int| 0 <= i < 3 && i != irq.which ==> #[trigger] final(self).timers[i] == old(self).timers[i],
            final(self).timers[irq.which as int].mode.0 == with_bit(old(self).timers[irq.which as int].mode.0, 10,
                !irq.toggle || !spec_bit(old(self).timers[irq.which as int].mode.0, 10)),
            final(self).timers[irq.which as int].counter == old(self).timers[irq.which as int].counter,
            final(self).timers[irq.which as int].target == old(self).timers[irq.which as int].target,
            final(self).timers[irq.which as int].last_read == old(self).timers[irq.which as int].last_read,
            final(self).in_hsync == old(self).in_hsync && final(self).in_vsync == old(self).in_vsync,
            final(self).hblanks == old(self).hblanks,
            final(irqctl).mask == old(irqctl).mask,
            final(irqctl).status.0 == if !irq.toggle || spec_bit(old(self).timers[irq.which as int].mode.0, 10) {
                with_bit(old(irqctl).status.0, (4 + irq.which) as u32, true)
            } else {
                old(irqctl).status.0
            },
    {
        let mut t = self.timers[irq.which];
        let set_irq = if irq.toggle {
            let prev = t.mode.irq_disabled();
            t.mode.set(10, !prev);
            prev
        } else {
            t.mode.set(10, true);
            true
        };
        self.timers[irq.which] = t;
        if set_irq {
            if irq.which == 0 {
                irqctl.status.set_tmr0(true);
            } else if irq.which == 1 {
                irqctl.status.set_tmr1(true);
            } else {
                irqctl.status.set_tmr2(true);
            }
        }
    }
}

/// The counter that register offset `offset` belongs to.
pub open spec fn spec_which(offset: u32) -> int {
    (offset >> 4u32) as int
}

/// What a write of `v` to timer register `offset` at `cycle` does to the
/// timers (`o` becomes `n`) and the event queue (`os` becomes `ns`); `r`
/// tells whether the counter's next interrupt could be planned.
pub open spec fn spec_timers_store(o: Timers, n: Timers, os: Scheduler, ns: Scheduler, offset: u32, v: u32, cycle: u64, r: bool) -> bool {
    let w = spec_which(offset);
    &&& exists|mid: Timers| #![trigger spec_update_ok(o, mid, spec_which(offset), cycle)] {
        &&& spec_update_ok(o, mid, w, cycle)
        &&& n.in_hsync == mid.in_hsync && n.in_vsync == mid.in_vsync
        &&& n.hblanks == mid.hblanks
        &&& forall|i: int| 0 <= i < 3 && i != w ==> #[trigger] n.timers[i] == mid.timers[i]
        &&& n.timers[w] == if offset & 0xf == 0 {
            (Timer { counter: v, ..mid.timers[w] })
        } else if offset & 0xf == 4 {
            (Timer {
                counter: 0,
                mode: Mode(with_bit((v & !0x1800u32) | (mid.timers[w].mode.0 & 0x1800), 10, true)),
                ..mid.timers[w]
            })
        } else {
            (Timer { target: v as u16, ..mid.timers[w] })
        }
    }
    &&& r == (spec_halted(n.spec_sync_mode((offset >> 4) as int), n.in_hsync, n.in_vsync) || spec_counter_ok(
        n.timers[(offset >> 4) as int],
    ))
    &&& r ==> spec_planned(os, ns, (offset >> 4) as int, spec_irq_plan(n, (offset >> 4) as int))
    &&& !r ==> ns == os
}

/// Vertical blanking starts at `cycle` (`o` becomes `n`): counter 1
/// catches up, and restarts when it is synchronised to it.
pub open spec fn spec_enter_vsync(o: Timers, n: Timers, cycle: u64) -> bool {
    exists|mid: Timers|
        #[trigger] spec_update_ok(o, mid, 1, cycle) && n.in_vsync && n.in_hsync == mid.in_hsync && n.hblanks == mid.hblanks
            && n.timers[0] == mid.timers[0] && n.timers[2] == mid.timers[2] && n.timers[1] == (if mid.spec_sync_mode(1)
            == SyncMode::ResetOnVSync || mid.spec_sync_mode(1) == SyncMode::VSyncOnly {
            (Timer { counter: 0, ..mid.timers[1] })
        } else {
            mid.timers[1]
        })
}

/// Vertical blanking ends (`o` becomes `n`): a counter 1 waiting for the
/// next frame runs freely from now on.
pub open spec fn spec_exit_vsync(o: Timers, n: Timers) -> bool {
    &&& !n.in_vsync
    &&& n.in_hsync == o.in_hsync && n.hblanks == o.hblanks
    &&& n.timers[0] == o.timers[0] && n.timers[2] == o.timers[2]
    &&& n.timers[1] == if o.spec_sync_mode(1) == SyncMode::StartOnNextFrame {
        (Timer { mode: Mode(with_bit(o.timers[1].mode.0, 0, false)), ..o.timers[1] })
    } else {
        o.timers[1]
    }
}

/// Horizontal blanking starts at `cycle` (`o` becomes `n`): counter 0
/// catches up, one more blank is counted, and counter 0 restarts when it is
/// synchronised to it.
pub open spec fn spec_enter_hsync(o: Timers, n: Timers, cycle: u64) -> bool {
    exists|mid: Timers|
        #[trigger] spec_update_ok(o, mid, 0, cycle) && n.in_hsync && n.in_vsync == mid.in_vsync && n.hblanks == mid.hblanks
            + 1 && n.timers[1] == mid.timers[1] && n.timers[2] == mid.timers[2] && n.timers[0] == (if mid.spec_sync_mode(0)
            == SyncMode::ResetOnHSync || mid.spec_sync_mode(0) == SyncMode::HSyncOnly {
            (Timer { counter: 0, ..mid.timers[0] })
        } else {
            mid.timers[0]
        })
}

/// Horizontal blanking ends at `cycle` (`o` becomes `n`, the queue `os`
/// becomes `ns`): a counter 0 waiting for the next line runs freely from
/// now on; counter 0 restarts its cycle count and its next interrupt is
/// scheduled; `r` false (the queue unchanged) when counter 0 runs past its
/// period.
#[verifier::opaque]
pub open spec fn spec_exit_hsync(o: Timers, n: Timers, cycle: u64, os: Scheduler, ns: Scheduler, r: bool) -> bool {
    &&& n == (Timers { in_hsync: false, timers: n.timers, ..o })
    &&& n.timers[1] == o.timers[1] && n.timers[2] == o.timers[2]
    &&& n.timers[0] == (Timer {
        last_read: cycle,
        mode: if o.spec_sync_mode(0) == SyncMode::StartOnNextLine {
            Mode(with_bit(o.timers[0].mode.0, 0, false))
        } else {
            o.timers[0].mode
        },
        ..o.timers[0]
    })
    &&& r == (spec_halted(n.spec_sync_mode(0), false, o.in_vsync) || spec_counter_ok(n.timers[0]))
    &&& if r {
        spec_planned(os, ns, 0, spec_irq_plan(n, 0))
    } else {
        ns == os
    }
}

impl Timers {
    /// Vertical blanking starts: counter 1 catches up, and restarts when it
    /// is synchronised to it.
    pub fn enter_vsync(&mut self, cycle: u64)
        requires
            cycle >= old(self).timers[1].last_read,
        ensures
            spec_enter_vsync(*old(self), *final(self), cycle),
    {
        self.update_value(1, cycle);
        let ghost mid = *self;
        self.in_vsync = true;
        let m = self.sync_mode(1);
        if m == SyncMode::ResetOnVSync || m == SyncMode::VSyncOnly {
            let mut t = self.timers[1];
            t.counter = 0;
            self.timers[1] = t;
        }
        assert(spec_update_ok(*old(self), mid, 1, cycle));
    }

    /// Vertical blanking ends: a counter 1 waiting for the next frame runs
    /// freely from now on.
    pub fn exit_vsync(&mut self)
        ensures
            spec_exit_vsync(*old(self), *final(self)),
    {
        self.in_vsync = false;
        if self.sync_mode(1) == SyncMode::StartOnNextFrame {
            let mut t = self.timers[1];
            t.mode.set(0, false);
            self.timers[1] = t;
        }
    }

    /// Horizontal blanking starts: counter 0 catches up, one more blank is
    /// counted, and counter 0 restarts when it is synchronised to it.
    pub fn enter_hsync(&mut self, cycle: u64)
        requires
            cycle >= old(self).timers[0].last_read,
            old(self).hblanks < u32::MAX,
        ensures
            spec_enter_hsync(*old(self), *final(self), cycle),
    {
        self.update_value(0, cycle);
        let ghost mid = *self;
        self.hblanks = self.hblanks + 1;
        self.in_hsync = true;
        let m = self.sync_mode(0);
        if m == SyncMode::ResetOnHSync || m == SyncMode::HSyncOnly {
            let mut t = self.timers[0];
            t.counter = 0;
            self.timers[0] = t;
        }
        assert(spec_update_ok(*old(self), mid, 0, cycle));
    }

    /// Horizontal blanking ends: a counter 0 waiting for the next line runs
    /// freely from now on; counter 0 restarts its cycle count at `cycle` and
    /// its next interrupt is scheduled. `false` as for
    /// `reschedule_interrupt_if_needed`.
    pub fn exit_hsync(&mut self, cycle: u64, scheduler: &mut Scheduler) -> (r: bool)
        requires
            spec_sched_room(*old(scheduler)),
        ensures
            spec_exit_hsync(*old(self), *final(self), cycle, *old(scheduler), *final(scheduler), r),
            final(scheduler).wf() && final(scheduler).cycle == old(scheduler).cycle,
            final(self).timers[0].last_read == cycle,
            final(self).timers[1] == old(self).timers[1] && final(self).timers[2] == old(self).timers[2],
    {
        proof {
            reveal(spec_exit_hsync);
        }
        self.in_hsync = false;
        let mut t = self.timers[0];
        if self.sync_mode(0) == SyncMode::StartOnNextLine {
            t.mode.set(0, false);
        }
        t.last_read = cycle;
        self.timers[0] = t;
        self.reschedule_interrupt_if_needed(0, scheduler)
    }

    /// Reads register `offset & 0xf` (counter, mode or target) of counter
    /// `offset >> 4`, after bringing it up to `cycle`; reading the mode
    /// clears its reached flags.
    pub fn load<T: Addressable>(&mut self, offset: u32, cycle: u64) -> (r: T)
        requires
            offset < 0x30,
            offset & 0xf == 0 || offset & 0xf == 4 || offset & 0xf == 8,
            cycle >= old(self).timers[(offset >> 4) as int].last_read,
        ensures
            exists|mid: Timers| #![trigger spec_update_ok(*old(self), mid, spec_which(offset), cycle)] {
                let w = spec_which(offset);
                &&& spec_update_ok(*old(self), mid, w, cycle)
                &&& r.spec_as_u32() == (if offset & 0xf == 0 {
                    mid.timers[w].counter
                } else if offset & 0xf == 4 {
                    mid.timers[w].mode.0
                } else {
                    mid.timers[w].target as u32
                }) & T::spec_width().spec_mask()
                &&& final(self).in_hsync == mid.in_hsync && final(self).in_vsync == mid.in_vsync
                &&& final(self).hblanks == mid.hblanks
                &&& forall|i: int| 0 <= i < 3 && i != w ==> #[trigger] final(self).timers[i] == mid.timers[i]
                &&& final(self).timers[w] == if offset & 0xf == 4 {
                    (Timer { mode: Mode(with_bit(with_bit(mid.timers[w].mode.0, 12, false), 11, false)), ..mid.timers[w] })
                } else {
                    mid.timers[w]
                }
            },
    {
        let which = (offset >> 4) as usize;
        proof {
            crate::bitfacts::lemma_counter_of(offset);
        }
        self.update_value(which, cycle);
        let ghost mid = *self;
        let reg = offset & 0xF;
        let v = if reg == 0 {
            self.timers[which].counter
        } else if reg == 4 {
            let mut t = self.timers[which];
            let m = t.get_mode();
            self.timers[which] = t;
            m
        } else {
            self.timers[which].target as u32
        };
        assert(which as int == spec_which(offset));
        assert(spec_update_ok(*old(self), mid, spec_which(offset), cycle));
        let r = T::from_u32(v);
        assert(forall|i: int| 0 <= i < 3 && i != which ==> #[trigger] self.timers[i] == mid.timers[i]);
        r
    }

    /// Writes register `offset & 0xf` (counter, mode or target) of counter
    /// `offset >> 4`, after bringing it up to `cycle`, then schedules its
    /// next interrupt. `false` as for `reschedule_interrupt_if_needed`.
    pub fn store<T: Addressable>(&mut self, offset: u32, value: T, cycle: u64, scheduler: &mut Scheduler) -> (r: bool)
        requires
            offset < 0x30,
            offset & 0xf == 0 || offset & 0xf == 4 || offset & 0xf == 8,
            cycle >= old(self).timers[(offset >> 4) as int].last_read,
            spec_sched_room(*old(scheduler)),
        ensures
            spec_timers_store(*old(self), *final(self), *old(scheduler), *final(scheduler), offset, value.spec_as_u32(), cycle, r),
    {
        let which = (offset >> 4) as usize;
        proof {
            crate::bitfacts::lemma_counter_of(offset);
        }
        self.update_value(which, cycle);
        let ghost mid = *self;
        let reg = offset & 0xF;
        let mut t = self.timers[which];
        if reg == 0 {
            t.counter = value.as_u32();
        } else if reg == 4 {
            t.set_mode(value.as_u32());
        } else {
            t.target = value.as_u32() as u16;
        }
        self.timers[which] = t;
        assert(which as int == spec_which(offset));
        assert(spec_update_ok(*old(self), mid, spec_which(offset), cycle));
        assert(forall|i: int| 0 <= i < 3 && i != which ==> #[trigger] self.timers[i] == mid.timers[i]);
        self.reschedule_interrupt_if_needed(which, scheduler)
    }
}

} // verus!
