use vstd::prelude::*;

use crate::bus::{Bus, IF_ADDRESS};
use crate::cpu::{Cpu, CpuError, CpuState};
use crate::engine::spec_step;
use crate::ppu::timing::{Ppu, PpuView, HBLANK_CYCLES, VBLANK_CYCLES};
use crate::registers::Registers;
use crate::scheduler::{Event, EventType, PpuEvent, Scheduler, SchedulerState};
use crate::Mode;

verus! {

/// The CPU clock rate in cycles per second.
pub const CPU_CLOCK_SPEED: u32 = 4194304;

/// Cycles of one display frame: 154 lines of 456 cycles.
pub const CYCLES_PER_FRAME: usize = 70224;

/// What serving one event does to the queue: a display phase is followed by
/// the next one, due `delay` cycles after the event's own time; every other
/// event leaves nothing behind.
pub open spec fn reschedule(s: SchedulerState, event: Event, next: Option<(EventType, usize)>) -> SchedulerState {
    match next {
        Some((t, delay)) => s.schedule_at(t, (event.time + delay) as usize),
        None => s,
    }
}

/// What the console holds: processor state, clock and queue, display registers.
pub struct ConsoleState {
    pub cpu: CpuState,
    pub clock: SchedulerState,
    pub display: PpuView,
}

/// Serving one event: a display phase runs, its successor is queued, and the
/// display's interrupt requests move into IF; the end of a frame is reported;
/// every other event is dropped.
pub open spec fn spec_dispatch(c: ConsoleState, event: Event) -> (ConsoleState, bool) {
    match event.event_type {
        EventType::FrameComplete => (c, true),
        EventType::Ppu(e) => {
            let (shown, next) = c.display.handle_event(e);
            let cpu = if shown.interrupt != 0 {
                c.cpu.write(IF_ADDRESS, c.cpu.read(IF_ADDRESS) | shown.interrupt)
            } else {
                c.cpu
            };
            (
                ConsoleState {
                    cpu,
                    clock: reschedule(c.clock, event, next),
                    display: PpuView { interrupt: 0, ..shown },
                },
                false,
            )
        },
        _ => (c, false),
    }
}

/// Serving due events one at a time, at most `n` of them, until none is due or
/// a frame has ended; reports whether a frame ended.
pub open spec fn spec_handle_events(c: ConsoleState, n: nat) -> (ConsoleState, bool)
    decreases n,
{
    if n == 0 {
        (c, false)
    } else {
        let (popped, clock) = c.clock.pop_due();
        let served = ConsoleState { clock, ..c };
        match popped {
            None => (served, false),
            Some(event) => {
                let (d, done) = spec_dispatch(served, event);
                if done {
                    (d, true)
                } else {
                    spec_handle_events(d, (n - 1) as nat)
                }
            },
        }
    }
}

/// Up to `n` steps of a frame: each processor step moves the clock by its
/// cycles and the due events are then served; the frame ends when an end of
/// frame is served. Stops at the first illegal opcode.
pub open spec fn spec_frame(c: ConsoleState, n: nat) -> Result<ConsoleState, CpuError>
    decreases n,
{
    if n == 0 {
        Ok(c)
    } else {
        match spec_step(c.cpu) {
            Err(e) => Err(e),
            Ok((t, cycles)) => {
                let stepped = ConsoleState { cpu: t, clock: c.clock.advance(cycles as usize), ..c };
                let (served, done) = spec_handle_events(stepped, stepped.clock.queue.len());
                if done {
                    Ok(served)
                } else {
                    spec_frame(served, (n - 1) as nat)
                }
            },
        }
    }
}

/// Scheduling an event of kind `k`, which the display does not own, at delay
/// `d` when the clock reads `T`, then advancing the clock by `d` and serving the
/// due events: the first event served is exactly that one, due at `T + d`; it
/// reports the end of a frame exactly when it is one; no event of kind `k` is
/// left pending; the other pending events stay as they were, and the processor
/// and the display are untouched. (The other pending events must lie after
/// `T + d`, and none may be of kind `k`.)
pub proof fn lemma_console_round_trip(c: ConsoleState, k: EventType, d: usize)
    requires
        !(k is Ppu),
        c.clock.now + d <= usize::MAX,
        forall|i: int|
            0 <= i < c.clock.queue.len() ==> #[trigger] c.clock.queue[i].event_type != k
                && c.clock.queue[i].time > c.clock.now + d,
    ensures
        ({
            let t = ConsoleState { clock: c.clock.schedule(k, d).advance(d), ..c };
            let (u, done) = spec_handle_events(t, t.clock.queue.len());
            &&& t.clock.pop_due().0 == Some(Event { event_type: k, time: (c.clock.now + d) as usize })
            &&& done == (k == EventType::FrameComplete)
            &&& u.clock.queue == c.clock.queue
            &&& u.clock.now == c.clock.now + d
            &&& u.cpu == c.cpu
            &&& u.display == c.display
            &&& forall|i: int| 0 <= i < u.clock.queue.len() ==> #[trigger] u.clock.queue[i].event_type != k
        }),
{
    let q = c.clock.queue;
    let e = Event { event_type: k, time: (c.clock.now + d) as usize };
    let t = ConsoleState { clock: c.clock.schedule(k, d).advance(d), ..c };
    let q2 = t.clock.queue;
    let n = q.len() as int;
    assert(q2 == q.push(e));
    assert(forall|j: int| 0 <= j < n ==> q2[j] == q[j]);
    crate::scheduler::lemma_first_min(q2);
    let m = crate::scheduler::first_min(q2);
    if m != n {
        assert(q2[m].time <= q2[n].time);
    }
    assert(m == n);
    assert(q2.remove(n) =~= q);
    let served = ConsoleState { clock: SchedulerState { queue: q, ..t.clock }, ..t };
    assert(t.clock.pop_due() == (Some(e), served.clock));
    assert(spec_dispatch(served, e) == (served, k == EventType::FrameComplete));
    assert(spec_handle_events(t, (n + 1) as nat) == (if k == EventType::FrameComplete {
        (served, true)
    } else {
        spec_handle_events(served, n as nat)
    }));
    if k != EventType::FrameComplete {
        if n > 0 {
            crate::scheduler::lemma_first_min(q);
            assert(!served.clock.has_due());
            assert(served.clock.pop_due() == (None::<Event>, served.clock));
        }
        assert(spec_handle_events(served, n as nat) == (served, false));
    }
}

/// The same round trip for a display phase `Ppu(e)`: the event is served once,
/// the display runs that phase, and the only event queued in its place is the
/// successor the display returns, due its delay after `T + d`.
pub proof fn lemma_console_round_trip_display(c: ConsoleState, e: PpuEvent, d: usize)
    requires
        c.clock.now + d + VBLANK_CYCLES <= usize::MAX,
        forall|i: int|
            0 <= i < c.clock.queue.len() ==> #[trigger] c.clock.queue[i].event_type != EventType::Ppu(e)
                && c.clock.queue[i].time > c.clock.now + d,
    ensures
        ({
            let k = EventType::Ppu(e);
            let t = ConsoleState { clock: c.clock.schedule(k, d).advance(d), ..c };
            let (u, done) = spec_handle_events(t, t.clock.queue.len());
            let (shown, next) = c.display.handle_event(e);
            &&& t.clock.pop_due().0 == Some(Event { event_type: k, time: (c.clock.now + d) as usize })
            &&& !done
            &&& u.clock.now == c.clock.now + d
            &&& u.clock.queue == (match next {
                Some((k2, d2)) => c.clock.queue.push(
                    Event { event_type: k2, time: (c.clock.now + d + d2) as usize },
                ),
                None => c.clock.queue,
            })
            &&& u.display == (PpuView { interrupt: 0, ..shown })
        }),
{
    let k = EventType::Ppu(e);
    let q = c.clock.queue;
    let ev = Event { event_type: k, time: (c.clock.now + d) as usize };
    let t = ConsoleState { clock: c.clock.schedule(k, d).advance(d), ..c };
    let q2 = t.clock.queue;
    let n = q.len() as int;
    assert(q2 == q.push(ev));
    assert(forall|j: int| 0 <= j < n ==> q2[j] == q[j]);
    crate::scheduler::lemma_first_min(q2);
    let m = crate::scheduler::first_min(q2);
    if m != n {
        assert(q2[m] == q[m]);
        assert(q[m].event_type != k);
        assert(q2[m].time <= q2[n].time);
    }
    assert(m == n);
    assert(q2.remove(n) =~= q);
    let served = ConsoleState { clock: SchedulerState { queue: q, ..t.clock }, ..t };
    assert(t.clock.pop_due() == (Some(ev), served.clock));
    let (after, done) = spec_dispatch(served, ev);
    assert(!done);
    assert(spec_handle_events(t, (n + 1) as nat) == spec_handle_events(after, n as nat));
    let q3 = after.clock.queue;
    assert(forall|j: int| 0 <= j < q3.len() ==> #[trigger] q3[j].time > after.clock.now) by {
        assert(forall|j: int| 0 <= j < n ==> q3[j] == q[j]);
    }
    if n > 0 {
        if q3.len() > 0 {
            crate::scheduler::lemma_first_min(q3);
        }
        assert(!after.clock.has_due());
        assert(after.clock.pop_due() == (None::<Event>, after.clock));
    }
    assert(spec_handle_events(after, n as nat) == (after, false));
}

/// The console: the processor with its bus, the event queue and the display
/// timing that the queue drives.
pub struct GameBoy {
    pub cpu: Cpu,
    pub scheduler: Scheduler,
    pub ppu: Ppu,
}

impl GameBoy {
    pub open spec fn wf(&self) -> bool {
        self.cpu.wf() && self.ppu.wf()
    }

    pub open spec fn state(&self) -> ConsoleState {
        ConsoleState { cpu: self.cpu@, clock: self.scheduler@, display: self.ppu@ }
    }

    /// A console running `rom` from the register values of a monochrome unit;
    /// the first display phase is scheduled.
    pub fn new(rom: &Vec<u8>, skip_boot: bool) -> (r: GameBoy)
        ensures
            r.wf(),
            r.cpu.registers == crate::registers::initial_registers(Mode::Monochrome, skip_boot),
            r.state().clock.now == 0,
            r.state().clock.queue == seq![Event { event_type: EventType::Ppu(PpuEvent::HBlank), time: HBLANK_CYCLES }],
    {
        let mut scheduler = Scheduler::new();
        let ppu = Ppu::new(&mut scheduler);
        assert(scheduler@.queue =~= seq![Event { event_type: EventType::Ppu(PpuEvent::HBlank), time: HBLANK_CYCLES }]);
        let registers = Registers::new(Mode::Monochrome, skip_boot);
        GameBoy { cpu: Cpu::new(Bus::with_rom(rom), registers), scheduler, ppu }
    }

    /// The current cycle count.
    pub fn timestamp(&self) -> (r: usize)
        ensures
            r == self.state().clock.now,
    {
        self.scheduler.timestamp()
    }

    /// One processor step; the clock moves by the cycles it took.
    pub fn cycle(&mut self) -> (r: Result<u32, CpuError>)
        requires
            old(self).wf(),
            old(self).state().clock.now + 44 <= usize::MAX,
        ensures
            final(self).wf(),
            final(self).state().display == old(self).state().display,
            r matches Ok(c) ==> c <= 44,
            match spec_step(old(self).cpu@) {
                Ok((t, c)) => r == Ok::<u32, CpuError>(c) && final(self).cpu@ == t && final(self).state().clock
                    == old(self).state().clock.advance(c as usize),
                Err(e) => r == Err::<u32, CpuError>(e) && final(self).state().clock == old(self).state().clock,
            },
    {
        proof {
            crate::engine::lemma_step_cycles(self.cpu@);
        }
        let cycles = self.cpu.cycle()?;
        self.scheduler.advance(cycles as usize);
        Ok(cycles)
    }

    /// Serves one event (see `spec_dispatch`); returns whether it marks the end
    /// of a frame.
    pub fn dispatch(&mut self, event: Event) -> (r: bool)
        requires
            old(self).wf(),
            event.time + VBLANK_CYCLES <= usize::MAX,
        ensures
            final(self).wf(),
            (final(self).state(), r) == spec_dispatch(old(self).state(), event),
    {
        match event.event_type {
            EventType::FrameComplete => true,
            EventType::Ppu(ppu_event) => {
                let next = self.ppu.handle_event(ppu_event);
                if let Some((event_type, delay)) = next {
                    self.scheduler.schedule_at(event_type, event.time + delay);
                }
                let requests = self.ppu.take_interrupts();
                if requests != 0 {
                    let flags = self.cpu.bus.mem_read(IF_ADDRESS);
                    self.cpu.bus.mem_write(IF_ADDRESS, flags | requests);
                }
                false
            },
            _ => false,
        }
    }

    /// Serves the due events (at most as many as were pending when called) in
    /// queue order and stops after the end of a frame; see `spec_handle_events`.
    pub fn handle_events(&mut self) -> (r: bool)
        requires
            old(self).wf(),
            old(self).state().clock.now + VBLANK_CYCLES <= usize::MAX,
        ensures
            final(self).wf(),
            (final(self).state(), r) == spec_handle_events(old(self).state(), old(self).state().clock.queue.len()),
            final(self).state().clock.now == old(self).state().clock.now,
    {
        let limit = self.scheduler.len();
        let mut served: usize = 0;
        while served < limit
            invariant
                self.wf(),
                served <= limit,
                limit == old(self).state().clock.queue.len(),
                self.state().clock.now == old(self).state().clock.now,
                self.state().clock.now + VBLANK_CYCLES <= usize::MAX,
                spec_handle_events(old(self).state(), limit as nat) == spec_handle_events(
                    self.state(),
                    (limit - served) as nat,
                ),
            decreases limit - served,
        {
            let ghost before = self.state();
            let popped = self.scheduler.pop_due();
            let ghost after_pop = self.state();
            assert(after_pop == ConsoleState { clock: before.clock.pop_due().1, ..before });
            match popped {
                None => {
                    assert(spec_handle_events(before, (limit - served) as nat) == (after_pop, false));
                    return false;
                },
                Some(event) => {
                    let done = self.dispatch(event);
                    assert(spec_handle_events(before, (limit - served) as nat) == (if done {
                        (self.state(), true)
                    } else {
                        spec_handle_events(self.state(), (limit - served - 1) as nat)
                    }));
                    if done {
                        return true;
                    }
                },
            }
            served = served + 1;
        }
        false
    }

    /// Runs until the end of the frame that is due `CYCLES_PER_FRAME - overshoot`
    /// cycles from now (or, at the latest, after `CYCLES_PER_FRAME` steps), and
    /// returns the cycles that took.
    pub fn run(&mut self, overshoot: usize) -> (r: Result<usize, CpuError>)
        requires
            old(self).wf(),
            overshoot <= CYCLES_PER_FRAME,
            old(self).state().clock.now + 50 * CYCLES_PER_FRAME <= usize::MAX,
        ensures
            final(self).wf(),
            ({
                let start = old(self).state();
                let end_time = (start.clock.now + CYCLES_PER_FRAME - overshoot) as usize;
                let scheduled = ConsoleState {
                    clock: start.clock.schedule_at(EventType::FrameComplete, end_time),
                    ..start
                };
                match spec_frame(scheduled, CYCLES_PER_FRAME as nat) {
                    Ok(c) => r == Ok::<usize, CpuError>((c.clock.now - start.clock.now) as usize)
                        && final(self).state() == c,
                    Err(e) => r == Err::<usize, CpuError>(e),
                }
            }),
    {
        let start_time = self.scheduler.timestamp();
        let end_time = start_time + CYCLES_PER_FRAME - overshoot;
        self.scheduler.schedule_at(EventType::FrameComplete, end_time);
        let ghost scheduled = self.state();
        let mut steps: usize = 0;
        let mut finished = false;
        while steps < CYCLES_PER_FRAME && !finished
            invariant
                self.wf(),
                start_time == old(self).state().clock.now,
                start_time <= self.state().clock.now <= start_time + 44 * steps,
                steps <= CYCLES_PER_FRAME,
                old(self).state().clock.now + 50 * CYCLES_PER_FRAME <= usize::MAX,
                scheduled == (ConsoleState {
                    clock: old(self).state().clock.schedule_at(EventType::FrameComplete, end_time),
                    ..old(self).state()
                }),
                end_time == start_time + CYCLES_PER_FRAME - overshoot,
                spec_frame(scheduled, CYCLES_PER_FRAME as nat) == (if finished {
                    Ok::<ConsoleState, CpuError>(self.state())
                } else {
                    spec_frame(self.state(), (CYCLES_PER_FRAME - steps) as nat)
                }),
            decreases CYCLES_PER_FRAME - steps,
        {
            let ghost before = self.state();
            let stepped = self.cycle();
            match stepped {
                Err(e) => {
                    assert(spec_frame(before, (CYCLES_PER_FRAME - steps) as nat) == Err::<ConsoleState, CpuError>(e));
                    return Err(e);
                },
                Ok(_) => {},
            }
            steps = steps + 1;
            let done = self.handle_events();
            assert(spec_frame(before, (CYCLES_PER_FRAME - steps + 1) as nat) == (if done {
                Ok::<ConsoleState, CpuError>(self.state())
            } else {
                spec_frame(self.state(), (CYCLES_PER_FRAME - steps) as nat)
            }));
            finished = done;
        }
        Ok(self.scheduler.timestamp() - start_time)
    }
}

} // verus!
