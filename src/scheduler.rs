use vstd::multiset::Multiset;
use vstd::prelude::*;

verus! {

/// The phases of the display's scan cycle.
#[derive(Debug, Clone, Copy, PartialEq, Eq, Structural)]
pub enum PpuEvent {
    HBlank,
    VBlank,
    OamScan,
    DrawingPixels,
}

/// The sound unit's recurring work: frame sequencing, channel timers, output.
#[derive(Debug, Clone, Copy, PartialEq, Eq, Structural)]
pub enum ApuEvent {
    LengthTimer,
    Sweep,
    VolumeEnvelope,
    Channel1,
    Channel2,
    Channel3,
    Channel4,
    Sample,
}

/// The timer's overflow events.
#[derive(Debug, Clone, Copy, PartialEq, Eq, Structural)]
pub enum TimerEvent {
    DivOverflow,
    TimaOverflow,
}

/// The kind of a scheduled event, naming the collaborator that owns it.
#[derive(Debug, Clone, Copy, PartialEq, Eq, Structural)]
pub enum EventType {
    FrameComplete,
    Timer(TimerEvent),
    Ppu(PpuEvent),
    Apu(ApuEvent),
}

/// An event kind due at an absolute cycle count.
#[derive(Debug, Clone, Copy, PartialEq, Eq, Structural)]
pub struct Event {
    pub event_type: EventType,
    pub time: usize,
}

impl Event {
    pub fn new(event_type: EventType, time: usize) -> (r: Event)
        ensures
            r == (Event { event_type, time }),
    {
        Event { event_type, time }
    }

    pub fn event_type(&self) -> (r: EventType)
        ensures
            r == self.event_type,
    {
        self.event_type
    }

    pub fn time(&self) -> (r: usize)
        ensures
            r == self.time,
    {
        self.time
    }
}

/// The clock and the pending events, in the order they were scheduled.
pub struct SchedulerState {
    pub now: usize,
    pub queue: Seq<Event>,
}

/// The index of the event served next: the earliest time, and among events of
/// equal time the one scheduled first.
pub open spec fn first_min(q: Seq<Event>) -> int
    decreases q.len(),
{
    if q.len() <= 1 {
        0
    } else {
        let m = first_min(q.drop_last());
        if q.last().time < q[m].time {
            q.len() - 1
        } else {
            m
        }
    }
}

/// `i` holds an earliest event, and every event before it is strictly later.
pub open spec fn is_next(q: Seq<Event>, i: int) -> bool {
    &&& 0 <= i < q.len()
    &&& forall|j: int| 0 <= j < q.len() ==> q[i].time <= #[trigger] q[j].time
    &&& forall|j: int| 0 <= j < i ==> #[trigger] q[j].time > q[i].time
}

/// The event served next is an earliest one, and the first of those scheduled.
pub proof fn lemma_first_min(q: Seq<Event>)
    requires
        q.len() > 0,
    ensures
        is_next(q, first_min(q)),
    decreases q.len(),
{
    if q.len() > 1 {
        let p = q.drop_last();
        lemma_first_min(p);
        let m = first_min(p);
        assert(forall|j: int| 0 <= j < p.len() ==> p[j] == q[j]);
        if q.last().time < q[m].time {
            assert forall|j: int| 0 <= j < q.len() - 1 implies #[trigger] q[j].time > q.last().time by {
                assert(p[j].time >= p[m].time);
            }
        } else {
            assert forall|j: int| 0 <= j < q.len() implies q[m].time <= #[trigger] q[j].time by {
                if j < q.len() - 1 {
                    assert(p[m].time <= p[j].time);
                }
            }
            assert forall|j: int| 0 <= j < m implies #[trigger] q[j].time > q[m].time by {
                assert(p[j].time > p[m].time);
            }
        }
    }
}

impl SchedulerState {
    /// Whether an event is due: the next one's time has been reached.
    pub open spec fn has_due(self) -> bool {
        self.queue.len() > 0 && self.queue[first_min(self.queue)].time <= self.now
    }

    /// The state after `pop_due`, and the event it hands out.
    pub open spec fn pop_due(self) -> (Option<Event>, SchedulerState) {
        if self.has_due() {
            let i = first_min(self.queue);
            (Some(self.queue[i]), SchedulerState { queue: self.queue.remove(i), ..self })
        } else {
            (None, self)
        }
    }

    pub open spec fn schedule_at(self, event_type: EventType, time: usize) -> SchedulerState {
        SchedulerState { queue: self.queue.push(Event { event_type, time }), ..self }
    }

    pub open spec fn schedule(self, event_type: EventType, delay: usize) -> SchedulerState {
        self.schedule_at(event_type, (self.now + delay) as usize)
    }

    pub open spec fn advance(self, cycles: usize) -> SchedulerState {
        SchedulerState { now: (self.now + cycles) as usize, ..self }
    }

    pub open spec fn cancel(self, event_type: EventType) -> SchedulerState {
        SchedulerState { queue: self.queue.filter(|e: Event| e.event_type != event_type), ..self }
    }
}

/// Serving every due event in turn: the events handed out, in order, and the
/// state left behind.
pub open spec fn drain_due(s: SchedulerState) -> (Seq<Event>, SchedulerState)
    decreases s.queue.len(),
    via drain_due_decreases
{
    if s.has_due() {
        let (e, t) = s.pop_due();
        let (rest, u) = drain_due(t);
        (seq![e.unwrap()] + rest, u)
    } else {
        (Seq::empty(), s)
    }
}

#[via_fn]
proof fn drain_due_decreases(s: SchedulerState) {
    if s.has_due() {
        lemma_first_min(s.queue);
    }
}

/// Serving the due events hands out and leaves behind exactly the events that
/// were pending; every event handed out was due, every event left is later
/// than the clock, and the clock does not move.
pub proof fn lemma_drain_due(s: SchedulerState)
    ensures
        drain_due(s).0.to_multiset().add(drain_due(s).1.queue.to_multiset()) =~= s.queue.to_multiset(),
        drain_due(s).1.now == s.now,
        forall|i: int| 0 <= i < drain_due(s).0.len() ==> #[trigger] drain_due(s).0[i].time <= s.now,
        forall|i: int|
            0 <= i < drain_due(s).1.queue.len() ==> #[trigger] drain_due(s).1.queue[i].time > s.now,
    decreases s.queue.len(),
{
    broadcast use vstd::multiset::group_multiset_axioms;

    let q = s.queue;
    if s.has_due() {
        lemma_first_min(q);
        let i = first_min(q);
        let (e, t) = s.pop_due();
        lemma_drain_due(t);
        let (rest, u) = drain_due(t);
        vstd::seq_lib::to_multiset_remove(q, i);
        vstd::seq_lib::lemma_multiset_commutative(seq![q[i]], rest);
        assert(seq![q[i]].to_multiset() =~= Multiset::empty().insert(q[i])) by {
            vstd::seq_lib::to_multiset_build(Seq::<Event>::empty(), q[i]);
            assert(Seq::<Event>::empty().push(q[i]) =~= seq![q[i]]);
            assert(Seq::<Event>::empty().to_multiset() =~= Multiset::empty()) by {
                vstd::seq_lib::to_multiset_len(Seq::<Event>::empty());
            }
        }
        assert(q.contains(q[i]));
        vstd::seq_lib::to_multiset_contains(q, q[i]);
        let p = seq![q[i]] + rest;
        assert(e == Some(q[i]));
        assert(drain_due(s) == (p, u));
        assert(t.queue.to_multiset() =~= q.to_multiset().remove(q[i]));
        assert(rest.to_multiset().add(u.queue.to_multiset()) =~= q.to_multiset().remove(q[i]));
        assert(p.to_multiset() =~= Multiset::empty().insert(q[i]).add(rest.to_multiset()));
        assert(q.to_multiset().count(q[i]) > 0);
        assert(p.to_multiset().add(u.queue.to_multiset()) =~= Multiset::empty().insert(q[i]).add(
            q.to_multiset().remove(q[i]),
        ));
        assert forall|j: int| 0 <= j < p.len() implies #[trigger] p[j].time <= s.now by {
            if j > 0 {
                assert(p[j] == rest[j - 1]);
            }
        }
    } else {
        assert(Seq::<Event>::empty().to_multiset() =~= Multiset::empty()) by {
            vstd::seq_lib::to_multiset_len(Seq::<Event>::empty());
        }
        if q.len() > 0 {
            lemma_first_min(q);
        }
    }
}

/// Scheduling kind `k` at delay `d` when the clock reads `T`, then advancing the
/// clock by `d`, leaves exactly one pending event of kind `k`, due at `T + d`.
/// Serving the due events hands it out exactly once, hands out no other event
/// of kind `k`, and leaves no event of kind `k` pending.
pub proof fn lemma_schedule_round_trip(s: SchedulerState, k: EventType, d: usize)
    requires
        s.now + d <= usize::MAX,
        forall|i: int| 0 <= i < s.queue.len() ==> #[trigger] s.queue[i].event_type != k,
    ensures
        ({
            let t = s.schedule(k, d).advance(d);
            let e = Event { event_type: k, time: (s.now + d) as usize };
            &&& t.now == s.now + d
            &&& t.has_due()
            &&& t.queue.to_multiset().count(e) == 1
            &&& forall|i: int|
                0 <= i < t.queue.len() && #[trigger] t.queue[i].event_type == k ==> t.queue[i] == e
            &&& drain_due(t).0.to_multiset().count(e) == 1
            &&& forall|i: int|
                0 <= i < drain_due(t).0.len() && #[trigger] drain_due(t).0[i].event_type == k
                    ==> drain_due(t).0[i] == e
            &&& forall|i: int|
                0 <= i < drain_due(t).1.queue.len() ==> #[trigger] drain_due(t).1.queue[i].event_type != k
        }),
{
    broadcast use vstd::multiset::group_multiset_axioms;

    let t = s.schedule(k, d).advance(d);
    let e = Event { event_type: k, time: (s.now + d) as usize };
    let q = t.queue;
    assert(q == s.queue.push(e));
    lemma_first_min(q);
    assert(q[q.len() - 1] == e);
    assert(t.has_due());
    vstd::seq_lib::to_multiset_build(s.queue, e);
    assert forall|i: int| 0 <= i < s.queue.len() implies s.queue[i] != e by {
        assert(s.queue[i].event_type != k);
    }
    assert(!s.queue.contains(e));
    vstd::seq_lib::to_multiset_contains(s.queue, e);
    lemma_drain_due(t);
    let (p, u) = drain_due(t);
    assert(!u.queue.contains(e));
    vstd::seq_lib::to_multiset_contains(u.queue, e);
    assert forall|i: int| 0 <= i < p.len() && #[trigger] p[i].event_type == k implies p[i] == e by {
        assert(p.contains(p[i]));
        vstd::seq_lib::to_multiset_contains(p, p[i]);
        vstd::seq_lib::to_multiset_contains(q, p[i]);
        let j = choose|j: int| 0 <= j < q.len() && q[j] == p[i];
        if j < q.len() - 1 {
            assert(q[j] == s.queue[j]);
        }
    }
    assert forall|i: int| 0 <= i < u.queue.len() implies #[trigger] u.queue[i].event_type != k by {
        assert(u.queue.contains(u.queue[i]));
        vstd::seq_lib::to_multiset_contains(u.queue, u.queue[i]);
        vstd::seq_lib::to_multiset_contains(q, u.queue[i]);
        let j = choose|j: int| 0 <= j < q.len() && q[j] == u.queue[i];
        if j < q.len() - 1 {
            assert(q[j] == s.queue[j]);
        }
    }
    assert(s.queue.to_multiset().count(e) == 0);
    assert(q.to_multiset().count(e) == 1);
    assert(u.queue.to_multiset().count(e) == 0);
    assert(p.to_multiset().count(e) == 1);
    assert(forall|i: int|
        0 <= i < q.len() && #[trigger] q[i].event_type == k ==> q[i] == e);
}

/// A time-ordered queue of future hardware events keyed by absolute cycle count.
pub struct Scheduler {
    now: usize,
    events: Vec<Event>,
}

impl View for Scheduler {
    type V = SchedulerState;

    closed spec fn view(&self) -> SchedulerState {
        SchedulerState { now: self.now, queue: self.events@ }
    }
}

impl Scheduler {
    /// An empty queue at time zero.
    pub fn new() -> (r: Scheduler)
        ensures
            r@.now == 0,
            r@.queue.len() == 0,
    {
        Scheduler { now: 0, events: Vec::new() }
    }

    /// The current cycle count.
    pub fn timestamp(&self) -> (r: usize)
        ensures
            r == self@.now,
    {
        self.now
    }

    /// The number of pending events.
    pub fn len(&self) -> (r: usize)
        ensures
            r == self@.queue.len(),
    {
        self.events.len()
    }

    /// Enqueues `event_type` at the absolute time `time`.
    pub fn schedule_at(&mut self, event_type: EventType, time: usize)
        ensures
            final(self)@ == old(self)@.schedule_at(event_type, time),
    {
        self.events.push(Event::new(event_type, time));
    }

    /// Enqueues `event_type` at `now + delay`.
    pub fn schedule(&mut self, event_type: EventType, delay: usize)
        requires
            old(self)@.now + delay <= usize::MAX,
        ensures
            final(self)@ == old(self)@.schedule(event_type, delay),
    {
        let time = self.now + delay;
        self.schedule_at(event_type, time);
    }

    /// Moves the clock forward by `cycles`.
    pub fn advance(&mut self, cycles: usize)
        requires
            old(self)@.now + cycles <= usize::MAX,
        ensures
            final(self)@ == old(self)@.advance(cycles),
    {
        self.now = self.now + cycles;
    }

    fn next_index(&self) -> (r: usize)
        requires
            self@.queue.len() > 0,
        ensures
            r == first_min(self@.queue),
    {
        let q = Ghost(self.events@);
        let mut m: usize = 0;
        let mut i: usize = 1;
        assert(q@.subrange(0, 1).len() == 1);
        while i < self.events.len()
            invariant
                q@ == self.events@,
                1 <= i <= q@.len(),
                m < i,
                m == first_min(q@.subrange(0, i as int)),
            decreases q@.len() - i,
        {
            assert(q@.subrange(0, i as int + 1).drop_last() =~= q@.subrange(0, i as int));
            if self.events[i].time < self.events[m].time {
                m = i;
            }
            i = i + 1;
        }
        assert(q@.subrange(0, q@.len() as int) =~= q@);
        m
    }

    /// The time of the event served next, if any.
    pub fn timestamp_of_next_event(&self) -> (r: Option<usize>)
        ensures
            r == (if self@.queue.len() > 0 {
                Some(self@.queue[first_min(self@.queue)].time)
            } else {
                None::<usize>
            }),
    {
        if self.events.len() == 0 {
            None
        } else {
            let i = self.next_index();
            proof {
                lemma_first_min(self@.queue);
            }
            Some(self.events[i].time)
        }
    }

    /// Removes and returns the earliest event once the clock has reached it;
    /// `None` when the queue is empty or the earliest event lies ahead.
    pub fn pop_due(&mut self) -> (r: Option<Event>)
        ensures
            (r, final(self)@) == old(self)@.pop_due(),
    {
        if self.events.len() == 0 {
            return None;
        }
        let i = self.next_index();
        proof {
            lemma_first_min(self@.queue);
        }
        if self.events[i].time <= self.now {
            let event = self.events.remove(i);
            Some(event)
        } else {
            None
        }
    }

    /// Removes every pending event of the given kind.
    pub fn cancel(&mut self, event_type: EventType)
        ensures
            final(self)@ == old(self)@.cancel(event_type),
    {
        let ghost pred = |e: Event| e.event_type != event_type;
        let mut kept: Vec<Event> = Vec::new();
        let mut i: usize = 0;
        while i < self.events.len()
            invariant
                0 <= i <= self.events@.len(),
                self.events@ == old(self).events@,
                self.now == old(self).now,
                pred == (|e: Event| e.event_type != event_type),
                kept@ == self.events@.subrange(0, i as int).filter(pred),
            decreases self.events@.len() - i,
        {
            proof {
                let s = self.events@.subrange(0, i as int + 1);
                assert(s.drop_last() =~= self.events@.subrange(0, i as int));
                reveal(Seq::filter);
            }
            if self.events[i].event_type != event_type {
                kept.push(self.events[i]);
            }
            i = i + 1;
        }
        proof {
            assert(self.events@.subrange(0, self.events@.len() as int) =~= self.events@);
        }
        self.events = kept;
    }
}

} // verus!
