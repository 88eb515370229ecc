//! Events on streams, and timing a piece of work with them.
use vstd::prelude::*;

use crate::call::{self, DriverCall};
use crate::context::CurrentCtx;
use crate::stream::Stream;

verus! {

/// An event created for a stream, in the stream's context.
#[derive(Debug, PartialEq, Eq, Structural)]
pub struct Event {
    ctx: usize,
    raw: usize,
}

/// An event held while its context is not current.
#[derive(Debug, PartialEq, Eq, Structural)]
pub struct EventSpore {
    res: Event,
}

impl Stream {
    /// The call that creates the event that [`Stream::record`] returns.
    pub fn record_call(&self) -> (r: DriverCall)
        ensures
            r == (DriverCall::EventCreate { flags: call::MU_STREAM_DEFAULT }),
    {
        DriverCall::EventCreate { flags: call::MU_STREAM_DEFAULT }
    }

    /// The event that [`Stream::record_call`] created, given the driver's
    /// reply: it belongs to the stream's context.
    pub closed spec fn record_spec(&self, created: usize) -> Event {
        Event { ctx: self.ctx_spec(), raw: created }
    }

    /// The event that [`Stream::record_call`] created, given the driver's
    /// reply: it belongs to the stream's context.
    pub fn record(&self, created: usize) -> (r: Event)
        ensures
            r == self.record_spec(created),
            r.ctx_spec() == self.ctx_spec(),
            r.raw_spec() == created,
    {
        let ctx = self.ctx();
        Event { ctx: ctx.as_raw(), raw: created }
    }

    /// The call that makes later work on this stream wait for `event`.
    pub fn wait_for(&self, event: &Event) -> (r: DriverCall)
        ensures
            r == (DriverCall::StreamWaitEvent {
                stream: self.raw_spec(),
                event: event.raw_spec(),
                flags: call::WAIT_EVENT_FLAGS,
            }),
    {
        DriverCall::StreamWaitEvent { stream: self.as_raw(), event: event.raw, flags: call::WAIT_EVENT_FLAGS }
    }

    /// Starts timing a piece of work on this stream: it is run `warm_up` times
    /// untimed, then `times` times between two events (see [`Bench`]).
    pub fn bench(&self, times: usize, warm_up: usize) -> (r: Bench)
        ensures
            r == Bench::new_spec(times, warm_up),
            r.wf(),
            r.times_spec() == times,
            r.warm_up_spec() == warm_up,
            r.position() == 0,
    {
        Bench { times, warm_up, phase: BenchPhase::WarmUp(0) }
    }
}

impl Event {
    /// The context the event was created in.
    pub closed spec fn ctx_spec(&self) -> usize {
        self.ctx
    }

    /// The driver handle of the event.
    pub closed spec fn raw_spec(&self) -> usize {
        self.raw
    }

    /// The context the event was created in.
    pub fn ctx(&self) -> (r: CurrentCtx)
        ensures
            r.raw_spec() == self.ctx_spec(),
    {
        CurrentCtx::from_raw(self.ctx)
    }

    /// The driver handle of the event.
    pub fn as_raw(&self) -> (r: usize)
        ensures
            r == self.raw_spec(),
    {
        self.raw
    }

    /// The call that waits until the event has happened.
    pub fn synchronize(&self) -> (r: DriverCall)
        ensures
            r == (DriverCall::EventSynchronize { event: self.raw_spec() }),
    {
        DriverCall::EventSynchronize { event: self.raw }
    }

    /// The call that measures the time from `start` to this event; the
    /// driver answers it in milliseconds.
    pub fn elapse_from(&self, start: &Event) -> (r: DriverCall)
        ensures
            r == (DriverCall::EventElapsedTime { start: start.raw_spec(), end: self.raw_spec() }),
    {
        DriverCall::EventElapsedTime { start: start.raw, end: self.raw }
    }

    /// The call that destroys the event when it is dropped.
    pub open spec fn release_spec(&self) -> DriverCall {
        DriverCall::EventDestroy { event: self.raw_spec() }
    }

    /// The call that destroys the event when it is dropped.
    pub fn release(&self) -> (r: DriverCall)
        ensures
            r == self.release_spec(),
    {
        DriverCall::EventDestroy { event: self.raw }
    }

    /// The spore that keeps this event.
    pub closed spec fn sporulate_spec(self) -> EventSpore {
        EventSpore { res: self }
    }

    /// Keeps the event while its context is switched out.
    pub fn sporulate(self) -> (r: EventSpore)
        ensures
            r == self.sporulate_spec(),
            r.ctx_spec() == self.ctx_spec(),
            r.raw_spec() == self.raw_spec(),
    {
        EventSpore { res: self }
    }
}

impl EventSpore {
    /// The event that this spore keeps.
    pub closed spec fn sprout_spec(self) -> Event {
        self.res
    }

    /// The context the spore's resource belongs to.
    pub fn ctx(&self) -> (r: CurrentCtx)
        ensures
            r.raw_spec() == self.ctx_spec(),
    {
        self.res.ctx()
    }

    /// The context the event was created in.
    pub closed spec fn ctx_spec(&self) -> usize {
        self.res.ctx_spec()
    }

    /// The driver handle of the event.
    pub closed spec fn raw_spec(&self) -> usize {
        self.res.raw_spec()
    }

    /// Turns the spore back into the event, on the context that created it.
    pub fn sprout(self, ctx: &CurrentCtx) -> (r: Event)
        requires
            ctx.raw_spec() == self.ctx_spec(),
        ensures
            r == self.sprout_spec(),
    {
        self.res
    }

    /// Lends the event, on the context that created it.
    pub fn sprout_ref<'a>(&'a self, ctx: &CurrentCtx) -> (r: &'a Event)
        requires
            ctx.raw_spec() == self.ctx_spec(),
        ensures
            *r == self.sprout_spec(),
    {
        &self.res
    }

    /// Lends the event for change, on the context that created it.
    pub fn sprout_mut<'a>(&'a mut self, ctx: &CurrentCtx) -> (r: &'a mut Event)
        requires
            ctx.raw_spec() == old(self).ctx_spec(),
        ensures
            *r == old(self).sprout_spec(),
            final(self).sprout_spec() == *final(r),
    {
        &mut self.res
    }
}

/// An event is destroyed as the very event the driver created, and it belongs
/// to the context of the stream it was recorded for; an event's spore turns
/// back into the same event.
pub proof fn law_event_release_and_spores(stream: Stream, created: usize, event: Event, spore: EventSpore)
    ensures
        stream.record_spec(created).release_spec() == (DriverCall::EventDestroy { event: created }),
        stream.record_spec(created).ctx_spec() == stream.ctx_spec(),
        event.sporulate_spec().sprout_spec() == event,
        spore.sprout_spec().sporulate_spec() == spore,
{
}

/// One thing to do while timing a piece of work on a stream.
#[derive(Clone, Copy, Debug, PartialEq, Eq, Structural)]
pub enum BenchAction {
    /// Run the work once, with this index.
    Run(usize),
    /// Record the start event on the stream.
    RecordStart,
    /// Record the end event on the stream.
    RecordEnd,
    /// Wait for the end event.
    SynchronizeEnd,
    /// Measure the time from the start event to the end event and divide it
    /// by this number of timed runs.
    Report(usize),
}

/// Where a [`Bench`] stands.
#[derive(Clone, Copy, Debug, PartialEq, Eq, Structural)]
pub enum BenchPhase {
    /// Untimed runs; this many have been asked for.
    WarmUp(usize),
    /// Timed runs, after the start event; this many have been asked for.
    Timed(usize),
    /// The end event has been recorded.
    Synchronize,
    /// The end event has happened.
    Report,
    /// Everything has been asked for.
    Done,
}

/// The timing of a piece of work on a stream, one action at a time.
///
/// In full, it asks for: the runs `0..warm_up`, the start event, the runs
/// `0..times`, the end event, a wait for the end event, and the report.
#[derive(Clone, Copy, Debug, PartialEq, Eq, Structural)]
pub struct Bench {
    times: usize,
    warm_up: usize,
    phase: BenchPhase,
}

/// Every action of a timing of `times` runs after `warm_up` untimed runs, in order.
pub open spec fn bench_schedule(times: usize, warm_up: usize) -> Seq<BenchAction> {
    Seq::new(warm_up as nat, |i: int| BenchAction::Run(i as usize)).push(BenchAction::RecordStart)
        + Seq::new(times as nat, |i: int| BenchAction::Run(i as usize)).push(BenchAction::RecordEnd)
        + seq![BenchAction::SynchronizeEnd, BenchAction::Report(times)]
}

impl Bench {
    /// The number of timed runs.
    pub closed spec fn times_spec(&self) -> usize {
        self.times
    }

    /// The number of untimed runs.
    pub closed spec fn warm_up_spec(&self) -> usize {
        self.warm_up
    }

    /// The counters stay within the runs asked for.
    pub closed spec fn wf(&self) -> bool {
        match self.phase {
            BenchPhase::WarmUp(i) => i <= self.warm_up,
            BenchPhase::Timed(i) => i <= self.times,
            _ => true,
        }
    }

    /// How many actions have been asked for so far.
    pub closed spec fn position(&self) -> int {
        match self.phase {
            BenchPhase::WarmUp(i) => i as int,
            BenchPhase::Timed(i) => self.warm_up + 1 + i,
            BenchPhase::Synchronize => self.warm_up + self.times + 2,
            BenchPhase::Report => self.warm_up + self.times + 3,
            BenchPhase::Done => self.warm_up + self.times + 4,
        }
    }

    /// The whole timing this bench carries out.
    pub open spec fn schedule(&self) -> Seq<BenchAction> {
        bench_schedule(self.times_spec(), self.warm_up_spec())
    }

    /// The bench and the action that come from one step of this bench.
    pub closed spec fn step_spec(self) -> (Bench, Option<BenchAction>) {
        match self.phase {
            BenchPhase::WarmUp(i) => if i < self.warm_up {
                (Bench { phase: BenchPhase::WarmUp((i + 1) as usize), ..self }, Some(BenchAction::Run(i)))
            } else {
                (Bench { phase: BenchPhase::Timed(0), ..self }, Some(BenchAction::RecordStart))
            },
            BenchPhase::Timed(i) => if i < self.times {
                (Bench { phase: BenchPhase::Timed((i + 1) as usize), ..self }, Some(BenchAction::Run(i)))
            } else {
                (Bench { phase: BenchPhase::Synchronize, ..self }, Some(BenchAction::RecordEnd))
            },
            BenchPhase::Synchronize => (
                Bench { phase: BenchPhase::Report, ..self },
                Some(BenchAction::SynchronizeEnd),
            ),
            BenchPhase::Report => (
                Bench { phase: BenchPhase::Done, ..self },
                Some(BenchAction::Report(self.times)),
            ),
            BenchPhase::Done => (self, None),
        }
    }

    /// The bench that [`Stream::bench`] starts.
    pub closed spec fn new_spec(times: usize, warm_up: usize) -> Bench {
        Bench { times, warm_up, phase: BenchPhase::WarmUp(0) }
    }

    /// One step asks for the action at the bench's position in its schedule
    /// and moves on by one; past the end it asks for nothing and stays.
    pub proof fn lemma_step(self)
        requires
            self.wf(),
        ensures
            self.step_spec().0.wf(),
            self.step_spec().0.times_spec() == self.times_spec(),
            self.step_spec().0.warm_up_spec() == self.warm_up_spec(),
            0 <= self.position() <= self.schedule().len(),
            self.position() < self.schedule().len() ==> {
                &&& self.step_spec().1 == Some(self.schedule()[self.position()])
                &&& self.step_spec().0.position() == self.position() + 1
            },
            self.position() >= self.schedule().len() ==> {
                &&& self.step_spec().1 == None::<BenchAction>
                &&& self.step_spec().0.position() == self.position()
            },
    {
        let w = self.warm_up as int;
        let t = self.times as int;
        let s = self.schedule();
        assert(s.len() == w + t + 4);
        match self.phase {
            BenchPhase::WarmUp(i) => {
                if i < self.warm_up {
                    assert(s[i as int] == BenchAction::Run(i));
                } else {
                    assert(s[w] == BenchAction::RecordStart);
                }
            },
            BenchPhase::Timed(i) => {
                if i < self.times {
                    assert(s[w + 1 + i] == BenchAction::Run(i));
                } else {
                    assert(s[w + 1 + t] == BenchAction::RecordEnd);
                }
            },
            BenchPhase::Synchronize => {
                assert(s[w + t + 2] == BenchAction::SynchronizeEnd);
            },
            BenchPhase::Report => {
                assert(s[w + t + 3] == BenchAction::Report(self.times));
            },
            BenchPhase::Done => {},
        }
    }

    /// The next action, or `None` once everything has been asked for.
    pub fn next(&mut self) -> (r: Option<BenchAction>)
        requires
            old(self).wf(),
        ensures
            (*final(self), r) == old(self).step_spec(),
            final(self).wf(),
            final(self).times_spec() == old(self).times_spec(),
            final(self).warm_up_spec() == old(self).warm_up_spec(),
            old(self).position() < old(self).schedule().len() ==> {
                &&& r == Some(old(self).schedule()[old(self).position()])
                &&& final(self).position() == old(self).position() + 1
            },
            old(self).position() >= old(self).schedule().len() ==> {
                &&& r == None::<BenchAction>
                &&& final(self).position() == old(self).position()
            },
    {
        proof {
            self.lemma_step();
        }
        match self.phase {
            BenchPhase::WarmUp(i) => {
                if i < self.warm_up {
                    self.phase = BenchPhase::WarmUp(i + 1);
                    Some(BenchAction::Run(i))
                } else {
                    self.phase = BenchPhase::Timed(0);
                    Some(BenchAction::RecordStart)
                }
            },
            BenchPhase::Timed(i) => {
                if i < self.times {
                    self.phase = BenchPhase::Timed(i + 1);
                    Some(BenchAction::Run(i))
                } else {
                    self.phase = BenchPhase::Synchronize;
                    Some(BenchAction::RecordEnd)
                }
            },
            BenchPhase::Synchronize => {
                self.phase = BenchPhase::Report;
                Some(BenchAction::SynchronizeEnd)
            },
            BenchPhase::Report => {
                self.phase = BenchPhase::Done;
                Some(BenchAction::Report(self.times))
            },
            BenchPhase::Done => None,
        }
    }
}

/// The actions that `k` steps of `b` ask for, in order.
pub open spec fn bench_run(b: Bench, k: nat) -> Seq<Option<BenchAction>>
    decreases k,
{
    if k == 0 {
        Seq::empty()
    } else {
        seq![b.step_spec().1] + bench_run(b.step_spec().0, (k - 1) as nat)
    }
}

/// From any position, `k` steps ask for the schedule's actions from that
/// position on, and nothing once the schedule is exhausted.
proof fn lemma_bench_run_from(b: Bench, k: nat)
    requires
        b.wf(),
    ensures
        bench_run(b, k).len() == k,
        forall|j: int|
            0 <= j < k ==> #[trigger] bench_run(b, k)[j] == (if b.position() + j < b.schedule().len() {
                Some(b.schedule()[b.position() + j])
            } else {
                None::<BenchAction>
            }),
    decreases k,
{
    if k > 0 {
        b.lemma_step();
        let next = b.step_spec().0;
        lemma_bench_run_from(next, (k - 1) as nat);
        assert forall|j: int| 0 <= j < k implies #[trigger] bench_run(b, k)[j] == (if b.position() + j
            < b.schedule().len() {
            Some(b.schedule()[b.position() + j])
        } else {
            None::<BenchAction>
        }) by {
            if j > 0 {
                assert(bench_run(b, k)[j] == bench_run(next, (k - 1) as nat)[j - 1]);
            }
        }
    }
}

/// Timing a piece of work asks for exactly its schedule: stepping the bench
/// that [`Stream::bench`] starts yields, one per step, the runs `0..warm_up`,
/// the start event, the runs `0..times`, the end event, the wait for it and
/// the report; every step after that yields nothing.
pub proof fn law_bench_follows_schedule(times: usize, warm_up: usize, k: nat)
    ensures
        bench_run(Bench::new_spec(times, warm_up), k).len() == k,
        forall|j: int|
            0 <= j < k ==> #[trigger] bench_run(Bench::new_spec(times, warm_up), k)[j] == (if j
                < bench_schedule(times, warm_up).len() {
                Some(bench_schedule(times, warm_up)[j])
            } else {
                None::<BenchAction>
            }),
{
    let b = Bench::new_spec(times, warm_up);
    assert(b.wf() && b.position() == 0);
    lemma_bench_run_from(b, k);
}

} // verus!
