//! Events: markers recorded at a point in a stream's execution, used for
//! cross-stream ordering and for timing, plus the stream benchmark helper.

use vstd::prelude::*;

verus! {

use crate::context::CurrentCtx;
use crate::driver::{tick, Driver, DriverView, EventRecord};
use crate::stream::Stream;
use crate::TimeSpan;

/// An event bound to the context that created it.
#[derive(PartialEq, Eq, Structural, Hash, Debug)]
pub struct Event {
    pub raw: usize,
    pub ctx: usize,
}

/// The detached form of [`Event`].
#[derive(PartialEq, Eq, Structural, Hash, Debug)]
pub struct EventSpore {
    pub raw: usize,
    pub ctx: usize,
}

impl DriverView {
    /// The state after recording a fresh event under context `ctx`: the
    /// event captures the clock, and the clock moves on.
    pub open spec fn event_recorded(self, ctx: usize) -> DriverView {
        DriverView {
            events: self.events.push(EventRecord { ctx, alive: true, time: self.clock }),
            clock: tick(self.clock),
            ..self
        }
    }

    /// The state after destroying event `h`.
    pub open spec fn event_destroyed(self, h: usize) -> DriverView {
        DriverView {
            events: self.events.update(
                h as int,
                EventRecord { alive: false, ..self.events[h as int] },
            ),
            ..self
        }
    }
}

impl Event {
    /// The handle matches a live event record of the stated context.
    pub open spec fn ok(self, v: DriverView) -> bool {
        &&& v.event_alive(self.raw)
        &&& v.events[self.raw as int].ctx == self.ctx
    }

    /// The clock value the event was recorded at.
    pub open spec fn time_of(self, v: DriverView) -> u64 {
        v.events[self.raw as int].time
    }

    /// The detached form of this handle.
    pub open spec fn detached(self) -> EventSpore {
        EventSpore { raw: self.raw, ctx: self.ctx }
    }
}

impl EventSpore {
    /// The handle a reattachment of this spore yields.
    pub open spec fn attached(self) -> Event {
        Event { raw: self.raw, ctx: self.ctx }
    }
}

impl Stream {
    /// Creates an event and records it at the stream's current position.
    pub fn record(&self, m: &mut Driver) -> (e: Event)
        requires
            old(m)@.wf(),
            self.ok(old(m)@),
            old(m)@.current() == Some(self.ctx),
        ensures
            e == (Event { raw: old(m)@.events.len() as usize, ctx: self.ctx }),
            final(m)@ == old(m)@.event_recorded(self.ctx),
            e.ok(final(m)@),
            e.time_of(final(m)@) == old(m)@.clock,
            final(m)@.wf(),
    {
        let h = m.events.len();
        let t = m.clock;
        m.events.push(EventRecord { ctx: self.ctx, alive: true, time: t });
        m.tick_clock();
        proof {
            assert(final(m)@ =~~= old(m)@.event_recorded(self.ctx));
            old(m)@.lemma_wf_same_core(final(m)@);
        }
        Event { raw: h, ctx: self.ctx }
    }

    /// Enqueues a dependency: work submitted to this stream after the call
    /// does not start until `event` has been reached.  In the driver's eager
    /// image of stream execution this only moves the clock.
    pub fn wait_for(&self, m: &mut Driver, event: &Event)
        requires
            old(m)@.wf(),
            self.ok(old(m)@),
            event.ok(old(m)@),
            old(m)@.current() == Some(self.ctx),
        ensures
            final(m)@ == (DriverView { clock: tick(old(m)@.clock), ..old(m)@ }),
            final(m)@.wf(),
    {
        m.tick_clock();
        proof {
            old(m)@.lemma_wf_same_core(final(m)@);
        }
    }
}

impl Event {
    /// Blocks the calling thread until the recording point has been reached.
    /// Observably, only the driver clock moves.
    pub fn synchronize(&self, m: &mut Driver)
        requires
            old(m)@.wf(),
            self.ok(old(m)@),
            old(m)@.current() == Some(self.ctx),
        ensures
            final(m)@ == (DriverView { clock: tick(old(m)@.clock), ..old(m)@ }),
            self.ok(final(m)@),
            final(m)@.wf(),
    {
        m.tick_clock();
        proof {
            old(m)@.lemma_wf_same_core(final(m)@);
        }
    }

    /// The time elapsed between two recorded events.  Asking for a negative
    /// span (an end recorded before its start) is a fatal driver error, so
    /// it is excluded here.
    pub fn elapse_from(&self, start: &Event, m: &Driver) -> (r: TimeSpan)
        requires
            m@.wf(),
            self.ok(m@),
            start.ok(m@),
            start.time_of(m@) <= self.time_of(m@),
        ensures
            r.nanos == self.time_of(m@) - start.time_of(m@),
    {
        let e = m.events[self.raw].time;
        let s = m.events[start.raw].time;
        TimeSpan { nanos: e - s }
    }

    /// Destroys the event; consumes the handle.
    pub fn destroy(self, m: &mut Driver)
        requires
            old(m)@.wf(),
            self.ok(old(m)@),
            old(m)@.current() == Some(self.ctx),
        ensures
            final(m)@ == old(m)@.event_destroyed(self.raw),
            final(m)@.wf(),
    {
        let rec = m.events[self.raw];
        m.events[self.raw] = EventRecord { alive: false, ..rec };
        proof {
            assert(final(m)@ =~~= old(m)@.event_destroyed(self.raw));
            old(m)@.lemma_wf_same_core(final(m)@);
        }
    }

    /// Detaches the handle from its context for storage or transport.
    pub fn sporulate(self) -> (r: EventSpore)
        ensures
            r == self.detached(),
    {
        EventSpore { raw: self.raw, ctx: self.ctx }
    }
}

impl EventSpore {
    /// Reattaches the spore under a current context, which must be the very
    /// context the event was created under.
    pub fn wrap(self, ctx: &CurrentCtx) -> (r: Event)
        requires
            self.ctx == ctx.raw,
        ensures
            r == self.attached(),
    {
        Event { raw: self.raw, ctx: self.ctx }
    }
}

/// What one call of a benchmarked closure must preserve of the driver state:
/// well-formedness, the active context, the monotone clock, the stream under
/// measurement, and every event already recorded.
pub open spec fn bench_step_ok(s: Stream, a: DriverView, b: DriverView) -> bool {
    &&& b.wf()
    &&& b.current() == a.current()
    &&& b.clock >= a.clock
    &&& (s.ok(a) ==> s.ok(b))
    &&& a.events.len() <= b.events.len()
    &&& forall|j: int| 0 <= j < a.events.len() ==> b.events[j] == a.events[j]
}

/// `n` successive calls of `f`, at indices `i, i+1, ...`, turn a state whose
/// image is `v0` into one whose image is `v1`.
pub open spec fn runs<F: Fn(usize, Driver) -> Driver>(
    f: F,
    i: int,
    n: nat,
    v0: DriverView,
    v1: DriverView,
) -> bool
    decreases n,
{
    if n == 0 {
        v1 == v0
    } else {
        exists|ma: Driver, mb: Driver|
            ma@ == v0 && #[trigger] call_ensures(f, (((i) as usize), ma), mb) && runs(
                f,
                i + 1,
                (n - 1) as nat,
                mb@,
                v1,
            )
    }
}

/// Extends a call chain by one more call at its end.
pub proof fn lemma_runs_snoc<F: Fn(usize, Driver) -> Driver>(
    f: F,
    i: int,
    n: nat,
    v0: DriverView,
    ma: Driver,
    mb: Driver,
)
    requires
        runs(f, i, n, v0, ma@),
        call_ensures(f, (((i + n) as usize), ma), mb),
        0 <= i,
        i + n <= usize::MAX,
    ensures
        runs(f, i, (n + 1) as nat, v0, mb@),
    decreases n,
{
    if n == 0 {
        assert(ma@ == v0);
        assert(runs(f, i + 1, 0, mb@, mb@));
        assert(ma@ == v0 && call_ensures(f, (((i) as usize), ma), mb) && runs(
            f,
            i + 1,
            0,
            mb@,
            mb@,
        ));
    } else {
        let (m1, m2): (Driver, Driver) = choose|m1: Driver, m2: Driver|
            m1@ == v0 && #[trigger] call_ensures(f, (((i) as usize), m1), m2) && runs(
                f,
                i + 1,
                (n - 1) as nat,
                m2@,
                ma@,
            );
        lemma_runs_snoc(f, i + 1, (n - 1) as nat, m2@, ma, mb);
        assert(m1@ == v0 && call_ensures(f, (((i) as usize), m1), m2) && runs(
            f,
            i + 1,
            n,
            m2@,
            mb@,
        ));
    }
}

/// Along any call chain whose steps satisfy [`bench_step_ok`], the state
/// stays well-formed, the active context and recorded events are preserved,
/// and the clock never runs backwards.
pub proof fn lemma_runs_props<F: Fn(usize, Driver) -> Driver>(
    s: Stream,
    f: F,
    i: int,
    n: nat,
    v0: DriverView,
    v1: DriverView,
)
    requires
        runs(f, i, n, v0, v1),
        forall|j: usize, ma: Driver, mb: Driver|
            #[trigger] call_ensures(f, ((j), ma), mb) ==> bench_step_ok(s, ma@, mb@),
    ensures
        v0.wf() ==> v1.wf(),
        v1.current() == v0.current(),
        v1.clock >= v0.clock,
        s.ok(v0) ==> s.ok(v1),
        v0.events.len() <= v1.events.len(),
        forall|j: int| 0 <= j < v0.events.len() ==> v1.events[j] == v0.events[j],
    decreases n,
{
    if n == 0 {
    } else {
        let (m1, m2): (Driver, Driver) = choose|m1: Driver, m2: Driver|
            m1@ == v0 && #[trigger] call_ensures(f, (((i) as usize), m1), m2) && runs(
                f,
                i + 1,
                (n - 1) as nat,
                m2@,
                v1,
            );
        assert(bench_step_ok(s, v0, m2@));
        lemma_runs_props(s, f, i + 1, (n - 1) as nat, m2@, v1);
    }
}

impl Stream {
    /// Runs `f` `warm_up` times to absorb first-call costs, then records a
    /// start event, runs `f` `times` more, records an end event, waits for
    /// it, and returns the elapsed time divided by `times`: the steady-state
    /// per-iteration latency.  `f` is called exactly `warm_up + times` times,
    /// at indices `0..warm_up` and then `0..times`, and the result is the
    /// span between the two recordings, never negative.  The two events are
    /// the benchmark's own and are destroyed before it returns.  `f` must
    /// accept any well-formed driver state in which this stream's context is
    /// current, and each of its calls must preserve that shape of state
    /// ([`bench_step_ok`]).
    #[verifier::loop_isolation(false)]
    pub fn bench<F: Fn(usize, Driver) -> Driver>(
        &self,
        m: &mut Driver,
        f: F,
        times: usize,
        warm_up: usize,
    ) -> (r: TimeSpan)
        requires
            old(m)@.wf(),
            self.ok(old(m)@),
            old(m)@.current() == Some(self.ctx),
            times >= 1,
            forall|i: usize, ma: Driver|
                (i < times || i < warm_up) && ma@.wf() && ma@.current() == Some(self.ctx)
                    && self.ok(ma@) ==> #[trigger] call_requires(f, ((i), (ma))),
            forall|i: usize, ma: Driver, mb: Driver|
                #[trigger] call_ensures(f, ((i), ma), mb) ==> bench_step_ok(*self, ma@, mb@),
        ensures
            exists|vw: DriverView, vr: DriverView|
                #![trigger runs(f, 0, warm_up as nat, old(m)@, vw), runs(f, 0, times as nat, vw.event_recorded(self.ctx), vr)]
                {
                    let started = vw.event_recorded(self.ctx);
                    let ended = vr.event_recorded(self.ctx);
                    let synced = DriverView { clock: tick(ended.clock), ..ended };
                    &&& runs(f, 0, warm_up as nat, old(m)@, vw)
                    &&& runs(f, 0, times as nat, started, vr)
                    &&& vw.clock <= vr.clock
                    &&& final(m)@ == synced.event_destroyed(vr.events.len() as usize)
                        .event_destroyed(vw.events.len() as usize)
                    &&& r.nanos == (vr.clock - vw.clock) / (times as int)
                },
            final(m)@.wf(),
    {
        let mut cur = crate::driver::Driver::empty();
        core::mem::swap(m, &mut cur);
        let ghost v_begin = cur@;

        let mut k: usize = 0;
        while k < warm_up
            invariant
                k <= warm_up,
                runs(f, 0, k as nat, v_begin, cur@),
                cur@.wf(),
                cur@.current() == Some(self.ctx),
                self.ok(cur@),
            decreases warm_up - k,
        {
            let ghost ma = cur;
            cur = f(k, cur);
            let ghost mb = cur;
            proof {
                lemma_runs_snoc(f, 0, k as nat, v_begin, ma, mb);
            }
            k = k + 1;
        }

        let ghost vw = cur@;
        let start_t = cur.clock;
        let nev_start = cur.events.len();
        let start = self.record(&mut cur);
        let ghost started = cur@;

        let mut k2: usize = 0;
        while k2 < times
            invariant
                k2 <= times,
                runs(f, 0, k2 as nat, started, cur@),
                cur@.wf(),
                cur@.current() == Some(self.ctx),
                self.ok(cur@),
            decreases times - k2,
        {
            let ghost ma = cur;
            cur = f(k2, cur);
            let ghost mb = cur;
            proof {
                lemma_runs_snoc(f, 0, k2 as nat, started, ma, mb);
            }
            k2 = k2 + 1;
        }

        let ghost vr = cur@;
        proof {
            lemma_runs_props(*self, f, 0, times as nat, started, vr);
            assert(vr.clock >= started.clock);
            assert(started.clock == tick(vw.clock));
            assert(vr.clock >= vw.clock);
            // the start event is still there, untouched, after the chain
            assert(started.events[start.raw as int] == (EventRecord {
                ctx: self.ctx,
                alive: true,
                time: vw.clock,
            }));
            assert(vr.events[start.raw as int] == started.events[start.raw as int]);
        }
        let end_t = cur.clock;
        let nev_end = cur.events.len();
        let end = self.record(&mut cur);
        end.synchronize(&mut cur);
        proof {
            assert(start.raw == nev_start && end.raw == nev_end);
            assert(started.events.len() == nev_start + 1);
            assert(vr.events.len() == nev_end as int);
            assert(nev_end as int >= nev_start + 1);
            assert(start.ok(cur@));
            assert(end.raw as int != start.raw as int);
        }
        end.destroy(&mut cur);
        proof {
            assert(start.ok(cur@));
        }
        start.destroy(&mut cur);
        *m = cur;

        let elapsed = end_t - start_t;
        let r = TimeSpan { nanos: elapsed / (times as u64) };
        proof {
            let startedx = vw.event_recorded(self.ctx);
            let ended = vr.event_recorded(self.ctx);
            let synced = DriverView { clock: tick(ended.clock), ..ended };
            assert(final(m)@ =~~= synced.event_destroyed(vr.events.len() as usize)
                .event_destroyed(vw.events.len() as usize));
            assert(start_t == vw.clock && end_t == vr.clock);
            assert(r.nanos == (vr.clock - vw.clock) / (times as int));
            assert(runs(f, 0, warm_up as nat, old(m)@, vw) && runs(f, 0, times as nat, startedx, vr));
        }
        r
    }
}

/// The spore round trip for events: detaching and reattaching under the same
/// context gives back the very handle.
pub proof fn lemma_event_spore_round_trip(e: Event, c: CurrentCtx, v: DriverView)
    requires
        e.ctx == c.raw,
    ensures
        e.detached().attached() == e,
        e.ok(v) ==> e.detached().attached().ok(v),
{
}

} // verus!
