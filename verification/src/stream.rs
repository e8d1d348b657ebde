//! Command streams: ordered queues of device work.

use vstd::prelude::*;

verus! {

use crate::context::CurrentCtx;
use crate::driver::{tick, Driver, DriverView, StreamRecord};

/// A command stream bound to the context that created it.  Work enqueued on
/// one stream executes in submission order.
#[derive(PartialEq, Eq, Structural, Hash, Debug)]
pub struct Stream {
    pub raw: usize,
    pub ctx: usize,
}

/// The detached form of [`Stream`]: the same identity without the context
/// proof, unusable until reattached with [`StreamSpore::wrap`].
#[derive(PartialEq, Eq, Structural, Hash, Debug)]
pub struct StreamSpore {
    pub raw: usize,
    pub ctx: usize,
}

impl DriverView {
    /// The state after creating a stream under context `ctx`.
    pub open spec fn stream_created(self, ctx: usize) -> DriverView {
        DriverView { streams: self.streams.push(StreamRecord { ctx, alive: true }), ..self }
    }

    /// The state after destroying stream `h` (the destroy itself first
    /// synchronizes, so the clock moves too).
    pub open spec fn stream_destroyed(self, h: usize) -> DriverView {
        DriverView {
            streams: self.streams.update(
                h as int,
                StreamRecord { alive: false, ..self.streams[h as int] },
            ),
            clock: tick(self.clock),
            ..self
        }
    }
}

impl Stream {
    /// The handle matches a live stream record of the stated context.
    pub open spec fn ok(self, v: DriverView) -> bool {
        &&& v.stream_alive(self.raw)
        &&& v.streams[self.raw as int].ctx == self.ctx
    }

    /// The detached form of this handle.
    pub open spec fn detached(self) -> StreamSpore {
        StreamSpore { raw: self.raw, ctx: self.ctx }
    }
}

impl StreamSpore {
    /// The handle a reattachment of this spore yields.
    pub open spec fn attached(self) -> Stream {
        Stream { raw: self.raw, ctx: self.ctx }
    }
}

impl CurrentCtx {
    /// Creates a command stream bound to this context.
    pub fn stream(&self, m: &mut Driver) -> (r: Stream)
        requires
            old(m)@.wf(),
            old(m)@.current() == Some(self.raw),
        ensures
            r == (Stream { raw: old(m)@.streams.len() as usize, ctx: self.raw }),
            final(m)@ == old(m)@.stream_created(self.raw),
            r.ok(final(m)@),
            final(m)@.wf(),
    {
        let h = m.streams.len();
        m.streams.push(StreamRecord { ctx: self.raw, alive: true });
        proof {
            assert(final(m)@ =~~= old(m)@.stream_created(self.raw));
            old(m)@.lemma_wf_same_core(final(m)@);
        }
        Stream { raw: h, ctx: self.raw }
    }
}

impl Stream {
    /// Blocks the calling thread until all work enqueued on this stream has
    /// completed.  Observably, only the driver clock moves.
    pub fn synchronize(&self, m: &mut Driver)
        requires
            old(m)@.wf(),
            self.ok(old(m)@),
            old(m)@.current() == Some(self.ctx),
        ensures
            final(m)@ == (DriverView { clock: tick(old(m)@.clock), ..old(m)@ }),
            self.ok(final(m)@),
            final(m)@.wf(),
    {
        m.tick_clock();
        proof {
            old(m)@.lemma_wf_same_core(final(m)@);
        }
    }

    /// Destroys the stream; it synchronizes first, so no in-flight work can
    /// reference the freed handle.  Consumes the handle.
    pub fn destroy(self, m: &mut Driver)
        requires
            old(m)@.wf(),
            self.ok(old(m)@),
            old(m)@.current() == Some(self.ctx),
        ensures
            final(m)@ == old(m)@.stream_destroyed(self.raw),
            final(m)@.wf(),
    {
        m.tick_clock();
        let rec = m.streams[self.raw];
        m.streams[self.raw] = StreamRecord { alive: false, ..rec };
        proof {
            assert(final(m)@ =~~= old(m)@.stream_destroyed(self.raw));
            old(m)@.lemma_wf_same_core(final(m)@);
        }
    }

    /// Detaches the handle from its context for storage or transport.
    pub fn sporulate(self) -> (r: StreamSpore)
        ensures
            r == self.detached(),
    {
        StreamSpore { raw: self.raw, ctx: self.ctx }
    }
}

impl StreamSpore {
    /// Reattaches the spore under a current context, which must be the very
    /// context the stream was created under; here that contract is verified
    /// rather than trusted.
    pub fn wrap(self, ctx: &CurrentCtx) -> (r: Stream)
        requires
            self.ctx == ctx.raw,
        ensures
            r == self.attached(),
    {
        Stream { raw: self.raw, ctx: self.ctx }
    }
}

/// The spore round trip: detaching a stream and reattaching it under the
/// same context gives back the very handle, with its usability intact — if
/// the stream was live and its context current before, the rewrapped handle
/// satisfies the preconditions of [`Stream::synchronize`] afterwards.
pub proof fn lemma_stream_spore_round_trip(s: Stream, c: CurrentCtx, v: DriverView)
    requires
        s.ctx == c.raw,
    ensures
        s.detached().attached() == s,
        s.ok(v) ==> s.detached().attached().ok(v),
{
}

} // verus!
