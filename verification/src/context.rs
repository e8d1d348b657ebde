//! Execution contexts and the "current context" capability token.
//!
//! A [`Context`] owns one driver context handle on one device.  The only way
//! to use context-scoped operations is [`Context::apply`], which pushes the
//! context onto the thread's active-context stack, hands the closure a
//! [`CurrentCtx`] token, and pops afterwards; the contract guarantees the
//! closure observes exactly this context as current and that the stack is
//! restored when `apply` returns.

use vstd::prelude::*;

verus! {

use crate::driver::{tick, CtxRecord, Driver, DriverView, PrimaryRecord};
use crate::device::Device;

/// An execution context: a driver context handle, the device that owns it,
/// and whether it is the device's primary (reference-counted) context.
#[derive(PartialEq, Eq, Structural, Hash, Debug)]
pub struct Context {
    pub ctx: usize,
    pub dev: usize,
    pub primary: bool,
}

/// Proof that a specific context is the active one on the calling thread.
/// Not an owner: a transient capability token, created by [`Context::apply`]
/// (or the `apply_current` queries) for the duration of a closure.
#[derive(Clone, Copy, PartialEq, Eq, Structural, Hash, Debug)]
pub struct CurrentCtx {
    pub raw: usize,
}

/// The non-fatal error of querying the current context when none is active.
#[derive(Clone, Copy, PartialEq, Eq, Structural, Hash, Debug)]
pub struct NoCtxError;

impl DriverView {
    /// The state after creating a fresh ordinary context on device `d`.
    pub open spec fn ctx_created(self, d: usize) -> DriverView {
        DriverView {
            contexts: self.contexts.push(CtxRecord { device: d, alive: true, primary: false }),
            ..self
        }
    }

    /// The state after retaining device `d`'s primary context: the reference
    /// count rises, and the singleton context record is created first if it
    /// does not exist or is no longer live.
    pub open spec fn retained(self, d: usize) -> DriverView {
        let p = self.primaries[d as int];
        if self.primary_live(d as int) {
            DriverView {
                primaries: self.primaries.update(
                    d as int,
                    PrimaryRecord { refs: (p.refs + 1) as u64, ..p },
                ),
                ..self
            }
        } else {
            DriverView {
                contexts: self.contexts.push(CtxRecord { device: d, alive: true, primary: true }),
                primaries: self.primaries.update(
                    d as int,
                    PrimaryRecord {
                        handle: self.contexts.len() as usize,
                        created: true,
                        refs: (p.refs + 1) as u64,
                        flags: p.flags,
                    },
                ),
                ..self
            }
        }
    }

    /// The handle [`Device::retain_primary`] returns in state `self`.
    pub open spec fn retained_handle(self, d: usize) -> usize {
        if self.primary_live(d as int) {
            self.primaries[d as int].handle
        } else {
            self.contexts.len() as usize
        }
    }

    /// The state after destroying context `c`: an ordinary context's record
    /// dies; a primary context triggers a device-wide reset, which kills the
    /// device's singleton record and zeroes its reference count.
    pub open spec fn ctx_destroyed(self, c: Context) -> DriverView {
        if c.primary {
            let p = self.primaries[c.dev as int];
            if p.created {
                DriverView {
                    contexts: self.contexts.update(
                        p.handle as int,
                        CtxRecord { alive: false, ..self.contexts[p.handle as int] },
                    ),
                    primaries: self.primaries.update(
                        c.dev as int,
                        PrimaryRecord { refs: 0, ..p },
                    ),
                    ..self
                }
            } else {
                DriverView {
                    primaries: self.primaries.update(c.dev as int, PrimaryRecord { refs: 0, ..p }),
                    ..self
                }
            }
        } else {
            DriverView {
                contexts: self.contexts.update(
                    c.ctx as int,
                    CtxRecord { alive: false, ..self.contexts[c.ctx as int] },
                ),
                ..self
            }
        }
    }
}

/// Creating a fresh ordinary context preserves driver well-formedness.
pub proof fn lemma_ctx_created_wf(v: DriverView, d: usize)
    requires
        v.wf(),
        d < v.devices.len(),
    ensures
        v.ctx_created(d).wf(),
{
    let w = v.ctx_created(d);
    assert forall|i: int| 0 <= i < w.stack.len() implies w.ctx_alive(#[trigger] w.stack[i]) by {
        assert(v.ctx_alive(v.stack[i]));
    }
    assert forall|dd: int| 0 <= dd < w.primaries.len() implies w.primary_ok(dd) by {
        assert(v.primary_ok(dd));
    }
}

/// Retaining a primary context preserves driver well-formedness.
pub proof fn lemma_retained_wf(v: DriverView, d: usize)
    requires
        v.wf(),
        d < v.devices.len(),
        v.primaries[d as int].refs < u64::MAX,
        v.contexts.len() < usize::MAX,
    ensures
        v.retained(d).wf(),
        v.retained(d).primary_active(d as int),
        v.retained(d).primaries[d as int].flags == v.primaries[d as int].flags,
        v.retained(d).ctx_alive(v.retained_handle(d)),
{
    let w = v.retained(d);
    assert(v.primary_ok(d as int));
    assert forall|i: int| 0 <= i < w.stack.len() implies w.ctx_alive(#[trigger] w.stack[i]) by {
        assert(v.ctx_alive(v.stack[i]));
    }
    assert forall|dd: int| 0 <= dd < w.primaries.len() implies w.primary_ok(dd) by {
        assert(v.primary_ok(dd));
        if dd == d as int && !v.primary_live(d as int) {
            assert(w.primaries[dd].handle == v.contexts.len() as usize);
            assert(w.contexts[w.primaries[dd].handle as int] == (CtxRecord {
                device: d,
                alive: true,
                primary: true,
            }));
        }
    }
}

impl Device {
    /// Creates a fresh ordinary context on this device.  The driver creates
    /// it pushed; it is popped again at once, so the active-context stack is
    /// unchanged.
    pub fn context(&self, m: &mut Driver) -> (c: Context)
        requires
            old(m)@.wf(),
            self.valid(old(m)@),
        ensures
            final(m)@ == old(m)@.ctx_created(self.index),
            c == (Context { ctx: old(m)@.contexts.len() as usize, dev: self.index, primary: false }),
            final(m)@.ctx_alive(c.ctx),
            final(m)@.wf(),
    {
        let h = m.contexts.len();
        m.contexts.push(CtxRecord { device: self.index, alive: true, primary: false });
        proof {
            assert(final(m)@ =~~= old(m)@.ctx_created(self.index));
            lemma_ctx_created_wf(old(m)@, self.index);
        }
        Context { ctx: h, dev: self.index, primary: false }
    }

    /// Retains the device's primary context, creating the device-wide
    /// singleton if needed and raising its reference count.
    pub fn retain_primary(&self, m: &mut Driver) -> (c: Context)
        requires
            old(m)@.wf(),
            self.valid(old(m)@),
            old(m)@.primaries[self.index as int].refs < u64::MAX,
            old(m)@.contexts.len() < usize::MAX,
        ensures
            final(m)@ == old(m)@.retained(self.index),
            c == (Context {
                ctx: old(m)@.retained_handle(self.index),
                dev: self.index,
                primary: true,
            }),
            final(m)@.primary_active(self.index as int),
            final(m)@.primaries[self.index as int].flags == old(m)@.primaries[self.index as int].flags,
            final(m)@.ctx_alive(c.ctx),
            final(m)@.wf(),
    {
        let d = self.index;
        let p = m.primaries[d];
        let live = p.created && {
            let h = p.handle;
            h < m.contexts.len() && m.contexts[h].alive
        };
        let c: Context;
        if live {
            m.primaries[d] = PrimaryRecord { refs: p.refs + 1, ..p };
            c = Context { ctx: p.handle, dev: d, primary: true };
        } else {
            let h = m.contexts.len();
            m.contexts.push(CtxRecord { device: d, alive: true, primary: true });
            m.primaries[d] = PrimaryRecord { handle: h, created: true, refs: p.refs + 1, flags: p.flags };
            c = Context { ctx: h, dev: d, primary: true };
        }
        proof {
            assert(final(m)@ =~~= old(m)@.retained(d));
            lemma_retained_wf(old(m)@, d);
        }
        c
    }

    /// The driver's state query for the device's primary context: its
    /// creation flags and whether it is currently active (retained).
    pub fn primary_state(&self, m: &Driver) -> (r: (u32, bool))
        requires
            m@.wf(),
            self.valid(m@),
        ensures
            r.0 == m@.primaries[self.index as int].flags,
            r.1 == m@.primary_active(self.index as int),
    {
        let p = m.primaries[self.index];
        (p.flags, p.refs > 0)
    }
}

/// Retaining a device's primary context reports it active, from the first
/// retain on, and never touches its creation flags: after one retain the
/// device is active, after a second it still is, and the flags are those the
/// state started with.
pub proof fn lemma_retain_primary_twice(v: DriverView, d: usize)
    requires
        v.wf(),
        d < v.devices.len(),
        v.primaries[d as int].refs + 2 <= u64::MAX,
        v.contexts.len() + 2 <= usize::MAX,
    ensures
        v.retained(d).primary_active(d as int),
        v.retained(d).retained(d).primary_active(d as int),
        v.retained(d).primaries[d as int].flags == v.primaries[d as int].flags,
        v.retained(d).retained(d).primaries[d as int].flags == v.primaries[d as int].flags,
{
    lemma_retained_wf(v, d);
    lemma_retained_wf(v.retained(d), d);
}

impl Context {
    /// The device this context belongs to.
    pub fn device(&self) -> (d: Device)
        ensures
            d.index == self.dev,
    {
        Device { index: self.dev }
    }

    /// Releases the context.  An ordinary context's handle is destroyed; a
    /// primary context is released through a device-wide reset, the driver's
    /// documented substitute for a matching "release" entry point.  A context
    /// still on the active-context stack may not be destroyed.
    pub fn destroy(self, m: &mut Driver)
        requires
            old(m)@.wf(),
            self.dev < old(m)@.devices.len(),
            !self.primary ==> old(m)@.ctx_alive(self.ctx) && !old(m)@.stack.contains(self.ctx)
                && !old(m)@.contexts[self.ctx as int].primary,
            self.primary ==> (old(m)@.primaries[self.dev as int].created ==> !old(
                m,
            )@.stack.contains(old(m)@.primaries[self.dev as int].handle)),
        ensures
            final(m)@ == old(m)@.ctx_destroyed(self),
            final(m)@.wf(),
    {
        proof {
            assert(old(m)@.primary_ok(self.dev as int));
        }
        if self.primary {
            let p = m.primaries[self.dev];
            if p.created {
                let rec = m.contexts[p.handle];
                m.contexts[p.handle] = CtxRecord { alive: false, ..rec };
                m.primaries[self.dev] = PrimaryRecord { refs: 0, ..p };
            } else {
                m.primaries[self.dev] = PrimaryRecord { refs: 0, ..p };
            }
        } else {
            let rec = m.contexts[self.ctx];
            m.contexts[self.ctx] = CtxRecord { alive: false, ..rec };
        }
        proof {
            assert(final(m)@ =~~= old(m)@.ctx_destroyed(self));
            let v = old(m)@;
            let w = final(m)@;
            assert forall|i: int| 0 <= i < w.stack.len() implies w.ctx_alive(
                #[trigger] w.stack[i],
            ) by {
                assert(v.ctx_alive(v.stack[i]));
                if !self.primary {
                    assert(v.stack[i] != self.ctx);
                } else {
                    if v.primaries[self.dev as int].created {
                        assert(v.stack[i] != v.primaries[self.dev as int].handle);
                    }
                }
            }
            assert forall|dd: int| 0 <= dd < w.primaries.len() implies w.primary_ok(dd) by {
                assert(v.primary_ok(dd));
                if self.primary && dd != self.dev as int && v.primaries[self.dev as int].created
                    && v.primaries[dd].created {
                    // The reset killed this device's primary record only;
                    // another device's primary points at a record owned by
                    // that other device, so it stays live.
                    assert(v.contexts[v.primaries[dd].handle as int].device == dd);
                    assert(v.contexts[v.primaries[self.dev as int].handle as int].device
                        == self.dev as int);
                }
                if !self.primary && v.primaries[dd].created {
                    // An ordinary context record is never a primary's target.
                    assert(v.contexts[v.primaries[dd].handle as int].primary);
                }
            }
        }
    }

    /// Pushes this context as current, runs `f` with the capability token,
    /// and pops again.  Inside `f` the current context is exactly this one;
    /// afterwards the active-context stack is what it was before the call.
    /// The closure receives the driver state by value and must hand it back
    /// with the stack it was given (the driver treats a closure that leaks a
    /// push or pops its caller's context as a fatal invariant violation, so
    /// such closures are excluded here).
    pub fn apply<T, F: FnOnce(CurrentCtx, Driver) -> (T, Driver)>(&self, m: &mut Driver, f: F) -> (r: T)
        requires
            old(m)@.wf(),
            old(m)@.ctx_alive(self.ctx),
            forall|mp: Driver|
                mp@ == old(m)@.pushed(self.ctx) ==> call_requires(
                    f,
                    ((CurrentCtx { raw: self.ctx }), mp),
                ),
            forall|mp: Driver, t: T, mo: Driver|
                mp@ == old(m)@.pushed(self.ctx) && #[trigger] call_ensures(
                    f,
                    ((CurrentCtx { raw: self.ctx }), mp),
                    (t, mo),
                ) ==> mo@.stack == mp@.stack && mo@.wf(),
        ensures
            exists|mp: Driver, mo: Driver|
                {
                    &&& mp@ == old(m)@.pushed(self.ctx)
                    &&& #[trigger] call_ensures(f, ((CurrentCtx { raw: self.ctx }), mp), (r, mo))
                    &&& final(m)@ == mo@.popped()
                },
            final(m)@.stack == old(m)@.stack,
            final(m)@.wf(),
    {
        let token = CurrentCtx { raw: self.ctx };
        let mut local = crate::driver::Driver::empty();
        core::mem::swap(m, &mut local);
        local.stack.push(self.ctx);
        proof {
            assert(local@ =~~= old(m)@.pushed(self.ctx));
        }
        let ghost arg = local;
        let (r, mut after) = f(token, local);
        let ghost out = after;
        proof {
            // f hands the state back with the stack it was given.
            assert(out@.stack == arg@.stack && out@.wf());
        }
        let _popped = after.stack.pop();
        *m = after;
        proof {
            assert(final(m)@ =~~= out@.popped());
            assert(call_ensures(f, ((CurrentCtx { raw: self.ctx }), arg), (r, out)));
            assert(final(m)@.stack =~= old(m)@.stack);
            out@.lemma_popped_wf();
        }
        r
    }
}

impl CurrentCtx {
    /// The device of the active context.
    pub fn dev(&self, m: &Driver) -> (d: Device)
        requires
            m@.wf(),
            m@.current() == Some(self.raw),
        ensures
            d.index == m@.contexts[self.raw as int].device,
            d.valid(m@),
    {
        proof {
            assert(m@.ctx_alive(m@.stack[m@.stack.len() - 1]));
        }
        Device { index: m.contexts[self.raw].device }
    }

    /// Blocks the calling thread until all outstanding work on this context
    /// has completed.  Observably, only the driver clock moves.
    pub fn synchronize(&self, m: &mut Driver)
        requires
            old(m)@.wf(),
            old(m)@.current() == Some(self.raw),
        ensures
            final(m)@ == (DriverView { clock: tick(old(m)@.clock), ..old(m)@ }),
            final(m)@.wf(),
    {
        m.tick_clock();
        proof {
            old(m)@.lemma_wf_same_core(final(m)@);
        }
    }

    /// Runs `f` under whatever context the driver currently reports active,
    /// without pushing anything.  The one non-fatal query of the layer: when
    /// no context is active it returns [`NoCtxError`] instead of aborting.
    pub fn apply_current<T, F: FnOnce(CurrentCtx, Driver) -> (T, Driver)>(m: &mut Driver, f: F) -> (r:
        Result<T, NoCtxError>)
        requires
            old(m)@.wf(),
            forall|mp: Driver|
                old(m)@.stack.len() > 0 && mp@ == old(m)@ ==> call_requires(
                    f,
                    ((CurrentCtx { raw: old(m)@.stack.last() }), mp),
                ),
            forall|mp: Driver, t: T, mo: Driver|
                old(m)@.stack.len() > 0 && mp@ == old(m)@ && #[trigger] call_ensures(
                    f,
                    ((CurrentCtx { raw: old(m)@.stack.last() }), mp),
                    (t, mo),
                ) ==> mo@.wf(),
        ensures
            old(m)@.stack.len() == 0 ==> r is Err && final(m)@ == old(m)@,
            old(m)@.stack.len() > 0 ==> r is Ok && exists|mp: Driver, mo: Driver|
                {
                    &&& mp@ == old(m)@
                    &&& #[trigger] call_ensures(
                        f,
                        ((CurrentCtx { raw: old(m)@.stack.last() }), mp),
                        (r->Ok_0, mo),
                    )
                    &&& final(m)@ == mo@
                },
            final(m)@.wf(),
    {
        if m.stack.len() == 0 {
            return Err(NoCtxError);
        }
        let raw = m.stack[m.stack.len() - 1];
        let token = CurrentCtx { raw };
        let mut local = crate::driver::Driver::empty();
        core::mem::swap(m, &mut local);
        proof {
            assert(local@ == old(m)@);
            assert(token == (CurrentCtx { raw: old(m)@.stack.last() }));
        }
        let ghost arg = local;
        let (r, after) = f(token, local);
        let ghost out = after;
        *m = after;
        let res: Result<T, NoCtxError> = Ok(r);
        proof {
            assert(res->Ok_0 == r);
            assert(call_ensures(
                f,
                ((CurrentCtx { raw: old(m)@.stack.last() }), arg),
                (res->Ok_0, out),
            ));
            assert(final(m)@ == out@);
        }
        res
    }

    /// Runs `f` under the context handle the caller asserts is current; the
    /// assertion is verified here rather than trusted.
    pub fn apply_current_unchecked<T, F: FnOnce(CurrentCtx, Driver) -> (T, Driver)>(
        raw: usize,
        m: &mut Driver,
        f: F,
    ) -> (r: T)
        requires
            old(m)@.wf(),
            old(m)@.current() == Some(raw),
            forall|mp: Driver|
                mp@ == old(m)@ ==> call_requires(f, ((CurrentCtx { raw }), mp)),
            forall|mp: Driver, t: T, mo: Driver|
                mp@ == old(m)@ && #[trigger] call_ensures(f, ((CurrentCtx { raw }), mp), (t, mo))
                    ==> mo@.wf(),
        ensures
            exists|mp: Driver, mo: Driver|
                {
                    &&& mp@ == old(m)@
                    &&& #[trigger] call_ensures(f, ((CurrentCtx { raw }), mp), (r, mo))
                    &&& final(m)@ == mo@
                },
            final(m)@.wf(),
    {
        let token = CurrentCtx { raw };
        let mut local = crate::driver::Driver::empty();
        core::mem::swap(m, &mut local);
        proof {
            assert(local@ == old(m)@);
        }
        let ghost arg = local;
        let (r, after) = f(token, local);
        let ghost out = after;
        *m = after;
        proof {
            assert(call_ensures(f, ((CurrentCtx { raw }), arg), (r, out)));
            assert(final(m)@ == out@);
        }
        r
    }

    /// Registers an existing host buffer for direct device access.  The
    /// caller keeps the buffer valid and unmoved until the matching
    /// [`CurrentCtx::unlock_page`].
    pub fn lock_page<T>(&self, m: &mut Driver, slice: &[T])
        requires
            old(m)@.wf(),
            old(m)@.current() == Some(self.raw),
            old(m)@.page_locks < u64::MAX,
        ensures
            final(m)@ == (DriverView { page_locks: (old(m)@.page_locks + 1) as u64, ..old(m)@ }),
            final(m)@.wf(),
    {
        let _ = slice;
        m.page_locks = m.page_locks + 1;
        proof {
            assert(final(m)@ =~~= (DriverView {
                page_locks: (old(m)@.page_locks + 1) as u64,
                ..old(m)@
            }));
            old(m)@.lemma_wf_same_core(final(m)@);
        }
    }

    /// Unregisters a buffer registered by [`CurrentCtx::lock_page`].
    /// Unregistering when nothing is registered is a fatal driver error, so
    /// it is excluded here.
    pub fn unlock_page<T>(&self, m: &mut Driver, slice: &[T])
        requires
            old(m)@.wf(),
            old(m)@.current() == Some(self.raw),
            old(m)@.page_locks > 0,
        ensures
            final(m)@ == (DriverView { page_locks: (old(m)@.page_locks - 1) as u64, ..old(m)@ }),
            final(m)@.wf(),
    {
        let _ = slice;
        m.page_locks = m.page_locks - 1;
        proof {
            assert(final(m)@ =~~= (DriverView {
                page_locks: (old(m)@.page_locks - 1) as u64,
                ..old(m)@
            }));
            old(m)@.lemma_wf_same_core(final(m)@);
        }
    }
}

/// What a closure run by [`Context::apply`] observes, and what remains
/// afterwards: with live context `h` pushed, the current context is exactly
/// `h` and the state is still well-formed; once popped, the driver state is
/// back to where it started, with whatever context was current before.
pub proof fn lemma_apply_context_visibility(v: DriverView, h: usize)
    requires
        v.wf(),
        v.ctx_alive(h),
    ensures
        v.pushed(h).current() == Some(h),
        v.pushed(h).wf(),
        v.pushed(h).popped() == v,
        v.pushed(h).popped().current() == v.current(),
{
    v.lemma_pushed_wf(h);
    assert(v.pushed(h).popped().stack =~= v.stack);
    assert(v.pushed(h).popped() =~~= v);
}

} // verus!
