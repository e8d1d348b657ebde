//! Device memory and pinned host memory.
//!
//! A [`DevMem`] or [`HostMem`] is a handle to one allocation held in the
//! driver state, tied to the context it was created under: it may only be
//! used while that context is the active one.  Each has a detached spore
//! form ([`DevMemSpore`], [`HostMemSpore`]) carrying the same identity
//! without that proof.

use vstd::prelude::*;

verus! {

use crate::context::CurrentCtx;
use crate::driver::{AllocRecord, AllocView, Driver, DriverView};
use crate::stream::Stream;

/// One byte of device-resident memory, distinguished from a host byte so the
/// two cannot be mixed up.
#[derive(Clone, Copy, PartialEq, Eq, Structural, Hash, Debug)]
pub struct DevByte(pub u8);

/// A device-memory allocation, attached to the context that created it.
#[derive(PartialEq, Eq, Structural, Hash, Debug)]
pub struct DevMem {
    pub raw: usize,
    pub ctx: usize,
    pub len: usize,
}

/// The detached form of [`DevMem`]: the same identity, storable and sendable
/// without a borrowed context, unusable until reattached with
/// [`DevMemSpore::wrap`].
#[derive(PartialEq, Eq, Structural, Hash, Debug)]
pub struct DevMemSpore {
    pub raw: usize,
    pub ctx: usize,
    pub len: usize,
}

/// A pinned (page-locked) host-memory allocation.
#[derive(PartialEq, Eq, Structural, Hash, Debug)]
pub struct HostMem {
    pub raw: usize,
    pub ctx: usize,
    pub len: usize,
}

/// The detached form of [`HostMem`].
#[derive(PartialEq, Eq, Structural, Hash, Debug)]
pub struct HostMemSpore {
    pub raw: usize,
    pub ctx: usize,
    pub len: usize,
}

impl DriverView {
    /// The state after allocating `data` as fresh device memory under
    /// context `ctx`.
    pub open spec fn dev_alloc_pushed(self, ctx: usize, data: Seq<u8>) -> DriverView {
        DriverView {
            dev_allocs: self.dev_allocs.push(AllocView { ctx, alive: true, data }),
            ..self
        }
    }

    /// The state after overwriting device allocation `h` with `data`.
    pub open spec fn dev_mem_written(self, h: usize, data: Seq<u8>) -> DriverView {
        DriverView {
            dev_allocs: self.dev_allocs.update(
                h as int,
                AllocView { data, ..self.dev_allocs[h as int] },
            ),
            ..self
        }
    }

    /// The state after freeing device allocation `h`: the record dies and
    /// its bytes are gone.
    pub open spec fn dev_mem_freed(self, h: usize) -> DriverView {
        DriverView {
            dev_allocs: self.dev_allocs.update(
                h as int,
                AllocView {
                    alive: false,
                    data: Seq::empty(),
                    ..self.dev_allocs[h as int]
                },
            ),
            ..self
        }
    }

    /// The state after allocating `data` as fresh pinned host memory under
    /// context `ctx`.
    pub open spec fn host_alloc_pushed(self, ctx: usize, data: Seq<u8>) -> DriverView {
        DriverView {
            host_allocs: self.host_allocs.push(AllocView { ctx, alive: true, data }),
            ..self
        }
    }

    /// The state after overwriting host allocation `h` with `data`.
    pub open spec fn host_mem_written(self, h: usize, data: Seq<u8>) -> DriverView {
        DriverView {
            host_allocs: self.host_allocs.update(
                h as int,
                AllocView { data, ..self.host_allocs[h as int] },
            ),
            ..self
        }
    }

    /// The state after freeing host allocation `h`: the record dies and its
    /// bytes are gone.
    pub open spec fn host_mem_freed(self, h: usize) -> DriverView {
        DriverView {
            host_allocs: self.host_allocs.update(
                h as int,
                AllocView {
                    alive: false,
                    data: Seq::empty(),
                    ..self.host_allocs[h as int]
                },
            ),
            ..self
        }
    }
}

impl DevMem {
    /// The handle matches a live device allocation of the stated context and
    /// byte length.
    pub open spec fn ok(self, v: DriverView) -> bool {
        &&& v.dev_mem_alive(self.raw)
        &&& v.dev_allocs[self.raw as int].ctx == self.ctx
        &&& v.dev_allocs[self.raw as int].data.len() == self.len
    }

    /// The bytes the allocation holds.
    pub open spec fn bytes_of(self, v: DriverView) -> Seq<u8> {
        v.dev_allocs[self.raw as int].data
    }

    /// The detached form of this handle.
    pub open spec fn detached(self) -> DevMemSpore {
        DevMemSpore { raw: self.raw, ctx: self.ctx, len: self.len }
    }
}

impl HostMem {
    /// The handle matches a live host allocation of the stated context and
    /// byte length.
    pub open spec fn ok(self, v: DriverView) -> bool {
        &&& v.host_mem_alive(self.raw)
        &&& v.host_allocs[self.raw as int].ctx == self.ctx
        &&& v.host_allocs[self.raw as int].data.len() == self.len
    }

    /// The bytes the allocation holds.
    pub open spec fn bytes_of(self, v: DriverView) -> Seq<u8> {
        v.host_allocs[self.raw as int].data
    }

    /// The detached form of this handle.
    pub open spec fn detached(self) -> HostMemSpore {
        HostMemSpore { raw: self.raw, ctx: self.ctx, len: self.len }
    }
}

impl CurrentCtx {
    /// Allocates `len` bytes of device memory under this context.  The
    /// driver hands the memory back uninitialized, so nothing is promised of
    /// its contents beyond the length.
    pub fn malloc(&self, m: &mut Driver, len: usize) -> (r: DevMem)
        requires
            old(m)@.wf(),
            old(m)@.current() == Some(self.raw),
        ensures
            r == (DevMem { raw: old(m)@.dev_allocs.len() as usize, ctx: self.raw, len }),
            exists|data: Seq<u8>|
                data.len() == len && final(m)@ == #[trigger] old(m)@.dev_alloc_pushed(
                    self.raw,
                    data,
                ),
            r.ok(final(m)@),
            final(m)@.wf(),
    {
        let h = m.dev_allocs.len();
        let data: Vec<u8> = vec![0u8; len];
        m.dev_allocs.push(AllocRecord { ctx: self.raw, alive: true, data });
        proof {
            assert(final(m)@ =~~= old(m)@.dev_alloc_pushed(self.raw, data@));
            old(m)@.lemma_wf_same_core(final(m)@);
        }
        DevMem { raw: h, ctx: self.raw, len }
    }

    /// Allocates device memory sized to a host buffer and synchronously
    /// copies the buffer in.
    pub fn from_host(&self, m: &mut Driver, slice: &[u8]) -> (r: DevMem)
        requires
            old(m)@.wf(),
            old(m)@.current() == Some(self.raw),
        ensures
            r == (DevMem {
                raw: old(m)@.dev_allocs.len() as usize,
                ctx: self.raw,
                len: slice@.len() as usize,
            }),
            final(m)@ == old(m)@.dev_alloc_pushed(self.raw, slice@),
            r.ok(final(m)@),
            r.bytes_of(final(m)@) == slice@,
            final(m)@.wf(),
    {
        let h = m.dev_allocs.len();
        let len = slice.len();
        let data = vstd::slice::slice_to_vec(slice);
        m.dev_allocs.push(AllocRecord { ctx: self.raw, alive: true, data });
        proof {
            assert(final(m)@ =~~= old(m)@.dev_alloc_pushed(self.raw, slice@));
            old(m)@.lemma_wf_same_core(final(m)@);
        }
        DevMem { raw: h, ctx: self.raw, len }
    }

    /// Allocates `len` bytes of pinned host memory under this context, via
    /// the driver's page-locking allocator.  As with [`CurrentCtx::malloc`],
    /// the contents start out unspecified.
    pub fn malloc_host(&self, m: &mut Driver, len: usize) -> (r: HostMem)
        requires
            old(m)@.wf(),
            old(m)@.current() == Some(self.raw),
        ensures
            r == (HostMem { raw: old(m)@.host_allocs.len() as usize, ctx: self.raw, len }),
            exists|data: Seq<u8>|
                data.len() == len && final(m)@ == #[trigger] old(m)@.host_alloc_pushed(
                    self.raw,
                    data,
                ),
            r.ok(final(m)@),
            final(m)@.wf(),
    {
        let h = m.host_allocs.len();
        let data: Vec<u8> = vec![0u8; len];
        m.host_allocs.push(AllocRecord { ctx: self.raw, alive: true, data });
        proof {
            assert(final(m)@ =~~= old(m)@.host_alloc_pushed(self.raw, data@));
            old(m)@.lemma_wf_same_core(final(m)@);
        }
        HostMem { raw: h, ctx: self.raw, len }
    }
}

/// Synchronous device-to-host copy.  Source and destination byte lengths
/// must match exactly; a mismatch is a programming error the driver treats
/// as fatal, so it is excluded here.
pub fn memcpy_d2h(m: &Driver, dst: &mut Vec<u8>, src: &DevMem)
    requires
        m@.wf(),
        src.ok(m@),
        m@.current() == Some(src.ctx),
        old(dst)@.len() == src.len,
    ensures
        final(dst)@ == src.bytes_of(m@),
{
    let data = &m.dev_allocs[src.raw].data;
    *dst = vstd::slice::slice_to_vec(data.as_slice());
}

/// Synchronous host-to-device copy; lengths must match exactly.
pub fn memcpy_h2d(m: &mut Driver, dst: &DevMem, src: &[u8])
    requires
        old(m)@.wf(),
        dst.ok(old(m)@),
        old(m)@.current() == Some(dst.ctx),
        src@.len() == dst.len,
    ensures
        final(m)@ == old(m)@.dev_mem_written(dst.raw, src@),
        dst.ok(final(m)@),
        dst.bytes_of(final(m)@) == src@,
        final(m)@.wf(),
{
    let data = vstd::slice::slice_to_vec(src);
    m.dev_allocs[dst.raw] = AllocRecord { ctx: dst.ctx, alive: true, data };
    proof {
        assert(final(m)@ =~~= old(m)@.dev_mem_written(dst.raw, src@));
        old(m)@.lemma_wf_same_core(final(m)@);
    }
}

/// Synchronous device-to-device copy; lengths must match exactly, and both
/// allocations belong to the active context.
pub fn memcpy_d2d(m: &mut Driver, dst: &DevMem, src: &DevMem)
    requires
        old(m)@.wf(),
        dst.ok(old(m)@),
        src.ok(old(m)@),
        old(m)@.current() == Some(dst.ctx),
        old(m)@.current() == Some(src.ctx),
        src.len == dst.len,
    ensures
        final(m)@ == old(m)@.dev_mem_written(dst.raw, src.bytes_of(old(m)@)),
        dst.ok(final(m)@),
        dst.bytes_of(final(m)@) == src.bytes_of(old(m)@),
        final(m)@.wf(),
{
    let data = vstd::slice::slice_to_vec(m.dev_allocs[src.raw].data.as_slice());
    m.dev_allocs[dst.raw] = AllocRecord { ctx: dst.ctx, alive: true, data };
    proof {
        assert(final(m)@ =~~= old(m)@.dev_mem_written(dst.raw, src.bytes_of(old(m)@)));
        old(m)@.lemma_wf_same_core(final(m)@);
    }
}

impl Stream {
    /// Host-to-device copy enqueued on this stream.  In the driver's eager
    /// image of stream execution the bytes are in place on return.
    pub fn memcpy_h2d(&self, m: &mut Driver, dst: &DevMem, src: &[u8])
        requires
            old(m)@.wf(),
            self.ok(old(m)@),
            dst.ok(old(m)@),
            old(m)@.current() == Some(self.ctx),
            dst.ctx == self.ctx,
            src@.len() == dst.len,
        ensures
            final(m)@ == old(m)@.dev_mem_written(dst.raw, src@),
            dst.ok(final(m)@),
            dst.bytes_of(final(m)@) == src@,
            final(m)@.wf(),
    {
        crate::memory::memcpy_h2d(m, dst, src);
    }

    /// Device-to-device copy enqueued on this stream.
    pub fn memcpy_d2d(&self, m: &mut Driver, dst: &DevMem, src: &DevMem)
        requires
            old(m)@.wf(),
            self.ok(old(m)@),
            dst.ok(old(m)@),
            src.ok(old(m)@),
            old(m)@.current() == Some(self.ctx),
            dst.ctx == self.ctx,
            src.ctx == self.ctx,
            src.len == dst.len,
        ensures
            final(m)@ == old(m)@.dev_mem_written(dst.raw, src.bytes_of(old(m)@)),
            dst.ok(final(m)@),
            dst.bytes_of(final(m)@) == src.bytes_of(old(m)@),
            final(m)@.wf(),
    {
        crate::memory::memcpy_d2d(m, dst, src);
    }
}

impl DevMem {
    /// The allocation's bytes; a zero-length allocation reads as an empty
    /// view rather than faulting.
    pub fn bytes<'a>(&self, m: &'a Driver) -> (r: &'a Vec<u8>)
        requires
            m@.wf(),
            self.ok(m@),
            m@.current() == Some(self.ctx),
        ensures
            r@ == self.bytes_of(m@),
            r@.len() == self.len,
    {
        &m.dev_allocs[self.raw].data
    }

    /// The allocation's byte length.
    pub fn len(&self) -> (n: usize)
        ensures
            n == self.len,
    {
        self.len
    }

    /// Frees the allocation asynchronously on `stream` instead of
    /// synchronously; consumes the handle, so it cannot be freed twice.
    pub fn drop_on(self, m: &mut Driver, stream: &Stream)
        requires
            old(m)@.wf(),
            self.ok(old(m)@),
            stream.ok(old(m)@),
            old(m)@.current() == Some(self.ctx),
            stream.ctx == self.ctx,
        ensures
            final(m)@ == old(m)@.dev_mem_freed(self.raw),
            final(m)@.wf(),
    {
        self.free(m);
    }

    /// Releases the allocation; consumes the handle.
    pub fn free(self, m: &mut Driver)
        requires
            old(m)@.wf(),
            self.ok(old(m)@),
            old(m)@.current() == Some(self.ctx),
        ensures
            final(m)@ == old(m)@.dev_mem_freed(self.raw),
            final(m)@.wf(),
    {
        let rec = &m.dev_allocs[self.raw];
        let dead = AllocRecord { ctx: rec.ctx, alive: false, data: Vec::new() };
        m.dev_allocs[self.raw] = dead;
        proof {
            assert(final(m)@ =~~= old(m)@.dev_mem_freed(self.raw));
            old(m)@.lemma_wf_same_core(final(m)@);
        }
    }

    /// Detaches the handle from its context: the spore carries the same
    /// identity and can be stored or sent freely, but cannot touch the
    /// memory until reattached.
    pub fn sporulate(self) -> (r: DevMemSpore)
        ensures
            r == self.detached(),
    {
        DevMemSpore { raw: self.raw, ctx: self.ctx, len: self.len }
    }
}

impl DevMemSpore {
    /// The allocation's byte length.
    pub fn len(&self) -> (n: usize)
        ensures
            n == self.len,
    {
        self.len
    }

    /// Whether the allocation is zero-length.
    pub fn is_empty(&self) -> (r: bool)
        ensures
            r == (self.len == 0),
    {
        self.len == 0
    }

    /// Reattaches the spore under a current context, which must be the very
    /// context the memory was created under; here that contract is verified
    /// rather than trusted.
    pub fn wrap(self, ctx: &CurrentCtx) -> (r: DevMem)
        requires
            self.ctx == ctx.raw,
        ensures
            r == (DevMem { raw: self.raw, ctx: self.ctx, len: self.len }),
    {
        DevMem { raw: self.raw, ctx: self.ctx, len: self.len }
    }
}

impl HostMem {
    /// The allocation's bytes.  Host memory stays readable from the host
    /// regardless of which context is active.
    pub fn bytes<'a>(&self, m: &'a Driver) -> (r: &'a Vec<u8>)
        requires
            self.ok(m@),
        ensures
            r@ == self.bytes_of(m@),
            r@.len() == self.len,
    {
        &m.host_allocs[self.raw].data
    }

    /// The allocation's byte length.
    pub fn len(&self) -> (n: usize)
        ensures
            n == self.len,
    {
        self.len
    }

    /// Overwrites the allocation from a host buffer of the same length.
    pub fn copy_from(&self, m: &mut Driver, src: &[u8])
        requires
            old(m)@.wf(),
            self.ok(old(m)@),
            src@.len() == self.len,
        ensures
            final(m)@ == old(m)@.host_mem_written(self.raw, src@),
            self.ok(final(m)@),
            self.bytes_of(final(m)@) == src@,
            final(m)@.wf(),
    {
        let data = vstd::slice::slice_to_vec(src);
        m.host_allocs[self.raw] = AllocRecord { ctx: self.ctx, alive: true, data };
        proof {
            assert(final(m)@ =~~= old(m)@.host_mem_written(self.raw, src@));
            old(m)@.lemma_wf_same_core(final(m)@);
        }
    }

    /// Releases the allocation; consumes the handle.
    pub fn free(self, m: &mut Driver)
        requires
            old(m)@.wf(),
            self.ok(old(m)@),
            old(m)@.current() == Some(self.ctx),
        ensures
            final(m)@ == old(m)@.host_mem_freed(self.raw),
            final(m)@.wf(),
    {
        let rec = &m.host_allocs[self.raw];
        let dead = AllocRecord { ctx: rec.ctx, alive: false, data: Vec::new() };
        m.host_allocs[self.raw] = dead;
        proof {
            assert(final(m)@ =~~= old(m)@.host_mem_freed(self.raw));
            old(m)@.lemma_wf_same_core(final(m)@);
        }
    }

    /// Detaches the handle from its context.
    pub fn sporulate(self) -> (r: HostMemSpore)
        ensures
            r == self.detached(),
    {
        HostMemSpore { raw: self.raw, ctx: self.ctx, len: self.len }
    }
}

impl HostMemSpore {
    /// The allocation's bytes; host memory stays readable while detached.
    pub fn bytes<'a>(&self, m: &'a Driver) -> (r: &'a Vec<u8>)
        requires
            m@.host_mem_alive(self.raw),
            m@.host_allocs[self.raw as int].data.len() == self.len,
        ensures
            r@ == m@.host_allocs[self.raw as int].data,
            r@.len() == self.len,
    {
        &m.host_allocs[self.raw].data
    }

    /// Reattaches the spore under a current context, which must be the very
    /// context the memory was created under.
    pub fn wrap(self, ctx: &CurrentCtx) -> (r: HostMem)
        requires
            self.ctx == ctx.raw,
        ensures
            r == (HostMem { raw: self.raw, ctx: self.ctx, len: self.len }),
    {
        HostMem { raw: self.raw, ctx: self.ctx, len: self.len }
    }
}

/// Writing a host buffer to fresh device memory and copying it straight
/// back reproduces the buffer exactly, whatever its length, zero included.
pub proof fn lemma_host_round_trip(v: DriverView, ctx: usize, data: Seq<u8>)
    requires
        v.dev_allocs.len() < usize::MAX,
        data.len() <= usize::MAX,
    ensures
        ({
            let h = v.dev_allocs.len() as usize;
            let w = v.dev_alloc_pushed(ctx, data);
            &&& (DevMem { raw: h, ctx, len: data.len() as usize }).ok(w)
            &&& (DevMem { raw: h, ctx, len: data.len() as usize }).bytes_of(w) == data
        }),
{
    let h = v.dev_allocs.len() as usize;
    let w = v.dev_alloc_pushed(ctx, data);
    assert(w.dev_allocs[h as int] == (AllocView { ctx, alive: true, data }));
}

} // verus!
