//! The accelerator driver's observable state, held as an explicit value.
//!
//! The real driver keeps this state behind its entry points: the devices it
//! enumerates, the contexts created on them, the per-thread stack of pushed
//! ("current") contexts, the device and pinned-host allocations, the command
//! streams and the recorded events.  Holding it as a value lets every
//! operation of the safety layer say exactly what it does to that state, and
//! lets the whole layer run and be tested in-process, against a software
//! device.

use vstd::prelude::*;

verus! {

use crate::{BlockLimit, Dim3, MemSize, SMLimit, Version};

/// Capabilities of one device, as the driver reports them.
pub struct DeviceProps {
    pub name: String,
    pub compute_capability: Version,
    pub total_memory: MemSize,
    pub alignment: usize,
    pub warp_size: usize,
    pub sm_count: usize,
    pub max_grid_dims: Dim3,
    pub block_limit: BlockLimit,
    pub sm_limit: SMLimit,
}

/// The ghost image of [`DeviceProps`]: the name as a character sequence.
pub struct DevicePropsView {
    pub name: Seq<char>,
    pub compute_capability: Version,
    pub total_memory: MemSize,
    pub alignment: usize,
    pub warp_size: usize,
    pub sm_count: usize,
    pub max_grid_dims: Dim3,
    pub block_limit: BlockLimit,
    pub sm_limit: SMLimit,
}

impl View for DeviceProps {
    type V = DevicePropsView;

    open spec fn view(&self) -> DevicePropsView {
        DevicePropsView {
            name: self.name@,
            compute_capability: self.compute_capability,
            total_memory: self.total_memory,
            alignment: self.alignment,
            warp_size: self.warp_size,
            sm_count: self.sm_count,
            max_grid_dims: self.max_grid_dims,
            block_limit: self.block_limit,
            sm_limit: self.sm_limit,
        }
    }
}

impl DevicePropsView {
    /// Self-consistency of the reported capabilities: the quantities a real
    /// device reports as positive are positive.
    pub open spec fn wf(self) -> bool {
        &&& self.total_memory.0 > 0
        &&& self.alignment > 0
        &&& self.warp_size > 0
        &&& self.sm_count > 0
        &&& self.max_grid_dims.x >= 1
        &&& self.max_grid_dims.y >= 1
        &&& self.max_grid_dims.z >= 1
        &&& self.block_limit.max_threads >= 1
        &&& self.sm_limit.max_blocks >= 1
        &&& self.sm_limit.max_threads >= 1
    }
}

/// The driver-side record of one context: which device owns it, whether the
/// handle is still valid, and whether it is the device's primary context.
#[derive(Clone, Copy, PartialEq, Eq, Structural)]
pub struct CtxRecord {
    pub device: usize,
    pub alive: bool,
    pub primary: bool,
}

/// The per-device state of the primary-context singleton: the handle it was
/// last retained under, its reference count, and its creation flags.
#[derive(Clone, Copy, PartialEq, Eq, Structural)]
pub struct PrimaryRecord {
    pub handle: usize,
    pub created: bool,
    pub refs: u64,
    pub flags: u32,
}

/// One device or pinned-host allocation: the owning context, whether the
/// allocation is still live, and its bytes.
pub struct AllocRecord {
    pub ctx: usize,
    pub alive: bool,
    pub data: Vec<u8>,
}

/// The ghost image of [`AllocRecord`].
pub struct AllocView {
    pub ctx: usize,
    pub alive: bool,
    pub data: Seq<u8>,
}

impl View for AllocRecord {
    type V = AllocView;

    open spec fn view(&self) -> AllocView {
        AllocView { ctx: self.ctx, alive: self.alive, data: self.data@ }
    }
}

/// The driver-side record of one command stream.
#[derive(Clone, Copy, PartialEq, Eq, Structural)]
pub struct StreamRecord {
    pub ctx: usize,
    pub alive: bool,
}

/// The driver-side record of one event: the clock value at which it was
/// recorded.
#[derive(Clone, Copy, PartialEq, Eq, Structural)]
pub struct EventRecord {
    pub ctx: usize,
    pub alive: bool,
    pub time: u64,
}

/// The driver's whole observable state.
///
/// Handles are indices: a context handle indexes `contexts`, a device-memory
/// handle indexes `dev_allocs`, and so on.  Records are never removed, only
/// marked dead, so a handle never changes meaning.
pub struct Driver {
    pub devices: Vec<DeviceProps>,
    pub primaries: Vec<PrimaryRecord>,
    pub contexts: Vec<CtxRecord>,
    pub stack: Vec<usize>,
    pub dev_allocs: Vec<AllocRecord>,
    pub host_allocs: Vec<AllocRecord>,
    pub streams: Vec<StreamRecord>,
    pub events: Vec<EventRecord>,
    pub page_locks: u64,
    pub clock: u64,
}

/// The ghost image of the whole driver state.
#[verifier::ext_equal]
pub struct DriverView {
    pub devices: Seq<DevicePropsView>,
    pub primaries: Seq<PrimaryRecord>,
    pub contexts: Seq<CtxRecord>,
    pub stack: Seq<usize>,
    pub dev_allocs: Seq<AllocView>,
    pub host_allocs: Seq<AllocView>,
    pub streams: Seq<StreamRecord>,
    pub events: Seq<EventRecord>,
    pub page_locks: u64,
    pub clock: u64,
}

impl View for Driver {
    type V = DriverView;

    open spec fn view(&self) -> DriverView {
        DriverView {
            devices: self.devices@.map_values(|d: DeviceProps| d@),
            primaries: self.primaries@,
            contexts: self.contexts@,
            stack: self.stack@,
            dev_allocs: self.dev_allocs@.map_values(|a: AllocRecord| a@),
            host_allocs: self.host_allocs@.map_values(|a: AllocRecord| a@),
            streams: self.streams@,
            events: self.events@,
            page_locks: self.page_locks,
            clock: self.clock,
        }
    }
}

/// The driver's clock after one more operation; it never wraps.
pub open spec fn tick(c: u64) -> u64 {
    if c < u64::MAX {
        (c + 1) as u64
    } else {
        c
    }
}

impl DriverView {
    /// The context the calling thread currently has active, if any: the top
    /// of the push/pop stack.
    pub open spec fn current(self) -> Option<usize> {
        if self.stack.len() == 0 {
            None
        } else {
            Some(self.stack.last())
        }
    }

    /// `h` is a valid, still-live context handle.
    pub open spec fn ctx_alive(self, h: usize) -> bool {
        h < self.contexts.len() && self.contexts[h as int].alive
    }

    /// The device's primary context has been created and its handle is still
    /// live.
    pub open spec fn primary_live(self, d: int) -> bool {
        &&& self.primaries[d].created
        &&& self.ctx_alive(self.primaries[d].handle)
    }

    /// The driver reports the device's primary context as active.
    pub open spec fn primary_active(self, d: int) -> bool {
        self.primaries[d].refs > 0
    }

    /// `h` is a valid, still-live device-memory handle.
    pub open spec fn dev_mem_alive(self, h: usize) -> bool {
        h < self.dev_allocs.len() && self.dev_allocs[h as int].alive
    }

    /// `h` is a valid, still-live pinned-host-memory handle.
    pub open spec fn host_mem_alive(self, h: usize) -> bool {
        h < self.host_allocs.len() && self.host_allocs[h as int].alive
    }

    /// `h` is a valid, still-live stream handle.
    pub open spec fn stream_alive(self, h: usize) -> bool {
        h < self.streams.len() && self.streams[h as int].alive
    }

    /// `h` is a valid, still-live event handle.
    pub open spec fn event_alive(self, h: usize) -> bool {
        h < self.events.len() && self.events[h as int].alive
    }

    /// The primary-context bookkeeping of device `d` matches the context
    /// records: a created primary's handle points at a primary context record
    /// of that device, and a retained (active) primary's record is live.
    pub open spec fn primary_ok(self, d: int) -> bool {
        let p = self.primaries[d];
        &&& (p.refs > 0 ==> p.created)
        &&& (p.created ==> {
            &&& p.handle < self.contexts.len()
            &&& self.contexts[p.handle as int].primary
            &&& self.contexts[p.handle as int].device == d
        })
        &&& (p.refs > 0 ==> self.ctx_alive(p.handle))
    }

    /// Well-formedness of the driver state, maintained by every operation of
    /// the layer:
    /// - every context belongs to an enumerated device;
    /// - every pushed context is still live (a context may not be destroyed
    ///   while it is on the stack);
    /// - the primary-context bookkeeping matches the context records;
    /// - devices report self-consistent capabilities.
    pub open spec fn wf(self) -> bool {
        &&& self.primaries.len() == self.devices.len()
        &&& forall|i: int| 0 <= i < self.devices.len() ==> (#[trigger] self.devices[i]).wf()
        &&& forall|h: int|
            0 <= h < self.contexts.len() ==> (#[trigger] self.contexts[h]).device
                < self.devices.len()
        &&& forall|i: int|
            0 <= i < self.stack.len() ==> self.ctx_alive(#[trigger] self.stack[i])
        &&& forall|d: int| 0 <= d < self.primaries.len() ==> self.primary_ok(d)
    }

    /// Popping the current context preserves well-formedness.
    pub proof fn lemma_popped_wf(self)
        requires
            self.wf(),
            self.stack.len() > 0,
        ensures
            self.popped().wf(),
    {
        let w = self.popped();
        assert forall|i: int| 0 <= i < w.stack.len() implies w.ctx_alive(
            #[trigger] w.stack[i],
        ) by {
            assert(self.ctx_alive(self.stack[i]));
        }
        assert forall|d: int| 0 <= d < w.primaries.len() implies w.primary_ok(d) by {
            assert(self.primary_ok(d));
        }
    }

    /// Well-formedness depends only on the devices, the primary records, the
    /// context records and the stack; a state that agrees with a well-formed
    /// one on those is itself well-formed.
    pub proof fn lemma_wf_same_core(self, w: DriverView)
        requires
            self.wf(),
            w.devices == self.devices,
            w.primaries == self.primaries,
            w.contexts == self.contexts,
            w.stack == self.stack,
        ensures
            w.wf(),
    {
        assert forall|i: int| 0 <= i < w.stack.len() implies w.ctx_alive(
            #[trigger] w.stack[i],
        ) by {
            assert(self.ctx_alive(self.stack[i]));
        }
        assert forall|d: int| 0 <= d < w.primaries.len() implies w.primary_ok(d) by {
            assert(self.primary_ok(d));
        }
    }

    /// Pushing a live context preserves well-formedness.
    pub proof fn lemma_pushed_wf(self, h: usize)
        requires
            self.wf(),
            self.ctx_alive(h),
        ensures
            self.pushed(h).wf(),
    {
        let w = self.pushed(h);
        assert forall|i: int| 0 <= i < w.stack.len() implies w.ctx_alive(
            #[trigger] w.stack[i],
        ) by {
            if i < self.stack.len() {
                assert(self.ctx_alive(self.stack[i]));
            }
        }
        assert forall|d: int| 0 <= d < w.primaries.len() implies w.primary_ok(d) by {
            assert(self.primary_ok(d));
        }
    }

    /// The state after pushing context `h` as current.
    pub open spec fn pushed(self, h: usize) -> DriverView {
        DriverView { stack: self.stack.push(h), ..self }
    }

    /// The state after popping the current context.
    pub open spec fn popped(self) -> DriverView {
        DriverView { stack: self.stack.drop_last(), ..self }
    }

    /// `b` is `a` with a different context stack and nothing else changed.
    pub open spec fn same_but_stack(self, b: DriverView) -> bool {
        &&& b.devices == self.devices
        &&& b.primaries == self.primaries
        &&& b.contexts == self.contexts
        &&& b.dev_allocs == self.dev_allocs
        &&& b.host_allocs == self.host_allocs
        &&& b.streams == self.streams
        &&& b.events == self.events
        &&& b.page_locks == self.page_locks
        &&& b.clock == self.clock
    }
}

impl Driver {
    /// Brings up the driver state over the given devices, as at process
    /// start: no context exists, no primary context is active and all
    /// primary-context flags are zero.
    pub fn new(devices: Vec<DeviceProps>) -> (m: Driver)
        requires
            forall|i: int| 0 <= i < devices@.len() ==> (#[trigger] devices@[i])@.wf(),
        ensures
            m@.devices == devices@.map_values(|d: DeviceProps| d@),
            m@.contexts == Seq::<CtxRecord>::empty(),
            m@.stack == Seq::<usize>::empty(),
            m@.dev_allocs == Seq::<AllocView>::empty(),
            m@.host_allocs == Seq::<AllocView>::empty(),
            m@.streams == Seq::<StreamRecord>::empty(),
            m@.events == Seq::<EventRecord>::empty(),
            m@.page_locks == 0,
            m@.clock == 0,
            m@.primaries.len() == devices@.len(),
            forall|d: int|
                0 <= d < devices@.len() ==> #[trigger] m@.primaries[d] == (PrimaryRecord {
                    handle: 0,
                    created: false,
                    refs: 0,
                    flags: 0,
                }),
            m@.wf(),
    {
        let n = devices.len();
        let mut primaries: Vec<PrimaryRecord> = Vec::new();
        let mut i: usize = 0;
        while i < n
            invariant
                i <= n,
                primaries@.len() == i,
                forall|d: int|
                    0 <= d < i ==> #[trigger] primaries@[d] == (PrimaryRecord {
                        handle: 0,
                        created: false,
                        refs: 0,
                        flags: 0,
                    }),
            decreases n - i,
        {
            primaries.push(PrimaryRecord { handle: 0, created: false, refs: 0, flags: 0 });
            i = i + 1;
        }
        let m = Driver {
            devices,
            primaries,
            contexts: Vec::new(),
            stack: Vec::new(),
            dev_allocs: Vec::new(),
            host_allocs: Vec::new(),
            streams: Vec::new(),
            events: Vec::new(),
            page_locks: 0,
            clock: 0,
        };
        proof {
            assert(m@.contexts =~= Seq::<CtxRecord>::empty());
            assert(m@.stack =~= Seq::<usize>::empty());
            assert(m@.dev_allocs =~= Seq::<AllocView>::empty());
            assert(m@.host_allocs =~= Seq::<AllocView>::empty());
            assert(m@.streams =~= Seq::<StreamRecord>::empty());
            assert(m@.events =~= Seq::<EventRecord>::empty());
        }
        m
    }

    /// A driver state with no devices at all, useful as a placeholder value.
    pub fn empty() -> (m: Driver)
        ensures
            m@.devices == Seq::<DevicePropsView>::empty(),
            m@.wf(),
    {
        let m = Driver {
            devices: Vec::new(),
            primaries: Vec::new(),
            contexts: Vec::new(),
            stack: Vec::new(),
            dev_allocs: Vec::new(),
            host_allocs: Vec::new(),
            streams: Vec::new(),
            events: Vec::new(),
            page_locks: 0,
            clock: 0,
        };
        proof {
            assert(m@.devices =~= Seq::<DevicePropsView>::empty());
        }
        m
    }

    /// Advances the driver clock by one step.
    pub(crate) fn tick_clock(&mut self)
        ensures
            final(self)@ == (DriverView { clock: tick(old(self)@.clock), ..old(self)@ }),
    {
        if self.clock < u64::MAX {
            self.clock = self.clock + 1;
        }
        proof {
            assert(final(self)@ =~= (DriverView { clock: tick(old(self)@.clock), ..old(self)@ }));
        }
    }
}

} // verus!
