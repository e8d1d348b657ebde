use mx_runtime::driver::DeviceProps;
use mx_runtime::{BlockLimit, Device, Dim3, Driver, MemSize, SMLimit, Version};

fn props() -> DeviceProps {
    DeviceProps {
        name: String::from("MXC500"),
        compute_capability: Version { major: 8, minor: 0 },
        total_memory: MemSize(1024 * 1024 * 1024),
        alignment: 256,
        warp_size: 64,
        sm_count: 8,
        max_grid_dims: Dim3 { x: 1024, y: 64, z: 64 },
        block_limit: BlockLimit {
            max_threads: 1024,
            max_dims: Dim3 { x: 1024, y: 64, z: 64 },
            max_smem: MemSize(32 * 1024),
            max_registers: MemSize(32 * 1024),
        },
        sm_limit: SMLimit {
            max_blocks: 16,
            max_threads: 2048,
            max_smem: MemSize(32 * 1024),
            max_registers: MemSize(32 * 1024),
        },
    }
}

fn one_device() -> Driver {
    Driver::new(vec![props()])
}

#[test]
fn record_and_elapse() {
    let mut m = one_device();
    let ctx = Device::new(0, &m).context(&mut m);
    ctx.apply(&mut m, |cur, mut mm: Driver| {
        let st = cur.stream(&mut mm);
        let e1 = st.record(&mut mm);
        cur.synchronize(&mut mm);
        let e2 = st.record(&mut mm);
        e2.synchronize(&mut mm);
        let span = e2.elapse_from(&e1, &mm);
        // e1 at clock c, record ticks to c+1, synchronize to c+2, e2 at c+2
        assert_eq!(span.nanos, 2);
        e1.destroy(&mut mm);
        e2.destroy(&mut mm);
        st.destroy(&mut mm);
        ((), mm)
    });
}

#[test]
fn wait_for_orders_streams() {
    let mut m = one_device();
    let ctx = Device::new(0, &m).context(&mut m);
    ctx.apply(&mut m, |cur, mut mm: Driver| {
        let producer = cur.stream(&mut mm);
        let consumer = cur.stream(&mut mm);
        let e = producer.record(&mut mm);
        consumer.wait_for(&mut mm, &e);
        consumer.synchronize(&mut mm);
        e.destroy(&mut mm);
        consumer.destroy(&mut mm);
        producer.destroy(&mut mm);
        ((), mm)
    });
}

#[test]
fn bench_calls_f_exactly_times_plus_warm_up() {
    let mut m = one_device();
    let ctx = Device::new(0, &m).context(&mut m);
    ctx.apply(&mut m, |cur, mut mm: Driver| {
        let st = cur.stream(&mut mm);
        let before = mm.dev_allocs.len();
        // each call leaves one allocation behind, so the final count counts
        // the calls
        let f = move |_i: usize, mut inner: Driver| -> Driver {
            let _ = cur.malloc(&mut inner, 1);
            inner
        };
        let span = st.bench(&mut mm, f, 3, 2);
        assert_eq!(mm.dev_allocs.len() - before, 5);
        // only the start recording moves the clock between the two marks,
        // and one step split over three iterations rounds down to none
        assert_eq!(span.nanos, 0);
        st.destroy(&mut mm);
        ((), mm)
    });
}

#[test]
fn bench_per_iteration_quotient() {
    let mut m = one_device();
    let ctx = Device::new(0, &m).context(&mut m);
    ctx.apply(&mut m, |cur, mut mm: Driver| {
        let st = cur.stream(&mut mm);
        let raw = st.raw;
        let cr = cur.raw;
        // each call synchronizes the stream once: one clock step per call
        let f = move |_i: usize, mut inner: Driver| -> Driver {
            let s = mx_runtime::StreamSpore { raw, ctx: cr }.wrap(&cur);
            s.synchronize(&mut inner);
            inner
        };
        let span = st.bench(&mut mm, f, 4, 1);
        // between the marks: the start recording plus four synchronizations,
        // five clock steps over four iterations
        assert_eq!(span.nanos, (1 + 4) / 4);
        st.destroy(&mut mm);
        ((), mm)
    });
}

#[test]
fn stream_spore_round_trip_preserves_identity_and_usability() {
    let mut m = one_device();
    let ctx = Device::new(0, &m).context(&mut m);
    ctx.apply(&mut m, |cur, mut mm: Driver| {
        let st = cur.stream(&mut mm);
        let raw = st.raw;
        let spore = st.sporulate();
        let back = spore.wrap(&cur);
        assert_eq!(back.raw, raw);
        assert_eq!(back.ctx, cur.raw);
        back.synchronize(&mut mm);
        back.destroy(&mut mm);
        ((), mm)
    });
}

#[test]
fn event_spore_round_trip() {
    let mut m = one_device();
    let ctx = Device::new(0, &m).context(&mut m);
    ctx.apply(&mut m, |cur, mut mm: Driver| {
        let st = cur.stream(&mut mm);
        let e = st.record(&mut mm);
        let raw = e.raw;
        let spore = e.sporulate();
        let back = spore.wrap(&cur);
        assert_eq!(back.raw, raw);
        back.synchronize(&mut mm);
        back.destroy(&mut mm);
        st.destroy(&mut mm);
        ((), mm)
    });
}
