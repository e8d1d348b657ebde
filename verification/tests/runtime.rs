use mx_runtime::driver::DeviceProps;
use mx_runtime::{
    memcpy_d2d, memcpy_d2h, memcpy_h2d, BlockLimit, CurrentCtx, Device, Dim3, Driver, MemSize,
    NoCtxError, SMLimit, Version,
};

fn sample_props(name: &str) -> DeviceProps {
    DeviceProps {
        name: String::from(name),
        compute_capability: Version { major: 8, minor: 0 },
        total_memory: MemSize(16 * 1024 * 1024 * 1024),
        alignment: 512,
        warp_size: 64,
        sm_count: 104,
        max_grid_dims: Dim3 { x: 2147483647, y: 65535, z: 65535 },
        block_limit: BlockLimit {
            max_threads: 1024,
            max_dims: Dim3 { x: 1024, y: 1024, z: 64 },
            max_smem: MemSize(64 * 1024),
            max_registers: MemSize(64 * 1024),
        },
        sm_limit: SMLimit {
            max_blocks: 32,
            max_threads: 2048,
            max_smem: MemSize(64 * 1024),
            max_registers: MemSize(64 * 1024),
        },
    }
}

fn one_device() -> Driver {
    Driver::new(vec![sample_props("MXC500")])
}

#[test]
fn test_primary() {
    let mut m = one_device();
    if mx_runtime::init(&m).is_err() {
        return;
    }
    let dev = Device::new(0, &m);
    let (flags, active) = dev.primary_state(&m);
    assert_eq!(flags, 0);
    assert!(!active);

    let pctx = dev.retain_primary(&mut m);
    assert!(pctx.primary);

    let (flags, active) = dev.primary_state(&m);
    assert_eq!(flags, 0);
    assert!(active);

    let r: Result<(), NoCtxError> = CurrentCtx::apply_current(&mut m, |_cur, mm| ((), mm));
    assert!(r.is_err());
}

#[test]
fn test() {
    let m = one_device();
    if mx_runtime::init(&m).is_err() {
        return;
    }
    for i in 0..Device::count(&m) {
        println!("{}", Device::new(i as i32, &m).info(&m).to_text());
    }
}

#[test]
fn test_binding() {
    let m = one_device();
    let _ = mx_runtime::init(&m);
    println!("{}", mx_runtime::get_device_count(&m));
}

#[test]
fn test_behavior() {
    let mut m = one_device();
    if mx_runtime::init(&m).is_err() {
        return;
    }
    let ctx = Device::new(0, &m).context(&mut m);
    ctx.apply(&mut m, |cur, mut mm: Driver| {
        let h = cur.malloc_host(&mut mm, 128);
        h.free(&mut mm);
        ((), mm)
    });
}

#[test]
fn device_capabilities_are_positive() {
    let m = one_device();
    for i in 0..Device::count(&m) {
        let d = Device::new(i as i32, &m);
        assert!(d.total_memory(&m).0 > 0);
        assert!(d.warp_size(&m) > 0);
        assert!(d.sm_count(&m) > 0);
        assert!(d.alignment(&m) > 0);
        assert!(d.max_grid_dims(&m).x >= 1);
        assert!(d.block_limit(&m).max_threads >= 1);
        assert!(d.sm_limit(&m).max_threads >= 1);
    }
    assert_eq!(Device::new(0, &m).name(&m), "MXC500");
    assert_eq!(
        Device::new(0, &m).compute_capability(&m),
        Version { major: 8, minor: 0 }
    );
}

#[test]
fn apply_observes_this_context_and_restores() {
    let mut m = one_device();
    let dev = Device::new(0, &m);
    let ctx = dev.context(&mut m);
    let expected = ctx.ctx;
    let seen = ctx.apply(&mut m, move |cur, mm: Driver| (cur.raw, mm));
    assert_eq!(seen, expected);
    // afterwards no context is current again
    let r: Result<usize, NoCtxError> = CurrentCtx::apply_current(&mut m, |cur, mm| (cur.raw, mm));
    assert!(r.is_err());
}

#[test]
fn apply_current_sees_the_pushed_context() {
    let mut m = one_device();
    let ctx = Device::new(0, &m).context(&mut m);
    let expected = ctx.ctx;
    let seen = ctx.apply(&mut m, move |_cur, mut mm: Driver| {
        let inner = CurrentCtx::apply_current(&mut mm, |cur, mm2| (cur.raw, mm2));
        (inner, mm)
    });
    assert_eq!(seen.unwrap(), expected);
}

#[test]
fn apply_current_unchecked_runs_under_current() {
    let mut m = one_device();
    let ctx = Device::new(0, &m).context(&mut m);
    let raw = ctx.ctx;
    let seen = ctx.apply(&mut m, move |_cur, mut mm: Driver| {
        let got = CurrentCtx::apply_current_unchecked(raw, &mut mm, |cur, mm2| (cur.raw, mm2));
        (got, mm)
    });
    assert_eq!(seen, raw);
}

#[test]
fn current_ctx_dev_reports_owner() {
    let mut m = one_device();
    let ctx = Device::new(0, &m).context(&mut m);
    let idx = ctx.apply(&mut m, |cur, mut mm: Driver| {
        cur.synchronize(&mut mm);
        (cur.dev(&mm).index, mm)
    });
    assert_eq!(idx, 0);
}

#[test]
fn host_round_trip_reproduces_bytes() {
    let mut m = one_device();
    let ctx = Device::new(0, &m).context(&mut m);
    ctx.apply(&mut m, |cur, mut mm: Driver| {
        let buf: Vec<u8> = vec![7, 0, 255, 42, 1];
        let dmem = cur.from_host(&mut mm, &buf);
        let mut back = vec![0u8; buf.len()];
        memcpy_d2h(&mm, &mut back, &dmem);
        assert_eq!(back, buf);

        // the zero-length round trip holds too
        let empty: Vec<u8> = Vec::new();
        let dempty = cur.from_host(&mut mm, &empty);
        let mut back0: Vec<u8> = Vec::new();
        memcpy_d2h(&mm, &mut back0, &dempty);
        assert_eq!(back0, empty);
        ((), mm)
    });
}

#[test]
fn memcpy_h2d_then_d2d_then_back() {
    let mut m = one_device();
    let ctx = Device::new(0, &m).context(&mut m);
    ctx.apply(&mut m, |cur, mut mm: Driver| {
        let a = cur.malloc(&mut mm, 4);
        let b = cur.malloc(&mut mm, 4);
        memcpy_h2d(&mut mm, &a, &[1, 2, 3, 4]);
        memcpy_d2d(&mut mm, &b, &a);
        let mut back = vec![0u8; 4];
        memcpy_d2h(&mm, &mut back, &b);
        assert_eq!(back, vec![1, 2, 3, 4]);
        ((), mm)
    });
}

#[test]
fn zero_length_dev_mem_has_empty_view() {
    let mut m = one_device();
    let ctx = Device::new(0, &m).context(&mut m);
    ctx.apply(&mut m, |cur, mut mm: Driver| {
        let dmem = cur.malloc(&mut mm, 0);
        assert_eq!(dmem.len(), 0);
        assert!(dmem.bytes(&mm).is_empty());
        ((), mm)
    });
}

#[test]
fn drop_on_frees_the_allocation() {
    let mut m = one_device();
    let ctx = Device::new(0, &m).context(&mut m);
    ctx.apply(&mut m, |cur, mut mm: Driver| {
        let st = cur.stream(&mut mm);
        let dmem = cur.malloc(&mut mm, 8);
        let h = dmem.raw;
        dmem.drop_on(&mut mm, &st);
        assert!(!mm.dev_allocs[h].alive);
        st.destroy(&mut mm);
        ((), mm)
    });
}

#[test]
fn dev_mem_spore_round_trip() {
    let mut m = one_device();
    let ctx = Device::new(0, &m).context(&mut m);
    ctx.apply(&mut m, |cur, mut mm: Driver| {
        let dmem = cur.from_host(&mut mm, &[9, 8, 7]);
        let raw = dmem.raw;
        let spore = dmem.sporulate();
        assert_eq!(spore.len(), 3);
        assert!(!spore.is_empty());
        let back = spore.wrap(&cur);
        assert_eq!(back.raw, raw);
        let mut out = vec![0u8; 3];
        memcpy_d2h(&mm, &mut out, &back);
        assert_eq!(out, vec![9, 8, 7]);
        ((), mm)
    });
}

#[test]
fn page_lock_and_unlock_balance() {
    let mut m = one_device();
    let ctx = Device::new(0, &m).context(&mut m);
    ctx.apply(&mut m, |cur, mut mm: Driver| {
        let buf: Vec<u8> = vec![0; 32];
        cur.lock_page(&mut mm, &buf);
        assert_eq!(mm.page_locks, 1);
        cur.unlock_page(&mut mm, &buf);
        assert_eq!(mm.page_locks, 0);
        ((), mm)
    });
}

#[test]
fn host_mem_copy_and_read() {
    let mut m = one_device();
    let ctx = Device::new(0, &m).context(&mut m);
    ctx.apply(&mut m, |cur, mut mm: Driver| {
        let h = cur.malloc_host(&mut mm, 3);
        h.copy_from(&mut mm, &[4, 5, 6]);
        assert_eq!(h.bytes(&mm).as_slice(), &[4, 5, 6]);
        let spore = h.sporulate();
        assert_eq!(spore.bytes(&mm).as_slice(), &[4, 5, 6]);
        let back = spore.wrap(&cur);
        back.free(&mut mm);
        ((), mm)
    });
}

#[test]
fn ordinary_context_destroy_kills_record() {
    let mut m = one_device();
    let ctx = Device::new(0, &m).context(&mut m);
    let h = ctx.ctx;
    assert!(m.contexts[h].alive);
    ctx.destroy(&mut m);
    assert!(!m.contexts[h].alive);
}

#[test]
fn primary_context_destroy_resets_device() {
    let mut m = one_device();
    let dev = Device::new(0, &m);
    let pctx = dev.retain_primary(&mut m);
    assert!(dev.primary_state(&m).1);
    pctx.destroy(&mut m);
    assert!(!dev.primary_state(&m).1);
}

#[test]
fn init_without_devices_reports_no_device() {
    let m = Driver::new(Vec::new());
    assert_eq!(mx_runtime::init(&m), Err(mx_runtime::NoDevice));
}

#[test]
fn context_device_round_trip() {
    let mut m = one_device();
    let dev = Device::new(0, &m);
    let ctx = dev.context(&mut m);
    assert_eq!(ctx.device().index, 0);
}
