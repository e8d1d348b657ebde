use mx_runtime::driver::DeviceProps;
use mx_runtime::{BlockLimit, Device, Dim3, Driver, MemSize, SMLimit, Version};

#[test]
fn mem_size_binary_prefixes() {
    assert_eq!(MemSize(1024).to_text(), "1KiB");
    assert_eq!(MemSize(1048576).to_text(), "1MiB");
    assert_eq!(MemSize(0).to_text(), "0");
    assert_eq!(MemSize(100).to_text(), "100B");
}

#[test]
fn mem_size_larger_buckets() {
    assert_eq!(MemSize(1 << 30).to_text(), "1GiB");
    assert_eq!(MemSize(1 << 40).to_text(), "1TiB");
    assert_eq!(MemSize(3 << 40).to_text(), "3TiB");
    assert_eq!(MemSize(48 * 1024).to_text(), "48KiB");
    assert_eq!(MemSize(1025).to_text(), "1025B");
    assert_eq!(MemSize(1).to_text(), "1B");
}

#[test]
fn version_strings() {
    let v = Version { major: 8, minor: 0 };
    assert_eq!(v.to_arch_string(), "80");
    assert_eq!(v.to_text(), "8.0");
    let w = Version { major: 12, minor: 6 };
    assert_eq!(w.to_arch_string(), "126");
    assert_eq!(w.to_text(), "12.6");
}

#[test]
fn version_ordering() {
    let a = Version { major: 7, minor: 5 };
    let b = Version { major: 8, minor: 0 };
    let c = Version { major: 8, minor: 6 };
    assert!(a < b);
    assert!(b < c);
    assert!(c > a);
    assert!(b == Version { major: 8, minor: 0 });
}

#[test]
fn dim3_from_single_extent() {
    let d = Dim3::from(7u32);
    assert_eq!(d, Dim3 { x: 7, y: 1, z: 1 });
    let s = MemSize::from(4096usize);
    assert_eq!(s, MemSize(4096));
}

#[test]
fn info_text_exact() {
    let props = DeviceProps {
        name: String::from("MXC500"),
        compute_capability: Version { major: 8, minor: 0 },
        total_memory: MemSize(1024 * 1024 * 1024),
        alignment: 512,
        warp_size: 64,
        sm_count: 8,
        max_grid_dims: Dim3 { x: 1024, y: 64, z: 32 },
        block_limit: BlockLimit {
            max_threads: 1024,
            max_dims: Dim3 { x: 1024, y: 64, z: 16 },
            max_smem: MemSize(64 * 1024),
            max_registers: MemSize(32 * 1024),
        },
        sm_limit: SMLimit {
            max_blocks: 16,
            max_threads: 2048,
            max_smem: MemSize(128 * 1024),
            max_registers: MemSize(256 * 1024),
        },
    };
    let m = Driver::new(vec![props]);
    let text = Device::new(0, &m).info(&m).to_text();
    let expected = "GPU0 (MXC500)\n  cc = 8.0\n  gmem = 1GiB\n  alignment = 512\n  warp size = 64\n  sm count = 8\n  block limit\n    threads = 1024 (x: 1024, y: 64, z: 16)\n    smem = 64KiB\n    registers = 32KiB\n  sm limit\n    blocks = 16\n    threads = 2048\n    smem = 128KiB\n    registers = 256KiB\n  grid = (x: 1024, y: 64, z: 32)\n";
    assert_eq!(text, expected);
}
