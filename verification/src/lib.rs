//! A safety layer over a low-level accelerator (GPU) driver, with the driver's
//! observable state held as an explicit value so that every operation of the
//! layer is specified and machine-checked against it.
//!
//! The core of the design is the association between execution contexts and
//! the resources created under them: a resource handle may only be used while
//! its owning context is the active one, and a detached ("spore") form of each
//! handle lets a resource travel without that proof, at the price of an
//! explicit, checked reattachment.

use vstd::prelude::*;

pub mod context;
pub mod device;
pub mod driver;
pub mod event;
pub mod memory;
pub mod stream;
pub mod text;

pub use context::{Context, CurrentCtx, NoCtxError};
pub use device::{BlockLimit, Device, InfoFmt, SMLimit};
pub use driver::Driver;
pub use memory::{
    memcpy_d2d, memcpy_d2h, memcpy_h2d, DevByte, DevMem, DevMemSpore, HostMem, HostMemSpore,
};
pub use event::{Event, EventSpore};
pub use stream::{Stream, StreamSpore};

verus! {

use crate::text::{dec_int, dec_nat, dec_i64, dec_u64};

/// Error returned by [`init`] when no accelerator device is present.
#[derive(Clone, Copy, PartialEq, Eq, Hash, Debug)]
pub struct NoDevice;

/// Kernel-launch geometry: extents along the three grid/block axes.
#[derive(Clone, Copy, PartialEq, Eq, Structural, Hash, Debug)]
pub struct Dim3 {
    pub x: u32,
    pub y: u32,
    pub z: u32,
}

/// A compute-capability version, ordered by major then minor number.
#[derive(Clone, Copy, PartialEq, Eq, Structural, Hash, Debug)]
pub struct Version {
    pub major: i32,
    pub minor: i32,
}

/// A byte count with a human-readable, binary-prefix rendering.
#[derive(Clone, Copy, PartialEq, Eq, Structural, Hash, Debug)]
pub struct MemSize(pub usize);

/// A span of elapsed time, in nanoseconds of the driver's clock.
#[derive(Clone, Copy, PartialEq, Eq, Structural, Hash, Debug)]
pub struct TimeSpan {
    pub nanos: u64,
}

impl Version {
    /// The architecture string: major and minor digits run together,
    /// e.g. `8.0` renders as `"80"`.
    pub fn to_arch_string(&self) -> (s: String)
        ensures
            s@ == dec_int(self.major as int).add(dec_int(self.minor as int)),
    {
        let mut s = dec_i64(self.major as i64);
        let minor = dec_i64(self.minor as i64);
        s.append(minor.as_str());
        proof {
            assert(s@ =~= dec_int(self.major as int).add(dec_int(self.minor as int)));
        }
        s
    }

    /// The dotted rendering, e.g. `"8.0"`.
    pub fn to_text(&self) -> (s: String)
        ensures
            s@ == dec_int(self.major as int).add(seq!['.']).add(dec_int(self.minor as int)),
    {
        let mut s = dec_i64(self.major as i64);
        s.append(".");
        let minor = dec_i64(self.minor as i64);
        s.append(minor.as_str());
        proof {
            reveal_strlit(".");
            assert(s@ =~= dec_int(self.major as int).add(seq!['.']).add(
                dec_int(self.minor as int),
            ));
        }
        s
    }
}

impl PartialOrd for Version {
    /// Versions order by major number, then by minor number.
    fn partial_cmp(&self, other: &Self) -> (r: Option<core::cmp::Ordering>) {
        if self.major < other.major {
            Some(core::cmp::Ordering::Less)
        } else if self.major > other.major {
            Some(core::cmp::Ordering::Greater)
        } else if self.minor < other.minor {
            Some(core::cmp::Ordering::Less)
        } else if self.minor > other.minor {
            Some(core::cmp::Ordering::Greater)
        } else {
            Some(core::cmp::Ordering::Equal)
        }
    }
}

impl vstd::std_specs::cmp::PartialOrdSpecImpl for Version {
    open spec fn obeys_partial_cmp_spec() -> bool {
        true
    }

    open spec fn partial_cmp_spec(&self, other: &Self) -> Option<core::cmp::Ordering> {
        if self.major < other.major {
            Some(core::cmp::Ordering::Less)
        } else if self.major > other.major {
            Some(core::cmp::Ordering::Greater)
        } else if self.minor < other.minor {
            Some(core::cmp::Ordering::Less)
        } else if self.minor > other.minor {
            Some(core::cmp::Ordering::Greater)
        } else {
            Some(core::cmp::Ordering::Equal)
        }
    }
}

/// The binary-prefix rendering of a byte count: the bucket (B, KiB, MiB, GiB,
/// TiB) is chosen by the largest power-of-two unit that divides the count
/// exactly, and `0` renders as `"0"`.
pub open spec fn mem_size_text(n: int) -> Seq<char> {
    if n == 0 {
        seq!['0']
    } else if n % 0x10000000000 == 0 {
        dec_nat((n / 0x10000000000) as nat).add("TiB"@)
    } else if n % 0x40000000 == 0 {
        dec_nat((n / 0x40000000) as nat).add("GiB"@)
    } else if n % 0x100000 == 0 {
        dec_nat((n / 0x100000) as nat).add("MiB"@)
    } else if n % 0x400 == 0 {
        dec_nat((n / 0x400) as nat).add("KiB"@)
    } else {
        dec_nat(n as nat).add("B"@)
    }
}

impl MemSize {
    /// Renders the byte count with a binary prefix, per [`mem_size_text`].
    pub fn to_text(&self) -> (s: String)
        ensures
            s@ == mem_size_text(self.0 as int),
    {
        let n: u64 = self.0 as u64;
        if n == 0 {
            let s = String::from_str("0");
            proof {
                reveal_strlit("0");
                assert(s@ =~= mem_size_text(n as int));
            }
            s
        } else if n % 0x10000000000 == 0 {
            let mut s = dec_u64((n / 0x10000000000) as u64);
            s.append("TiB");
            proof {
                assert(s@ =~= mem_size_text(n as int));
            }
            s
        } else if n % 0x40000000 == 0 {
            let mut s = dec_u64((n / 0x40000000) as u64);
            s.append("GiB");
            proof {
                assert(s@ =~= mem_size_text(n as int));
            }
            s
        } else if n % 0x100000 == 0 {
            let mut s = dec_u64((n / 0x100000) as u64);
            s.append("MiB");
            proof {
                assert(s@ =~= mem_size_text(n as int));
            }
            s
        } else if n % 0x400 == 0 {
            let mut s = dec_u64((n / 0x400) as u64);
            s.append("KiB");
            proof {
                assert(s@ =~= mem_size_text(n as int));
            }
            s
        } else {
            let mut s = dec_u64(n as u64);
            s.append("B");
            proof {
                assert(s@ =~= mem_size_text(n as int));
            }
            s
        }
    }
}

impl From<()> for Dim3 {
    /// The unit geometry: one thread of everything.
    fn from(u: ()) -> (r: Self) {
        let _ = u;
        Dim3 { x: 1, y: 1, z: 1 }
    }
}

impl vstd::std_specs::convert::FromSpecImpl<()> for Dim3 {
    open spec fn obeys_from_spec() -> bool {
        true
    }

    open spec fn from_spec(u: ()) -> Self {
        Dim3 { x: 1, y: 1, z: 1 }
    }
}

impl From<u32> for Dim3 {
    /// A single extent fills the x axis; the others stay 1.
    fn from(x: u32) -> (r: Self) {
        Dim3 { x, y: 1, z: 1 }
    }
}

impl vstd::std_specs::convert::FromSpecImpl<u32> for Dim3 {
    open spec fn obeys_from_spec() -> bool {
        true
    }

    open spec fn from_spec(x: u32) -> Self {
        Dim3 { x, y: 1, z: 1 }
    }
}

impl From<(u32, u32)> for Dim3 {
    /// A `(y, x)` pair, for planar geometry.
    fn from(yx: (u32, u32)) -> (r: Self) {
        Dim3 { x: yx.1, y: yx.0, z: 1 }
    }
}

impl vstd::std_specs::convert::FromSpecImpl<(u32, u32)> for Dim3 {
    open spec fn obeys_from_spec() -> bool {
        true
    }

    open spec fn from_spec(yx: (u32, u32)) -> Self {
        Dim3 { x: yx.1, y: yx.0, z: 1 }
    }
}

impl From<(u32, u32, u32)> for Dim3 {
    /// A `(z, y, x)` triple.
    fn from(zyx: (u32, u32, u32)) -> (r: Self) {
        Dim3 { x: zyx.2, y: zyx.1, z: zyx.0 }
    }
}

impl vstd::std_specs::convert::FromSpecImpl<(u32, u32, u32)> for Dim3 {
    open spec fn obeys_from_spec() -> bool {
        true
    }

    open spec fn from_spec(zyx: (u32, u32, u32)) -> Self {
        Dim3 { x: zyx.2, y: zyx.1, z: zyx.0 }
    }
}

impl From<usize> for MemSize {
    fn from(value: usize) -> (r: Self) {
        MemSize(value)
    }
}

impl vstd::std_specs::convert::FromSpecImpl<usize> for MemSize {
    open spec fn obeys_from_spec() -> bool {
        true
    }

    open spec fn from_spec(value: usize) -> Self {
        MemSize(value)
    }
}

/// Brings the driver up.  Succeeds exactly when at least one device is
/// present; the driver's "invalid device" status is the one initialization
/// failure reported as a recoverable, typed error.
pub fn init(m: &Driver) -> (r: Result<(), NoDevice>)
    ensures
        r is Ok <==> m@.devices.len() > 0,
{
    if Device::count(m) > 0 {
        Ok(())
    } else {
        Err(NoDevice)
    }
}

/// The number of devices the driver enumerates, as the driver reports it.
pub fn get_device_count(m: &Driver) -> (n: i32)
    requires
        m@.devices.len() <= i32::MAX,
    ensures
        n == m@.devices.len(),
{
    Device::count(m) as i32
}

} // verus!
