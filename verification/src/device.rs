//! Device enumeration and capability queries.

use vstd::prelude::*;

verus! {

use crate::driver::{DevicePropsView, Driver};
use crate::text::{dec_int, dec_nat};
use crate::{Dim3, MemSize, Version};

/// Identifies one physical accelerator by its 0-based ordinal.  A plain
/// value: it owns nothing and is valid for the life of the driver state.
#[derive(Clone, Copy, PartialEq, Eq, Structural, Hash, Debug)]
pub struct Device {
    pub index: usize,
}

/// Per-block execution limits of a device.
#[derive(Clone, Copy, PartialEq, Eq, Structural, Hash, Debug)]
pub struct BlockLimit {
    pub max_threads: usize,
    pub max_dims: Dim3,
    pub max_smem: MemSize,
    pub max_registers: MemSize,
}

/// Per-multiprocessor execution limits of a device.
#[derive(Clone, Copy, PartialEq, Eq, Structural, Hash, Debug)]
pub struct SMLimit {
    pub max_blocks: usize,
    pub max_threads: usize,
    pub max_smem: MemSize,
    pub max_registers: MemSize,
}

impl Device {
    /// The capabilities the driver reports for this device.
    pub open spec fn props(self, v: crate::driver::DriverView) -> DevicePropsView {
        v.devices[self.index as int]
    }

    /// This device is one the driver enumerates.
    pub open spec fn valid(self, v: crate::driver::DriverView) -> bool {
        self.index < v.devices.len()
    }

    /// Resolves a 0-based device ordinal.  An out-of-range ordinal is a fatal
    /// driver error, so it is excluded here.
    pub fn new(index: i32, m: &Driver) -> (d: Device)
        requires
            0 <= index < m@.devices.len(),
        ensures
            d.index == index,
            d.valid(m@),
    {
        Device { index: index as usize }
    }

    /// How many devices the driver enumerates.
    pub fn count(m: &Driver) -> (n: usize)
        ensures
            n == m@.devices.len(),
    {
        m.devices.len()
    }

    /// The device's marketing name.
    pub fn name(&self, m: &Driver) -> (s: String)
        requires
            self.valid(m@),
        ensures
            s@ == self.props(m@).name,
    {
        let p = &m.devices[self.index];
        p.name.clone()
    }

    /// The device's compute-capability version.
    pub fn compute_capability(&self, m: &Driver) -> (v: Version)
        requires
            self.valid(m@),
        ensures
            v == self.props(m@).compute_capability,
    {
        m.devices[self.index].compute_capability
    }

    /// Total device memory, in bytes.
    pub fn total_memory(&self, m: &Driver) -> (s: MemSize)
        requires
            self.valid(m@),
        ensures
            s == self.props(m@).total_memory,
    {
        m.devices[self.index].total_memory
    }

    /// The texture alignment requirement, in bytes.
    pub fn alignment(&self, m: &Driver) -> (a: usize)
        requires
            self.valid(m@),
        ensures
            a == self.props(m@).alignment,
    {
        m.devices[self.index].alignment
    }

    /// Threads per warp.
    pub fn warp_size(&self, m: &Driver) -> (w: usize)
        requires
            self.valid(m@),
        ensures
            w == self.props(m@).warp_size,
    {
        m.devices[self.index].warp_size
    }

    /// Number of streaming multiprocessors.
    pub fn sm_count(&self, m: &Driver) -> (c: usize)
        requires
            self.valid(m@),
        ensures
            c == self.props(m@).sm_count,
    {
        m.devices[self.index].sm_count
    }

    /// Largest launchable grid, per axis.
    pub fn max_grid_dims(&self, m: &Driver) -> (g: Dim3)
        requires
            self.valid(m@),
        ensures
            g == self.props(m@).max_grid_dims,
    {
        m.devices[self.index].max_grid_dims
    }

    /// Per-block execution limits.
    pub fn block_limit(&self, m: &Driver) -> (b: BlockLimit)
        requires
            self.valid(m@),
        ensures
            b == self.props(m@).block_limit,
    {
        m.devices[self.index].block_limit
    }

    /// Per-multiprocessor execution limits.
    pub fn sm_limit(&self, m: &Driver) -> (s: SMLimit)
        requires
            self.valid(m@),
        ensures
            s == self.props(m@).sm_limit,
    {
        m.devices[self.index].sm_limit
    }

    /// Gathers everything the device reports into one displayable summary.
    pub fn info(&self, m: &Driver) -> (f: InfoFmt)
        requires
            self.valid(m@),
        ensures
            f.index == self.index,
            f.name@ == self.props(m@).name,
            f.compute_capability == self.props(m@).compute_capability,
            f.total_memory == self.props(m@).total_memory,
            f.alignment == self.props(m@).alignment,
            f.warp_size == self.props(m@).warp_size,
            f.sm_count == self.props(m@).sm_count,
            f.max_grid_dims == self.props(m@).max_grid_dims,
            f.block_limit == self.props(m@).block_limit,
            f.sm_limit == self.props(m@).sm_limit,
    {
        InfoFmt {
            index: self.index,
            name: self.name(m),
            compute_capability: self.compute_capability(m),
            total_memory: self.total_memory(m),
            alignment: self.alignment(m),
            warp_size: self.warp_size(m),
            sm_count: self.sm_count(m),
            max_grid_dims: self.max_grid_dims(m),
            block_limit: self.block_limit(m),
            sm_limit: self.sm_limit(m),
        }
    }
}

/// All valid devices of a well-formed driver state report self-consistent,
/// positive capabilities: total memory, alignment, warp size, multiprocessor
/// count, grid extents and block/multiprocessor limits are all at least 1.
pub proof fn lemma_device_capabilities(v: crate::driver::DriverView, d: Device)
    requires
        v.wf(),
        d.valid(v),
    ensures
        d.props(v).total_memory.0 > 0,
        d.props(v).alignment > 0,
        d.props(v).warp_size > 0,
        d.props(v).sm_count > 0,
        d.props(v).max_grid_dims.x >= 1,
        d.props(v).max_grid_dims.y >= 1,
        d.props(v).max_grid_dims.z >= 1,
        d.props(v).block_limit.max_threads >= 1,
        d.props(v).sm_limit.max_blocks >= 1,
        d.props(v).sm_limit.max_threads >= 1,
{
    assert(v.devices[d.index as int].wf());
}

/// A displayable summary of one device's capabilities.
pub struct InfoFmt {
    pub index: usize,
    pub name: String,
    pub compute_capability: Version,
    pub total_memory: MemSize,
    pub alignment: usize,
    pub warp_size: usize,
    pub sm_count: usize,
    pub max_grid_dims: Dim3,
    pub block_limit: BlockLimit,
    pub sm_limit: SMLimit,
}

/// The rendering of a [`Dim3`] as `"(x: _, y: _, z: _)"`.
pub open spec fn dim3_text(d: Dim3) -> Seq<char> {
    "(x: "@.add(dec_nat(d.x as nat)).add(", y: "@).add(dec_nat(d.y as nat)).add(", z: "@).add(
        dec_nat(d.z as nat),
    ).add(")"@)
}

fn dim3_to_text(d: Dim3) -> (s: String)
    ensures
        s@ == dim3_text(d),
{
    let mut s = String::from_str("(x: ");
    let x = crate::text::dec_u64(d.x as u64);
    s.append(x.as_str());
    s.append(", y: ");
    let y = crate::text::dec_u64(d.y as u64);
    s.append(y.as_str());
    s.append(", z: ");
    let z = crate::text::dec_u64(d.z as u64);
    s.append(z.as_str());
    s.append(")");
    proof {
        assert(s@ =~= dim3_text(d));
    }
    s
}

/// The full rendering of a device summary, line by line.
pub open spec fn info_text(f: InfoFmt) -> Seq<char> {
    "GPU"@.add(dec_nat(f.index as nat)).add(" ("@).add(f.name@).add(")\n  cc = "@).add(
        dec_int(f.compute_capability.major as int),
    ).add(seq!['.']).add(dec_int(f.compute_capability.minor as int)).add("\n  gmem = "@).add(
        crate::mem_size_text(f.total_memory.0 as int),
    ).add("\n  alignment = "@).add(dec_nat(f.alignment as nat)).add("\n  warp size = "@).add(
        dec_nat(f.warp_size as nat),
    ).add("\n  sm count = "@).add(dec_nat(f.sm_count as nat)).add(
        "\n  block limit\n    threads = "@,
    ).add(dec_nat(f.block_limit.max_threads as nat)).add(" "@).add(
        dim3_text(f.block_limit.max_dims),
    ).add("\n    smem = "@).add(crate::mem_size_text(f.block_limit.max_smem.0 as int)).add(
        "\n    registers = "@,
    ).add(crate::mem_size_text(f.block_limit.max_registers.0 as int)).add(
        "\n  sm limit\n    blocks = "@,
    ).add(dec_nat(f.sm_limit.max_blocks as nat)).add("\n    threads = "@).add(
        dec_nat(f.sm_limit.max_threads as nat),
    ).add("\n    smem = "@).add(crate::mem_size_text(f.sm_limit.max_smem.0 as int)).add(
        "\n    registers = "@,
    ).add(crate::mem_size_text(f.sm_limit.max_registers.0 as int)).add("\n  grid = "@).add(
        dim3_text(f.max_grid_dims),
    ).add("\n"@)
}

impl InfoFmt {
    /// Renders the summary, one capability per line.
    pub fn to_text(&self) -> (s: String)
        ensures
            s@ == info_text(*self),
    {
        let mut s = String::from_str("GPU");
        let idx = crate::text::dec_u64(self.index as u64);
        s.append(idx.as_str());
        s.append(" (");
        s.append(self.name.as_str());
        s.append(")\n  cc = ");
        let cc = self.compute_capability.to_text();
        s.append(cc.as_str());
        s.append("\n  gmem = ");
        let gmem = self.total_memory.to_text();
        s.append(gmem.as_str());
        s.append("\n  alignment = ");
        let alignment = crate::text::dec_u64(self.alignment as u64);
        s.append(alignment.as_str());
        s.append("\n  warp size = ");
        let warp = crate::text::dec_u64(self.warp_size as u64);
        s.append(warp.as_str());
        s.append("\n  sm count = ");
        let smc = crate::text::dec_u64(self.sm_count as u64);
        s.append(smc.as_str());
        s.append("\n  block limit\n    threads = ");
        let bt = crate::text::dec_u64(self.block_limit.max_threads as u64);
        s.append(bt.as_str());
        s.append(" ");
        let bd = dim3_to_text(self.block_limit.max_dims);
        s.append(bd.as_str());
        s.append("\n    smem = ");
        let bs = self.block_limit.max_smem.to_text();
        s.append(bs.as_str());
        s.append("\n    registers = ");
        let br = self.block_limit.max_registers.to_text();
        s.append(br.as_str());
        s.append("\n  sm limit\n    blocks = ");
        let sb = crate::text::dec_u64(self.sm_limit.max_blocks as u64);
        s.append(sb.as_str());
        s.append("\n    threads = ");
        let st = crate::text::dec_u64(self.sm_limit.max_threads as u64);
        s.append(st.as_str());
        s.append("\n    smem = ");
        let ss = self.sm_limit.max_smem.to_text();
        s.append(ss.as_str());
        s.append("\n    registers = ");
        let sr = self.sm_limit.max_registers.to_text();
        s.append(sr.as_str());
        s.append("\n  grid = ");
        let gd = dim3_to_text(self.max_grid_dims);
        s.append(gd.as_str());
        s.append("\n");
        proof {
            assert(s@ =~= info_text(*self));
        }
        s
    }
}

} // verus!
