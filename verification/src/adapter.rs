//! The adapter front end: what the hypervisor's calls turn into.
//!
//! The hypervisor reads and writes configuration registers and accesses the
//! regions behind the BARs. The front end turns each call into the command
//! for the bridge, answers on its own the accesses that no request can
//! serve, and keeps the regions that the device was given.

use crate::allocation::{
    placeable, pool_for, AddressPool, AllocationError, BarAllocation, BarAllocationView,
};
use crate::bridge::{make_bdf, spec_make_bdf, AdapterMessage, BridgeView, ConfigData, PciSimBridge,
    supported};
use crate::bytes::{le_bytes, le_bytes_prefix, le_dword, dword_from_le, lemma_le_dword_of_le_bytes};
use crate::region::{MmioRegion, PciBarRegionType};
use crate::scan::{BarProbe, BarScan, BarScanView};
use vstd::prelude::*;

verus! {

/// The largest access, in bytes, that is served through the lane.
pub const MAX_ACCESS_SIZE: usize = 8;

/// The byte that reads as the content of what is not there.
pub const UNMAPPED_BYTE: u8 = 0xff;

/// The first of `regions` that holds `addr`, if any does.
pub open spec fn first_region(regions: Seq<MmioRegion>, addr: u64) -> Option<MmioRegion>
    decreases regions.len(),
{
    if regions.len() == 0 {
        None
    } else if regions[0].contains(addr) {
        Some(regions[0])
    } else {
        first_region(regions.drop_first(), addr)
    }
}

/// `len` bytes that read as nothing.
pub open spec fn unmapped_bytes(len: nat) -> Seq<u8> {
    Seq::new(len, |i: int| UNMAPPED_BYTE)
}

/// What the front end makes of a read from a BAR region.
#[derive(Debug)]
pub enum MmioRead {
    /// No region holds the address. The buffer reads as nothing.
    Unmapped,
    /// The access is larger than the lane serves. The buffer reads as
    /// nothing.
    TooLarge,
    /// The bridge is to be sent `msg`, and the bytes that come back belong
    /// into the buffer. `slot_mapped` says that the region is one that
    /// shared memory should have served.
    Request { msg: AdapterMessage, slot_mapped: bool },
}

/// The adapter as the hypervisor sees it, without its threads and channels.
#[derive(Debug)]
pub struct PciAdapter {
    /// The regions of guest address space that the device decodes.
    pub mmio_regions: Vec<MmioRegion>,
}

impl PciAdapter {
    /// An adapter with no regions yet, and the bridge that serves it: the
    /// function 0 of device 2 on bus 0.
    pub fn start() -> (out: (PciAdapter, PciSimBridge))
        ensures
            out.0.mmio_regions@ == Seq::<MmioRegion>::empty(),
            out.1@ == (BridgeView {
                bdf: spec_make_bdf(0x0, 0x2, 0x0),
                config_tag: 0,
                store: Map::empty(),
            }),
    {
        (PciAdapter { mmio_regions: Vec::new() }, PciSimBridge::new(make_bdf(0x0, 0x2, 0x0)))
    }

    /// The command that reads configuration register `reg_idx`.
    pub fn config_read(&self, reg_idx: usize) -> (msg: AdapterMessage)
        ensures
            msg == AdapterMessage::ConfigRead(reg_idx),
            supported(msg),
    {
        AdapterMessage::ConfigRead(reg_idx)
    }

    /// The command that writes `data` at byte `offset` of configuration
    /// register `reg_idx`. The bytes travel as the DWORD that they denote in
    /// little-endian order.
    pub fn config_write(&self, reg_idx: usize, offset: u64, data: &[u8]) -> (msg: AdapterMessage)
        ensures
            msg == AdapterMessage::ConfigWrite(
                ConfigData { reg_idx, offset, len: data@.len() as usize, data: le_dword(data@) },
            ),
    {
        let len: usize = data.len();
        let bytes: u32 = dword_from_le(data);
        AdapterMessage::ConfigWrite(ConfigData { reg_idx, offset, len, data: bytes })
    }

    /// The command that writes the whole of configuration register
    /// `reg_idx`.
    pub fn config_write_u32(&self, reg_idx: usize, data: u32) -> (msg: AdapterMessage)
        ensures
            msg == AdapterMessage::ConfigWrite(ConfigData { reg_idx, offset: 0, len: 4, data }),
            supported(msg),
    {
        let bytes = le_bytes_prefix(data, 4);
        proof {
            assert(bytes@ =~= le_bytes(data));
            lemma_le_dword_of_le_bytes(data);
        }
        self.config_write(reg_idx, 0, bytes.as_slice())
    }

    /// The first registered region that holds the guest address `addr`.
    pub fn find_region(&self, addr: u64) -> (found: Option<MmioRegion>)
        ensures
            found == first_region(self.mmio_regions@, addr),
    {
        let mut i: usize = 0;
        assert(self.mmio_regions@.skip(0) =~= self.mmio_regions@);
        while i < self.mmio_regions.len()
            invariant
                i <= self.mmio_regions@.len(),
                first_region(self.mmio_regions@, addr) == first_region(
                    self.mmio_regions@.skip(i as int),
                    addr,
                ),
            decreases self.mmio_regions@.len() - i,
        {
            let region = self.mmio_regions[i];
            proof {
                let rest = self.mmio_regions@.skip(i as int);
                assert(rest[0] == region);
                assert(rest.drop_first() =~= self.mmio_regions@.skip(i + 1));
            }
            if region.holds(addr) {
                return Some(region);
            }
            i = i + 1;
        }
        None
    }

    /// A read of `data.len()` bytes at the guest address `addr`.
    ///
    /// An address that no region holds, and an access of more than
    /// [`MAX_ACCESS_SIZE`] bytes, are answered at once: the buffer is filled
    /// with [`UNMAPPED_BYTE`]. Any other read becomes a memory read command
    /// and leaves the buffer as it is.
    pub fn bar_mmio_read(&self, addr: u64, data: &mut [u8]) -> (out: MmioRead)
        ensures
            final(data)@.len() == old(data)@.len(),
            match first_region(self.mmio_regions@, addr) {
                None => out is Unmapped && final(data)@ == unmapped_bytes(old(data)@.len()),
                Some(region) => if old(data)@.len() > MAX_ACCESS_SIZE {
                    out is TooLarge && final(data)@ == unmapped_bytes(old(data)@.len())
                } else {
                    &&& out matches MmioRead::Request { msg, slot_mapped }
                    &&& msg == AdapterMessage::MemoryRead(addr, old(data)@.len() as usize)
                    &&& supported(msg)
                    &&& slot_mapped == region.slot_mapped
                    &&& final(data)@ == old(data)@
                },
            },
    {
        match self.find_region(addr) {
            Some(region) => {
                if data.len() > MAX_ACCESS_SIZE {
                    fill_unmapped(data);
                    MmioRead::TooLarge
                } else {
                    MmioRead::Request {
                        msg: AdapterMessage::MemoryRead(addr, data.len()),
                        slot_mapped: region.slot_mapped,
                    }
                }
            },
            None => {
                fill_unmapped(data);
                MmioRead::Unmapped
            },
        }
    }

    /// The probe of BAR register `reg_idx`.
    pub fn detect_bar(&self, reg_idx: usize) -> (probe: BarProbe)
        ensures
            probe == BarProbe::start(reg_idx),
    {
        BarProbe::new(reg_idx)
    }

    /// The scan of the six BARs.
    pub fn scan_bar(&self) -> (scan: BarScan)
        ensures
            scan@ == BarScanView::start(),
            scan.probed() == Seq::<u32>::empty(),
    {
        BarScan::new()
    }

    /// Begins to give the regions that a scan found their addresses. The
    /// adapter forgets the regions it had.
    pub fn allocate_bars(&mut self, regions: Vec<MmioRegion>) -> (allocation: BarAllocation)
        requires
            placeable(regions@),
        ensures
            final(self).mmio_regions@ == Seq::<MmioRegion>::empty(),
            allocation@ == BarAllocationView::start(regions@),
    {
        self.mmio_regions.clear();
        BarAllocation::new(regions)
    }

    /// Ends an allocation: the regions that were placed are the adapter's
    /// from now on, whether all of them were placed or not. The result is
    /// the range and kind of every region placed, or the failure.
    pub fn complete_allocation(&mut self, allocation: BarAllocation) -> (out: Result<
        Vec<(u64, u64, PciBarRegionType)>,
        AllocationError,
    >)
        ensures
            final(self).mmio_regions@ == allocation@.assigned,
            match out {
                Ok(ranges) => allocation@.outcome() == Ok::<
                    Seq<(u64, u64, PciBarRegionType)>,
                    AllocationError,
                >(ranges@),
                Err(e) => allocation@.outcome() == Err::<
                    Seq<(u64, u64, PciBarRegionType)>,
                    AllocationError,
                >(e),
            },
    {
        let (regions, outcome) = allocation.finish();
        self.mmio_regions = regions;
        outcome
    }

    /// The ranges to give back to the pools when the device goes: that of
    /// every region, with the pool it came from.
    pub fn free_bars(&self) -> (releases: Vec<(AddressPool, u64, u64)>)
        ensures
            releases@ == self.mmio_regions@.map(
                |i: int, r: MmioRegion| (pool_for(r.type_), r.start, r.length),
            ),
    {
        let mut releases: Vec<(AddressPool, u64, u64)> = Vec::new();
        let ghost wanted = self.mmio_regions@.map(
            |i: int, r: MmioRegion| (pool_for(r.type_), r.start, r.length),
        );
        let mut i: usize = 0;
        while i < self.mmio_regions.len()
            invariant
                i <= self.mmio_regions@.len(),
                wanted == self.mmio_regions@.map(
                    |i: int, r: MmioRegion| (pool_for(r.type_), r.start, r.length),
                ),
                releases@ == wanted.take(i as int),
            decreases self.mmio_regions@.len() - i,
        {
            let region = self.mmio_regions[i];
            let pool = match region.type_ {
                PciBarRegionType::IoRegion => AddressPool::Io,
                PciBarRegionType::Memory32BitRegion => AddressPool::MmioHole,
                PciBarRegionType::Memory64BitRegion => AddressPool::Mmio,
            };
            releases.push((pool, region.start, region.length));
            assert(releases@ =~= wanted.take(i + 1));
            i = i + 1;
        }
        assert(releases@ =~= wanted);
        releases
    }
}

/// Fills `data` with [`UNMAPPED_BYTE`].
pub fn fill_unmapped(data: &mut [u8])
    ensures
        final(data)@ == unmapped_bytes(old(data)@.len()),
{
    let n: usize = data.len();
    let mut i: usize = 0;
    while i < n
        invariant
            data@.len() == n,
            i <= n,
            forall|j: int| 0 <= j < i ==> data@[j] == UNMAPPED_BYTE,
        decreases n - i,
    {
        data[i] = UNMAPPED_BYTE;
        i = i + 1;
    }
    assert(data@ =~= unmapped_bytes(n as nat));
}

/// Puts the bytes that a memory read brought into the buffer of the caller.
/// The read must have brought as many bytes as were asked for.
pub fn copy_read_bytes(data: &mut [u8], value: &[u8])
    requires
        old(data)@.len() == value@.len(),
    ensures
        final(data)@ == value@,
{
    let n: usize = data.len();
    let mut i: usize = 0;
    while i < n
        invariant
            data@.len() == n,
            value@.len() == n,
            i <= n,
            forall|j: int| 0 <= j < i ==> data@[j] == value@[j],
        decreases n - i,
    {
        data[i] = value[i];
        i = i + 1;
    }
    assert(data@ =~= value@);
}

} // verus!
