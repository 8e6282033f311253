//! Regions of guest address space that a device claims through its BARs.

use vstd::prelude::*;

verus! {

/// The kind of address space that a BAR decodes.
#[derive(Debug, Clone, Copy, PartialEq, Eq, Structural)]
pub enum PciBarRegionType {
    Memory32BitRegion,
    IoRegion,
    Memory64BitRegion,
}

/// A region that one BAR of the device decodes.
///
/// `start` is a guest physical address and `length` a size in bytes.
/// `bar_reg` is the index of the configuration register that holds the BAR,
/// or its lower half. `slot_mapped` marks a prefetchable memory region, which
/// a hypervisor may back with shared memory; the three fields after it
/// describe that backing once it exists.
#[derive(Debug, Clone, Copy)]
pub struct MmioRegion {
    pub start: u64,
    pub length: u64,
    pub type_: PciBarRegionType,
    pub bar_reg: usize,
    pub slot_mapped: bool,
    pub mem_slot: Option<u32>,
    pub host_addr: Option<u64>,
    pub mmap_size: Option<usize>,
}

impl MmioRegion {
    /// Whether the region holds the guest address `addr`.
    pub open spec fn contains(&self, addr: u64) -> bool {
        self.start <= addr < self.start + self.length
    }

    /// Decides [`MmioRegion::contains`].
    pub fn holds(&self, addr: u64) -> (inside: bool)
        ensures
            inside == self.contains(addr),
    {
        addr >= self.start && addr - self.start < self.length
    }
}

/// The kind of region that a BAR declares, read off the value that comes
/// back once every bit of the BAR has been written with one: bit 0 marks
/// I/O space; in memory space bits 2:1 with value 2 mark a 64-bit BAR.
pub open spec fn bar_region_type(sized: u32) -> PciBarRegionType {
    if sized & 0x1 == 1 {
        PciBarRegionType::IoRegion
    } else if (sized >> 1) & 0x3 == 0x2 {
        PciBarRegionType::Memory64BitRegion
    } else {
        PciBarRegionType::Memory32BitRegion
    }
}

/// Whether a BAR declares its region prefetchable: bit 3.
pub open spec fn bar_prefetchable(sized: u32) -> bool {
    sized & 0b1000 != 0
}

/// The size of the region of a 32-bit memory BAR: the two's complement of
/// the address bits that came back.
pub open spec fn memory32_size(sized: u32) -> u64 {
    vstd::wrapping::u32_specs::wrapping_add(!(sized & 0xffff_fff0), 1) as u64
}

/// The size of the region of a 64-bit memory BAR, whose upper half lives in
/// the register after it.
pub open spec fn memory64_size(sized: u32, upper: u32) -> u64 {
    vstd::wrapping::u64_specs::wrapping_add(
        !(((upper as u64) << 32) | (sized as u64 & 0xffff_fff0)),
        1,
    )
}

/// The size of the region of an I/O BAR.
pub open spec fn io_size(sized: u32) -> u64 {
    vstd::wrapping::u32_specs::wrapping_add(!(sized & 0xffff_fffc), 1) as u64
}

/// The region that a BAR in register `bar_reg` declares with the value
/// `sized`, and `upper` from the next register if the BAR has 64 bits. Its
/// address is not assigned yet; only memory can be prefetchable.
pub open spec fn declared_region(bar_reg: usize, sized: u32, upper: u32) -> MmioRegion {
    let type_ = bar_region_type(sized);
    MmioRegion {
        start: 0,
        length: match type_ {
            PciBarRegionType::Memory64BitRegion => memory64_size(sized, upper),
            PciBarRegionType::Memory32BitRegion => memory32_size(sized),
            PciBarRegionType::IoRegion => io_size(sized),
        },
        type_,
        bar_reg,
        slot_mapped: type_ != PciBarRegionType::IoRegion && bar_prefetchable(sized),
        mem_slot: None,
        host_addr: None,
        mmap_size: None,
    }
}

/// Decides [`bar_region_type`].
pub fn region_type_of(sized: u32) -> (type_: PciBarRegionType)
    ensures
        type_ == bar_region_type(sized),
{
    if sized & 0x1 == 1 {
        PciBarRegionType::IoRegion
    } else if (sized >> 1) & 0x3 == 0x2 {
        PciBarRegionType::Memory64BitRegion
    } else {
        PciBarRegionType::Memory32BitRegion
    }
}

/// Computes [`declared_region`].
pub fn region_of(bar_reg: usize, sized: u32, upper: u32) -> (region: MmioRegion)
    ensures
        region == declared_region(bar_reg, sized, upper),
{
    let type_ = region_type_of(sized);
    let prefetchable: bool = sized & 0b1000 != 0;
    let (length, slot_mapped): (u64, bool) = match type_ {
        PciBarRegionType::Memory64BitRegion => {
            let bits: u64 = ((upper as u64) << 32) | (sized as u64 & 0xffff_fff0);
            ((!bits).wrapping_add(1), prefetchable)
        },
        PciBarRegionType::Memory32BitRegion => {
            ((!(sized & 0xffff_fff0)).wrapping_add(1) as u64, prefetchable)
        },
        PciBarRegionType::IoRegion => ((!(sized & 0xffff_fffc)).wrapping_add(1) as u64, false),
    };
    MmioRegion {
        start: 0,
        length,
        type_,
        bar_reg,
        mem_slot: None,
        host_addr: None,
        mmap_size: None,
        slot_mapped,
    }
}

} // verus!
