//! Assignment of guest addresses to the regions that a scan has found.
//!
//! Each region gets a range from the pool of its kind, and the start of the
//! range is written into the BAR that declared the region. [`BarAllocation`]
//! decides, one step at a time, what to ask of the pools and what to write;
//! its owner talks to the allocator and to the device.

use crate::region::{MmioRegion, PciBarRegionType};
use crate::scan::ConfigAccess;
use vstd::prelude::*;

verus! {

/// The alignment asked for a region of memory.
pub const MEMORY_ALIGNMENT: u64 = 0x10;

/// The alignment asked for a region of I/O ports.
pub const IO_ALIGNMENT: u64 = 0x4;

/// The pools of guest addresses that regions come from.
#[derive(Debug, Clone, Copy, PartialEq, Eq, Structural)]
pub enum AddressPool {
    /// I/O ports.
    Io,
    /// Memory below 4 GiB, for 32-bit memory BARs.
    MmioHole,
    /// Memory above, for 64-bit memory BARs.
    Mmio,
}

/// Why the assignment of addresses failed.
#[derive(Debug, Clone, Copy, PartialEq, Eq, Structural)]
pub enum AllocationError {
    /// A pool had no range for a region of this length.
    IoAllocationFailed(u64),
}

/// What an allocation asks of its owner next.
#[derive(Debug, Clone, Copy, PartialEq, Eq, Structural)]
pub enum AllocationStep {
    /// Take `length` bytes, aligned to `align`, from `pool`, and report the
    /// start of the range, or that there is none.
    Allocate { pool: AddressPool, length: u64, align: u64 },
    /// Perform this configuration write and report that it is done.
    Program { access: ConfigAccess },
    /// Every region has its address.
    Done,
    /// A pool had no range for a region of `length` bytes.
    Failed { length: u64 },
}

/// Where an allocation stands with the region at hand.
#[derive(Debug, Clone, Copy, PartialEq, Eq, Structural)]
pub enum AllocationStage {
    Allocate,
    ProgramLower,
    ProgramUpper,
    Done,
    Failed,
}

/// The pool that regions of a kind come from.
pub open spec fn pool_for(type_: PciBarRegionType) -> AddressPool {
    match type_ {
        PciBarRegionType::Memory64BitRegion => AddressPool::Mmio,
        PciBarRegionType::Memory32BitRegion => AddressPool::MmioHole,
        PciBarRegionType::IoRegion => AddressPool::Io,
    }
}

/// The alignment asked for regions of a kind.
pub open spec fn alignment_for(type_: PciBarRegionType) -> u64 {
    match type_ {
        PciBarRegionType::IoRegion => IO_ALIGNMENT,
        _ => MEMORY_ALIGNMENT,
    }
}

/// The low 32 bits of an address.
pub open spec fn lower_half(addr: u64) -> u32 {
    (addr & 0xffff_ffff) as u32
}

/// The high 32 bits of an address.
pub open spec fn upper_half(addr: u64) -> u32 {
    (addr >> 32) as u32
}

/// The state of an allocation: the regions to place, the index of the one at
/// hand, the stage it is in, the start assigned to it, and the regions
/// placed and written to the device so far.
pub struct BarAllocationView {
    pub regions: Seq<MmioRegion>,
    pub index: int,
    pub stage: AllocationStage,
    pub start: u64,
    pub assigned: Seq<MmioRegion>,
}

impl BarAllocationView {
    /// The allocation of `regions` before its first step.
    pub open spec fn start(regions: Seq<MmioRegion>) -> BarAllocationView {
        BarAllocationView {
            regions,
            index: 0,
            stage: if regions.len() == 0 {
                AllocationStage::Done
            } else {
                AllocationStage::Allocate
            },
            start: 0,
            assigned: Seq::empty(),
        }
    }

    /// The region at hand.
    pub open spec fn current(self) -> MmioRegion {
        self.regions[self.index]
    }

    /// What the allocation asks for next: the range of the region at hand;
    /// then the write of the low half of its start into its BAR; for a
    /// 64-bit BAR then the write of the high half into the register after.
    pub open spec fn step(self) -> AllocationStep {
        match self.stage {
            AllocationStage::Allocate => AllocationStep::Allocate {
                pool: pool_for(self.current().type_),
                length: self.current().length,
                align: alignment_for(self.current().type_),
            },
            AllocationStage::ProgramLower => AllocationStep::Program {
                access: ConfigAccess::Write {
                    reg_idx: self.current().bar_reg,
                    value: lower_half(self.start),
                },
            },
            AllocationStage::ProgramUpper => AllocationStep::Program {
                access: ConfigAccess::Write {
                    reg_idx: (self.current().bar_reg + 1) as usize,
                    value: upper_half(self.start),
                },
            },
            AllocationStage::Done => AllocationStep::Done,
            AllocationStage::Failed => AllocationStep::Failed { length: self.current().length },
        }
    }

    /// The allocation after the pool answered with `addr`.
    pub open spec fn allocated(self, addr: Option<u64>) -> BarAllocationView {
        if self.stage == AllocationStage::Allocate {
            match addr {
                Some(start) => BarAllocationView {
                    stage: AllocationStage::ProgramLower,
                    start,
                    ..self
                },
                None => BarAllocationView { stage: AllocationStage::Failed, ..self },
            }
        } else {
            self
        }
    }

    /// The allocation once the region at hand is written to the device: the
    /// region joins the regions placed, with its start, and the next region
    /// is at hand.
    pub open spec fn placed(self) -> BarAllocationView {
        BarAllocationView {
            regions: self.regions,
            index: self.index + 1,
            stage: if self.index + 1 == self.regions.len() {
                AllocationStage::Done
            } else {
                AllocationStage::Allocate
            },
            start: self.start,
            assigned: self.assigned.push(MmioRegion { start: self.start, ..self.current() }),
        }
    }

    /// The allocation after the write it asked for was performed.
    pub open spec fn programmed(self) -> BarAllocationView {
        match self.stage {
            AllocationStage::ProgramLower => if self.current().type_
                == PciBarRegionType::Memory64BitRegion {
                BarAllocationView { stage: AllocationStage::ProgramUpper, ..self }
            } else {
                self.placed()
            },
            AllocationStage::ProgramUpper => self.placed(),
            _ => self,
        }
    }

    /// Whether the allocation has come to its end, well or not.
    pub open spec fn finished(self) -> bool {
        self.stage == AllocationStage::Done || self.stage == AllocationStage::Failed
    }

    /// What the allocation comes to: the length that no pool could serve if
    /// it failed; else the address, length and kind of every region placed,
    /// which are all regions once the allocation is done.
    pub open spec fn outcome(self) -> Result<Seq<(u64, u64, PciBarRegionType)>, AllocationError> {
        if self.stage == AllocationStage::Failed {
            Err(AllocationError::IoAllocationFailed(self.current().length))
        } else {
            Ok(self.assigned.map(|i: int, r: MmioRegion| (r.start, r.length, r.type_)))
        }
    }
}

/// The regions of an allocation must leave room for the register after
/// their BAR.
pub open spec fn placeable(regions: Seq<MmioRegion>) -> bool {
    forall|i: int| 0 <= i < regions.len() ==> (#[trigger] regions[i]).bar_reg < usize::MAX
}

/// Decides [`placeable`].
pub fn is_placeable(regions: &Vec<MmioRegion>) -> (yes: bool)
    ensures
        yes == placeable(regions@),
{
    let mut i: usize = 0;
    while i < regions.len()
        invariant
            i <= regions@.len(),
            forall|j: int| 0 <= j < i ==> (#[trigger] regions@[j]).bar_reg < usize::MAX,
        decreases regions@.len() - i,
    {
        if regions[i].bar_reg == usize::MAX {
            return false;
        }
        i = i + 1;
    }
    true
}

/// The assignment of addresses to the regions of a device.
pub struct BarAllocation {
    regions: Vec<MmioRegion>,
    index: usize,
    stage: AllocationStage,
    start: u64,
    assigned: Vec<MmioRegion>,
}

impl View for BarAllocation {
    type V = BarAllocationView;

    closed spec fn view(&self) -> BarAllocationView {
        BarAllocationView {
            regions: self.regions@,
            index: self.index as int,
            stage: self.stage,
            start: self.start,
            assigned: self.assigned@,
        }
    }
}

impl BarAllocation {
    #[verifier::type_invariant]
    spec fn inv(self) -> bool {
        &&& placeable(self.regions@)
        &&& self.index <= self.regions@.len()
        &&& self.stage == AllocationStage::Done <==> self.index == self.regions@.len()
        &&& self.assigned@.len() == self.index
        &&& forall|i: int|
            0 <= i < self.index ==> #[trigger] self.assigned@[i] == (MmioRegion {
                start: self.assigned@[i].start,
                ..self.regions@[i]
            })
    }

    /// Begins the allocation of `regions`.
    pub fn new(regions: Vec<MmioRegion>) -> (allocation: BarAllocation)
        requires
            placeable(regions@),
        ensures
            allocation@ == BarAllocationView::start(regions@),
    {
        let stage = if regions.len() == 0 {
            AllocationStage::Done
        } else {
            AllocationStage::Allocate
        };
        BarAllocation { regions, index: 0, stage, start: 0, assigned: Vec::new() }
    }

    /// What to do next.
    pub fn next_step(&self) -> (step: AllocationStep)
        ensures
            step == self@.step(),
    {
        proof {
            use_type_invariant(self);
        }
        match self.stage {
            AllocationStage::Allocate => {
                let region = self.regions[self.index];
                match region.type_ {
                    PciBarRegionType::Memory64BitRegion => AllocationStep::Allocate {
                        pool: AddressPool::Mmio,
                        length: region.length,
                        align: MEMORY_ALIGNMENT,
                    },
                    PciBarRegionType::Memory32BitRegion => AllocationStep::Allocate {
                        pool: AddressPool::MmioHole,
                        length: region.length,
                        align: MEMORY_ALIGNMENT,
                    },
                    PciBarRegionType::IoRegion => AllocationStep::Allocate {
                        pool: AddressPool::Io,
                        length: region.length,
                        align: IO_ALIGNMENT,
                    },
                }
            },
            AllocationStage::ProgramLower => {
                let region = self.regions[self.index];
                let start: u64 = self.start;
                let low: u64 = start & 0xffff_ffff;
                assert(low <= 0xffff_ffff) by (bit_vector)
                    requires
                        low == start & 0xffff_ffff,
                ;
                AllocationStep::Program {
                    access: ConfigAccess::Write { reg_idx: region.bar_reg, value: low as u32 },
                }
            },
            AllocationStage::ProgramUpper => {
                let region = self.regions[self.index];
                let start: u64 = self.start;
                let high: u64 = start >> 32;
                assert(high <= 0xffff_ffff) by (bit_vector)
                    requires
                        high == start >> 32,
                ;
                AllocationStep::Program {
                    access: ConfigAccess::Write {
                        reg_idx: region.bar_reg + 1,
                        value: high as u32,
                    },
                }
            },
            AllocationStage::Done => AllocationStep::Done,
            AllocationStage::Failed => AllocationStep::Failed {
                length: self.regions[self.index].length,
            },
        }
    }

    /// Takes the answer of the pool: the start of the range, or `None` if
    /// the pool has no such range. Ignored unless an allocation was asked.
    pub fn allocated(self, addr: Option<u64>) -> (next: BarAllocation)
        ensures
            next@ == self@.allocated(addr),
    {
        proof {
            use_type_invariant(&self);
        }
        if self.stage == AllocationStage::Allocate {
            match addr {
                Some(start) => BarAllocation {
                    regions: self.regions,
                    index: self.index,
                    stage: AllocationStage::ProgramLower,
                    start,
                    assigned: self.assigned,
                },
                None => BarAllocation {
                    regions: self.regions,
                    index: self.index,
                    stage: AllocationStage::Failed,
                    start: self.start,
                    assigned: self.assigned,
                },
            }
        } else {
            self
        }
    }

    /// Takes the word that the write asked for was performed. Ignored unless
    /// a write was asked.
    pub fn programmed(self) -> (next: BarAllocation)
        ensures
            next@ == self@.programmed(),
    {
        proof {
            use_type_invariant(&self);
        }
        let upper_follows: bool = match self.stage {
            AllocationStage::ProgramLower => {
                self.regions[self.index].type_ == PciBarRegionType::Memory64BitRegion
            },
            _ => false,
        };
        match self.stage {
            AllocationStage::ProgramLower | AllocationStage::ProgramUpper => {
                if upper_follows {
                    BarAllocation {
                        regions: self.regions,
                        index: self.index,
                        stage: AllocationStage::ProgramUpper,
                        start: self.start,
                        assigned: self.assigned,
                    }
                } else {
                    let current = self.regions[self.index];
                    let placed = MmioRegion {
                        start: self.start,
                        length: current.length,
                        type_: current.type_,
                        bar_reg: current.bar_reg,
                        slot_mapped: current.slot_mapped,
                        mem_slot: current.mem_slot,
                        host_addr: current.host_addr,
                        mmap_size: current.mmap_size,
                    };
                    let count: usize = self.regions.len();
                    let index: usize = self.index + 1;
                    let stage = if index == count {
                        AllocationStage::Done
                    } else {
                        AllocationStage::Allocate
                    };
                    let mut assigned = self.assigned;
                    assigned.push(placed);
                    BarAllocation {
                        regions: self.regions,
                        index,
                        stage,
                        start: self.start,
                        assigned,
                    }
                }
            },
            _ => self,
        }
    }

    /// Whether the allocation has come to its end.
    pub fn is_finished(&self) -> (yes: bool)
        ensures
            yes == self@.finished(),
    {
        self.stage == AllocationStage::Done || self.stage == AllocationStage::Failed
    }

    /// Ends the allocation where it stands: hands out the regions placed, for
    /// the adapter to answer accesses to them, and the outcome.
    pub fn finish(self) -> (out: (
        Vec<MmioRegion>,
        Result<Vec<(u64, u64, PciBarRegionType)>, AllocationError>,
    ))
        ensures
            out.0@ == self@.assigned,
            match out.1 {
                Ok(ranges) => self@.outcome() == Ok::<
                    Seq<(u64, u64, PciBarRegionType)>,
                    AllocationError,
                >(ranges@),
                Err(e) => self@.outcome() == Err::<
                    Seq<(u64, u64, PciBarRegionType)>,
                    AllocationError,
                >(e),
            },
            forall|i: int|
                0 <= i < out.0@.len() ==> #[trigger] out.0@[i] == (MmioRegion {
                    start: out.0@[i].start,
                    ..self@.regions[i]
                }),
    {
        proof {
            use_type_invariant(&self);
        }
        if self.stage == AllocationStage::Failed {
            let length = self.regions[self.index].length;
            (self.assigned, Err(AllocationError::IoAllocationFailed(length)))
        } else {
            let mut ranges: Vec<(u64, u64, PciBarRegionType)> = Vec::new();
            let ghost wanted = self.assigned@.map(
                |i: int, r: MmioRegion| (r.start, r.length, r.type_),
            );
            let mut i: usize = 0;
            while i < self.assigned.len()
                invariant
                    i <= self.assigned@.len(),
                    wanted == self.assigned@.map(
                        |i: int, r: MmioRegion| (r.start, r.length, r.type_),
                    ),
                    ranges@ == wanted.take(i as int),
                decreases self.assigned@.len() - i,
            {
                let region = self.assigned[i];
                ranges.push((region.start, region.length, region.type_));
                assert(ranges@ =~= wanted.take(i + 1));
                i = i + 1;
            }
            assert(ranges@ =~= wanted);
            (self.assigned, Ok(ranges))
        }
    }
}

} // verus!
