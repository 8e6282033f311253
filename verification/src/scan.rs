//! Discovery of the regions that a device declares through its BARs.
//!
//! A device says how large a region is by the address bits of a BAR that it
//! lets software change: write ones to all of them and read back what stuck.
//! [`BarProbe`] is that exchange for one register, [`BarScan`] walks the six
//! BAR registers of a type-0 header with it. Both only decide which
//! configuration access comes next and what its answer means; their owner
//! performs the accesses.

use crate::region::{bar_region_type, declared_region, region_of, region_type_of, MmioRegion,
    PciBarRegionType};
use vstd::prelude::*;

verus! {

/// The index of the configuration register that holds BAR 0.
pub const BAR0_REG: usize = 4;

/// The number of BAR registers in a type-0 header.
pub const NUM_BAR_REGS: usize = 6;

/// One access to the configuration space of the device.
#[derive(Debug, Clone, Copy, PartialEq, Eq, Structural)]
pub enum ConfigAccess {
    /// Read register `reg_idx`.
    Read { reg_idx: usize },
    /// Write all four bytes of register `reg_idx`.
    Write { reg_idx: usize, value: u32 },
}

/// How far the probe of one register has come.
#[derive(Debug, Clone, Copy, PartialEq, Eq, Structural)]
pub enum ProbeStage {
    /// Next: read the register, to keep its value.
    Save,
    /// Next: write ones to every bit.
    WriteOnes,
    /// Next: read back what stuck.
    ReadSized,
    /// Next: write the value kept back.
    Restore,
    /// Nothing is left to do.
    Done,
}

/// The probe of one BAR register: keep its value, write all ones, read the
/// result, put the value back.
#[derive(Debug, Clone, Copy)]
pub struct BarProbe {
    /// The register probed.
    pub reg_idx: usize,
    pub stage: ProbeStage,
    /// The value that the register held, once read.
    pub saved: u32,
    /// The value that came back after all ones were written, once read.
    pub sized: u32,
}

impl BarProbe {
    /// A probe of register `reg_idx` that has not begun.
    pub open spec fn start(reg_idx: usize) -> BarProbe {
        BarProbe { reg_idx, stage: ProbeStage::Save, saved: 0, sized: 0 }
    }

    /// The access that the probe asks for next, if any.
    pub open spec fn access(self) -> Option<ConfigAccess> {
        match self.stage {
            ProbeStage::Save => Some(ConfigAccess::Read { reg_idx: self.reg_idx }),
            ProbeStage::WriteOnes => Some(
                ConfigAccess::Write { reg_idx: self.reg_idx, value: u32::MAX },
            ),
            ProbeStage::ReadSized => Some(ConfigAccess::Read { reg_idx: self.reg_idx }),
            ProbeStage::Restore => Some(
                ConfigAccess::Write { reg_idx: self.reg_idx, value: self.saved },
            ),
            ProbeStage::Done => None,
        }
    }

    /// The probe after its access was performed; `reply` is the value read,
    /// and means nothing after a write.
    pub open spec fn advanced(self, reply: u32) -> BarProbe {
        match self.stage {
            ProbeStage::Save => BarProbe {
                stage: ProbeStage::WriteOnes,
                saved: reply,
                ..self
            },
            ProbeStage::WriteOnes => BarProbe { stage: ProbeStage::ReadSized, ..self },
            ProbeStage::ReadSized => BarProbe { stage: ProbeStage::Restore, sized: reply, ..self },
            ProbeStage::Restore => BarProbe { stage: ProbeStage::Done, ..self },
            ProbeStage::Done => self,
        }
    }

    /// Begins the probe of register `reg_idx`.
    pub fn new(reg_idx: usize) -> (probe: BarProbe)
        ensures
            probe == BarProbe::start(reg_idx),
    {
        BarProbe { reg_idx, stage: ProbeStage::Save, saved: 0, sized: 0 }
    }

    /// The access to perform next; `None` when the probe is done.
    pub fn next_access(&self) -> (access: Option<ConfigAccess>)
        ensures
            access == self.access(),
    {
        match self.stage {
            ProbeStage::Save => Some(ConfigAccess::Read { reg_idx: self.reg_idx }),
            ProbeStage::WriteOnes => Some(
                ConfigAccess::Write { reg_idx: self.reg_idx, value: u32::MAX },
            ),
            ProbeStage::ReadSized => Some(ConfigAccess::Read { reg_idx: self.reg_idx }),
            ProbeStage::Restore => Some(
                ConfigAccess::Write { reg_idx: self.reg_idx, value: self.saved },
            ),
            ProbeStage::Done => None,
        }
    }

    /// Takes the answer to the access of [`BarProbe::next_access`]: the
    /// value read, or any value after a write.
    pub fn advance(&mut self, reply: u32)
        ensures
            *final(self) == old(self).advanced(reply),
    {
        match self.stage {
            ProbeStage::Save => {
                self.saved = reply;
                self.stage = ProbeStage::WriteOnes;
            },
            ProbeStage::WriteOnes => {
                self.stage = ProbeStage::ReadSized;
            },
            ProbeStage::ReadSized => {
                self.sized = reply;
                self.stage = ProbeStage::Restore;
            },
            ProbeStage::Restore => {
                self.stage = ProbeStage::Done;
            },
            ProbeStage::Done => {},
        }
    }

    /// The value that came back after all ones were written, once the probe
    /// is done.
    pub fn result(&self) -> (sized: Option<u32>)
        ensures
            sized == if self.stage == ProbeStage::Done {
                Some(self.sized)
            } else {
                None
            },
    {
        if self.stage == ProbeStage::Done {
            Some(self.sized)
        } else {
            None
        }
    }
}

/// The regions that BAR slots `slot`, `slot + 1`, ... up to the sixth
/// declare, where `sized[i]` is what the probe of register `4 + i` brought.
///
/// A slot whose probe brought zero declares nothing. A 64-bit memory BAR
/// takes the next register for its upper half and the walk goes on behind
/// it; any other BAR takes one register.
pub open spec fn scan_from(sized: Seq<u32>, slot: int) -> Seq<MmioRegion>
    decreases NUM_BAR_REGS + 1 - slot,
{
    if slot < 0 || slot >= NUM_BAR_REGS || slot >= sized.len() {
        Seq::empty()
    } else if sized[slot] == 0 {
        scan_from(sized, slot + 1)
    } else if bar_region_type(sized[slot]) == PciBarRegionType::Memory64BitRegion {
        if slot + 1 < sized.len() {
            seq![declared_region((BAR0_REG + slot) as usize, sized[slot], sized[slot + 1])]
                + scan_from(sized, slot + 2)
        } else {
            Seq::empty()
        }
    } else {
        seq![declared_region((BAR0_REG + slot) as usize, sized[slot], 0)] + scan_from(
            sized,
            slot + 1,
        )
    }
}

/// The state of a scan: the register of the BAR under examination, the
/// lower half of that BAR if it has 64 bits and its upper half is being
/// probed, and the regions found so far.
pub struct BarScanView {
    pub bar_reg: usize,
    pub lower: Option<u32>,
    pub regions: Seq<MmioRegion>,
}

impl BarScanView {
    /// The scan before its first probe.
    pub open spec fn start() -> BarScanView {
        BarScanView { bar_reg: BAR0_REG, lower: None, regions: Seq::empty() }
    }

    /// Whether every BAR register has been dealt with.
    pub open spec fn done(self) -> bool {
        self.bar_reg >= BAR0_REG + NUM_BAR_REGS
    }

    /// The register to probe next, if the scan is not done.
    pub open spec fn probing(self) -> Option<usize> {
        if self.done() {
            None
        } else if self.lower is Some {
            Some((self.bar_reg + 1) as usize)
        } else {
            Some(self.bar_reg)
        }
    }

    /// The scan after the probe of [`BarScanView::probing`] brought `sized`.
    pub open spec fn recorded(self, sized: u32) -> BarScanView {
        if self.done() {
            self
        } else {
            match self.lower {
                Some(lower) => BarScanView {
                    bar_reg: (self.bar_reg + 2) as usize,
                    lower: None,
                    regions: self.regions.push(declared_region(self.bar_reg, lower, sized)),
                },
                None => if sized == 0 {
                    BarScanView { bar_reg: (self.bar_reg + 1) as usize, ..self }
                } else if bar_region_type(sized) == PciBarRegionType::Memory64BitRegion {
                    BarScanView { lower: Some(sized), ..self }
                } else {
                    BarScanView {
                        bar_reg: (self.bar_reg + 1) as usize,
                        lower: None,
                        regions: self.regions.push(declared_region(self.bar_reg, sized, 0)),
                    }
                },
            }
        }
    }
}

/// The scan after the probes brought `sized`, one value after the other.
pub open spec fn scan_after(sized: Seq<u32>) -> BarScanView
    decreases sized.len(),
{
    if sized.len() == 0 {
        BarScanView::start()
    } else {
        scan_after(sized.drop_last()).recorded(sized.last())
    }
}

/// Whether `sized` can be the results of the probes of a scan: none of them
/// was made after the scan was done.
pub open spec fn scan_run(sized: Seq<u32>) -> bool {
    forall|k: int| 0 <= k < sized.len() ==> !(#[trigger] scan_after(sized.take(k))).done()
}

/// What holds of a scan after `k` probes of a run: it has probed the
/// registers in order, and what it has found so far, followed by what the
/// slots ahead declare, is what all slots declare.
spec fn scan_agrees(sized: Seq<u32>, k: int) -> bool {
    let s = scan_after(sized.take(k));
    &&& BAR0_REG <= s.bar_reg <= BAR0_REG + NUM_BAR_REGS + 1
    &&& match s.lower {
        Some(lower) => {
            &&& s.bar_reg < BAR0_REG + NUM_BAR_REGS
            &&& k == s.bar_reg - BAR0_REG + 1
            &&& sized[s.bar_reg - BAR0_REG] == lower
            &&& lower != 0
            &&& bar_region_type(lower) == PciBarRegionType::Memory64BitRegion
        },
        None => k == s.bar_reg - BAR0_REG || (s.done() && k <= s.bar_reg - BAR0_REG),
    }
    &&& scan_from(sized, 0) == s.regions + scan_from(sized, s.bar_reg - BAR0_REG)
}

proof fn lemma_scan_agrees(sized: Seq<u32>, k: int)
    requires
        scan_run(sized),
        0 <= k <= sized.len(),
    ensures
        scan_agrees(sized, k),
    decreases k,
{
    if k == 0 {
        assert(sized.take(0) =~= Seq::<u32>::empty());
        assert(scan_after(sized.take(0)) == BarScanView::start());
        assert(Seq::<MmioRegion>::empty() + scan_from(sized, 0) =~= scan_from(sized, 0));
    } else {
        lemma_scan_agrees(sized, k - 1);
        let before = scan_after(sized.take(k - 1));
        let value = sized[k - 1];
        assert(sized.take(k).drop_last() =~= sized.take(k - 1));
        assert(sized.take(k).last() == value);
        let after = scan_after(sized.take(k));
        assert(after == before.recorded(value));
        assert(!before.done());
        let slot = before.bar_reg - BAR0_REG;
        match before.lower {
            Some(lower) => {
                let found = declared_region(before.bar_reg, lower, value);
                assert(scan_from(sized, slot) == seq![found] + scan_from(sized, slot + 2));
                assert(before.regions + (seq![found] + scan_from(sized, slot + 2))
                    =~= before.regions.push(found) + scan_from(sized, slot + 2));
            },
            None => {
                if value == 0 {
                } else if bar_region_type(value) == PciBarRegionType::Memory64BitRegion {
                } else {
                    let found = declared_region(before.bar_reg, value, 0);
                    assert(scan_from(sized, slot) == seq![found] + scan_from(sized, slot + 1));
                    assert(before.regions + (seq![found] + scan_from(sized, slot + 1))
                        =~= before.regions.push(found) + scan_from(sized, slot + 1));
                }
            },
        }
    }
}

/// A scan that is done has found what the BAR slots declare.
///
/// Let `sized` be the values that the probes of a scan brought, none of them
/// made after the scan was done. If the scan is done after them, its regions
/// are those of [`scan_from`] the first slot.
pub proof fn lemma_scan_finds_declared_regions(sized: Seq<u32>)
    requires
        scan_run(sized),
        scan_after(sized).done(),
    ensures
        scan_after(sized).regions == scan_from(sized, 0),
{
    lemma_scan_agrees(sized, sized.len() as int);
    assert(sized.take(sized.len() as int) =~= sized);
    let s = scan_after(sized);
    assert(scan_from(sized, s.bar_reg - BAR0_REG) =~= Seq::<MmioRegion>::empty());
    assert(s.regions + Seq::<MmioRegion>::empty() =~= s.regions);
}

/// The scan of the six BAR registers of a device.
pub struct BarScan {
    bar_reg: usize,
    lower: Option<u32>,
    regions: Vec<MmioRegion>,
    probed: Ghost<Seq<u32>>,
}

impl View for BarScan {
    type V = BarScanView;

    closed spec fn view(&self) -> BarScanView {
        BarScanView { bar_reg: self.bar_reg, lower: self.lower, regions: self.regions@ }
    }
}

impl BarScan {
    #[verifier::type_invariant]
    spec fn inv(self) -> bool {
        &&& self@ == scan_after(self.probed@)
        &&& scan_run(self.probed@)
        &&& self.bar_reg <= BAR0_REG + NUM_BAR_REGS + 1
        &&& forall|i: int|
            0 <= i < self.regions@.len() ==> (#[trigger] self.regions@[i]).bar_reg < BAR0_REG
                + NUM_BAR_REGS
    }

    /// The values that the probes have brought so far, in order.
    pub closed spec fn probed(&self) -> Seq<u32> {
        self.probed@
    }

    /// Begins a scan.
    pub fn new() -> (scan: BarScan)
        ensures
            scan@ == BarScanView::start(),
            scan.probed() == Seq::<u32>::empty(),
    {
        let scan = BarScan {
            bar_reg: BAR0_REG,
            lower: None,
            regions: Vec::new(),
            probed: Ghost(Seq::empty()),
        };
        assert(scan_after(Seq::<u32>::empty()) == BarScanView::start());
        scan
    }

    /// The register to probe next; `None` when the scan is done.
    pub fn next_probe(&self) -> (reg_idx: Option<usize>)
        ensures
            reg_idx == self@.probing(),
            self@ == scan_after(self.probed()),
    {
        proof {
            use_type_invariant(self);
        }
        if self.bar_reg >= BAR0_REG + NUM_BAR_REGS {
            None
        } else if self.lower.is_some() {
            Some(self.bar_reg + 1)
        } else {
            Some(self.bar_reg)
        }
    }

    /// Takes `sized`, the result of the probe of the register that
    /// [`BarScan::next_probe`] named. A scan that is done ignores it.
    pub fn record(self, sized: u32) -> (next: BarScan)
        ensures
            next@ == self@.recorded(sized),
            next.probed() == if self@.done() {
                self.probed()
            } else {
                self.probed().push(sized)
            },
    {
        proof {
            use_type_invariant(&self);
        }
        if self.bar_reg >= BAR0_REG + NUM_BAR_REGS {
            return self;
        }
        let ghost before = self.probed@;
        let ghost after = before.push(sized);
        proof {
            assert(after.drop_last() =~= before);
            assert(after.last() == sized);
            assert forall|k: int| 0 <= k < after.len() implies !(#[trigger] scan_after(
                after.take(k),
            )).done() by {
                if k < before.len() {
                    assert(after.take(k) =~= before.take(k));
                } else {
                    assert(after.take(k) =~= before);
                }
            }
            lemma_scan_agrees(after, after.len() as int);
            assert(after.take(after.len() as int) =~= after);
        }
        let bar_reg: usize = self.bar_reg;
        let lower: Option<u32> = self.lower;
        let mut regions: Vec<MmioRegion> = self.regions;
        match lower {
            Some(lower) => {
                regions.push(region_of(bar_reg, lower, sized));
                BarScan { bar_reg: bar_reg + 2, lower: None, regions, probed: Ghost(after) }
            },
            None => {
                if sized == 0 {
                    BarScan { bar_reg: bar_reg + 1, lower: None, regions, probed: Ghost(after) }
                } else {
                    match region_type_of(sized) {
                        PciBarRegionType::Memory64BitRegion => BarScan {
                            bar_reg,
                            lower: Some(sized),
                            regions,
                            probed: Ghost(after),
                        },
                        _ => {
                            regions.push(region_of(bar_reg, sized, 0));
                            BarScan {
                                bar_reg: bar_reg + 1,
                                lower: None,
                                regions,
                                probed: Ghost(after),
                            }
                        },
                    }
                }
            },
        }
    }

    /// The regions found. Once the scan is done, they are the regions that
    /// the six BAR slots declare by the values probed.
    pub fn regions(self) -> (regions: Vec<MmioRegion>)
        ensures
            regions@ == self@.regions,
            self@.done() ==> regions@ == scan_from(self.probed(), 0),
            forall|i: int|
                0 <= i < regions@.len() ==> (#[trigger] regions@[i]).bar_reg < BAR0_REG
                    + NUM_BAR_REGS,
    {
        proof {
            use_type_invariant(&self);
            if self@.done() {
                lemma_scan_finds_declared_regions(self.probed@);
            }
        }
        self.regions
    }
}

} // verus!
