//! Probing, scanning and placing BARs, and finding regions.

use pcisim::adapter::{copy_read_bytes, fill_unmapped};
use pcisim::bytes::{byte_at, dword_from_le, le_bytes_prefix, be_bytes_range};
use pcisim::region::{region_of, region_type_of};
use pcisim::{
    AdapterMessage, AddressPool, AllocationError, AllocationStep, BarAllocation, BarProbe, BarScan,
    ConfigAccess, ConfigData, MmioRead, MmioRegion, PciAdapter, PciBarRegionType, ProbeStage,
};

fn region(start: u64, length: u64, type_: PciBarRegionType, bar_reg: usize) -> MmioRegion {
    MmioRegion {
        start,
        length,
        type_,
        bar_reg,
        slot_mapped: false,
        mem_slot: None,
        host_addr: None,
        mmap_size: None,
    }
}

fn scan_of(sized: &[u32]) -> (Vec<usize>, Vec<MmioRegion>) {
    let mut scan = BarScan::new();
    let mut probed = Vec::new();
    let mut values = sized.iter();
    while let Some(reg_idx) = scan.next_probe() {
        probed.push(reg_idx);
        scan = scan.record(*values.next().expect("a value for every probe"));
    }
    assert!(values.next().is_none());
    (probed, scan.regions())
}

#[test]
fn bytes_of_a_dword() {
    assert_eq!(byte_at(0x1122_3344, 0), 0x44);
    assert_eq!(byte_at(0x1122_3344, 3), 0x11);
    assert_eq!(le_bytes_prefix(0x1122_3344, 4), vec![0x44, 0x33, 0x22, 0x11]);
    assert_eq!(le_bytes_prefix(0x1122_3344, 0), Vec::<u8>::new());
    assert_eq!(be_bytes_range(0x1122_3344, 0, 4), vec![0x11, 0x22, 0x33, 0x44]);
    assert_eq!(be_bytes_range(0x1122_3344, 1, 3), vec![0x22, 0x33]);
    assert_eq!(dword_from_le(&[]), 0);
    assert_eq!(dword_from_le(&[0x44]), 0x44);
    assert_eq!(dword_from_le(&[0x44, 0x33, 0x22, 0x11]), 0x1122_3344);
    assert_eq!(dword_from_le(&[0x44, 0x33, 0x22, 0x11, 0xee, 0xff]), 0x1122_3344);
}

#[test]
fn front_end_builds_the_commands() {
    let (adapter, bridge) = PciAdapter::start();
    assert!(adapter.mmio_regions.is_empty());
    assert_eq!(bridge.bdf(), 0x0040);
    assert_eq!(bridge.outstanding(), 0);

    assert!(matches!(adapter.config_read(17), AdapterMessage::ConfigRead(17)));
    match adapter.config_write(3, 1, &[0xaa, 0xbb]) {
        AdapterMessage::ConfigWrite(ConfigData { reg_idx: 3, offset: 1, len: 2, data: 0xbbaa }) => (),
        other => panic!("unexpected: {:?}", other),
    }
    match adapter.config_write(3, 0, &[]) {
        AdapterMessage::ConfigWrite(ConfigData { reg_idx: 3, offset: 0, len: 0, data: 0 }) => (),
        other => panic!("unexpected: {:?}", other),
    }
    match adapter.config_write_u32(4, 0x7000_0000) {
        AdapterMessage::ConfigWrite(ConfigData { reg_idx: 4, offset: 0, len: 4, data: 0x7000_0000 }) => (),
        other => panic!("unexpected: {:?}", other),
    }
}

#[test]
fn regions_hold_their_addresses() {
    let r = region(0x1000, 0x100, PciBarRegionType::Memory32BitRegion, 4);
    assert!(!r.holds(0xfff));
    assert!(r.holds(0x1000));
    assert!(r.holds(0x10ff));
    assert!(!r.holds(0x1100));
    let top = region(u64::MAX - 1, 0x10, PciBarRegionType::Memory64BitRegion, 4);
    assert!(top.holds(u64::MAX));
    assert!(!top.holds(0));
    let empty = region(0x1000, 0, PciBarRegionType::IoRegion, 4);
    assert!(!empty.holds(0x1000));
}

#[test]
fn find_region_takes_the_first_match() {
    let (mut adapter, _) = PciAdapter::start();
    assert!(adapter.find_region(0).is_none());
    adapter.mmio_regions.push(region(0x1000, 0x100, PciBarRegionType::Memory32BitRegion, 4));
    adapter.mmio_regions.push(region(0x1080, 0x100, PciBarRegionType::IoRegion, 5));
    adapter.mmio_regions.push(region(0x1_0000_0000, 0x1000, PciBarRegionType::Memory64BitRegion, 6));
    assert_eq!(adapter.find_region(0x1090).unwrap().bar_reg, 4);
    assert_eq!(adapter.find_region(0x1100).unwrap().bar_reg, 5);
    assert_eq!(adapter.find_region(0x1_0000_0fff).unwrap().bar_reg, 6);
    assert!(adapter.find_region(0x1180).is_none());
    assert!(adapter.find_region(0xfff).is_none());
}

#[test]
fn mmio_read_is_answered_or_asked() {
    let (mut adapter, _) = PciAdapter::start();
    let mut mapped = region(0x1000, 0x100, PciBarRegionType::Memory32BitRegion, 4);
    mapped.slot_mapped = true;
    adapter.mmio_regions.push(mapped);
    adapter.mmio_regions.push(region(0x2000, 0x100, PciBarRegionType::Memory32BitRegion, 5));

    let mut data = [1u8, 2, 3];
    assert!(matches!(adapter.bar_mmio_read(0x3000, &mut data), MmioRead::Unmapped));
    assert_eq!(data, [0xff, 0xff, 0xff]);

    let mut data = [7u8; 9];
    assert!(matches!(adapter.bar_mmio_read(0x3000, &mut data), MmioRead::Unmapped));
    assert_eq!(data, [0xff; 9]);

    let mut data = [7u8; 9];
    assert!(matches!(adapter.bar_mmio_read(0x2000, &mut data), MmioRead::TooLarge));
    assert_eq!(data, [0xff; 9]);

    let mut data = [7u8; 8];
    match adapter.bar_mmio_read(0x2010, &mut data) {
        MmioRead::Request { msg: AdapterMessage::MemoryRead(0x2010, 8), slot_mapped: false } => (),
        other => panic!("unexpected: {:?}", other),
    }
    assert_eq!(data, [7u8; 8]);

    let mut data = [7u8; 2];
    match adapter.bar_mmio_read(0x10fe, &mut data) {
        MmioRead::Request { msg: AdapterMessage::MemoryRead(0x10fe, 2), slot_mapped: true } => (),
        other => panic!("unexpected: {:?}", other),
    }
    assert_eq!(data, [7u8; 2]);
}

#[test]
fn buffers_are_filled_and_copied() {
    let mut data = [0u8; 5];
    fill_unmapped(&mut data);
    assert_eq!(data, [0xff; 5]);
    copy_read_bytes(&mut data, &[1, 2, 3, 4, 5]);
    assert_eq!(data, [1, 2, 3, 4, 5]);
    let mut none: [u8; 0] = [];
    fill_unmapped(&mut none);
    copy_read_bytes(&mut none, &[]);
}

#[test]
fn probe_reads_writes_reads_restores() {
    let mut probe = BarProbe::new(6);
    assert_eq!(probe.result(), None);
    assert_eq!(probe.next_access(), Some(ConfigAccess::Read { reg_idx: 6 }));
    probe.advance(0x0000_c001);
    assert_eq!(probe.next_access(), Some(ConfigAccess::Write { reg_idx: 6, value: 0xffff_ffff }));
    probe.advance(0);
    assert_eq!(probe.next_access(), Some(ConfigAccess::Read { reg_idx: 6 }));
    probe.advance(0xffff_ff01);
    assert_eq!(probe.result(), None);
    assert_eq!(probe.next_access(), Some(ConfigAccess::Write { reg_idx: 6, value: 0x0000_c001 }));
    probe.advance(0x1234);
    assert_eq!(probe.stage, ProbeStage::Done);
    assert_eq!(probe.next_access(), None);
    assert_eq!(probe.result(), Some(0xffff_ff01));
    probe.advance(5);
    assert_eq!(probe.result(), Some(0xffff_ff01));
    assert_eq!(probe.saved, 0x0000_c001);
}

#[test]
fn probe_restores_a_masked_register() {
    for (mask, content) in [
        (0xfff0_0000u32, 0x7000_0004u32),
        (0, 0x5678_1234),
        (0xffff_ffff, 0xdead_beef),
        (0xffff_ff00, 0x0000_c001),
    ] {
        let mut register = content;
        let mut probe = BarProbe::new(4);
        let mut accesses = 0;
        while let Some(access) = probe.next_access() {
            let reply = match access {
                ConfigAccess::Read { .. } => register,
                ConfigAccess::Write { value, .. } => {
                    register = (register & !mask) | (value & mask);
                    0
                }
            };
            probe.advance(reply);
            accesses += 1;
        }
        assert_eq!(accesses, 4);
        assert_eq!(register, content);
        assert_eq!(probe.result(), Some((content & !mask) | mask));
    }
}

#[test]
fn bar_bits_tell_the_kind() {
    assert_eq!(region_type_of(0xfff0_0004), PciBarRegionType::Memory64BitRegion);
    assert_eq!(region_type_of(0xfff0_000c), PciBarRegionType::Memory64BitRegion);
    assert_eq!(region_type_of(0xfff0_0000), PciBarRegionType::Memory32BitRegion);
    assert_eq!(region_type_of(0xfff0_0008), PciBarRegionType::Memory32BitRegion);
    assert_eq!(region_type_of(0xfff0_0002), PciBarRegionType::Memory32BitRegion);
    assert_eq!(region_type_of(0xfff0_0006), PciBarRegionType::Memory32BitRegion);
    assert_eq!(region_type_of(0x0000_ff01), PciBarRegionType::IoRegion);
    assert_eq!(region_type_of(0x0000_ff05), PciBarRegionType::IoRegion);
}

#[test]
fn bar_bits_tell_the_size() {
    let r = region_of(4, 0xfff0_0004, 0xffff_ffff);
    assert_eq!(r.length, 0x10_0000);
    assert_eq!(r.type_, PciBarRegionType::Memory64BitRegion);
    assert_eq!((r.start, r.bar_reg, r.slot_mapped), (0, 4, false));
    assert_eq!((r.mem_slot, r.host_addr, r.mmap_size), (None, None, None));

    let r = region_of(4, 0x0000_000c, 0xffff_fffe);
    assert_eq!(r.length, 0x2_0000_0000);
    assert!(r.slot_mapped);

    let r = region_of(7, 0xffff_f008, 0x1234);
    assert_eq!(r.length, 0x1000);
    assert_eq!(r.type_, PciBarRegionType::Memory32BitRegion);
    assert!(r.slot_mapped);
    assert_eq!(r.bar_reg, 7);

    let r = region_of(7, 0xffff_f000, 0);
    assert_eq!(r.length, 0x1000);
    assert!(!r.slot_mapped);

    let r = region_of(6, 0x0000_ff01, 0);
    assert_eq!(r.length, 0xffff_0100);
    assert_eq!(r.type_, PciBarRegionType::IoRegion);
    assert!(!r.slot_mapped);

    let r = region_of(6, 0xffff_ff09, 0);
    assert_eq!(r.length, 0xf8);
    assert_eq!(r.type_, PciBarRegionType::IoRegion);
    assert!(!r.slot_mapped);

    assert_eq!(region_of(6, 0x0000_0001, 0).length, 0);
    assert_eq!(region_of(6, 0x0000_0008, 0).length, 0);
    assert_eq!(region_of(6, 0x0000_0004, 0).length, 0);
}

#[test]
fn scan_walks_the_six_registers() {
    let (probed, regions) = scan_of(&[0, 0, 0, 0, 0, 0]);
    assert_eq!(probed, vec![4, 5, 6, 7, 8, 9]);
    assert!(regions.is_empty());

    let (probed, regions) = scan_of(&[0xfff0_0004, 0xffff_ffff, 0xffff_ff01, 0, 0xffff_0008, 0]);
    assert_eq!(probed, vec![4, 5, 6, 7, 8, 9]);
    assert_eq!(regions.len(), 3);
    assert_eq!(
        (regions[0].bar_reg, regions[0].type_, regions[0].length, regions[0].slot_mapped),
        (4, PciBarRegionType::Memory64BitRegion, 0x10_0000, false)
    );
    assert_eq!(
        (regions[1].bar_reg, regions[1].type_, regions[1].length, regions[1].slot_mapped),
        (6, PciBarRegionType::IoRegion, 0x100, false)
    );
    assert_eq!(
        (regions[2].bar_reg, regions[2].type_, regions[2].length, regions[2].slot_mapped),
        (8, PciBarRegionType::Memory32BitRegion, 0x1_0000, true)
    );
    for r in regions.iter() {
        assert_eq!(r.start, 0);
        assert_eq!((r.mem_slot, r.host_addr, r.mmap_size), (None, None, None));
    }
}

#[test]
fn scan_takes_the_upper_half_as_it_comes() {
    let (_, regions) = scan_of(&[0xfff0_0004, 0, 0, 0, 0, 0]);
    assert_eq!(regions.len(), 1);
    assert_eq!(regions[0].length, 0xffff_ffff_0010_0000);

    let (probed, regions) = scan_of(&[0xfff0_0004, 0xfff0_0004, 0xfff0_0004, 0xffff_ffff, 0, 0]);
    assert_eq!(probed, vec![4, 5, 6, 7, 8, 9]);
    assert_eq!(regions.len(), 2);
    assert_eq!(regions[0].bar_reg, 4);
    assert_eq!(regions[1].bar_reg, 6);
    assert_eq!(regions[1].length, 0x10_0000);
}

#[test]
fn scan_of_a_wide_bar_in_the_last_slot_looks_one_further() {
    let (probed, regions) = scan_of(&[0, 0, 0, 0, 0, 0xffff_000c, 0xffff_ffff]);
    assert_eq!(probed, vec![4, 5, 6, 7, 8, 9, 10]);
    assert_eq!(regions.len(), 1);
    assert_eq!(regions[0].bar_reg, 9);
    assert_eq!(regions[0].length, 0x1_0000);
    assert!(regions[0].slot_mapped);
}

#[test]
fn scan_that_is_done_takes_no_more() {
    let mut scan = BarScan::new();
    for _ in 0..6 {
        scan = scan.record(0xffff_f000);
    }
    assert_eq!(scan.next_probe(), None);
    scan = scan.record(0xffff_f000);
    assert_eq!(scan.next_probe(), None);
    assert_eq!(scan.regions().len(), 6);
}

#[test]
fn allocation_places_and_programs_each_region() {
    let (mut adapter, _) = PciAdapter::start();
    adapter.mmio_regions.push(region(1, 2, PciBarRegionType::IoRegion, 3));
    let found = vec![
        region(0, 0x10_0000, PciBarRegionType::Memory64BitRegion, 4),
        region(0, 0x100, PciBarRegionType::IoRegion, 6),
        region(0, 0x1000, PciBarRegionType::Memory32BitRegion, 7),
    ];
    let mut allocation = adapter.allocate_bars(found);
    assert!(adapter.mmio_regions.is_empty());

    assert_eq!(
        allocation.next_step(),
        AllocationStep::Allocate { pool: AddressPool::Mmio, length: 0x10_0000, align: 0x10 }
    );
    allocation = allocation.programmed();
    assert_eq!(
        allocation.next_step(),
        AllocationStep::Allocate { pool: AddressPool::Mmio, length: 0x10_0000, align: 0x10 }
    );
    allocation = allocation.allocated(Some(0x1_7000_0000));
    assert_eq!(
        allocation.next_step(),
        AllocationStep::Program { access: ConfigAccess::Write { reg_idx: 4, value: 0x7000_0000 } }
    );
    allocation = allocation.allocated(Some(0x9999));
    allocation = allocation.programmed();
    assert_eq!(
        allocation.next_step(),
        AllocationStep::Program { access: ConfigAccess::Write { reg_idx: 5, value: 0x0000_0001 } }
    );
    allocation = allocation.programmed();

    assert_eq!(
        allocation.next_step(),
        AllocationStep::Allocate { pool: AddressPool::Io, length: 0x100, align: 0x4 }
    );
    allocation = allocation.allocated(Some(0xc000));
    assert_eq!(
        allocation.next_step(),
        AllocationStep::Program { access: ConfigAccess::Write { reg_idx: 6, value: 0xc000 } }
    );
    allocation = allocation.programmed();

    assert_eq!(
        allocation.next_step(),
        AllocationStep::Allocate { pool: AddressPool::MmioHole, length: 0x1000, align: 0x10 }
    );
    allocation = allocation.allocated(Some(0xe000_0000));
    assert_eq!(
        allocation.next_step(),
        AllocationStep::Program { access: ConfigAccess::Write { reg_idx: 7, value: 0xe000_0000 } }
    );
    allocation = allocation.programmed();
    assert_eq!(allocation.next_step(), AllocationStep::Done);
    allocation = allocation.programmed().allocated(None);
    assert_eq!(allocation.next_step(), AllocationStep::Done);

    let ranges = adapter.complete_allocation(allocation).unwrap();
    assert_eq!(
        ranges,
        vec![
            (0x1_7000_0000, 0x10_0000, PciBarRegionType::Memory64BitRegion),
            (0xc000, 0x100, PciBarRegionType::IoRegion),
            (0xe000_0000, 0x1000, PciBarRegionType::Memory32BitRegion),
        ]
    );
    assert_eq!(adapter.mmio_regions.len(), 3);
    assert_eq!(adapter.mmio_regions[0].start, 0x1_7000_0000);
    assert_eq!(adapter.mmio_regions[0].bar_reg, 4);
    assert_eq!(adapter.mmio_regions[1].start, 0xc000);
    assert_eq!(adapter.mmio_regions[2].start, 0xe000_0000);
    assert_eq!(adapter.find_region(0x1_7000_0010).unwrap().bar_reg, 4);

    assert_eq!(
        adapter.free_bars(),
        vec![
            (AddressPool::Mmio, 0x1_7000_0000, 0x10_0000),
            (AddressPool::Io, 0xc000, 0x100),
            (AddressPool::MmioHole, 0xe000_0000, 0x1000),
        ]
    );
}

#[test]
fn allocation_fails_with_the_length_refused() {
    let (mut adapter, _) = PciAdapter::start();
    let found = vec![
        region(0, 0x100, PciBarRegionType::IoRegion, 6),
        region(0, 0x2000, PciBarRegionType::Memory32BitRegion, 7),
        region(0, 0x4000, PciBarRegionType::Memory32BitRegion, 8),
    ];
    let mut allocation = adapter.allocate_bars(found);
    allocation = allocation.allocated(Some(0xc000)).programmed();
    allocation = allocation.allocated(None);
    assert_eq!(allocation.next_step(), AllocationStep::Failed { length: 0x2000 });
    allocation = allocation.allocated(Some(1)).programmed();
    assert_eq!(allocation.next_step(), AllocationStep::Failed { length: 0x2000 });
    assert_eq!(
        adapter.complete_allocation(allocation),
        Err(AllocationError::IoAllocationFailed(0x2000))
    );
    assert_eq!(adapter.mmio_regions.len(), 1);
    assert_eq!(adapter.mmio_regions[0].start, 0xc000);
}

#[test]
fn allocation_of_nothing_is_done() {
    let (mut adapter, _) = PciAdapter::start();
    let allocation = BarAllocation::new(vec![]);
    assert_eq!(allocation.next_step(), AllocationStep::Done);
    assert_eq!(adapter.complete_allocation(allocation), Ok(vec![]));
    assert!(adapter.free_bars().is_empty());
}
