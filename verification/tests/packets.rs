//! The packet model, its builder and the header rules.

use pcisim::{
    AddressType, CompletionExtra, ConfigExtra, Fmt, Memory64Extra, MemoryExtra, PacketType, Tlp,
    TlpBuilder, TlpHeader, TrafficClass,
};

fn config_extra() -> ConfigExtra {
    ConfigExtra { requester: 0x0040, completer: 0x0060, tag: 7, reg: 4 }
}

fn completion_extra() -> CompletionExtra {
    CompletionExtra {
        requester: 0x0040,
        completer: 0x0060,
        tag: 7,
        status: 0,
        bcm: false,
        byte_count: 4,
        lower_address: 0,
    }
}

fn assert_untouched(header: &TlpHeader) {
    assert_eq!(header.traffic_class, TrafficClass::TC0);
    assert_eq!(header.address_type, AddressType::Default);
    assert!(!header.relax_ordering);
    assert!(!header.no_snoop);
    assert!(!header.id_ordering);
    assert!(!header.poisoned_data);
    assert!(!header.tlp_digest);
    assert!(!header.processing_hint);
}

#[test]
fn default_packet_is_blank() {
    let tlp = Tlp::default();
    assert_eq!(tlp.header.packet_type, PacketType::Unknown);
    assert_eq!(tlp.header.byte_enable, 0);
    assert_eq!(tlp.header.length, 0);
    assert!(tlp.data.is_none());
    assert_untouched(&tlp.header);
}

#[test]
fn with_type_sets_only_the_type() {
    let tlp = TlpBuilder::with_type(PacketType::Message(3)).build();
    assert_eq!(tlp.header.packet_type, PacketType::Message(3));
    assert_eq!(tlp.header.length, 0);
    assert_eq!(tlp.header.byte_enable, 0);
    assert!(tlp.data.is_none());
    assert_untouched(&tlp.header);
}

#[test]
fn constructors_fix_type_and_length() {
    let tlp = TlpBuilder::config0_read(config_extra()).build();
    assert_eq!(tlp.header.packet_type, PacketType::Config0Read(config_extra()));
    assert_eq!(tlp.header.length, 1);
    assert!(tlp.data.is_none());

    let tlp = TlpBuilder::config0_write(config_extra()).build();
    assert_eq!(tlp.header.packet_type, PacketType::Config0Write(config_extra()));
    assert_eq!(tlp.header.length, 1);

    let extra = Memory64Extra { requester: 1, tag: 2, addr: 0x1_0000_0000 };
    let tlp = TlpBuilder::memory_read64(extra).build();
    assert_eq!(tlp.header.packet_type, PacketType::MemoryRead64(extra));
    assert_eq!(tlp.header.length, 0);

    let extra = MemoryExtra { requester: 1, tag: 2, addr: 0x1000 };
    let tlp = TlpBuilder::memory_read(extra).build();
    assert_eq!(tlp.header.packet_type, PacketType::MemoryRead(extra));
    assert_eq!(tlp.header.length, 0);

    let tlp = TlpBuilder::completion_data(completion_extra()).build();
    assert_eq!(tlp.header.packet_type, PacketType::CompletionData(completion_extra()));
    assert_eq!(tlp.header.length, 0);

    assert_eq!(TlpBuilder::io_read().build().header.packet_type, PacketType::IoRead);
    assert_eq!(TlpBuilder::io_write().build().header.packet_type, PacketType::IoWrite);
}

#[test]
fn data_replaces_payload_and_length() {
    let tlp = TlpBuilder::completion_data(completion_extra())
        .length(9)
        .data(vec![1, 2, 3])
        .build();
    assert_eq!(tlp.header.length, 3);
    assert_eq!(tlp.data, Some(vec![1, 2, 3]));

    let tlp = TlpBuilder::completion_data(completion_extra())
        .data(vec![1, 2, 3])
        .data(vec![])
        .build();
    assert_eq!(tlp.header.length, 0);
    assert_eq!(tlp.data, Some(vec![]));
}

#[test]
fn data_longer_than_the_field_wraps() {
    let tlp = TlpBuilder::completion_data(completion_extra()).data(vec![0; 0x1_0003]).build();
    assert_eq!(tlp.header.length, 3);
    assert_eq!(tlp.data.unwrap().len(), 0x1_0003);
}

#[test]
fn length_and_byte_enable_are_taken_verbatim() {
    let tlp = TlpBuilder::config0_write(config_extra())
        .byte_enable(0xa5)
        .length(0x3ff)
        .build();
    assert_eq!(tlp.header.byte_enable, 0xa5);
    assert_eq!(tlp.header.length, 0x3ff);
    assert_eq!(tlp.header.packet_type, PacketType::Config0Write(config_extra()));
}

#[test]
fn transaction_id_joins_tag_and_requester() {
    let extra = ConfigExtra { requester: 0x0040, completer: 0x0060, tag: 0x12, reg: 0 };
    let expected = Some(0x0040_0012);
    assert_eq!(TlpBuilder::config0_read(extra).build().header.transaction_id(), expected);
    assert_eq!(TlpBuilder::config0_write(extra).build().header.transaction_id(), expected);

    let extra = CompletionExtra { requester: 0xffff, tag: 0xff, ..completion_extra() };
    let expected = Some(0xffff_00ff);
    assert_eq!(TlpBuilder::completion_data(extra).build().header.transaction_id(), expected);
    for ptype in [
        PacketType::Completion(extra),
        PacketType::CompletionLocked(extra),
        PacketType::CompletionLockedData(extra),
    ] {
        assert_eq!(TlpBuilder::with_type(ptype).build().header.transaction_id(), expected);
    }
    let echo = CompletionExtra { requester: 0x0040, tag: 7, status: 3, byte_count: 9, ..completion_extra() };
    assert_eq!(
        TlpBuilder::completion_data(echo).build().header.transaction_id(),
        Some(0x0040_0007)
    );
}

#[test]
fn other_packets_have_no_transaction_id() {
    let config = config_extra();
    let memory = Memory64Extra { requester: 1, tag: 2, addr: 3 };
    for ptype in [
        PacketType::Unknown,
        PacketType::IoRead,
        PacketType::IoWrite,
        PacketType::MemoryRead64(memory),
        PacketType::MemoryWrite64(memory),
        PacketType::Config1Read(config),
        PacketType::Config1Write(config),
        PacketType::Message(0),
    ] {
        assert_eq!(TlpBuilder::with_type(ptype).build().header.transaction_id(), None);
    }
}

#[test]
fn single_dword_needs_first_enables_only() {
    let build = |be: u8| TlpBuilder::config0_write(config_extra()).byte_enable(be).build();
    assert!(build(0x0f).is_valid());
    assert!(build(0x01).is_valid());
    assert!(build(0x0a).is_valid());
    assert!(!build(0x00).is_valid());
    assert!(!build(0x10).is_valid());
    assert!(!build(0x1f).is_valid());
    assert!(!build(0xf0).is_valid());
}

#[test]
fn several_dwords_need_first_and_last_enables() {
    let extra = Memory64Extra { requester: 1, tag: 2, addr: 0x1000 };
    let build = |be: u8, len: u16| TlpBuilder::memory_read64(extra).byte_enable(be).length(len).build();
    assert!(build(0xff, 2).is_valid());
    assert!(build(0x11, 1023).is_valid());
    assert!(!build(0x0f, 2).is_valid());
    assert!(!build(0xf0, 2).is_valid());
    assert!(!build(0x00, 2).is_valid());
    assert!(build(0x0f, 1).is_valid());
    assert!(!build(0xff, 1).is_valid());
    assert!(build(0x00, 0).is_valid());
    assert!(build(0xff, 0).is_valid());
}

#[test]
fn config_requests_are_strict() {
    for ptype in [
        PacketType::Config0Read(config_extra()),
        PacketType::Config0Write(config_extra()),
        PacketType::Config1Read(config_extra()),
        PacketType::Config1Write(config_extra()),
    ] {
        let good = TlpBuilder::with_type(ptype).length(1).byte_enable(0x0f).build();
        assert!(good.is_valid());

        let mut tlp = TlpBuilder::with_type(ptype).length(1).byte_enable(0x0f).build();
        tlp.header.traffic_class = TrafficClass::TC1;
        assert!(!tlp.is_valid());

        let mut tlp = TlpBuilder::with_type(ptype).length(1).byte_enable(0x0f).build();
        tlp.header.no_snoop = true;
        assert!(!tlp.is_valid());

        let mut tlp = TlpBuilder::with_type(ptype).length(1).byte_enable(0x0f).build();
        tlp.header.relax_ordering = true;
        assert!(!tlp.is_valid());

        assert!(!TlpBuilder::with_type(ptype).length(2).byte_enable(0xff).build().is_valid());
        assert!(!TlpBuilder::with_type(ptype).length(0).byte_enable(0x0f).build().is_valid());

        let mut tlp = TlpBuilder::with_type(ptype).length(1).byte_enable(0x0f).build();
        tlp.header.id_ordering = true;
        tlp.header.poisoned_data = true;
        assert!(tlp.is_valid());
    }
}

#[test]
fn other_packets_only_obey_the_byte_enable_rule() {
    let mut tlp = TlpBuilder::completion_data(completion_extra())
        .byte_enable(0xff)
        .data(vec![1, 2])
        .build();
    tlp.header.traffic_class = TrafficClass::TC7;
    tlp.header.no_snoop = true;
    tlp.header.relax_ordering = true;
    assert!(tlp.is_valid());
    tlp.header.byte_enable = 0x0f;
    assert!(!tlp.is_valid());
}

#[test]
fn format_codes() {
    assert_eq!(Fmt::try_from(0b000), Ok(Fmt::Dw3NoData));
    assert_eq!(Fmt::try_from(0b001), Ok(Fmt::Dw4NoData));
    assert_eq!(Fmt::try_from(0b010), Ok(Fmt::Dw3));
    assert_eq!(Fmt::try_from(0b011), Ok(Fmt::Dw4));
    assert_eq!(Fmt::try_from(0b100), Ok(Fmt::Prefix));
    assert_eq!(Fmt::try_from(0b101), Err(()));
    assert_eq!(Fmt::try_from(0xff), Err(()));
    assert_eq!(Fmt::Dw3NoData.bits(), 0b000 << 5);
    assert_eq!(Fmt::Dw4NoData.bits(), 0b001 << 5);
    assert_eq!(Fmt::Dw3.bits(), 0b010 << 5);
    assert_eq!(Fmt::Dw4.bits(), 0b011 << 5);
    assert_eq!(Fmt::Prefix.bits(), 0b100 << 5);
}
