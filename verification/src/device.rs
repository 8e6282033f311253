//! The reference device: what a simulated device answers to each packet.
//!
//! A simulated device sits at the far end of the lane, takes request packets
//! and sends completions. The reference device declares one 64-bit memory BAR
//! and one I/O BAR, keeps its configuration registers in a configuration
//! space that its owner provides, and reads as a repeating pattern through
//! its memory BAR. [`PciTestDevice::respond`] decides what to do with one
//! packet; the owner carries the decision out.

use crate::bytes::{le_bytes, le_bytes_prefix};
use crate::region::PciBarRegionType;
use crate::tlp::{
    default_header, CompletionExtra, ConfigExtra, Memory64Extra, PacketType, Tlp, TlpBuilder,
    TlpHeader, TlpView,
};
use vstd::prelude::*;
use vstd::std_specs::bits::{
    axiom_u8_leading_zeros, axiom_u8_trailing_zeros, u8_leading_zeros, u8_trailing_zeros,
};

verus! {

/// The DWORD that every location of the reference device's memory BAR holds.
pub const MEMORY_PATTERN: u32 = 0x1234_5678;

/// One BAR as a device declares it.
#[derive(Debug, Clone, Copy)]
pub struct PciBarDeclaration {
    /// Number of the BAR, 0 to 5.
    pub index: usize,
    /// Size of the region in bytes.
    pub size: u64,
    pub region_type: PciBarRegionType,
    pub prefetchable: bool,
}

/// The reference device used to exercise the bridge.
#[derive(Debug)]
pub struct PciTestDevice {
    pub vendor_id: u16,
    pub device_id: u16,
    pub revision_id: u8,
    pub subsystem_vendor_id: u16,
    pub subsystem_id: u16,
    pub bars: Vec<PciBarDeclaration>,
}

/// What the owner of the device does with one packet.
#[derive(Debug)]
pub enum DeviceAction {
    /// Read configuration register `reg_idx` and send
    /// [`PciTestDevice::config_read_completion`] of `extra` and its value.
    ReadConfig { reg_idx: usize, extra: ConfigExtra },
    /// Write `data` at byte `offset` of configuration register `reg_idx`,
    /// then send `reply`.
    WriteConfig { reg_idx: usize, offset: u64, data: Vec<u8>, reply: Tlp },
    /// Send `reply`.
    Reply { reply: Tlp },
    /// Nothing: the packet is not for this device.
    Ignore,
}

/// A [`DeviceAction`] with its byte strings and packets as values.
pub enum DeviceActionView {
    ReadConfig { reg_idx: usize, extra: ConfigExtra },
    WriteConfig { reg_idx: usize, offset: u64, data: Seq<u8>, reply: TlpView },
    Reply { reply: TlpView },
    Ignore,
}

impl View for DeviceAction {
    type V = DeviceActionView;

    open spec fn view(&self) -> DeviceActionView {
        match *self {
            DeviceAction::ReadConfig { reg_idx, extra } => DeviceActionView::ReadConfig {
                reg_idx,
                extra,
            },
            DeviceAction::WriteConfig { reg_idx, offset, data, reply } => {
                DeviceActionView::WriteConfig { reg_idx, offset, data: data@, reply: reply@ }
            },
            DeviceAction::Reply { reply } => DeviceActionView::Reply { reply: reply@ },
            DeviceAction::Ignore => DeviceActionView::Ignore,
        }
    }
}

/// The completion that answers a configuration request: one DWORD, routed
/// back by the requester and tag of the request.
pub open spec fn config_completion(extra: ConfigExtra, value: u32) -> TlpView {
    TlpView {
        header: TlpHeader {
            packet_type: PacketType::CompletionData(
                CompletionExtra {
                    requester: extra.requester,
                    completer: extra.completer,
                    tag: extra.tag,
                    status: 0,
                    bcm: false,
                    byte_count: 4,
                    lower_address: 0,
                },
            ),
            length: 1,
            ..default_header()
        },
        data: Some(seq![value]),
    }
}

/// The byte offset at which a configuration write starts: the position of
/// the lowest byte enabled.
pub open spec fn config_write_offset(byte_enable: u8) -> int {
    u8_trailing_zeros(byte_enable) as int
}

/// The number of bytes of a configuration write: from the lowest byte
/// enabled up to the highest.
pub open spec fn config_write_len(byte_enable: u8) -> int {
    8 - u8_leading_zeros(byte_enable) - u8_trailing_zeros(byte_enable)
}

/// The bytes that a configuration write carries to the register: those of
/// the DWORD from the lowest byte enabled up to the highest.
pub open spec fn config_write_bytes(byte_enable: u8, value: u32) -> Seq<u8> {
    le_bytes(value >> ((8 * u8_trailing_zeros(byte_enable)) as u32)).subrange(
        0,
        config_write_len(byte_enable),
    )
}

/// The low address bits of a memory read completion: the DWORD-aligned part
/// of the low seven address bits, and the position of the first byte enabled.
pub open spec fn completion_lower_address(addr: u64, byte_enable: u8) -> u8 {
    ((addr & 0x7c) as u8) | ((u8_trailing_zeros(byte_enable & 0xf) % 4) as u8)
}

/// The completion that answers a memory read of `length` DWORDs.
pub open spec fn memory_completion(extra: Memory64Extra, byte_enable: u8, length: u16) -> TlpView {
    TlpView {
        header: TlpHeader {
            packet_type: PacketType::CompletionData(
                CompletionExtra {
                    requester: extra.requester,
                    completer: 0,
                    tag: extra.tag,
                    status: 0,
                    bcm: false,
                    byte_count: 0,
                    lower_address: completion_lower_address(extra.addr, byte_enable),
                },
            ),
            byte_enable: if length == 1 {
                0x0fu8
            } else {
                0xffu8
            },
            length: length,
            ..default_header()
        },
        data: Some(Seq::new(length as nat, |i: int| MEMORY_PATTERN)),
    }
}

/// In a byte with a bit set, the leading and the trailing zeros together
/// leave room for that bit.
pub proof fn lemma_zeros_leave_a_bit(byte: u8)
    requires
        byte != 0,
    ensures
        u8_leading_zeros(byte) + u8_trailing_zeros(byte) <= 7,
{
    axiom_u8_leading_zeros(byte);
    axiom_u8_trailing_zeros(byte);
    let lz = u8_leading_zeros(byte);
    let tz = u8_trailing_zeros(byte);
    if lz + tz > 7 {
        let j = tz as u8;
        assert(8 - lz <= j < 8);
        assert((byte >> j) & 1u8 == 0u8);
        assert((byte >> (tz as u8)) & 1u8 == 1u8);
    }
}

/// Byte enables of a first DWORD name a byte offset below 4 and a number of
/// bytes that fits behind it.
pub proof fn lemma_first_dword_enables(byte_enable: u8)
    requires
        byte_enable & 0x0f != 0,
        byte_enable & 0xf0 == 0,
    ensures
        0 <= config_write_offset(byte_enable) <= 3,
        1 <= config_write_len(byte_enable),
        config_write_offset(byte_enable) + config_write_len(byte_enable) <= 4,
{
    axiom_u8_leading_zeros(byte_enable);
    assert(byte_enable != 0) by (bit_vector)
        requires
            byte_enable & 0x0f != 0,
    ;
    lemma_zeros_leave_a_bit(byte_enable);
    let lz = u8_leading_zeros(byte_enable);
    if lz < 4 {
        let top: u8 = (7 - lz) as u8;
        assert((byte_enable >> top) & 1u8 == 0u8) by (bit_vector)
            requires
                4 <= top <= 7,
                byte_enable & 0xf0 == 0,
        ;
    }
}

impl PciTestDevice {
    /// The device as it declares itself: its identity, a 64-bit memory
    /// region of 1 MiB behind BAR 0 and an I/O region of 256 bytes behind
    /// BAR 2, neither prefetchable.
    pub fn new() -> (device: PciTestDevice)
        ensures
            device.vendor_id == 0x1234,
            device.device_id == 0x5678,
            device.revision_id == 0x01,
            device.subsystem_vendor_id == 0x5555,
            device.subsystem_id == 0x6666,
            device.bars@ == seq![
                PciBarDeclaration {
                    index: 0,
                    size: 0x10_0000,
                    region_type: PciBarRegionType::Memory64BitRegion,
                    prefetchable: false,
                },
                PciBarDeclaration {
                    index: 2,
                    size: 0x100,
                    region_type: PciBarRegionType::IoRegion,
                    prefetchable: false,
                },
            ],
    {
        let mut bars: Vec<PciBarDeclaration> = Vec::new();
        bars.push(
            PciBarDeclaration {
                index: 0,
                size: 0x10_0000,
                region_type: PciBarRegionType::Memory64BitRegion,
                prefetchable: false,
            },
        );
        bars.push(
            PciBarDeclaration {
                index: 2,
                size: 0x100,
                region_type: PciBarRegionType::IoRegion,
                prefetchable: false,
            },
        );
        PciTestDevice {
            vendor_id: 0x1234,
            device_id: 0x5678,
            revision_id: 0x01,
            subsystem_vendor_id: 0x5555,
            subsystem_id: 0x6666,
            bars,
        }
    }

    /// The packets that the device has an answer to: type-0 configuration
    /// reads, type-0 configuration writes that carry a DWORD and enable
    /// bytes of it and of no other, 64-bit memory reads, and type-1
    /// configuration requests, which it lets pass.
    pub open spec fn handles(trans: TlpView) -> bool {
        match trans.header.packet_type {
            PacketType::Config0Read(_) => true,
            PacketType::Config0Write(_) => {
                &&& trans.data is Some
                &&& trans.data->0.len() >= 1
                &&& trans.header.byte_enable & 0x0f != 0
                &&& trans.header.byte_enable & 0xf0 == 0
            },
            PacketType::Config1Read(_) => true,
            PacketType::Config1Write(_) => true,
            PacketType::MemoryRead64(_) => true,
            _ => false,
        }
    }

    /// What the device does with a packet that it handles.
    pub open spec fn spec_respond(trans: TlpView) -> DeviceActionView {
        match trans.header.packet_type {
            PacketType::Config0Read(extra) => DeviceActionView::ReadConfig {
                reg_idx: extra.reg as usize,
                extra,
            },
            PacketType::Config0Write(extra) => DeviceActionView::WriteConfig {
                reg_idx: extra.reg as usize,
                offset: config_write_offset(trans.header.byte_enable) as u64,
                data: config_write_bytes(trans.header.byte_enable, trans.data->0[0]),
                reply: config_completion(extra, trans.data->0[0]),
            },
            PacketType::MemoryRead64(extra) => DeviceActionView::Reply {
                reply: memory_completion(extra, trans.header.byte_enable, trans.header.length),
            },
            _ => DeviceActionView::Ignore,
        }
    }

    /// Decides [`PciTestDevice::handles`].
    pub fn can_handle(trans: &Tlp) -> (yes: bool)
        ensures
            yes == Self::handles(trans@),
    {
        match trans.header.packet_type {
            PacketType::Config0Read(_) => true,
            PacketType::Config0Write(_) => {
                let be: u8 = trans.header.byte_enable;
                match &trans.data {
                    Some(data) => data.len() >= 1 && be & 0x0f != 0 && be & 0xf0 == 0,
                    None => false,
                }
            },
            PacketType::Config1Read(_) => true,
            PacketType::Config1Write(_) => true,
            PacketType::MemoryRead64(_) => true,
            _ => false,
        }
    }

    /// The completion that carries `value`, the content of the register that
    /// the request with descriptor `extra` asked for.
    pub fn config_read_completion(extra: ConfigExtra, value: u32) -> (reply: Tlp)
        ensures
            reply@ == config_completion(extra, value),
    {
        let mut data: Vec<u32> = Vec::new();
        data.push(value);
        assert(data@ =~= seq![value]);
        TlpBuilder::completion_data(
            CompletionExtra {
                requester: extra.requester,
                completer: extra.completer,
                tag: extra.tag,
                bcm: false,
                byte_count: 4,
                status: 0,
                lower_address: 0,
            },
        ).data(data).build()
    }

    /// What to do with the packet `trans`.
    ///
    /// A configuration read asks the owner for the register. A configuration
    /// write hands the owner the bytes enabled and the completion that echoes
    /// the DWORD written. A memory read is answered with as many copies of
    /// [`MEMORY_PATTERN`] as the request has DWORDs.
    pub fn respond(&self, trans: &Tlp) -> (action: DeviceAction)
        requires
            Self::handles(trans@),
        ensures
            action@ == Self::spec_respond(trans@),
    {
        match trans.header.packet_type {
            PacketType::Config0Read(extra) => DeviceAction::ReadConfig {
                reg_idx: extra.reg as usize,
                extra,
            },
            PacketType::Config0Write(extra) => {
                let be: u8 = trans.header.byte_enable;
                let value: u32 = match &trans.data {
                    Some(data) => data[0],
                    None => 0,
                };
                proof {
                    lemma_first_dword_enables(be);
                }
                let offset: u32 = be.trailing_zeros();
                let len: u32 = 8 - be.leading_zeros() - offset;
                let data = le_bytes_prefix(value >> (8 * offset), len as usize);
                let reply = Self::config_read_completion(extra, value);
                DeviceAction::WriteConfig {
                    reg_idx: extra.reg as usize,
                    offset: offset as u64,
                    data,
                    reply,
                }
            },
            PacketType::MemoryRead64(extra) => {
                let be: u8 = trans.header.byte_enable;
                let length: u16 = trans.header.length;
                let addr: u64 = extra.addr;
                let aligned: u64 = addr & 0x7c;
                assert(aligned <= 0x7c) by (bit_vector)
                    requires
                        aligned == addr & 0x7c,
                ;
                proof {
                    axiom_u8_trailing_zeros(be & 0xf);
                }
                let first: u32 = (be & 0xf).trailing_zeros() % 4;
                let lower_address: u8 = (aligned as u8) | (first as u8);
                let byte_enable: u8 = if length == 1 {
                    0x0f
                } else {
                    0xff
                };
                let mut data: Vec<u32> = Vec::new();
                let mut i: u16 = 0;
                while i < length
                    invariant
                        i <= length,
                        data@ == Seq::new(i as nat, |j: int| MEMORY_PATTERN),
                    decreases length - i,
                {
                    data.push(MEMORY_PATTERN);
                    i = i + 1;
                    assert(data@ =~= Seq::new(i as nat, |j: int| MEMORY_PATTERN));
                }
                let reply = TlpBuilder::completion_data(
                    CompletionExtra {
                        requester: extra.requester,
                        completer: 0,
                        tag: extra.tag,
                        bcm: false,
                        byte_count: 0,
                        status: 0,
                        lower_address,
                    },
                ).byte_enable(byte_enable).data(data).build();
                DeviceAction::Reply { reply }
            },
            _ => DeviceAction::Ignore,
        }
    }
}

} // verus!
