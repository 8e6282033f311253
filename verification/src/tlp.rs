//! In-memory model of PCIe Transaction Layer Packets.
//!
//! A [`Tlp`] is a header plus an optional payload of 32-bit DWORDs. The header
//! carries the packet type together with its per-type descriptor, the traffic
//! class, the attribute bits, the byte-enable field and the payload length in
//! DWORDs. [`TlpBuilder`] assembles packets field by field, and
//! [`Tlp::is_valid`] decides the header rules that every device may rely on.

use vstd::prelude::*;

verus! {

/// The format of a header: how many DWORDs it has and whether a payload
/// follows. It travels in bits 7:5 of the first byte.
#[derive(Debug, Clone, Copy, PartialEq, Eq, Structural)]
pub enum Fmt {
    Dw3NoData,
    Dw4NoData,
    Dw3,
    Dw4,
    Prefix,
}

impl Fmt {
    /// The value of the three format bits.
    pub open spec fn code(self) -> u8 {
        match self {
            Fmt::Dw3NoData => 0b000,
            Fmt::Dw4NoData => 0b001,
            Fmt::Dw3 => 0b010,
            Fmt::Dw4 => 0b011,
            Fmt::Prefix => 0b100,
        }
    }

    /// The format with the code `value`; there is none for a code above 4.
    pub fn try_from(value: u8) -> (fmt: Result<Fmt, ()>)
        ensures
            match fmt {
                Ok(fmt) => fmt.code() == value,
                Err(_) => value > 0b100,
            },
    {
        match value {
            0b00 => Ok(Fmt::Dw3NoData),
            0b01 => Ok(Fmt::Dw4NoData),
            0b10 => Ok(Fmt::Dw3),
            0b11 => Ok(Fmt::Dw4),
            0b100 => Ok(Fmt::Prefix),
            _ => Err(()),
        }
    }

    /// The format bits in their place in the first byte of a header.
    pub fn bits(self) -> (bits: u8)
        ensures
            bits == self.code() * 32,
    {
        match self {
            Fmt::Dw3NoData => 0x00,
            Fmt::Dw4NoData => 0x20,
            Fmt::Dw3 => 0x40,
            Fmt::Dw4 => 0x60,
            Fmt::Prefix => 0x80,
        }
    }
}

/// Descriptor of a configuration-space request.
#[derive(Debug, Clone, Copy, PartialEq, Eq, Structural)]
pub struct ConfigExtra {
    pub requester: u16,
    pub completer: u16,
    pub tag: u8,
    pub reg: u16,
}

/// Descriptor of a memory request with a 32-bit address.
#[derive(Debug, Clone, Copy, PartialEq, Eq, Structural)]
pub struct MemoryExtra {
    pub requester: u16,
    pub tag: u8,
    pub addr: u32,
}

/// Descriptor of a memory request with a 64-bit address.
#[derive(Debug, Clone, Copy, PartialEq, Eq, Structural)]
pub struct Memory64Extra {
    pub requester: u16,
    pub tag: u8,
    pub addr: u64,
}

/// Descriptor of a completion.
#[derive(Debug, Clone, Copy, PartialEq, Eq, Structural)]
pub struct CompletionExtra {
    pub requester: u16,
    pub completer: u16,
    pub tag: u8,
    pub status: u8,
    pub bcm: bool,
    pub byte_count: u16,
    pub lower_address: u8,
}

/// The kind of a transaction, with the descriptor that the kind carries.
#[derive(Debug, Clone, Copy, PartialEq, Eq, Structural)]
pub enum PacketType {
    MemoryRead(MemoryExtra),
    MemoryRead64(Memory64Extra),
    MemoryReadLock,
    MemoryReadLock64,
    MemoryWrite(MemoryExtra),
    MemoryWrite64(Memory64Extra),
    IoRead,
    IoWrite,
    Config0Read(ConfigExtra),
    Config0Write(ConfigExtra),
    Config1Read(ConfigExtra),
    Config1Write(ConfigExtra),
    Message(u8),
    MessageData(u8),
    Completion(CompletionExtra),
    CompletionData(CompletionExtra),
    CompletionLocked(CompletionExtra),
    CompletionLockedData(CompletionExtra),
    FetchAddAtomic,
    SwapAtomic,
    CasAtomic,
    LocalPrefix(u8),
    EndToEndPrefix(u8),
    Unknown,
}

/// Traffic class of a packet.
#[derive(Debug, Clone, Copy, PartialEq, Eq, Structural)]
pub enum TrafficClass {
    TC0,
    TC1,
    TC2,
    TC3,
    TC4,
    TC5,
    TC6,
    TC7,
}

/// The address-type field of a request header.
#[derive(Debug, Clone, Copy, PartialEq, Eq, Structural)]
pub enum AddressType {
    Default,
    TranslationRequest,
    Translated,
    Reserved,
}

/// The header of a packet.
#[derive(Debug, Clone, Copy)]
pub struct TlpHeader {
    pub packet_type: PacketType,
    pub traffic_class: TrafficClass,
    pub address_type: AddressType,
    /// Attr\[1\]
    pub relax_ordering: bool,
    /// Attr\[0\]
    pub no_snoop: bool,
    /// Attr\[2\]
    pub id_ordering: bool,
    pub poisoned_data: bool,
    pub tlp_digest: bool,
    pub processing_hint: bool,
    /// Upper nibble: byte enables of the last DWORD; lower nibble: of the first.
    pub byte_enable: u8,
    /// Payload length in DWORDs.
    pub length: u16,
}

/// A packet: a header and, for the kinds that carry one, a payload.
#[derive(Debug, Clone)]
pub struct Tlp {
    pub header: TlpHeader,
    pub data: Option<Vec<u32>>,
}

/// What a [`Tlp`] is, mathematically: its header and its payload as a sequence.
pub struct TlpView {
    pub header: TlpHeader,
    pub data: Option<Seq<u32>>,
}

impl TlpView {
    /// Whether the payload, if there is one, has the length that the header
    /// states.
    pub open spec fn payload_matches_length(self) -> bool {
        self.data matches Some(data) ==> data.len() == self.header.length
    }
}

impl View for Tlp {
    type V = TlpView;

    open spec fn view(&self) -> TlpView {
        TlpView {
            header: self.header,
            data: match self.data {
                Some(v) => Some(v@),
                None => None,
            },
        }
    }
}

/// The key under which a request and its completion are matched:
/// the tag in the low byte, the requester in the upper half.
pub open spec fn transaction_id_of(requester: u16, tag: u8) -> u32 {
    (tag as u32) | ((requester as u32) << 16)
}

/// The key is the requester times 65536 plus the tag.
pub proof fn lemma_transaction_id_value(requester: u16, tag: u8)
    ensures
        transaction_id_of(requester, tag) == requester * 0x1_0000 + tag,
{
    assert(((tag as u32) | ((requester as u32) << 16)) == (requester as u32) * 0x1_0000 + (tag as u32))
        by (bit_vector);
}

/// The header from which every builder starts.
pub open spec fn default_header() -> TlpHeader {
    TlpHeader {
        packet_type: PacketType::Unknown,
        traffic_class: TrafficClass::TC0,
        address_type: AddressType::Default,
        relax_ordering: false,
        no_snoop: false,
        id_ordering: false,
        poisoned_data: false,
        tlp_digest: false,
        processing_hint: false,
        byte_enable: 0,
        length: 0,
    }
}

/// The byte-enable rule: a single-DWORD packet enables bytes of its first
/// DWORD only, and at least one of them; a longer packet enables at least one
/// byte of its first and one of its last DWORD.
pub open spec fn byte_enable_ok(length: u16, byte_enable: u8) -> bool {
    &&& length == 1 ==> byte_enable & 0xf0 == 0 && byte_enable & 0x0f != 0
    &&& length > 1 ==> byte_enable & 0xf0 != 0 && byte_enable & 0x0f != 0
}

impl PacketType {
    /// Whether the packet is a configuration request of either type.
    pub open spec fn is_config(self) -> bool {
        self is Config0Read || self is Config0Write || self is Config1Read || self is Config1Write
    }
}

impl TlpHeader {
    /// The transaction id if the packet has one.
    pub open spec fn spec_transaction_id(&self) -> Option<u32> {
        match self.packet_type {
            PacketType::Config0Read(extra) => Some(transaction_id_of(extra.requester, extra.tag)),
            PacketType::Config0Write(extra) => Some(transaction_id_of(extra.requester, extra.tag)),
            PacketType::Completion(extra) => Some(transaction_id_of(extra.requester, extra.tag)),
            PacketType::CompletionData(extra) => Some(
                transaction_id_of(extra.requester, extra.tag),
            ),
            PacketType::CompletionLocked(extra) => Some(
                transaction_id_of(extra.requester, extra.tag),
            ),
            PacketType::CompletionLockedData(extra) => Some(
                transaction_id_of(extra.requester, extra.tag),
            ),
            _ => None,
        }
    }

    /// The key that matches a type-0 configuration request with its
    /// completion: a completion of any kind echoes the requester and the tag
    /// of its request. Other kinds of packet have none.
    pub fn transaction_id(&self) -> (id: Option<u32>)
        ensures
            id == self.spec_transaction_id(),
    {
        match self.packet_type {
            PacketType::Config0Read(extra) | PacketType::Config0Write(extra) => {
                Some(extra.tag as u32 | ((extra.requester as u32) << 16))
            },
            PacketType::CompletionData(extra)
            | PacketType::Completion(extra)
            | PacketType::CompletionLocked(extra)
            | PacketType::CompletionLockedData(extra) => {
                Some(extra.tag as u32 | ((extra.requester as u32) << 16))
            },
            _ => None,
        }
    }

    /// The header rules: the byte-enable rule, and for configuration requests
    /// traffic class 0, no relaxed ordering, no snooping hint and one DWORD.
    pub open spec fn spec_is_valid(&self) -> bool {
        &&& byte_enable_ok(self.length, self.byte_enable)
        &&& self.packet_type.is_config() ==> {
            &&& self.traffic_class == TrafficClass::TC0
            &&& !self.no_snoop
            &&& !self.relax_ordering
            &&& self.length == 1
        }
    }
}

impl Default for TlpHeader {
    fn default() -> (header: Self)
        ensures
            header == default_header(),
    {
        TlpHeader {
            packet_type: PacketType::Unknown,
            traffic_class: TrafficClass::TC0,
            address_type: AddressType::Default,
            relax_ordering: false,
            no_snoop: false,
            id_ordering: false,
            poisoned_data: false,
            processing_hint: false,
            tlp_digest: false,
            byte_enable: 0,
            length: 0,
        }
    }
}

impl Default for Tlp {
    fn default() -> (tlp: Self)
        ensures
            tlp@ == (TlpView { header: default_header(), data: None }),
    {
        Tlp { header: TlpHeader::default(), data: None }
    }
}

impl Tlp {
    /// Whether the header obeys the rules of [`TlpHeader::spec_is_valid`].
    pub fn is_valid(&self) -> (valid: bool)
        ensures
            valid == self.header.spec_is_valid(),
    {
        let header = self.header;
        let first: u8 = header.byte_enable & 0x0f;
        let last: u8 = header.byte_enable & 0xf0;

        if header.length == 1 && (first == 0 || last != 0) {
            return false;
        }
        if header.length > 1 && (first == 0 || last == 0) {
            return false;
        }
        match header.packet_type {
            PacketType::Config0Read(_)
            | PacketType::Config0Write(_)
            | PacketType::Config1Read(_)
            | PacketType::Config1Write(_) => {
                header.traffic_class == TrafficClass::TC0 && !header.no_snoop
                    && !header.relax_ordering && header.length == 1
            },
            _ => true,
        }
    }
}

/// Assembles a [`Tlp`] step by step.
#[derive(Debug)]
pub struct TlpBuilder(Tlp);

impl View for TlpBuilder {
    type V = TlpView;

    /// The packet that [`TlpBuilder::build`] would return now.
    closed spec fn view(&self) -> TlpView {
        self.0@
    }
}

impl TlpBuilder {
    /// A builder for a packet of the given kind; every other field is zero.
    pub fn with_type(ptype: PacketType) -> (builder: Self)
        ensures
            builder@ == (TlpView {
                header: TlpHeader { packet_type: ptype, ..default_header() },
                data: None,
            }),
    {
        TlpBuilder(Tlp::default()).packet_type(ptype)
    }

    pub fn memory_read(extra: MemoryExtra) -> (builder: Self)
        ensures
            builder@ == (TlpView {
                header: TlpHeader { packet_type: PacketType::MemoryRead(extra), ..default_header() },
                data: None,
            }),
    {
        Self::with_type(PacketType::MemoryRead(extra))
    }

    /// A 64-bit memory read; its length is set separately.
    pub fn memory_read64(extra: Memory64Extra) -> (builder: Self)
        ensures
            builder@ == (TlpView {
                header: TlpHeader {
                    packet_type: PacketType::MemoryRead64(extra),
                    ..default_header()
                },
                data: None,
            }),
    {
        Self::with_type(PacketType::MemoryRead64(extra))
    }

    pub fn io_read() -> (builder: Self)
        ensures
            builder@ == (TlpView {
                header: TlpHeader { packet_type: PacketType::IoRead, ..default_header() },
                data: None,
            }),
    {
        Self::with_type(PacketType::IoRead)
    }

    pub fn io_write() -> (builder: Self)
        ensures
            builder@ == (TlpView {
                header: TlpHeader { packet_type: PacketType::IoWrite, ..default_header() },
                data: None,
            }),
    {
        Self::with_type(PacketType::IoWrite)
    }

    /// A type-0 configuration read of one DWORD.
    pub fn config0_read(extra: ConfigExtra) -> (builder: Self)
        ensures
            builder@ == (TlpView {
                header: TlpHeader {
                    packet_type: PacketType::Config0Read(extra),
                    length: 1,
                    ..default_header()
                },
                data: None,
            }),
    {
        Self::with_type(PacketType::Config0Read(extra)).length(1)
    }

    /// A type-0 configuration write of one DWORD.
    pub fn config0_write(extra: ConfigExtra) -> (builder: Self)
        ensures
            builder@ == (TlpView {
                header: TlpHeader {
                    packet_type: PacketType::Config0Write(extra),
                    length: 1,
                    ..default_header()
                },
                data: None,
            }),
    {
        Self::with_type(PacketType::Config0Write(extra)).length(1)
    }

    /// A completion with data; its length follows from the payload attached.
    pub fn completion_data(extra: CompletionExtra) -> (builder: Self)
        ensures
            builder@ == (TlpView {
                header: TlpHeader {
                    packet_type: PacketType::CompletionData(extra),
                    ..default_header()
                },
                data: None,
            }),
    {
        Self::with_type(PacketType::CompletionData(extra))
    }

    fn packet_type(self, ptype: PacketType) -> (builder: Self)
        ensures
            builder@ == (TlpView {
                header: TlpHeader { packet_type: ptype, ..self@.header },
                data: self@.data,
            }),
    {
        let mut tlp = self.0;
        tlp.header.packet_type = ptype;
        TlpBuilder(tlp)
    }

    /// Sets the length field, in DWORDs.
    pub fn length(self, len: u16) -> (builder: Self)
        ensures
            builder@ == (TlpView {
                header: TlpHeader { length: len, ..self@.header },
                data: self@.data,
            }),
    {
        let mut tlp = self.0;
        tlp.header.length = len;
        TlpBuilder(tlp)
    }

    /// Replaces the payload and sets the length field to its number of
    /// DWORDs, reduced to the width of the field.
    pub fn data(self, data: Vec<u32>) -> (builder: Self)
        ensures
            builder@ == (TlpView {
                header: TlpHeader { length: (data@.len() % 0x1_0000) as u16, ..self@.header },
                data: Some(data@),
            }),
            data@.len() <= u16::MAX ==> builder@.header.length == data@.len(),
    {
        let len: usize = data.len();
        let mut tlp = self.0;
        tlp.data = Some(data);
        tlp.header.length = (len % 0x1_0000) as u16;
        TlpBuilder(tlp)
    }

    /// Sets the byte-enable field as given.
    pub fn byte_enable(self, be: u8) -> (builder: Self)
        ensures
            builder@ == (TlpView {
                header: TlpHeader { byte_enable: be, ..self@.header },
                data: self@.data,
            }),
    {
        let mut tlp = self.0;
        tlp.header.byte_enable = be;
        TlpBuilder(tlp)
    }

    /// The packet as assembled. Its validity is the caller's business.
    pub fn build(self) -> (tlp: Tlp)
        ensures
            tlp@ == self@,
    {
        self.0
    }
}

} // verus!
