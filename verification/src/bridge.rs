//! The bridge: commands in, request packets out; completions in, answers out.
//!
//! The bridge owns the adapter's end of the lane. For each command of the
//! front end it allocates a transaction id that no outstanding request has,
//! notes in its pending table what the completion of that id is to be turned
//! into, and builds the request packet. For each packet that comes back it
//! finds the pending entry by the id that the completion echoes, removes it,
//! and says what to hand to the caller that waits. The bridge itself neither
//! sends nor receives: its owner moves the packets and wakes the callers.

use crate::bytes::{be_bytes, be_bytes_range};
use crate::tlp::{
    default_header, transaction_id_of, ConfigExtra, Memory64Extra, PacketType, Tlp, TlpBuilder,
    TlpHeader, TlpView,
};
use std::collections::HashMap;
use vstd::prelude::*;
use vstd::std_specs::bits::{axiom_u8_leading_zeros, u8_leading_zeros};

verus! {

broadcast use vstd::std_specs::hash::group_hash_axioms;

/// The identifier of a function on the bus: bus number, device number and
/// the low three bits of the function number.
pub open spec fn spec_make_bdf(bus: u8, device: u8, function: u8) -> u16 {
    ((bus as u16) << 8) | ((function as u16 & 0b111) | ((device as u16) << 5))
}

/// Encodes a bus/device/function triple.
pub fn make_bdf(bus: u8, device: u8, function: u8) -> (bdf: u16)
    ensures
        bdf == spec_make_bdf(bus, device, function),
{
    ((bus as u16) << 8) | ((function as u16 & 0b111) | ((device as u16) << 5))
}

/// The function that the bridge addresses type-0 configuration requests to:
/// bus 0, device 3, function 0.
pub open spec fn config_completer() -> u16 {
    spec_make_bdf(0x0, 0x3, 0x0)
}

/// A write to part of a configuration register: `len` bytes of `data`,
/// to be placed at byte `offset` of register `reg_idx`.
#[derive(Debug, Clone, Copy)]
pub struct ConfigData {
    pub reg_idx: usize,
    pub offset: u64,
    pub len: usize,
    pub data: u32,
}

/// A command of the adapter front end to the bridge.
#[derive(Debug)]
pub enum AdapterMessage {
    IoRead(u32),
    IoWrite(u32, u8),
    MemoryRead(u64, usize),
    MemoryWrite(u64, Vec<u8>),
    ConfigRead(usize),
    ConfigWrite(ConfigData),
    Exit,
}

/// What the completion of a pending request is turned into.
#[derive(Debug, Clone, Copy, PartialEq, Eq, Structural)]
pub enum Reaction {
    /// The caller only waits for the request to be done.
    Notify,
    /// The caller waits for the DWORD of a configuration register.
    ReadConfig,
    /// The caller waits for the bytes of a memory read.
    ReadMemory,
}

/// What the bridge hands to the caller of a completed request.
#[derive(Debug)]
pub enum Delivery {
    Notify,
    ReadConfig(u32),
    ReadMemory(Vec<u8>),
}

/// A [`Delivery`] with its bytes as a value.
pub enum DeliveryView {
    Notify,
    ReadConfig(u32),
    ReadMemory(Seq<u8>),
}

impl View for Delivery {
    type V = DeliveryView;

    open spec fn view(&self) -> DeliveryView {
        match *self {
            Delivery::Notify => DeliveryView::Notify,
            Delivery::ReadConfig(value) => DeliveryView::ReadConfig(value),
            Delivery::ReadMemory(bytes) => DeliveryView::ReadMemory(bytes@),
        }
    }
}

/// What one step of the bridge asks of its owner.
#[derive(Debug)]
pub enum BridgeOutput {
    /// Send `tlp` down the lane; its completion will carry `id`.
    Emit { id: u32, tlp: Tlp },
    /// Hand `delivery` to the caller that waits for transaction `id`.
    Deliver { id: u32, delivery: Delivery },
    /// Nothing: the packet was dropped.
    Dropped,
    /// The command cannot be served now: every tag is outstanding. Its
    /// caller is to be released empty-handed.
    Refused,
    /// Leave the loop; every caller that still waits is to be released.
    Stopped,
}

/// A [`BridgeOutput`] with its packets and bytes as values.
pub enum BridgeOutputView {
    Emit { id: u32, tlp: TlpView },
    Deliver { id: u32, delivery: DeliveryView },
    Dropped,
    Refused,
    Stopped,
}

impl View for BridgeOutput {
    type V = BridgeOutputView;

    open spec fn view(&self) -> BridgeOutputView {
        match *self {
            BridgeOutput::Emit { id, tlp } => BridgeOutputView::Emit { id, tlp: tlp@ },
            BridgeOutput::Deliver { id, delivery } => BridgeOutputView::Deliver {
                id,
                delivery: delivery@,
            },
            BridgeOutput::Dropped => BridgeOutputView::Dropped,
            BridgeOutput::Refused => BridgeOutputView::Refused,
            BridgeOutput::Stopped => BridgeOutputView::Stopped,
        }
    }
}

/// The byte enables of a configuration write: `len` bits in a row, the
/// lowest at position `offset`.
pub open spec fn config_write_byte_enable(len: usize, offset: u64) -> u8 {
    (!(u8::MAX << len)) << offset
}

/// The DWORD of a configuration write: the data moved up to its byte offset.
pub open spec fn config_write_dword(data: u32, offset: u64) -> u32 {
    data << ((offset * 8) as u64)
}

/// The byte enables of a configuration read: the whole register.
pub const CONFIG_READ_BYTE_ENABLE: u8 = 0x0f;

/// The first-DWORD byte enables of a memory read: every byte from the one
/// that `addr` points at.
pub open spec fn first_dword_byte_enable(addr: u64) -> u8 {
    (0xffu8 << ((addr & 0b11) as u8)) & 0xf
}

/// The byte enables of a memory read of `length` DWORDs: in the first DWORD
/// every byte from the one that `addr` points at; in the last DWORD, where
/// the read has more than one, every byte.
pub open spec fn memory_read_byte_enable(addr: u64, length: u16) -> u8 {
    if length > 1 {
        first_dword_byte_enable(addr) | 0xf0
    } else {
        first_dword_byte_enable(addr)
    }
}

/// The number of DWORDs that hold `size` bytes.
pub open spec fn dwords_for(size: usize) -> int {
    (size + 3) / 4
}

/// The length field of a memory read of `size` bytes: its number of DWORDs,
/// reduced to the width of the field.
pub open spec fn memory_read_length(size: usize) -> u16 {
    (dwords_for(size) % 0x1_0000) as u16
}

/// The commands that the bridge turns into a request: configuration reads,
/// configuration writes of at least one byte that stay inside the register,
/// and memory reads whose size the machine can round up.
pub open spec fn supported(msg: AdapterMessage) -> bool {
    match msg {
        AdapterMessage::ConfigRead(_) => true,
        AdapterMessage::ConfigWrite(cd) => 1 <= cd.len && cd.offset + cd.len <= 4,
        AdapterMessage::MemoryRead(_, size) => size + 3 <= usize::MAX,
        _ => false,
    }
}

/// Decides [`supported`].
pub fn is_supported(msg: &AdapterMessage) -> (yes: bool)
    ensures
        yes == supported(*msg),
{
    match msg {
        AdapterMessage::ConfigRead(_) => true,
        AdapterMessage::ConfigWrite(cd) => {
            1 <= cd.len && cd.len <= 4 && cd.offset <= 4 - cd.len as u64
        },
        AdapterMessage::MemoryRead(_, size) => *size <= usize::MAX - 3,
        _ => false,
    }
}

/// What the completion of the request for `msg` is turned into.
pub open spec fn reaction_to(msg: AdapterMessage) -> Reaction {
    match msg {
        AdapterMessage::ConfigRead(_) => Reaction::ReadConfig,
        AdapterMessage::MemoryRead(_, _) => Reaction::ReadMemory,
        _ => Reaction::Notify,
    }
}

/// The request packet that a bridge with identifier `bdf` builds for `msg`
/// under the tag `tag`.
pub open spec fn request_for(bdf: u16, tag: u8, msg: AdapterMessage) -> TlpView {
    match msg {
        AdapterMessage::ConfigRead(reg_idx) => TlpView {
            header: TlpHeader {
                packet_type: PacketType::Config0Read(
                    ConfigExtra {
                        requester: bdf,
                        completer: config_completer(),
                        tag,
                        reg: reg_idx as u16,
                    },
                ),
                byte_enable: CONFIG_READ_BYTE_ENABLE,
                length: 1,
                ..default_header()
            },
            data: None,
        },
        AdapterMessage::ConfigWrite(cd) => TlpView {
            header: TlpHeader {
                packet_type: PacketType::Config0Write(
                    ConfigExtra {
                        requester: bdf,
                        completer: config_completer(),
                        tag,
                        reg: cd.reg_idx as u16,
                    },
                ),
                byte_enable: config_write_byte_enable(cd.len, cd.offset),
                length: 1,
                ..default_header()
            },
            data: Some(seq![config_write_dword(cd.data, cd.offset)]),
        },
        AdapterMessage::MemoryRead(addr, size) => TlpView {
            header: TlpHeader {
                packet_type: PacketType::MemoryRead64(Memory64Extra { requester: bdf, tag, addr }),
                byte_enable: memory_read_byte_enable(addr, memory_read_length(size)),
                length: memory_read_length(size),
                ..default_header()
            },
            data: None,
        },
        _ => TlpView { header: default_header(), data: None },
    }
}

/// All bytes of a payload, each DWORD most significant byte first.
pub open spec fn payload_bytes(dw: Seq<u32>) -> Seq<u8> {
    Seq::new(4 * dw.len(), |i: int| be_bytes(dw[i / 4])[i % 4])
}

/// The number of bytes that the last DWORD of a payload contributes: up to
/// the highest byte that the last-DWORD byte enables name.
pub open spec fn last_dword_len(byte_enable: u8) -> int {
    4 - u8_leading_zeros((byte_enable & 0xf0) | 0x8)
}

/// The bytes that a memory read completion carries for the caller: the
/// payload from the byte that the low address bits point at, to the end of
/// the first DWORD if it is the only one, else up to the last byte enabled in
/// the last DWORD.
pub open spec fn reassemble(dw: Seq<u32>, lower_address: u8, byte_enable: u8) -> Seq<u8> {
    let offset = (lower_address & 0b11) as int;
    let end = if dw.len() == 1 {
        4
    } else {
        4 * (dw.len() - 1) + last_dword_len(byte_enable)
    };
    payload_bytes(dw).subrange(offset, end)
}

/// What a completion with data is turned into for a caller that waits with
/// `reaction`.
pub open spec fn delivery_for(reaction: Reaction, msg: TlpView) -> DeliveryView {
    match reaction {
        Reaction::Notify => DeliveryView::Notify,
        Reaction::ReadConfig => DeliveryView::ReadConfig(msg.data->0[0]),
        Reaction::ReadMemory => DeliveryView::ReadMemory(
            reassemble(
                msg.data->0,
                msg.header.packet_type->CompletionData_0.lower_address,
                msg.header.byte_enable,
            ),
        ),
    }
}

/// A byte with bit 3 set has at most four leading zeros.
proof fn lemma_last_dword_len_bounds(byte_enable: u8)
    ensures
        0 <= last_dword_len(byte_enable) <= 4,
{
    let marked: u8 = (byte_enable & 0xf0) | 0x8;
    axiom_u8_leading_zeros(marked);
    assert((marked >> 3u8) & 1u8 == 1u8) by (bit_vector)
        requires
            marked == (byte_enable & 0xf0) | 0x8,
    ;
    assert(marked != 0) by (bit_vector)
        requires
            marked == (byte_enable & 0xf0) | 0x8,
    ;
    if u8_leading_zeros(marked) > 4 {
        assert(8 - u8_leading_zeros(marked) <= 3u8 < 8);
    }
}

/// Turns the payload of a memory read completion into the bytes read.
pub fn reassemble_bytes(dw: &Vec<u32>, lower_address: u8, byte_enable: u8) -> (bytes: Vec<u8>)
    requires
        dw@.len() >= 1,
    ensures
        bytes@ == reassemble(dw@, lower_address, byte_enable),
{
    let low: u8 = lower_address & 0b11;
    assert(low <= 3) by (bit_vector)
        requires
            low == lower_address & 0b11,
    ;
    let offset: usize = low as usize;
    proof {
        lemma_last_dword_len_bounds(byte_enable);
    }
    let last: usize = 4 - ((byte_enable & 0xf0) | 0x8).leading_zeros() as usize;
    let n: usize = dw.len();
    let ghost all = payload_bytes(dw@);
    let mut bytes = be_bytes_range(dw[0], offset, 4);
    assert(bytes@ =~= all.subrange(offset as int, 4));
    let mut i: usize = 1;
    while i < n
        invariant
            1 <= i <= n == dw@.len(),
            offset <= 3,
            0 <= last <= 4,
            last == last_dword_len(byte_enable),
            all == payload_bytes(dw@),
            bytes@ == all.subrange(
                offset as int,
                if i == n && n > 1 {
                    4 * (n - 1) + last
                } else {
                    4 * i
                },
            ),
        decreases n - i,
    {
        let take: usize = if i == n - 1 {
            last
        } else {
            4
        };
        let mut chunk = be_bytes_range(dw[i], 0, take);
        assert(chunk@ =~= all.subrange(4 * i, 4 * i + take));
        bytes.append(&mut chunk);
        assert(bytes@ =~= all.subrange(offset as int, 4 * i + take));
        i = i + 1;
    }
    bytes
}

/// The state of a bridge: its own identifier on the bus, the tag from which
/// it looks for the tag of the next request, and the reactions to the
/// requests that are outstanding, by transaction id.
pub struct BridgeView {
    pub bdf: u16,
    pub config_tag: u8,
    pub store: Map<u32, Reaction>,
}

/// The first tag under which `store` holds no transaction of `bdf`, among
/// `tries` tags in a row of which `tag` is the first.
pub open spec fn free_tag_from(store: Map<u32, Reaction>, bdf: u16, tag: u8, tries: nat) -> Option<
    u8,
>
    decreases tries,
{
    if tries == 0 {
        None
    } else if !store.contains_key(transaction_id_of(bdf, tag)) {
        Some(tag)
    } else {
        free_tag_from(store, bdf, next_tag(tag), (tries - 1) as nat)
    }
}

impl BridgeView {
    /// The packets that the bridge takes from the lane: completions. One with
    /// data that answers a pending read carries at least one DWORD.
    pub open spec fn accepts(self, msg: TlpView) -> bool {
        match msg.header.packet_type {
            PacketType::CompletionData(extra) => {
                let id = transaction_id_of(extra.requester, extra.tag);
                self.store.contains_key(id) && self.store[id] != Reaction::Notify ==> msg.data
                    is Some && msg.data->0.len() >= 1
            },
            PacketType::Completion(_) => true,
            PacketType::CompletionLocked(_) => true,
            PacketType::CompletionLockedData(_) => true,
            _ => false,
        }
    }

    /// The transaction that `msg` completes: that of the id it echoes, if
    /// `msg` is a completion with data and that id is pending.
    pub open spec fn completes(self, msg: TlpView) -> Option<u32> {
        match msg.header.packet_type {
            PacketType::CompletionData(extra) => {
                let id = transaction_id_of(extra.requester, extra.tag);
                if self.store.contains_key(id) {
                    Some(id)
                } else {
                    None
                }
            },
            _ => None,
        }
    }

    /// Whether a transaction with the tag `tag` is outstanding.
    pub open spec fn tag_pending(self, tag: u8) -> bool {
        self.store.contains_key(transaction_id_of(self.bdf, tag))
    }

    /// The tag that the next request gets: the first that is not
    /// outstanding, counted from the current tag on through all 256. There
    /// is none while all of them are outstanding.
    pub open spec fn free_tag(self) -> Option<u8> {
        free_tag_from(self.store, self.bdf, self.config_tag, 256)
    }

    /// The id that the next request gets, if a tag is free for it.
    pub open spec fn next_id(self) -> Option<u32> {
        match self.free_tag() {
            Some(tag) => Some(transaction_id_of(self.bdf, tag)),
            None => None,
        }
    }

    /// The state after the command `msg` was taken: with a free tag the
    /// reaction to `msg` is pending under the id of that tag, and the tag
    /// after it is the current one. Without, nothing has changed.
    pub open spec fn after_request(self, msg: AdapterMessage) -> BridgeView {
        match self.free_tag() {
            Some(tag) => BridgeView {
                bdf: self.bdf,
                config_tag: next_tag(tag),
                store: self.store.insert(transaction_id_of(self.bdf, tag), reaction_to(msg)),
            },
            None => self,
        }
    }

    /// What the bridge asks of its owner when it takes the command `msg`.
    pub open spec fn request_output(self, msg: AdapterMessage) -> BridgeOutputView {
        match self.free_tag() {
            Some(tag) => BridgeOutputView::Emit {
                id: transaction_id_of(self.bdf, tag),
                tlp: request_for(self.bdf, tag, msg),
            },
            None => BridgeOutputView::Refused,
        }
    }

    /// The state after the packet `msg` was taken from the lane.
    pub open spec fn after_packet(self, msg: TlpView) -> BridgeView {
        match self.completes(msg) {
            Some(id) => BridgeView { store: self.store.remove(id), ..self },
            None => self,
        }
    }

    /// What the bridge asks of its owner when it takes `msg` from the lane.
    pub open spec fn packet_output(self, msg: TlpView) -> BridgeOutputView {
        match self.completes(msg) {
            Some(id) => BridgeOutputView::Deliver {
                id,
                delivery: delivery_for(self.store[id], msg),
            },
            None => BridgeOutputView::Dropped,
        }
    }
}

/// What the bridge waits for: a command of the front end or a packet from
/// the lane.
#[derive(Debug)]
pub enum BridgeEvent {
    Command(AdapterMessage),
    Packet(Tlp),
}

/// The bridge between the adapter front end and the simulated device.
pub struct PciSimBridge {
    bdf: u16,
    config_tag: u8,
    store: HashMap<u32, Reaction>,
}

impl View for PciSimBridge {
    type V = BridgeView;

    closed spec fn view(&self) -> BridgeView {
        BridgeView { bdf: self.bdf, config_tag: self.config_tag, store: self.store@ }
    }
}

/// The tag that follows `tag`: tags count up and start over after 255.
pub open spec fn next_tag(tag: u8) -> u8 {
    if tag == u8::MAX {
        0
    } else {
        (tag + 1) as u8
    }
}

impl PciSimBridge {
    /// A bridge with identifier `bdf`, no request outstanding, that starts
    /// with tag 0.
    pub fn new(bdf: u16) -> (bridge: PciSimBridge)
        ensures
            bridge@ == (BridgeView { bdf, config_tag: 0, store: Map::empty() }),
    {
        PciSimBridge { bdf, config_tag: 0, store: HashMap::new() }
    }

    /// The identifier of the bridge on the bus.
    pub fn bdf(&self) -> (bdf: u16)
        ensures
            bdf == self@.bdf,
    {
        self.bdf
    }

    /// The reaction noted for transaction `id`, if that transaction is
    /// outstanding.
    pub fn pending(&self, id: u32) -> (reaction: Option<Reaction>)
        ensures
            reaction == if self@.store.contains_key(id) {
                Some(self@.store[id])
            } else {
                None
            },
    {
        match self.store.get(&id) {
            Some(reaction) => Some(*reaction),
            None => None,
        }
    }

    /// The number of transactions outstanding.
    pub fn outstanding(&self) -> (count: usize)
        ensures
            count == self@.store.len(),
    {
        self.store.len()
    }

    /// Hands out the current tag and moves on to the next.
    pub fn next_config_tag(&mut self) -> (tag: u8)
        ensures
            tag == old(self)@.config_tag,
            final(self)@ == (BridgeView { config_tag: next_tag(tag), ..old(self)@ }),
    {
        let tag = self.config_tag;
        self.config_tag = tag.wrapping_add(1);
        tag
    }

    /// Hands out the id of the next transaction: that of the first tag, from
    /// the current one on, that is not outstanding. The tag after it becomes
    /// the current one. While all tags are outstanding there is no id, and
    /// nothing changes.
    pub fn next_transaction_id(&mut self) -> (id: Option<u32>)
        ensures
            id == old(self)@.next_id(),
            id matches Some(free) ==> !old(self)@.store.contains_key(free),
            final(self)@ == match old(self)@.free_tag() {
                Some(tag) => BridgeView { config_tag: next_tag(tag), ..old(self)@ },
                None => old(self)@,
            },
    {
        let first: u8 = self.config_tag;
        let mut tries: u16 = 0;
        while tries < 256
            invariant
                tries <= 256,
                self@.bdf == old(self)@.bdf,
                self@.store == old(self)@.store,
                first == old(self)@.config_tag,
                old(self)@.free_tag() == free_tag_from(
                    self@.store,
                    self@.bdf,
                    self@.config_tag,
                    (256 - tries) as nat,
                ),
            decreases 256 - tries,
        {
            let id: u32 = self.config_tag as u32 | ((self.bdf as u32) << 16);
            if !self.store.contains_key(&id) {
                self.next_config_tag();
                return Some(id);
            }
            self.next_config_tag();
            tries = tries + 1;
        }
        self.config_tag = first;
        None
    }

    /// Turns a command into its request packet.
    ///
    /// The transaction gets the id of a tag that is not outstanding; its
    /// reaction is in the pending table when the packet is returned, under
    /// that id, which is the id that the packet's completion will echo. No
    /// entry that was pending is touched. While all 256 tags are outstanding
    /// the command is refused: there is no packet, and nothing changes.
    pub fn handle_adapter_msg(&mut self, msg: AdapterMessage) -> (out: Option<(u32, Tlp)>)
        requires
            supported(msg),
        ensures
            match old(self)@.free_tag() {
                Some(tag) => {
                    &&& out matches Some(request)
                    &&& request.0 == transaction_id_of(old(self)@.bdf, tag)
                    &&& !old(self)@.store.contains_key(request.0)
                    &&& request.1@ == request_for(old(self)@.bdf, tag, msg)
                },
                None => out is None,
            },
            final(self)@ == old(self)@.after_request(msg),
    {
        let bdf: u16 = self.bdf;
        let trans_id: u32 = match self.next_transaction_id() {
            Some(id) => id,
            None => {
                return None;
            },
        };
        let ghost tag0: u8 = old(self)@.free_tag()->0;
        let low: u32 = trans_id & 0xff;
        assert(low == tag0) by (bit_vector)
            requires
                low == trans_id & 0xff,
                trans_id == (tag0 as u32) | ((bdf as u32) << 16),
        ;
        let tag: u8 = low as u8;
        match msg {
            AdapterMessage::ConfigRead(idx) => {
                self.store.insert(trans_id, Reaction::ReadConfig);
                let tlp = TlpBuilder::config0_read(
                    ConfigExtra {
                        requester: bdf,
                        completer: make_bdf(0x0, 0x3, 0x0),
                        tag,
                        reg: #[verifier::truncate] (idx as u16),
                    },
                ).byte_enable(CONFIG_READ_BYTE_ENABLE).build();
                Some((trans_id, tlp))
            },
            AdapterMessage::ConfigWrite(data) => {
                self.store.insert(trans_id, Reaction::Notify);
                let byte_enable: u8 = (!(u8::MAX << data.len)) << data.offset;
                let value: u32 = data.data << (data.offset * 8);
                let mut payload: Vec<u32> = Vec::new();
                payload.push(value);
                assert(payload@ =~= seq![value]);
                let tlp = TlpBuilder::config0_write(
                    ConfigExtra {
                        requester: bdf,
                        completer: make_bdf(0x0, 0x3, 0x0),
                        tag,
                        reg: #[verifier::truncate] (data.reg_idx as u16),
                    },
                ).byte_enable(byte_enable).data(payload).build();
                Some((trans_id, tlp))
            },
            AdapterMessage::MemoryRead(addr, size) => {
                self.store.insert(trans_id, Reaction::ReadMemory);
                let low: u64 = addr & 0b11;
                assert(low <= 3) by (bit_vector)
                    requires
                        low == addr & 0b11,
                ;
                let bits: u8 = low as u8;
                let first: u8 = (0xffu8 << bits) & 0xf;
                let dwords: usize = (size + 3) / 4;
                let length: u16 = (dwords % 0x1_0000) as u16;
                let byte_enable: u8 = if length > 1 {
                    first | 0xf0
                } else {
                    first
                };
                let tlp = TlpBuilder::memory_read64(Memory64Extra { requester: bdf, tag, addr })
                    .byte_enable(byte_enable).length(length).build();
                Some((trans_id, tlp))
            },
            _ => None,
        }
    }

    /// The packets that the bridge takes from the lane; see
    /// [`BridgeView::accepts`].
    pub open spec fn accepts(&self, msg: TlpView) -> bool {
        self@.accepts(msg)
    }

    /// Decides [`PciSimBridge::accepts`].
    pub fn can_accept(&self, msg: &Tlp) -> (yes: bool)
        ensures
            yes == self.accepts(msg@),
    {
        match msg.header.packet_type {
            PacketType::CompletionData(extra) => {
                let id: u32 = extra.tag as u32 | ((extra.requester as u32) << 16);
                match self.store.get(&id) {
                    Some(reaction) => {
                        if *reaction == Reaction::Notify {
                            true
                        } else {
                            match &msg.data {
                                Some(data) => data.len() >= 1,
                                None => false,
                            }
                        }
                    },
                    None => true,
                }
            },
            PacketType::Completion(_) => true,
            PacketType::CompletionLocked(_) => true,
            PacketType::CompletionLockedData(_) => true,
            _ => false,
        }
    }

    /// The transaction that `msg` completes; see [`BridgeView::completes`].
    pub open spec fn completes(&self, msg: TlpView) -> Option<u32> {
        self@.completes(msg)
    }

    /// Takes a packet from the lane.
    ///
    /// A completion with data whose id is pending completes that
    /// transaction: the entry leaves the table and the result says what the
    /// caller gets. Every other packet is dropped and changes nothing.
    pub fn handle_transaction_msg(&mut self, msg: &Tlp) -> (out: Option<(u32, Delivery)>)
        requires
            old(self).accepts(msg@),
        ensures
            match old(self).completes(msg@) {
                Some(id) => {
                    &&& out matches Some(served)
                    &&& served.0 == id
                    &&& served.1@ == delivery_for(old(self)@.store[id], msg@)
                    &&& final(self)@ == (BridgeView {
                        store: old(self)@.store.remove(id),
                        ..old(self)@
                    })
                },
                None => out is None && final(self)@ == old(self)@,
            },
    {
        match msg.header.packet_type {
            PacketType::CompletionData(extra) => {
                let id: u32 = extra.tag as u32 | ((extra.requester as u32) << 16);
                match self.store.remove(&id) {
                    Some(reaction) => {
                        let delivery = match reaction {
                            Reaction::ReadConfig => {
                                let value: u32 = match &msg.data {
                                    Some(data) => data[0],
                                    None => 0,
                                };
                                Delivery::ReadConfig(value)
                            },
                            Reaction::Notify => Delivery::Notify,
                            Reaction::ReadMemory => {
                                match &msg.data {
                                    Some(dw) => Delivery::ReadMemory(
                                        reassemble_bytes(
                                            dw,
                                            extra.lower_address,
                                            msg.header.byte_enable,
                                        ),
                                    ),
                                    None => Delivery::Notify,
                                }
                            },
                        };
                        Some((id, delivery))
                    },
                    None => {
                        assert(self@.store =~= old(self)@.store);
                        None
                    },
                }
            },
            _ => None,
        }
    }

    /// Ends the bridge's work: no transaction is outstanding afterwards, so
    /// the callers that waited are to be released empty-handed.
    pub fn stop(&mut self)
        ensures
            final(self)@ == (BridgeView { store: Map::empty(), ..old(self)@ }),
    {
        self.store.clear();
    }

    /// The events that [`PciSimBridge::step`] takes: the command to leave,
    /// the commands that are [`supported`] and the packets that the bridge
    /// [accepts](BridgeView::accepts).
    pub open spec fn admits(&self, event: BridgeEvent) -> bool {
        match event {
            BridgeEvent::Command(msg) => msg is Exit || supported(msg),
            BridgeEvent::Packet(tlp) => self@.accepts(tlp@),
        }
    }

    /// Decides [`PciSimBridge::admits`].
    pub fn can_admit(&self, event: &BridgeEvent) -> (yes: bool)
        ensures
            yes == self.admits(*event),
    {
        match event {
            BridgeEvent::Command(msg) => {
                match msg {
                    AdapterMessage::Exit => true,
                    _ => is_supported(msg),
                }
            },
            BridgeEvent::Packet(tlp) => self.can_accept(tlp),
        }
    }

    /// One turn of the bridge's loop.
    ///
    /// The command to leave empties the pending table. Any other command
    /// becomes a request to send, or is refused while every tag is
    /// outstanding. A packet from the lane either completes a pending
    /// transaction, whose caller is then served, or is dropped.
    pub fn step(&mut self, event: BridgeEvent) -> (out: BridgeOutput)
        requires
            old(self).admits(event),
        ensures
            match event {
                BridgeEvent::Command(msg) => if msg is Exit {
                    &&& out@ == BridgeOutputView::Stopped
                    &&& final(self)@ == (BridgeView { store: Map::empty(), ..old(self)@ })
                } else {
                    &&& out@ == old(self)@.request_output(msg)
                    &&& final(self)@ == old(self)@.after_request(msg)
                },
                BridgeEvent::Packet(tlp) => {
                    &&& out@ == old(self)@.packet_output(tlp@)
                    &&& final(self)@ == old(self)@.after_packet(tlp@)
                },
            },
    {
        match event {
            BridgeEvent::Command(msg) => {
                if let AdapterMessage::Exit = msg {
                    self.stop();
                    BridgeOutput::Stopped
                } else {
                    match self.handle_adapter_msg(msg) {
                        Some((id, tlp)) => BridgeOutput::Emit { id, tlp },
                        None => BridgeOutput::Refused,
                    }
                }
            },
            BridgeEvent::Packet(tlp) => {
                match self.handle_transaction_msg(&tlp) {
                    Some((id, delivery)) => BridgeOutput::Deliver { id, delivery },
                    None => BridgeOutput::Dropped,
                }
            },
        }
    }
}

} // verus!
