//! Laws that hold across the parts of the bridge.

use crate::bridge::{
    config_write_byte_enable, first_dword_byte_enable, free_tag_from, last_dword_len,
    memory_read_byte_enable, next_tag, payload_bytes, reaction_to, reassemble,
    request_for, supported, AdapterMessage, BridgeOutputView, BridgeView, ConfigData, DeliveryView,
    Reaction,
};
use crate::bytes::{be_bytes, le_bytes, le_dword, lemma_le_dword_of_le_bytes};
use crate::device::{
    completion_lower_address, config_completion, memory_completion, DeviceActionView,
    PciTestDevice, MEMORY_PATTERN,
};
use crate::scan::{BarProbe, ConfigAccess, ProbeStage};
use crate::tlp::{lemma_transaction_id_value, transaction_id_of, ConfigExtra, PacketType, TlpView};
use vstd::prelude::*;
use vstd::std_specs::bits::{
    axiom_u8_leading_zeros, axiom_u8_trailing_zeros, u8_leading_zeros, u8_trailing_zeros,
};

verus! {

/// The content of a configuration register after `value` was written to it,
/// where the device lets software change the bits of `mask` and no others.
pub open spec fn register_after_write(mask: u32, content: u32, value: u32) -> u32 {
    (content & !mask) | (value & mask)
}

/// What an access does to such a register: its content afterwards, and the
/// value that a read brings.
pub open spec fn register_access(mask: u32, content: u32, access: ConfigAccess) -> (u32, u32) {
    match access {
        ConfigAccess::Read { reg_idx } => (content, content),
        ConfigAccess::Write { reg_idx, value } => (register_after_write(mask, content, value), 0),
    }
}

/// The register and the probe after the probe has run for at most `steps`
/// accesses against the register.
pub open spec fn probe_run(mask: u32, content: u32, probe: BarProbe, steps: nat) -> (u32, BarProbe)
    decreases steps,
{
    if steps == 0 || probe.access() is None {
        (content, probe)
    } else {
        let (after, reply) = register_access(mask, content, probe.access()->0);
        probe_run(mask, after, probe.advanced(reply), (steps - 1) as nat)
    }
}

/// A probe leaves the register as it found it.
///
/// Whatever bits of the register the device lets software change, and
/// whatever the register holds: after the four accesses of a probe the probe
/// is done, the register holds what it held, and the probe has the value
/// that came back when all ones were written.
pub proof fn lemma_probe_restores_register(mask: u32, content: u32, reg_idx: usize)
    ensures
        probe_run(mask, content, BarProbe::start(reg_idx), 4).0 == content,
        probe_run(mask, content, BarProbe::start(reg_idx), 4).1.stage == ProbeStage::Done,
        probe_run(mask, content, BarProbe::start(reg_idx), 4).1.sized == register_after_write(
            mask,
            content,
            u32::MAX,
        ),
{
    reveal_with_fuel(probe_run, 5);
    let sized = register_after_write(mask, content, u32::MAX);
    assert(register_after_write(mask, sized, content) == content) by (bit_vector)
        requires
            sized == (content & !mask) | (0xffff_ffffu32 & mask),
    ;
}

/// The tag that comes `steps` tags after `tag`: tags count modulo 256.
pub open spec fn tag_plus(tag: u8, steps: nat) -> u8 {
    ((tag + steps) % 256) as u8
}

/// Where the search for a free tag finds none, every tag it looked at is
/// outstanding.
proof fn lemma_no_free_tag(store: Map<u32, Reaction>, bdf: u16, tag: u8, tries: nat, k: nat)
    requires
        free_tag_from(store, bdf, tag, tries) is None,
        k < tries,
    ensures
        store.contains_key(transaction_id_of(bdf, tag_plus(tag, k))),
    decreases tries,
{
    if k > 0 {
        lemma_no_free_tag(store, bdf, next_tag(tag), (tries - 1) as nat, (k - 1) as nat);
        assert(tag_plus(next_tag(tag), (k - 1) as nat) == tag_plus(tag, k));
    }
}

/// The tag that the search for a free tag finds is not outstanding.
proof fn lemma_found_tag_is_free(store: Map<u32, Reaction>, bdf: u16, tag: u8, tries: nat)
    requires
        free_tag_from(store, bdf, tag, tries) is Some,
    ensures
        !store.contains_key(transaction_id_of(bdf, free_tag_from(store, bdf, tag, tries)->0)),
    decreases tries,
{
    if tries > 0 && store.contains_key(transaction_id_of(bdf, tag)) {
        lemma_found_tag_is_free(store, bdf, next_tag(tag), (tries - 1) as nat);
    }
}

/// A request gets an id that is not outstanding.
///
/// The tag that the bridge gives the next request, if it has one to give,
/// is the tag of no outstanding transaction.
pub proof fn lemma_allocated_id_is_free(s: BridgeView)
    requires
        s.free_tag() is Some,
    ensures
        !s.tag_pending(s.free_tag()->0),
        !s.store.contains_key(s.next_id()->0),
{
    lemma_found_tag_is_free(s.store, s.bdf, s.config_tag, 256);
}

/// While a tag is free, the bridge finds one.
///
/// If some tag is the tag of no outstanding transaction, the bridge has a
/// tag to give to the next request.
pub proof fn lemma_free_tag_is_found(s: BridgeView, tag: u8)
    requires
        !s.tag_pending(tag),
    ensures
        s.free_tag() is Some,
{
    if s.free_tag() is None {
        let k = ((tag - s.config_tag) % 256) as nat;
        lemma_no_free_tag(s.store, s.bdf, s.config_tag, 256, k);
        assert(tag_plus(s.config_tag, k) == tag);
    }
}

/// The ids of the tags below `n` under the identifier `bdf`.
pub open spec fn ids_below(bdf: u16, n: nat) -> Set<u32>
    decreases n,
{
    if n == 0 {
        Set::empty()
    } else {
        ids_below(bdf, (n - 1) as nat).insert(transaction_id_of(bdf, (n - 1) as u8))
    }
}

/// There are as many ids as tags.
proof fn lemma_ids_below(bdf: u16, n: nat)
    requires
        n <= 256,
    ensures
        ids_below(bdf, n).finite(),
        ids_below(bdf, n).len() == n,
        forall|id: u32|
            ids_below(bdf, n).contains(id) <==> exists|tag: u8|
                tag < n && id == #[trigger] transaction_id_of(bdf, tag),
    decreases n,
{
    if n > 0 {
        let m = (n - 1) as nat;
        lemma_ids_below(bdf, m);
        let last = transaction_id_of(bdf, m as u8);
        assert(!ids_below(bdf, m).contains(last)) by {
            if ids_below(bdf, m).contains(last) {
                let tag = choose|tag: u8| tag < m && last == #[trigger] transaction_id_of(bdf, tag);
                lemma_transaction_id_value(bdf, tag);
                lemma_transaction_id_value(bdf, m as u8);
            }
        }
        assert forall|id: u32| ids_below(bdf, n).contains(id) implies exists|tag: u8|
            tag < n && id == #[trigger] transaction_id_of(bdf, tag) by {
            if id == last {
                assert(id == transaction_id_of(bdf, m as u8));
            } else {
                let tag = choose|tag: u8| tag < m && id == #[trigger] transaction_id_of(bdf, tag);
                assert(tag < n && id == transaction_id_of(bdf, tag));
            }
        }
        assert forall|id: u32|
            (exists|tag: u8| tag < n && id == #[trigger] transaction_id_of(bdf, tag))
            implies ids_below(bdf, n).contains(id) by {
            let tag = choose|tag: u8| tag < n && id == #[trigger] transaction_id_of(bdf, tag);
            if tag < m {
                assert(ids_below(bdf, m).contains(id));
            } else {
                assert(tag == m as u8);
            }
        }
    }
}

/// With fewer than 256 transactions outstanding, a request gets its id.
///
/// A bridge whose pending table has fewer than 256 entries has a tag to give
/// to the next request, so that the request is not refused.
pub proof fn lemma_room_for_a_request(s: BridgeView, msg: AdapterMessage)
    requires
        s.store.dom().finite(),
        s.store.len() < 256,
    ensures
        s.free_tag() is Some,
        s.request_output(msg) is Emit,
{
    if s.free_tag() is None {
        lemma_ids_below(s.bdf, 256);
        let ids = ids_below(s.bdf, 256);
        assert forall|id: u32| ids.contains(id) implies s.store.dom().contains(id) by {
            let tag = choose|tag: u8| tag < 256 && id == #[trigger] transaction_id_of(s.bdf, tag);
            lemma_no_free_tag(s.store, s.bdf, s.config_tag, 256, ((tag - s.config_tag) % 256) as nat);
            assert(tag_plus(s.config_tag, ((tag - s.config_tag) % 256) as nat) == tag);
        }
        assert(ids.subset_of(s.store.dom()));
        vstd::set_lib::lemma_len_subset(ids, s.store.dom());
    }
}

/// The request that the bridge builds is pending when it leaves.
///
/// After the bridge has built the request for a command, the pending table
/// holds the reaction to that command under the id that the request was
/// given, and a completion with data that echoes the requester and the tag of
/// the request completes that transaction.
pub proof fn lemma_request_is_pending(s: BridgeView, msg: AdapterMessage, completion: TlpView)
    requires
        s.free_tag() is Some,
        completion.header.packet_type matches PacketType::CompletionData(extra)
            && extra.requester == s.bdf && extra.tag == s.free_tag()->0,
    ensures
        s.request_output(msg) is Emit,
        s.request_output(msg)->Emit_id == s.next_id()->0,
        s.after_request(msg).store.contains_key(s.next_id()->0),
        s.after_request(msg).store[s.next_id()->0] == reaction_to(msg),
        s.after_request(msg).completes(completion) == s.next_id(),
{
}

/// A request takes the place of no other.
///
/// Whatever was outstanding before the bridge took a command is outstanding
/// afterwards, with the reaction it had; and the id that the request was
/// given was not among it.
pub proof fn lemma_request_spares_pending(s: BridgeView, msg: AdapterMessage, other: u32)
    requires
        s.store.contains_key(other),
    ensures
        s.next_id() != Some(other),
        s.after_request(msg).store.contains_key(other),
        s.after_request(msg).store[other] == s.store[other],
{
    if s.free_tag() is Some {
        lemma_allocated_id_is_free(s);
    }
}

/// Requests that are outstanding together have ids of their own.
///
/// Two requests that the bridge builds one after the other, with no
/// completion in between, do not get the same id.
pub proof fn lemma_transaction_ids_unique(s: BridgeView, first: AdapterMessage)
    requires
        s.next_id() is Some,
        s.after_request(first).next_id() is Some,
    ensures
        s.next_id() != s.after_request(first).next_id(),
{
    lemma_allocated_id_is_free(s.after_request(first));
}

/// A refused command changes nothing.
pub proof fn lemma_refusal_changes_nothing(s: BridgeView, msg: AdapterMessage)
    requires
        s.free_tag() is None,
    ensures
        s.request_output(msg) == BridgeOutputView::Refused,
        s.after_request(msg) == s,
        forall|tag: u8| s.tag_pending(tag),
{
    assert forall|tag: u8| s.tag_pending(tag) by {
        if !s.tag_pending(tag) {
            lemma_free_tag_is_found(s, tag);
        }
    }
}

/// A transaction that was completed is pending no more.
///
/// When a packet completes a transaction, the bridge serves the caller of
/// that transaction and the pending table holds no entry for it afterwards;
/// every other entry stays as it was.
pub proof fn lemma_completion_consumes_entry(s: BridgeView, packet: TlpView, other: u32)
    requires
        s.completes(packet) is Some,
        other != s.completes(packet)->0,
    ensures
        s.packet_output(packet) is Deliver,
        s.packet_output(packet)->Deliver_id == s.completes(packet)->0,
        !s.after_packet(packet).store.contains_key(s.completes(packet)->0),
        s.after_packet(packet).store.contains_key(other) == s.store.contains_key(other),
        s.store.contains_key(other) ==> s.after_packet(packet).store[other] == s.store[other],
{
}

/// A packet that completes nothing changes nothing.
pub proof fn lemma_stray_packet_is_dropped(s: BridgeView, packet: TlpView)
    requires
        s.completes(packet) is None,
    ensures
        s.packet_output(packet) == BridgeOutputView::Dropped,
        s.after_packet(packet) == s,
{
}

/// Every request that the bridge builds is valid.
///
/// The request for a command that the bridge supports obeys the header
/// rules. In particular it enables no byte of a last DWORD if its length is
/// one, and bytes of its first and of its last DWORD if its length is more
/// than one.
pub proof fn lemma_requests_are_valid(bdf: u16, tag: u8, msg: AdapterMessage)
    requires
        supported(msg),
    ensures
        request_for(bdf, tag, msg).header.spec_is_valid(),
        request_for(bdf, tag, msg).header.length == 1 ==> request_for(
            bdf,
            tag,
            msg,
        ).header.byte_enable & 0xf0 == 0 && request_for(bdf, tag, msg).header.byte_enable & 0x0f
            != 0,
        request_for(bdf, tag, msg).header.length > 1 ==> request_for(
            bdf,
            tag,
            msg,
        ).header.byte_enable & 0xf0 != 0 && request_for(bdf, tag, msg).header.byte_enable & 0x0f
            != 0,
{
    match msg {
        AdapterMessage::ConfigRead(_) => {
            assert(0x0fu8 & 0xf0 == 0 && 0x0fu8 & 0x0f != 0) by (bit_vector);
        },
        AdapterMessage::ConfigWrite(cd) => {
            let len: u8 = cd.len as u8;
            let offset: u8 = cd.offset as u8;
            assert(config_write_byte_enable(cd.len, cd.offset) == (!(u8::MAX << len)) << offset);
            assert(((!(0xffu8 << len)) << offset) & 0xf0 == 0 && ((!(0xffu8 << len)) << offset)
                & 0x0f != 0) by (bit_vector)
                requires
                    1 <= len,
                    offset + len <= 4,
            ;
        },
        AdapterMessage::MemoryRead(addr, size) => {
            let low: u64 = addr & 0b11;
            assert(low <= 3) by (bit_vector)
                requires
                    low == addr & 0b11,
            ;
            let first: u8 = (0xffu8 << (low as u8)) & 0xf;
            assert(first_dword_byte_enable(addr) == first);
            assert(first & 0xf0 == 0 && first & 0x0f != 0 && (first | 0xf0) & 0xf0 != 0 && (first
                | 0xf0) & 0x0f != 0) by (bit_vector)
                requires
                    low <= 3,
                    first == (0xffu8 << (low as u8)) & 0xf,
            ;
        },
        _ => {},
    }
}

/// A configuration write reaches the register as it was given.
///
/// Take a configuration write that the bridge supports: some bytes for a
/// place inside a register. The reference device handles the request that
/// the bridge builds for it, and hands its configuration space the same
/// bytes, for the same byte offset of the register that the request names.
pub proof fn lemma_config_write_reaches_register(bdf: u16, tag: u8, cd: ConfigData)
    requires
        supported(AdapterMessage::ConfigWrite(cd)),
    ensures
        ({
            let request = request_for(bdf, tag, AdapterMessage::ConfigWrite(cd));
            &&& PciTestDevice::handles(request)
            &&& PciTestDevice::spec_respond(request) matches DeviceActionView::WriteConfig {
                reg_idx,
                offset,
                data,
                reply,
            }
            &&& reg_idx == (cd.reg_idx as u16) as usize
            &&& offset == cd.offset
            &&& data == le_bytes(cd.data).subrange(0, cd.len as int)
            &&& reply == config_completion(request.header.packet_type->Config0Write_0, request.data->0[0])
        }),
{
    let request = request_for(bdf, tag, AdapterMessage::ConfigWrite(cd));
    let len: u8 = cd.len as u8;
    let off: u8 = cd.offset as u8;
    let be: u8 = (!(0xffu8 << len)) << off;
    assert(request.header.byte_enable == be);
    let top: u8 = (off + len - 1) as u8;
    assert(be & 0x0f != 0 && be & 0xf0 == 0 && be != 0 && (be >> off) & 1u8 == 1u8 && (be >> top)
        & 1u8 == 1u8) by (bit_vector)
        requires
            1 <= len,
            off + len <= 4,
            be == (!(0xffu8 << len)) << off,
            top == off + len - 1,
    ;
    axiom_u8_trailing_zeros(be);
    axiom_u8_leading_zeros(be);
    let tz = u8_trailing_zeros(be);
    let lz = u8_leading_zeros(be);
    assert(tz == off) by {
        if tz > off {
            assert(0 <= off < tz);
        }
        if tz < off {
            let below: u8 = tz as u8;
            assert((be >> below) & 1u8 == 0u8) by (bit_vector)
                requires
                    below < off,
                    1 <= len,
                    off + len <= 4,
                    be == (!(0xffu8 << len)) << off,
            ;
        }
    }
    assert(lz == 7 - top) by {
        if 7 - lz > top {
            let above: u8 = (7 - lz) as u8;
            assert((be >> above) & 1u8 == 0u8) by (bit_vector)
                requires
                    top < above < 8,
                    1 <= len,
                    off + len <= 4,
                    be == (!(0xffu8 << len)) << off,
                    top == off + len - 1,
            ;
        }
        if 7 - lz < top {
            assert(8 - lz <= top < 8);
        }
    }
    let shift: u64 = (cd.offset * 8) as u64;
    let back: u32 = (8 * tz) as u32;
    let written: u32 = cd.data;
    let value: u32 = written << shift;
    assert(request.data == Some(seq![value]));
    let got = le_bytes(value >> back).subrange(0, cd.len as int);
    assert(PciTestDevice::spec_respond(request)->WriteConfig_data == got);
    assert(got =~= le_bytes(written).subrange(0, cd.len as int)) by {
        assert forall|i: int| 0 <= i < cd.len implies got[i] == le_bytes(written)[i] by {
            let k: u32 = (8 * i) as u32;
            assert(((value >> back) >> k) & 0xff == (written >> k) & 0xff) by (bit_vector)
                requires
                    value == written << shift,
                    back == shift,
                    shift + k <= 24,
            ;
        }
    }
}

/// The low nibble, taken whole, starts at bit 0 and ends at bit 3.
proof fn lemma_low_nibble_zeros()
    ensures
        u8_trailing_zeros(0x0f) == 0,
        u8_leading_zeros(0x0f) == 4,
{
    axiom_u8_trailing_zeros(0x0f);
    axiom_u8_leading_zeros(0x0f);
    let tz = u8_trailing_zeros(0x0f);
    let lz = u8_leading_zeros(0x0f);
    assert((0x0fu8 >> 0u8) & 1u8 == 1u8) by (bit_vector);
    assert((0x0fu8 >> 3u8) & 1u8 == 1u8) by (bit_vector);
    assert((0x0fu8 >> 4u8) & 1u8 == 0u8) by (bit_vector);
    if tz > 0 {
        assert(0 <= 0u8 < tz);
    }
    if lz > 4 {
        assert(8 - lz <= 3u8 < 8);
    }
    if lz < 4 {
        assert(lz < 8);
        let top: u8 = (7 - lz) as u8;
        assert((0x0fu8 >> top) & 1u8 == 0u8) by (bit_vector)
            requires
                4 <= top <= 7,
        ;
    }
}

/// The command that writes all of register `reg_idx` with `value`, as the
/// front end builds it from the four bytes of `value`.
pub open spec fn whole_register_write(reg_idx: usize, value: u32) -> AdapterMessage {
    AdapterMessage::ConfigWrite(
        ConfigData { reg_idx, offset: 0, len: 4, data: le_dword(le_bytes(value)) },
    )
}

/// What is written to a register whole can be read back.
///
/// Take the command that writes the four bytes of `value`, in little-endian
/// order, to register `reg_idx`, and a bridge with room for a request. The
/// device hands exactly these four bytes to its configuration space, at
/// offset 0 of the register that the request names, so that a register which
/// keeps what is written holds `value`; and the completion acknowledges the
/// write to the caller. When the register is read afterwards and the device
/// answers with its content `value`, the caller of the read gets `value`.
pub proof fn lemma_config_write_then_read(s: BridgeView, reg_idx: usize, value: u32)
    requires
        s.free_tag() is Some,
    ensures
        ({
            let write = whole_register_write(reg_idx, value);
            let request = request_for(s.bdf, s.free_tag()->0, write);
            let written = s.after_request(write);
            let read = AdapterMessage::ConfigRead(reg_idx);
            &&& supported(write)
            &&& s.request_output(write) == (BridgeOutputView::Emit {
                id: s.next_id()->0,
                tlp: request,
            })
            &&& PciTestDevice::handles(request)
            &&& PciTestDevice::spec_respond(request) matches DeviceActionView::WriteConfig {
                reg_idx: target,
                offset,
                data,
                reply,
            }
            &&& target == (reg_idx as u16) as usize
            &&& offset == 0
            &&& data == le_bytes(value)
            &&& le_dword(data) == value
            &&& written.accepts(reply)
            &&& written.packet_output(reply) == (BridgeOutputView::Deliver {
                id: s.next_id()->0,
                delivery: DeliveryView::Notify,
            })
            &&& {
                let idle = written.after_packet(reply);
                let asked = idle.after_request(read);
                &&& idle.free_tag() is Some
                &&& idle.request_output(read) matches BridgeOutputView::Emit { id, tlp: lookup }
                &&& PciTestDevice::handles(lookup)
                &&& PciTestDevice::spec_respond(lookup) matches DeviceActionView::ReadConfig {
                    reg_idx: source,
                    extra,
                }
                &&& source == target
                &&& asked.accepts(config_completion(extra, value))
                &&& asked.packet_output(config_completion(extra, value)) == (
                BridgeOutputView::Deliver { id, delivery: DeliveryView::ReadConfig(value) })
            }
        }),
{
    lemma_le_dword_of_le_bytes(value);
    lemma_low_nibble_zeros();
    lemma_allocated_id_is_free(s);
    let tag = s.free_tag()->0;
    let write = whole_register_write(reg_idx, value);
    let request = request_for(s.bdf, tag, write);
    assert((!(0xffu8 << 4usize)) << 0u64 == 0x0fu8) by (bit_vector);
    assert(0x0fu8 & 0x0f != 0 && 0x0fu8 & 0xf0 == 0) by (bit_vector);
    assert(value << 0u64 == value) by (bit_vector);
    assert(value >> 0u32 == value) by (bit_vector);
    assert(request.header.byte_enable == 0x0f);
    assert(request.data == Some(seq![value]));
    assert(le_bytes(value).subrange(0, 4) =~= le_bytes(value));
    let written = s.after_request(write);
    let reply = PciTestDevice::spec_respond(request)->WriteConfig_reply;
    let idle = written.after_packet(reply);
    assert(idle.store =~= s.store);
    lemma_free_tag_is_found(idle, tag);
}

/// The byte that the reference device holds at `addr` of its memory region:
/// the pattern repeats with every DWORD, most significant byte first.
pub open spec fn device_memory_byte(addr: int) -> u8 {
    be_bytes(MEMORY_PATTERN)[addr % 4]
}

/// The `len` bytes that the reference device holds from `addr` on.
pub open spec fn device_memory(addr: u64, len: nat) -> Seq<u8> {
    Seq::new(len, |i: int| device_memory_byte(addr + i))
}

/// The byte enables from byte `first` on have `first` trailing zeros.
proof fn lemma_first_byte_enabled(first: u8)
    requires
        first <= 3,
    ensures
        u8_trailing_zeros(((0xffu8 << first) & 0xf) & 0xf) == first,
{
    let enables: u8 = ((0xffu8 << first) & 0xf) & 0xf;
    axiom_u8_trailing_zeros(enables);
    let tz = u8_trailing_zeros(enables);
    assert(enables != 0 && (enables >> first) & 1u8 == 1u8) by (bit_vector)
        requires
            first <= 3,
            enables == ((0xffu8 << first) & 0xf) & 0xf,
    ;
    if tz > first {
        assert(0 <= first < tz);
    }
    if tz < first {
        let below: u8 = tz as u8;
        assert((enables >> below) & 1u8 == 0u8) by (bit_vector)
            requires
                below < first <= 3,
                enables == ((0xffu8 << first) & 0xf) & 0xf,
        ;
    }
}

/// With every byte of the last DWORD enabled, the last DWORD counts whole.
proof fn lemma_whole_last_dword()
    ensures
        last_dword_len(0xff) == 4,
{
    let marked: u8 = (0xffu8 & 0xf0) | 0x8;
    assert(marked == 0xf8u8) by (bit_vector)
        requires
            marked == (0xffu8 & 0xf0) | 0x8,
    ;
    axiom_u8_leading_zeros(0xf8);
    assert((0xf8u8 >> 7u8) & 1u8 == 1u8) by (bit_vector);
    if u8_leading_zeros(0xf8) > 0 {
        assert(8 - u8_leading_zeros(0xf8) <= 7u8 < 8);
    }
}

/// A read that ends with a DWORD brings what the device holds.
///
/// Take a read of `size` bytes at `addr`, of one to eight bytes, that ends
/// where a DWORD ends, and a bridge with room for a request. The reference
/// device answers the request that the bridge builds for it, and from that
/// answer the bridge hands the caller exactly `size` bytes: those that the
/// device holds from `addr` on.
pub proof fn lemma_memory_read_brings_memory(s: BridgeView, addr: u64, size: usize)
    requires
        s.free_tag() is Some,
        1 <= size <= 8,
        (addr + size) % 4 == 0,
    ensures
        ({
            let read = AdapterMessage::MemoryRead(addr, size);
            let request = request_for(s.bdf, s.free_tag()->0, read);
            let asked = s.after_request(read);
            &&& supported(read)
            &&& s.request_output(read) == (BridgeOutputView::Emit {
                id: s.next_id()->0,
                tlp: request,
            })
            &&& PciTestDevice::handles(request)
            &&& PciTestDevice::spec_respond(request) matches DeviceActionView::Reply { reply }
            &&& asked.accepts(reply)
            &&& asked.packet_output(reply) == (BridgeOutputView::Deliver {
                id: s.next_id()->0,
                delivery: DeliveryView::ReadMemory(device_memory(addr, size as nat)),
            })
            &&& device_memory(addr, size as nat).len() == size
        }),
{
    let read = AdapterMessage::MemoryRead(addr, size);
    let request = request_for(s.bdf, s.free_tag()->0, read);
    let offset: u64 = addr & 0b11;
    assert(offset <= 3 && offset == addr % 4) by (bit_vector)
        requires
            offset == addr & 0b11,
    ;
    let first: u8 = offset as u8;
    let length: u16 = request.header.length;
    assert(length == (size + 3) / 4);
    let enables: u8 = memory_read_byte_enable(addr, length);
    let low: u8 = (0xffu8 << first) & 0xf;
    assert(first_dword_byte_enable(addr) == low);
    assert(enables & 0xf == low & 0xf) by {
        assert((low | 0xf0) & 0xf == low & 0xf) by (bit_vector);
    }
    lemma_first_byte_enabled(first);
    let extra = request.header.packet_type->MemoryRead64_0;
    let reply = memory_completion(extra, enables, length);
    assert(PciTestDevice::spec_respond(request) == DeviceActionView::Reply { reply });
    let lower_address = completion_lower_address(addr, enables);
    let aligned: u8 = (addr & 0x7c) as u8;
    assert(lower_address == aligned | first);
    assert((aligned | first) & 0b11 == first) by (bit_vector)
        requires
            first <= 3,
            aligned == (addr & 0x7c) as u8,
    ;
    lemma_whole_last_dword();
    let dw = reply.data->0;
    let end: int = if length == 1 {
        4
    } else {
        8
    };
    assert(offset + size == end);
    let got = reassemble(dw, lower_address, reply.header.byte_enable);
    assert(got == payload_bytes(dw).subrange(offset as int, end));
    assert(got =~= device_memory(addr, size as nat)) by {
        assert forall|i: int| 0 <= i < size implies got[i] == device_memory(addr, size as nat)[i] by {
            assert((addr + i) % 4 == (offset + i) % 4);
            assert(dw[(offset + i) / 4] == MEMORY_PATTERN);
        }
    }
}

/// Payloads have the length that their headers state.
///
/// In every request that the bridge builds for a command it supports, and in
/// every answer of the reference device to a packet it handles, the payload,
/// if there is one, has as many DWORDs as the length field says.
pub proof fn lemma_payloads_match_lengths(bdf: u16, tag: u8, msg: AdapterMessage, packet: TlpView)
    requires
        supported(msg),
        PciTestDevice::handles(packet),
    ensures
        request_for(bdf, tag, msg).payload_matches_length(),
        match PciTestDevice::spec_respond(packet) {
            DeviceActionView::WriteConfig { reply, .. } => reply.payload_matches_length(),
            DeviceActionView::Reply { reply } => reply.payload_matches_length(),
            _ => true,
        },
        forall|extra: ConfigExtra, value: u32|
            (#[trigger] config_completion(extra, value)).payload_matches_length(),
{
}

} // verus!
