//! Device protocol codec: pure translation between hardware wire bytes and
//! typed values. No I/O happens here; input reports come in as byte buffers
//! and image packets go out as byte buffers.

use vstd::prelude::*;

use crate::constants::{
    BUTTON_COUNT, BUTTON_DATA_OFFSET, DeviceModel, MK2_HEADER_SIZE, MK2_IMAGE_DATA_PER_PACKET,
    MK2_PACKET_SIZE, ORIGINAL_DATA_PER_PACKET, ORIGINAL_HEADER_SIZE, ORIGINAL_PACKET_SIZE,
};

verus! {

/// What decoding an input report yields: one boolean per button, taken from
/// the byte at `BUTTON_DATA_OFFSET + i` (non-zero = pressed). A report that
/// is shorter than the button region — including an empty one, which a
/// non-blocking read may legitimately return — leaves the prior states
/// unchanged.
pub open spec fn spec_decode_button_states(raw: Seq<u8>, prev: Seq<bool>) -> Seq<bool> {
    if raw.len() < (BUTTON_DATA_OFFSET + BUTTON_COUNT) as int {
        prev
    } else {
        Seq::new(BUTTON_COUNT as nat, |i: int| raw[BUTTON_DATA_OFFSET + i] != 0)
    }
}

/// Decode one HID input report into the button-state array, falling back to
/// the prior states when the report is too short to carry button data.
pub fn decode_button_states(raw: &Vec<u8>, prev: &Vec<bool>) -> (states: Vec<bool>)
    requires
        prev@.len() == BUTTON_COUNT,
    ensures
        states@ == spec_decode_button_states(raw@, prev@),
        states@.len() == BUTTON_COUNT,
{
    let mut states: Vec<bool> = Vec::new();
    if raw.len() < BUTTON_DATA_OFFSET + BUTTON_COUNT {
        let mut i: usize = 0;
        while i < BUTTON_COUNT
            invariant
                i <= BUTTON_COUNT,
                prev@.len() == BUTTON_COUNT,
                states@ == prev@.subrange(0, i as int),
            decreases BUTTON_COUNT - i,
        {
            states.push(prev[i]);
            assert(states@ =~= prev@.subrange(0, i + 1));
            i = i + 1;
        }
        assert(states@ =~= prev@);
        states
    } else {
        let mut i: usize = 0;
        while i < BUTTON_COUNT
            invariant
                i <= BUTTON_COUNT,
                raw@.len() >= (BUTTON_DATA_OFFSET + BUTTON_COUNT) as int,
                states@.len() == i,
                forall|j: int|
                    0 <= j < i ==> states@[j] == (raw@[BUTTON_DATA_OFFSET + j] != 0),
            decreases BUTTON_COUNT - i,
        {
            states.push(raw[BUTTON_DATA_OFFSET + i] != 0);
            i = i + 1;
        }
        assert(states@ =~= spec_decode_button_states(raw@, prev@));
        states
    }
}

/// Per-button decoding reads exactly the byte at the model-defined offset:
/// for every report long enough to carry button data and every in-range
/// index, the decoded state is the comparison of that byte against zero.
pub proof fn lemma_decode_reads_offset_byte(raw: Seq<u8>, prev: Seq<bool>, i: int)
    requires
        raw.len() >= (BUTTON_DATA_OFFSET + BUTTON_COUNT) as int,
        0 <= i < BUTTON_COUNT,
    ensures
        spec_decode_button_states(raw, prev)[i] == (raw[BUTTON_DATA_OFFSET + i] != 0),
{
}

/// A report shorter than the button region decodes to the prior states,
/// unchanged.
pub proof fn lemma_decode_short_report_unchanged(raw: Seq<u8>, prev: Seq<bool>)
    requires
        raw.len() < (BUTTON_DATA_OFFSET + BUTTON_COUNT) as int,
    ensures
        spec_decode_button_states(raw, prev) == prev,
{
}

// ---------------------------------------------------------------------------
// Image packetization
// ---------------------------------------------------------------------------

/// Total size of one image output report for the given protocol variant.
pub open spec fn spec_packet_size(model: DeviceModel) -> int {
    match model {
        DeviceModel::Original => ORIGINAL_PACKET_SIZE as int,
        DeviceModel::Mk2 => MK2_PACKET_SIZE as int,
    }
}

/// Header size at the front of each image packet for the given variant.
pub open spec fn spec_header_size(model: DeviceModel) -> int {
    match model {
        DeviceModel::Original => ORIGINAL_HEADER_SIZE as int,
        DeviceModel::Mk2 => MK2_HEADER_SIZE as int,
    }
}

/// Payload capacity of one image packet for the given variant.
pub open spec fn spec_payload_per_packet(model: DeviceModel) -> int {
    match model {
        DeviceModel::Original => ORIGINAL_DATA_PER_PACKET as int,
        DeviceModel::Mk2 => MK2_IMAGE_DATA_PER_PACKET as int,
    }
}

/// How many packets an image transfer of `len` payload bytes takes: none
/// for an empty buffer, then one per full payload chunk plus one for any
/// remainder.
pub open spec fn spec_num_packets(len: int, model: DeviceModel) -> int
    decreases len,
{
    let ppp = spec_payload_per_packet(model);
    if len <= 0 {
        0
    } else if len <= ppp {
        1
    } else {
        1 + spec_num_packets(len - ppp, model)
    }
}

/// Payload bytes carried by packet `k` of a transfer of `len` bytes: a full
/// chunk, or whatever remains for the final packet.
pub open spec fn spec_payload_len(len: int, model: DeviceModel, k: int) -> int {
    let ppp = spec_payload_per_packet(model);
    if len - k * ppp <= ppp {
        len - k * ppp
    } else {
        ppp
    }
}

/// Wire page number of packet `k`: MK.2 counts pages from zero, the first
/// generation from one.
pub open spec fn spec_page_number(model: DeviceModel, k: int) -> int {
    match model {
        DeviceModel::Mk2 => k,
        DeviceModel::Original => k + 1,
    }
}

/// Byte `i` of the header of packet `k`, for a transfer of `len` payload
/// bytes to the given button. Multi-byte fields are little-endian.
pub open spec fn spec_header_byte(
    model: DeviceModel,
    button: u8,
    len: int,
    k: int,
    i: int,
) -> u8 {
    let plen = spec_payload_len(len, model, k);
    let page = spec_page_number(model, k);
    let last = k == spec_num_packets(len, model) - 1;
    match model {
        DeviceModel::Mk2 => {
            if i == 0 {
                0x02
            } else if i == 1 {
                0x07
            } else if i == 2 {
                button
            } else if i == 3 {
                if last {
                    0x01
                } else {
                    0x00
                }
            } else if i == 4 {
                (plen % 256) as u8
            } else if i == 5 {
                (plen / 256) as u8
            } else if i == 6 {
                (page % 256) as u8
            } else {
                (page / 256) as u8
            }
        },
        DeviceModel::Original => {
            if i == 0 {
                0x02
            } else if i == 1 {
                0x01
            } else if i == 2 {
                (page % 256) as u8
            } else if i == 3 {
                (page / 256) as u8
            } else if i == 4 {
                0x00
            } else if i == 5 {
                if last {
                    0x01
                } else {
                    0x00
                }
            } else if i == 6 {
                ((button + 1) as u8)
            } else {
                0x00
            }
        },
    }
}

/// Byte `i` of packet `k`: the header, then the packet's slice of the
/// payload, then zero padding up to the fixed packet size.
pub open spec fn spec_packet_byte(
    model: DeviceModel,
    button: u8,
    data: Seq<u8>,
    k: int,
    i: int,
) -> u8 {
    let hs = spec_header_size(model);
    let ppp = spec_payload_per_packet(model);
    let plen = spec_payload_len(data.len() as int, model, k);
    if i < hs {
        spec_header_byte(model, button, data.len() as int, k, i)
    } else if i < hs + plen {
        data[k * ppp + (i - hs)]
    } else {
        0x00
    }
}

/// Packet `k` of an image transfer, as the full fixed-size output report.
pub open spec fn spec_packet(model: DeviceModel, button: u8, data: Seq<u8>, k: int) -> Seq<u8> {
    Seq::new(spec_packet_size(model) as nat, |i: int| spec_packet_byte(model, button, data, k, i))
}

/// The packet count is never negative, and at least one packet is needed
/// as soon as there is any data.
pub proof fn lemma_num_packets_nonneg(len: int, model: DeviceModel)
    ensures
        spec_num_packets(len, model) >= 0,
        len > 0 ==> spec_num_packets(len, model) >= 1,
    decreases len,
{
    let ppp = spec_payload_per_packet(model);
    if len > ppp {
        lemma_num_packets_nonneg(len - ppp, model);
    }
}

/// Packet `k` exists exactly when its payload window starts before the end
/// of the data.
pub proof fn lemma_packet_index_in_range(len: int, model: DeviceModel, k: int)
    requires
        0 <= k,
        0 <= len,
    ensures
        (k < spec_num_packets(len, model)) == (k * spec_payload_per_packet(model) < len),
    decreases k,
{
    let ppp = spec_payload_per_packet(model);
    if k == 0 {
        if len > ppp {
            lemma_num_packets_nonneg(len - ppp, model);
        }
    } else if len <= ppp {
        assert(k * ppp >= ppp) by (nonlinear_arith)
            requires
                k >= 1,
                ppp >= 1,
        ;
    } else {
        lemma_packet_index_in_range(len - ppp, model, k - 1);
        assert((k - 1) * ppp == k * ppp - ppp) by (nonlinear_arith);
    }
}

/// The payload slice that packet `k` carries, cut from the data buffer.
pub open spec fn spec_packet_payload(data: Seq<u8>, model: DeviceModel, k: int) -> Seq<u8> {
    let ppp = spec_payload_per_packet(model);
    data.subrange(k * ppp, k * ppp + spec_payload_len(data.len() as int, model, k))
}

/// The payloads of packets `0 .. n`, concatenated in packet order.
pub open spec fn spec_concat_payloads(data: Seq<u8>, model: DeviceModel, n: int) -> Seq<u8>
    decreases n,
{
    if n <= 0 {
        Seq::empty()
    } else {
        spec_concat_payloads(data, model, n - 1) + spec_packet_payload(data, model, n - 1)
    }
}

proof fn lemma_concat_payloads_prefix(data: Seq<u8>, model: DeviceModel, m: int)
    requires
        0 <= m <= spec_num_packets(data.len() as int, model),
    ensures
        spec_concat_payloads(data, model, m) == data.subrange(
            0,
            if m * spec_payload_per_packet(model) <= data.len() as int {
                m * spec_payload_per_packet(model)
            } else {
                data.len() as int
            },
        ),
    decreases m,
{
    let ppp = spec_payload_per_packet(model);
    let len = data.len() as int;
    if m == 0 {
        assert(spec_concat_payloads(data, model, 0) =~= data.subrange(0, 0));
    } else {
        lemma_concat_payloads_prefix(data, model, m - 1);
        lemma_packet_index_in_range(len, model, m - 1);
        assert((m - 1) * ppp == m * ppp - ppp) by (nonlinear_arith);
        assert((m - 1) * ppp >= 0) by (nonlinear_arith)
            requires
                m >= 1,
                ppp >= 1,
        ;
        let upper = if m * ppp <= len {
            m * ppp
        } else {
            len
        };
        assert(spec_concat_payloads(data, model, m) =~= data.subrange(0, upper));
    }
}

/// Concatenating the payload slices of all packets, in packet order,
/// reproduces the original data exactly.
pub proof fn lemma_payload_concat_roundtrip(data: Seq<u8>, model: DeviceModel)
    ensures
        spec_concat_payloads(
            data,
            model,
            spec_num_packets(data.len() as int, model),
        ) == data,
{
    let len = data.len() as int;
    let n = spec_num_packets(len, model);
    lemma_num_packets_nonneg(len, model);
    lemma_concat_payloads_prefix(data, model, n);
    lemma_packet_index_in_range(len, model, n);
    assert(data.subrange(0, len) =~= data);
}

/// Within a packet, the bytes between the header and the padding are
/// exactly that packet's payload slice.
pub proof fn lemma_packet_carries_payload(
    data: Seq<u8>,
    model: DeviceModel,
    button: u8,
    k: int,
)
    requires
        0 <= k < spec_num_packets(data.len() as int, model),
    ensures
        spec_packet(model, button, data, k).subrange(
            spec_header_size(model),
            spec_header_size(model) + spec_payload_len(data.len() as int, model, k),
        ) == spec_packet_payload(data, model, k),
    decreases k,
{
    let len = data.len() as int;
    let ppp = spec_payload_per_packet(model);
    let hs = spec_header_size(model);
    let plen = spec_payload_len(len, model, k);
    lemma_packet_index_in_range(len, model, k);
    assert(k * ppp >= 0) by (nonlinear_arith)
        requires
            k >= 0,
            ppp >= 0,
    ;
    assert(spec_packet(model, button, data, k).subrange(hs, hs + plen) =~= spec_packet_payload(
        data,
        model,
        k,
    ));
}

/// The last packet, and only the last packet, carries the last-packet flag.
pub proof fn lemma_last_flag_exactly_on_last(
    data: Seq<u8>,
    model: DeviceModel,
    button: u8,
    k: int,
)
    requires
        0 <= k < spec_num_packets(data.len() as int, model),
    ensures
        ({
            let flag = match model {
                DeviceModel::Mk2 => 3int,
                DeviceModel::Original => 5int,
            };
            (spec_packet(model, button, data, k)[flag] == 0x01) == (k == spec_num_packets(
                data.len() as int,
                model,
            ) - 1)
        }),
{
}

/// Split encoded image bytes for one button into MK.2 output reports:
/// 1024-byte packets, 8-byte header, pages counted from zero.
fn frame_mk2(button_index: u8, data: &Vec<u8>) -> (packets: Vec<Vec<u8>>)
    requires
        data@.len() <= MK2_IMAGE_DATA_PER_PACKET as int * 0xFFFF,
    ensures
        packets@.len() == spec_num_packets(data@.len() as int, DeviceModel::Mk2),
        forall|k: int|
            0 <= k < packets@.len() ==> #[trigger] packets@[k]@ == spec_packet(
                DeviceModel::Mk2,
                button_index,
                data@,
                k,
            ),
{
    let total: usize = data.len();
    let ghost n = spec_num_packets(total as int, DeviceModel::Mk2);
    proof {
        lemma_num_packets_nonneg(total as int, DeviceModel::Mk2);
    }
    let mut packets: Vec<Vec<u8>> = Vec::new();
    let mut sent: usize = 0;
    while sent < total
        invariant
            total == data@.len(),
            total as int <= MK2_IMAGE_DATA_PER_PACKET as int * 0xFFFF,
            sent <= total,
            n == spec_num_packets(total as int, DeviceModel::Mk2),
            packets@.len() <= n,
            packets@.len() < n ==> sent as int == packets@.len() * (
            MK2_IMAGE_DATA_PER_PACKET as int),
            packets@.len() == n ==> sent == total,
            forall|k: int|
                0 <= k < packets@.len() ==> #[trigger] packets@[k]@ == spec_packet(
                    DeviceModel::Mk2,
                    button_index,
                    data@,
                    k,
                ),
        decreases total - sent,
    {
        let ghost k = packets@.len() as int;
        proof {
            lemma_packet_index_in_range(total as int, DeviceModel::Mk2, k);
            lemma_packet_index_in_range(total as int, DeviceModel::Mk2, k + 1);
        }
        assert(sent as int == k * (MK2_IMAGE_DATA_PER_PACKET as int));
        let remaining = total - sent;
        let payload_len = if remaining < MK2_IMAGE_DATA_PER_PACKET {
            remaining
        } else {
            MK2_IMAGE_DATA_PER_PACKET
        };
        let is_last = sent + payload_len >= total;
        assert(payload_len as int == spec_payload_len(total as int, DeviceModel::Mk2, k));
        assert(is_last == (k == n - 1));
        let page = packets.len();
        proof {
            lemma_packet_index_in_range(total as int, DeviceModel::Mk2, 0xFFFF);
        }
        assert(page < 0xFFFF);
        let mut packet: Vec<u8> = vec![0u8; MK2_PACKET_SIZE];
        assert(forall|i: int| 0 <= i < MK2_PACKET_SIZE ==> packet@[i] == 0);
        packet[0] = 0x02;
        packet[1] = 0x07;
        packet[2] = button_index;
        packet[3] = if is_last {
            0x01
        } else {
            0x00
        };
        packet[4] = (payload_len % 256) as u8;
        packet[5] = (payload_len / 256) as u8;
        packet[6] = (page % 256) as u8;
        packet[7] = (page / 256) as u8;
        assert(forall|i: int|
            0 <= i < MK2_HEADER_SIZE ==> packet@[i] == spec_header_byte(
                DeviceModel::Mk2,
                button_index,
                total as int,
                k,
                i,
            ));
        let mut j: usize = 0;
        while j < payload_len
            invariant
                j <= payload_len,
                total == data@.len(),
                sent + payload_len <= total,
                sent as int == k * (MK2_IMAGE_DATA_PER_PACKET as int),
                0 <= k,
                payload_len as int == spec_payload_len(total as int, DeviceModel::Mk2, k),
                packet@.len() == MK2_PACKET_SIZE,
                forall|i: int|
                    0 <= i < MK2_HEADER_SIZE ==> packet@[i] == spec_header_byte(
                        DeviceModel::Mk2,
                        button_index,
                        total as int,
                        k,
                        i,
                    ),
                forall|i: int|
                    MK2_HEADER_SIZE <= i < MK2_HEADER_SIZE + j ==> #[trigger] packet@[i]
                        == data@[sent + (i - MK2_HEADER_SIZE)],
                forall|i: int|
                    MK2_HEADER_SIZE + j <= i < MK2_PACKET_SIZE ==> #[trigger] packet@[i] == 0,
            decreases payload_len - j,
        {
            packet[MK2_HEADER_SIZE + j] = data[sent + j];
            j = j + 1;
        }
        assert(packet@ =~= spec_packet(DeviceModel::Mk2, button_index, data@, k));
        packets.push(packet);
        sent = sent + payload_len;
    }
    proof {
        lemma_packet_index_in_range(total as int, DeviceModel::Mk2, packets@.len() as int);
    }
    packets
}

/// Split encoded image bytes for one button into first-generation output
/// reports: 8191-byte packets, 16-byte header, pages counted from one,
/// 1-based button index on the wire.
fn frame_original(button_index: u8, data: &Vec<u8>) -> (packets: Vec<Vec<u8>>)
    requires
        button_index < 255,
        data@.len() <= ORIGINAL_DATA_PER_PACKET as int * 0xFFFF,
    ensures
        packets@.len() == spec_num_packets(data@.len() as int, DeviceModel::Original),
        forall|k: int|
            0 <= k < packets@.len() ==> #[trigger] packets@[k]@ == spec_packet(
                DeviceModel::Original,
                button_index,
                data@,
                k,
            ),
{
    let total: usize = data.len();
    let ghost n = spec_num_packets(total as int, DeviceModel::Original);
    proof {
        lemma_num_packets_nonneg(total as int, DeviceModel::Original);
    }
    let mut packets: Vec<Vec<u8>> = Vec::new();
    let mut sent: usize = 0;
    while sent < total
        invariant
            total == data@.len(),
            total as int <= ORIGINAL_DATA_PER_PACKET as int * 0xFFFF,
            button_index < 255,
            sent <= total,
            n == spec_num_packets(total as int, DeviceModel::Original),
            packets@.len() <= n,
            packets@.len() < n ==> sent as int == packets@.len() * (
            ORIGINAL_DATA_PER_PACKET as int),
            packets@.len() == n ==> sent == total,
            forall|k: int|
                0 <= k < packets@.len() ==> #[trigger] packets@[k]@ == spec_packet(
                    DeviceModel::Original,
                    button_index,
                    data@,
                    k,
                ),
        decreases total - sent,
    {
        let ghost k = packets@.len() as int;
        proof {
            lemma_packet_index_in_range(total as int, DeviceModel::Original, k);
            lemma_packet_index_in_range(total as int, DeviceModel::Original, k + 1);
        }
        assert(sent as int == k * (ORIGINAL_DATA_PER_PACKET as int));
        let remaining = total - sent;
        let payload_len = if remaining < ORIGINAL_DATA_PER_PACKET {
            remaining
        } else {
            ORIGINAL_DATA_PER_PACKET
        };
        let is_last = sent + payload_len >= total;
        assert(payload_len as int == spec_payload_len(total as int, DeviceModel::Original, k));
        assert(is_last == (k == n - 1));
        proof {
            lemma_packet_index_in_range(total as int, DeviceModel::Original, 0xFFFF);
        }
        let page = packets.len() + 1;
        assert(page <= 0xFFFF);
        let mut packet: Vec<u8> = vec![0u8; ORIGINAL_PACKET_SIZE];
        assert(forall|i: int| 0 <= i < ORIGINAL_PACKET_SIZE ==> packet@[i] == 0);
        packet[0] = 0x02;
        packet[1] = 0x01;
        packet[2] = (page % 256) as u8;
        packet[3] = (page / 256) as u8;
        packet[4] = 0x00;
        packet[5] = if is_last {
            0x01
        } else {
            0x00
        };
        packet[6] = button_index + 1;
        assert(forall|i: int|
            0 <= i < ORIGINAL_HEADER_SIZE ==> packet@[i] == spec_header_byte(
                DeviceModel::Original,
                button_index,
                total as int,
                k,
                i,
            ));
        let mut j: usize = 0;
        while j < payload_len
            invariant
                j <= payload_len,
                total == data@.len(),
                sent + payload_len <= total,
                sent as int == k * (ORIGINAL_DATA_PER_PACKET as int),
                0 <= k,
                payload_len as int == spec_payload_len(total as int, DeviceModel::Original, k),
                packet@.len() == ORIGINAL_PACKET_SIZE,
                forall|i: int|
                    0 <= i < ORIGINAL_HEADER_SIZE ==> packet@[i] == spec_header_byte(
                        DeviceModel::Original,
                        button_index,
                        total as int,
                        k,
                        i,
                    ),
                forall|i: int|
                    ORIGINAL_HEADER_SIZE <= i < ORIGINAL_HEADER_SIZE + j ==> #[trigger] packet@[i]
                        == data@[sent + (i - ORIGINAL_HEADER_SIZE)],
                forall|i: int|
                    ORIGINAL_HEADER_SIZE + j <= i < ORIGINAL_PACKET_SIZE ==> #[trigger] packet@[i]
                        == 0,
            decreases payload_len - j,
        {
            packet[ORIGINAL_HEADER_SIZE + j] = data[sent + j];
            j = j + 1;
        }
        assert(packet@ =~= spec_packet(DeviceModel::Original, button_index, data@, k));
        packets.push(packet);
        sent = sent + payload_len;
    }
    proof {
        lemma_packet_index_in_range(total as int, DeviceModel::Original, packets@.len() as int);
    }
    packets
}

/// Split one button's encoded image bytes into the fixed-size output
/// reports the device expects, selecting the layout by protocol variant.
/// Packets must be written to the device in order: sequence numbers are
/// strictly increasing and only the final packet carries the last flag.
pub fn frame_image_packets(model: DeviceModel, button_index: u8, data: &Vec<u8>) -> (packets: Vec<
    Vec<u8>,
>)
    requires
        (button_index as int) < BUTTON_COUNT as int,
        data@.len() <= spec_payload_per_packet(model) * 0xFFFF,
    ensures
        packets@.len() == spec_num_packets(data@.len() as int, model),
        forall|k: int|
            0 <= k < packets@.len() ==> #[trigger] packets@[k]@ == spec_packet(
                model,
                button_index,
                data@,
                k,
            ),
{
    match model {
        DeviceModel::Mk2 => frame_mk2(button_index, data),
        DeviceModel::Original => frame_original(button_index, data),
    }
}

/// The packet count is the ceiling of the payload length over the
/// per-packet payload capacity.
pub proof fn lemma_num_packets_is_ceil(len: int, model: DeviceModel)
    requires
        0 <= len,
    ensures
        spec_num_packets(len, model) == (len + spec_payload_per_packet(model) - 1)
            / spec_payload_per_packet(model),
    decreases len,
{
    let ppp = spec_payload_per_packet(model);
    if len == 0 {
        vstd::arithmetic::div_mod::lemma_basic_div(ppp - 1, ppp);
    } else if len <= ppp {
        vstd::arithmetic::div_mod::lemma_div_plus_one(len - 1, ppp);
        vstd::arithmetic::div_mod::lemma_basic_div(len - 1, ppp);
    } else {
        lemma_num_packets_is_ceil(len - ppp, model);
        vstd::arithmetic::div_mod::lemma_div_plus_one(len - ppp + ppp - 1, ppp);
    }
}

} // verus!
