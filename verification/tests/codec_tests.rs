//! Tests for the wire-protocol codec: button-state decoding and image
//! packetization for both protocol variants.

use deckcore::codec::{decode_button_states, frame_image_packets};
use deckcore::constants::{
    BUTTON_COUNT, BUTTON_DATA_OFFSET, DeviceModel, MK2_HEADER_SIZE, MK2_IMAGE_DATA_PER_PACKET,
    MK2_PACKET_SIZE, ORIGINAL_DATA_PER_PACKET, ORIGINAL_HEADER_SIZE, ORIGINAL_PACKET_SIZE,
};

fn zero_report() -> Vec<u8> {
    vec![0u8; 32]
}

#[test]
fn decode_reads_one_byte_per_button() {
    let mut raw = zero_report();
    raw[BUTTON_DATA_OFFSET + 3] = 1;
    raw[BUTTON_DATA_OFFSET + 7] = 0xFF;
    let prev = vec![false; BUTTON_COUNT];
    let states = decode_button_states(&raw, &prev);
    for i in 0..BUTTON_COUNT {
        assert_eq!(states[i], i == 3 || i == 7, "button {}", i);
    }
}

#[test]
fn decode_nonzero_byte_means_pressed() {
    let mut raw = zero_report();
    raw[BUTTON_DATA_OFFSET] = 2;
    let prev = vec![false; BUTTON_COUNT];
    let states = decode_button_states(&raw, &prev);
    assert!(states[0]);
}

#[test]
fn decode_short_report_keeps_prior_states() {
    let mut prev = vec![false; BUTTON_COUNT];
    prev[5] = true;
    let raw = vec![1u8; BUTTON_DATA_OFFSET + BUTTON_COUNT - 1];
    let states = decode_button_states(&raw, &prev);
    assert_eq!(states, prev);
}

#[test]
fn decode_empty_report_keeps_prior_states() {
    let mut prev = vec![false; BUTTON_COUNT];
    prev[0] = true;
    prev[14] = true;
    let raw: Vec<u8> = Vec::new();
    let states = decode_button_states(&raw, &prev);
    assert_eq!(states, prev);
}

#[test]
fn mk2_packet_layout_and_roundtrip() {
    let data: Vec<u8> = (0..2500u32).map(|i| (i % 251) as u8).collect();
    let packets = frame_image_packets(DeviceModel::Mk2, 6, &data);
    // ceil(2500 / 1016) == 3
    assert_eq!(packets.len(), 3);
    let mut rebuilt: Vec<u8> = Vec::new();
    for (k, p) in packets.iter().enumerate() {
        assert_eq!(p.len(), MK2_PACKET_SIZE);
        assert_eq!(p[0], 0x02);
        assert_eq!(p[1], 0x07);
        assert_eq!(p[2], 6);
        let is_last = k == packets.len() - 1;
        assert_eq!(p[3], if is_last { 1 } else { 0 });
        let payload_len = p[4] as usize | ((p[5] as usize) << 8);
        let expected_len = if is_last { 2500 - 2 * MK2_IMAGE_DATA_PER_PACKET } else {
            MK2_IMAGE_DATA_PER_PACKET
        };
        assert_eq!(payload_len, expected_len);
        let page = p[6] as usize | ((p[7] as usize) << 8);
        assert_eq!(page, k);
        rebuilt.extend_from_slice(&p[MK2_HEADER_SIZE..MK2_HEADER_SIZE + payload_len]);
        // padding after the payload is zero
        for &b in &p[MK2_HEADER_SIZE + payload_len..] {
            assert_eq!(b, 0);
        }
    }
    assert_eq!(rebuilt, data);
}

#[test]
fn original_packet_layout_and_roundtrip() {
    let data: Vec<u8> = (0..10000u32).map(|i| (i % 241) as u8).collect();
    let packets = frame_image_packets(DeviceModel::Original, 2, &data);
    // ceil(10000 / 8175) == 2
    assert_eq!(packets.len(), 2);
    let mut rebuilt: Vec<u8> = Vec::new();
    for (k, p) in packets.iter().enumerate() {
        assert_eq!(p.len(), ORIGINAL_PACKET_SIZE);
        assert_eq!(p[0], 0x02);
        assert_eq!(p[1], 0x01);
        let page = p[2] as usize | ((p[3] as usize) << 8);
        assert_eq!(page, k + 1, "pages are 1-based");
        assert_eq!(p[4], 0x00);
        let is_last = k == packets.len() - 1;
        assert_eq!(p[5], if is_last { 1 } else { 0 });
        assert_eq!(p[6], 3, "button index is 1-based on the wire");
        for &b in &p[7..ORIGINAL_HEADER_SIZE] {
            assert_eq!(b, 0);
        }
        let payload_len = if is_last { 10000 - ORIGINAL_DATA_PER_PACKET } else {
            ORIGINAL_DATA_PER_PACKET
        };
        rebuilt.extend_from_slice(&p[ORIGINAL_HEADER_SIZE..ORIGINAL_HEADER_SIZE + payload_len]);
        for &b in &p[ORIGINAL_HEADER_SIZE + payload_len..] {
            assert_eq!(b, 0);
        }
    }
    assert_eq!(rebuilt, data);
}

#[test]
fn empty_image_data_needs_no_packets() {
    let data: Vec<u8> = Vec::new();
    assert_eq!(frame_image_packets(DeviceModel::Mk2, 0, &data).len(), 0);
    assert_eq!(frame_image_packets(DeviceModel::Original, 0, &data).len(), 0);
}

#[test]
fn one_byte_image_takes_one_flagged_packet() {
    let data = vec![0xABu8];
    let packets = frame_image_packets(DeviceModel::Mk2, 0, &data);
    assert_eq!(packets.len(), 1);
    assert_eq!(packets[0][3], 1, "the only packet is the last packet");
    assert_eq!(packets[0][4], 1);
    assert_eq!(packets[0][5], 0);
    assert_eq!(packets[0][MK2_HEADER_SIZE], 0xAB);
}

#[test]
fn exact_multiple_fills_packets_with_no_extra() {
    let data = vec![7u8; MK2_IMAGE_DATA_PER_PACKET * 2];
    let packets = frame_image_packets(DeviceModel::Mk2, 1, &data);
    assert_eq!(packets.len(), 2);
    assert_eq!(packets[0][3], 0);
    assert_eq!(packets[1][3], 1);
    let last_len = packets[1][4] as usize | ((packets[1][5] as usize) << 8);
    assert_eq!(last_len, MK2_IMAGE_DATA_PER_PACKET);
}
