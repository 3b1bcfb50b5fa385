//! Tests for discovery filtering, path matching and the device session:
//! report handling, image framing per button, and range validation.

use deckcore::constants::{BUTTON_COUNT, BUTTON_DATA_OFFSET, MK2_IMAGE_DATA_PER_PACKET};
use deckcore::errors::DeckError;
use deckcore::image_prep::PixelImage;
use deckcore::session::{DeviceInfo, StreamDeck, filter_supported_devices, find_device_by_path};

fn device(path: &str, vendor_id: u16, product_id: u16) -> DeviceInfo {
    DeviceInfo {
        path: path.to_string(),
        product_name: "dev".to_string(),
        serial_number: None,
        vendor_id,
        product_id,
    }
}

fn mk2_session() -> StreamDeck {
    StreamDeck::new(device("hid:1", 0x0fd9, 0x0080))
}

fn original_session() -> StreamDeck {
    StreamDeck::new(device("hid:2", 0x0fd9, 0x0060))
}

fn solid_image() -> PixelImage {
    PixelImage { width: 8, height: 8, pixels: vec![200u8; 8 * 8 * 3] }
}

#[test]
fn discovery_keeps_only_supported_devices() {
    let devices = vec![
        device("a", 0x0fd9, 0x0060),
        device("b", 0x1234, 0x0060),
        device("c", 0x0fd9, 0x9999),
        device("d", 0x0fd9, 0x0080),
    ];
    let kept = filter_supported_devices(devices);
    assert_eq!(kept.len(), 2);
    assert_eq!(kept[0].path, "a");
    assert_eq!(kept[1].path, "d");
}

#[test]
fn discovery_of_nothing_is_empty_not_an_error() {
    let kept = filter_supported_devices(Vec::new());
    assert!(kept.is_empty());
}

#[test]
fn find_device_matches_by_path() {
    let devices = vec![device("a", 1, 1), device("b", 2, 2), device("b", 3, 3)];
    assert_eq!(find_device_by_path(&devices, "b"), Some(1), "first match wins");
    assert_eq!(find_device_by_path(&devices, "a"), Some(0));
    assert_eq!(find_device_by_path(&devices, "z"), None);
}

#[test]
fn new_session_has_no_pressed_buttons() {
    let session = mk2_session();
    let states = session.get_button_states();
    assert_eq!(states.len(), BUTTON_COUNT);
    assert!(states.iter().all(|&b| !b));
}

#[test]
fn session_caches_device_info() {
    let session = mk2_session();
    assert_eq!(session.get_device_info().product_id, 0x0080);
    assert_eq!(session.get_device_info().path, "hid:1");
    assert!(session.get_serial_number().is_none());
}

#[test]
fn firmware_version_is_not_available() {
    assert_eq!(mk2_session().get_firmware_version(), Err(DeckError::NotFound));
}

#[test]
fn apply_report_updates_states() {
    let mut session = mk2_session();
    let mut raw = vec![0u8; 32];
    raw[BUTTON_DATA_OFFSET + 9] = 1;
    session.apply_report(&raw);
    let states = session.get_button_states();
    for i in 0..BUTTON_COUNT {
        assert_eq!(states[i], i == 9);
    }
    // An empty read leaves the cached states alone.
    session.apply_report(&Vec::new());
    assert!(session.get_button_states()[9]);
}

#[test]
fn out_of_range_index_fails_with_range_error_and_no_packets() {
    let session = mk2_session();
    let img = solid_image();
    // index == buttonCount is the first out-of-range value.
    let r = session.set_button_image_from_data(BUTTON_COUNT, &img);
    assert_eq!(r, Err(DeckError::Range), "no packets are produced, nothing reaches the device");
    let r2 = session.clear_button_image(BUTTON_COUNT);
    assert_eq!(r2, Err(DeckError::Range));
    let r3 = session.set_button_image(99, &vec![1, 2, 3]);
    assert_eq!(r3, Err(DeckError::Range), "range is checked before decoding");
}

#[test]
fn set_button_image_from_data_frames_mk2_packets() {
    let session = mk2_session();
    let packets = session.set_button_image_from_data(6, &solid_image()).expect("framing succeeds");
    assert!(!packets.is_empty());
    for p in &packets {
        assert_eq!(p.len(), 1024);
        assert_eq!(p[0], 0x02);
        assert_eq!(p[1], 0x07);
        assert_eq!(p[2], 6);
    }
    assert_eq!(packets.last().unwrap()[3], 1, "final packet carries the last flag");
    // The concatenated payload is a JPEG for the MK.2 family.
    let first = &packets[0];
    assert_eq!(&first[8..10], &[0xFF, 0xD8]);
}

#[test]
fn set_button_image_from_data_frames_original_packets() {
    let session = original_session();
    let packets = session
        .set_button_image_from_data(0, &solid_image())
        .expect("framing succeeds");
    assert!(!packets.is_empty());
    for p in &packets {
        assert_eq!(p.len(), 8191);
        assert_eq!(p[0], 0x02);
        assert_eq!(p[1], 0x01);
        assert_eq!(p[6], 1, "wire button index is 1-based");
    }
    // The payload starts with the BMP magic.
    assert_eq!(&packets[0][16..18], b"BM");
}

#[test]
fn set_button_image_decodes_then_frames() {
    // Feed the session a real image file: the BMP that the pipeline
    // produces for the first-generation model decodes cleanly.
    let bmp = deckcore::image_prep::blank(deckcore::constants::DeviceModel::Original)
        .expect("blank tile encodes");
    let mk2 = mk2_session();
    let packets = mk2.set_button_image(4, &bmp).expect("decode and framing succeed");
    assert!(!packets.is_empty());
    assert_eq!(packets[0][2], 4);
}

#[test]
fn garbage_image_bytes_fail_with_decode_error() {
    let session = mk2_session();
    let r = session.set_button_image(0, &vec![9u8, 9, 9, 9]);
    assert_eq!(r, Err(DeckError::Decode));
}

#[test]
fn clear_all_buttons_frames_every_button() {
    let session = mk2_session();
    let all = session.clear_all_buttons().expect("clearing succeeds");
    assert_eq!(all.len(), BUTTON_COUNT);
    for (b, packets) in all.iter().enumerate() {
        assert!(!packets.is_empty());
        assert_eq!(packets[0][2] as usize, b, "each sequence addresses its button");
    }
    // Every button's packet sequence encodes the same black tile.
    assert_eq!(all[0][0][8..], all[1][0][8..]);
}

#[test]
fn oversized_encoded_data_is_rejected() {
    let session = mk2_session();
    let too_big = vec![0u8; MK2_IMAGE_DATA_PER_PACKET * 0xFFFF + 1];
    let r = session.packets_for_encoded(0, &too_big);
    assert_eq!(r, Err(DeckError::Encode));
}

#[test]
fn packets_for_encoded_validates_range_first() {
    let session = mk2_session();
    let r = session.packets_for_encoded(BUTTON_COUNT, &vec![1u8, 2, 3]);
    assert_eq!(r, Err(DeckError::Range));
}
