//! USB identifiers and hardware constants for the supported Stream Deck
//! models, and the model-selection logic driven by USB product id.

use vstd::prelude::*;

verus! {

/// USB vendor id shared by all Elgato devices.
pub const ELGATO_VENDOR_ID: u16 = 0x0fd9;

/// Product id of the first-generation Stream Deck (15 buttons).
pub const STREAM_DECK_ORIGINAL_PID: u16 = 0x0060;

/// Product id of the Stream Deck MK.2 (15 buttons, USB-C).
pub const STREAM_DECK_MK2_PID: u16 = 0x0080;

/// Number of buttons on the supported models.
pub const BUTTON_COUNT: usize = 15;

/// Number of columns in the button grid.
pub const GRID_COLUMNS: usize = 5;

/// Number of rows in the button grid.
pub const GRID_ROWS: usize = 3;

/// Byte offset where the per-button state bytes start in a HID input report.
pub const BUTTON_DATA_OFFSET: usize = 4;

/// Edge length, in pixels, of the square image tile shown on one button.
pub const IMAGE_SIZE: u32 = 72;

/// Quality setting used when encoding MK.2 tiles as JPEG.
pub const JPEG_QUALITY: u8 = 90;

/// Total size of one MK.2 image output report.
pub const MK2_PACKET_SIZE: usize = 1024;

/// Size of the header at the front of each MK.2 image packet.
pub const MK2_HEADER_SIZE: usize = 8;

/// Payload bytes carried by one MK.2 image packet.
pub const MK2_IMAGE_DATA_PER_PACKET: usize = 1016;

/// Total size of one first-generation image output report.
pub const ORIGINAL_PACKET_SIZE: usize = 8191;

/// Size of the header at the front of each first-generation image packet.
pub const ORIGINAL_HEADER_SIZE: usize = 16;

/// Payload bytes carried by one first-generation image packet.
pub const ORIGINAL_DATA_PER_PACKET: usize = 8175;

/// The two hardware protocol variants, selected once by product id.
/// They differ in packet size, header layout, button-index base and
/// tile encoding (JPEG for MK.2, BMP for the first generation).
#[derive(Clone, Copy, PartialEq, Eq, Structural, Debug)]
pub enum DeviceModel {
    Original,
    Mk2,
}

/// Which protocol variant a product id selects. Product ids that are not
/// recognized fall back to the first-generation variant, as the connect
/// path only admits supported ids anyway.
pub open spec fn spec_model_for_product(product_id: u16) -> DeviceModel {
    if product_id == STREAM_DECK_MK2_PID {
        DeviceModel::Mk2
    } else {
        DeviceModel::Original
    }
}

/// Select the protocol variant for a product id.
#[verifier::when_used_as_spec(spec_model_for_product)]
pub fn model_for_product(product_id: u16) -> (model: DeviceModel)
    ensures
        model == spec_model_for_product(product_id),
{
    if product_id == STREAM_DECK_MK2_PID {
        DeviceModel::Mk2
    } else {
        DeviceModel::Original
    }
}

/// Whether the given product id is one of the supported Stream Deck models.
pub fn is_supported_device(product_id: u16) -> (supported: bool)
    ensures
        supported == (product_id == STREAM_DECK_ORIGINAL_PID || product_id
            == STREAM_DECK_MK2_PID),
{
    product_id == STREAM_DECK_ORIGINAL_PID || product_id == STREAM_DECK_MK2_PID
}

/// A human-readable name for the device with the given product id.
pub fn get_device_name(product_id: u16) -> (name: &'static str)
    ensures
        product_id == STREAM_DECK_ORIGINAL_PID ==> name@ == "Stream Deck Original"@,
        product_id == STREAM_DECK_MK2_PID ==> name@ == "Stream Deck MK.2"@,
        product_id != STREAM_DECK_ORIGINAL_PID && product_id != STREAM_DECK_MK2_PID
            ==> name@ == "Unknown Stream Deck"@,
{
    if product_id == STREAM_DECK_ORIGINAL_PID {
        "Stream Deck Original"
    } else if product_id == STREAM_DECK_MK2_PID {
        "Stream Deck MK.2"
    } else {
        "Unknown Stream Deck"
    }
}

} // verus!
