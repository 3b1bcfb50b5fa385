//! Device session state: the cached descriptor and last-known button
//! states of the one open device, plus the pure halves of discovery,
//! connection and image writing. The HID handle itself, and every read or
//! write on it, lives with the surrounding application; this module turns
//! raw report bytes into states and images into the exact packet sequences
//! to write.

use vstd::prelude::*;

use crate::codec::{
    decode_button_states, frame_image_packets, spec_decode_button_states, spec_num_packets,
    spec_packet, spec_payload_per_packet,
};
use crate::constants::{
    BUTTON_COUNT, DeviceModel, ELGATO_VENDOR_ID, IMAGE_SIZE, STREAM_DECK_MK2_PID,
    STREAM_DECK_ORIGINAL_PID, spec_model_for_product,
};
use crate::errors::DeckError;
use crate::image_prep::{
    MAX_IMAGE_DIMENSION, PixelImage, TILE_BYTES, blank, decode_image_rgb, prepare, spec_prepared,
};
use crate::strutil::str_eq;

verus! {

/// Information about a discovered device, produced by enumeration and
/// consumed by connect. Immutable once discovered.
#[derive(Clone, PartialEq, Debug)]
pub struct DeviceInfo {
    /// The USB device path used to open this device.
    pub path: String,
    /// Human-readable product name.
    pub product_name: String,
    /// Device serial number; absent on some devices.
    pub serial_number: Option<String>,
    /// USB vendor id.
    pub vendor_id: u16,
    /// USB product id, identifying the model.
    pub product_id: u16,
}

/// Whether a discovered device is a supported panel: the right vendor and
/// one of the recognized product ids.
pub open spec fn spec_supported(d: DeviceInfo) -> bool {
    d.vendor_id == ELGATO_VENDOR_ID && (d.product_id == STREAM_DECK_ORIGINAL_PID || d.product_id
        == STREAM_DECK_MK2_PID)
}

/// Keep exactly the supported devices, in enumeration order. The
/// enumeration itself is the platform's; this is the filtering half of
/// discovery.
pub fn filter_supported_devices(devices: Vec<DeviceInfo>) -> (kept: Vec<DeviceInfo>)
    ensures
        kept@ == devices@.filter(|d: DeviceInfo| spec_supported(d)),
{
    let mut rest = devices;
    let mut kept: Vec<DeviceInfo> = Vec::new();
    let ghost all = rest@;
    let total = rest.len();
    assert(all.len() == total as int);
    let mut i: usize = 0;
    while rest.len() > 0
        invariant
            all.len() <= usize::MAX as int,
            i + rest@.len() == all.len(),
            rest@ == all.skip(i as int),
            kept@ == all.take(i as int).filter(|d: DeviceInfo| spec_supported(d)),
        decreases rest@.len(),
    {
        let d = rest.remove(0);
        assert(d == all[i as int]);
        let keep = d.vendor_id == ELGATO_VENDOR_ID && (d.product_id == STREAM_DECK_ORIGINAL_PID
            || d.product_id == STREAM_DECK_MK2_PID);
        proof {
            assert(all.take(i + 1).drop_last() =~= all.take(i as int));
            assert(all.take(i + 1).last() == all[i as int]);
            reveal_with_fuel(Seq::filter, 2);
        }
        if keep {
            kept.push(d);
        }
        proof {
            assert(rest@ =~= all.skip(i + 1));
        }
        i = i + 1;
    }
    proof {
        assert(all.take(i as int) =~= all);
    }
    kept
}

/// The position of the first device whose path matches, if any: the
/// matching half of connect-time descriptor resolution.
pub fn find_device_by_path(devices: &Vec<DeviceInfo>, path: &str) -> (r: Option<usize>)
    ensures
        r matches Some(i) ==> {
            &&& i < devices@.len()
            &&& devices@[i as int].path@ == path@
            &&& forall|j: int| 0 <= j < i ==> devices@[j].path@ != path@
        },
        r is None ==> forall|j: int| 0 <= j < devices@.len() ==> devices@[j].path@ != path@,
{
    let n = devices.len();
    let mut i: usize = 0;
    while i < n
        invariant
            i <= n,
            n == devices@.len(),
            forall|j: int| 0 <= j < i ==> devices@[j].path@ != path@,
        decreases n - i,
    {
        if str_eq(devices[i].path.as_str(), path) {
            return Some(i);
        }
        i = i + 1;
    }
    None
}

/// A connected panel as this library sees it: the cached descriptor and
/// the last-known button states. The open HID handle that goes with it is
/// owned by the surrounding application; at most one live session exists
/// at a time.
pub struct StreamDeck {
    /// Cached device information, resolved at connect time.
    info: DeviceInfo,
    /// Current button states (true = pressed), one per button.
    button_states: Vec<bool>,
}

impl StreamDeck {
    /// One state per hardware button.
    pub closed spec fn wf(&self) -> bool {
        self.button_states@.len() == BUTTON_COUNT as int
    }

    /// The cached descriptor.
    pub closed spec fn spec_info(&self) -> DeviceInfo {
        self.info
    }

    /// The last-known button states.
    pub closed spec fn spec_states(&self) -> Seq<bool> {
        self.button_states@
    }

    /// The protocol variant this session speaks, fixed at connect time by
    /// the product id.
    pub open spec fn spec_model(&self) -> DeviceModel {
        spec_model_for_product(self.spec_info().product_id)
    }

    /// A fresh session for an opened device: no button pressed.
    pub fn new(info: DeviceInfo) -> (session: StreamDeck)
        ensures
            session.wf(),
            session.spec_info() == info,
            session.spec_states() == Seq::new(BUTTON_COUNT as nat, |i: int| false),
    {
        let button_states: Vec<bool> = vec![false; BUTTON_COUNT];
        assert(button_states@ =~= Seq::new(BUTTON_COUNT as nat, |i: int| false));
        StreamDeck { info, button_states }
    }

    /// Fold one raw input report into the session's button states: bytes
    /// at the model-defined offset decide each button, and a report too
    /// short to carry button data (or an empty one, from a non-blocking
    /// read with nothing to report) leaves the states unchanged.
    pub fn apply_report(&mut self, raw: &Vec<u8>)
        requires
            old(self).wf(),
        ensures
            final(self).wf(),
            final(self).spec_info() == old(self).spec_info(),
            final(self).spec_states() == spec_decode_button_states(
                raw@,
                old(self).spec_states(),
            ),
    {
        let states = decode_button_states(raw, &self.button_states);
        self.button_states = states;
    }

    /// The current button states without touching the device.
    pub fn get_button_states(&self) -> (states: &Vec<bool>)
        ensures
            states@ == self.spec_states(),
    {
        &self.button_states
    }

    /// The cached device information.
    pub fn get_device_info(&self) -> (info: &DeviceInfo)
        ensures
            *info == self.spec_info(),
    {
        &self.info
    }

    /// The device's serial number, if it reported one.
    pub fn get_serial_number(&self) -> (serial: Option<&String>)
        ensures
            serial matches Some(s) ==> self.spec_info().serial_number == Some(*s),
            serial is None ==> self.spec_info().serial_number is None,
    {
        self.info.serial_number.as_ref()
    }

    /// Reading the firmware version takes a feature-report exchange that
    /// this session does not perform; the request always fails.
    pub fn get_firmware_version(&self) -> (r: Result<String, DeckError>)
        ensures
            r == Err::<String, DeckError>(DeckError::NotFound),
    {
        Err(DeckError::NotFound)
    }

    /// Release the session. The application closes the HID handle it
    /// holds alongside; dropping the state is all there is to do here.
    pub fn disconnect(self) {
    }

    /// The packet sequence that puts an already-prepared image onto one
    /// button, validated and framed but not yet written. An out-of-range
    /// index fails with `Range` before anything else; encoded bytes too
    /// long for a transfer fail with `Encode`.
    pub fn packets_for_encoded(&self, button_index: usize, encoded: &Vec<u8>) -> (r: Result<
        Vec<Vec<u8>>,
        DeckError,
    >)
        ensures
            (r == Err::<Vec<Vec<u8>>, DeckError>(DeckError::Range)) == (button_index as int
                >= BUTTON_COUNT as int),
            (button_index as int) < BUTTON_COUNT as int ==> ({
                if encoded@.len() <= spec_payload_per_packet(self.spec_model()) * 0xFFFF {
                    r matches Ok(packets) && packets@.len() == spec_num_packets(
                        encoded@.len() as int,
                        self.spec_model(),
                    ) && forall|k: int|
                        0 <= k < packets@.len() ==> #[trigger] packets@[k]@ == spec_packet(
                            self.spec_model(),
                            button_index as u8,
                            encoded@,
                            k,
                        )
                } else {
                    r == Err::<Vec<Vec<u8>>, DeckError>(DeckError::Encode)
                }
            }),
    {
        if button_index >= BUTTON_COUNT {
            return Err(DeckError::Range);
        }
        let model = crate::constants::model_for_product(self.info.product_id);
        let cap = match model {
            DeviceModel::Mk2 => crate::constants::MK2_IMAGE_DATA_PER_PACKET * 0xFFFF,
            DeviceModel::Original => crate::constants::ORIGINAL_DATA_PER_PACKET * 0xFFFF,
        };
        if encoded.len() > cap {
            return Err(DeckError::Encode);
        }
        Ok(frame_image_packets(model, button_index as u8, encoded))
    }

    /// Prepare a raw image and frame it for one button: validate the
    /// index, run the preparation pipeline, then packetize. For an
    /// in-range index this succeeds with exactly the packets of the
    /// prepared bytes, unless the prepared bytes outrun the transfer's
    /// u16 page numbering, which fails with `Encode`; the device write is
    /// the application's step.
    pub fn set_button_image_from_data(&self, button_index: usize, img: &PixelImage) -> (r: Result<
        Vec<Vec<u8>>,
        DeckError,
    >)
        requires
            img.wf(),
            1 <= img.width <= MAX_IMAGE_DIMENSION,
            1 <= img.height <= MAX_IMAGE_DIMENSION,
        ensures
            (r == Err::<Vec<Vec<u8>>, DeckError>(DeckError::Range)) == (button_index as int
                >= BUTTON_COUNT as int),
            (button_index as int) < BUTTON_COUNT as int ==> ({
                let prep = spec_prepared(
                    img.pixels@,
                    img.width as int,
                    img.height as int,
                    self.spec_model(),
                );
                if prep.len() <= spec_payload_per_packet(self.spec_model()) * 0xFFFF {
                    r matches Ok(packets) && packets@.len() == spec_num_packets(
                        prep.len() as int,
                        self.spec_model(),
                    ) && forall|k: int|
                        0 <= k < packets@.len() ==> #[trigger] packets@[k]@ == spec_packet(
                            self.spec_model(),
                            button_index as u8,
                            prep,
                            k,
                        )
                } else {
                    r == Err::<Vec<Vec<u8>>, DeckError>(DeckError::Encode)
                }
            }),
    {
        if button_index >= BUTTON_COUNT {
            return Err(DeckError::Range);
        }
        let model = crate::constants::model_for_product(self.info.product_id);
        let encoded = prepare(img, model)?;
        self.packets_for_encoded(button_index, &encoded)
    }

    /// Decode an image file's bytes, prepare the result and frame it for
    /// one button. The index is validated before anything else; bytes
    /// that do not decode to an image with positive dimensions within
    /// the pipeline's dimension bound fail with `Decode`, and otherwise
    /// the outcome is that of preparing and framing the decoded image.
    pub fn set_button_image(&self, button_index: usize, file_bytes: &Vec<u8>) -> (r: Result<
        Vec<Vec<u8>>,
        DeckError,
    >)
        ensures
            (r == Err::<Vec<Vec<u8>>, DeckError>(DeckError::Range)) == (button_index as int
                >= BUTTON_COUNT as int),
            (button_index as int) < BUTTON_COUNT as int ==> ({
                let decoded = crate::image_prep::spec_decoded_rgb(file_bytes@);
                if !crate::image_prep::spec_decodes(file_bytes@) || decoded.0 < 1 || decoded.1
                    < 1 || decoded.0 > MAX_IMAGE_DIMENSION as int || decoded.1
                    > MAX_IMAGE_DIMENSION as int {
                    r == Err::<Vec<Vec<u8>>, DeckError>(DeckError::Decode)
                } else {
                    let prep = spec_prepared(decoded.2, decoded.0, decoded.1, self.spec_model());
                    if prep.len() <= spec_payload_per_packet(self.spec_model()) * 0xFFFF {
                        r matches Ok(packets) && packets@.len() == spec_num_packets(
                            prep.len() as int,
                            self.spec_model(),
                        ) && forall|k: int|
                            0 <= k < packets@.len() ==> #[trigger] packets@[k]@ == spec_packet(
                                self.spec_model(),
                                button_index as u8,
                                prep,
                                k,
                            )
                    } else {
                        r == Err::<Vec<Vec<u8>>, DeckError>(DeckError::Encode)
                    }
                }
            }),
    {
        if button_index >= BUTTON_COUNT {
            return Err(DeckError::Range);
        }
        let img = decode_image_rgb(file_bytes)?;
        if img.width < 1 || img.height < 1 || img.width > MAX_IMAGE_DIMENSION || img.height
            > MAX_IMAGE_DIMENSION {
            return Err(DeckError::Decode);
        }
        self.set_button_image_from_data(button_index, &img)
    }

    /// The packet sequence that clears one button to black. The index is
    /// validated before anything else; in range, this succeeds with the
    /// packets of the encoded black tile unless that encoding outruns the
    /// transfer's u16 page numbering.
    pub fn clear_button_image(&self, button_index: usize) -> (r: Result<Vec<Vec<u8>>, DeckError>)
        ensures
            (r == Err::<Vec<Vec<u8>>, DeckError>(DeckError::Range)) == (button_index as int
                >= BUTTON_COUNT as int),
            (button_index as int) < BUTTON_COUNT as int ==> ({
                let prep = spec_prepared(
                    Seq::new(TILE_BYTES as nat, |i: int| 0u8),
                    IMAGE_SIZE as int,
                    IMAGE_SIZE as int,
                    self.spec_model(),
                );
                if prep.len() <= spec_payload_per_packet(self.spec_model()) * 0xFFFF {
                    r matches Ok(packets) && packets@.len() == spec_num_packets(
                        prep.len() as int,
                        self.spec_model(),
                    ) && forall|k: int|
                        0 <= k < packets@.len() ==> #[trigger] packets@[k]@ == spec_packet(
                            self.spec_model(),
                            button_index as u8,
                            prep,
                            k,
                        )
                } else {
                    r == Err::<Vec<Vec<u8>>, DeckError>(DeckError::Encode)
                }
            }),
    {
        if button_index >= BUTTON_COUNT {
            return Err(DeckError::Range);
        }
        let model = crate::constants::model_for_product(self.info.product_id);
        let encoded = blank(model)?;
        self.packets_for_encoded(button_index, &encoded)
    }

    /// The packet sequences that clear every button to black, in button
    /// order. This succeeds with one sequence per button unless the black
    /// tile's encoding outruns the transfer's u16 page numbering, in
    /// which case the first button's failure aborts the rest.
    pub fn clear_all_buttons(&self) -> (r: Result<Vec<Vec<Vec<u8>>>, DeckError>)
        ensures
            ({
                let prep = spec_prepared(
                    Seq::new(TILE_BYTES as nat, |i: int| 0u8),
                    IMAGE_SIZE as int,
                    IMAGE_SIZE as int,
                    self.spec_model(),
                );
                if prep.len() <= spec_payload_per_packet(self.spec_model()) * 0xFFFF {
                    r matches Ok(all) && all@.len() == BUTTON_COUNT as int && (forall|
                        b: int,
                        k: int,
                    |
                        0 <= b < all@.len() && 0 <= k < all@[b]@.len() ==> #[trigger] all@[b]@[k]@
                            == spec_packet(self.spec_model(), b as u8, prep, k)) && (forall|b: int|
                        0 <= b < all@.len() ==> (#[trigger] all@[b]@.len()) == spec_num_packets(
                            prep.len() as int,
                            self.spec_model(),
                        ))
                } else {
                    r == Err::<Vec<Vec<Vec<u8>>>, DeckError>(DeckError::Encode)
                }
            }),
    {
        let mut all: Vec<Vec<Vec<u8>>> = Vec::new();
        let mut b: usize = 0;
        let ghost prep = spec_prepared(
            Seq::new(TILE_BYTES as nat, |i: int| 0u8),
            IMAGE_SIZE as int,
            IMAGE_SIZE as int,
            self.spec_model(),
        );
        while b < BUTTON_COUNT
            invariant
                b <= BUTTON_COUNT,
                all@.len() == b,
                b > 0 ==> prep.len() <= spec_payload_per_packet(self.spec_model()) * 0xFFFF,
                prep == spec_prepared(
                    Seq::new(TILE_BYTES as nat, |i: int| 0u8),
                    IMAGE_SIZE as int,
                    IMAGE_SIZE as int,
                    self.spec_model(),
                ),
                forall|bb: int, k: int|
                    0 <= bb < all@.len() && 0 <= k < all@[bb]@.len() ==> #[trigger] all@[bb]@[k]@
                        == spec_packet(self.spec_model(), bb as u8, prep, k),
                forall|bb: int|
                    0 <= bb < all@.len() ==> (#[trigger] all@[bb]@.len()) == spec_num_packets(
                        prep.len() as int,
                        self.spec_model(),
                    ),
            decreases BUTTON_COUNT - b,
        {
            let packets = match self.clear_button_image(b) {
                Ok(packets) => packets,
                Err(_) => {
                    return Err(DeckError::Encode);
                },
            };
            all.push(packets);
            b = b + 1;
        }
        Ok(all)
    }
}

} // verus!
