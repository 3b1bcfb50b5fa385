//! Tests for constants, model selection, error messages and configuration
//! updates.

use deckcore::config::{Action, ButtonConfig, Config, Page};
use deckcore::constants::{
    BUTTON_COUNT, DeviceModel, ELGATO_VENDOR_ID, GRID_COLUMNS, GRID_ROWS, STREAM_DECK_MK2_PID,
    STREAM_DECK_ORIGINAL_PID, get_device_name, is_supported_device, model_for_product,
};
use deckcore::errors::DeckError;

#[test]
fn supported_devices_are_the_two_models() {
    assert!(is_supported_device(STREAM_DECK_ORIGINAL_PID));
    assert!(is_supported_device(STREAM_DECK_MK2_PID));
    assert!(!is_supported_device(0x0063));
    assert!(!is_supported_device(0));
}

#[test]
fn device_names_follow_product_ids() {
    assert_eq!(get_device_name(STREAM_DECK_ORIGINAL_PID), "Stream Deck Original");
    assert_eq!(get_device_name(STREAM_DECK_MK2_PID), "Stream Deck MK.2");
    assert_eq!(get_device_name(0x1234), "Unknown Stream Deck");
}

#[test]
fn model_selection_by_product_id() {
    assert_eq!(model_for_product(STREAM_DECK_MK2_PID), DeviceModel::Mk2);
    assert_eq!(model_for_product(STREAM_DECK_ORIGINAL_PID), DeviceModel::Original);
}

#[test]
fn grid_matches_button_count() {
    assert_eq!(GRID_COLUMNS * GRID_ROWS, BUTTON_COUNT);
    assert_eq!(ELGATO_VENDOR_ID, 0x0fd9);
}

#[test]
fn error_messages_describe_the_failure() {
    assert_eq!(DeckError::Range.message(), "button index out of range");
    assert_eq!(DeckError::Disconnected.message(), "failed to read from device");
    assert_eq!(DeckError::HidApi.message(), "failed to initialize HID API");
}

fn one_page_config() -> Config {
    let mut buttons: Vec<Option<ButtonConfig>> = (0..15).map(|_| None).collect();
    buttons[3] = Some(ButtonConfig {
        action: Action::new("none"),
        label: Some("old".to_string()),
        image: None,
    });
    Config {
        version: 1,
        current_page: 0,
        pages: vec![Page { name: "Main".to_string(), buttons }],
    }
}

#[test]
fn set_button_label_replaces_only_that_label() {
    let mut config = one_page_config();
    config.set_button_label(3, "72°F ☀️".to_string());
    let b3 = config.pages[0].buttons[3].as_ref().unwrap();
    assert_eq!(b3.label, Some("72°F ☀️".to_string()));
    assert_eq!(b3.action.action_type, "none", "the action stays");
    for i in (0..15).filter(|&i| i != 3) {
        assert!(config.pages[0].buttons[i].is_none(), "other buttons untouched");
    }
}

#[test]
fn set_button_label_on_unconfigured_button_is_a_noop() {
    let mut config = one_page_config();
    let before = config.clone();
    config.set_button_label(5, "text".to_string());
    assert_eq!(config, before);
}

#[test]
fn set_button_label_with_missing_page_is_a_noop() {
    let mut config = one_page_config();
    config.current_page = 7;
    let before = config.clone();
    config.set_button_label(3, "text".to_string());
    assert_eq!(config, before);
}
