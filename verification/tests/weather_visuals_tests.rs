//! Tests for the weather formatting and the button-visual resolution.

use deckcore::config::{Action, ButtonConfig, ButtonImage};
use deckcore::visuals::{
    ButtonVisual, icon_file_name, icon_query, resolve_button_image, sanitize_label,
};
use deckcore::weather::{
    CurrentCondition, WttrResponse, format_weather, weather_code_to_emoji, weather_summary,
};

#[test]
fn weather_codes_map_to_emoji() {
    assert_eq!(weather_code_to_emoji("113"), "☀️");
    assert_eq!(weather_code_to_emoji("116"), "⛅");
    assert_eq!(weather_code_to_emoji("122"), "☁️");
    assert_eq!(weather_code_to_emoji("248"), "🌫️");
    assert_eq!(weather_code_to_emoji("296"), "🌦️");
    assert_eq!(weather_code_to_emoji("308"), "🌧️");
    assert_eq!(weather_code_to_emoji("314"), "🌧️");
    assert_eq!(weather_code_to_emoji("326"), "🌨️");
    assert_eq!(weather_code_to_emoji("371"), "❄️");
    assert_eq!(weather_code_to_emoji("350"), "🌨️");
    assert_eq!(weather_code_to_emoji("395"), "⛈️");
    assert_eq!(weather_code_to_emoji("999"), "🌡️", "unknown codes get the default");
    assert_eq!(weather_code_to_emoji(""), "🌡️");
}

#[test]
fn weather_formats_temperature_and_emoji() {
    assert_eq!(format_weather("72", "113"), "72°F ☀️");
    assert_eq!(format_weather("-5", "371"), "-5°F ❄️");
}

#[test]
fn weather_summary_takes_the_first_condition() {
    let response = WttrResponse {
        current_condition: vec![
            CurrentCondition { temp_F: "68".to_string(), weatherCode: "116".to_string() },
            CurrentCondition { temp_F: "0".to_string(), weatherCode: "113".to_string() },
        ],
    };
    assert_eq!(weather_summary(&response), Some("68°F ⛅".to_string()));
}

#[test]
fn weather_summary_of_empty_response_is_none() {
    let response = WttrResponse { current_condition: Vec::new() };
    assert_eq!(weather_summary(&response), None);
}

#[test]
fn sanitize_label_replaces_non_alphanumerics() {
    assert_eq!(sanitize_label("Vol +"), "Vol__");
    assert_eq!(sanitize_label("a.b/c"), "a_b_c");
    assert_eq!(sanitize_label("plain123"), "plain123");
    assert_eq!(sanitize_label(""), "");
}

#[test]
fn icon_file_name_wraps_the_icon_name() {
    assert_eq!(icon_file_name("globe"), "icons/globe.png");
}

fn button(action_type: &str, label: Option<&str>, image: Option<ButtonImage>) -> ButtonConfig {
    ButtonConfig {
        action: Action::new(action_type),
        label: label.map(|l| l.to_string()),
        image,
    }
}

#[test]
fn custom_file_wins_over_everything() {
    let cfg = button(
        "audio.volume_up",
        Some("label"),
        Some(ButtonImage::File { path: "/tmp/pic.png".to_string() }),
    );
    let visual = resolve_button_image(&cfg, None);
    assert_eq!(visual, Some(ButtonVisual::FilePath("/tmp/pic.png".to_string())));
}

#[test]
fn custom_icon_resolves_only_when_found() {
    let cfg = button(
        "none",
        Some("label"),
        Some(ButtonImage::Icon { name: "music".to_string() }),
    );
    assert_eq!(icon_query(&cfg), Some("music".to_string()));
    let found = resolve_button_image(&cfg, Some("/icons/music.png".to_string()));
    assert_eq!(found, Some(ButtonVisual::FilePath("/icons/music.png".to_string())));
    let missing = resolve_button_image(&cfg, None);
    assert_eq!(missing, None, "a missing custom icon does not fall back to the label");
}

#[test]
fn custom_text_spec_renders_nothing() {
    let cfg = button(
        "none",
        Some("label"),
        Some(ButtonImage::Text {
            text: "hi".to_string(),
            background_color: None,
            text_color: None,
        }),
    );
    assert_eq!(resolve_button_image(&cfg, None), None);
}

#[test]
fn default_icon_is_used_when_present_on_disk() {
    let cfg = button("system.open_url", Some("Open"), None);
    assert_eq!(icon_query(&cfg), Some("globe".to_string()));
    let visual = resolve_button_image(&cfg, Some("/res/icons/globe.png".to_string()));
    assert_eq!(visual, Some(ButtonVisual::FilePath("/res/icons/globe.png".to_string())));
}

#[test]
fn label_is_the_fallback_when_no_icon_is_found() {
    let cfg = button("system.open_url", Some("Open"), None);
    let visual = resolve_button_image(&cfg, None);
    assert_eq!(visual, Some(ButtonVisual::Text("Open".to_string())));
}

#[test]
fn nothing_resolves_to_nothing() {
    let cfg = button("unknown.action", None, None);
    assert_eq!(icon_query(&cfg), None);
    assert_eq!(resolve_button_image(&cfg, None), None);
}
