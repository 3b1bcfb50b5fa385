//! Resolution of what each button should display. A button's visual is
//! decided at sync time from its configuration: a custom image first, then
//! the action's default icon, then a rendered text label. Whether an icon
//! file actually exists on disk is the filesystem's answer; the caller
//! looks the queried icon up and passes the answer in, and the decision
//! logic here is verified for every possible answer.

use vstd::prelude::*;
use vstd::string::StrSliceExecFns;
use vstd::string::StringExecFns;

use crate::config::{ButtonConfig, ButtonImage, Config, spec_default_icon};
use crate::constants::BUTTON_COUNT;

verus! {

/// What a button resolves to at the moment of sync: an image file to load
/// and prepare, or a text label to render. Never persisted beyond the
/// current render.
#[derive(Clone, PartialEq, Debug)]
pub enum ButtonVisual {
    /// Load this file and prepare it for the tile.
    FilePath(String),
    /// Render this text onto a blank tile.
    Text(String),
}

/// The icon name a button's resolution will look up on disk, if any: the
/// custom icon when one is configured, else the action's default icon
/// when no custom image overrides it.
pub open spec fn spec_icon_query(cfg: ButtonConfig) -> Option<Seq<char>> {
    match cfg.image {
        Some(ButtonImage::Icon { name }) => Some(name@),
        Some(_) => None,
        None => spec_default_icon(cfg.action.action_type@),
    }
}

/// The icon name this button's resolution asks the filesystem about.
pub fn icon_query(cfg: &ButtonConfig) -> (r: Option<String>)
    ensures
        r matches Some(name) ==> spec_icon_query(*cfg) == Some(name@),
        r is None ==> spec_icon_query(*cfg) is None,
{
    match &cfg.image {
        Some(ButtonImage::Icon { name }) => Some(name.clone()),
        Some(_) => None,
        None => {
            match cfg.action.default_icon() {
                Some(name) => Some(name.to_owned()),
                None => None,
            }
        },
    }
}

/// The visual a button resolves to, given the filesystem's answer for its
/// icon query. A custom file path is taken as-is; a custom icon resolves
/// only if found; a custom text spec renders nothing; otherwise the
/// default icon is used when found, and failing that the label is
/// rendered as text.
pub open spec fn spec_resolve_button_image(
    cfg: ButtonConfig,
    icon_path: Option<String>,
) -> Option<ButtonVisual> {
    match cfg.image {
        Some(ButtonImage::File { path }) => Some(ButtonVisual::FilePath(path)),
        Some(ButtonImage::Icon { name }) => match icon_path {
            Some(p) => Some(ButtonVisual::FilePath(p)),
            None => None,
        },
        Some(ButtonImage::Text { .. }) => None,
        None => {
            if spec_default_icon(cfg.action.action_type@) is Some && icon_path is Some {
                Some(ButtonVisual::FilePath(icon_path->0))
            } else {
                match cfg.label {
                    Some(l) => Some(ButtonVisual::Text(l)),
                    None => None,
                }
            }
        },
    }
}

/// Resolve one button's visual from its configuration and the
/// filesystem's answer to its icon query (`None` when the icon was not
/// found, or nothing was queried).
pub fn resolve_button_image(cfg: &ButtonConfig, icon_path: Option<String>) -> (r: Option<
    ButtonVisual,
>)
    ensures
        r matches Some(v) ==> spec_resolve_button_image(*cfg, icon_path) == Some(v),
        r is None ==> spec_resolve_button_image(*cfg, icon_path) is None,
{
    match &cfg.image {
        Some(ButtonImage::File { path }) => Some(ButtonVisual::FilePath(path.clone())),
        Some(ButtonImage::Icon { name: _ }) => {
            match icon_path {
                Some(p) => Some(ButtonVisual::FilePath(p)),
                None => None,
            }
        },
        Some(ButtonImage::Text { .. }) => None,
        None => {
            let has_default = cfg.action.default_icon().is_some();
            if has_default && icon_path.is_some() {
                match icon_path {
                    Some(p) => Some(ButtonVisual::FilePath(p)),
                    None => None,
                }
            } else {
                match &cfg.label {
                    Some(l) => Some(ButtonVisual::Text(l.clone())),
                    None => None,
                }
            }
        },
    }
}

/// The visual for button `i` of the current page, given per-button icon
/// answers: `None` when the current page is missing or the button is not
/// configured.
pub open spec fn spec_page_visual(
    config: Config,
    icon_paths: Seq<Option<String>>,
    i: int,
) -> Option<ButtonVisual> {
    if config.current_page < config.pages@.len() {
        match config.pages@[config.current_page as int].buttons@[i] {
            Some(cfg) => spec_resolve_button_image(cfg, icon_paths[i]),
            None => None,
        }
    } else {
        None
    }
}

/// Resolve the visuals of every button on the current page, one entry per
/// button position. `icon_paths` holds the filesystem's answer to each
/// button's icon query, in the same order.
pub fn get_current_page_images(config: &Config, icon_paths: &Vec<Option<String>>) -> (visuals: Vec<
    Option<ButtonVisual>,
>)
    requires
        config.wf(),
        icon_paths@.len() == BUTTON_COUNT,
    ensures
        visuals@.len() == BUTTON_COUNT,
        forall|i: int|
            0 <= i < BUTTON_COUNT as int ==> {
                match #[trigger] visuals@[i] {
                    Some(v) => spec_page_visual(*config, icon_paths@, i) == Some(v),
                    None => spec_page_visual(*config, icon_paths@, i) is None,
                }
            },
{
    let mut visuals: Vec<Option<ButtonVisual>> = Vec::new();
    let mut i: usize = 0;
    while i < BUTTON_COUNT
        invariant
            i <= BUTTON_COUNT,
            config.wf(),
            icon_paths@.len() == BUTTON_COUNT,
            visuals@.len() == i,
            forall|b: int|
                0 <= b < i ==> {
                    match #[trigger] visuals@[b] {
                        Some(v) => spec_page_visual(*config, icon_paths@, b) == Some(v),
                        None => spec_page_visual(*config, icon_paths@, b) is None,
                    }
                },
        decreases BUTTON_COUNT - i,
    {
        let visual = if config.current_page < config.pages.len() {
            match &config.pages[config.current_page].buttons[i] {
                Some(cfg) => {
                    let answer = match &icon_paths[i] {
                        Some(p) => Some(p.clone()),
                        None => None,
                    };
                    resolve_button_image(cfg, answer)
                },
                None => None,
            }
        } else {
            None
        };
        visuals.push(visual);
        i = i + 1;
    }
    visuals
}

/// The file name under which a built-in icon is looked up.
pub fn icon_file_name(icon_name: &str) -> (r: String)
    ensures
        r@ == "icons/"@ + icon_name@ + ".png"@,
{
    String::from_str("icons/").concat(icon_name).concat(".png")
}

/// What sanitizing a label character keeps: the character itself when it
/// is alphanumeric, an underscore otherwise.
pub open spec fn spec_sanitized_char(c: char) -> char {
    if spec_is_alphanumeric(c) {
        c
    } else {
        '_'
    }
}

/// Whether a character is alphanumeric, exactly as `char::is_alphanumeric`
/// decides it: a function of the character alone.
pub uninterp spec fn spec_is_alphanumeric(c: char) -> bool;

pub assume_specification[ char::is_alphanumeric ](c: char) -> (r: bool)
    ensures
        r == spec_is_alphanumeric(c),
;

/// Relies on `String::push`: appends exactly the one character.
#[verifier::external_body]
fn string_push_char(s: &mut String, c: char)
    ensures
        final(s)@ == old(s)@.push(c),
{
    s.push(c);
}

/// Make a label safe to use as a cache file name: every character that is
/// not alphanumeric becomes an underscore.
pub fn sanitize_label(label: &str) -> (r: String)
    ensures
        r@.len() == label@.len(),
        forall|i: int| 0 <= i < label@.len() ==> r@[i] == spec_sanitized_char(label@[i]),
{
    let n = label.unicode_len();
    let mut r = String::new();
    let mut i: usize = 0;
    while i < n
        invariant
            i <= n,
            n == label@.len(),
            r@.len() == i,
            forall|j: int| 0 <= j < i ==> r@[j] == spec_sanitized_char(label@[j]),
        decreases n - i,
    {
        let c = label.get_char(i);
        if c.is_alphanumeric() {
            string_push_char(&mut r, c);
        } else {
            string_push_char(&mut r, '_');
        }
        i = i + 1;
    }
    r
}

} // verus!
