//! Button/page configuration model: pages of per-button entries, each with
//! an action descriptor, an optional label and an optional image spec.
//!
//! Action parameters are a tagged-variant value type (string, integer or
//! list of strings) held as a key–value list; accessors return `None` for
//! an absent key or a wrong-typed value rather than failing.

use vstd::prelude::*;

use crate::constants::BUTTON_COUNT;
use crate::strutil::str_eq;

verus! {

/// A dynamically-typed action parameter value.
#[derive(Clone, PartialEq, Debug)]
pub enum ParamValue {
    Str(String),
    Int(i64),
    StrList(Vec<String>),
}

/// The first value bound to `key`, scanning the parameter list in order.
pub open spec fn spec_get_param(
    params: Seq<(String, ParamValue)>,
    key: Seq<char>,
) -> Option<ParamValue>
    decreases params.len(),
{
    if params.len() == 0 {
        None
    } else if params[0].0@ == key {
        Some(params[0].1)
    } else {
        spec_get_param(params.drop_first(), key)
    }
}

proof fn lemma_get_param_skip(params: Seq<(String, ParamValue)>, key: Seq<char>, i: int)
    requires
        0 <= i <= params.len(),
        forall|j: int| 0 <= j < i ==> params[j].0@ != key,
    ensures
        spec_get_param(params, key) == spec_get_param(params.skip(i), key),
    decreases i,
{
    if i > 0 {
        lemma_get_param_skip(params.drop_first(), key, i - 1);
        assert(params.drop_first().skip(i - 1) =~= params.skip(i));
    } else {
        assert(params.skip(0) =~= params);
    }
}

/// The string value bound to `key`, if the key is present and holds a
/// string.
pub open spec fn spec_string_param(
    params: Seq<(String, ParamValue)>,
    key: Seq<char>,
) -> Option<String> {
    match spec_get_param(params, key) {
        Some(ParamValue::Str(s)) => Some(s),
        _ => None,
    }
}

/// The integer value bound to `key`, if the key is present and holds an
/// integer.
pub open spec fn spec_int_param(
    params: Seq<(String, ParamValue)>,
    key: Seq<char>,
) -> Option<i64> {
    match spec_get_param(params, key) {
        Some(ParamValue::Int(v)) => Some(v),
        _ => None,
    }
}

/// The string-list value bound to `key`, if the key is present and holds a
/// list.
pub open spec fn spec_list_param(
    params: Seq<(String, ParamValue)>,
    key: Seq<char>,
) -> Option<Vec<String>> {
    match spec_get_param(params, key) {
        Some(ParamValue::StrList(vs)) => Some(vs),
        _ => None,
    }
}

/// The default icon name for an action type, for the built-in action set.
pub open spec fn spec_default_icon(action_type: Seq<char>) -> Option<Seq<char>> {
    if action_type == "audio.volume_up"@ {
        Some("volume-up"@)
    } else if action_type == "audio.volume_down"@ {
        Some("volume-down"@)
    } else if action_type == "audio.volume_mute"@ {
        Some("volume-mute"@)
    } else if action_type == "audio.play_sound"@ {
        Some("music"@)
    } else if action_type == "navigation.next_page"@ {
        Some("arrow-right"@)
    } else if action_type == "navigation.previous_page"@ {
        Some("arrow-left"@)
    } else if action_type == "navigation.go_to_page"@ {
        Some("layers"@)
    } else if action_type == "system.launch_app"@ {
        Some("terminal"@)
    } else if action_type == "system.open_url"@ {
        Some("globe"@)
    } else if action_type == "system.hotkey"@ {
        Some("keyboard"@)
    } else {
        None
    }
}

/// Action data: a type identifier plus named parameters. The execution
/// logic lives in the action registry.
#[derive(Clone, PartialEq, Debug)]
pub struct Action {
    /// Action type identifier (e.g. "audio.volume_up").
    pub action_type: String,
    /// Named parameters for the action, first binding of a key wins.
    pub params: Vec<(String, ParamValue)>,
}

impl Action {
    /// A new action with no parameters.
    pub fn new(action_type: &str) -> (action: Action)
        ensures
            action.action_type@ == action_type@,
            action.params@.len() == 0,
    {
        Action { action_type: action_type.to_owned(), params: Vec::new() }
    }

    /// A new action with the given parameters.
    pub fn with_params(action_type: &str, params: Vec<(String, ParamValue)>) -> (action: Action)
        ensures
            action.action_type@ == action_type@,
            action.params == params,
    {
        Action { action_type: action_type.to_owned(), params }
    }

    fn find_param(&self, key: &str) -> (r: Option<&ParamValue>)
        ensures
            r matches Some(v) ==> spec_get_param(self.params@, key@) == Some(*v),
            r is None ==> spec_get_param(self.params@, key@) is None,
    {
        let n = self.params.len();
        let mut i: usize = 0;
        while i < n
            invariant
                n == self.params@.len(),
                i <= n,
                forall|j: int| 0 <= j < i ==> self.params@[j].0@ != key@,
            decreases n - i,
        {
            if str_eq(self.params[i].0.as_str(), key) {
                proof {
                    lemma_get_param_skip(self.params@, key@, i as int);
                    assert(self.params@.skip(i as int)[0] == self.params@[i as int]);
                }
                return Some(&self.params[i].1);
            }
            i = i + 1;
        }
        proof {
            lemma_get_param_skip(self.params@, key@, n as int);
            assert(self.params@.skip(n as int) =~= Seq::<(String, ParamValue)>::empty());
        }
        None
    }

    /// The string parameter bound to `key`: `None` when the key is absent
    /// or holds a non-string value.
    pub fn get_string_param(&self, key: &str) -> (r: Option<String>)
        ensures
            r == spec_string_param(self.params@, key@),
    {
        match self.find_param(key) {
            Some(ParamValue::Str(s)) => Some(s.clone()),
            _ => None,
        }
    }

    /// The integer parameter bound to `key`: `None` when the key is absent
    /// or holds a non-integer value.
    pub fn get_int_param(&self, key: &str) -> (r: Option<i64>)
        ensures
            r == spec_int_param(self.params@, key@),
    {
        match self.find_param(key) {
            Some(ParamValue::Int(v)) => Some(*v),
            _ => None,
        }
    }

    /// The string-list parameter bound to `key`: `None` when the key is
    /// absent or holds a non-list value.
    pub fn get_list_param(&self, key: &str) -> (r: Option<Vec<String>>)
        ensures
            r matches Some(vs) ==> {
                &&& spec_list_param(self.params@, key@) matches Some(ws)
                &&& vs@.len() == ws@.len()
                &&& forall|j: int| 0 <= j < vs@.len() ==> vs@[j]@ == ws@[j]@
            },
            r is None ==> spec_list_param(self.params@, key@) is None,
    {
        match self.find_param(key) {
            Some(ParamValue::StrList(vs)) => Some(vs.clone()),
            _ => None,
        }
    }

    /// The default icon name for this action's type, if it has one.
    pub fn default_icon(&self) -> (r: Option<&'static str>)
        ensures
            r matches Some(name) ==> spec_default_icon(self.action_type@) == Some(name@),
            r is None ==> spec_default_icon(self.action_type@) is None,
    {
        let at = self.action_type.as_str();
        if str_eq(at, "audio.volume_up") {
            Some("volume-up")
        } else if str_eq(at, "audio.volume_down") {
            Some("volume-down")
        } else if str_eq(at, "audio.volume_mute") {
            Some("volume-mute")
        } else if str_eq(at, "audio.play_sound") {
            Some("music")
        } else if str_eq(at, "navigation.next_page") {
            Some("arrow-right")
        } else if str_eq(at, "navigation.previous_page") {
            Some("arrow-left")
        } else if str_eq(at, "navigation.go_to_page") {
            Some("layers")
        } else if str_eq(at, "system.launch_app") {
            Some("terminal")
        } else if str_eq(at, "system.open_url") {
            Some("globe")
        } else if str_eq(at, "system.hotkey") {
            Some("keyboard")
        } else {
            None
        }
    }
}

/// Image to display on a button.
#[derive(Clone, PartialEq, Debug)]
pub enum ButtonImage {
    /// Image loaded from a file path.
    File { path: String },
    /// Built-in icon referenced by name.
    Icon { name: String },
    /// Dynamically generated text image.
    Text { text: String, background_color: Option<String>, text_color: Option<String> },
}

/// Configuration for a single button.
#[derive(Clone, PartialEq, Debug)]
pub struct ButtonConfig {
    /// The action to perform when this button is pressed.
    pub action: Action,
    /// Optional display label, also rendered on the button if no image is
    /// configured.
    pub label: Option<String>,
    /// Optional custom image, overriding the action's default icon.
    pub image: Option<ButtonImage>,
}

/// A single page of button configurations, one optional entry per button
/// position.
#[derive(Clone, PartialEq, Debug)]
pub struct Page {
    /// Display name for this page.
    pub name: String,
    /// Per-button configuration, indexed by button position.
    pub buttons: Vec<Option<ButtonConfig>>,
}

impl Page {
    /// One entry per hardware button.
    pub open spec fn wf(&self) -> bool {
        self.buttons@.len() == BUTTON_COUNT as int
    }
}

/// Root configuration: all pages plus the index of the active page.
#[derive(Clone, PartialEq, Debug)]
pub struct Config {
    /// Config version for future migrations.
    pub version: u32,
    /// Index of the currently active page.
    pub current_page: usize,
    /// All pages of button configurations.
    pub pages: Vec<Page>,
}

impl Config {
    /// Every page carries one entry per hardware button.
    pub open spec fn wf(&self) -> bool {
        forall|p: int| 0 <= p < self.pages@.len() ==> (#[trigger] self.pages@[p]).wf()
    }
}

impl Config {
    /// Replace the label of one configured button on the current page.
    /// Nothing changes when the current page is missing or the button is
    /// not configured; every other field and button keeps its value.
    pub fn set_button_label(&mut self, index: usize, label: String)
        requires
            index < BUTTON_COUNT,
        ensures
            final(self).version == old(self).version,
            final(self).current_page == old(self).current_page,
            final(self).pages@.len() == old(self).pages@.len(),
            old(self).current_page >= old(self).pages@.len() ==> *final(self) == *old(self),
            old(self).current_page < old(self).pages@.len() ==> {
                let cp = old(self).current_page as int;
                &&& forall|p: int|
                    0 <= p < old(self).pages@.len() && p != cp ==> final(self).pages@[p] == old(
                        self,
                    ).pages@[p]
                &&& final(self).pages@[cp].name == old(self).pages@[cp].name
                &&& final(self).pages@[cp].buttons@.len() == old(self).pages@[cp].buttons@.len()
                &&& forall|b: int|
                    0 <= b < old(self).pages@[cp].buttons@.len() && b != index as int
                        ==> #[trigger] final(self).pages@[cp].buttons@[b] == old(
                        self,
                    ).pages@[cp].buttons@[b]
                &&& ((index as int) < old(self).pages@[cp].buttons@.len() ==> ({
                    match old(self).pages@[cp].buttons@[index as int] {
                        Some(bc) => final(self).pages@[cp].buttons@[index as int] matches Some(nb)
                            && nb.action == bc.action && nb.image == bc.image && nb.label == Some(
                            label,
                        ),
                        None => final(self).pages@[cp].buttons@[index as int] is None,
                    }
                }))
            },
    {
        let cp = self.current_page;
        if cp < self.pages.len() {
            let ghost old_pages = self.pages@;
            let mut page = self.pages.remove(cp);
            if index < page.buttons.len() {
                let ghost old_buttons = page.buttons@;
                let entry = page.buttons.remove(index);
                let updated = match entry {
                    Some(bc) => Some(
                        ButtonConfig { action: bc.action, label: Some(label), image: bc.image },
                    ),
                    None => None,
                };
                page.buttons.insert(index, updated);
                proof {
                    assert(page.buttons@ =~= old_buttons.update(
                        index as int,
                        page.buttons@[index as int],
                    ));
                }
            }
            self.pages.insert(cp, page);
            proof {
                assert(self.pages@ =~= old_pages.update(cp as int, page));
            }
        }
    }
}

impl Default for Config {
    /// The starting configuration: one page named "Main" with volume
    /// controls on the first two buttons.
    fn default() -> (config: Config)
        ensures
            config.wf(),
            config.version == 1,
            config.current_page == 0,
            config.pages@.len() == 1,
            config.pages@[0].name@ == "Main"@,
            config.pages@[0].buttons@[0] matches Some(b) && {
                &&& b.action.action_type@ == "audio.volume_up"@
                &&& b.action.params@.len() == 0
                &&& b.label matches Some(l) && l@ == "Vol +"@
                &&& b.image is None
            },
            config.pages@[0].buttons@[1] matches Some(b) && {
                &&& b.action.action_type@ == "audio.volume_down"@
                &&& b.action.params@.len() == 0
                &&& b.label matches Some(l) && l@ == "Vol -"@
                &&& b.image is None
            },
            forall|i: int|
                2 <= i < BUTTON_COUNT as int ==> config.pages@[0].buttons@[i] is None,
    {
        let mut buttons: Vec<Option<ButtonConfig>> = Vec::new();
        buttons.push(
            Some(
                ButtonConfig {
                    action: Action::new("audio.volume_up"),
                    label: Some("Vol +".to_owned()),
                    image: None,
                },
            ),
        );
        buttons.push(
            Some(
                ButtonConfig {
                    action: Action::new("audio.volume_down"),
                    label: Some("Vol -".to_owned()),
                    image: None,
                },
            ),
        );
        while buttons.len() < BUTTON_COUNT
            invariant
                2 <= buttons@.len() <= BUTTON_COUNT as int,
                buttons@[0] matches Some(b) && {
                    &&& b.action.action_type@ == "audio.volume_up"@
                    &&& b.action.params@.len() == 0
                    &&& b.label matches Some(l) && l@ == "Vol +"@
                    &&& b.image is None
                },
                buttons@[1] matches Some(b) && {
                    &&& b.action.action_type@ == "audio.volume_down"@
                    &&& b.action.params@.len() == 0
                    &&& b.label matches Some(l) && l@ == "Vol -"@
                    &&& b.image is None
                },
                forall|i: int| 2 <= i < buttons@.len() ==> buttons@[i] is None,
            decreases BUTTON_COUNT - buttons@.len(),
        {
            buttons.push(None);
        }
        let mut pages: Vec<Page> = Vec::new();
        pages.push(Page { name: "Main".to_owned(), buttons });
        Config { version: 1, current_page: 0, pages }
    }
}

} // verus!
