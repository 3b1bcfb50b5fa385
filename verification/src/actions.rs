//! Action registry and dispatch: a lookup-and-invoke mechanism mapping an
//! action type name to a handler, tolerant of unknown names.
//!
//! Handlers that only change configuration state (page navigation, no-op)
//! run and are verified here. Handlers whose work is outside I/O (volume
//! keys, launching programs, opening URLs, fetching weather) resolve their
//! parameters here and return an [`Effect`] describing the work; the
//! surrounding application performs it.

use vstd::prelude::*;

use crate::config::{
    Action, Config, spec_int_param, spec_list_param, spec_string_param,
};
use crate::errors::DeckError;
use crate::strutil::str_eq;

verus! {

/// A handler a registry entry can point at: the built-in set, or a handler
/// supplied by the surrounding application and identified by a token.
#[derive(Clone, Copy, PartialEq, Eq, Structural, Debug)]
pub enum Handler {
    AudioVolumeUp,
    AudioVolumeDown,
    AudioVolumeMute,
    AudioPlaySound,
    NavigationNextPage,
    NavigationPreviousPage,
    NavigationGoToPage,
    SystemLaunchApp,
    SystemOpenUrl,
    SystemHotkey,
    DisplayWeather,
    ActionNone,
    External(u64),
}

/// Work that a dispatched action asks the surrounding application to
/// perform. The decision logic is verified here; the I/O is not ours.
#[derive(Clone, PartialEq, Debug)]
pub enum Effect {
    VolumeUp,
    VolumeDown,
    VolumeMute,
    PlaySound { path: String },
    LaunchApp { path: String, args: Vec<String> },
    OpenUrl { url: String },
    Hotkey { keys: String },
    FetchWeather,
    RunExternal { token: u64 },
}

/// The next active page after advancing by one, wrapping at the end.
pub open spec fn spec_next_page(current: int, num_pages: int) -> int {
    if num_pages > 0 {
        (current + 1) % num_pages
    } else {
        current
    }
}

/// The next active page after going back by one, wrapping at the start.
pub open spec fn spec_prev_page(current: int, num_pages: int) -> int {
    if num_pages <= 0 {
        current
    } else if current == 0 {
        num_pages - 1
    } else {
        current - 1
    }
}

/// Whether `after` is `before` with only the current-page field changed to
/// `page`.
pub open spec fn spec_config_with_page(before: Config, after: Config, page: int) -> bool {
    &&& after.version == before.version
    &&& after.pages == before.pages
    &&& after.current_page as int == page
}

/// Increase the system volume by one step: the key press is outside work.
pub fn audio_volume_up(_action: &Action, _config: &mut Config) -> (r: Result<
    Option<Effect>,
    DeckError,
>)
    ensures
        r == Ok::<Option<Effect>, DeckError>(Some(Effect::VolumeUp)),
        *final(_config) == *old(_config),
{
    Ok(Some(Effect::VolumeUp))
}

/// Decrease the system volume by one step: the key press is outside work.
pub fn audio_volume_down(_action: &Action, _config: &mut Config) -> (r: Result<
    Option<Effect>,
    DeckError,
>)
    ensures
        r == Ok::<Option<Effect>, DeckError>(Some(Effect::VolumeDown)),
        *final(_config) == *old(_config),
{
    Ok(Some(Effect::VolumeDown))
}

/// Mute the system volume: the key press is outside work.
pub fn audio_volume_mute(_action: &Action, _config: &mut Config) -> (r: Result<
    Option<Effect>,
    DeckError,
>)
    ensures
        r == Ok::<Option<Effect>, DeckError>(Some(Effect::VolumeMute)),
        *final(_config) == *old(_config),
{
    Ok(Some(Effect::VolumeMute))
}

/// Play a sound file: requires a "path" parameter, the playback is outside
/// work.
pub fn audio_play_sound(action: &Action, _config: &mut Config) -> (r: Result<
    Option<Effect>,
    DeckError,
>)
    ensures
        *final(_config) == *old(_config),
        ({
            match spec_string_param(action.params@, "path"@) {
                Some(path) => r == Ok::<Option<Effect>, DeckError>(
                    Some(Effect::PlaySound { path }),
                ),
                None => r == Err::<Option<Effect>, DeckError>(DeckError::MissingParameter),
            }
        }),
{
    match action.get_string_param("path") {
        Some(path) => Ok(Some(Effect::PlaySound { path })),
        None => Err(DeckError::MissingParameter),
    }
}

/// Switch to the next page, wrapping around; a no-op when there are no
/// pages.
pub fn navigation_next_page(_action: &Action, config: &mut Config) -> (r: Result<
    Option<Effect>,
    DeckError,
>)
    ensures
        r == Ok::<Option<Effect>, DeckError>(None),
        spec_config_with_page(
            *old(config),
            *final(config),
            spec_next_page(old(config).current_page as int, old(config).pages@.len() as int),
        ),
{
    let num_pages = config.pages.len();
    if num_pages > 0 {
        let base = config.current_page % num_pages;
        let next = (base + 1) % num_pages;
        proof {
            vstd::arithmetic::div_mod::lemma_add_mod_noop(
                old(config).current_page as int,
                1int,
                num_pages as int,
            );
            if num_pages > 1 {
                vstd::arithmetic::div_mod::lemma_small_mod(1nat, num_pages as nat);
            } else {
                vstd::arithmetic::div_mod::lemma_small_mod(0nat, 1nat);
                vstd::arithmetic::div_mod::lemma_mod_self_0(1int);
            }
        }
        config.current_page = next;
    }
    Ok(None)
}

/// Switch to the previous page, wrapping around; a no-op when there are no
/// pages.
pub fn navigation_previous_page(_action: &Action, config: &mut Config) -> (r: Result<
    Option<Effect>,
    DeckError,
>)
    ensures
        r == Ok::<Option<Effect>, DeckError>(None),
        spec_config_with_page(
            *old(config),
            *final(config),
            spec_prev_page(old(config).current_page as int, old(config).pages@.len() as int),
        ),
{
    let num_pages = config.pages.len();
    if num_pages > 0 {
        if config.current_page == 0 {
            config.current_page = num_pages - 1;
        } else {
            config.current_page = config.current_page - 1;
        }
    }
    Ok(None)
}

/// Jump to the page named by the "page" parameter. The parameter must be
/// present and in range; out-of-range indices (including negative ones)
/// are rejected without touching the configuration.
pub fn navigation_go_to_page(action: &Action, config: &mut Config) -> (r: Result<
    Option<Effect>,
    DeckError,
>)
    ensures
        ({
            match spec_int_param(action.params@, "page"@) {
                None => r == Err::<Option<Effect>, DeckError>(DeckError::MissingParameter)
                    && *final(config) == *old(config),
                Some(v) => {
                    if 0 <= v < old(config).pages@.len() as int {
                        r == Ok::<Option<Effect>, DeckError>(None) && spec_config_with_page(
                            *old(config),
                            *final(config),
                            v as int,
                        )
                    } else {
                        r == Err::<Option<Effect>, DeckError>(DeckError::Range) && *final(config) == *old(
                            config,
                        )
                    }
                },
            }
        }),
{
    match action.get_int_param("page") {
        None => Err(DeckError::MissingParameter),
        Some(v) => {
            if v >= 0 && (v as u64) < config.pages.len() as u64 {
                config.current_page = (v as u64) as usize;
                Ok(None)
            } else {
                Err(DeckError::Range)
            }
        },
    }
}

/// Launch a program: requires a "path" parameter and takes an optional
/// "args" list; the spawn is outside work.
pub fn system_launch_app(action: &Action, _config: &mut Config) -> (r: Result<
    Option<Effect>,
    DeckError,
>)
    ensures
        *final(_config) == *old(_config),
        spec_string_param(action.params@, "path"@) is None ==> r == Err::<
            Option<Effect>,
            DeckError,
        >(DeckError::MissingParameter),
        spec_string_param(action.params@, "path"@) matches Some(path) ==> {
            &&& r is Ok
            &&& r->Ok_0 matches Some(effect)
            &&& effect matches Effect::LaunchApp { path: epath, args: eargs }
            &&& epath@ == path@
            &&& ({
                match spec_list_param(action.params@, "args"@) {
                    Some(vs) => eargs@.len() == vs@.len() && forall|j: int|
                        0 <= j < vs@.len() ==> eargs@[j]@ == vs@[j]@,
                    None => eargs@.len() == 0,
                }
            })
        },
{
    match action.get_string_param("path") {
        None => Err(DeckError::MissingParameter),
        Some(path) => {
            let args = match action.get_list_param("args") {
                Some(vs) => vs,
                None => Vec::new(),
            };
            Ok(Some(Effect::LaunchApp { path, args }))
        },
    }
}

/// Open a URL in the default browser: requires a "url" parameter, the
/// launch is outside work.
pub fn system_open_url(action: &Action, _config: &mut Config) -> (r: Result<
    Option<Effect>,
    DeckError,
>)
    ensures
        *final(_config) == *old(_config),
        ({
            match spec_string_param(action.params@, "url"@) {
                Some(url) => r == Ok::<Option<Effect>, DeckError>(Some(Effect::OpenUrl { url })),
                None => r == Err::<Option<Effect>, DeckError>(DeckError::MissingParameter),
            }
        }),
{
    match action.get_string_param("url") {
        Some(url) => Ok(Some(Effect::OpenUrl { url })),
        None => Err(DeckError::MissingParameter),
    }
}

/// Send a hotkey chord: requires a "keys" parameter, the key injection is
/// outside work.
pub fn system_hotkey(action: &Action, _config: &mut Config) -> (r: Result<
    Option<Effect>,
    DeckError,
>)
    ensures
        *final(_config) == *old(_config),
        ({
            match spec_string_param(action.params@, "keys"@) {
                Some(keys) => r == Ok::<Option<Effect>, DeckError>(Some(Effect::Hotkey { keys })),
                None => r == Err::<Option<Effect>, DeckError>(DeckError::MissingParameter),
            }
        }),
{
    match action.get_string_param("keys") {
        Some(keys) => Ok(Some(Effect::Hotkey { keys })),
        None => Err(DeckError::MissingParameter),
    }
}

/// Show the weather on a button: the fetch and re-sync are outside work.
pub fn display_weather(_action: &Action, _config: &mut Config) -> (r: Result<
    Option<Effect>,
    DeckError,
>)
    ensures
        r == Ok::<Option<Effect>, DeckError>(Some(Effect::FetchWeather)),
        *final(_config) == *old(_config),
{
    Ok(Some(Effect::FetchWeather))
}

/// Do nothing, intentionally.
pub fn action_none(_action: &Action, _config: &mut Config) -> (r: Result<
    Option<Effect>,
    DeckError,
>)
    ensures
        r == Ok::<Option<Effect>, DeckError>(None),
        *final(_config) == *old(_config),
{
    Ok(None)
}

/// The last handler registered under `name`, scanning the entry list from
/// the newest registration back.
pub open spec fn spec_lookup(entries: Seq<(String, Handler)>, name: Seq<char>) -> Option<Handler>
    decreases entries.len(),
{
    if entries.len() == 0 {
        None
    } else if entries.last().0@ == name {
        Some(entries.last().1)
    } else {
        spec_lookup(entries.drop_last(), name)
    }
}

proof fn lemma_lookup_finds_entry_key(entries: Seq<(String, Handler)>, i: int)
    requires
        0 <= i < entries.len(),
    ensures
        spec_lookup(entries, entries[i].0@) is Some,
    decreases entries.len(),
{
    if entries.last().0@ == entries[i].0@ {
    } else {
        lemma_lookup_finds_entry_key(entries.drop_last(), i);
        assert(entries.drop_last()[i] == entries[i]);
    }
}

proof fn lemma_lookup_key_exists(entries: Seq<(String, Handler)>, name: Seq<char>)
    requires
        spec_lookup(entries, name) is Some,
    ensures
        exists|i: int| 0 <= i < entries.len() && (#[trigger] entries[i]).0@ == name,
    decreases entries.len(),
{
    if entries.len() == 0 {
    } else if entries.last().0@ == name {
        assert(entries[entries.len() - 1].0@ == name);
    } else {
        lemma_lookup_key_exists(entries.drop_last(), name);
        let i = choose|i: int|
            0 <= i < entries.drop_last().len() && (#[trigger] entries.drop_last()[i]).0@ == name;
        assert(entries[i].0@ == name);
    }
}

/// Whether some entry of the name list reads `name`.
pub open spec fn spec_contains_name(names: Seq<String>, name: Seq<char>) -> bool {
    exists|j: int| 0 <= j < names.len() && (#[trigger] names[j])@ == name
}

fn contains_name(names: &Vec<String>, name: &str) -> (r: bool)
    ensures
        r == spec_contains_name(names@, name@),
{
    let n = names.len();
    let mut j: usize = 0;
    while j < n
        invariant
            j <= n,
            n == names@.len(),
            forall|t: int| 0 <= t < j ==> (#[trigger] names@[t])@ != name@,
        decreases n - j,
    {
        if str_eq(names[j].as_str(), name) {
            return true;
        }
        j = j + 1;
    }
    false
}

/// The handler the default registration binds to each built-in action
/// type name.
pub open spec fn spec_default_handler(name: Seq<char>) -> Option<Handler> {
    if name == "audio.volume_up"@ {
        Some(Handler::AudioVolumeUp)
    } else if name == "audio.volume_down"@ {
        Some(Handler::AudioVolumeDown)
    } else if name == "audio.volume_mute"@ {
        Some(Handler::AudioVolumeMute)
    } else if name == "audio.play_sound"@ {
        Some(Handler::AudioPlaySound)
    } else if name == "navigation.next_page"@ {
        Some(Handler::NavigationNextPage)
    } else if name == "navigation.previous_page"@ {
        Some(Handler::NavigationPreviousPage)
    } else if name == "navigation.go_to_page"@ {
        Some(Handler::NavigationGoToPage)
    } else if name == "system.launch_app"@ {
        Some(Handler::SystemLaunchApp)
    } else if name == "system.open_url"@ {
        Some(Handler::SystemOpenUrl)
    } else if name == "system.hotkey"@ {
        Some(Handler::SystemHotkey)
    } else if name == "none"@ {
        Some(Handler::ActionNone)
    } else {
        None
    }
}

/// What dispatching an action does, given the handler (if any) its type
/// name resolves to: the result returned and how the configuration may
/// change. Unknown action types succeed and do nothing.
pub open spec fn spec_dispatch(
    handler: Option<Handler>,
    action: Action,
    before: Config,
    r: Result<Option<Effect>, DeckError>,
    after: Config,
) -> bool {
    match handler {
        None => r == Ok::<Option<Effect>, DeckError>(None) && after == before,
        Some(Handler::AudioVolumeUp) => r == Ok::<Option<Effect>, DeckError>(
            Some(Effect::VolumeUp),
        ) && after == before,
        Some(Handler::AudioVolumeDown) => r == Ok::<Option<Effect>, DeckError>(
            Some(Effect::VolumeDown),
        ) && after == before,
        Some(Handler::AudioVolumeMute) => r == Ok::<Option<Effect>, DeckError>(
            Some(Effect::VolumeMute),
        ) && after == before,
        Some(Handler::AudioPlaySound) => after == before && (match spec_string_param(
            action.params@,
            "path"@,
        ) {
            Some(path) => r == Ok::<Option<Effect>, DeckError>(Some(Effect::PlaySound { path })),
            None => r == Err::<Option<Effect>, DeckError>(DeckError::MissingParameter),
        }),
        Some(Handler::NavigationNextPage) => r == Ok::<Option<Effect>, DeckError>(None)
            && spec_config_with_page(
            before,
            after,
            spec_next_page(before.current_page as int, before.pages@.len() as int),
        ),
        Some(Handler::NavigationPreviousPage) => r == Ok::<Option<Effect>, DeckError>(None)
            && spec_config_with_page(
            before,
            after,
            spec_prev_page(before.current_page as int, before.pages@.len() as int),
        ),
        Some(Handler::NavigationGoToPage) => (match spec_int_param(action.params@, "page"@) {
            None => r == Err::<Option<Effect>, DeckError>(DeckError::MissingParameter) && after
                == before,
            Some(v) => {
                if 0 <= v < before.pages@.len() as int {
                    r == Ok::<Option<Effect>, DeckError>(None) && spec_config_with_page(
                        before,
                        after,
                        v as int,
                    )
                } else {
                    r == Err::<Option<Effect>, DeckError>(DeckError::Range) && after == before
                }
            },
        }),
        Some(Handler::SystemLaunchApp) => after == before && (match spec_string_param(
            action.params@,
            "path"@,
        ) {
            None => r == Err::<Option<Effect>, DeckError>(DeckError::MissingParameter),
            Some(path) => {
                &&& r is Ok
                &&& r->Ok_0 matches Some(effect)
                &&& effect matches Effect::LaunchApp { path: epath, args: eargs }
                &&& epath@ == path@
                &&& ({
                    match spec_list_param(action.params@, "args"@) {
                        Some(vs) => eargs@.len() == vs@.len() && forall|j: int|
                            0 <= j < vs@.len() ==> eargs@[j]@ == vs@[j]@,
                        None => eargs@.len() == 0,
                    }
                })
            },
        }),
        Some(Handler::SystemOpenUrl) => after == before && (match spec_string_param(
            action.params@,
            "url"@,
        ) {
            Some(url) => r == Ok::<Option<Effect>, DeckError>(Some(Effect::OpenUrl { url })),
            None => r == Err::<Option<Effect>, DeckError>(DeckError::MissingParameter),
        }),
        Some(Handler::SystemHotkey) => after == before && (match spec_string_param(
            action.params@,
            "keys"@,
        ) {
            Some(keys) => r == Ok::<Option<Effect>, DeckError>(Some(Effect::Hotkey { keys })),
            None => r == Err::<Option<Effect>, DeckError>(DeckError::MissingParameter),
        }),
        Some(Handler::DisplayWeather) => r == Ok::<Option<Effect>, DeckError>(
            Some(Effect::FetchWeather),
        ) && after == before,
        Some(Handler::ActionNone) => r == Ok::<Option<Effect>, DeckError>(None) && after
            == before,
        Some(Handler::External(token)) => r == Ok::<Option<Effect>, DeckError>(
            Some(Effect::RunExternal { token }),
        ) && after == before,
    }
}

/// Registry that maps action type names to handlers. A later registration
/// for the same name overwrites the earlier one.
pub struct ActionRegistry {
    entries: Vec<(String, Handler)>,
}

impl ActionRegistry {
    /// The handler currently registered under `name`, if any.
    pub closed spec fn spec_handler_for(&self, name: Seq<char>) -> Option<Handler> {
        spec_lookup(self.entries@, name)
    }

    /// A new registry with all built-in actions registered and nothing
    /// else.
    pub fn new() -> (registry: ActionRegistry)
        ensures
            forall|name: Seq<char>| registry.spec_handler_for(name) == spec_default_handler(name),
    {
        let mut registry = ActionRegistry { entries: Vec::new() };
        proof {
            assert(forall|name: Seq<char>| registry.spec_handler_for(name) is None);
        }
        registry.register_defaults();
        registry
    }

    /// Associate a handler with an action type name, shadowing any earlier
    /// registration for that name.
    pub fn register(&mut self, action_type: &str, handler: Handler)
        ensures
            final(self).spec_handler_for(action_type@) == Some(handler),
            forall|other: Seq<char>|
                other != action_type@ ==> #[trigger] final(self).spec_handler_for(other) == old(
                    self,
                ).spec_handler_for(other),
    {
        self.entries.push((action_type.to_owned(), handler));
        proof {
            assert(self.entries@.drop_last() =~= old(self).entries@);
        }
    }

    fn lookup(&self, action_type: &str) -> (r: Option<Handler>)
        ensures
            r == self.spec_handler_for(action_type@),
    {
        let n = self.entries.len();
        proof {
            assert(self.entries@.take(n as int) =~= self.entries@);
        }
        let mut i: usize = n;
        while i > 0
            invariant
                i <= n,
                n == self.entries@.len(),
                spec_lookup(self.entries@, action_type@) == spec_lookup(
                    self.entries@.take(i as int),
                    action_type@,
                ),
            decreases i,
        {
            i = i - 1;
            proof {
                assert(self.entries@.take(i + 1).last() == self.entries@[i as int]);
                assert(self.entries@.take(i + 1).drop_last() =~= self.entries@.take(i as int));
            }
            if str_eq(self.entries[i].0.as_str(), action_type) {
                return Some(self.entries[i].1);
            }
        }
        None
    }

    /// Whether a handler is registered for this action type.
    pub fn has_action(&self, action_type: &str) -> (r: bool)
        ensures
            r == (self.spec_handler_for(action_type@) is Some),
    {
        self.lookup(action_type).is_some()
    }

    /// The registered action type names: every name a handler is
    /// registered under appears exactly once, and nothing else does. The
    /// order is unspecified.
    pub fn list_actions(&self) -> (names: Vec<String>)
        ensures
            forall|j: int|
                0 <= j < names@.len() ==> self.spec_handler_for((#[trigger] names@[j])@) is Some,
            forall|name: Seq<char>|
                self.spec_handler_for(name) is Some ==> #[trigger] spec_contains_name(
                    names@,
                    name,
                ),
            forall|j1: int, j2: int|
                0 <= j1 < j2 < names@.len() ==> (#[trigger] names@[j1])@ != (
                #[trigger] names@[j2])@,
    {
        let n = self.entries.len();
        let mut names: Vec<String> = Vec::new();
        let mut i: usize = n;
        while i > 0
            invariant
                i <= n,
                n == self.entries@.len(),
                forall|j: int|
                    0 <= j < names@.len() ==> spec_lookup(
                        self.entries@,
                        (#[trigger] names@[j])@,
                    ) is Some,
                forall|k: int|
                    i <= k < n ==> #[trigger] spec_contains_name(names@, self.entries@[k].0@),
                forall|j1: int, j2: int|
                    0 <= j1 < j2 < names@.len() ==> (#[trigger] names@[j1])@ != (
                    #[trigger] names@[j2])@,
            decreases i,
        {
            i = i - 1;
            if !contains_name(&names, self.entries[i].0.as_str()) {
                let ghost old_names = names@;
                names.push(self.entries[i].0.clone());
                proof {
                    lemma_lookup_finds_entry_key(self.entries@, i as int);
                    assert(names@[old_names.len() as int]@ == self.entries@[i as int].0@);
                    assert forall|k: int|
                        i as int <= k < n as int implies #[trigger] spec_contains_name(
                        names@,
                        self.entries@[k].0@,
                    ) by {
                        if k > i as int {
                            assert(spec_contains_name(old_names, self.entries@[k].0@));
                            let j = choose|j: int|
                                0 <= j < old_names.len() && (#[trigger] old_names[j])@
                                    == self.entries@[k].0@;
                            assert(names@[j]@ == self.entries@[k].0@);
                        } else {
                            assert(names@[old_names.len() as int]@ == self.entries@[k].0@);
                        }
                    }
                }
            } else {
                proof {
                    assert forall|k: int|
                        i as int <= k < n as int implies #[trigger] spec_contains_name(
                        names@,
                        self.entries@[k].0@,
                    ) by {}
                }
            }
        }
        proof {
            assert forall|name: Seq<char>|
                self.spec_handler_for(name) is Some implies #[trigger] spec_contains_name(
                names@,
                name,
            ) by {
                lemma_lookup_key_exists(self.entries@, name);
                let k = choose|k: int|
                    0 <= k < self.entries@.len() && (#[trigger] self.entries@[k]).0@ == name;
                assert(spec_contains_name(names@, self.entries@[k].0@));
            }
        }
        names
    }

    /// Execute an action: look up the handler for its type name and run
    /// it against the configuration. An unregistered action type succeeds
    /// and performs no side effect at all.
    pub fn execute(&self, action: &Action, config: &mut Config) -> (r: Result<
        Option<Effect>,
        DeckError,
    >)
        ensures
            spec_dispatch(
                self.spec_handler_for(action.action_type@),
                *action,
                *old(config),
                r,
                *final(config),
            ),
    {
        match self.lookup(action.action_type.as_str()) {
            None => Ok(None),
            Some(Handler::AudioVolumeUp) => audio_volume_up(action, config),
            Some(Handler::AudioVolumeDown) => audio_volume_down(action, config),
            Some(Handler::AudioVolumeMute) => audio_volume_mute(action, config),
            Some(Handler::AudioPlaySound) => audio_play_sound(action, config),
            Some(Handler::NavigationNextPage) => navigation_next_page(action, config),
            Some(Handler::NavigationPreviousPage) => navigation_previous_page(action, config),
            Some(Handler::NavigationGoToPage) => navigation_go_to_page(action, config),
            Some(Handler::SystemLaunchApp) => system_launch_app(action, config),
            Some(Handler::SystemOpenUrl) => system_open_url(action, config),
            Some(Handler::SystemHotkey) => system_hotkey(action, config),
            Some(Handler::DisplayWeather) => display_weather(action, config),
            Some(Handler::ActionNone) => action_none(action, config),
            Some(Handler::External(token)) => Ok(Some(Effect::RunExternal { token })),
        }
    }

    fn register_defaults(&mut self)
        requires
            forall|name: Seq<char>| old(self).spec_handler_for(name) is None,
        ensures
            forall|name: Seq<char>|
                final(self).spec_handler_for(name) == spec_default_handler(name),
    {
        proof {
            reveal_strlit("audio.volume_up");
            reveal_strlit("audio.volume_down");
            reveal_strlit("audio.volume_mute");
            reveal_strlit("audio.play_sound");
            reveal_strlit("navigation.next_page");
            reveal_strlit("navigation.previous_page");
            reveal_strlit("navigation.go_to_page");
            reveal_strlit("system.launch_app");
            reveal_strlit("system.open_url");
            reveal_strlit("system.hotkey");
            reveal_strlit("none");
        }
        self.register("audio.volume_up", Handler::AudioVolumeUp);
        self.register("audio.volume_down", Handler::AudioVolumeDown);
        self.register("audio.volume_mute", Handler::AudioVolumeMute);
        self.register("audio.play_sound", Handler::AudioPlaySound);
        self.register("navigation.next_page", Handler::NavigationNextPage);
        self.register("navigation.previous_page", Handler::NavigationPreviousPage);
        self.register("navigation.go_to_page", Handler::NavigationGoToPage);
        self.register("system.launch_app", Handler::SystemLaunchApp);
        self.register("system.open_url", Handler::SystemOpenUrl);
        self.register("system.hotkey", Handler::SystemHotkey);
        self.register("none", Handler::ActionNone);
        proof {
            assert("audio.volume_up"@.len() == 15 && "audio.volume_up"@[0] == 'a');
            assert("audio.volume_down"@.len() == 17 && "audio.volume_down"@[0] == 'a'
                && "audio.volume_down"@[13] == 'd');
            assert("audio.volume_mute"@.len() == 17 && "audio.volume_mute"@[0] == 'a'
                && "audio.volume_mute"@[13] == 'm');
            assert("audio.play_sound"@.len() == 16);
            assert("navigation.next_page"@.len() == 20);
            assert("navigation.previous_page"@.len() == 24);
            assert("navigation.go_to_page"@.len() == 21);
            assert("system.launch_app"@.len() == 17 && "system.launch_app"@[0] == 's');
            assert("system.open_url"@.len() == 15 && "system.open_url"@[0] == 's');
            assert("system.hotkey"@.len() == 13);
            assert("none"@.len() == 4);
            assert forall|name: Seq<char>|
                self.spec_handler_for(name) == spec_default_handler(name) by {
                assert(old(self).spec_handler_for(name) is None);
            }
        }
    }
}

impl Default for ActionRegistry {
    /// The same registry that [`ActionRegistry::new`] builds.
    fn default() -> (registry: ActionRegistry)
        ensures
            forall|name: Seq<char>| registry.spec_handler_for(name) == spec_default_handler(name),
    {
        ActionRegistry::new()
    }
}

/// An unregistered action type is tolerated: dispatch reports success and
/// neither an effect nor a configuration change can occur.
pub proof fn lemma_unknown_action_is_noop(
    action: Action,
    before: Config,
    r: Result<Option<Effect>, DeckError>,
    after: Config,
)
    requires
        spec_dispatch(None, action, before, r, after),
    ensures
        r == Ok::<Option<Effect>, DeckError>(None),
        after == before,
{
}

} // verus!
