//! What the user can set in the overlay and what is kept between sessions.

use vstd::prelude::*;
use vstd::string::*;
use crate::config::DEFAULT_MODEL;

verus! {

/// The names of the models offered in the settings panel, in the order shown.
pub fn available_models() -> (models: Vec<&'static str>)
    ensures
        models@.len() == 3,
        models@[0]@ == "gemini-2.5-pro"@,
        models@[1]@ == "gemini-flash-latest"@,
        models@[2]@ == "gemini-flash-lite-latest"@,
{
    let mut models: Vec<&'static str> = Vec::new();
    models.push("gemini-2.5-pro");
    models.push("gemini-flash-latest");
    models.push("gemini-flash-lite-latest");
    models
}

/// The user's preferences.
#[derive(Debug)]
pub struct Settings {
    /// The name of the selected model.
    pub model: String,
    /// Instructions that precede every request.
    pub system_prompt: String,
    /// Whether the model is asked to show its reasoning.
    pub thinking_enabled: bool,
    /// Whether answers may be grounded in a web search.
    pub google_search: bool,
    /// An API key that takes precedence over the environment's.
    pub api_key: String,
}

/// The mathematical value of [`Settings`].
pub struct SettingsView {
    pub model: Seq<char>,
    pub system_prompt: Seq<char>,
    pub thinking_enabled: bool,
    pub google_search: bool,
    pub api_key: Seq<char>,
}

impl View for Settings {
    type V = SettingsView;

    open spec fn view(&self) -> SettingsView {
        SettingsView {
            model: self.model@,
            system_prompt: self.system_prompt@,
            thinking_enabled: self.thinking_enabled,
            google_search: self.google_search,
            api_key: self.api_key@,
        }
    }
}

impl SettingsView {
    /// The settings of a first session with the given model: no instructions,
    /// no key, every feature off.
    pub open spec fn defaults(model: Seq<char>) -> SettingsView {
        SettingsView {
            model,
            system_prompt: Seq::empty(),
            thinking_enabled: false,
            google_search: false,
            api_key: Seq::empty(),
        }
    }

    /// These settings, with `fallback` as the key where they hold none.
    pub open spec fn with_key_fallback(self, fallback: Seq<char>) -> SettingsView {
        if self.api_key.len() == 0 {
            SettingsView { api_key: fallback, ..self }
        } else {
            self
        }
    }
}

impl Clone for Settings {
    fn clone(&self) -> (r: Self)
        ensures
            r@ == self@,
    {
        Settings {
            model: self.model.clone(),
            system_prompt: self.system_prompt.clone(),
            thinking_enabled: self.thinking_enabled,
            google_search: self.google_search,
            api_key: self.api_key.clone(),
        }
    }
}

impl PartialEq for Settings {
    fn eq(&self, other: &Self) -> (r: bool) {
        self.model == other.model && self.system_prompt == other.system_prompt
            && self.thinking_enabled == other.thinking_enabled && self.google_search
            == other.google_search && self.api_key == other.api_key
    }
}

impl vstd::std_specs::cmp::PartialEqSpecImpl for Settings {
    open spec fn obeys_eq_spec() -> bool {
        true
    }

    open spec fn eq_spec(&self, other: &Self) -> bool {
        self.model@ == other.model@ && self.system_prompt@ == other.system_prompt@
            && self.thinking_enabled == other.thinking_enabled && self.google_search
            == other.google_search && self.api_key@ == other.api_key@
    }
}

impl Default for Settings {
    fn default() -> (r: Self)
        ensures
            r@ == SettingsView::defaults(DEFAULT_MODEL@),
    {
        Settings::with_defaults(DEFAULT_MODEL)
    }
}

impl Settings {
    /// The settings of a first session with the given model.
    pub fn with_defaults(model: &str) -> (r: Settings)
        ensures
            r@ == SettingsView::defaults(model@),
    {
        Settings {
            model: model.to_owned(),
            system_prompt: String::new(),
            thinking_enabled: false,
            google_search: false,
            api_key: String::new(),
        }
    }

    /// Whether the settings hold an API key of their own.
    pub fn has_api_key(&self) -> (b: bool)
        ensures
            b == (self@.api_key.len() > 0),
    {
        !self.api_key.as_str().is_empty()
    }

    /// The settings that a session starts with: what was stored, or the
    /// defaults for `default_model` where nothing usable was stored.
    pub fn load(stored: Option<Settings>, default_model: &str) -> (r: Settings)
        ensures
            r@ == match stored {
                Some(s) => s@,
                None => SettingsView::defaults(default_model@),
            },
    {
        match stored {
            Some(s) => s,
            None => Settings::with_defaults(default_model),
        }
    }

    /// Uses `fallback` as the API key where the settings hold none.
    pub fn with_key_fallback(self, fallback: &str) -> (r: Settings)
        ensures
            r@ == self@.with_key_fallback(fallback@),
    {
        if self.has_api_key() {
            self
        } else {
            let mut s = self;
            s.api_key = fallback.to_owned();
            s
        }
    }
}

} // verus!
