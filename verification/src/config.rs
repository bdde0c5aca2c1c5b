//! The configuration of the completion service: an API key and a model name.
//!
//! Values come from three places, in this order: what the caller set on the
//! builder, what the environment holds, and the built-in default. Reading the
//! environment is the caller's part; the builder takes what was read.

use vstd::prelude::*;
use vstd::string::*;
use crate::error::AppError;

verus! {

/// The model that is used where none is named.
pub const DEFAULT_MODEL: &'static str = "gemini-flash-latest";

/// The API key and the model to use.
#[derive(Debug)]
pub struct Config {
    /// The key that authenticates against the completion service.
    pub gemini_api_key: String,
    /// The model's name, such as `gemini-flash-latest`.
    pub model_name: String,
}

/// The mathematical value of a [`Config`].
pub struct ConfigView {
    pub gemini_api_key: Seq<char>,
    pub model_name: Seq<char>,
}

impl View for Config {
    type V = ConfigView;

    open spec fn view(&self) -> ConfigView {
        ConfigView { gemini_api_key: self.gemini_api_key@, model_name: self.model_name@ }
    }
}

impl Clone for Config {
    fn clone(&self) -> (r: Self)
        ensures
            r@ == self@,
    {
        Config {
            gemini_api_key: self.gemini_api_key.clone(),
            model_name: self.model_name.clone(),
        }
    }
}

/// Collects overrides before a [`Config`] is built.
pub struct ConfigBuilder {
    api_key: Option<String>,
    model_name: Option<String>,
}

/// The view of an optional string.
pub open spec fn option_text(s: Option<String>) -> Option<Seq<char>> {
    match s {
        Some(t) => Some(t@),
        None => None,
    }
}

/// The first of two optional values that is present.
pub open spec fn first_of(a: Option<Seq<char>>, b: Option<Seq<char>>) -> Option<Seq<char>> {
    if a is Some {
        a
    } else {
        b
    }
}

/// The configuration that results from explicit values, the environment's
/// values and the defaults: the key defaults to the empty string, the model
/// to [`DEFAULT_MODEL`].
pub open spec fn resolved(
    api_key: Option<Seq<char>>,
    model_name: Option<Seq<char>>,
    env_api_key: Option<Seq<char>>,
    env_model: Option<Seq<char>>,
) -> ConfigView {
    ConfigView {
        gemini_api_key: match first_of(api_key, env_api_key) {
            Some(k) => k,
            None => Seq::empty(),
        },
        model_name: match first_of(model_name, env_model) {
            Some(m) => m,
            None => DEFAULT_MODEL@,
        },
    }
}

fn or_else(first: Option<String>, second: Option<String>) -> (r: Option<String>)
    ensures
        option_text(r) == first_of(option_text(first), option_text(second)),
{
    match first {
        Some(s) => Some(s),
        None => second,
    }
}

impl Default for ConfigBuilder {
    fn default() -> (b: Self)
        ensures
            b.api_key() is None,
            b.model_name() is None,
    {
        ConfigBuilder { api_key: None, model_name: None }
    }
}

impl ConfigBuilder {
    /// The API key that was set on the builder, if any.
    pub closed spec fn api_key(self) -> Option<Seq<char>> {
        option_text(self.api_key)
    }

    /// The model name that was set on the builder, if any.
    pub closed spec fn model_name(self) -> Option<Seq<char>> {
        option_text(self.model_name)
    }

    /// Sets the model name, which then takes precedence over the environment.
    pub fn with_model(self, model: &str) -> (r: ConfigBuilder)
        ensures
            r.model_name() == Some(model@),
            r.api_key() == self.api_key(),
    {
        let mut builder = self;
        builder.model_name = Some(model.to_owned());
        builder
    }

    /// Sets the API key, which then takes precedence over the environment.
    pub fn with_api_key(self, key: &str) -> (r: ConfigBuilder)
        ensures
            r.api_key() == Some(key@),
            r.model_name() == self.model_name(),
    {
        let mut builder = self;
        builder.api_key = Some(key.to_owned());
        builder
    }

    /// Builds the configuration. `env_api_key` and `env_model` are the values
    /// of `GEMINI_API_KEY` and `GEMINI_MODEL` in the environment, where set.
    ///
    /// Building always succeeds: a missing key is left empty, to be supplied
    /// later through the settings panel.
    pub fn build(self, env_api_key: Option<String>, env_model: Option<String>) -> (r: Result<
        Config,
        AppError,
    >)
        ensures
            r matches Ok(c) && c@ == resolved(
                self.api_key(),
                self.model_name(),
                option_text(env_api_key),
                option_text(env_model),
            ),
    {
        let gemini_api_key = match or_else(self.api_key, env_api_key) {
            Some(k) => k,
            None => String::new(),
        };
        let model_name = match or_else(self.model_name, env_model) {
            Some(m) => m,
            None => DEFAULT_MODEL.to_owned(),
        };
        Ok(Config { gemini_api_key, model_name })
    }
}

impl Config {
    /// A builder on which nothing is set.
    pub fn builder() -> (b: ConfigBuilder)
        ensures
            b.api_key() is None,
            b.model_name() is None,
    {
        ConfigBuilder::default()
    }

    /// The configuration that the environment alone gives.
    pub fn load(env_api_key: Option<String>, env_model: Option<String>) -> (r: Result<
        Config,
        AppError,
    >)
        ensures
            r matches Ok(c) && c@ == resolved(
                None,
                None,
                option_text(env_api_key),
                option_text(env_model),
            ),
    {
        Config::builder().build(env_api_key, env_model)
    }

    /// A configuration with the given key and the default model.
    pub fn with_key(api_key: &str) -> (c: Config)
        ensures
            c@ == (ConfigView { gemini_api_key: api_key@, model_name: DEFAULT_MODEL@ }),
    {
        Config { gemini_api_key: api_key.to_owned(), model_name: DEFAULT_MODEL.to_owned() }
    }
}

/// The configuration for one run of the program: the environment's values,
/// with the model replaced where one was named on the command line.
pub fn build_config(
    model_override: Option<String>,
    env_api_key: Option<String>,
    env_model: Option<String>,
) -> (r: Result<Config, AppError>)
    ensures
        r matches Ok(c) && c@ == resolved(
            None,
            option_text(model_override),
            option_text(env_api_key),
            option_text(env_model),
        ),
{
    let builder = Config::builder();
    let builder = match model_override {
        Some(model) => builder.with_model(model.as_str()),
        None => builder,
    };
    builder.build(env_api_key, env_model)
}

} // verus!
