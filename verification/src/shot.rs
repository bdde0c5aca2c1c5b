//! The library's front door: a configuration together with the screens.

use vstd::prelude::*;
use crate::capture::{enumeration_error, screen_line, ScreenCapturer, ScreenInfo};
use crate::config::{resolved, Config};
use crate::error::AppError;

verus! {

/// A configuration and the screens it is used on.
pub struct AiShot {
    pub config: Config,
    pub capturer: ScreenCapturer,
}

impl AiShot {
    /// Sets up the library from the environment's values and the outcome of
    /// enumerating the screens. Fails exactly where there is no screen.
    pub fn new(
        env_api_key: Option<String>,
        env_model: Option<String>,
        enumerated: Result<Vec<ScreenInfo>, String>,
    ) -> (r: Result<AiShot, AppError>)
        ensures
            match enumeration_error(enumerated) {
                None => r matches Ok(shot) && shot.capturer.wf() && shot.capturer.screens
                    == enumerated->Ok_0 && shot.config@ == resolved(
                    None,
                    None,
                    crate::config::option_text(env_api_key),
                    crate::config::option_text(env_model),
                ),
                Some(error) => r matches Err(e) && e@ == error,
            },
    {
        match Config::load(env_api_key, env_model) {
            Ok(config) => Self::with_config(config, enumerated),
            Err(e) => Err(e),
        }
    }

    /// Sets up the library with a given configuration. Fails exactly where
    /// there is no screen.
    pub fn with_config(config: Config, enumerated: Result<Vec<ScreenInfo>, String>) -> (r: Result<
        AiShot,
        AppError,
    >)
        ensures
            match enumeration_error(enumerated) {
                None => r matches Ok(shot) && shot.capturer.wf() && shot.capturer.screens
                    == enumerated->Ok_0 && shot.config == config,
                Some(error) => r matches Err(e) && e@ == error,
            },
    {
        match ScreenCapturer::new(enumerated) {
            Ok(capturer) => Ok(AiShot { config, capturer }),
            Err(e) => Err(e),
        }
    }

    /// One line for each monitor, in order.
    pub fn list_monitors(&self) -> (lines: Vec<String>)
        ensures
            lines@.len() == self.capturer.screens@.len(),
            forall|i: int|
                0 <= i < lines@.len() ==> (#[trigger] lines@[i])@ == screen_line(
                    i as nat,
                    self.capturer.screens@[i].width,
                    self.capturer.screens@[i].height,
                    self.capturer.screens@[i].scale@,
                ),
    {
        self.capturer.list_screen()
    }

    /// The number of monitors.
    pub fn monitor_count(&self) -> (n: usize)
        ensures
            n == self.capturer.screens@.len(),
    {
        self.capturer.screen_count()
    }

    /// The configuration in use, to be changed in place.
    pub fn config_mut(&mut self) -> (c: &mut Config)
        ensures
            *c == old(self).config,
            final(self).config == *final(c),
            final(self).capturer == old(self).capturer,
    {
        &mut self.config
    }

    /// The configuration in use.
    pub fn config(&self) -> (c: &Config)
        ensures
            c == &self.config,
    {
        &self.config
    }
}

} // verus!
