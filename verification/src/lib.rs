//! Control logic of a screenshot tool that lets the user select a region of
//! a captured screen and ask an AI model about it.
//!
//! The library decides; it does not draw, capture or talk to the network:
//!
//! - [`image_processing`]: maps a selection on the overlay onto image pixels
//!   and encodes the selected region
//! - [`ui`]: the selection gesture, the display's state machine, and the
//!   controller that reconciles streamed results with the latest request
//! - [`worker`]: what a background worker sends for what happens to it
//! - [`gemini`]: the rules of a request to the completion service
//! - [`capture`], [`config`], [`error`], [`hotkey`]: screens, configuration,
//!   errors, and the key combination of the background mode

pub mod capture;
pub mod config;
pub mod error;
pub mod gemini;
pub mod geometry;
pub mod hotkey;
pub mod image_processing;
pub mod shot;
pub mod text;
pub mod ui;
pub mod worker;

pub use capture::ScreenCapturer;
pub use config::Config;
pub use error::AppError;
pub use gemini::GeminiClient;
pub use shot::AiShot;
