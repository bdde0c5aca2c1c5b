//! The overlay: what it shows, how the selection gesture drives it, and how
//! requests and their streamed answers pass through it.
//!
//! - [`state`]: what the panel shows, and the events that change it
//! - [`settings`]: the user's preferences
//! - [`selection`]: the drag gesture
//! - [`rendering`]: where things are drawn
//! - [`snipping_tool`]: the controller that ties them together

pub mod rendering;
pub mod selection;
pub mod settings;
pub mod snipping_tool;
pub mod state;

pub use settings::{available_models, Settings};
pub use snipping_tool::SnippingTool;
pub use state::{SelectionResult, UiState};
