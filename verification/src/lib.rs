//! View-model core of a terminal front end for a streaming agent session.
//!
//! Control messages arrive as JSON lines, are decoded into [`protocol::TuiMessage`]
//! values and folded into a [`view_model::ViewModel`]; key presses edit the input
//! buffer, move the scroll position and produce submission lines; the render
//! module projects the view-model onto styled text lines.

pub mod decode;
pub mod emit;
pub mod input;
pub mod json;
pub mod laws;
pub mod model;
pub mod protocol;
pub mod reader;
pub mod reducer;
pub mod render;
pub mod text;
pub mod view_model;
