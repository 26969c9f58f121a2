//! Cross-command helpers: the output format switch and the rendering
//! decision for finished requests.

pub mod handle_response;
pub mod output;
