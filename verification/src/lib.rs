//! Live output-token counting for the running status row, and the
//! decisions behind bounded tool previews.

pub mod bottom_pane;
pub mod decimal;
pub mod live_output_tokens;
pub mod tool_preview;
