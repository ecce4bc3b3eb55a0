//! Focus handling and viewport windowing for a terminal log browser.

pub mod jview_config;
pub mod jview_input;
pub mod jview_logs;
pub mod jview_screen;
pub mod jview_search;
pub mod jview_selector;
pub mod jview_style;
pub mod jview_text;
pub mod jview_viewport;
