//! Verified core of the Harper desktop overlay: the decisions and text
//! arithmetic behind highlighting, kept apart from the windowing, GPU and
//! operating-system plumbing that surrounds them.
pub mod app_search;
pub mod apply;
pub mod broker;
pub mod diagnostics;
pub mod dictionary;
pub mod display_name;
pub mod icon;
pub mod integration;
pub mod logging;
pub mod offsets;
pub mod order;
pub mod pacing;
pub mod popup;
pub mod rects;
pub mod startup;
pub mod supervisor;
pub mod text;
pub mod tray;
pub mod window_stability;
