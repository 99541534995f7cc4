//! Scrolling content that is larger than its viewport.
pub mod scrollable;
pub mod virtual_scrollable;
