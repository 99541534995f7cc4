//! Verified decision logic for menus and virtual scrolling.
pub mod channel;
pub mod event;
pub mod geometry;
pub mod geometry_laws;
pub mod mac_menu;
pub mod menu;
pub mod scalar;
pub mod scrolling;
pub mod text;
pub mod time;
pub mod url_handler;
