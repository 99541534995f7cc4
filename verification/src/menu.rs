//! Menus: their model, their native rendering and their overlay.
pub mod context_laws;
pub mod context_menu;
pub mod events;
pub mod ids;
pub mod laws;
pub mod model;
pub mod navigation_laws;
pub mod overlay;
pub mod panel_laws;
pub mod panels;
pub mod pointer_laws;
pub mod selection;
pub mod state;
pub mod tree;
