//! Verified core of the Folium PDF viewer: the state machines and the
//! layout, menu and text rules that the macOS front end drives.

pub mod decimal;
pub mod pdf_view;
pub mod toolbar;
pub mod app;
pub mod laws;
pub mod layout;
pub mod ui;
pub mod window;
