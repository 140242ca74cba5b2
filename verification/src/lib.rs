//! Verified core of a touchscreen WiFi settings panel: a text-input field with
//! cursor and selection handling over UTF-8 text, a touch gesture classifier,
//! horizontal scroll management, and input-method (IME) synchronization state.
//!
//! Rendering, Wayland dispatch, DBus access and text shaping are external
//! collaborators; the library works on the plain values they produce.

pub mod config;
pub mod dbus;
pub mod geometry;
pub mod ime;
pub mod laws;
pub mod text_field;
pub mod unicode;
