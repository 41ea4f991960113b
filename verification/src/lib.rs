//! Core of a build-order overlay companion: the shared application state,
//! its validation rules, crash-consistent persistence encoding, and the
//! data-driven hotkey dispatch derived from that state.
pub mod codec;
pub mod hotkeys;
pub mod json;
pub mod model;
pub mod platform;
pub mod store;
pub mod text;
pub mod validate;
