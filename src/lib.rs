//! Normalisation of browser `User-Agent` strings into a small canonical
//! `{family, major, minor, patch}` tuple, used to pick a polyfill bundle.

pub mod text;
pub mod wrapper;
pub mod version;
pub mod family;
pub mod support;
pub mod shortcut;
pub mod pipeline;
pub mod laws;
pub mod route;
