//! Applies a font (and, optionally, an orthographic-ligature toggle) to one
//! or more desktop applications in a single run.
//!
//! The library holds the validated data types (a font name, the requested
//! setting, the known applications), the dispatch layer that routes a setting
//! to the adapter of each requested application, and the decision core of the
//! store-backed terminal adapter: resolving the active profile out of a dump
//! of the store, extracting the current font declaration, merging the
//! requested change, and serializing the text to feed back to the store.
//! The surrounding program performs the process and file interaction and
//! hands the observed results in as plain values.

pub mod app;
pub mod ext;
pub mod font;
pub mod setting;
pub mod shared;
pub mod tilix;
