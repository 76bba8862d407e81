//! Core of a mod-loader installer: loader selection, coordinate resolution,
//! library filtering, download scheduling, launch-bundle manifests and the
//! launcher's profile registry.

pub mod loaders;
pub mod text;
pub mod error;
pub mod artifact;
pub mod manifest;
pub mod download;
pub mod utils;
