//! Packaging pipeline that turns a web address into per-platform desktop bundles.
pub mod bundle;
pub mod error;
pub mod icon;
pub mod naming;
pub mod platform;
pub mod settings;
pub mod snapshot;
pub mod text;
