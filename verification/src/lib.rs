//! Library for the s9pk application package format: building the ordered
//! entry layout of a package archive and verifying an untrusted archive's
//! entry stream, entry by entry, against its manifest.

pub mod commands;
pub mod config;
pub mod errors;
pub mod ident;
pub mod image;
pub mod manifest;
pub mod packer;
pub mod paths;
pub mod stream;
pub mod text;
pub mod version;
