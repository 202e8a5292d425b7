//! Verified core of a desktop tool that finds files carrying metadata
//! (EXIF, XMP, IPTC, GPS, ...) and strips it with ExifTool.
//!
//! The library holds the domain model, the stored forms of its records,
//! the rules of the directory scanner and of the cleaning worker, and the
//! state machine that drives the user interface. Everything that touches
//! the disk, a subprocess, a channel or the screen is left to the caller.

pub mod models;
pub mod text;
pub mod codec;
pub mod clock;
pub mod db;
pub mod scanner;
pub mod exiftool;
pub mod export;
pub mod messages;
pub mod app;
pub mod cleaner;
pub mod display;
pub mod platform;
pub mod transitions;
pub mod properties;
