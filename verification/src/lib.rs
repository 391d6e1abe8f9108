//! Verified core of a per-application volume mixer: which audio sessions are
//! listed, how each one is named, how application icons are cached and turned
//! into base64 PNG text, and which session a volume or mute change reaches.
//! The operating-system audio, process and icon APIs stay with the caller.

pub mod text;
pub mod greeting;
pub mod session;
pub mod icon_cache;
pub mod control;
pub mod pixels;
pub mod base64_text;
pub mod icon;
