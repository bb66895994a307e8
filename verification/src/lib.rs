//! Decoder for name-resolution protocol messages held in a fixed 512-byte buffer.
//!
//! The buffer offers bounds-checked reads, the field codecs map integer codes to
//! closed enumerations, the name decoder resolves compressed domain names, and
//! the message decoder assembles header and record sections.

pub mod domain;
pub mod error;
pub mod hex;
pub mod protocol;
pub mod text;
