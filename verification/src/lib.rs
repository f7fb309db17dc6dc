//! A verified decoder and encoder for a legacy palette-based image container.
//!
//! The decoder walks an in-memory byte buffer through a bounds-checked
//! cursor, classifies each block by its leading tag byte, and assembles a
//! frame-structured document.  The per-frame pixel-index stream is produced
//! by an external compression codec: the decoder pauses at each frame's
//! compressed data and resumes once the caller supplies the decoded palette
//! indices, so every structural decision stays inside the verified library.

pub mod bits;
pub mod cursor;
pub mod decoder;
pub mod encoder;
pub mod error;
pub mod types;
