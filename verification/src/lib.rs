//! A small verified library around growable sequences and UTF-8 text.
//!
//! The core is a dynamic sequence container with a generalized range
//! splice ([`buffer::SequenceBuffer`]) and a decoding iterator over a
//! UTF-8 byte buffer. A lexicographic comparator and a sort built on
//! it, a few small record types and numeric helpers round the crate
//! out.

pub mod buffer;
pub mod exam;
pub mod hex;
pub mod options;
pub mod order;
pub mod person;
pub mod todo;
pub mod utf8;
