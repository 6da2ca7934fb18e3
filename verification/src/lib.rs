//! Decoders for the byte streams that the Docker Engine API delivers.
//!
//! The core of the crate is two incremental byte-stream decoders. The TTY
//! decoder ([`tty`]) demultiplexes the stream framing that `exec` and
//! `attach` responses use: an 8-byte header (stream tag, three reserved
//! bytes, a big-endian 32-bit payload length) followed by the payload. The
//! line decoder ([`lines`]) splits an arbitrarily chunked byte stream into
//! newline-delimited records, as the `/events`, `/stats` and progress
//! endpoints emit them. Both tolerate chunk boundaries falling anywhere,
//! buffer partial items, and report truncation instead of guessing.
//!
//! The [`models`] and [`rep`] modules hold the plain data types of the
//! Docker API surface that the decoders' callers exchange.

pub mod chunks;
pub mod errors;
pub mod lines;
pub mod models;
pub mod rep;
pub mod tty;
