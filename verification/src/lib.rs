//! Bridge layer between a host runtime and the typst compilation engine.
//!
//! The crate models the data and the decisions that cross the host
//! boundary: byte buffers whose ownership moves exactly once, ticketed
//! result envelopes, a fingerprint-invalidated file cache, the routing
//! and clock rules of the engine-facing world, resolution of interned
//! spans into absolute file/line/column form, and a flat encoding of
//! parse trees. Host I/O, the engine itself and serialization of engine
//! values stay outside; this library states and proves what happens to
//! every value that passes through.

pub mod buffer;
pub mod cache;
pub mod compile;
pub mod envelope;
pub mod exception;
pub mod extended_info;
pub mod fingerprint;
pub mod fmt;
pub mod hash;
pub mod label;
pub mod query;
pub mod source;
pub mod stdlib;
pub mod syntax;
pub mod world;
