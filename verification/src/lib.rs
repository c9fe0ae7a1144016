//! Resource-identity and metadata codec for the Glacier resource pipeline.
//!
//! The crate names resources by a content-derived 56-bit identifier, decodes
//! and encodes the fixed binary `.meta` sidecar record (including its
//! variable-length reference table), models the bit-packed reference-flag
//! byte in both of its on-disk encodings, and resolves identifiers back to
//! human-readable paths through a versioned hash catalogue plus a
//! runtime-discovered overflow cache.

pub mod game;
pub mod hash_list;
pub mod hex;
pub mod metadata;
pub mod reference_flags;
pub mod resource_type;
pub mod rpkg_tool;
pub mod runtime_id;
