//! Read and write lists of file paths on the system clipboard.
//!
//! The crate splits into a platform-agnostic core and a thin native shell.
//! The core — path normalization, the all-or-nothing write policy, the
//! best-effort read filter, and the interpretation of native clipboard
//! outcomes — is verified here. The native shell (the pasteboard calls and
//! the filesystem canonicalization they surround) lives outside the library
//! and hands the core plain values.

mod adapter;
mod error;
mod normalize;

pub use adapter::interpret_native_read;
pub use adapter::interpret_native_write;
pub use error::ClipboardError;
pub use error::FileOperation;
pub use normalize::all_resolved;
pub use normalize::canonicalize_all;
pub use normalize::canonicalize_and_filter;
pub use normalize::filtered;
pub use normalize::has_extended_prefix;
pub use normalize::lemma_filtered_agrees_when_all_resolved;
pub use normalize::lemma_round_trip;
pub use normalize::lemma_strip_idempotent;
pub use normalize::strip_prefix;
pub use normalize::strip_spec;
pub use normalize::stripped_all;
