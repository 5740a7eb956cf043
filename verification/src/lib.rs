//! Read-only decoder and path-traversal engine for an ext4-family
//! filesystem image.
//!
//! The engine parses the superblock, resolves block-group metadata,
//! decodes inode records, follows single-level extent mappings to locate
//! file data, and enumerates directory entries to resolve a path one
//! component at a time.  Every decoded structure is an immutable value
//! snapshot taken from a caller-supplied byte source; the engine never
//! mutates the source.

pub mod dir;
pub mod error;
pub mod extent;
pub mod group;
pub mod inode;
pub mod parse;
pub mod probes;
pub mod reader;
pub mod source;
pub mod superblock;
