//! Consistency core for a pair of derived read-optimized stores: a search
//! index and a relational mirror of an external media-management system.
//!
//! Two small subsystems carry the crash-consistency guarantees of the whole
//! sync pipeline:
//!
//! - [`meta`]: the search index's self-describing meta record (schema version
//!   plus dirty flag) and the pure decision whether the index must be rebuilt.
//! - [`status`]: the harvest watermark, a singleton row recording how far the
//!   incremental harvest has progressed.
//!
//! [`realm`] holds the pure parts of the page-tree API model that sit on top
//! of the mirrored data.

pub mod meta;
pub mod realm;
pub mod status;
