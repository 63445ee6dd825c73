//! Classification and presentation core for auditing a dependency lockfile
//! against a database of security advisories.
//!
//! The crate decides which findings count as denied failures versus allowed
//! warnings under a configurable policy, renders the inverse-dependency path
//! that pulled in each vulnerable package (deduplicated per presenter
//! lifetime), determines process-exit semantics, and partitions a crate's
//! published versions into vulnerable and unaffected sets against an
//! advisory's version-range predicate.

pub mod config;
pub mod lines;
pub mod osv;
pub mod presenter;
pub mod report;
pub mod text;
pub mod tree;
pub mod versions;
