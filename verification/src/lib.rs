//! Verified core of a project-scaffolding tool.
//!
//! Given a source-forge "tree" URL naming a subdirectory of a repository at a
//! ref, the tool materializes that subdirectory as a new local project. This
//! crate holds the decision logic of that pipeline — URL parsing, cache-key
//! derivation, archive-fetch sequencing, git command planning, and the
//! materialization rules — each with a proved contract. The surrounding
//! binary performs the actual network, subprocess and filesystem work and
//! feeds the results back in as plain values.
pub mod cachekey;
pub mod error;
pub mod fetch;
pub mod gitplan;
pub mod materialize;
pub mod parse;
pub mod text;
