//! Selection of completion candidates in type position.
//!
//! Given the already-parsed shape of the path under an editor cursor and a
//! read-only view of the semantic model, this crate decides which candidates
//! are valid there: names from scopes filtered for type position, associated
//! items reached through a qualifier, and a single best-effort inferred-type
//! suggestion.  It selects only; parsing, name resolution, type inference,
//! ranking and rendering all live elsewhere and are consumed as data.

pub mod context;
pub mod filter;
pub mod inference;
pub mod model;
pub mod resolver;
pub mod sink;
