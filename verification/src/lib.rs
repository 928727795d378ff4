//! Legacy-compatible case folding: a fixed upper-to-lower codepoint mapping
//! taken from an old Unicode revision, and the pure operations built on it
//! (single-character fold, string fold, case-insensitive equality and
//! case-insensitive prefix stripping).
//!
//! The mapping is deliberately frozen: no context-sensitive casing, no
//! one-to-many expansions, and no characters assigned after the revision the
//! table was taken from.

pub mod fold;
pub mod records;
pub mod table;

pub use crate::fold::dbx_eq_ignore_case;
pub use crate::fold::dbx_lowercase;
pub use crate::fold::dbx_str_lowercase;
pub use crate::fold::dbx_strip_prefix_ignore_case;
pub use crate::fold::map_pairs;
pub use crate::records::parse_record;
pub use crate::records::RecordError;
