//! Localized user-interface strings.
//!
//! A fixed catalog holds the text of every message in every supported
//! language. A language is selected once, from an ordered list of preferred
//! language tags, and every later lookup reads the catalog's column of that
//! language.

pub mod ascii;
pub mod catalog;
pub mod ids;
pub mod laws;
pub mod select;

pub use catalog::{text, CATALOG};
pub use ids::{LangId, LocId, LANG_COUNT, LOC_COUNT};
pub use select::{init, loc, match_tag, Localization, LANG_MAP, LANG_MAP_LEN};
