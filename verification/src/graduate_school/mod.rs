//! The graduate school site: its sections, article lists and entries.

pub mod sections;
pub mod articles;
pub mod entries;
