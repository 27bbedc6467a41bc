//! A typed model of the Dock property list: its entries, its optional
//! sections, and the positional insertion of new entries into a section.

pub mod dock;
pub mod entry;
pub mod error;
pub mod text;
