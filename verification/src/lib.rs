//! Classification of filesystem entries: a readable label for a file's
//! extension, a coarse content category, and the record that describes one
//! path or one directory.

pub mod category;
pub mod entry;
pub mod extension;
pub mod label;
pub mod listing;
pub mod mime;
pub mod strings;
pub mod table;
pub mod text;
