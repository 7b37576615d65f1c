//! A personal journal kept as an append-only file of JSON lines.
//!
//! Each line holds one entry: a UTC timestamp and the entry's text. The
//! library builds and reads those lines, selects the most recent entries
//! and renders them for display; the program around it does the file I/O.
pub mod digits;
pub mod entry;
pub mod journal;
pub mod text;
pub mod timestamp;
