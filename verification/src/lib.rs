//! Core of a hex editor: a byte buffer with nibble-granular cursor
//! addressing, reversible single-byte edits with undo/redo history, a
//! structural dirty flag, literal byte-pattern search, and the integer
//! solver that turns a viewport width into a bytes-per-row count.
//!
//! Everything here is pure, single-threaded logic over plain values; file
//! I/O and the widget layer live outside and talk to this crate through
//! byte vectors and integer metrics.

pub mod buffer;
pub mod config;
pub mod cursor;
pub mod layout;
pub mod model;
pub mod pattern;
pub mod search;
pub mod session;
pub mod ui;
pub mod undo;
