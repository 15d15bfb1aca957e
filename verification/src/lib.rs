//! A terminal text viewer core: a document of rows, a cursor/viewport
//! state machine, and a renderer that produces the exact lines to paint.
//!
//! Terminal I/O (raw mode, key decoding, escape sequences) lives outside
//! this library; the core works on plain values and is fully verified.

pub mod document;
pub mod editor;
pub mod row;
pub mod terminal;
pub mod text;

pub use document::Document;
pub use editor::Command;
pub use editor::Editor;
pub use editor::NavKey;
pub use editor::Position;
pub use row::Row;
pub use terminal::Size;
pub use terminal::Terminal;
