//! A terminal text viewer's core: key decoding, a read-only line buffer,
//! cursor and viewport bookkeeping, and composition of one screen frame.
pub mod ansi;
pub mod contents;
pub mod cursor;
pub mod input;
pub mod rows;
pub mod output;
pub mod editor;
