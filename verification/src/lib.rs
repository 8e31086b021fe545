//! A minimal modal (command/insert) text-editing engine: a multi-line
//! buffer with a cursor, a scrolled viewport, a key-to-mutation state
//! machine, and a renderer that decides the screen contents.
//!
//! The engine itself performs no terminal I/O: a thin driver reads key
//! events, hands them to [`editor::Editor::handle_key`], and paints the
//! [`render::Screen`] that [`editor::Editor::render`] produces.

pub mod document;
pub mod editor;
pub mod render;
pub mod state;
