//! A masked (password-style) terminal prompt: an editable text buffer, an
//! optional validator run on submission, and a renderer that never shows
//! the typed characters.
pub mod cursor;
pub mod password;
pub mod theme;
pub mod validate;
