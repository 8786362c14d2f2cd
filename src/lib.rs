//! Translation of keystroke-injection scripts, one instruction per line, into
//! the source of a keyboard-emulating microcontroller program.
pub mod keycodes;
pub mod laws;
pub mod text;
pub mod translate;

pub use keycodes::{get_keycode, lookup};
pub use translate::{escape_string_chars, translate, translate_script};
