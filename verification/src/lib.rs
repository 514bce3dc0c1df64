//! The skin of a terminal application: for each kind of text that it prints,
//! the escape sequences that set the foreground and the background color.
pub mod color;
pub mod laws;
pub mod role;
pub mod skin;

pub use color::Color;
pub use role::{Role, Side};
pub use skin::{Skin, SkinEntry};
