//! Conversion between standard-width and fullwidth characters, and detection
//! of fullwidth characters in text.

pub mod scalar;
pub mod text;
pub mod width;

pub use text::StrExt;
pub use width::CharExt;
