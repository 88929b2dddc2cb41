//! An owned, growable byte buffer whose content is always followed by a
//! zero byte, so that it can be read as text, as raw bytes, or as a
//! terminated string without copying.

pub mod growth;
pub mod model;
pub mod buffer;
pub mod text;
pub mod compare;
pub mod laws;

pub use buffer::Rhstring;
pub use text::InvalidEncoding;
