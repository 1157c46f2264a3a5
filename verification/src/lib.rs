//! Title codec of a self-describing, length-prefixed binary interchange format.
//!
//! Every encoded item starts with a *title*: one prefix byte whose upper three
//! bits hold the item's [`Major`] type and whose lower five bits hold the header
//! code of its [`Minor`], followed by the zero, one, two, four or eight
//! big-endian bytes that the minor declares.

pub mod convert;
pub mod error;
pub mod io;
pub mod laws;
pub mod major;
pub mod minor;
pub mod title;
pub mod value;

pub use error::{DecodeError, InvalidError};
pub use io::{EndOfFile, Read, Write};
pub use major::Major;
pub use minor::{FloatBits, Immediate, Minor};
pub use title::Title;
pub use value::Value;
