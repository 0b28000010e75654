//! Runtime format-string engine: parse a template once, then render it against
//! different sets of named and positional values.
pub mod arguments;
pub mod builder;
pub mod dyn_fmt;
pub mod error;
pub mod form;
pub mod key;
pub mod laws;
pub mod piece;
pub mod render;
pub mod source;
pub mod specifier;
pub mod template;
pub mod text;
pub mod value;

pub use arguments::Arguments;
pub use builder::{ArgumentsBuilder, UncheckedArgumentsBuilder};
pub use dyn_fmt::{DynFmt, ToTemplate};
pub use error::Error;
pub use form::{ArgumentTypeRequirements, Type};
pub use key::{ArgumentKey, KeyModel, ToArgumentKey, TypedArgumentKey};
pub use piece::Piece;
pub use render::{scientific_field, FieldOptions, TypedValue};
pub use specifier::{Alignment, Precision, Specifier, Width};
pub use template::Template;
pub use value::{ArgumentValue, Value};
