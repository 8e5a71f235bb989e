//! A minimal error-handling foundation: a structured error value carrying a
//! symbolic category and an optional message, terse constructors for it, and
//! discoverable unwrap helpers that make deliberate unchecked extractions
//! auditable.

pub mod error;
pub mod explain;
pub mod interpolate;

pub use error::Error;
pub use error::ErrorVariant;
pub use error::Fallible;
pub use explain::ExplainUnwrap;
