//! Declaration items for OpenSCAD editor tooling.
//!
//! The crate models declarations found in a parsed source tree (modules,
//! functions, variables, keywords) and synthesizes the textual views that
//! editor tooling consumes: an insertable snippet, a signature label, and a
//! hover string.

pub mod config;
pub mod decimal;
pub mod flags;
pub mod item;
pub mod laws;
pub mod param;
pub mod syntax;

pub use decimal::dec_string;
