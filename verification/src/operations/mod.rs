//! The operations behind the tools.
pub mod radio;
