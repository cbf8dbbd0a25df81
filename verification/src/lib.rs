//! Generation of Rust bindings for the enumerations of a native component
//! library: resolving the members that are emitted, and emitting the type
//! with its conversions.

pub mod sequence;
pub mod text;
pub mod version;
pub mod naming;
pub mod model;
pub mod canonical;
pub mod resolve;
pub mod protocol;
pub mod flags;
pub mod emit;
pub mod enumeration;
pub mod select;
pub mod generate;
