#![verifier::loop_isolation(false)]

pub mod error;
pub mod strutil;
pub mod xml;
pub mod decl;
pub mod records;
pub mod decode;
pub mod parser;
pub mod tags;
pub mod names;
pub mod fields;
pub mod bitmask;
pub mod device;
