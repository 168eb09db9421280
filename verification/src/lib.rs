//! Emitter for ReasonML type declarations.
//!
//! Turns a small intermediate representation of declared types (structs,
//! enums, type aliases, integer constants) into ReasonML source text.

#![verifier::loop_isolation(false)]

use vstd::prelude::*;

pub mod ir;
pub mod laws;
pub mod naming;
pub mod numtext;
pub mod reasonml;
pub mod typefmt;
