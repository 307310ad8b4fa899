//! Parser and code generator for a protobuf-like schema language with
//! publish/subscribe channel metadata.

pub mod ast;
pub mod text;
pub mod classify;
pub mod builder;
pub mod pattern;
pub mod parser;
pub mod generator;
pub mod theorems;
