//! Compiler core for a declarative GraphQL-style interface: it parses and
//! merges structured annotation metadata, builds a validated semantic model
//! (`Definition`) out of an interface declaration, selects one of two backend
//! representations (a closed tagged union over the known implementers, or an
//! open dynamic-dispatch alias), resolves a downcast strategy per implementer,
//! and emits structured plans for the artifacts the schema executor consumes:
//! type metadata, synchronous and asynchronous field resolution, implementer
//! narrowing, and conformance markers.

pub mod annot;
pub mod ast;
pub mod definition;
pub mod builder;
pub mod emit;
pub mod errors;
pub mod field_meta;
pub mod impl_meta;
pub mod laws;
pub mod meta;
pub mod repr;
pub mod strutil;
