//! Translates an in-memory OpenAPI document into a language-agnostic
//! intermediate representation: data models and network requests suitable
//! for downstream code generation.
//!
//! The document is held as a closed, tagged representation
//! ([`document::ApiDocument`]); the assembler collects array aliases,
//! extracts one model per non-array component schema and one request per
//! declared operation, and returns an [`ir::Project`]. Every extractor's
//! behaviour is stated against spec-level counterparts of the data types,
//! and the properties relating them are proved in [`laws`].

pub mod assemble;
pub mod document;
pub mod error;
pub mod ir;
pub mod laws;
pub mod resolve;
pub mod text;
