//! Core engine for validating JSON documents against sets of JSON Schema
//! documents.
//!
//! A caller supplies an ordered set of schema documents, a fallback base
//! identifier, and (for validation requests) an instance document. The
//! library assigns each document a canonical identifier, registers the set
//! with an isolated `boon` compiler whose resource loader refuses all
//! external retrieval, compiles the requested target, and runs instance
//! validation against the compiled result. A session-scoped selector holds
//! the default specification draft used for documents that do not declare
//! their own `$schema`.

pub mod api;
pub mod compiler;
pub mod document;
pub mod draft;
pub mod ident;
pub mod validator;

pub use api::matches_schema;
pub use api::schema_is_valid;
pub use api::schema_set_is_valid;
pub use api::schema_set_validates;
pub use api::schema_validates;
pub use compiler::CompileFailure;
pub use compiler::compiles;
pub use compiler::new_compiler;
pub use document::SchemaDocument;
pub use draft::DraftVersion;
pub use draft::DraftSelector;
pub use ident::decimal_string;
pub use validator::ValidationOutcome;
pub use validator::validate;
pub use validator::validate_outcome;
