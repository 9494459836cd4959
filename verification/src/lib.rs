//! Reading and writing symbol libraries as token trees.
//!
//! A symbol library is given as a tree of tokens: symbols, quoted strings,
//! numbers and nested lists ([`sexpr`]). This crate reads such a tree into a
//! typed model and writes the model back as a tree, so that what was read is
//! written exactly as it was spelled, older spellings included.
//!
//! There are two ways of reading: through a cursor that owns its tokens
//! ([`convert`], [`symbol_library`]) and through one that borrows them
//! ([`convert_ref`], [`symbol_library_fast`]). Both follow one grammar,
//! which [`cursor`] and the entities themselves state as mathematics.
//! [`round_trip`] proves that what is written is read back, and
//! [`write_back`] that a legal document that is read is written back as it
//! was.

pub mod common;
pub mod convert;
pub mod convert_ref;
pub mod cursor;
pub mod error;
pub mod number;
pub mod round_trip;
pub mod sexpr;
pub mod string_interner;
pub mod symbol_library;
pub mod symbol_library_fast;
pub mod text;
pub mod write_back;

pub use error::KiCadParseError;
pub use sexpr::SexprKind;
