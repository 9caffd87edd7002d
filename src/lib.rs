//! Reflection of a type library into IDL text, and the browsing state over it.
//!
//! `model` holds a library as plain values; `idl` resolves types and extracts members;
//! `attrs` collects attribute blocks; `emit` writes IDL text; `library` answers per-type
//! queries; `browse` is the interactive browsing state; `docs` and `html` read help archives.
pub mod attrs;
pub mod browse;
pub mod docs;
pub mod emit;
pub mod html;
pub mod idl;
pub mod library;
pub mod model;
pub mod text;
