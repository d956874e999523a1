//! Byte-pair-encoding tokenization: counting and encoding text into
//! model-specific token sequences.
//!
//! A caller names an encoding either by its canonical name (`cl100k_base`,
//! `r50k_base`, `p50k_base`, `p50k_edit`) or by a model name that resolves to
//! one; the library turns text into the ordered sequence of integer token ids
//! that the named encoding assigns to it, or reports why it cannot.

pub mod api;
pub mod engine;
pub mod error;
pub mod laws;
pub mod names;
pub mod strutil;
