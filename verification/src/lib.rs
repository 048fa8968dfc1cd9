//! A synonym dictionary for query expansion, kept in two key-value regions:
//! one keyed by the folded spelling of a word, one keyed by its exact spelling.
//!
//! The library decides; it never touches a store. Each operation says which
//! request comes next and, once the store has answered, what the caller gets.

pub mod error;
pub mod codec;
pub mod exchange;
pub mod fold;
pub mod laws;
pub mod synonyms;
