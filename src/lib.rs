//! Tokenizers for natural-language text: Penn-Treebank-style word
//! tokenization, plus splitters on word and sentence boundaries, lines,
//! whitespace, blank lines and regular expressions.
pub mod brackets;
pub mod classes;
mod engine;
pub mod pattern;
pub mod rules;
pub mod simple;
pub mod text;
pub mod treebank;
pub mod whitespace;

pub use simple::{FullTokenizer, Tokenizer};
pub use text::process_str;
pub use treebank::StringTokenizer;
