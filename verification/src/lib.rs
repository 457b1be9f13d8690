//! Text statistics for Markdown documents: the words, headings and links of a
//! text, its reading time and its readability, the report that gathers the
//! records of many documents, and the rule by which documents are found.

pub mod classify;
pub mod decimal;
pub mod discovery;
pub mod headings;
pub mod links;
pub mod readability;
pub mod report;
pub mod sample;
pub mod stats;
pub mod text;
pub mod words;
