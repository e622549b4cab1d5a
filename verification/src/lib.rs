//! Classification of text lines into a fixed taxonomy of string kinds,
//! with kind filters, a deduplicating store and a summary report.

pub mod aggregate;
pub mod detect;
pub mod engine;
pub mod filter;
pub mod heuristics;
pub mod patterns;
pub mod render;
pub mod taxonomy;
pub mod text;
