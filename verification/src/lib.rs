//! Fetching and storing metadata of academic papers from arXiv, the IACR
//! Cryptology ePrint Archive, and Crossref (DOI).
//!
//! The library classifies a raw user input (a URL or a bare identifier) into a
//! source and a canonical identifier, maps each source's response records to
//! the common [`paper::Paper`] shape with defined fallback rules, and models
//! the save/lookup/search interface of the persistent store.

pub mod clients;
pub mod daemon;
pub mod database;
pub mod datetime;
pub mod errors;
pub mod format;
pub mod paper;
pub mod text;

pub use paper::{Author, Paper, Source};
