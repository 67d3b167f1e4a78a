//! Document model, chunking, scoring and the retrieval engine.

pub mod chunking;
pub mod document;
pub mod embedding;
pub mod error;
pub mod memory_index;
pub mod rag;
pub mod score;
pub mod text;
pub mod vector_store;
