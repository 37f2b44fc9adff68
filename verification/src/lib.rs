//! Log-anomaly detection by nearest-neighbour search in an embedding space.
//!
//! A log line is normal when its closest neighbour among the embedded
//! baseline lines is similar enough. This crate holds the decisions of such a
//! service: what to ask of the embedding model and of the vector store, in
//! which order, and what to make of each answer. The calls themselves are
//! made by the program around it.

pub mod baseline;
pub mod config;
pub mod detector;
pub mod embedding;
pub mod handler;
pub mod json;
pub mod model;
pub mod score;
pub mod store;
pub mod text;
pub mod upstream;
