//! The options of the service and their defaults.

use vstd::prelude::*;
use crate::score::Score;

verus! {

/// How the vector store measures the closeness of two vectors.
#[derive(Clone, Copy, Debug, PartialEq, Eq, Structural)]
pub enum Distance {
    /// Cosine similarity: higher means closer, within `[-1, 1]`.
    Cosine,
}

/// The bit pattern of the default threshold, the binary32 number nearest to 0.70.
pub const DEFAULT_THRESHOLD_BITS: u32 = 0x3F33_3333;

/// The dimension of the default embedding model's vectors.
pub const DEFAULT_VECTOR_SIZE: u64 = 1024;

/// Everything the service can be told.
#[derive(Clone, Debug, PartialEq, Eq)]
pub struct Config {
    /// The collection that holds the baseline.
    pub collection_name: String,
    /// The model the embedding service is asked for.
    pub embedding_model: String,
    /// The number of components of every embedding.
    pub vector_size: u64,
    /// The distance the collection is created with.
    pub distance: Distance,
    /// The similarity under which a log line is anomalous.
    pub anomaly_threshold: Score,
    /// Where embedding requests are posted.
    pub embedding_endpoint: String,
    /// Where the vector store listens.
    pub vector_store_endpoint: String,
    /// Where the service itself listens.
    pub bind_address: String,
}

/// A [`Config`] as contracts see it.
pub struct ConfigView {
    pub collection_name: Seq<char>,
    pub embedding_model: Seq<char>,
    pub vector_size: u64,
    pub distance: Distance,
    pub anomaly_threshold: Score,
    pub embedding_endpoint: Seq<char>,
    pub vector_store_endpoint: Seq<char>,
    pub bind_address: Seq<char>,
}

impl View for Config {
    type V = ConfigView;

    open spec fn view(&self) -> ConfigView {
        ConfigView {
            collection_name: self.collection_name@,
            embedding_model: self.embedding_model@,
            vector_size: self.vector_size,
            distance: self.distance,
            anomaly_threshold: self.anomaly_threshold,
            embedding_endpoint: self.embedding_endpoint@,
            vector_store_endpoint: self.vector_store_endpoint@,
            bind_address: self.bind_address@,
        }
    }
}

/// The options of a service that was told nothing.
pub open spec fn default_config() -> ConfigView {
    ConfigView {
        collection_name: "normal_server_logs_axum"@,
        embedding_model: "bge-m3"@,
        vector_size: DEFAULT_VECTOR_SIZE,
        distance: Distance::Cosine,
        anomaly_threshold: Score { bits: DEFAULT_THRESHOLD_BITS },
        embedding_endpoint: "http://localhost:11434/api/embeddings"@,
        vector_store_endpoint: "http://localhost:6334"@,
        bind_address: "127.0.0.1:8080"@,
    }
}

impl Default for Config {
    fn default() -> (config: Config)
        ensures
            config@ == default_config(),
    {
        Config {
            collection_name: "normal_server_logs_axum".to_owned(),
            embedding_model: "bge-m3".to_owned(),
            vector_size: DEFAULT_VECTOR_SIZE,
            distance: Distance::Cosine,
            anomaly_threshold: Score::from_bits(DEFAULT_THRESHOLD_BITS),
            embedding_endpoint: "http://localhost:11434/api/embeddings".to_owned(),
            vector_store_endpoint: "http://localhost:6334".to_owned(),
            bind_address: "127.0.0.1:8080".to_owned(),
        }
    }
}

} // verus!
