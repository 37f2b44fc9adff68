//! The embedding service, seen from this side of the wire.
//!
//! An embedding is a vector of binary32 numbers. The service neither reads
//! nor changes its components, so they are kept as bit patterns, as
//! [`crate::score::Score`] keeps a similarity.

use vstd::prelude::*;
use crate::config::{Config, ConfigView};

verus! {

/// Why no embedding was obtained.
#[derive(Clone, Copy, Debug, PartialEq, Eq, Structural)]
pub enum EmbeddingError {
    /// The service could not be reached.
    Unreachable,
    /// The service answered with a failure status, or not with the JSON expected.
    Protocol,
    /// The vector has another length than the configured one.
    Shape,
}

/// A vector of the configured dimension; each component is the bit pattern of
/// a binary32 number.
#[derive(Clone, Debug, PartialEq, Eq)]
pub struct Embedding {
    pub components: Vec<u32>,
}

impl View for Embedding {
    type V = Seq<u32>;

    open spec fn view(&self) -> Seq<u32> {
        self.components@
    }
}

/// A request to the embedding service: the JSON object with the members
/// `model` and `prompt` is posted to `endpoint`.
#[derive(Clone, Debug, PartialEq, Eq)]
pub struct EmbeddingRequest {
    pub endpoint: String,
    pub model: String,
    pub prompt: String,
}

/// An [`EmbeddingRequest`] as contracts see it.
pub struct EmbeddingRequestView {
    pub endpoint: Seq<char>,
    pub model: Seq<char>,
    pub prompt: Seq<char>,
}

impl View for EmbeddingRequest {
    type V = EmbeddingRequestView;

    open spec fn view(&self) -> EmbeddingRequestView {
        EmbeddingRequestView { endpoint: self.endpoint@, model: self.model@, prompt: self.prompt@ }
    }
}

/// What came of posting an [`EmbeddingRequest`].
#[derive(Clone, Debug, PartialEq, Eq)]
pub enum EmbedReply {
    /// No answer arrived.
    Unreachable,
    /// An answer arrived. `embedding` holds the member `embedding` of its
    /// body, where the body is a JSON object with such an array of numbers.
    Answered { status: u16, embedding: Option<Vec<u32>> },
}

/// An [`EmbedReply`] as contracts see it.
pub enum EmbedReplyView {
    Unreachable,
    Answered { status: u16, embedding: Option<Seq<u32>> },
}

impl View for EmbedReply {
    type V = EmbedReplyView;

    open spec fn view(&self) -> EmbedReplyView {
        match *self {
            EmbedReply::Unreachable => EmbedReplyView::Unreachable,
            EmbedReply::Answered { status, embedding } => EmbedReplyView::Answered {
                status,
                embedding: match embedding {
                    Some(components) => Some(components@),
                    None => None,
                },
            },
        }
    }
}

/// The request that asks the configured model for the embedding of `text`.
pub open spec fn embed_call(config: ConfigView, text: Seq<char>) -> EmbeddingRequestView {
    EmbeddingRequestView {
        endpoint: config.embedding_endpoint,
        model: config.embedding_model,
        prompt: text,
    }
}

/// Whether an HTTP status reports success.
pub open spec fn is_success(status: u16) -> bool {
    200 <= status <= 299
}

/// What a reply amounts to: the vector it carries, or the kind of failure.
pub open spec fn embedding_of(config: ConfigView, reply: EmbedReplyView) -> Result<
    Seq<u32>,
    EmbeddingError,
> {
    match reply {
        EmbedReplyView::Unreachable => Err(EmbeddingError::Unreachable),
        EmbedReplyView::Answered { status, embedding } => match embedding {
            Some(components) if is_success(status) => if components.len() == config.vector_size {
                Ok(components)
            } else {
                Err(EmbeddingError::Shape)
            },
            _ => Err(EmbeddingError::Protocol),
        },
    }
}

impl Embedding {
    /// The number of components.
    pub fn dimension(&self) -> (n: usize)
        ensures
            n == self@.len(),
    {
        self.components.len()
    }
}

/// Builds the request for the embedding of `text`.
pub fn embedding_request(config: &Config, text: &str) -> (request: EmbeddingRequest)
    ensures
        request@ == embed_call(config@, text@),
{
    EmbeddingRequest {
        endpoint: config.embedding_endpoint.clone(),
        model: config.embedding_model.clone(),
        prompt: text.to_owned(),
    }
}

/// Reads a reply of the embedding service.
///
/// A vector is accepted only from an answer with a success status, and only
/// with exactly `config.vector_size` components.
pub fn embedding_from_reply(config: &Config, reply: EmbedReply) -> (result: Result<
    Embedding,
    EmbeddingError,
>)
    ensures
        match embedding_of(config@, reply@) {
            Ok(components) => result is Ok && result->Ok_0@ == components,
            Err(error) => result == Err::<Embedding, EmbeddingError>(error),
        },
        result matches Ok(embedding) ==> embedding@.len() == config.vector_size,
{
    match reply {
        EmbedReply::Unreachable => Err(EmbeddingError::Unreachable),
        EmbedReply::Answered { status, embedding } => {
            if status < 200 || status > 299 {
                return Err(EmbeddingError::Protocol);
            }
            match embedding {
                None => Err(EmbeddingError::Protocol),
                Some(components) => {
                    if components.len() as u64 == config.vector_size {
                        Ok(Embedding { components })
                    } else {
                        Err(EmbeddingError::Shape)
                    }
                },
            }
        },
    }
}

/// Every vector that is accepted has the configured number of components.
pub proof fn law_dimension(config: ConfigView, reply: EmbedReplyView)
    ensures
        embedding_of(config, reply) matches Ok(components) ==> components.len()
            == config.vector_size,
{
}

} // verus!
