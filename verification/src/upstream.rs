//! The work that is done outside this crate.
//!
//! The service decides; the program around it talks to the embedding service
//! and to the vector store. A [`Call`] is a piece of such work, an
//! [`Outcome`] is what came of it.

use vstd::prelude::*;
use crate::embedding::{EmbedReply, EmbedReplyView, EmbeddingRequest, EmbeddingRequestView};
use crate::store::{
    CreateCollection, CreateCollectionView, Neighbor, SearchPoints, SearchPointsView,
    StoreFailure, UpsertPoints, UpsertPointsView,
};

verus! {

/// A request to one of the two services.
#[derive(Clone, Debug, PartialEq, Eq)]
pub enum Call {
    /// Delete the collection of this name, if there is one.
    DeleteCollection(String),
    CreateCollection(CreateCollection),
    Embed(EmbeddingRequest),
    Upsert(UpsertPoints),
    Search(SearchPoints),
}

/// A [`Call`] as contracts see it.
pub enum CallView {
    DeleteCollection(Seq<char>),
    CreateCollection(CreateCollectionView),
    Embed(EmbeddingRequestView),
    Upsert(UpsertPointsView),
    Search(SearchPointsView),
}

impl View for Call {
    type V = CallView;

    open spec fn view(&self) -> CallView {
        match *self {
            Call::DeleteCollection(name) => CallView::DeleteCollection(name@),
            Call::CreateCollection(order) => CallView::CreateCollection(order@),
            Call::Embed(request) => CallView::Embed(request@),
            Call::Upsert(order) => CallView::Upsert(order@),
            Call::Search(order) => CallView::Search(order@),
        }
    }
}

/// What came of a [`Call`].
#[derive(Debug, PartialEq, Eq)]
pub enum Outcome {
    /// The answer to [`Call::DeleteCollection`]: whether a collection was
    /// deleted, unless the call failed.
    Deleted(Result<bool, StoreFailure>),
    /// The answer to [`Call::CreateCollection`].
    Created(Result<(), StoreFailure>),
    /// The answer to [`Call::Embed`].
    Embedding(EmbedReply),
    /// The answer to [`Call::Upsert`].
    Upserted(Result<(), StoreFailure>),
    /// The answer to [`Call::Search`]: the points found, nearest first.
    Neighbors(Result<Vec<Neighbor>, StoreFailure>),
}

/// An [`Outcome`] as contracts see it.
pub enum OutcomeView {
    Deleted(Result<bool, StoreFailure>),
    Created(Result<(), StoreFailure>),
    Embedding(EmbedReplyView),
    Upserted(Result<(), StoreFailure>),
    Neighbors(Result<Seq<Neighbor>, StoreFailure>),
}

impl View for Outcome {
    type V = OutcomeView;

    open spec fn view(&self) -> OutcomeView {
        match *self {
            Outcome::Deleted(answer) => OutcomeView::Deleted(answer),
            Outcome::Created(answer) => OutcomeView::Created(answer),
            Outcome::Embedding(reply) => OutcomeView::Embedding(reply@),
            Outcome::Upserted(answer) => OutcomeView::Upserted(answer),
            Outcome::Neighbors(answer) => OutcomeView::Neighbors(
                match answer {
                    Ok(found) => Ok(found@),
                    Err(error) => Err(error),
                },
            ),
        }
    }
}

} // verus!
