//! The vector store, seen from this side of the wire: what it is asked and
//! what it answers.

use vstd::prelude::*;
use crate::config::Distance;
use crate::embedding::Embedding;
use crate::score::Score;

verus! {

/// Why the vector store did not do what it was asked.
#[derive(Clone, Copy, Debug, PartialEq, Eq, Structural)]
pub enum StoreError {
    /// The store could not be reached.
    Unreachable,
    /// The store refused the request: an unknown collection, a vector of the
    /// wrong dimension.
    Rejected,
    /// The store failed on its side.
    Internal,
}

/// What the client of the vector store reports when a call fails.
#[derive(Clone, Copy, Debug, PartialEq, Eq, Structural)]
pub enum StoreFailure {
    /// No answer arrived.
    NoAnswer,
    /// The store answered with this gRPC status code.
    Status(u32),
}

/// The gRPC status code of an invalid argument.
pub const INVALID_ARGUMENT: u32 = 3;

/// The gRPC status code of a call that took too long.
pub const DEADLINE_EXCEEDED: u32 = 4;

/// The gRPC status code of something that is not there.
pub const NOT_FOUND: u32 = 5;

/// The gRPC status code of something that is there already.
pub const ALREADY_EXISTS: u32 = 6;

/// The gRPC status code of a caller without the permission.
pub const PERMISSION_DENIED: u32 = 7;

/// The gRPC status code of a system that is not in the state the call needs.
pub const FAILED_PRECONDITION: u32 = 9;

/// The gRPC status code of a value out of its range.
pub const OUT_OF_RANGE: u32 = 11;

/// The gRPC status code of a failure inside the service.
pub const INTERNAL: u32 = 13;

/// The gRPC status code of a service that is not available.
pub const UNAVAILABLE: u32 = 14;

/// The gRPC status code of a caller that is not known.
pub const UNAUTHENTICATED: u32 = 16;

/// Whether a status code says that the store looked at the request and
/// refused it.
pub open spec fn is_refusal(code: u32) -> bool {
    ||| code == INVALID_ARGUMENT
    ||| code == NOT_FOUND
    ||| code == ALREADY_EXISTS
    ||| code == PERMISSION_DENIED
    ||| code == FAILED_PRECONDITION
    ||| code == OUT_OF_RANGE
    ||| code == UNAUTHENTICATED
}

/// The kind of a failure. A store that gives no answer, is not available or
/// takes too long is unreachable; every status that is no refusal is a
/// failure on the store's side.
pub open spec fn store_error_of(failure: StoreFailure) -> StoreError {
    match failure {
        StoreFailure::NoAnswer => StoreError::Unreachable,
        StoreFailure::Status(code) => if code == UNAVAILABLE || code == DEADLINE_EXCEEDED {
            StoreError::Unreachable
        } else if is_refusal(code) {
            StoreError::Rejected
        } else {
            StoreError::Internal
        },
    }
}

/// The kind of a failure.
pub fn store_error(failure: StoreFailure) -> (error: StoreError)
    ensures
        error == store_error_of(failure),
{
    match failure {
        StoreFailure::NoAnswer => StoreError::Unreachable,
        StoreFailure::Status(code) => {
            if code == UNAVAILABLE || code == DEADLINE_EXCEEDED {
                StoreError::Unreachable
            } else if code == INVALID_ARGUMENT || code == NOT_FOUND || code == ALREADY_EXISTS
                || code == PERMISSION_DENIED || code == FAILED_PRECONDITION || code
                == OUT_OF_RANGE || code == UNAUTHENTICATED {
                StoreError::Rejected
            } else {
                StoreError::Internal
            }
        },
    }
}

/// What is stored beside a vector: the log line it was computed from.
#[derive(Clone, Debug, PartialEq, Eq)]
pub struct Payload {
    pub log: String,
}

/// A [`Payload`] as contracts see it.
pub struct PayloadView {
    pub log: Seq<char>,
}

impl View for Payload {
    type V = PayloadView;

    open spec fn view(&self) -> PayloadView {
        PayloadView { log: self.log@ }
    }
}

/// One line of the baseline, ready to be stored.
#[derive(Clone, Debug, PartialEq, Eq)]
pub struct BaselinePoint {
    pub id: u64,
    pub vector: Embedding,
    pub payload: Payload,
}

/// A [`BaselinePoint`] as contracts see it.
pub struct PointView {
    pub id: u64,
    pub vector: Seq<u32>,
    pub payload: PayloadView,
}

impl View for BaselinePoint {
    type V = PointView;

    open spec fn view(&self) -> PointView {
        PointView { id: self.id, vector: self.vector@, payload: self.payload@ }
    }
}

/// The views of a sequence of points, in order.
pub open spec fn points_view(points: Seq<BaselinePoint>) -> Seq<PointView> {
    Seq::new(points.len(), |i: int| points[i]@)
}

/// A stored point that a search found, with its similarity to the query.
#[derive(Clone, Debug, PartialEq, Eq)]
pub struct Neighbor {
    pub id: u64,
    pub score: Score,
    pub payload: Option<Payload>,
}

/// The order to create a collection.
#[derive(Clone, Debug, PartialEq, Eq)]
pub struct CreateCollection {
    pub name: String,
    pub size: u64,
    pub distance: Distance,
}

/// A [`CreateCollection`] as contracts see it.
pub struct CreateCollectionView {
    pub name: Seq<char>,
    pub size: u64,
    pub distance: Distance,
}

impl View for CreateCollection {
    type V = CreateCollectionView;

    open spec fn view(&self) -> CreateCollectionView {
        CreateCollectionView { name: self.name@, size: self.size, distance: self.distance }
    }
}

/// The order to insert points, or to overwrite those stored under the same ids.
/// With `wait`, the store answers only once the points are durable.
#[derive(Clone, Debug, PartialEq, Eq)]
pub struct UpsertPoints {
    pub collection: String,
    pub points: Vec<BaselinePoint>,
    pub wait: bool,
}

/// An [`UpsertPoints`] as contracts see it.
pub struct UpsertPointsView {
    pub collection: Seq<char>,
    pub points: Seq<PointView>,
    pub wait: bool,
}

impl View for UpsertPoints {
    type V = UpsertPointsView;

    open spec fn view(&self) -> UpsertPointsView {
        UpsertPointsView {
            collection: self.collection@,
            points: points_view(self.points@),
            wait: self.wait,
        }
    }
}

/// The order to find the `limit` stored points nearest to `vector`, nearest first.
#[derive(Clone, Debug, PartialEq, Eq)]
pub struct SearchPoints {
    pub collection: String,
    pub vector: Embedding,
    pub limit: u64,
    pub with_payload: bool,
}

/// A [`SearchPoints`] as contracts see it.
pub struct SearchPointsView {
    pub collection: Seq<char>,
    pub vector: Seq<u32>,
    pub limit: u64,
    pub with_payload: bool,
}

impl View for SearchPoints {
    type V = SearchPointsView;

    open spec fn view(&self) -> SearchPointsView {
        SearchPointsView {
            collection: self.collection@,
            vector: self.vector@,
            limit: self.limit,
            with_payload: self.with_payload,
        }
    }
}

} // verus!
