//! Setting up the baseline.
//!
//! Before the first request is served, the collection is made anew and filled
//! with the embeddings of the seed lines: whatever collection of that name is
//! there is deleted, an empty one is created, each seed is embedded in turn,
//! and all points are stored with one order. Like a request, this goes in
//! turns: each either asks for a [`Call`] and waits for its [`Outcome`], or
//! ends the work.

use vstd::prelude::*;
use crate::config::{Config, ConfigView};
use crate::embedding::{
    embed_call, embedding_from_reply, embedding_of, embedding_request, EmbeddingError,
};
use crate::store::{
    points_view, store_error, store_error_of, BaselinePoint, CreateCollection,
    CreateCollectionView, Payload, PayloadView, PointView, StoreError, StoreFailure, UpsertPoints,
    UpsertPointsView, NOT_FOUND,
};
use crate::upstream::{Call, CallView, Outcome, OutcomeView};

verus! {

/// The seed lines of a service that was given none, as contracts see them.
pub open spec fn default_seeds() -> Seq<Seq<char>> {
    seq![
        "INFO: User 'admin' logged in successfully from IP 192.168.1.10"@,
        "INFO: Service 'database-connector' started successfully on port 5432"@,
        "DEBUG: Cache cleared for user session 'user123'"@,
        "INFO: GET /api/v1/users request processed in 25ms"@,
        "INFO: Scheduled backup job 'daily-backup' completed successfully."@,
    ]
}

/// The texts of a sequence of strings, in order.
pub open spec fn texts(lines: Seq<String>) -> Seq<Seq<char>> {
    Seq::new(lines.len(), |i: int| lines[i]@)
}

/// The seed lines of a service that was given none: five log lines of a
/// system at rest.
pub fn baseline_seeds() -> (seeds: Vec<String>)
    ensures
        texts(seeds@) == default_seeds(),
{
    let mut seeds: Vec<String> = Vec::new();
    seeds.push("INFO: User 'admin' logged in successfully from IP 192.168.1.10".to_owned());
    seeds.push("INFO: Service 'database-connector' started successfully on port 5432".to_owned());
    seeds.push("DEBUG: Cache cleared for user session 'user123'".to_owned());
    seeds.push("INFO: GET /api/v1/users request processed in 25ms".to_owned());
    seeds.push("INFO: Scheduled backup job 'daily-backup' completed successfully.".to_owned());
    assert(texts(seeds@) =~= default_seeds());
    seeds
}

/// Why the baseline was not set up.
#[derive(Clone, Copy, Debug, PartialEq, Eq, Structural)]
pub enum InitError {
    /// A seed line could not be embedded.
    Embedding(EmbeddingError),
    /// The vector store failed to delete, to create or to store.
    Store(StoreError),
}

/// The call whose outcome the work is waiting for.
#[derive(Clone, Copy, Debug, PartialEq, Eq, Structural)]
pub enum Phase {
    Deleting,
    Creating,
    Embedding,
    Upserting,
}

/// The work between two turns.
#[derive(Clone, Debug, PartialEq, Eq)]
pub struct Baseline {
    /// The seed lines, all of them.
    pub seeds: Vec<String>,
    /// The points of the seeds that are embedded already, in the order of the
    /// seeds; empty once they are handed over to be stored.
    pub points: Vec<BaselinePoint>,
    pub phase: Phase,
}

/// A [`Baseline`] as contracts see it.
pub struct BaselineView {
    pub seeds: Seq<Seq<char>>,
    pub points: Seq<PointView>,
    pub phase: Phase,
}

impl View for Baseline {
    type V = BaselineView;

    open spec fn view(&self) -> BaselineView {
        BaselineView {
            seeds: texts(self.seeds@),
            points: points_view(self.points@),
            phase: self.phase,
        }
    }
}

/// What a turn ends with.
#[derive(Clone, Debug, PartialEq, Eq)]
pub enum Progress {
    /// Make the call, and come back with the work and the call's outcome.
    Call(Baseline, Call),
    /// The baseline is stored; `count` seeds went into it.
    Finished { count: usize },
    /// The baseline is not set up, and the service must not start.
    Failed(InitError),
}

/// A [`Progress`] as contracts see it.
pub enum ProgressView {
    Call(BaselineView, CallView),
    Finished { count: nat },
    Failed(InitError),
}

impl View for Progress {
    type V = ProgressView;

    open spec fn view(&self) -> ProgressView {
        match *self {
            Progress::Call(work, call) => ProgressView::Call(work@, call@),
            Progress::Finished { count } => ProgressView::Finished { count: count as nat },
            Progress::Failed(error) => ProgressView::Failed(error),
        }
    }
}

/// The order that creates the configured collection.
pub open spec fn create_call(config: ConfigView) -> CreateCollectionView {
    CreateCollectionView {
        name: config.collection_name,
        size: config.vector_size,
        distance: config.distance,
    }
}

/// The point of the seed with the given index: the index is its id, the seed
/// line its payload.
pub open spec fn seed_point(index: nat, vector: Seq<u32>, log: Seq<char>) -> PointView {
    PointView { id: index as u64, vector, payload: PayloadView { log } }
}

/// Whether the answer to the deletion leaves no collection of that name: one
/// was deleted, or there was none. That the store does not find the
/// collection is such an answer, and no failure.
pub open spec fn deletion_settled(answer: Result<bool, StoreFailure>) -> bool {
    match answer {
        Ok(_) => true,
        Err(failure) => failure == StoreFailure::Status(NOT_FOUND),
    }
}

/// The first turn: the collection is deleted.
pub open spec fn began(config: ConfigView, seeds: Seq<Seq<char>>) -> ProgressView {
    ProgressView::Call(
        BaselineView { seeds, points: Seq::empty(), phase: Phase::Deleting },
        CallView::DeleteCollection(config.collection_name),
    )
}

/// The turn that goes on with the seeds: the next seed is sent to be
/// embedded; once there is none, all points are sent to be stored, and the
/// store is to answer when they are durable.
pub open spec fn ingested(config: ConfigView, work: BaselineView) -> ProgressView {
    if work.points.len() < work.seeds.len() {
        ProgressView::Call(
            BaselineView { seeds: work.seeds, points: work.points, phase: Phase::Embedding },
            CallView::Embed(embed_call(config, work.seeds[work.points.len() as int])),
        )
    } else {
        ProgressView::Call(
            BaselineView { seeds: work.seeds, points: Seq::empty(), phase: Phase::Upserting },
            CallView::Upsert(
                UpsertPointsView {
                    collection: config.collection_name,
                    points: work.points,
                    wait: true,
                },
            ),
        )
    }
}

/// A later turn. That there was no collection to delete is no failure; every
/// other failure that a service reports ends the work. An outcome that does not
/// answer the call the work is waiting for counts as the failure of that call.
pub open spec fn advanced(config: ConfigView, work: BaselineView, outcome: OutcomeView) -> ProgressView {
    match work.phase {
        Phase::Deleting => match outcome {
            OutcomeView::Deleted(answer) => if deletion_settled(answer) {
                ProgressView::Call(
                    BaselineView { seeds: work.seeds, points: work.points, phase: Phase::Creating },
                    CallView::CreateCollection(create_call(config)),
                )
            } else {
                ProgressView::Failed(InitError::Store(store_error_of(answer->Err_0)))
            },
            _ => ProgressView::Failed(InitError::Store(StoreError::Internal)),
        },
        Phase::Creating => match outcome {
            OutcomeView::Created(Ok(_)) => ingested(config, work),
            OutcomeView::Created(Err(failure)) => ProgressView::Failed(
                InitError::Store(store_error_of(failure)),
            ),
            _ => ProgressView::Failed(InitError::Store(StoreError::Internal)),
        },
        Phase::Embedding => match outcome {
            OutcomeView::Embedding(reply) if work.points.len() < work.seeds.len() => match embedding_of(
                config,
                reply,
            ) {
                Ok(vector) => ingested(
                    config,
                    BaselineView {
                        seeds: work.seeds,
                        points: work.points.push(
                            seed_point(
                                work.points.len(),
                                vector,
                                work.seeds[work.points.len() as int],
                            ),
                        ),
                        phase: work.phase,
                    },
                ),
                Err(error) => ProgressView::Failed(InitError::Embedding(error)),
            },
            _ => ProgressView::Failed(InitError::Embedding(EmbeddingError::Protocol)),
        },
        Phase::Upserting => match outcome {
            OutcomeView::Upserted(Ok(_)) => ProgressView::Finished { count: work.seeds.len() },
            OutcomeView::Upserted(Err(failure)) => ProgressView::Failed(
                InitError::Store(store_error_of(failure)),
            ),
            _ => ProgressView::Failed(InitError::Store(StoreError::Internal)),
        },
    }
}

/// The work finishes on one outcome alone: the store has confirmed the one
/// order that stores the points. Every seed is embedded before that order is
/// given.
pub proof fn law_finished_after_upsert(config: ConfigView, work: BaselineView, outcome: OutcomeView)
    ensures
        advanced(config, work, outcome) is Finished ==> work.phase == Phase::Upserting && (
        outcome matches OutcomeView::Upserted(Ok(_))),
        advanced(config, work, outcome) matches ProgressView::Call(_, CallView::Upsert(order))
            ==> order.wait && order.collection == config.collection_name && order.points.len()
            >= work.seeds.len(),
{
}

/// The first turn of setting up the baseline from `seeds`.
pub fn begin(config: &Config, seeds: Vec<String>) -> (progress: Progress)
    ensures
        progress@ == began(config@, texts(seeds@)),
{
    let work = Baseline { seeds, points: Vec::new(), phase: Phase::Deleting };
    assert(work@.points =~= Seq::empty());
    Progress::Call(work, Call::DeleteCollection(config.collection_name.clone()))
}

/// The turn on the outcome of the call that `work` was waiting for.
pub fn advance(config: &Config, work: Baseline, outcome: Outcome) -> (progress: Progress)
    ensures
        progress@ == advanced(config@, work@, outcome@),
{
    match work.phase {
        Phase::Deleting => match outcome {
            Outcome::Deleted(answer) => {
                match answer {
                    Err(failure) if !is_absence(failure) => {
                        return Progress::Failed(InitError::Store(store_error(failure)));
                    },
                    _ => {},
                }
                let call = Call::CreateCollection(
                    CreateCollection {
                        name: config.collection_name.clone(),
                        size: config.vector_size,
                        distance: config.distance,
                    },
                );
                Progress::Call(
                    Baseline { seeds: work.seeds, points: work.points, phase: Phase::Creating },
                    call,
                )
            },
            _ => Progress::Failed(InitError::Store(StoreError::Internal)),
        },
        Phase::Creating => match outcome {
            Outcome::Created(Ok(_)) => ingest(config, work),
            Outcome::Created(Err(failure)) => Progress::Failed(
                InitError::Store(store_error(failure)),
            ),
            _ => Progress::Failed(InitError::Store(StoreError::Internal)),
        },
        Phase::Embedding => match outcome {
            Outcome::Embedding(reply) => {
                let index = work.points.len();
                if index >= work.seeds.len() {
                    return Progress::Failed(InitError::Embedding(EmbeddingError::Protocol));
                }
                match embedding_from_reply(config, reply) {
                    Ok(vector) => {
                        let point = BaselinePoint {
                            id: index as u64,
                            vector,
                            payload: Payload { log: work.seeds[index].clone() },
                        };
                        let Baseline { seeds, mut points, phase } = work;
                        let ghost before = points@;
                        points.push(point);
                        assert(points_view(points@) =~= points_view(before).push(point@));
                        ingest(config, Baseline { seeds, points, phase })
                    },
                    Err(error) => Progress::Failed(InitError::Embedding(error)),
                }
            },
            _ => Progress::Failed(InitError::Embedding(EmbeddingError::Protocol)),
        },
        Phase::Upserting => match outcome {
            Outcome::Upserted(Ok(_)) => Progress::Finished { count: work.seeds.len() },
            Outcome::Upserted(Err(failure)) => Progress::Failed(
                InitError::Store(store_error(failure)),
            ),
            _ => Progress::Failed(InitError::Store(StoreError::Internal)),
        },
    }
}

/// Whether the store failed because the collection is not there.
fn is_absence(failure: StoreFailure) -> (r: bool)
    ensures
        r == (failure == StoreFailure::Status(NOT_FOUND)),
{
    match failure {
        StoreFailure::Status(code) => code == NOT_FOUND,
        StoreFailure::NoAnswer => false,
    }
}

/// The turn that goes on with the seeds.
fn ingest(config: &Config, work: Baseline) -> (progress: Progress)
    ensures
        progress@ == ingested(config@, work@),
{
    let index = work.points.len();
    if index < work.seeds.len() {
        let call = Call::Embed(embedding_request(config, work.seeds[index].as_str()));
        Progress::Call(
            Baseline { seeds: work.seeds, points: work.points, phase: Phase::Embedding },
            call,
        )
    } else {
        let Baseline { seeds, points, phase: _ } = work;
        let call = Call::Upsert(
            UpsertPoints { collection: config.collection_name.clone(), points, wait: true },
        );
        let waiting = Baseline { seeds, points: Vec::new(), phase: Phase::Upserting };
        assert(waiting@.points =~= Seq::empty());
        Progress::Call(waiting, call)
    }
}

} // verus!
