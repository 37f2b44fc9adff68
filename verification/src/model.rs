//! Whole runs, against a model of the two services.
//!
//! The turns of [`crate::baseline`] and [`crate::handler`] say what is asked of
//! the services and what is made of their answers. What a whole run comes to
//! depends on the services too. Here they are modelled: the embedding
//! service as a function of the request, the vector store as a map from names
//! to collections, whose search is a function of the collection and the
//! order. Against that model a run is a function, and the laws below say what
//! it leaves behind.

use vstd::prelude::*;
use crate::baseline::{advanced, began, ingested, seed_point, BaselineView, Phase, ProgressView};
use crate::config::{ConfigView, Distance};
use crate::embedding::{embed_call, embedding_of, EmbedReplyView, EmbeddingRequestView};
use crate::handler::{accepted, resumed, TurnView};
use crate::store::{
    Neighbor, PointView, SearchPointsView, StoreFailure, UpsertPointsView, ALREADY_EXISTS,
    INVALID_ARGUMENT, NOT_FOUND,
};
use crate::upstream::{CallView, OutcomeView};

verus! {

/// A collection: its points by id.
pub struct Collection {
    pub size: u64,
    pub distance: Distance,
    pub points: Map<u64, PointView>,
}

/// The vector store: its collections by name.
pub struct Store {
    pub collections: Map<Seq<char>, Collection>,
}

/// The two services. Neither changes its mind: the same request gets the same
/// embedding, and the same order on the same collection finds the same points.
pub struct Services {
    pub embedder: spec_fn(EmbeddingRequestView) -> EmbedReplyView,
    pub searcher: spec_fn(Collection, SearchPointsView) -> Seq<Neighbor>,
}

/// The points of a collection after a batch is stored: each point of the
/// batch, in order, takes the place of whatever was stored under its id.
pub open spec fn upserted(points: Map<u64, PointView>, batch: Seq<PointView>) -> Map<u64, PointView>
    decreases batch.len(),
{
    if batch.len() == 0 {
        points
    } else {
        upserted(points, batch.drop_last()).insert(batch.last().id, batch.last())
    }
}

/// Whether every vector of the batch has the dimension of the collection.
pub open spec fn fits(collection: Collection, batch: Seq<PointView>) -> bool {
    forall|i: int| 0 <= i < batch.len() ==> (#[trigger] batch[i]).vector.len() == collection.size
}

impl Store {
    /// The store without the collection of that name.
    pub open spec fn without(self, name: Seq<char>) -> Store {
        Store { collections: self.collections.remove(name) }
    }

    /// The store with `collection` under that name.
    pub open spec fn with(self, name: Seq<char>, collection: Collection) -> Store {
        Store { collections: self.collections.insert(name, collection) }
    }

    /// What the store answers to an order to store points, and what it holds
    /// afterwards.
    pub open spec fn upsert(self, order: UpsertPointsView) -> (OutcomeView, Store) {
        if !self.collections.contains_key(order.collection) {
            (OutcomeView::Upserted(Err(StoreFailure::Status(NOT_FOUND))), self)
        } else {
            let collection = self.collections[order.collection];
            if fits(collection, order.points) {
                (
                    OutcomeView::Upserted(Ok(())),
                    self.with(
                        order.collection,
                        Collection {
                            size: collection.size,
                            distance: collection.distance,
                            points: upserted(collection.points, order.points),
                        },
                    ),
                )
            } else {
                (OutcomeView::Upserted(Err(StoreFailure::Status(INVALID_ARGUMENT))), self)
            }
        }
    }
}

/// The outcome of a call, and the store after it.
pub open spec fn served(services: Services, store: Store, call: CallView) -> (OutcomeView, Store) {
    match call {
        CallView::DeleteCollection(name) => (
            OutcomeView::Deleted(Ok(store.collections.contains_key(name))),
            store.without(name),
        ),
        CallView::CreateCollection(order) => if store.collections.contains_key(order.name) {
            (OutcomeView::Created(Err(StoreFailure::Status(ALREADY_EXISTS))), store)
        } else {
            (
                OutcomeView::Created(Ok(())),
                store.with(
                    order.name,
                    Collection { size: order.size, distance: order.distance, points: Map::empty() },
                ),
            )
        },
        CallView::Embed(request) => (OutcomeView::Embedding((services.embedder)(request)), store),
        CallView::Upsert(order) => store.upsert(order),
        CallView::Search(order) => if store.collections.contains_key(order.collection) {
            (
                OutcomeView::Neighbors(
                    Ok((services.searcher)(store.collections[order.collection], order)),
                ),
                store,
            )
        } else {
            (OutcomeView::Neighbors(Err(StoreFailure::Status(NOT_FOUND))), store)
        },
    }
}

/// Setting up the baseline for up to `turns` more turns: where the work
/// stands then, and what the store holds.
pub open spec fn set_up(
    config: ConfigView,
    services: Services,
    progress: ProgressView,
    store: Store,
    turns: nat,
) -> (ProgressView, Store)
    decreases turns,
{
    match progress {
        ProgressView::Call(work, call) if turns > 0 => {
            let (outcome, next) = served(services, store, call);
            set_up(config, services, advanced(config, work, outcome), next, (turns - 1) as nat)
        },
        _ => (progress, store),
    }
}

/// One turn of a request, where it still waits for a call.
pub open spec fn settled(config: ConfigView, services: Services, store: Store, turn: TurnView) -> TurnView {
    match turn {
        TurnView::Call(request, call) => resumed(config, request, served(services, store, call).0),
        TurnView::Respond(_) => turn,
    }
}

/// A request from its body to the end. `member` is the text under
/// `log_entry` in the body.
pub open spec fn answered(
    config: ConfigView,
    services: Services,
    store: Store,
    member: Option<Seq<char>>,
) -> TurnView {
    settled(config, services, store, settled(config, services, store, accepted(config, member)))
}

/// The vector that the embedding service gives for a seed.
pub open spec fn seed_vector(config: ConfigView, services: Services, seed: Seq<char>) -> Result<
    Seq<u32>,
    crate::embedding::EmbeddingError,
> {
    embedding_of(config, (services.embedder)(embed_call(config, seed)))
}

/// The points of the first `count` seeds.
pub open spec fn seed_points(
    config: ConfigView,
    services: Services,
    seeds: Seq<Seq<char>>,
    count: nat,
) -> Seq<PointView> {
    Seq::new(
        count,
        |i: int| seed_point(i as nat, seed_vector(config, services, seeds[i])->Ok_0, seeds[i]),
    )
}

/// Whether the embedding service gives a vector of the configured size for
/// each of the first `count` seeds.
pub open spec fn embeds(
    config: ConfigView,
    services: Services,
    seeds: Seq<Seq<char>>,
    count: nat,
) -> bool {
    forall|i: int| 0 <= i < count ==> seed_vector(config, services, #[trigger] seeds[i]) is Ok
}

/// The collection that setting up the baseline is to leave behind: made with
/// the configured size and distance, it holds the points of all seeds.
pub open spec fn baseline(config: ConfigView, services: Services, seeds: Seq<Seq<char>>) -> Collection {
    Collection {
        size: config.vector_size,
        distance: config.distance,
        points: upserted(Map::empty(), seed_points(config, services, seeds, seeds.len())),
    }
}

/// Whether a call leaves every collection but the one of that name alone.
pub open spec fn keeps_to(call: CallView, name: Seq<char>) -> bool {
    match call {
        CallView::DeleteCollection(target) => target == name,
        CallView::CreateCollection(order) => order.name == name,
        CallView::Upsert(order) => order.collection == name,
        CallView::Embed(_) => true,
        CallView::Search(_) => true,
    }
}

/// A call that keeps to one collection changes no other.
proof fn lemma_served_keeps_to(services: Services, store: Store, call: CallView, name: Seq<char>)
    requires
        keeps_to(call, name),
    ensures
        served(services, store, call).1.without(name) == store.without(name),
{
    let after = served(services, store, call).1;
    assert(after.collections.remove(name) =~= store.collections.remove(name));
}

/// Setting up the baseline asks nothing of any collection but the configured
/// one.
proof fn lemma_set_up_keeps_to(
    config: ConfigView,
    services: Services,
    progress: ProgressView,
    store: Store,
    turns: nat,
)
    requires
        progress matches ProgressView::Call(_, call) ==> keeps_to(call, config.collection_name),
    ensures
        set_up(config, services, progress, store, turns).1.without(config.collection_name)
            == store.without(config.collection_name),
    decreases turns,
{
    match progress {
        ProgressView::Call(work, call) if turns > 0 => {
            let (outcome, next) = served(services, store, call);
            lemma_served_keeps_to(services, store, call, config.collection_name);
            lemma_set_up_keeps_to(
                config,
                services,
                advanced(config, work, outcome),
                next,
                (turns - 1) as nat,
            );
        },
        _ => {},
    }
}

/// From the turn that goes on with the seeds, `count` of them embedded: the
/// work finishes exactly when every seed left can be embedded and the turns
/// suffice, and then the collection holds the points of all seeds beside what
/// it held.
proof fn lemma_ingest(
    config: ConfigView,
    services: Services,
    seeds: Seq<Seq<char>>,
    count: nat,
    phase: Phase,
    store: Store,
    turns: nat,
)
    requires
        count <= seeds.len(),
        embeds(config, services, seeds, count),
        store.collections.contains_key(config.collection_name),
        store.collections[config.collection_name].size == config.vector_size,
    ensures
        ({
            let work = BaselineView {
                seeds,
                points: seed_points(config, services, seeds, count),
                phase,
            };
            let held = store.collections[config.collection_name];
            let end = set_up(config, services, ingested(config, work), store, turns);
            &&& end.0 is Finished <==> embeds(config, services, seeds, seeds.len()) && turns
                > seeds.len() - count
            &&& end.0 is Finished ==> end.0 == (ProgressView::Finished { count: seeds.len() })
                && end.1 == store.with(
                config.collection_name,
                Collection {
                    size: held.size,
                    distance: held.distance,
                    points: upserted(
                        held.points,
                        seed_points(config, services, seeds, seeds.len()),
                    ),
                },
            )
        }),
    decreases seeds.len() - count,
{
    reveal_with_fuel(set_up, 2);
    let points = seed_points(config, services, seeds, count);
    let work = BaselineView { seeds, points, phase };
    if turns == 0 {
    } else if count < seeds.len() {
        let seed = seeds[count as int];
        let waiting = BaselineView { seeds, points, phase: Phase::Embedding };
        let outcome = OutcomeView::Embedding((services.embedder)(embed_call(config, seed)));
        assert(ingested(config, work) == ProgressView::Call(
            waiting,
            CallView::Embed(embed_call(config, seed)),
        ));
        assert(set_up(config, services, ingested(config, work), store, turns) == set_up(
            config,
            services,
            advanced(config, waiting, outcome),
            store,
            (turns - 1) as nat,
        ));
        match seed_vector(config, services, seed) {
            Ok(vector) => {
                let more = points.push(seed_point(count, vector, seed));
                assert(more =~= seed_points(config, services, seeds, count + 1));
                assert(advanced(config, waiting, outcome) == ingested(
                    config,
                    BaselineView { seeds, points: more, phase: Phase::Embedding },
                ));
                assert(embeds(config, services, seeds, count + 1)) by {
                    assert forall|i: int| 0 <= i < count + 1 implies seed_vector(
                        config,
                        services,
                        #[trigger] seeds[i],
                    ) is Ok by {
                        if i == count {
                            assert(seeds[i] == seed);
                        }
                    }
                }
                lemma_ingest(
                    config,
                    services,
                    seeds,
                    count + 1,
                    Phase::Embedding,
                    store,
                    (turns - 1) as nat,
                );
            },
            Err(_) => {
                assert(advanced(config, waiting, outcome) is Failed);
                assert(!embeds(config, services, seeds, seeds.len())) by {
                    assert(seeds[count as int] == seed);
                }
            },
        }
    } else {
        let all = seed_points(config, services, seeds, seeds.len());
        let held = store.collections[config.collection_name];
        assert(points == all);
        assert(fits(held, all)) by {
            assert forall|i: int| 0 <= i < all.len() implies (#[trigger] all[i]).vector.len()
                == config.vector_size by {
                assert(seed_vector(config, services, seeds[i]) is Ok);
            }
        }
        let order = UpsertPointsView { collection: config.collection_name, points: all, wait: true };
        let waiting = BaselineView { seeds, points: Seq::empty(), phase: Phase::Upserting };
        assert(ingested(config, work) == ProgressView::Call(waiting, CallView::Upsert(order)));
        assert(served(services, store, CallView::Upsert(order)).0 == OutcomeView::Upserted(Ok(())));
        assert(advanced(config, waiting, OutcomeView::Upserted(Ok(()))) == (ProgressView::Finished {
            count: seeds.len(),
        }));
    }
}

/// A batch whose ids count up from zero is stored into an empty collection
/// point by point: under each index the point of that index, and nothing else.
proof fn lemma_upserted_in_order(batch: Seq<PointView>)
    requires
        batch.len() <= u64::MAX,
        forall|i: int| 0 <= i < batch.len() ==> (#[trigger] batch[i]).id == i,
    ensures
        forall|id: u64| #[trigger]
            upserted(Map::empty(), batch).contains_key(id) <==> id < batch.len(),
        forall|i: int|
            0 <= i < batch.len() ==> upserted(Map::empty(), batch)[i as u64] == #[trigger] batch[i],
    decreases batch.len(),
{
    if batch.len() > 0 {
        let rest = batch.drop_last();
        let last = batch.last();
        lemma_upserted_in_order(rest);
        let before = upserted(Map::empty(), rest);
        let after = upserted(Map::empty(), batch);
        assert(after == before.insert(last.id, last));
        assert(last.id == batch.len() - 1);
        assert forall|id: u64| #[trigger] after.contains_key(id) <==> id < batch.len() by {
            assert(before.contains_key(id) <==> id < rest.len());
        }
        assert forall|i: int| 0 <= i < batch.len() implies after[i as u64] == #[trigger] batch[i] by {
            if i < rest.len() {
                assert(rest[i] == batch[i]);
                assert(before[i as u64] == rest[i]);
            }
        }
    }
}

/// Where setting up the baseline finishes, every seed was embedded, and the
/// configured collection is the baseline, whatever the store held before. It
/// finishes exactly where every seed can be embedded and the turns suffice:
/// three more than there are seeds.
pub proof fn law_set_up_stores_the_seeds(
    config: ConfigView,
    services: Services,
    seeds: Seq<Seq<char>>,
    store: Store,
    turns: nat,
)
    ensures
        ({
            let end = set_up(config, services, began(config, seeds), store, turns);
            &&& end.0 is Finished <==> embeds(config, services, seeds, seeds.len()) && turns
                >= seeds.len() + 3
            &&& end.0 is Finished ==> end.0 == (ProgressView::Finished { count: seeds.len() })
                && end.1 == store.with(config.collection_name, baseline(config, services, seeds))
        }),
{
    let name = config.collection_name;
    let none = Seq::<PointView>::empty();
    if turns >= 2 {
        let emptied = store.without(name);
        let fresh = Collection {
            size: config.vector_size,
            distance: config.distance,
            points: Map::empty(),
        };
        let created = emptied.with(name, fresh);
        let creating = BaselineView { seeds, points: none, phase: Phase::Creating };
        assert(none =~= seed_points(config, services, seeds, 0));
        lemma_ingest(config, services, seeds, 0, Phase::Creating, created, (turns - 2) as nat);
        let end = set_up(config, services, ingested(config, creating), created, (turns - 2) as nat);
        assert(set_up(config, services, began(config, seeds), store, turns) == end) by {
            reveal_with_fuel(set_up, 3);
        }
        if end.0 is Finished {
            let full = baseline(config, services, seeds);
            assert(created.with(name, full).collections =~= store.with(name, full).collections);
        }
    } else {
        reveal_with_fuel(set_up, 3);
    }
}

/// The baseline holds one point for each seed: under the index of the seed,
/// its vector and its line. It holds nothing else.
pub proof fn law_baseline_points(config: ConfigView, services: Services, seeds: Seq<Seq<char>>)
    requires
        seeds.len() <= u64::MAX,
    ensures
        forall|id: u64| #[trigger]
            baseline(config, services, seeds).points.contains_key(id) <==> id < seeds.len(),
        forall|i: int|
            0 <= i < seeds.len() ==> baseline(config, services, seeds).points[i as u64]
                == seed_point(
                i as nat,
                seed_vector(config, services, #[trigger] seeds[i])->Ok_0,
                seeds[i],
            ),
{
    let batch = seed_points(config, services, seeds, seeds.len());
    lemma_upserted_in_order(batch);
    assert forall|i: int| 0 <= i < seeds.len() implies baseline(
        config,
        services,
        seeds,
    ).points[i as u64] == seed_point(
        i as nat,
        seed_vector(config, services, #[trigger] seeds[i])->Ok_0,
        seeds[i],
    ) by {
        assert(upserted(Map::empty(), batch)[i as u64] == batch[i]);
    }
}

/// Setting up the baseline twice comes to what setting it up once comes to:
/// the work ends the same way, the store holds the same, and so every request
/// gets the same answer.
pub proof fn law_set_up_twice(
    config: ConfigView,
    services: Services,
    seeds: Seq<Seq<char>>,
    store: Store,
    turns: nat,
)
    ensures
        ({
            let once = set_up(config, services, began(config, seeds), store, turns);
            let twice = set_up(config, services, began(config, seeds), once.1, turns);
            &&& twice == once
            &&& forall|member: Option<Seq<char>>|
                answered(config, services, twice.1, member) == answered(
                    config,
                    services,
                    once.1,
                    member,
                )
        }),
{
    // The first turn deletes the collection, and nothing else was touched.
    lemma_set_up_keeps_to(config, services, began(config, seeds), store, turns);
    let once = set_up(config, services, began(config, seeds), store, turns);
    assert(once.1.without(config.collection_name) == store.without(config.collection_name));
}

} // verus!
