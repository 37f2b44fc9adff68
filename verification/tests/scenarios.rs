use log_anomaly::baseline::{advance, baseline_seeds, begin, InitError, Progress};
use log_anomaly::config::Config;
use log_anomaly::detector::AnomalyVerdict;
use log_anomaly::embedding::{EmbedReply, EmbeddingError, EmbeddingRequest};
use log_anomaly::handler::{receive, resume, Reply, Turn};
use log_anomaly::score::Score;
use log_anomaly::store::{
    BaselinePoint, Neighbor, Payload, SearchPoints, StoreError, StoreFailure, ALREADY_EXISTS,
    INVALID_ARGUMENT, NOT_FOUND,
};
use log_anomaly::upstream::{Call, Outcome};

/// An embedding service and a vector store, both in memory.
struct World {
    collection: Option<Vec<BaselinePoint>>,
    embedder_down: bool,
    search_fails: bool,
    rigged_similarity: Option<f32>,
    embed_calls: usize,
    store_calls: usize,
}

fn world() -> World {
    World {
        collection: None,
        embedder_down: false,
        search_fails: false,
        rigged_similarity: None,
        embed_calls: 0,
        store_calls: 0,
    }
}

fn config() -> Config {
    let mut config = Config::default();
    config.vector_size = 4;
    config
}

/// A unit vector along the axis that a hash of the text picks.
fn unit_vector(text: &str) -> Vec<f32> {
    let mut hash = text.len();
    for byte in text.bytes() {
        hash += byte as usize;
    }
    let mut vector = vec![0.0; 4];
    vector[hash % 4] = 1.0;
    vector
}

fn floats(bits: &[u32]) -> Vec<f32> {
    bits.iter().map(|b| f32::from_bits(*b)).collect()
}

fn cosine(a: &[f32], b: &[f32]) -> f32 {
    let mut dot = 0.0;
    let mut aa = 0.0;
    let mut bb = 0.0;
    for i in 0..a.len() {
        dot += a[i] * b[i];
        aa += a[i] * a[i];
        bb += b[i] * b[i];
    }
    dot / (aa.sqrt() * bb.sqrt())
}

impl World {
    fn embed(&mut self, request: EmbeddingRequest) -> Outcome {
        self.embed_calls += 1;
        assert_eq!(request.model, "bge-m3");
        assert_eq!(request.endpoint, "http://localhost:11434/api/embeddings");
        if self.embedder_down {
            return Outcome::Embedding(EmbedReply::Unreachable);
        }
        let bits = unit_vector(&request.prompt).iter().map(|x| x.to_bits()).collect();
        Outcome::Embedding(EmbedReply::Answered { status: 200, embedding: Some(bits) })
    }

    fn search(&mut self, order: SearchPoints) -> Outcome {
        if self.search_fails {
            return Outcome::Neighbors(Err(StoreFailure::Status(INVALID_ARGUMENT)));
        }
        let points = match &self.collection {
            Some(points) => points,
            None => return Outcome::Neighbors(Err(StoreFailure::Status(NOT_FOUND))),
        };
        let query = floats(&order.vector.components);
        let mut found: Vec<(f32, Neighbor)> = Vec::new();
        for point in points.iter() {
            let similarity = match self.rigged_similarity {
                Some(rigged) => rigged,
                None => cosine(&query, &floats(&point.vector.components)),
            };
            let payload = if order.with_payload {
                Some(Payload { log: point.payload.log.clone() })
            } else {
                None
            };
            found.push((
                similarity,
                Neighbor { id: point.id, score: Score::from_bits(similarity.to_bits()), payload },
            ));
        }
        found.sort_by(|a, b| b.0.partial_cmp(&a.0).unwrap());
        found.truncate(order.limit as usize);
        Outcome::Neighbors(Ok(found.into_iter().map(|pair| pair.1).collect()))
    }

    fn serve(&mut self, call: Call) -> Outcome {
        match call {
            Call::Embed(request) => self.embed(request),
            Call::DeleteCollection(name) => {
                self.store_calls += 1;
                assert_eq!(name, "normal_server_logs_axum");
                Outcome::Deleted(Ok(self.collection.take().is_some()))
            }
            Call::CreateCollection(order) => {
                self.store_calls += 1;
                assert_eq!(order.size, 4);
                if self.collection.is_some() {
                    return Outcome::Created(Err(StoreFailure::Status(ALREADY_EXISTS)));
                }
                self.collection = Some(Vec::new());
                Outcome::Created(Ok(()))
            }
            Call::Upsert(order) => {
                self.store_calls += 1;
                assert!(order.wait);
                let points = match &mut self.collection {
                    Some(points) => points,
                    None => return Outcome::Upserted(Err(StoreFailure::Status(NOT_FOUND))),
                };
                for point in order.points {
                    points.retain(|old| old.id != point.id);
                    points.push(point);
                }
                Outcome::Upserted(Ok(()))
            }
            Call::Search(order) => {
                self.store_calls += 1;
                self.search(order)
            }
        }
    }

    fn initialize(&mut self, seeds: &[&str]) -> Result<usize, InitError> {
        let seeds = seeds.iter().map(|line| line.to_string()).collect();
        let mut progress = begin(&config(), seeds);
        loop {
            match progress {
                Progress::Call(work, call) => {
                    let outcome = self.serve(call);
                    progress = advance(&config(), work, outcome);
                }
                Progress::Finished { count } => return Ok(count),
                Progress::Failed(error) => return Err(error),
            }
        }
    }

    fn post(&mut self, body: &str) -> Reply {
        let mut turn = receive(&config(), body);
        loop {
            match turn {
                Turn::Call(request, call) => {
                    let outcome = self.serve(call);
                    turn = resume(&config(), request, outcome);
                }
                Turn::Respond(reply) => return reply,
            }
        }
    }

    fn check(&mut self, line: &str) -> AnomalyVerdict {
        let body = serde_json::Value::String(line.to_string()).to_string();
        match self.post(&format!("{{\"log_entry\": {}}}", body)) {
            Reply::Verdict(judged) => judged,
            other => panic!("{:?}", other),
        }
    }
}

fn similarity(judged: &AnomalyVerdict) -> f32 {
    f32::from_bits(judged.score.to_bits())
}

#[test]
fn baseline_match() {
    let mut world = world();
    assert_eq!(world.initialize(&["A", "B", "C"]), Ok(3));
    let judged = world.check("A");
    assert!(!judged.is_anomalous);
    assert!((similarity(&judged) - 1.0).abs() < 1e-6);
    assert_eq!(judged.log_entry, "A");
}

#[test]
fn clear_anomaly() {
    let mut world = world();
    assert_eq!(world.initialize(&["A", "B", "C"]), Ok(3));
    let judged = world.check("ZZZZZZZ");
    assert!(judged.is_anomalous);
    assert!(0.0 <= similarity(&judged) && similarity(&judged) < 0.70);
    assert_eq!(judged.log_entry, "ZZZZZZZ");
}

#[test]
fn exact_threshold_boundary() {
    let mut world = world();
    assert_eq!(world.initialize(&["A", "B", "C"]), Ok(3));
    world.rigged_similarity = Some(0.70);
    let judged = world.check("anything");
    assert!(!judged.is_anomalous);
    assert_eq!(similarity(&judged), 0.70);
}

#[test]
fn embedding_upstream_down() {
    let mut world = world();
    assert_eq!(world.initialize(&["A", "B", "C"]), Ok(3));
    world.embedder_down = true;
    let store_calls = world.store_calls;
    let reply = world.post(r#"{"log_entry": "A"}"#);
    assert_eq!(reply, Reply::EmbeddingFailed(EmbeddingError::Unreachable));
    assert_eq!(reply.status(), 500);
    assert!(reply.message().unwrap().contains("embedding"));
    assert_eq!(world.store_calls, store_calls);
}

#[test]
fn vector_store_search_error() {
    let mut world = world();
    assert_eq!(world.initialize(&["A", "B", "C"]), Ok(3));
    world.search_fails = true;
    let embed_calls = world.embed_calls;
    let reply = world.post(r#"{"log_entry": "A"}"#);
    assert_eq!(reply, Reply::SearchFailed(StoreError::Rejected));
    assert_eq!(reply.status(), 500);
    assert!(reply.message().unwrap().contains("search failed"));
    assert_eq!(world.embed_calls, embed_calls + 1);
}

#[test]
fn malformed_request() {
    let mut world = world();
    assert_eq!(world.initialize(&["A", "B", "C"]), Ok(3));
    let (embed_calls, store_calls) = (world.embed_calls, world.store_calls);
    let reply = world.post("{}");
    assert_eq!(reply.status(), 400);
    assert_eq!(world.embed_calls, embed_calls);
    assert_eq!(world.store_calls, store_calls);
}

#[test]
fn every_embedding_has_the_configured_length() {
    let mut world = world();
    assert_eq!(world.initialize(&["A", "B", "C"]), Ok(3));
    for point in world.collection.as_ref().unwrap().iter() {
        assert_eq!(point.vector.dimension() as u64, config().vector_size);
    }
    let turn = receive(&config(), r#"{"log_entry": "A"}"#);
    match turn {
        Turn::Call(request, call) => {
            let outcome = world.serve(call);
            match resume(&config(), request, outcome) {
                Turn::Call(_, Call::Search(order)) => {
                    assert_eq!(order.vector.dimension() as u64, config().vector_size)
                }
                other => panic!("{:?}", other),
            }
        }
        other => panic!("{:?}", other),
    }
}

#[test]
fn verdict_follows_the_threshold() {
    let mut world = world();
    assert_eq!(world.initialize(&["A", "B", "C"]), Ok(3));
    for rigged in [-1.0f32, -0.2, 0.0, 0.3, 0.69, 0.6999999, 0.70, 0.7000001, 0.9, 1.0] {
        world.rigged_similarity = Some(rigged);
        let judged = world.check("line");
        assert_eq!(judged.is_anomalous, similarity(&judged) < 0.70);
        assert_eq!(similarity(&judged), rigged);
    }
}

#[test]
fn response_echoes_the_log_entry() {
    let mut world = world();
    assert_eq!(world.initialize(&["A", "B", "C"]), Ok(3));
    for line in ["A", "  padded  ", "quote \" and \\ and \n", "\u{1F600} caf\u{e9}", "{}"] {
        assert_eq!(world.check(line).log_entry.as_bytes(), line.as_bytes());
    }
}

#[test]
fn setting_up_twice_changes_no_verdict() {
    let mut once = world();
    assert_eq!(once.initialize(&["A", "B", "C"]), Ok(3));
    let mut twice = world();
    assert_eq!(twice.initialize(&["A", "B", "C"]), Ok(3));
    assert_eq!(twice.initialize(&["A", "B", "C"]), Ok(3));
    assert_eq!(once.collection, twice.collection);
    for line in ["A", "B", "C", "D", "ZZZZZZZ", "INFO: started"] {
        assert_eq!(once.check(line), twice.check(line));
    }
}

#[test]
fn empty_collection_law() {
    let mut world = world();
    assert_eq!(world.initialize(&[]), Ok(0));
    assert_eq!(world.collection, Some(vec![]));
    for line in ["A", "B", "anything at all"] {
        let judged = world.check(line);
        assert!(judged.is_anomalous);
        assert_eq!(similarity(&judged), 0.0);
        assert_eq!(judged.score.to_bits(), 0);
    }
}

#[test]
fn every_seed_is_normal_to_itself() {
    let mut world = world();
    let seeds = baseline_seeds();
    let lines: Vec<&str> = seeds.iter().map(|line| line.as_str()).collect();
    assert_eq!(world.initialize(&lines), Ok(5));
    for line in lines {
        let judged = world.check(line);
        assert!(!judged.is_anomalous);
        assert!((similarity(&judged) - 1.0).abs() < 1e-6);
    }
}

#[test]
fn service_does_not_start_when_a_seed_cannot_be_embedded() {
    let mut world = world();
    world.embedder_down = true;
    assert_eq!(
        world.initialize(&["A", "B", "C"]),
        Err(InitError::Embedding(EmbeddingError::Unreachable))
    );
    assert_eq!(world.embed_calls, 1);
    assert_eq!(world.collection, Some(vec![]));
}

#[test]
fn points_are_stored_under_the_seed_indices() {
    let mut world = world();
    assert_eq!(world.initialize(&["A", "B", "C"]), Ok(3));
    let points = world.collection.as_ref().unwrap();
    assert_eq!(points.len(), 3);
    for (i, line) in ["A", "B", "C"].iter().enumerate() {
        assert_eq!(points[i].id, i as u64);
        assert_eq!(points[i].payload.log, *line);
        assert_eq!(floats(&points[i].vector.components), unit_vector(line));
    }
}
