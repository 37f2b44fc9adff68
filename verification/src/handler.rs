//! Answering `POST /check_log`.
//!
//! A request is answered in up to three turns: the body is read, the log line
//! is embedded, its nearest neighbour in the baseline is searched, and the
//! verdict goes back. Each turn either asks for a [`Call`] and waits for its
//! [`Outcome`], or ends with the [`Reply`].

use vstd::prelude::*;
use crate::config::{Config, ConfigView};
use crate::detector::{decide, score_of, verdict, AnomalyVerdict, VerdictView};
use crate::embedding::{
    embed_call, embedding_from_reply, embedding_of, embedding_request, EmbedReplyView,
    EmbeddingError,
};
use crate::json::{json_text_member, text_member};
use crate::score::Score;
use crate::store::{
    store_error, store_error_of, Neighbor, SearchPoints, SearchPointsView, StoreError, StoreFailure,
};
use crate::text::{blank, is_blank};
use crate::upstream::{Call, CallView, Outcome, OutcomeView};

verus! {

/// What is wrong with a request.
#[derive(Clone, Copy, Debug, PartialEq, Eq, Structural)]
pub enum BadRequest {
    /// The body is no JSON object with a string under `log_entry`.
    MissingLogEntry,
    /// The log line is empty after trimming.
    EmptyLogEntry,
}

/// The answer to a request.
#[derive(Clone, Debug, PartialEq, Eq)]
pub enum Reply {
    /// The log line was judged.
    Verdict(AnomalyVerdict),
    /// The request was refused.
    BadRequest(BadRequest),
    /// The log line could not be embedded.
    EmbeddingFailed(EmbeddingError),
    /// The baseline could not be searched.
    SearchFailed(StoreError),
}

/// A [`Reply`] as contracts see it.
pub enum ReplyView {
    Verdict(VerdictView),
    BadRequest(BadRequest),
    EmbeddingFailed(EmbeddingError),
    SearchFailed(StoreError),
}

impl View for Reply {
    type V = ReplyView;

    open spec fn view(&self) -> ReplyView {
        match *self {
            Reply::Verdict(judged) => ReplyView::Verdict(judged@),
            Reply::BadRequest(reason) => ReplyView::BadRequest(reason),
            Reply::EmbeddingFailed(error) => ReplyView::EmbeddingFailed(error),
            Reply::SearchFailed(error) => ReplyView::SearchFailed(error),
        }
    }
}

impl ReplyView {
    /// The HTTP status of the reply.
    pub open spec fn status(self) -> u16 {
        match self {
            ReplyView::Verdict(_) => 200,
            ReplyView::BadRequest(_) => 400,
            ReplyView::EmbeddingFailed(_) => 500,
            ReplyView::SearchFailed(_) => 500,
        }
    }

    /// The text that a reply without a verdict carries as its body.
    pub open spec fn message(self) -> Option<Seq<char>> {
        match self {
            ReplyView::Verdict(_) => None,
            ReplyView::BadRequest(BadRequest::MissingLogEntry) => Some(
                "log_entry is missing or is not a string"@,
            ),
            ReplyView::BadRequest(BadRequest::EmptyLogEntry) => Some("log_entry is empty"@),
            ReplyView::EmbeddingFailed(_) => Some("Failed to get embedding"@),
            ReplyView::SearchFailed(_) => Some("Qdrant search failed"@),
        }
    }
}

impl Reply {
    /// The HTTP status of the reply.
    pub fn status(&self) -> (code: u16)
        ensures
            code == self@.status(),
    {
        match self {
            Reply::Verdict(_) => 200,
            Reply::BadRequest(_) => 400,
            Reply::EmbeddingFailed(_) => 500,
            Reply::SearchFailed(_) => 500,
        }
    }

    /// The text that a reply without a verdict carries as its body.
    pub fn message(&self) -> (text: Option<&'static str>)
        ensures
            match text {
                Some(words) => self@.message() == Some(words@),
                None => self@.message() is None,
            },
    {
        match self {
            Reply::Verdict(_) => None,
            Reply::BadRequest(BadRequest::MissingLogEntry) => Some(
                "log_entry is missing or is not a string",
            ),
            Reply::BadRequest(BadRequest::EmptyLogEntry) => Some("log_entry is empty"),
            Reply::EmbeddingFailed(_) => Some("Failed to get embedding"),
            Reply::SearchFailed(_) => Some("Qdrant search failed"),
        }
    }
}

/// The call whose outcome a request is waiting for.
#[derive(Clone, Copy, Debug, PartialEq, Eq, Structural)]
pub enum Awaiting {
    Embedding,
    Neighbors,
}

/// A request between two turns.
#[derive(Clone, Debug, PartialEq, Eq)]
pub struct CheckLog {
    pub log_entry: String,
    pub awaiting: Awaiting,
}

/// A [`CheckLog`] as contracts see it.
pub struct CheckLogView {
    pub log_entry: Seq<char>,
    pub awaiting: Awaiting,
}

impl View for CheckLog {
    type V = CheckLogView;

    open spec fn view(&self) -> CheckLogView {
        CheckLogView { log_entry: self.log_entry@, awaiting: self.awaiting }
    }
}

/// What a turn ends with.
#[derive(Clone, Debug, PartialEq, Eq)]
pub enum Turn {
    /// Make the call, and come back with the request and the call's outcome.
    Call(CheckLog, Call),
    /// Send the reply; the request is done.
    Respond(Reply),
}

/// A [`Turn`] as contracts see it.
pub enum TurnView {
    Call(CheckLogView, CallView),
    Respond(ReplyView),
}

impl View for Turn {
    type V = TurnView;

    open spec fn view(&self) -> TurnView {
        match *self {
            Turn::Call(request, call) => TurnView::Call(request@, call@),
            Turn::Respond(reply) => TurnView::Respond(reply@),
        }
    }
}

/// The name of the member that holds the log line.
pub open spec fn log_entry_key() -> Seq<char> {
    "log_entry"@
}

/// The search for the one point nearest to `vector`.
pub open spec fn search_call(config: ConfigView, vector: Seq<u32>) -> SearchPointsView {
    SearchPointsView { collection: config.collection_name, vector, limit: 1, with_payload: true }
}

/// The first turn, given the text under `log_entry` in the body: a log line
/// that is there and not blank is sent to be embedded, anything else is
/// refused.
pub open spec fn accepted(config: ConfigView, member: Option<Seq<char>>) -> TurnView {
    match member {
        None => TurnView::Respond(ReplyView::BadRequest(BadRequest::MissingLogEntry)),
        Some(log_entry) => if is_blank(log_entry) {
            TurnView::Respond(ReplyView::BadRequest(BadRequest::EmptyLogEntry))
        } else {
            TurnView::Call(
                CheckLogView { log_entry, awaiting: Awaiting::Embedding },
                CallView::Embed(embed_call(config, log_entry)),
            )
        },
    }
}

/// The similarity of the first of the points found.
pub open spec fn nearest_score(found: Seq<Neighbor>) -> Option<Score> {
    if found.len() > 0 {
        Some(found[0].score)
    } else {
        None
    }
}

/// A later turn. An embedding of the right shape is sent to be searched for;
/// the points found give the verdict. An outcome that does not answer the
/// call the request is waiting for counts as the failure of that call.
pub open spec fn resumed(config: ConfigView, request: CheckLogView, outcome: OutcomeView) -> TurnView {
    match request.awaiting {
        Awaiting::Embedding => match outcome {
            OutcomeView::Embedding(reply) => match embedding_of(config, reply) {
                Ok(vector) => TurnView::Call(
                    CheckLogView { log_entry: request.log_entry, awaiting: Awaiting::Neighbors },
                    CallView::Search(search_call(config, vector)),
                ),
                Err(error) => TurnView::Respond(ReplyView::EmbeddingFailed(error)),
            },
            _ => TurnView::Respond(ReplyView::EmbeddingFailed(EmbeddingError::Protocol)),
        },
        Awaiting::Neighbors => match outcome {
            OutcomeView::Neighbors(Ok(found)) => TurnView::Respond(
                ReplyView::Verdict(
                    verdict(config.anomaly_threshold, request.log_entry, nearest_score(found)),
                ),
            ),
            OutcomeView::Neighbors(Err(failure)) => TurnView::Respond(
                ReplyView::SearchFailed(store_error_of(failure)),
            ),
            _ => TurnView::Respond(ReplyView::SearchFailed(StoreError::Internal)),
        },
    }
}

/// The first turn, given the text under `log_entry` in the body.
pub fn accept(config: &Config, member: Option<String>) -> (turn: Turn)
    ensures
        turn@ == accepted(
            config@,
            match member {
                Some(text) => Some(text@),
                None => None,
            },
        ),
{
    match member {
        None => Turn::Respond(Reply::BadRequest(BadRequest::MissingLogEntry)),
        Some(log_entry) => {
            if blank(log_entry.as_str()) {
                Turn::Respond(Reply::BadRequest(BadRequest::EmptyLogEntry))
            } else {
                let call = Call::Embed(embedding_request(config, log_entry.as_str()));
                Turn::Call(CheckLog { log_entry, awaiting: Awaiting::Embedding }, call)
            }
        },
    }
}

/// The first turn on a request with the given body.
pub fn receive(config: &Config, body: &str) -> (turn: Turn)
    ensures
        turn@ == accepted(config@, json_text_member(body@, log_entry_key())),
{
    accept(config, text_member(body, "log_entry"))
}

/// The turn on the outcome of the call that `request` was waiting for.
pub fn resume(config: &Config, request: CheckLog, outcome: Outcome) -> (turn: Turn)
    ensures
        turn@ == resumed(config@, request@, outcome@),
{
    match request.awaiting {
        Awaiting::Embedding => match outcome {
            Outcome::Embedding(reply) => match embedding_from_reply(config, reply) {
                Ok(vector) => {
                    let call = Call::Search(
                        SearchPoints {
                            collection: config.collection_name.clone(),
                            vector,
                            limit: 1,
                            with_payload: true,
                        },
                    );
                    Turn::Call(
                        CheckLog { log_entry: request.log_entry, awaiting: Awaiting::Neighbors },
                        call,
                    )
                },
                Err(error) => Turn::Respond(Reply::EmbeddingFailed(error)),
            },
            _ => Turn::Respond(Reply::EmbeddingFailed(EmbeddingError::Protocol)),
        },
        Awaiting::Neighbors => match outcome {
            Outcome::Neighbors(Ok(found)) => {
                let nearest = if found.len() > 0 {
                    Some(&found[0])
                } else {
                    None
                };
                assert(score_of(nearest) == nearest_score(found@));
                Turn::Respond(
                    Reply::Verdict(decide(config.anomaly_threshold, request.log_entry, nearest)),
                )
            },
            Outcome::Neighbors(Err(failure)) => Turn::Respond(
                Reply::SearchFailed(store_error(failure)),
            ),
            _ => Turn::Respond(Reply::SearchFailed(StoreError::Internal)),
        },
    }
}

/// Where the search finds a point whose similarity is a number, the verdict
/// carries that similarity, and the line is anomalous exactly when the
/// similarity is below the threshold.
pub proof fn law_threshold(config: ConfigView, request: CheckLogView, found: Seq<Neighbor>)
    requires
        request.awaiting == Awaiting::Neighbors,
        found.len() > 0,
        !found[0].score.nan(),
        !config.anomaly_threshold.nan(),
    ensures
        resumed(config, request, OutcomeView::Neighbors(Ok(found))) matches TurnView::Respond(
            ReplyView::Verdict(judged),
        ) && judged.score == found[0].score && judged.is_anomalous == judged.score.below(
            config.anomaly_threshold,
        ),
{
}

/// Where the search finds nothing, the line is anomalous and the score is zero.
pub proof fn law_empty_collection(config: ConfigView, request: CheckLogView)
    requires
        request.awaiting == Awaiting::Neighbors,
    ensures
        resumed(config, request, OutcomeView::Neighbors(Ok(Seq::empty()))) matches TurnView::Respond(
            ReplyView::Verdict(judged),
        ) && judged.is_anomalous && judged.score.bits == 0,
{
}

/// Every verdict repeats the log line of the request, whatever the two
/// services answered on the way.
pub proof fn law_echo(
    config: ConfigView,
    log_entry: Seq<char>,
    reply: EmbedReplyView,
    found: Result<Seq<Neighbor>, StoreFailure>,
)
    ensures
        accepted(config, Some(log_entry)) matches TurnView::Call(first, _) ==> (resumed(
            config,
            first,
            OutcomeView::Embedding(reply),
        ) matches TurnView::Call(second, _) ==> (resumed(
            config,
            second,
            OutcomeView::Neighbors(found),
        ) matches TurnView::Respond(ReplyView::Verdict(judged)) ==> judged.log_entry
            == log_entry)),
{
}

/// No turn changes the log line: the request that waits on carries it, and so
/// does the verdict.
pub proof fn law_turn_keeps_log_entry(config: ConfigView, request: CheckLogView, outcome: OutcomeView)
    ensures
        resumed(config, request, outcome) matches TurnView::Call(next, _) ==> next.log_entry
            == request.log_entry,
        resumed(config, request, outcome) matches TurnView::Respond(ReplyView::Verdict(judged))
            ==> judged.log_entry == request.log_entry,
{
}

/// Every vector that is searched for has the configured number of components.
pub proof fn law_search_dimension(config: ConfigView, request: CheckLogView, outcome: OutcomeView)
    ensures
        resumed(config, request, outcome) matches TurnView::Call(_, CallView::Search(order))
            ==> order.vector.len() == config.vector_size && order.limit == 1,
{
}

/// A refused request asks nothing of either service, and a request whose
/// embedding failed asks nothing of the vector store.
pub proof fn law_failure_ends_request(
    config: ConfigView,
    member: Option<Seq<char>>,
    request: CheckLogView,
    outcome: OutcomeView,
)
    ensures
        accepted(config, member) matches TurnView::Respond(reply) ==> reply.status() == 400,
        accepted(config, member) matches TurnView::Call(_, call) ==> call is Embed,
        resumed(config, request, outcome) matches TurnView::Call(_, call) ==> call is Search
            && request.awaiting == Awaiting::Embedding && (outcome matches OutcomeView::Embedding(
            reply,
        ) && embedding_of(config, reply) is Ok),
{
}

} // verus!
