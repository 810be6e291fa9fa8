//! The HTTP surface as decisions: the route table, the liveness probe, and
//! the mock reranking endpoint.  Binding sockets and speaking HTTP is left
//! to the process around the library.

use vstd::prelude::*;

use crate::app_context::AppContext;
use crate::config::ServerConfig;
use crate::text::str_eq;

verus! {

/// Per-request view of the shared dependencies.
pub struct AppState {
    pub context: AppContext,
}

/// The service: its configuration and the shared context handed to every
/// handler.
pub struct Server {
    pub config: ServerConfig,
    pub context: AppContext,
}

impl Server {
    pub fn new(context: AppContext) -> (r: Self)
        ensures
            r.config == context.server_config,
            r.context == context,
    {
        let config = context.server_config.clone();
        Server { config, context }
    }
}

/// The three endpoints the service exposes.
#[derive(Clone, Copy, Debug, PartialEq, Eq, Structural)]
pub enum Route {
    Health,
    Rerank,
    Predict,
}

/// The route table: which endpoint a method and path reach, if any.
pub open spec fn spec_route(method: Seq<char>, path: Seq<char>) -> Option<Route> {
    if method == "GET"@ && path == "/health"@ {
        Some(Route::Health)
    } else if method == "POST"@ && path == "/rerank"@ {
        Some(Route::Rerank)
    } else if method == "POST"@ && path == "/sy/on/predict"@ {
        Some(Route::Predict)
    } else {
        None
    }
}

/// Dispatches a request line to its endpoint, exactly as the route table
/// says.
pub fn route_for(method: &str, path: &str) -> (r: Option<Route>)
    ensures
        r == spec_route(method@, path@),
{
    if str_eq(method, "GET") && str_eq(path, "/health") {
        Some(Route::Health)
    } else if str_eq(method, "POST") && str_eq(path, "/rerank") {
        Some(Route::Rerank)
    } else if str_eq(method, "POST") && str_eq(path, "/sy/on/predict") {
        Some(Route::Predict)
    } else {
        None
    }
}

/// The liveness probe: a fixed 200 with a literal body, whatever the state
/// of the rest of the process.
pub fn health() -> (r: (u16, &'static str))
    ensures
        r.0 == 200,
        r.1@ == "ok"@,
{
    (200, "ok")
}

/// A reranking request: a model name, a query, and the documents to score.
pub struct RerankRequest {
    pub model: String,
    pub query: String,
    pub documents: Vec<String>,
}

/// One scored document.  The mock scorer assigns the reciprocal relevance
/// score `1 / relevance_rank`; the rank is kept as an exact integer and is
/// rendered as a floating-point quotient at the transport boundary.
pub struct RerankResult {
    pub index: usize,
    pub document: String,
    pub relevance_rank: usize,
}

/// The reranking response: one result per input document, in input order.
pub struct RerankResponse {
    pub results: Vec<RerankResult>,
}

/// The mock scorer's output for a document sequence: one result per
/// document, in input order, the document carried verbatim, and rank
/// `i + 1` at position `i` (so the reciprocal scores fall strictly).
pub open spec fn is_mock_ranking(docs: Seq<String>, results: Seq<RerankResult>) -> bool {
    &&& results.len() == docs.len()
    &&& forall|i: int|
        0 <= i < results.len() ==> {
            &&& (#[trigger] results[i]).index == i
            &&& results[i].document == docs[i]
            &&& results[i].relevance_rank == i + 1
        }
}

/// The mock reranking endpoint: returns the documents in input order with
/// strictly falling reciprocal scores.  The scorer is a placeholder for an
/// external model collaborator; swapping it changes the scores, not the
/// shape of the response.
pub fn rerank(body: RerankRequest) -> (r: RerankResponse)
    ensures
        is_mock_ranking(body.documents@, r.results@),
{
    let n = body.documents.len();
    let mut results: Vec<RerankResult> = Vec::new();
    let mut i: usize = 0;
    while i < n
        invariant
            n == body.documents@.len(),
            i <= n,
            results@.len() == i,
            forall|j: int|
                0 <= j < i ==> {
                    &&& (#[trigger] results@[j]).index == j
                    &&& results@[j].document == body.documents@[j]
                    &&& results@[j].relevance_rank == j + 1
                },
        decreases n - i,
    {
        let document = body.documents[i].clone();
        results.push(RerankResult { index: i, document, relevance_rank: i + 1 });
        i += 1;
    }
    RerankResponse { results }
}

/// Law: in a mock ranking the relevance ranks rise strictly with the result
/// position, so the reciprocal relevance scores fall strictly along the
/// returned order.
pub proof fn lemma_mock_scores_strictly_decreasing(
    docs: Seq<String>,
    results: Seq<RerankResult>,
    i: int,
    j: int,
)
    requires
        is_mock_ranking(docs, results),
        0 <= i < j < results.len(),
    ensures
        results[i].relevance_rank < results[j].relevance_rank,
{
}

} // verus!
