use rust_web::server::{health, rerank, route_for, RerankRequest, Route};

#[test]
fn health_always_answers_ok() {
    let (status, body) = health();
    assert_eq!(status, 200);
    assert_eq!(body, "ok");
}

#[test]
fn route_table_matches_the_three_endpoints() {
    assert_eq!(route_for("GET", "/health"), Some(Route::Health));
    assert_eq!(route_for("POST", "/rerank"), Some(Route::Rerank));
    assert_eq!(route_for("POST", "/sy/on/predict"), Some(Route::Predict));
    assert_eq!(route_for("POST", "/health"), None);
    assert_eq!(route_for("GET", "/rerank"), None);
    assert_eq!(route_for("GET", "/sy/on/predict"), None);
    assert_eq!(route_for("GET", "/missing"), None);
}

#[test]
fn rerank_scores_documents_in_input_order() {
    let request = RerankRequest {
        model: "m".to_string(),
        query: "q".to_string(),
        documents: vec!["a".to_string(), "b".to_string(), "c".to_string()],
    };
    let response = rerank(request);
    assert_eq!(response.results.len(), 3);

    assert_eq!(response.results[0].index, 0);
    assert_eq!(response.results[0].document, "a");
    assert_eq!(response.results[0].relevance_rank, 1);
    assert_eq!(1.0f32 / response.results[0].relevance_rank as f32, 1.0f32);

    assert_eq!(response.results[1].index, 1);
    assert_eq!(response.results[1].document, "b");
    assert_eq!(response.results[1].relevance_rank, 2);
    assert_eq!(1.0f32 / response.results[1].relevance_rank as f32, 0.5f32);

    assert_eq!(response.results[2].index, 2);
    assert_eq!(response.results[2].document, "c");
    assert_eq!(response.results[2].relevance_rank, 3);
    assert_eq!(1.0f32 / response.results[2].relevance_rank as f32, 1.0f32 / 3.0f32);
}

#[test]
fn rerank_with_no_documents_returns_no_results() {
    let request = RerankRequest {
        model: "m".to_string(),
        query: "q".to_string(),
        documents: Vec::new(),
    };
    let response = rerank(request);
    assert!(response.results.is_empty());
}
