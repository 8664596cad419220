use commit_bridge::http::router::HttpRequestOnResponse;

#[test]
fn test_should_mark_error_server_errors_always_marked() {
    assert!(HttpRequestOnResponse::new(false).should_mark_error(500));
    assert!(HttpRequestOnResponse::new(true).should_mark_error(502));
}

#[test]
fn test_should_mark_error_client_errors_opt_in() {
    assert!(!HttpRequestOnResponse::new(false).should_mark_error(404));
    assert!(HttpRequestOnResponse::new(true).should_mark_error(404));
}

#[test]
fn test_should_mark_error_success_and_redirects_never_marked() {
    let on_response = HttpRequestOnResponse::new(true);
    assert!(!on_response.should_mark_error(200));
    assert!(!on_response.should_mark_error(301));
}

#[test]
fn status_boundaries_are_exact() {
    let marks_client = HttpRequestOnResponse::new(true);
    let ignores_client = HttpRequestOnResponse::new(false);
    assert!(!marks_client.should_mark_error(399));
    assert!(marks_client.should_mark_error(400));
    assert!(marks_client.should_mark_error(499));
    assert!(!ignores_client.should_mark_error(499));
    assert!(ignores_client.should_mark_error(599));
    assert!(!ignores_client.should_mark_error(600));
}
