use catalog_service::route::{STATUS_NOT_FOUND, STATUS_OK};
use catalog_service::{healthz, is_probe_request, respond, Response};

#[test]
fn healthz_returns_ok() {
    assert_eq!(healthz(), "ok");
}

#[test]
fn health_body_is_two_bytes() {
    assert_eq!(healthz().len(), 2);
    assert_eq!(healthz().as_bytes(), &[0x6f, 0x6b]);
}

#[test]
fn get_root_is_200_ok() {
    let response = respond("GET", "/");
    assert_eq!(response.status, 200);
    assert_eq!(response.body, Some("ok"));
    assert_eq!(response, Response { status: 200, body: Some("ok") });
}

#[test]
fn status_constants() {
    assert_eq!(STATUS_OK, 200);
    assert_eq!(STATUS_NOT_FOUND, 404);
}

#[test]
fn get_nonexistent_is_404() {
    let response = respond("GET", "/nonexistent");
    assert_eq!(response.status, 404);
    assert_eq!(response.body, None);
}

#[test]
fn probe_then_unknown_path() {
    assert_eq!(respond("GET", "/"), Response { status: 200, body: Some("ok") });
    assert_eq!(respond("GET", "/nonexistent").status, 404);
}

#[test]
fn other_paths_are_404() {
    let paths = [
        "", "//", "/healthz", "/index.html", "/ok", "/?", "/?probe=1", "/#", " /", "/ ", "/.",
        "/..", "\\", "*", "/\u{e9}", "\u{2215}", "/\0",
    ];
    for path in paths {
        let response = respond("GET", path);
        assert_eq!(response, Response { status: 404, body: None }, "GET {:?}", path);
    }
}

#[test]
fn other_methods_on_root_are_404() {
    let methods = [
        "HEAD", "POST", "PUT", "DELETE", "OPTIONS", "PATCH", "TRACE", "CONNECT", "get", "Get",
        "GE", "GETT", " GET", "GET ", "", "G\u{c9}T",
    ];
    for method in methods {
        let response = respond(method, "/");
        assert_eq!(response, Response { status: 404, body: None }, "{:?} /", method);
    }
}

#[test]
fn other_methods_on_other_paths_are_404() {
    assert_eq!(respond("POST", "/nonexistent").status, 404);
    assert_eq!(respond("HEAD", "/healthz").status, 404);
    assert_eq!(respond("", "").status, 404);
}

#[test]
fn long_inputs_are_404() {
    let long_path = format!("/{}", "a".repeat(100_000));
    assert_eq!(respond("GET", &long_path).status, 404);
    let long_method = "GET".repeat(50_000);
    assert_eq!(respond(&long_method, "/").status, 404);
}

#[test]
fn route_table_has_one_entry() {
    assert!(is_probe_request("GET", "/"));
    assert!(!is_probe_request("GET", "/nonexistent"));
    assert!(!is_probe_request("POST", "/"));
    assert!(!is_probe_request("/", "GET"));
    assert!(!is_probe_request("", ""));
}

#[test]
fn respond_agrees_with_route_table() {
    let methods = ["GET", "POST", "HEAD", "get", ""];
    let paths = ["/", "/nonexistent", "", "//"];
    for method in methods {
        for path in paths {
            let expected = if is_probe_request(method, path) { 200 } else { 404 };
            assert_eq!(respond(method, path).status, expected);
        }
    }
}

#[test]
fn fifty_probes_each_get_ok() {
    let mut responses = Vec::new();
    for _ in 0..50 {
        responses.push(respond("GET", "/"));
    }
    assert_eq!(responses.len(), 50);
    for response in responses {
        assert_eq!(response.status, 200);
        assert_eq!(response.body, Some("ok"));
    }
}

#[test]
fn thousand_probes_in_a_row_are_identical() {
    let first = respond("GET", "/");
    for _ in 0..1000 {
        assert_eq!(respond("GET", "/"), first);
    }
    assert_eq!(first, Response { status: 200, body: Some("ok") });
}

#[test]
fn probes_are_not_disturbed_by_other_requests() {
    let before = respond("GET", "/");
    let miss = respond("DELETE", "/nonexistent");
    let after = respond("GET", "/");
    assert_eq!(miss.status, 404);
    assert_eq!(before, after);
    assert_eq!(respond("DELETE", "/nonexistent"), miss);
}
