use mini_http::render::create_response;
use mini_http::render::handle_goodbye;
use mini_http::render::handle_hello;
use mini_http::render::handle_not_found;
use mini_http::render::handle_submit;
use mini_http::routes::default_routes;
use mini_http::routes::find_handler;
use mini_http::routes::method_from_token;
use mini_http::routes::Handler;
use mini_http::routes::Method;
use mini_http::routes::RouteTable;
use mini_http::server::handle_request;
use mini_http::server::ConnectionOutcome;
use mini_http::wire::serialize_response;

fn page(title: &str, content: &str) -> String {
    format!(
        "\n<!DOCTYPE html>\n<html>\n<head>\n    <title>{}</title>\n</head>\n<body>\n    <h1>{}</h1>\n</body>\n</html>\n",
        title, content
    )
}

/// Splits a wire response into its head (before the blank line) and body.
fn split_response(bytes: &[u8]) -> (String, Vec<u8>) {
    let pos = bytes
        .windows(4)
        .position(|w| w == b"\r\n\r\n")
        .expect("response has no blank line");
    let head = String::from_utf8(bytes[..pos].to_vec()).expect("head is not UTF-8");
    let body = bytes[pos + 4..].to_vec();
    (head, body)
}

fn header_value(head: &str, name: &str) -> String {
    for line in head.split("\r\n").skip(1) {
        let (k, v) = line.split_once(": ").expect("malformed header line");
        if k == name {
            return v.to_string();
        }
    }
    panic!("header {} not found", name);
}

fn reply_bytes(request: &[u8]) -> Vec<u8> {
    let routes = default_routes();
    match handle_request(request, &routes) {
        ConnectionOutcome::Reply(v) => v,
        _ => panic!("expected a reply"),
    }
}

#[test]
fn create_response_fills_template() {
    let (body, content_type, status) = create_response("T", "C", 200);
    assert_eq!(body, page("T", "C"));
    assert_eq!(content_type, "text/html");
    assert_eq!(status, 200);
}

#[test]
fn create_response_passes_status_through() {
    let (_, _, status) = create_response("T", "C", 503);
    assert_eq!(status, 503);
}

#[test]
fn create_response_substitutes_in_order() {
    // {title} is substituted first, so a {content} placeholder the title
    // smuggles in is hit by the second substitution.
    let (body, _, _) = create_response("A{content}B", "X", 200);
    assert_eq!(
        body,
        "\n<!DOCTYPE html>\n<html>\n<head>\n    <title>AXB</title>\n</head>\n<body>\n    <h1>X</h1>\n</body>\n</html>\n"
    );
}

#[test]
fn hello_handler_renders_its_page() {
    let (body, content_type, status) = handle_hello("GET /hello HTTP/1.1\r\n\r\n");
    assert_eq!(status, 200);
    assert_eq!(content_type, "text/html");
    assert_eq!(body, page("Hello Page", "Hello, Rust HTTP Server!"));
    assert!(body.contains("<h1>Hello, Rust HTTP Server!</h1>"));
}

#[test]
fn goodbye_handler_renders_its_page() {
    let (body, _, status) = handle_goodbye("");
    assert_eq!(status, 200);
    assert_eq!(body, page("Goodbye Page", "Goodbye, Rust HTTP Server!"));
}

#[test]
fn submit_handler_renders_its_page() {
    let (body, _, status) = handle_submit("");
    assert_eq!(status, 200);
    assert_eq!(body, page("Submission Page", "Data submitted successfully!"));
}

#[test]
fn not_found_handler_renders_the_fixed_page() {
    let (body, content_type, status) = handle_not_found("");
    assert_eq!(status, 404);
    assert_eq!(content_type, "text/html");
    assert_eq!(body, page("404 - Not Found", "Not Found"));
}

#[test]
fn registered_routes_are_found() {
    let routes = default_routes();
    assert_eq!(find_handler("/hello", Method::Get, &routes), Some(Handler::Hello));
    assert_eq!(find_handler("/bye", Method::Get, &routes), Some(Handler::Goodbye));
    assert_eq!(find_handler("/submit", Method::Post, &routes), Some(Handler::Submit));
}

#[test]
fn lookup_is_case_sensitive() {
    let routes = default_routes();
    assert_eq!(find_handler("/Hello", Method::Get, &routes), None);
    assert_eq!(find_handler("/HELLO", Method::Get, &routes), None);
}

#[test]
fn lookup_requires_the_registered_method() {
    let routes = default_routes();
    assert_eq!(find_handler("/hello", Method::Post, &routes), None);
    assert_eq!(find_handler("/submit", Method::Get, &routes), None);
}

#[test]
fn lookup_misses_unknown_paths() {
    let routes = default_routes();
    assert_eq!(find_handler("/missing", Method::Get, &routes), None);
    assert_eq!(find_handler("/hello/", Method::Get, &routes), None);
}

#[test]
fn last_registration_wins() {
    let mut routes = RouteTable::new();
    routes.register("/page", Method::Get, Handler::Hello);
    routes.register("/page", Method::Get, Handler::Goodbye);
    assert_eq!(find_handler("/page", Method::Get, &routes), Some(Handler::Goodbye));
}

#[test]
fn method_tokens_are_exact() {
    assert_eq!(method_from_token("GET"), Some(Method::Get));
    assert_eq!(method_from_token("POST"), Some(Method::Post));
    assert_eq!(method_from_token("DELETE"), Some(Method::Delete));
    assert_eq!(method_from_token("get"), None);
    assert_eq!(method_from_token("FETCH"), None);
    assert_eq!(method_from_token(""), None);
}

#[test]
fn serialize_response_exact_bytes() {
    let bytes = serialize_response(200, "text/html", "hi");
    assert_eq!(
        bytes,
        b"HTTP/1.1 200\r\nContent-Length: 2\r\nContent-Type: text/html\r\n\r\nhi".to_vec()
    );
}

#[test]
fn content_length_counts_bytes_not_chars() {
    // One two-byte character: two chars of text, three bytes of body.
    let bytes = serialize_response(200, "text/html", "h\u{e9}");
    let (head, body) = split_response(&bytes);
    assert_eq!(header_value(&head, "Content-Length"), "3");
    assert_eq!(body.len(), 3);
}

#[test]
fn content_length_matches_body_exactly() {
    let reply = reply_bytes(b"GET /hello HTTP/1.1\r\nHost: x\r\n\r\n");
    let (head, body) = split_response(&reply);
    let declared: usize = header_value(&head, "Content-Length").parse().unwrap();
    assert_eq!(declared, body.len());
}

#[test]
fn get_hello_scenario() {
    let reply = reply_bytes(b"GET /hello HTTP/1.1\r\nHost: x\r\n\r\n");
    let (head, body) = split_response(&reply);
    assert!(head.starts_with("HTTP/1.1 200\r\n"));
    assert_eq!(header_value(&head, "Content-Type"), "text/html");
    let body = String::from_utf8(body).unwrap();
    assert!(body.contains("<h1>Hello, Rust HTTP Server!</h1>"));
    assert_eq!(body, page("Hello Page", "Hello, Rust HTTP Server!"));
}

#[test]
fn post_submit_scenario() {
    let reply = reply_bytes(b"POST /submit HTTP/1.1\r\nHost: x\r\nContent-Length: 0\r\n\r\n");
    let (head, body) = split_response(&reply);
    assert!(head.starts_with("HTTP/1.1 200\r\n"));
    let body = String::from_utf8(body).unwrap();
    assert!(body.contains("Data submitted successfully!"));
}

#[test]
fn get_missing_scenario() {
    let reply = reply_bytes(b"GET /missing HTTP/1.1\r\n\r\n");
    let (head, body) = split_response(&reply);
    assert!(head.starts_with("HTTP/1.1 404\r\n"));
    let body = String::from_utf8(body).unwrap();
    assert_eq!(body, page("404 - Not Found", "Not Found"));
}

#[test]
fn capitalized_path_gets_not_found() {
    let reply = reply_bytes(b"GET /Hello HTTP/1.1\r\nHost: x\r\n\r\n");
    let (head, _) = split_response(&reply);
    assert!(head.starts_with("HTTP/1.1 404\r\n"));
}

#[test]
fn wrong_method_gets_not_found() {
    let reply = reply_bytes(b"POST /hello HTTP/1.1\r\nHost: x\r\n\r\n");
    let (head, _) = split_response(&reply);
    assert!(head.starts_with("HTTP/1.1 404\r\n"));
}

#[test]
fn unknown_method_token_gets_not_found() {
    let reply = reply_bytes(b"FETCH /hello HTTP/1.1\r\nHost: x\r\n\r\n");
    let (head, _) = split_response(&reply);
    assert!(head.starts_with("HTTP/1.1 404\r\n"));
}

#[test]
fn empty_read_closes_cleanly() {
    let routes = default_routes();
    assert!(matches!(handle_request(b"", &routes), ConnectionOutcome::CleanClose));
}

#[test]
fn malformed_request_closes_without_reply() {
    let routes = default_routes();
    let r = handle_request(b"\x00\x01\x02 not http\r\n\r\n", &routes);
    assert!(matches!(r, ConnectionOutcome::ParseFailure));
}

#[test]
fn truncated_request_closes_without_reply() {
    let routes = default_routes();
    let r = handle_request(b"GET /hello", &routes);
    assert!(matches!(r, ConnectionOutcome::ParseFailure));
}

#[test]
fn next_request_is_served_after_a_malformed_one() {
    let routes = default_routes();
    let bad = handle_request(b"\xff\xfe\r\n\r\n", &routes);
    assert!(matches!(bad, ConnectionOutcome::ParseFailure));
    let good = handle_request(b"GET /bye HTTP/1.1\r\nHost: x\r\n\r\n", &routes);
    match good {
        ConnectionOutcome::Reply(v) => {
            let (head, body) = split_response(&v);
            assert!(head.starts_with("HTTP/1.1 200\r\n"));
            assert!(String::from_utf8(body).unwrap().contains("Goodbye, Rust HTTP Server!"));
        }
        _ => panic!("expected a reply"),
    }
}
