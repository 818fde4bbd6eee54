use dev_https_server::handler::compose_response;
use dev_https_server::handler::resolve_file_path;
use dev_https_server::handler::HttpResponse;
use dev_https_server::handler::ResponseBody;
use dev_https_server::rewrite::AUDIO_SCRIPT;

fn header<'a>(resp: &'a HttpResponse, name: &str) -> Option<&'a str> {
    resp.headers
        .iter()
        .find(|(n, _)| n == name)
        .map(|(_, v)| v.as_str())
}

fn buffered(resp: &HttpResponse) -> &str {
    match &resp.body {
        ResponseBody::Buffered(text) => text.as_str(),
        ResponseBody::Stream => panic!("expected a buffered body"),
    }
}

#[test]
fn root_resolves_to_default_document() {
    assert_eq!(resolve_file_path("/"), "index.html");
}

#[test]
fn leading_separators_are_stripped() {
    assert_eq!(resolve_file_path("/game.wasm"), "game.wasm");
    assert_eq!(resolve_file_path("//nested/file.pck"), "nested/file.pck");
    assert_eq!(resolve_file_path("/sub/dir/page.html"), "sub/dir/page.html");
    assert_eq!(resolve_file_path(""), "");
    // No canonicalization is performed: traversal segments pass through.
    assert_eq!(resolve_file_path("/../up.txt"), "../up.txt");
}

#[test]
fn missing_file_gets_fixed_404() {
    let resp = compose_response("no-such-file.txt", "", None, false);
    assert_eq!(resp.status, 404);
    assert_eq!(buffered(&resp), "404 Not Found");
    assert_eq!(header(&resp, "Cross-Origin-Opener-Policy"), Some("same-origin"));
    assert_eq!(header(&resp, "Cross-Origin-Embedder-Policy"), Some("require-corp"));
}

#[test]
fn non_html_text_is_returned_unchanged() {
    let content = "key=value\ncount=3\n";
    let resp = compose_response("settings.txt", "", Some(content.to_string()), false);
    assert_eq!(resp.status, 200);
    assert_eq!(buffered(&resp), content);
    assert_eq!(header(&resp, "Cache-Control"), Some("public, max-age=86400"));
    assert_eq!(header(&resp, "Content-Type"), Some("text/plain"));
}

#[test]
fn binary_file_is_streamed() {
    let resp = compose_response("game.wasm", "", None, true);
    assert_eq!(resp.status, 200);
    assert!(matches!(resp.body, ResponseBody::Stream));
    assert_eq!(header(&resp, "Cache-Control"), Some("public, max-age=86400"));
    assert_eq!(header(&resp, "Content-Type"), Some("application/wasm"));
}

#[test]
fn html_is_rewritten_and_never_cached() {
    let content = "<html><head></head><body>game</body></html>";
    let resp = compose_response("index.html", "audio=worklet", Some(content.to_string()), false);
    assert_eq!(resp.status, 200);
    let pos = content.find("</head>").unwrap();
    let expected = format!("{}{}{}", &content[..pos], AUDIO_SCRIPT, &content[pos..]);
    assert_eq!(buffered(&resp), expected);
    assert_eq!(header(&resp, "Cache-Control"), None);
    assert_eq!(header(&resp, "Content-Type"), Some("text/html"));
}

#[test]
fn html_without_head_close_is_served_unchanged() {
    let content = "<body>bare fragment</body>";
    let resp = compose_response("fragment.html", "", Some(content.to_string()), false);
    assert_eq!(resp.status, 200);
    assert_eq!(buffered(&resp), content);
    assert_eq!(header(&resp, "Cache-Control"), None);
}

#[test]
fn unknown_extension_gets_no_content_type() {
    let resp = compose_response("archive.zzqqx", "", Some("data".to_string()), false);
    assert_eq!(header(&resp, "Content-Type"), None);
    assert_eq!(header(&resp, "Cache-Control"), Some("public, max-age=86400"));
}

#[test]
fn header_order_is_isolation_first() {
    let resp = compose_response("a.txt", "", None, false);
    assert_eq!(resp.headers[0].0, "Cross-Origin-Opener-Policy");
    assert_eq!(resp.headers[1].0, "Cross-Origin-Embedder-Policy");
}

#[test]
fn responses_are_independent_across_requests() {
    let first_content = "first file";
    let second_content = "<html><head></head></html>";
    let first = compose_response("a.txt", "", Some(first_content.to_string()), false);
    let second = compose_response("b.html", "", Some(second_content.to_string()), false);
    let first_again = compose_response("a.txt", "", Some(first_content.to_string()), false);
    assert_eq!(buffered(&first), first_content);
    assert!(buffered(&second).contains(AUDIO_SCRIPT));
    assert_eq!(buffered(&first), buffered(&first_again));
    assert_eq!(header(&first, "Content-Type"), Some("text/plain"));
    assert_eq!(header(&second, "Content-Type"), Some("text/html"));
}
