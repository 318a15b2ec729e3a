use short_url::error::{JsError, METHOD_NOT_ALLOWED, NOT_FOUND, SERVER_ERROR};
use short_url::trusted::MimeType;
use short_url::{
    handle, mime_needs_cache, need_cache, normalize_path, route, trim_start_matches_slash, Route,
};

fn failure(outcome: Result<Route, JsError>) -> JsError {
    match outcome {
        Err(err) => err,
        Ok(route) => panic!("expected an error, got {:?}", route),
    }
}

#[test]
fn asset_path_goes_to_the_asset_store() {
    let route = handle("https://sho.rt/style.css", "GET");
    let mime = MimeType { essence: "text/css".to_string(), text_html: false };
    assert_eq!(route, Ok(Route::Asset { path: "/style.css".to_string(), mime }));
    assert!(need_cache("https://sho.rt/style.css"));
}

#[test]
fn asset_is_served_whatever_the_method() {
    let by_get = handle("https://sho.rt/app.js", "GET");
    let by_post = handle("https://sho.rt/app.js", "POST");
    let by_delete = handle("https://sho.rt/app.js", "DELETE");
    assert!(matches!(by_get, Ok(Route::Asset { .. })));
    assert_eq!(by_get, by_post);
    assert_eq!(by_get, by_delete);
}

#[test]
fn directory_path_asks_for_its_index_page() {
    let route = handle("https://sho.rt/", "GET");
    let mime = MimeType { essence: "text/html".to_string(), text_html: true };
    assert_eq!(route, Ok(Route::Asset { path: "/index.html".to_string(), mime }));
    let nested = handle("https://sho.rt/docs/", "GET");
    assert!(matches!(nested, Ok(Route::Asset { ref path, .. }) if path == "/docs/index.html"));
}

#[test]
fn url_without_path_is_the_index_page() {
    let route = handle("https://sho.rt", "GET");
    assert!(matches!(route, Ok(Route::Asset { ref path, .. }) if path == "/index.html"));
}

#[test]
fn post_to_new_creates() {
    let route = handle("https://sho.rt/new", "POST");
    assert_eq!(route, Ok(Route::Create { host: "sho.rt".to_string() }));
}

#[test]
fn method_is_compared_in_lower_case() {
    assert_eq!(handle("https://sho.rt/new", "post"), handle("https://sho.rt/new", "POST"));
    assert_eq!(handle("https://sho.rt/new", "Post"), handle("https://sho.rt/new", "POST"));
    assert_eq!(handle("https://sho.rt/Ab3dE", "get"), handle("https://sho.rt/Ab3dE", "GET"));
}

#[test]
fn other_methods_on_new_are_not_allowed() {
    for method in ["GET", "PUT", "DELETE", "PATCH", ""] {
        let err = failure(handle("https://sho.rt/new", method));
        assert_eq!(err.message, "Method Not Allowed");
        assert_eq!(err.status, 415);
        assert_eq!(err.error_code, METHOD_NOT_ALLOWED);
    }
}

#[test]
fn get_of_any_other_path_is_a_lookup() {
    let route = handle("https://sho.rt/Ab3dE", "GET");
    assert_eq!(route, Ok(Route::Redirect { short_url_id: "Ab3dE".to_string() }));
}

#[test]
fn lookup_ignores_query_and_fragment() {
    let route = handle("https://sho.rt/Ab3dE?x=1#top", "GET");
    assert_eq!(route, Ok(Route::Redirect { short_url_id: "Ab3dE".to_string() }));
}

#[test]
fn other_methods_on_other_paths_are_not_found() {
    for method in ["POST", "PUT", "DELETE"] {
        let err = failure(handle("https://sho.rt/Ab3dE", method));
        assert_eq!(err.message, "Not Found");
        assert_eq!(err.status, 404);
        assert_eq!(err.error_code, NOT_FOUND);
    }
}

#[test]
fn unparseable_request_url_is_a_server_error() {
    let err = failure(handle("not a url", "GET"));
    assert_eq!(err.status, 500);
    assert_eq!(err.error_code, SERVER_ERROR);
    assert_eq!(err.message, "relative URL without a base");
}

#[test]
fn url_without_host_builds_links_on_nothing() {
    let route = handle("unix:/new", "POST");
    assert_eq!(route, Ok(Route::Create { host: String::new() }));
}

#[test]
fn route_decides_on_plain_values() {
    let html = MimeType { essence: "text/html".to_string(), text_html: true };
    let asset = route("/new".to_string(), "h".to_string(), Some(html.clone()), "delete");
    assert_eq!(asset, Ok(Route::Asset { path: "/new".to_string(), mime: html }));
    let create = route("/new".to_string(), "h".to_string(), None, "post");
    assert_eq!(create, Ok(Route::Create { host: "h".to_string() }));
    let upper = failure(route("/new".to_string(), "h".to_string(), None, "POST"));
    assert_eq!(upper.error_code, METHOD_NOT_ALLOWED);
    let lookup = route("//a/b".to_string(), "h".to_string(), None, "get");
    assert_eq!(lookup, Ok(Route::Redirect { short_url_id: "a/b".to_string() }));
    let missing = failure(route("/x".to_string(), "h".to_string(), None, "GET"));
    assert_eq!(missing.error_code, NOT_FOUND);
}

#[test]
fn leading_slashes_are_stripped() {
    assert_eq!(trim_start_matches_slash("/abc"), "abc");
    assert_eq!(trim_start_matches_slash("///abc"), "abc");
    assert_eq!(trim_start_matches_slash("abc"), "abc");
    assert_eq!(trim_start_matches_slash("/a/b/"), "a/b/");
    assert_eq!(trim_start_matches_slash("///"), "");
    assert_eq!(trim_start_matches_slash(""), "");
    assert_eq!(trim_start_matches_slash("/é/ü"), "é/ü");
}

#[test]
fn path_is_normalized_only_when_it_ends_in_a_slash() {
    assert_eq!(normalize_path("/".to_string()), "/index.html");
    assert_eq!(normalize_path("/a/".to_string()), "/a/index.html");
    assert_eq!(normalize_path("/a".to_string()), "/a");
    assert_eq!(normalize_path(String::new()), "");
    assert_eq!(normalize_path("/é/".to_string()), "/é/index.html");
}

#[test]
fn need_cache_is_true_for_known_types_but_html() {
    assert!(need_cache("https://sho.rt/logo.png"));
    assert!(need_cache("https://sho.rt/a/b/app.js?v=3"));
    assert!(!need_cache("https://sho.rt/index.html"));
    assert!(!need_cache("https://sho.rt/page.HTML"));
}

#[test]
fn need_cache_is_false_without_a_known_type() {
    assert!(!need_cache("https://sho.rt/"));
    assert!(!need_cache("https://sho.rt/Ab3dE"));
    assert!(!need_cache("https://sho.rt/file.unknownext"));
}

#[test]
fn need_cache_is_false_for_what_is_no_url() {
    assert!(!need_cache("not a url"));
    assert!(!need_cache(""));
    assert!(!need_cache("/style.css"));
}

#[test]
fn caching_follows_the_guess() {
    let css = MimeType { essence: "text/css".to_string(), text_html: false };
    let html = MimeType { essence: "text/html".to_string(), text_html: true };
    assert!(mime_needs_cache(&Some(css)));
    assert!(!mime_needs_cache(&Some(html)));
    assert!(!mime_needs_cache(&None));
}
