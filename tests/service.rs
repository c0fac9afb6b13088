use std::collections::HashMap;

use short_urls::create::{
    create_short_id, finish_create, post_reply, resolve_short_id, CreateError, CreationRequest,
    Mapping, StoreWrite,
};
use short_urls::reply::{Cors, Reply};
use short_urls::router::{editor_reply, redirect_reply, redirect_target, route, Method, Step, StoreLookup};

const PASS: &str = "hunter2";

fn good_cookie() -> Option<Result<String, String>> {
    Some(Ok(format!("theme=dark; passcode={}", PASS)))
}

fn reference() -> Result<Option<String>, String> {
    Ok(Some(PASS.to_string()))
}

fn body(short: Option<&str>, url: &str) -> Result<CreationRequest, String> {
    Ok(CreationRequest { short: short.map(|s| s.to_string()), url: url.to_string() })
}

/// Serves a `GET` against an in-memory store, as the host does with the real one.
fn get(store: &HashMap<String, String>, path: &str) -> Reply {
    match route(Method::Get, path) {
        Step::Respond(r) => r,
        Step::Lookup(id) => match store.get(&id) {
            Some(u) => redirect_reply(StoreLookup::Found(u.clone())),
            None => redirect_reply(StoreLookup::Missing),
        },
        Step::ServeEditor => editor_reply(Some(PASS.to_string())),
        Step::Create => panic!("a GET never creates"),
    }
}

/// Serves a `POST` against an in-memory store, as the host does with the real one.
fn post(
    store: &mut HashMap<String, String>,
    cookie: Option<Result<String, String>>,
    body: Result<CreationRequest, String>,
) -> Reply {
    let outcome = match create_short_id(cookie, reference(), body) {
        Ok(Mapping { short, url }) => {
            store.insert(short.clone(), url);
            finish_create(short, StoreWrite::Done)
        }
        Err(e) => Err(e),
    };
    post_reply(outcome)
}

#[test]
fn get_of_stored_id_redirects() {
    let mut store = HashMap::new();
    store.insert("abc123".to_string(), "https://example.org/page".to_string());
    let r = get(&store, "/abc123");
    assert_eq!(r.status(), 301);
    assert_eq!(r.location(), Some("https://example.org/page".to_string()));
    assert_eq!(r.cors(), Cors::Origin);
    assert_eq!(r.text(), None);
}

#[test]
fn get_api_goes_to_docs() {
    let mut store = HashMap::new();
    store.insert("api".to_string(), "https://elsewhere.example".to_string());
    assert!(matches!(route(Method::Get, "/api"), Step::Respond(Reply::Docs)));
    let r = get(&store, "/api");
    assert_eq!(r.status(), 301);
    assert_eq!(r.location(), Some("https://developer.fastly.com/reference/api/".to_string()));
    assert_eq!(r.cors(), Cors::Off);
}

#[test]
fn get_of_invalid_id_is_not_found_without_lookup() {
    for path in ["/a-b", "/a/b", "/x y", "/caf\u{e9}", "/api/"] {
        match route(Method::Get, path) {
            Step::Respond(r) => {
                assert_eq!(r.status(), 404);
                assert_eq!(r.text(), Some("mal-formatted short id".to_string()));
            }
            other => panic!("unexpected step {:?}", other),
        }
    }
}

#[test]
fn get_of_path_without_id_is_malformed_url() {
    for path in ["", "x", "ab"] {
        match route(Method::Get, path) {
            Step::Respond(r) => {
                assert_eq!(r.status(), 404);
                assert_eq!(r.text(), Some("mal-formatted URL".to_string()));
            }
            other => panic!("unexpected step {:?}", other),
        }
    }
}

#[test]
fn get_of_valid_id_is_a_lookup() {
    match redirect_target("/Zz9") {
        Step::Lookup(id) => assert_eq!(id, "Zz9"),
        other => panic!("unexpected step {:?}", other),
    }
}

#[test]
fn get_of_missing_id_is_not_found() {
    let store = HashMap::new();
    let r = get(&store, "/nothing");
    assert_eq!(r.status(), 404);
    assert_eq!(r.text(), Some("redirect location not found".to_string()));
}

#[test]
fn lookup_failures_are_not_found() {
    let r = redirect_reply(StoreLookup::NoStore);
    assert_eq!(r.status(), 404);
    assert_eq!(r.text(), Some("object store not exists".to_string()));
    let r = redirect_reply(StoreLookup::Fault("store broke".to_string()));
    assert_eq!(r.status(), 404);
    assert_eq!(r.text(), Some("store broke".to_string()));
}

#[test]
fn get_root_serves_editor_with_cookie() {
    assert!(matches!(route(Method::Get, "/"), Step::ServeEditor));
    let r = editor_reply(Some("pw".to_string()));
    assert_eq!(r.status(), 200);
    assert_eq!(
        r.set_cookie(),
        Some("passcode=pw; Secure; HttpOnly; SameSite=Strict".to_string())
    );
    assert_eq!(r.text(), None);
}

#[test]
fn get_root_without_passcode_is_config_error() {
    let r = editor_reply(None);
    assert_eq!(r.status(), 500);
    assert_eq!(r.text(), Some("Missing configuration".to_string()));
    assert_eq!(r.set_cookie(), None);
}

#[test]
fn post_generates_id_that_resolves() {
    let mut store = HashMap::new();
    assert!(matches!(route(Method::Post, "/"), Step::Create));
    let r = post(&mut store, good_cookie(), body(None, "https://example.com"));
    assert_eq!(r.status(), 201);
    assert_eq!(r.cors(), Cors::Origin);
    let short = match r {
        Reply::Created { short } => short,
        other => panic!("unexpected reply {:?}", other),
    };
    assert_eq!(short.len(), 8);
    assert!(short.chars().all(|c| c.is_ascii_alphanumeric()));
    let g = get(&store, &format!("/{}", short));
    assert_eq!(g.status(), 301);
    assert_eq!(g.location(), Some("https://example.com".to_string()));
}

#[test]
fn post_with_empty_short_generates_id() {
    let mut store = HashMap::new();
    let r = post(&mut store, good_cookie(), body(Some(""), "https://example.com"));
    match r {
        Reply::Created { short } => assert_eq!(short.len(), 8),
        other => panic!("unexpected reply {:?}", other),
    }
}

#[test]
fn post_with_wrong_or_missing_passcode_is_refused() {
    let cookies = [
        Some(Ok("passcode=wrong".to_string())),
        Some(Ok("other=1".to_string())),
        Some(Err("failed to convert header to a str".to_string())),
        None,
    ];
    for cookie in cookies {
        let mut store = HashMap::new();
        let r = post(&mut store, cookie, body(Some("k1"), "https://example.com"));
        assert_eq!(r.status(), 406);
        assert!(store.is_empty());
        assert_eq!(get(&store, "/k1").status(), 404);
    }
}

#[test]
fn post_with_custom_short_stores_it_verbatim() {
    let mut store = HashMap::new();
    let r = post(&mut store, good_cookie(), body(Some("custom1"), "https://example.com"));
    assert_eq!(r.status(), 201);
    assert!(matches!(&r, Reply::Created { short } if short == "custom1"));
    assert_eq!(store.get("custom1"), Some(&"https://example.com".to_string()));
    assert_eq!(get(&store, "/custom1").location(), Some("https://example.com".to_string()));
}

#[test]
fn post_with_invalid_custom_short_is_stored_unchecked() {
    let mut store = HashMap::new();
    let r = post(&mut store, good_cookie(), body(Some("a/b"), "https://example.com"));
    assert_eq!(r.status(), 201);
    assert!(store.contains_key("a/b"));
    assert_eq!(get(&store, "/a/b").status(), 404);
}

#[test]
fn second_post_with_same_short_wins() {
    let mut store = HashMap::new();
    post(&mut store, good_cookie(), body(Some("dup"), "https://first.example"));
    post(&mut store, good_cookie(), body(Some("dup"), "https://second.example"));
    assert_eq!(get(&store, "/dup").location(), Some("https://second.example".to_string()));
}

#[test]
fn options_is_preflight_anywhere() {
    for path in ["/", "/anything", "", "/a/b?c"] {
        match route(Method::Options, path) {
            Step::Respond(r) => {
                assert_eq!(r.status(), 204);
                assert_eq!(r.allow(), Some("GET, POST, OPTIONS".to_string()));
                assert_eq!(r.cors(), Cors::Full);
                assert_eq!(r.text(), None);
            }
            other => panic!("unexpected step {:?}", other),
        }
    }
}

#[test]
fn other_methods_are_not_allowed() {
    match route(Method::Other, "/x") {
        Step::Respond(r) => {
            assert_eq!(r.status(), 405);
            assert_eq!(r.allow(), Some("GET, POST, OPTIONS".to_string()));
            assert_eq!(r.text(), Some("This method is not allowed\n".to_string()));
        }
        other => panic!("unexpected step {:?}", other),
    }
}

fn create_err(
    cookie: Option<Result<String, String>>,
    reference: Result<Option<String>, String>,
    body: Result<CreationRequest, String>,
) -> CreateError {
    match create_short_id(cookie, reference, body) {
        Err(e) => e,
        Ok(m) => panic!("unexpected mapping {:?}", m),
    }
}

#[test]
fn create_error_kinds_and_messages() {
    let b = || body(None, "https://example.com");
    let e = create_err(good_cookie(), Err("secret store down".to_string()), b());
    assert!(matches!(e, CreateError::SecretFault(_)));
    assert_eq!(e.message(), "secret store down");
    let e = create_err(good_cookie(), Ok(None), b());
    assert!(matches!(e, CreateError::MissingSecret));
    assert_eq!(e.message(), "Passcode not found");
    let e = create_err(None, reference(), b());
    assert!(matches!(e, CreateError::NoCookie));
    assert_eq!(e.message(), "No cookie found");
    let e = create_err(Some(Err("bad header".to_string())), reference(), b());
    assert!(matches!(e, CreateError::BadCookie(_)));
    assert_eq!(e.message(), "bad header");
    let e = create_err(Some(Ok("a=b".to_string())), reference(), b());
    assert!(matches!(e, CreateError::NoPasscode));
    assert_eq!(e.message(), "No passcode found in cookie");
    let e = create_err(Some(Ok("passcode=nope".to_string())), reference(), b());
    assert!(matches!(e, CreateError::Mismatch));
    assert_eq!(e.message(), "passcode not matching");
    let e = create_err(good_cookie(), reference(), Err("missing field `url`".to_string()));
    assert!(matches!(e, CreateError::MalformedBody(_)));
    assert_eq!(e.message(), "missing field `url`");
}

#[test]
fn reference_is_checked_before_cookie_and_body() {
    let e = create_err(None, Ok(None), Err("bad".to_string()));
    assert!(matches!(e, CreateError::MissingSecret));
    let e = create_err(Some(Ok("passcode=nope".to_string())), reference(), Err("bad".to_string()));
    assert!(matches!(e, CreateError::Mismatch));
}

#[test]
fn store_write_outcomes() {
    assert_eq!(finish_create("k".to_string(), StoreWrite::Done).unwrap(), "k");
    let e = finish_create("k".to_string(), StoreWrite::NoStore).unwrap_err();
    assert!(matches!(e, CreateError::NoStore));
    assert_eq!(e.message(), "object store not exists");
    let e = finish_create("k".to_string(), StoreWrite::Fault("write failed".to_string())).unwrap_err();
    assert!(matches!(e, CreateError::StoreFault(_)));
    assert_eq!(e.message(), "write failed");
    let r = post_reply(Err(e));
    assert_eq!(r.status(), 406);
    assert_eq!(r.text(), Some("write failed".to_string()));
}

#[test]
fn resolve_short_id_prefers_request() {
    assert_eq!(resolve_short_id(Some("mine".to_string())), "mine");
    assert_eq!(resolve_short_id(Some(String::new())).len(), 8);
    assert_eq!(resolve_short_id(None).len(), 8);
}
