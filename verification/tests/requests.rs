use image_server::handler::{
    after_cache_lookup, after_file_load, make_key, start_request, AfterLookup, CacheOutcome,
    Response, Step,
};

fn lookup_key(directory: &str, filename: &str) -> String {
    match start_request(directory, filename) {
        Step::Lookup(key) => key,
        Step::Reject(_) => panic!("expected the request to proceed to the cache lookup"),
    }
}

#[test]
fn composite_key_joins_with_slash() {
    assert_eq!(make_key("icons", "logo.png"), "icons/logo.png");
    assert_eq!(make_key("a", "b"), "a/b");
}

#[test]
fn valid_request_orders_cache_lookup() {
    let key = lookup_key("icons", "logo.png");
    assert_eq!(key, "icons/logo.png");
}

#[test]
fn traversal_request_rejected_before_any_access() {
    // directory "../etc" must end in a 400 with no cache or filesystem
    // order issued: the first step is already terminal.
    match start_request("../etc", "passwd") {
        Step::Reject(r) => {
            assert_eq!(r.status_code(), 400);
            assert!(r.content_type().is_none());
        }
        Step::Lookup(_) => panic!("traversal request must not reach the cache"),
    }
}

#[test]
fn invalid_filename_rejected() {
    match start_request("icons", "logo%2e.png") {
        Step::Reject(r) => assert_eq!(r.status_code(), 400),
        Step::Lookup(_) => panic!("invalid filename must not reach the cache"),
    }
}

#[test]
fn cache_hit_served_without_filesystem() {
    let key = lookup_key("icons", "logo.png");
    let cached = vec![0xFF, 0xD8, 0x01, 0x02];
    // A hit is terminal: no Load step is ever produced, so the
    // filesystem cannot be touched.
    match after_cache_lookup(key, CacheOutcome::Hit(cached.clone())) {
        AfterLookup::Serve(Response::Success(body)) => assert_eq!(body, cached),
        _ => panic!("a cache hit must be served directly"),
    }
}

#[test]
fn cache_miss_falls_back_to_filesystem() {
    let key = lookup_key("icons", "logo.png");
    match after_cache_lookup(key, CacheOutcome::Miss) {
        AfterLookup::Load(path) => assert_eq!(path, "icons/logo.png"),
        AfterLookup::Serve(_) => panic!("a miss must fall back to the filesystem"),
    }
}

#[test]
fn cache_failure_falls_back_to_filesystem() {
    let key = lookup_key("icons", "logo.png");
    match after_cache_lookup(key, CacheOutcome::Unavailable) {
        AfterLookup::Load(path) => assert_eq!(path, "icons/logo.png"),
        AfterLookup::Serve(_) => panic!("a cache failure must fall back to the filesystem"),
    }
}

#[test]
fn loaded_file_served_and_scheduled_for_caching() {
    let key = lookup_key("icons", "logo.png");
    let bytes = vec![0xFF, 0xD8, 0xFF, 0xE0, 0x00, 0x10];
    let fin = after_file_load(key, Some(bytes.clone()));
    assert_eq!(fin.response.status_code(), 200);
    assert_eq!(fin.response.content_type(), Some("image/jpeg"));
    match fin.response {
        Response::Success(body) => assert_eq!(body, bytes),
        _ => panic!("a loaded file must be served with a 200"),
    }
    let write = fin.background.expect("a filesystem hit must schedule a cache write");
    assert_eq!(write.key, "icons/logo.png");
    assert_eq!(write.bytes, bytes);
}

#[test]
fn absent_file_not_found_without_cache_write() {
    let key = lookup_key("icons", "missing.png");
    let fin = after_file_load(key, None);
    assert_eq!(fin.response.status_code(), 404);
    assert!(fin.response.content_type().is_none());
    assert!(matches!(fin.response, Response::NotFound));
    assert!(fin.background.is_none());
}

#[test]
fn full_cold_then_warm_scenario() {
    // Cold request: empty cache, file present at root/icons/logo.png.
    let bytes = vec![0xFF, 0xD8, 0xAA, 0xBB];
    let key = lookup_key("icons", "logo.png");
    let path = match after_cache_lookup(key, CacheOutcome::Miss) {
        AfterLookup::Load(path) => path,
        AfterLookup::Serve(_) => panic!("empty cache cannot hit"),
    };
    assert_eq!(path, "icons/logo.png");
    let fin = after_file_load(path, Some(bytes.clone()));
    assert_eq!(fin.response.status_code(), 200);
    assert_eq!(fin.response.content_type(), Some("image/jpeg"));
    let first_body = match fin.response {
        Response::Success(body) => body,
        _ => panic!("cold request must serve the file"),
    };
    assert_eq!(first_body, bytes);
    let write = fin.background.expect("cold request must schedule a cache write");

    // Warm request: the cache now holds what the background write stored;
    // the response is identical and no Load step is produced.
    let key = lookup_key("icons", "logo.png");
    assert_eq!(write.key, key);
    match after_cache_lookup(key, CacheOutcome::Hit(write.bytes)) {
        AfterLookup::Serve(Response::Success(body)) => assert_eq!(body, first_body),
        _ => panic!("warm request must be served from the cache"),
    }
}

#[test]
fn cache_errors_never_break_serving() {
    // A store that errors on every operation: the get errors, the
    // request still serves the file; the background write's failure is
    // the caller's to log and is not part of the response.
    let bytes = vec![1, 2, 3];
    let key = lookup_key("icons", "logo.png");
    let path = match after_cache_lookup(key, CacheOutcome::Unavailable) {
        AfterLookup::Load(path) => path,
        AfterLookup::Serve(_) => panic!("an erroring cache cannot hit"),
    };
    let fin = after_file_load(path, Some(bytes.clone()));
    assert_eq!(fin.response.status_code(), 200);
    match fin.response {
        Response::Success(body) => assert_eq!(body, bytes),
        _ => panic!("cache failure must not break serving"),
    }
}
