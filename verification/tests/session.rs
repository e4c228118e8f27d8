use consul::errors::ConsulError;
use consul::session::{
    session_create_body, session_create_request, session_create_response,
    session_destroy_request, session_destroy_response, session_info_request,
    session_list_request, session_node_request, session_read_response, session_renew_request,
    session_renew_response,
};
use consul::{Config, Method, ResponseHeaders, SessionEntry};

fn config() -> Config {
    Config::new("http://127.0.0.1:8500".to_string()).unwrap()
}

fn no_headers() -> ResponseHeaders {
    ResponseHeaders { index: None, last_contact: None, known_leader: None }
}

#[test]
fn create_body_of_default_entry_is_empty_object() {
    let e = SessionEntry::default();
    assert_eq!(session_create_body(&e), b"{}".to_vec());
}

#[test]
fn create_body_holds_exactly_the_set_fields() {
    let e = SessionEntry {
        name: Some("web-lock".to_string()),
        ttl: Some("15s".to_string()),
        lock_delay: Some(15),
        checks: Some(vec!["serfHealth".to_string(), "web".to_string()]),
        ..Default::default()
    };
    let body = session_create_body(&e);
    assert_eq!(
        body,
        b"{\"Name\":\"web-lock\",\"LockDelay\":15,\"TTL\":\"15s\",\"Checks\":[\"serfHealth\",\"web\"]}"
            .to_vec()
    );
}

#[test]
fn session_lifecycle() {
    let c = config();

    // Creating a session named test-session sends that name and nothing else.
    let entry = SessionEntry { name: Some("test-session".to_string()), ..Default::default() };
    let pr = session_create_request(&c, &entry, None);
    assert_eq!(pr.method, Method::Put);
    assert_eq!(pr.url, "http://127.0.0.1:8500/v1/session/create");
    let sent: serde_json::Value = serde_json::from_slice(&pr.body.unwrap()).unwrap();
    assert_eq!(sent["Name"], "test-session");

    // The server answers with an id.
    let (created, _) =
        session_create_response(200, "{\"ID\":\"adf4238a-882b\"}".to_string(), 2).unwrap();
    let id = created.id.unwrap();
    assert_eq!(id, "adf4238a-882b");

    // Listing afterwards holds exactly one entry with that name.
    let listing = "[{\"ID\":\"adf4238a-882b\",\"Name\":\"test-session\",\"Node\":\"n1\"}]";
    let (entries, _) = session_read_response(200, listing.to_string(), &no_headers()).unwrap();
    let matching = entries
        .iter()
        .filter(|e| e.name.as_deref() == Some("test-session"))
        .count();
    assert_eq!(matching, 1);

    // Destroying that id removes it from later listings.
    let pr = session_destroy_request(&c, &id, None);
    assert_eq!(pr.url, "http://127.0.0.1:8500/v1/session/destroy/adf4238a-882b");
    let (gone, _) = session_destroy_response(200, "true".to_string(), 1).unwrap();
    assert!(gone);
    let (entries, _) = session_read_response(200, "[]".to_string(), &no_headers()).unwrap();
    let matching = entries
        .iter()
        .filter(|e| e.name.as_deref() == Some("test-session"))
        .count();
    assert_eq!(matching, 0);
}

#[test]
fn destroy_is_deterministic_when_repeated() {
    // A second destroy of the same id: the server's documented answer is
    // surfaced as it stands, the same way every time.
    let first = session_destroy_response(200, "true".to_string(), 1).unwrap();
    let second = session_destroy_response(200, "true".to_string(), 1).unwrap();
    assert_eq!(first.0, second.0);

    let not_found = session_destroy_response(404, "session not found".to_string(), 1);
    match not_found {
        Err(ConsulError::HttpError(status, body)) => {
            assert_eq!(status, 404);
            assert_eq!(body, "session not found");
        }
        _ => panic!("expected an HTTP error"),
    }
}

#[test]
fn renew_request_and_decode() {
    let c = config();
    let pr = session_renew_request(&c, "adf4238a", None);
    assert_eq!(pr.method, Method::Put);
    assert_eq!(pr.url, "http://127.0.0.1:8500/v1/session/renew/adf4238a");
    assert!(pr.body.is_none());

    let body = "[{\"ID\":\"adf4238a\",\"TTL\":\"15s\"}]";
    let (entries, m) = session_renew_response(200, body.to_string(), 6).unwrap();
    assert_eq!(entries.len(), 1);
    assert_eq!(entries[0].ttl.as_deref(), Some("15s"));
    assert_eq!(m.request_time_ms, 6);
}

#[test]
fn info_list_and_node_request_paths() {
    let c = config();
    let pr = session_info_request(&c, "adf4238a", None);
    assert_eq!(pr.method, Method::Get);
    assert_eq!(pr.url, "http://127.0.0.1:8500/v1/session/info/adf4238a");

    let pr = session_list_request(&c, None);
    assert_eq!(pr.url, "http://127.0.0.1:8500/v1/session/list");

    let pr = session_node_request(&c, "node-1", None);
    assert_eq!(pr.url, "http://127.0.0.1:8500/v1/session/node/node-1");
}

#[test]
fn session_decode_reads_every_field() {
    let body = "[{\"ID\":\"x\",\"Name\":\"n\",\"Node\":\"m\",\"LockDelay\":15,\"Behavior\":\"release\",\"TTL\":\"30s\",\"Checks\":[\"serfHealth\"],\"CreateIndex\":11,\"ModifyIndex\":12}]";
    let (entries, _) = session_read_response(200, body.to_string(), &no_headers()).unwrap();
    let e = &entries[0];
    assert_eq!(e.id.as_deref(), Some("x"));
    assert_eq!(e.name.as_deref(), Some("n"));
    assert_eq!(e.node.as_deref(), Some("m"));
    assert_eq!(e.lock_delay, Some(15));
    assert_eq!(e.behavior.as_deref(), Some("release"));
    assert_eq!(e.ttl.as_deref(), Some("30s"));
    assert_eq!(e.checks, Some(vec!["serfHealth".to_string()]));
    assert_eq!(e.create_index, Some(11));
    assert_eq!(e.modify_index, Some(12));
}

#[test]
fn session_read_errors_are_classified() {
    let r = session_read_response(500, "boom".to_string(), &no_headers());
    assert!(matches!(r, Err(ConsulError::HttpError(500, _))));
    let r = session_read_response(200, "{".to_string(), &no_headers());
    assert!(matches!(r, Err(ConsulError::DecodeError(_))));
}

#[test]
fn wrong_shaped_session_bodies_are_decode_errors() {
    // Well-formed JSON that is no session listing: an object at the top.
    let r = session_read_response(200, "{}".to_string(), &no_headers());
    assert!(matches!(r, Err(ConsulError::DecodeError(_))));

    // An element that is no object.
    let r = session_read_response(200, "[5]".to_string(), &no_headers());
    assert!(matches!(r, Err(ConsulError::DecodeError(_))));

    // A field of the wrong type.
    let r = session_read_response(200, "[{\"Name\":5}]".to_string(), &no_headers());
    assert!(matches!(r, Err(ConsulError::DecodeError(_))));

    // A checks array holding a non-string.
    let r = session_read_response(200, "[{\"Checks\":[1]}]".to_string(), &no_headers());
    assert!(matches!(r, Err(ConsulError::DecodeError(_))));

    // A creation answer that is no object.
    let r = session_create_response(200, "true".to_string(), 1);
    assert!(matches!(r, Err(ConsulError::DecodeError(_))));
}

#[test]
fn null_fields_decode_as_unset() {
    let (entries, _) =
        session_read_response(200, "[{\"Name\":null,\"ID\":\"x\"}]".to_string(), &no_headers())
            .unwrap();
    assert_eq!(entries[0].name, None);
    assert_eq!(entries[0].id.as_deref(), Some("x"));
}

#[test]
fn destroy_of_a_non_boolean_body_is_a_decode_error() {
    let r = session_destroy_response(200, "\"yes\"".to_string(), 1);
    assert!(matches!(r, Err(ConsulError::DecodeError(_))));
    let (gone, _) = session_destroy_response(200, "false".to_string(), 1).unwrap();
    assert!(!gone);
}
