use consul::errors::ConsulError;
use consul::pipeline::{
    prepare_query, prepare_write, query_meta_of, read_response, write_response,
    write_unit_response, Method, ResponseHeaders,
};
use consul::{Config, QueryMeta, QueryOptions, TlsConfig, WriteOptions};

fn config() -> Config {
    Config::new("http://127.0.0.1:8500".to_string()).unwrap()
}

fn no_headers() -> ResponseHeaders {
    ResponseHeaders { index: None, last_contact: None, known_leader: None }
}

#[test]
fn config_rejects_empty_address() {
    let r = Config::new(String::new());
    assert!(matches!(r, Err(ConsulError::ConfigError(_))));
}

#[test]
fn config_validates_tls_material() {
    // A client certificate without its key is unusable.
    let tls = TlsConfig { client_cert_pem: Some(b"cert".to_vec()), ..Default::default() };
    let r = Config::with_tls("https://consul.example:8501".to_string(), tls);
    assert!(matches!(r, Err(ConsulError::ConfigError(_))));

    // Empty PEM text is unusable.
    let tls = TlsConfig { ca_cert_pem: Some(Vec::new()), ..Default::default() };
    let r = Config::with_tls("https://consul.example:8501".to_string(), tls);
    assert!(matches!(r, Err(ConsulError::ConfigError(_))));

    // A full set of material is kept as given.
    let tls = TlsConfig {
        ca_cert_pem: Some(b"ca".to_vec()),
        client_cert_pem: Some(b"cert".to_vec()),
        client_key_pem: Some(b"key".to_vec()),
        server_name: None,
        insecure_skip_verify: true,
    };
    let c = Config::with_tls("https://consul.example:8501".to_string(), tls).unwrap();
    assert_eq!(c.tls.ca_cert_pem.as_deref(), Some(b"ca".as_slice()));
    assert_eq!(c.tls.client_cert_pem.as_deref(), Some(b"cert".as_slice()));
    assert_eq!(c.tls.client_key_pem.as_deref(), Some(b"key".as_slice()));
    assert!(c.tls.insecure_skip_verify);
}

#[test]
fn no_options_adds_no_params() {
    let pr = prepare_query(&config(), "/v1/agent/self", Vec::new(), None);
    assert_eq!(pr.method, Method::Get);
    assert_eq!(pr.url, "http://127.0.0.1:8500/v1/agent/self");
    assert!(pr.params.is_empty());
    assert!(pr.body.is_none());
}

#[test]
fn static_params_come_first() {
    let extra = vec![("recurse".to_string(), "".to_string())];
    let q = QueryOptions { datacenter: Some("dc1".to_string()), ..Default::default() };
    let pr = prepare_query(&config(), "/v1/kv/web", extra, Some(&q));
    assert_eq!(
        pr.params,
        vec![
            ("recurse".to_string(), "".to_string()),
            ("dc".to_string(), "dc1".to_string()),
        ]
    );
}

#[test]
fn stale_wins_over_consistent() {
    let q = QueryOptions { allow_stale: true, require_consistent: true, ..Default::default() };
    let pr = prepare_query(&config(), "/v1/session/list", Vec::new(), Some(&q));
    assert_eq!(pr.params, vec![("stale".to_string(), "".to_string())]);
    assert!(!pr.params.iter().any(|p| p.0 == "consistent"));
}

#[test]
fn consistent_alone_is_kept() {
    let q = QueryOptions { require_consistent: true, ..Default::default() };
    let pr = prepare_query(&config(), "/v1/session/list", Vec::new(), Some(&q));
    assert_eq!(pr.params, vec![("consistent".to_string(), "".to_string())]);
}

#[test]
fn blocking_params_come_paired() {
    let q = QueryOptions {
        wait_index: Some(42),
        wait_time_ms: Some(30000),
        ..Default::default()
    };
    let pr = prepare_query(&config(), "/v1/kv/web", Vec::new(), Some(&q));
    assert_eq!(
        pr.params,
        vec![
            ("index".to_string(), "42".to_string()),
            ("wait".to_string(), "30000ms".to_string()),
        ]
    );

    let only_index = QueryOptions { wait_index: Some(42), ..Default::default() };
    let pr = prepare_query(&config(), "/v1/kv/web", Vec::new(), Some(&only_index));
    assert!(pr.params.is_empty());

    let only_wait = QueryOptions { wait_time_ms: Some(30000), ..Default::default() };
    let pr = prepare_query(&config(), "/v1/kv/web", Vec::new(), Some(&only_wait));
    assert!(pr.params.is_empty());
}

#[test]
fn options_override_configured_defaults() {
    let mut c = config();
    c.datacenter = Some("dc1".to_string());
    c.token = Some("root".to_string());

    let pr = prepare_query(&c, "/v1/session/list", Vec::new(), None);
    assert_eq!(
        pr.params,
        vec![
            ("dc".to_string(), "dc1".to_string()),
            ("token".to_string(), "root".to_string()),
        ]
    );

    let q = QueryOptions {
        datacenter: Some("dc2".to_string()),
        token: Some("other".to_string()),
        ..Default::default()
    };
    let pr = prepare_query(&c, "/v1/session/list", Vec::new(), Some(&q));
    assert_eq!(
        pr.params,
        vec![
            ("dc".to_string(), "dc2".to_string()),
            ("token".to_string(), "other".to_string()),
        ]
    );
}

#[test]
fn namespace_and_filter_are_passed() {
    let q = QueryOptions {
        namespace: Some("team-a".to_string()),
        filter: Some("Checks.Status == passing".to_string()),
        ..Default::default()
    };
    let pr = prepare_query(&config(), "/v1/health/checks", Vec::new(), Some(&q));
    assert_eq!(
        pr.params,
        vec![
            ("ns".to_string(), "team-a".to_string()),
            ("filter".to_string(), "Checks.Status == passing".to_string()),
        ]
    );
}

#[test]
fn write_request_carries_body_and_params() {
    let w = WriteOptions { datacenter: Some("dc1".to_string()), ..Default::default() };
    let pr = prepare_write(
        Method::Put,
        &config(),
        "/v1/kv/web",
        Some(b"\"value\"".to_vec()),
        Vec::new(),
        Some(&w),
    );
    assert_eq!(pr.method, Method::Put);
    assert_eq!(pr.url, "http://127.0.0.1:8500/v1/kv/web");
    assert_eq!(pr.params, vec![("dc".to_string(), "dc1".to_string())]);
    assert_eq!(pr.body, Some(b"\"value\"".to_vec()));
}

#[test]
fn meta_reads_all_headers() {
    let h = ResponseHeaders {
        index: Some(b"42".to_vec()),
        last_contact: Some(b"7".to_vec()),
        known_leader: Some(b"true".to_vec()),
    };
    let m = query_meta_of(&h);
    assert_eq!(m, QueryMeta { last_index: 42, last_contact_ms: 7, known_leader: true });
}

#[test]
fn meta_defaults_absent_headers_to_zero() {
    let m = query_meta_of(&no_headers());
    assert_eq!(m, QueryMeta { last_index: 0, last_contact_ms: 0, known_leader: false });
}

#[test]
fn meta_defaults_unreadable_headers_to_zero() {
    let h = ResponseHeaders {
        index: Some(b"abc".to_vec()),
        last_contact: Some(b"99999999999999999999999".to_vec()),
        known_leader: Some(b"yes".to_vec()),
    };
    let m = query_meta_of(&h);
    assert_eq!(m, QueryMeta { last_index: 0, last_contact_ms: 0, known_leader: false });
}

#[test]
fn wait_index_renders_exactly_at_the_u64_edge() {
    let q = QueryOptions {
        wait_index: Some(u64::MAX),
        wait_time_ms: Some(1),
        ..Default::default()
    };
    let pr = prepare_query(&config(), "/v1/kv/web", Vec::new(), Some(&q));
    assert_eq!(
        pr.params,
        vec![
            ("index".to_string(), "18446744073709551615".to_string()),
            ("wait".to_string(), "1ms".to_string()),
        ]
    );
}

#[test]
fn index_header_at_the_u64_edge() {
    let h = ResponseHeaders {
        index: Some(b"18446744073709551615".to_vec()),
        last_contact: None,
        known_leader: None,
    };
    assert_eq!(query_meta_of(&h).last_index, u64::MAX);

    let h = ResponseHeaders {
        index: Some(b"18446744073709551616".to_vec()),
        last_contact: None,
        known_leader: None,
    };
    assert_eq!(query_meta_of(&h).last_index, 0);
}

#[test]
fn last_index_feeds_back_as_wait_index() {
    let h = ResponseHeaders {
        index: Some(b"42".to_vec()),
        last_contact: None,
        known_leader: None,
    };
    let m = query_meta_of(&h);
    let q = QueryOptions {
        wait_index: Some(m.last_index),
        wait_time_ms: Some(5000),
        ..Default::default()
    };
    let pr = prepare_query(&config(), "/v1/kv/web", Vec::new(), Some(&q));
    assert_eq!(
        pr.params,
        vec![
            ("index".to_string(), "42".to_string()),
            ("wait".to_string(), "5000ms".to_string()),
        ]
    );
}

#[test]
fn non_2xx_is_http_error_even_on_valid_json() {
    let r = read_response(404, "{\"ok\":true}".to_string(), &no_headers());
    match r {
        Err(ConsulError::HttpError(status, body)) => {
            assert_eq!(status, 404);
            assert_eq!(body, "{\"ok\":true}");
        }
        _ => panic!("expected an HTTP error"),
    }
}

#[test]
fn malformed_json_on_2xx_is_decode_error() {
    let r = read_response(200, "{not json".to_string(), &no_headers());
    assert!(matches!(r, Err(ConsulError::DecodeError(_))));
}

#[test]
fn well_formed_json_on_2xx_decodes() {
    let h = ResponseHeaders {
        index: Some(b"10".to_vec()),
        last_contact: None,
        known_leader: Some(b"true".to_vec()),
    };
    let r = read_response(200, "[1,2,3]".to_string(), &h).unwrap();
    assert_eq!(r.0, serde_json::from_str::<serde_json::Value>("[1,2,3]").unwrap());
    assert_eq!(r.1, QueryMeta { last_index: 10, last_contact_ms: 0, known_leader: true });
}

#[test]
fn write_response_classifies_like_reads() {
    let r = write_response(500, "boom".to_string(), 3);
    match r {
        Err(ConsulError::HttpError(status, body)) => {
            assert_eq!(status, 500);
            assert_eq!(body, "boom");
        }
        _ => panic!("expected an HTTP error"),
    }
    let r = write_response(200, "not json".to_string(), 3);
    assert!(matches!(r, Err(ConsulError::DecodeError(_))));
    let (v, m) = write_response(200, "true".to_string(), 3).unwrap();
    assert_eq!(v, serde_json::Value::Bool(true));
    assert_eq!(m.request_time_ms, 3);
}

#[test]
fn unit_write_ignores_the_body() {
    let ((), m) = write_unit_response(200, String::new(), 9).unwrap();
    assert_eq!(m.request_time_ms, 9);
    let r = write_unit_response(429, "slow down".to_string(), 9);
    match r {
        Err(ConsulError::HttpError(status, body)) => {
            assert_eq!(status, 429);
            assert_eq!(body, "slow down");
        }
        _ => panic!("expected an HTTP error"),
    }
}
