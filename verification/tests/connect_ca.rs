use consul::connect_ca::{
    ca_config_body, ca_get_config_request, ca_get_config_response, ca_roots_request,
    ca_roots_response, ca_set_config_request, ca_set_config_response,
};
use consul::errors::ConsulError;
use consul::{CAConfig, Config, Method, ResponseHeaders};

fn config() -> Config {
    Config::new("http://127.0.0.1:8500".to_string()).unwrap()
}

fn no_headers() -> ResponseHeaders {
    ResponseHeaders { index: None, last_contact: None, known_leader: None }
}

#[test]
fn ca_roots_request_shape() {
    let pr = ca_roots_request(&config(), None);
    assert_eq!(pr.method, Method::Get);
    assert_eq!(pr.url, "http://127.0.0.1:8500/v1/connect/ca/roots");
    assert!(pr.params.is_empty());
    assert!(pr.body.is_none());
}

#[test]
fn ca_roots_decode() {
    let body = "{\"ActiveRootID\":\"c7:bd\",\"TrustDomain\":\"7f42.consul\",\"Roots\":[{\"ID\":\"c7:bd\",\"Name\":\"Consul CA Root Cert\",\"RootCert\":\"-----BEGIN-----\",\"Active\":true,\"CreateIndex\":8,\"ModifyIndex\":8},{\"ID\":\"d0:11\",\"Active\":false}]}";
    let h = ResponseHeaders {
        index: Some(b"8".to_vec()),
        last_contact: None,
        known_leader: Some(b"true".to_vec()),
    };
    let (list, meta) = ca_roots_response(200, body.to_string(), &h).unwrap();
    assert_eq!(list.active_root_id, "c7:bd");
    assert_eq!(list.trust_domain, "7f42.consul");
    assert_eq!(list.roots.len(), 2);
    assert_eq!(list.roots[0].name, "Consul CA Root Cert");
    assert!(list.roots[0].active);
    assert_eq!(list.roots[0].create_index, 8);
    assert_eq!(list.roots[1].id, "d0:11");
    assert_eq!(list.roots[1].name, "");
    assert_eq!(meta.last_index, 8);
    assert!(meta.known_leader);
}

#[test]
fn ca_roots_error_statuses() {
    let r = ca_roots_response(503, "no leader".to_string(), &no_headers());
    match r {
        Err(ConsulError::HttpError(status, body)) => {
            assert_eq!(status, 503);
            assert_eq!(body, "no leader");
        }
        _ => panic!("expected an HTTP error"),
    }
    let r = ca_roots_response(200, "<html>".to_string(), &no_headers());
    assert!(matches!(r, Err(ConsulError::DecodeError(_))));
}

#[test]
fn wrong_shaped_ca_bodies_are_decode_errors() {
    // Well-formed JSON that is no roots listing: an array at the top.
    let r = ca_roots_response(200, "[]".to_string(), &no_headers());
    assert!(matches!(r, Err(ConsulError::DecodeError(_))));

    // A field of the wrong type.
    let r = ca_roots_response(200, "{\"ActiveRootID\":5}".to_string(), &no_headers());
    assert!(matches!(r, Err(ConsulError::DecodeError(_))));

    // A Roots member that is no array.
    let r = ca_roots_response(200, "{\"Roots\":{}}".to_string(), &no_headers());
    assert!(matches!(r, Err(ConsulError::DecodeError(_))));

    // A root element that is no object.
    let r = ca_roots_response(200, "{\"Roots\":[5]}".to_string(), &no_headers());
    assert!(matches!(r, Err(ConsulError::DecodeError(_))));

    // The configuration read: a number at the top, a string where a number
    // belongs.
    let r = ca_get_config_response(200, "7".to_string(), &no_headers());
    assert!(matches!(r, Err(ConsulError::DecodeError(_))));
    let r = ca_get_config_response(200, "{\"CreateIndex\":\"5\"}".to_string(), &no_headers());
    assert!(matches!(r, Err(ConsulError::DecodeError(_))));
}

#[test]
fn empty_object_decodes_to_the_default_config() {
    let (got, _) = ca_get_config_response(200, "{}".to_string(), &no_headers()).unwrap();
    assert_eq!(got.provider, "");
    assert!(got.config.is_null());
    assert_eq!(got.create_index, 0);
    assert_eq!(got.modify_index, 0);
}

#[test]
fn null_ca_fields_decode_as_absent() {
    let r = ca_roots_response(200, "{\"ActiveRootID\":null}".to_string(), &no_headers());
    let (list, _) = r.unwrap();
    assert_eq!(list.active_root_id, "");
    assert!(list.roots.is_empty());
}

#[test]
fn ca_config_body_exact() {
    let body = ca_config_body(&"consul".to_string(), b"{}".to_vec(), 1, 2);
    assert_eq!(
        body,
        b"{\"Provider\":\"consul\",\"Config\":{},\"CreateIndex\":1,\"ModifyIndex\":2}".to_vec()
    );
}

#[test]
fn ca_config_body_escapes_provider() {
    let weird = "a\"b\\c\nd".to_string();
    let body = ca_config_body(&weird, b"null".to_vec(), 0, 0);
    let v: serde_json::Value = serde_json::from_slice(&body).unwrap();
    assert_eq!(v["Provider"], serde_json::Value::String(weird));
}

#[test]
fn ca_set_then_get_keeps_provider_and_grows_index() {
    let c = config();
    let blob: serde_json::Value =
        serde_json::from_str("{\"LeafCertTTL\":\"72h\",\"RotationPeriod\":\"2160h\"}").unwrap();
    let before_modify_index = 5u64;
    let conf = CAConfig {
        provider: "consul".to_string(),
        config: blob,
        create_index: 0,
        modify_index: 0,
    };

    let pr = ca_set_config_request(&c, &conf, None);
    assert_eq!(pr.method, Method::Put);
    assert_eq!(pr.url, "http://127.0.0.1:8500/v1/connect/ca/configuration");
    let sent: serde_json::Value = serde_json::from_slice(&pr.body.unwrap()).unwrap();
    assert_eq!(sent["Provider"], "consul");
    assert_eq!(sent["Config"]["LeafCertTTL"], "72h");

    let ((), wm) = ca_set_config_response(200, String::new(), 4).unwrap();
    assert_eq!(wm.request_time_ms, 4);

    let answer = "{\"Provider\":\"consul\",\"Config\":{\"LeafCertTTL\":\"72h\"},\"CreateIndex\":5,\"ModifyIndex\":7}";
    let (got, _) = ca_get_config_response(200, answer.to_string(), &no_headers()).unwrap();
    assert_eq!(got.provider, "consul");
    assert!(got.modify_index >= before_modify_index);
    assert_eq!(got.config["LeafCertTTL"], "72h");
}

#[test]
fn ca_get_config_request_shape() {
    let pr = ca_get_config_request(&config(), None);
    assert_eq!(pr.method, Method::Get);
    assert_eq!(pr.url, "http://127.0.0.1:8500/v1/connect/ca/configuration");
    assert!(pr.body.is_none());
}
