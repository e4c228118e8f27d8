//! Client configuration and per-call options.

use vstd::prelude::*;

verus! {

use crate::errors::ConsulError;

/// TLS material for the transport, carried as plain values; the I/O layer
/// builds its TLS context from them.
pub struct TlsConfig {
    /// PEM text of an extra CA certificate to trust.
    pub ca_cert_pem: Option<Vec<u8>>,
    /// PEM text of the client certificate; comes together with the key.
    pub client_cert_pem: Option<Vec<u8>>,
    /// PEM text of the client key; comes together with the certificate.
    pub client_key_pem: Option<Vec<u8>>,
    /// Expected server name, where the transport can override it.
    pub server_name: Option<String>,
    /// Skip certificate verification.
    pub insecure_skip_verify: bool,
}

impl Default for TlsConfig {
    /// No TLS material: the transport uses its defaults.
    fn default() -> (r: TlsConfig)
        ensures
            r.ca_cert_pem is None,
            r.client_cert_pem is None,
            r.client_key_pem is None,
            r.server_name is None,
            !r.insecure_skip_verify,
    {
        TlsConfig {
            ca_cert_pem: None,
            client_cert_pem: None,
            client_key_pem: None,
            server_name: None,
            insecure_skip_verify: false,
        }
    }
}

/// Whether TLS material is structurally usable: a client certificate and
/// its key come together, and no given PEM text is empty.
pub open spec fn tls_wf(t: TlsConfig) -> bool {
    &&& (t.client_cert_pem is Some <==> t.client_key_pem is Some)
    &&& (t.ca_cert_pem matches Some(p) ==> p@.len() > 0)
    &&& (t.client_cert_pem matches Some(p) ==> p@.len() > 0)
    &&& (t.client_key_pem matches Some(p) ==> p@.len() > 0)
}

fn tls_ok(t: &TlsConfig) -> (r: bool)
    ensures
        r == tls_wf(*t),
{
    let pair_ok = match (&t.client_cert_pem, &t.client_key_pem) {
        (Some(c), Some(k)) => c.len() > 0 && k.len() > 0,
        (None, None) => true,
        _ => false,
    };
    let ca_ok = match &t.ca_cert_pem {
        Some(p) => p.len() > 0,
        None => true,
    };
    pair_ok && ca_ok
}

/// Client-wide configuration: the base address of the Consul agent,
/// defaults applied to every request, and the transport's TLS material.
/// Constructed once, read-only afterwards.
pub struct Config {
    /// Base address, e.g. `http://127.0.0.1:8500`.
    pub address: String,
    /// Default datacenter (`dc` parameter) for every request.
    pub datacenter: Option<String>,
    /// Default ACL token (`token` parameter) for every request.
    pub token: Option<String>,
    /// Transport timeout in milliseconds, honored by the I/O layer.
    pub timeout_ms: Option<u64>,
    /// TLS material, honored by the I/O layer.
    pub tls: TlsConfig,
}

impl Config {
    /// A configuration with the given base address, no defaults and no TLS
    /// material. An empty address is a configuration error, reported at
    /// construction and before any request is made.
    pub fn new(address: String) -> (r: Result<Config, ConsulError>)
        ensures
            r is Ok <==> address@.len() > 0,
            r matches Ok(c) ==> c.address@ == address@ && c.datacenter is None && c.token is None
                && c.timeout_ms is None && c.tls.ca_cert_pem is None && c.tls.client_cert_pem
                is None && c.tls.client_key_pem is None && c.tls.server_name is None
                && !c.tls.insecure_skip_verify,
            r matches Err(e) ==> e matches ConsulError::ConfigError(_),
    {
        if address.as_str().is_empty() {
            Err(ConsulError::ConfigError("empty base address".to_owned()))
        } else {
            Ok(
                Config {
                    address,
                    datacenter: None,
                    token: None,
                    timeout_ms: None,
                    tls: TlsConfig::default(),
                },
            )
        }
    }

    /// A configuration with the given base address and TLS material. An
    /// empty address, a client certificate without its key (or the other
    /// way round), or empty PEM text is a configuration error, reported at
    /// construction and before any request is made.
    pub fn with_tls(address: String, tls: TlsConfig) -> (r: Result<Config, ConsulError>)
        ensures
            r is Ok <==> (address@.len() > 0 && tls_wf(tls)),
            r matches Ok(c) ==> c.address@ == address@ && c.tls == tls && c.datacenter is None
                && c.token is None && c.timeout_ms is None,
            r matches Err(e) ==> e matches ConsulError::ConfigError(_),
    {
        if address.as_str().is_empty() {
            Err(ConsulError::ConfigError("empty base address".to_owned()))
        } else if !tls_ok(&tls) {
            Err(ConsulError::ConfigError("unusable TLS material".to_owned()))
        } else {
            Ok(Config { address, datacenter: None, token: None, timeout_ms: None, tls })
        }
    }
}

/// Per-call options of a read. Absent fields mean server defaults; the
/// datacenter and token fields override the configuration's defaults.
pub struct QueryOptions {
    pub datacenter: Option<String>,
    /// Allow any replica to answer (`stale` consistency mode).
    pub allow_stale: bool,
    /// Require a leader-confirmed read (`consistent` consistency mode).
    pub require_consistent: bool,
    /// Blocking query: the index to wait past. Takes effect only together
    /// with `wait_time_ms`.
    pub wait_index: Option<u64>,
    /// Blocking query: how long the server may hold the request, in
    /// milliseconds. Takes effect only together with `wait_index`.
    pub wait_time_ms: Option<u64>,
    pub token: Option<String>,
    pub namespace: Option<String>,
    /// Server-side filter expression.
    pub filter: Option<String>,
}

impl Default for QueryOptions {
    /// Options that leave every choice to the server and the configuration.
    fn default() -> (r: QueryOptions)
        ensures
            r.datacenter is None,
            !r.allow_stale,
            !r.require_consistent,
            r.wait_index is None,
            r.wait_time_ms is None,
            r.token is None,
            r.namespace is None,
            r.filter is None,
    {
        QueryOptions {
            datacenter: None,
            allow_stale: false,
            require_consistent: false,
            wait_index: None,
            wait_time_ms: None,
            token: None,
            namespace: None,
            filter: None,
        }
    }
}

/// Per-call options of a write.
pub struct WriteOptions {
    pub datacenter: Option<String>,
    pub token: Option<String>,
    pub namespace: Option<String>,
}

impl Default for WriteOptions {
    /// Options that leave every choice to the server and the configuration.
    fn default() -> (r: WriteOptions)
        ensures
            r.datacenter is None,
            r.token is None,
            r.namespace is None,
    {
        WriteOptions { datacenter: None, token: None, namespace: None }
    }
}

} // verus!
