//! The request pipeline: every endpoint delegates here. A logical operation
//! (method, path, optional body, options) becomes one fully-determined HTTP
//! request, and one HTTP response (status, body, headers) becomes either a
//! decoded JSON value with its metadata or a typed error.

use vstd::prelude::*;

verus! {

use vstd::string::StringExecFns;
use crate::digits::{dec_chars, dec_val, parses_u64, u64_to_dec, parse_u64};
use crate::errors::ConsulError;
use crate::json::{json_value_of, json_wf, parse_json};
use crate::options::{Config, QueryOptions, WriteOptions};

/// The HTTP method of a request.
#[derive(Clone, Copy, PartialEq, Eq, Structural, Debug)]
pub enum Method {
    Get,
    Put,
    Delete,
}

/// One fully-determined HTTP request: everything the transport needs for a
/// single round trip. The pipeline never loops: each prepared request stands
/// for exactly one round trip, blocking queries included (a watching caller
/// prepares a new request from the previous response's index).
pub struct PreparedRequest {
    pub method: Method,
    /// The full URL: the configured base address followed by the path.
    pub url: String,
    /// Query parameters in order; an empty value stands for a bare flag.
    pub params: Vec<(String, String)>,
    /// The JSON request payload, if any.
    pub body: Option<Vec<u8>>,
}

/// The key/value pairs of a parameter list, as character sequences.
pub open spec fn params_view(ps: Seq<(String, String)>) -> Seq<(Seq<char>, Seq<char>)> {
    ps.map_values(|p: (String, String)| (p.0@, p.1@))
}

pub open spec fn opt_view(o: Option<String>) -> Option<Seq<char>> {
    match o {
        Some(s) => Some(s@),
        None => None,
    }
}

/// A configured default overridden by a per-call option.
pub open spec fn override_opt(base: Option<Seq<char>>, over: Option<Seq<char>>) -> Option<
    Seq<char>,
> {
    match over {
        Some(s) => Some(s),
        None => base,
    }
}

/// The parameter list contributed by one optional value: one pair, or none.
pub open spec fn kv_opt(k: Seq<char>, v: Option<Seq<char>>) -> Seq<(Seq<char>, Seq<char>)> {
    match v {
        Some(s) => seq![(k, s)],
        None => seq![],
    }
}

pub open spec fn dc_of_query(q: Option<QueryOptions>) -> Option<Seq<char>> {
    match q {
        Some(o) => opt_view(o.datacenter),
        None => None,
    }
}

pub open spec fn token_of_query(q: Option<QueryOptions>) -> Option<Seq<char>> {
    match q {
        Some(o) => opt_view(o.token),
        None => None,
    }
}

pub open spec fn ns_of_query(q: Option<QueryOptions>) -> Option<Seq<char>> {
    match q {
        Some(o) => opt_view(o.namespace),
        None => None,
    }
}

pub open spec fn filter_of_query(q: Option<QueryOptions>) -> Option<Seq<char>> {
    match q {
        Some(o) => opt_view(o.filter),
        None => None,
    }
}

/// The consistency-mode parameters: `stale` when stale reads are allowed,
/// else `consistent` when a leader-confirmed read is required, never both.
/// When a caller sets both flags, `stale` wins: the two modes are mutually
/// exclusive and the pipeline pins this precedence deterministically.
pub open spec fn consistency_params(q: Option<QueryOptions>) -> Seq<(Seq<char>, Seq<char>)> {
    match q {
        Some(o) => if o.allow_stale {
            seq![("stale"@, Seq::<char>::empty())]
        } else if o.require_consistent {
            seq![("consistent"@, Seq::<char>::empty())]
        } else {
            seq![]
        },
        None => seq![],
    }
}

/// The blocking-query parameters: `index` and `wait` together when both a
/// wait index and a wait time are given, and neither otherwise.
pub open spec fn blocking_params(q: Option<QueryOptions>) -> Seq<(Seq<char>, Seq<char>)> {
    match q {
        Some(o) => match (o.wait_index, o.wait_time_ms) {
            (Some(i), Some(w)) => seq![
                ("index"@, dec_chars(i as nat)),
                ("wait"@, dec_chars(w as nat) + "ms"@),
            ],
            _ => seq![],
        },
        None => seq![],
    }
}

/// Every parameter a read derives from the configuration and its options,
/// in order: datacenter, token, consistency mode, blocking query, namespace,
/// filter.
pub open spec fn query_params(c: Config, q: Option<QueryOptions>) -> Seq<(Seq<char>, Seq<char>)> {
    kv_opt("dc"@, override_opt(opt_view(c.datacenter), dc_of_query(q))) + kv_opt(
        "token"@,
        override_opt(opt_view(c.token), token_of_query(q)),
    ) + consistency_params(q) + blocking_params(q) + kv_opt("ns"@, ns_of_query(q)) + kv_opt(
        "filter"@,
        filter_of_query(q),
    )
}

pub open spec fn dc_of_write(w: Option<WriteOptions>) -> Option<Seq<char>> {
    match w {
        Some(o) => opt_view(o.datacenter),
        None => None,
    }
}

pub open spec fn token_of_write(w: Option<WriteOptions>) -> Option<Seq<char>> {
    match w {
        Some(o) => opt_view(o.token),
        None => None,
    }
}

pub open spec fn ns_of_write(w: Option<WriteOptions>) -> Option<Seq<char>> {
    match w {
        Some(o) => opt_view(o.namespace),
        None => None,
    }
}

/// Every parameter a write derives from the configuration and its options,
/// in order: datacenter, token, namespace.
pub open spec fn write_params(c: Config, w: Option<WriteOptions>) -> Seq<(Seq<char>, Seq<char>)> {
    kv_opt("dc"@, override_opt(opt_view(c.datacenter), dc_of_write(w))) + kv_opt(
        "token"@,
        override_opt(opt_view(c.token), token_of_write(w)),
    ) + kv_opt("ns"@, ns_of_write(w))
}

/// The per-call view of an optional options reference.
pub open spec fn opt_q(q: Option<&QueryOptions>) -> Option<QueryOptions> {
    match q {
        Some(o) => Some(*o),
        None => None,
    }
}

pub open spec fn opt_w(w: Option<&WriteOptions>) -> Option<WriteOptions> {
    match w {
        Some(o) => Some(*o),
        None => None,
    }
}

/// Whether the parameter list holds a parameter with key `k`.
pub open spec fn has_param(ps: Seq<(Seq<char>, Seq<char>)>, k: Seq<char>) -> bool {
    exists|i: int| 0 <= i < ps.len() && ps[i].0 == k
}

proof fn lemma_has_param_concat(
    a: Seq<(Seq<char>, Seq<char>)>,
    b: Seq<(Seq<char>, Seq<char>)>,
    k: Seq<char>,
)
    ensures
        has_param(a + b, k) <==> has_param(a, k) || has_param(b, k),
{
    if has_param(a + b, k) {
        let i = choose|i: int| 0 <= i < (a + b).len() && (a + b)[i].0 == k;
        if i < a.len() {
            assert(a[i].0 == k);
        } else {
            assert(b[i - a.len()].0 == k);
        }
    }
    if has_param(a, k) {
        let i = choose|i: int| 0 <= i < a.len() && a[i].0 == k;
        assert((a + b)[i].0 == k);
    }
    if has_param(b, k) {
        let i = choose|i: int| 0 <= i < b.len() && b[i].0 == k;
        assert((a + b)[a.len() + i].0 == k);
    }
}

proof fn lemma_kv_opt_other_key(k: Seq<char>, v: Option<Seq<char>>, k2: Seq<char>)
    requires
        k != k2,
    ensures
        !has_param(kv_opt(k, v), k2),
{
    if has_param(kv_opt(k, v), k2) {
        let i = choose|i: int| 0 <= i < kv_opt(k, v).len() && kv_opt(k, v)[i].0 == k2;
        assert(kv_opt(k, v)[i].0 == k);
    }
}

proof fn lemma_param_keys_distinct()
    ensures
        "stale"@ != "dc"@,
        "stale"@ != "token"@,
        "stale"@ != "index"@,
        "stale"@ != "wait"@,
        "stale"@ != "ns"@,
        "stale"@ != "filter"@,
        "stale"@ != "consistent"@,
        "consistent"@ != "dc"@,
        "consistent"@ != "token"@,
        "consistent"@ != "index"@,
        "consistent"@ != "wait"@,
        "consistent"@ != "ns"@,
        "consistent"@ != "filter"@,
        "index"@ != "dc"@,
        "index"@ != "token"@,
        "index"@ != "wait"@,
        "index"@ != "ns"@,
        "index"@ != "filter"@,
        "wait"@ != "dc"@,
        "wait"@ != "token"@,
        "wait"@ != "ns"@,
        "wait"@ != "filter"@,
{
    reveal_strlit("dc");
    reveal_strlit("token");
    reveal_strlit("stale");
    reveal_strlit("consistent");
    reveal_strlit("index");
    reveal_strlit("wait");
    reveal_strlit("ns");
    reveal_strlit("filter");
    assert("dc"@.len() == 2);
    assert("token"@.len() == 5);
    assert("stale"@.len() == 5);
    assert("consistent"@.len() == 10);
    assert("index"@.len() == 5);
    assert("wait"@.len() == 4);
    assert("ns"@.len() == 2);
    assert("filter"@.len() == 6);
    assert("stale"@[0] == 's');
    assert("token"@[0] == 't');
    assert("index"@[0] == 'i');
}

proof fn lemma_query_params_split(c: Config, q: QueryOptions, k: Seq<char>)
    ensures
        has_param(query_params(c, Some(q)), k) <==> {
            ||| has_param(kv_opt("dc"@, override_opt(opt_view(c.datacenter), opt_view(q.datacenter))), k)
            ||| has_param(kv_opt("token"@, override_opt(opt_view(c.token), opt_view(q.token))), k)
            ||| has_param(consistency_params(Some(q)), k)
            ||| has_param(blocking_params(Some(q)), k)
            ||| has_param(kv_opt("ns"@, opt_view(q.namespace)), k)
            ||| has_param(kv_opt("filter"@, opt_view(q.filter)), k)
        },
{
    let g1 = kv_opt("dc"@, override_opt(opt_view(c.datacenter), opt_view(q.datacenter)));
    let g2 = kv_opt("token"@, override_opt(opt_view(c.token), opt_view(q.token)));
    let g3 = consistency_params(Some(q));
    let g4 = blocking_params(Some(q));
    let g5 = kv_opt("ns"@, opt_view(q.namespace));
    let g6 = kv_opt("filter"@, opt_view(q.filter));
    lemma_has_param_concat(((((g1 + g2) + g3) + g4) + g5), g6, k);
    lemma_has_param_concat((((g1 + g2) + g3) + g4), g5, k);
    lemma_has_param_concat(((g1 + g2) + g3), g4, k);
    lemma_has_param_concat((g1 + g2), g3, k);
    lemma_has_param_concat(g1, g2, k);
}

/// Law: a read never requests both consistency modes. The `stale` parameter
/// appears exactly when stale reads are allowed; `consistent` appears
/// exactly when it is required and `stale` did not win the precedence.
pub proof fn lemma_consistency_exclusive(c: Config, q: QueryOptions)
    ensures
        !(has_param(query_params(c, Some(q)), "stale"@) && has_param(
            query_params(c, Some(q)),
            "consistent"@,
        )),
        has_param(query_params(c, Some(q)), "stale"@) <==> q.allow_stale,
        has_param(query_params(c, Some(q)), "consistent"@) <==> (!q.allow_stale
            && q.require_consistent),
{
    lemma_param_keys_distinct();
    lemma_query_params_split(c, q, "stale"@);
    lemma_query_params_split(c, q, "consistent"@);
    lemma_kv_opt_other_key("dc"@, override_opt(opt_view(c.datacenter), opt_view(q.datacenter)), "stale"@);
    lemma_kv_opt_other_key("dc"@, override_opt(opt_view(c.datacenter), opt_view(q.datacenter)), "consistent"@);
    lemma_kv_opt_other_key("token"@, override_opt(opt_view(c.token), opt_view(q.token)), "stale"@);
    lemma_kv_opt_other_key("token"@, override_opt(opt_view(c.token), opt_view(q.token)), "consistent"@);
    lemma_kv_opt_other_key("ns"@, opt_view(q.namespace), "stale"@);
    lemma_kv_opt_other_key("ns"@, opt_view(q.namespace), "consistent"@);
    lemma_kv_opt_other_key("filter"@, opt_view(q.filter), "stale"@);
    lemma_kv_opt_other_key("filter"@, opt_view(q.filter), "consistent"@);
    let g3 = consistency_params(Some(q));
    let g4 = blocking_params(Some(q));
    assert(!has_param(g4, "stale"@) && !has_param(g4, "consistent"@)) by {
        if has_param(g4, "stale"@) {
            let i = choose|i: int| 0 <= i < g4.len() && g4[i].0 == "stale"@;
            assert(g4[i].0 == "index"@ || g4[i].0 == "wait"@);
        }
        if has_param(g4, "consistent"@) {
            let i = choose|i: int| 0 <= i < g4.len() && g4[i].0 == "consistent"@;
            assert(g4[i].0 == "index"@ || g4[i].0 == "wait"@);
        }
    }
    if q.allow_stale {
        assert(g3[0].0 == "stale"@);
        assert(has_param(g3, "stale"@));
        if has_param(g3, "consistent"@) {
            let i = choose|i: int| 0 <= i < g3.len() && g3[i].0 == "consistent"@;
            assert(g3[i].0 == "stale"@);
        }
    } else if q.require_consistent {
        assert(g3[0].0 == "consistent"@);
        assert(has_param(g3, "consistent"@));
        if has_param(g3, "stale"@) {
            let i = choose|i: int| 0 <= i < g3.len() && g3[i].0 == "stale"@;
            assert(g3[i].0 == "consistent"@);
        }
    } else {
        assert(g3.len() == 0);
    }
}

/// Law: the blocking-query parameters come paired. Setting a wait index and
/// a wait time adds both `index` and `wait`; omitting either adds neither.
pub proof fn lemma_blocking_pairing(c: Config, q: QueryOptions)
    ensures
        (q.wait_index is Some && q.wait_time_ms is Some) ==> (has_param(
            query_params(c, Some(q)),
            "index"@,
        ) && has_param(query_params(c, Some(q)), "wait"@)),
        (q.wait_index is None || q.wait_time_ms is None) ==> (!has_param(
            query_params(c, Some(q)),
            "index"@,
        ) && !has_param(query_params(c, Some(q)), "wait"@)),
{
    lemma_param_keys_distinct();
    lemma_query_params_split(c, q, "index"@);
    lemma_query_params_split(c, q, "wait"@);
    lemma_kv_opt_other_key("dc"@, override_opt(opt_view(c.datacenter), opt_view(q.datacenter)), "index"@);
    lemma_kv_opt_other_key("dc"@, override_opt(opt_view(c.datacenter), opt_view(q.datacenter)), "wait"@);
    lemma_kv_opt_other_key("token"@, override_opt(opt_view(c.token), opt_view(q.token)), "index"@);
    lemma_kv_opt_other_key("token"@, override_opt(opt_view(c.token), opt_view(q.token)), "wait"@);
    lemma_kv_opt_other_key("ns"@, opt_view(q.namespace), "index"@);
    lemma_kv_opt_other_key("ns"@, opt_view(q.namespace), "wait"@);
    lemma_kv_opt_other_key("filter"@, opt_view(q.filter), "index"@);
    lemma_kv_opt_other_key("filter"@, opt_view(q.filter), "wait"@);
    let g3 = consistency_params(Some(q));
    let g4 = blocking_params(Some(q));
    assert(!has_param(g3, "index"@) && !has_param(g3, "wait"@)) by {
        if has_param(g3, "index"@) {
            let i = choose|i: int| 0 <= i < g3.len() && g3[i].0 == "index"@;
            assert(g3[i].0 == "stale"@ || g3[i].0 == "consistent"@);
        }
        if has_param(g3, "wait"@) {
            let i = choose|i: int| 0 <= i < g3.len() && g3[i].0 == "wait"@;
            assert(g3[i].0 == "stale"@ || g3[i].0 == "consistent"@);
        }
    }
    match (q.wait_index, q.wait_time_ms) {
        (Some(i), Some(w)) => {
            assert(g4[0].0 == "index"@);
            assert(g4[1].0 == "wait"@);
            assert(has_param(g4, "index"@));
            assert(has_param(g4, "wait"@));
        },
        _ => {
            assert(g4.len() == 0);
        },
    }
}

/// Law: with no per-call options and a configuration holding no defaults, a
/// read derives no parameters of its own: the request carries exactly its
/// static parameters.
pub proof fn lemma_no_options_no_derived_params(c: Config)
    requires
        c.datacenter is None,
        c.token is None,
    ensures
        query_params(c, None) == Seq::<(Seq<char>, Seq<char>)>::empty(),
{
    assert(query_params(c, None) =~= Seq::<(Seq<char>, Seq<char>)>::empty());
}

fn push_param(ps: &mut Vec<(String, String)>, k: &str, v: String)
    ensures
        params_view(final(ps)@) == params_view(old(ps)@) + seq![(k@, v@)],
{
    let ghost v0 = v@;
    let ko = k.to_owned();
    ps.push((ko, v));
    proof {
        assert(params_view(ps@) =~= params_view(old(ps)@) + seq![(k@, v0)]);
    }
}

fn push_opt_param(ps: &mut Vec<(String, String)>, k: &str, base: &Option<String>, over: &Option<
    String,
>)
    ensures
        params_view(final(ps)@) == params_view(old(ps)@) + kv_opt(
            k@,
            override_opt(opt_view(*base), opt_view(*over)),
        ),
{
    match over {
        Some(s) => push_param(ps, k, s.clone()),
        None => match base {
            Some(s) => push_param(ps, k, s.clone()),
            None => {
                proof {
                    assert(params_view(ps@) =~= params_view(old(ps)@) + kv_opt(
                        k@,
                        override_opt(opt_view(*base), opt_view(*over)),
                    ));
                }
            },
        },
    }
}

#[verifier::rlimit(100)]
fn append_query_params(c: &Config, ps: &mut Vec<(String, String)>, q: Option<&QueryOptions>)
    ensures
        params_view(final(ps)@) == params_view(old(ps)@) + query_params(*c, opt_q(q)),
{
    match q {
        None => {
            push_opt_param(ps, "dc", &c.datacenter, &None);
            push_opt_param(ps, "token", &c.token, &None);
            proof {
                assert(params_view(ps@) =~= params_view(old(ps)@) + query_params(*c, opt_q(q)));
            }
        },
        Some(o) => {
            let ghost base = params_view(old(ps)@);
            let ghost g1 = kv_opt("dc"@, override_opt(opt_view(c.datacenter), opt_view(o.datacenter)));
            let ghost g2 = kv_opt("token"@, override_opt(opt_view(c.token), opt_view(o.token)));
            let ghost g3 = consistency_params(opt_q(q));
            let ghost g4 = blocking_params(opt_q(q));
            let ghost g5 = kv_opt("ns"@, opt_view(o.namespace));
            let ghost g6 = kv_opt("filter"@, opt_view(o.filter));
            push_opt_param(ps, "dc", &c.datacenter, &o.datacenter);
            push_opt_param(ps, "token", &c.token, &o.token);
            proof {
                assert(params_view(ps@) == (base + g1) + g2);
            }
            if o.allow_stale {
                push_param(ps, "stale", String::new());
                proof {
                    assert(g3 =~= seq![("stale"@, Seq::<char>::empty())]);
                }
            } else if o.require_consistent {
                push_param(ps, "consistent", String::new());
                proof {
                    assert(g3 =~= seq![("consistent"@, Seq::<char>::empty())]);
                }
            } else {
                proof {
                    assert(((base + g1) + g2) + g3 =~= (base + g1) + g2);
                }
            }
            proof {
                assert(params_view(ps@) == ((base + g1) + g2) + g3);
            }
            match (&o.wait_index, &o.wait_time_ms) {
                (Some(i), Some(w)) => {
                    push_param(ps, "index", u64_to_dec(*i));
                    let mut wv = u64_to_dec(*w);
                    wv.append("ms");
                    push_param(ps, "wait", wv);
                    proof {
                        assert(g4 =~= seq![
                            ("index"@, dec_chars(*i as nat)),
                            ("wait"@, dec_chars(*w as nat) + "ms"@),
                        ]);
                        assert(params_view(ps@) =~= (((base + g1) + g2) + g3) + g4);
                    }
                },
                _ => {
                    proof {
                        assert((((base + g1) + g2) + g3) + g4 =~= ((base + g1) + g2) + g3);
                    }
                },
            }
            proof {
                assert(params_view(ps@) == (((base + g1) + g2) + g3) + g4);
            }
            push_opt_param(ps, "ns", &None, &o.namespace);
            push_opt_param(ps, "filter", &None, &o.filter);
            proof {
                assert(params_view(ps@) == (((((base + g1) + g2) + g3) + g4) + g5) + g6);
                assert(query_params(*c, opt_q(q)) == ((((g1 + g2) + g3) + g4) + g5) + g6);
                assert(params_view(ps@) =~= base + (((((g1 + g2) + g3) + g4) + g5) + g6));
            }
        },
    }
}

fn append_write_params(c: &Config, ps: &mut Vec<(String, String)>, w: Option<&WriteOptions>)
    ensures
        params_view(final(ps)@) == params_view(old(ps)@) + write_params(*c, opt_w(w)),
{
    match w {
        None => {
            push_opt_param(ps, "dc", &c.datacenter, &None);
            push_opt_param(ps, "token", &c.token, &None);
            proof {
                assert(params_view(ps@) =~= params_view(old(ps)@) + write_params(*c, opt_w(w)));
            }
        },
        Some(o) => {
            push_opt_param(ps, "dc", &c.datacenter, &o.datacenter);
            push_opt_param(ps, "token", &c.token, &o.token);
            push_opt_param(ps, "ns", &None, &o.namespace);
            proof {
                assert(params_view(ps@) =~= params_view(old(ps)@) + write_params(*c, opt_w(w)));
            }
        },
    }
}

/// The full URL of a request: the configured base address followed by the
/// endpoint path.
pub fn full_url(c: &Config, path: &str) -> (r: String)
    ensures
        r@ == c.address@ + path@,
{
    let mut u = c.address.clone();
    u.append(path);
    u
}

/// Build one read request: GET on the given path, the static parameters
/// first, then exactly the parameters the options and configuration derive,
/// and no body.
pub fn prepare_query(c: &Config, path: &str, extra: Vec<(String, String)>, q: Option<
    &QueryOptions,
>) -> (r: PreparedRequest)
    ensures
        r.method == Method::Get,
        r.url@ == c.address@ + path@,
        params_view(r.params@) == params_view(extra@) + query_params(*c, opt_q(q)),
        r.body is None,
{
    let mut ps = extra;
    append_query_params(c, &mut ps, q);
    PreparedRequest { method: Method::Get, url: full_url(c, path), params: ps, body: None }
}

/// Build one write request with the given method, path and JSON payload:
/// the static parameters first, then exactly the parameters the options and
/// configuration derive.
pub fn prepare_write(
    method: Method,
    c: &Config,
    path: &str,
    body: Option<Vec<u8>>,
    extra: Vec<(String, String)>,
    w: Option<&WriteOptions>,
) -> (r: PreparedRequest)
    ensures
        r.method == method,
        r.url@ == c.address@ + path@,
        params_view(r.params@) == params_view(extra@) + write_params(*c, opt_w(w)),
        r.body == body,
{
    let mut ps = extra;
    append_write_params(c, &mut ps, w);
    PreparedRequest { method, url: full_url(c, path), params: ps, body }
}

/// Response header values as the transport hands them over: the raw bytes
/// of `X-Consul-Index`, `X-Consul-LastContact` and `X-Consul-KnownLeader`,
/// where present.
pub struct ResponseHeaders {
    pub index: Option<Vec<u8>>,
    pub last_contact: Option<Vec<u8>>,
    pub known_leader: Option<Vec<u8>>,
}

/// Metadata of a read: Consul's index state and leader contact. Populated
/// on every successful read, with zero/false standing in for an absent or
/// unreadable header.
#[derive(Clone, Copy, PartialEq, Eq, Structural, Debug)]
pub struct QueryMeta {
    /// `X-Consul-Index`: 0 when the header is absent or not a number.
    pub last_index: u64,
    /// `X-Consul-LastContact` in milliseconds: 0 when absent or unreadable.
    pub last_contact_ms: u64,
    /// `X-Consul-KnownLeader`: false when absent or unreadable.
    pub known_leader: bool,
}

/// Metadata of a write.
#[derive(Clone, Copy, PartialEq, Eq, Structural, Debug)]
pub struct WriteMeta {
    /// How long the round trip took, in milliseconds, as measured by the
    /// transport.
    pub request_time_ms: u64,
}

/// The number a header value denotes: its decimal value, or 0 when the
/// header is absent, not a numeral, or out of range.
pub open spec fn header_num(h: Option<Vec<u8>>) -> u64 {
    match h {
        Some(b) => if parses_u64(b@) {
            dec_val(b@) as u64
        } else {
            0
        },
        None => 0,
    }
}

/// The bytes of the header value `true`.
pub open spec fn true_bytes() -> Seq<u8> {
    seq![116u8, 114u8, 117u8, 101u8]
}

/// Whether a header value reads exactly `true`; absent means false.
pub open spec fn header_known_leader(h: Option<Vec<u8>>) -> bool {
    match h {
        Some(b) => b@ == true_bytes(),
        None => false,
    }
}

/// The metadata a read derives from its response headers.
pub open spec fn meta_of_headers(h: ResponseHeaders) -> QueryMeta {
    QueryMeta {
        last_index: header_num(h.index),
        last_contact_ms: header_num(h.last_contact),
        known_leader: header_known_leader(h.known_leader),
    }
}

fn header_u64(h: &Option<Vec<u8>>) -> (r: u64)
    ensures
        r == header_num(*h),
{
    match h {
        Some(b) => match parse_u64(b.as_slice()) {
            Some(v) => v,
            None => 0,
        },
        None => 0,
    }
}

fn header_true(h: &Option<Vec<u8>>) -> (r: bool)
    ensures
        r == header_known_leader(*h),
{
    match h {
        Some(b) => {
            if b.len() == 4 {
                let r = b[0] == 116 && b[1] == 114 && b[2] == 117 && b[3] == 101;
                proof {
                    if r {
                        assert(b@ =~= true_bytes());
                    }
                }
                r
            } else {
                false
            }
        },
        None => false,
    }
}

/// Extract a read's metadata from its response headers: `X-Consul-Index`
/// and `X-Consul-LastContact` as numbers with 0 for an absent or unreadable
/// header, `X-Consul-KnownLeader` as a boolean defaulting to false.
pub fn query_meta_of(h: &ResponseHeaders) -> (r: QueryMeta)
    ensures
        r == meta_of_headers(*h),
{
    QueryMeta {
        last_index: header_u64(&h.index),
        last_contact_ms: header_u64(&h.last_contact),
        known_leader: header_true(&h.known_leader),
    }
}

/// Whether an HTTP status code reports success.
pub open spec fn is_success(status: u16) -> bool {
    200 <= status < 300
}

/// Interpret one read response. A non-2xx status is an HTTP error carrying
/// the original status code and the raw body, whatever the body holds. On
/// success the body must be JSON: a malformed body is a decode error, a
/// well-formed one is returned decoded, together with the metadata of the
/// response headers.
pub fn read_response(status: u16, body: String, h: &ResponseHeaders) -> (r: Result<
    (serde_json::Value, QueryMeta),
    ConsulError,
>)
    ensures
        !is_success(status) ==> (r matches Err(ConsulError::HttpError(s, b)) && s == status && b@
            == body@),
        is_success(status) && !json_wf(body@) ==> (r matches Err(e) && e matches
            ConsulError::DecodeError(_)),
        is_success(status) ==> (r is Ok <==> json_wf(body@)),
        r matches Ok((v, m)) ==> v == json_value_of(body@) && m == meta_of_headers(*h),
{
    if status < 200 || status >= 300 {
        return Err(ConsulError::HttpError(status, body));
    }
    match parse_json(body.as_str()) {
        Ok(v) => Ok((v, query_meta_of(h))),
        Err(m) => Err(ConsulError::DecodeError(m)),
    }
}

/// Interpret one write response whose success payload is JSON. The same
/// classification as for reads; the metadata carries the measured request
/// time.
pub fn write_response(status: u16, body: String, request_time_ms: u64) -> (r: Result<
    (serde_json::Value, WriteMeta),
    ConsulError,
>)
    ensures
        !is_success(status) ==> (r matches Err(ConsulError::HttpError(s, b)) && s == status && b@
            == body@),
        is_success(status) && !json_wf(body@) ==> (r matches Err(e) && e matches
            ConsulError::DecodeError(_)),
        is_success(status) ==> (r is Ok <==> json_wf(body@)),
        r matches Ok((v, m)) ==> v == json_value_of(body@) && m.request_time_ms
            == request_time_ms,
{
    if status < 200 || status >= 300 {
        return Err(ConsulError::HttpError(status, body));
    }
    match parse_json(body.as_str()) {
        Ok(v) => Ok((v, WriteMeta { request_time_ms })),
        Err(m) => Err(ConsulError::DecodeError(m)),
    }
}

/// Interpret one write response whose success payload is empty or ignored.
/// A non-2xx status is an HTTP error with the original status code; any
/// 2xx response succeeds, whatever the body holds.
pub fn write_unit_response(status: u16, body: String, request_time_ms: u64) -> (r: Result<
    ((), WriteMeta),
    ConsulError,
>)
    ensures
        !is_success(status) ==> (r matches Err(ConsulError::HttpError(s, b)) && s == status && b@
            == body@),
        is_success(status) ==> (r matches Ok((u, m)) && m.request_time_ms == request_time_ms),
{
    if status < 200 || status >= 300 {
        return Err(ConsulError::HttpError(status, body));
    }
    Ok(((), WriteMeta { request_time_ms }))
}

} // verus!
