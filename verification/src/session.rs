//! The session endpoints: create, destroy, renew, info, list, and the
//! sessions of one node. Each operation is one fixed path handed to the
//! request pipeline, plus a decoder for its response.

use vstd::prelude::*;

verus! {

use vstd::string::StringExecFns;
use vstd::utf8::encode_utf8;
use crate::digits::dec_bytes;
use crate::encode::{obj_bytes, str_arr_bytes, str_lit, ObjBuilder};
use crate::errors::{shape_mismatch, ConsulError};
use crate::json::{
    arr_of, bool_of, is_object_of, json_value_of, json_wf, opt_str_arr_field, opt_str_field,
    opt_u64_field, spec_opt_str, spec_opt_str_arr, spec_opt_u64, value_array, value_bool,
    value_is_object, view_opt_str, view_opt_str_arr,
};
use crate::options::{Config, QueryOptions, WriteOptions};
use crate::pipeline::{
    is_success, meta_of_headers, opt_q, opt_w, params_view, prepare_query, prepare_write,
    query_params, read_response, write_params, write_response, Method, PreparedRequest, QueryMeta,
    ResponseHeaders, WriteMeta,
};

/// One session record. Consul omits unset fields, so every field is
/// optional, with absence meaning the server's default.
#[derive(Debug)]
pub struct SessionEntry {
    pub id: Option<String>,
    pub name: Option<String>,
    pub node: Option<String>,
    /// Lock delay in seconds.
    pub lock_delay: Option<u64>,
    pub behavior: Option<String>,
    pub ttl: Option<String>,
    pub checks: Option<Vec<String>>,
    pub create_index: Option<u64>,
    pub modify_index: Option<u64>,
}

impl Default for SessionEntry {
    /// An entry with no field set: creating it leaves every choice to the
    /// server.
    fn default() -> (r: SessionEntry)
        ensures
            r.id is None,
            r.name is None,
            r.node is None,
            r.lock_delay is None,
            r.behavior is None,
            r.ttl is None,
            r.checks is None,
            r.create_index is None,
            r.modify_index is None,
    {
        SessionEntry {
            id: None,
            name: None,
            node: None,
            lock_delay: None,
            behavior: None,
            ttl: None,
            checks: None,
            create_index: None,
            modify_index: None,
        }
    }
}

/// The member an optional string field contributes: one JSON string, or
/// nothing.
pub open spec fn fld_str(name: Seq<char>, v: Option<String>) -> Seq<(Seq<u8>, Seq<u8>)> {
    match v {
        Some(s) => seq![(encode_utf8(name), str_lit(s@))],
        None => seq![],
    }
}

/// The member an optional number field contributes.
pub open spec fn fld_u64(name: Seq<char>, v: Option<u64>) -> Seq<(Seq<u8>, Seq<u8>)> {
    match v {
        Some(n) => seq![(encode_utf8(name), dec_bytes(n as nat))],
        None => seq![],
    }
}

/// The member an optional string-array field contributes.
pub open spec fn fld_str_arr(name: Seq<char>, v: Option<Vec<String>>) -> Seq<(Seq<u8>, Seq<u8>)> {
    match v {
        Some(items) => seq![(encode_utf8(name), str_arr_bytes(items.deep_view()))],
        None => seq![],
    }
}

/// The members of a session-creation body: exactly the set fields, in this
/// order. The identity and index fields are the server's to assign and are
/// never sent.
pub open spec fn session_fields(e: SessionEntry) -> Seq<(Seq<u8>, Seq<u8>)> {
    fld_str("Name"@, e.name) + fld_str("Node"@, e.node) + fld_u64("LockDelay"@, e.lock_delay)
        + fld_str("Behavior"@, e.behavior) + fld_str("TTL"@, e.ttl) + fld_str_arr(
        "Checks"@,
        e.checks,
    )
}

/// Frame the JSON body that creates a session: an object holding exactly
/// the set fields of the entry.
pub fn session_create_body(e: &SessionEntry) -> (r: Vec<u8>)
    ensures
        r@ == obj_bytes(session_fields(*e)),
{
    let mut b = ObjBuilder::new();
    match &e.name {
        Some(s) => b.add_str("Name", s.as_str()),
        None => {},
    }
    proof {
        assert(b.fields() =~= fld_str("Name"@, e.name));
    }
    match &e.node {
        Some(s) => b.add_str("Node", s.as_str()),
        None => {},
    }
    proof {
        assert(b.fields() =~= fld_str("Name"@, e.name) + fld_str("Node"@, e.node));
    }
    match &e.lock_delay {
        Some(n) => b.add_u64("LockDelay", *n),
        None => {},
    }
    proof {
        assert(b.fields() =~= (fld_str("Name"@, e.name) + fld_str("Node"@, e.node)) + fld_u64(
            "LockDelay"@,
            e.lock_delay,
        ));
    }
    match &e.behavior {
        Some(s) => b.add_str("Behavior", s.as_str()),
        None => {},
    }
    proof {
        assert(b.fields() =~= ((fld_str("Name"@, e.name) + fld_str("Node"@, e.node)) + fld_u64(
            "LockDelay"@,
            e.lock_delay,
        )) + fld_str("Behavior"@, e.behavior));
    }
    match &e.ttl {
        Some(s) => b.add_str("TTL", s.as_str()),
        None => {},
    }
    match &e.checks {
        Some(items) => b.add_str_arr("Checks", items),
        None => {},
    }
    proof {
        assert(b.fields() =~= session_fields(*e));
    }
    b.finish()
}

/// Build the write request that creates a session.
pub fn session_create_request(c: &Config, e: &SessionEntry, w: Option<&WriteOptions>) -> (r:
    PreparedRequest)
    ensures
        r.method == Method::Put,
        r.url@ == c.address@ + "/v1/session/create"@,
        params_view(r.params@) == write_params(*c, opt_w(w)),
        r.body matches Some(b) && b@ == obj_bytes(session_fields(*e)),
{
    let body = session_create_body(e);
    let pr = prepare_write(Method::Put, c, "/v1/session/create", Some(body), Vec::new(), w);
    proof {
        assert(params_view(Seq::<(String, String)>::empty()) + write_params(*c, opt_w(w))
            =~= write_params(*c, opt_w(w)));
    }
    pr
}

fn path_with(prefix: &str, tail: &str) -> (r: String)
    ensures
        r@ == prefix@ + tail@,
{
    let mut p = prefix.to_owned();
    p.append(tail);
    p
}

/// Build the write request that destroys the session with the given id.
pub fn session_destroy_request(c: &Config, id: &str, w: Option<&WriteOptions>) -> (r:
    PreparedRequest)
    ensures
        r.method == Method::Put,
        r.url@ == c.address@ + ("/v1/session/destroy/"@ + id@),
        params_view(r.params@) == write_params(*c, opt_w(w)),
        r.body is None,
{
    let path = path_with("/v1/session/destroy/", id);
    let pr = prepare_write(Method::Put, c, path.as_str(), None, Vec::new(), w);
    proof {
        assert(params_view(Seq::<(String, String)>::empty()) + write_params(*c, opt_w(w))
            =~= write_params(*c, opt_w(w)));
    }
    pr
}

/// Build the write request that renews the session with the given id.
pub fn session_renew_request(c: &Config, id: &str, w: Option<&WriteOptions>) -> (r:
    PreparedRequest)
    ensures
        r.method == Method::Put,
        r.url@ == c.address@ + ("/v1/session/renew/"@ + id@),
        params_view(r.params@) == write_params(*c, opt_w(w)),
        r.body is None,
{
    let path = path_with("/v1/session/renew/", id);
    let pr = prepare_write(Method::Put, c, path.as_str(), None, Vec::new(), w);
    proof {
        assert(params_view(Seq::<(String, String)>::empty()) + write_params(*c, opt_w(w))
            =~= write_params(*c, opt_w(w)));
    }
    pr
}

/// Build the read request for the session with the given id.
pub fn session_info_request(c: &Config, id: &str, q: Option<&QueryOptions>) -> (r:
    PreparedRequest)
    ensures
        r.method == Method::Get,
        r.url@ == c.address@ + ("/v1/session/info/"@ + id@),
        params_view(r.params@) == query_params(*c, opt_q(q)),
        r.body is None,
{
    let path = path_with("/v1/session/info/", id);
    let pr = prepare_query(c, path.as_str(), Vec::new(), q);
    proof {
        assert(params_view(Seq::<(String, String)>::empty()) + query_params(*c, opt_q(q))
            =~= query_params(*c, opt_q(q)));
    }
    pr
}

/// Build the read request that lists every session.
pub fn session_list_request(c: &Config, q: Option<&QueryOptions>) -> (r: PreparedRequest)
    ensures
        r.method == Method::Get,
        r.url@ == c.address@ + "/v1/session/list"@,
        params_view(r.params@) == query_params(*c, opt_q(q)),
        r.body is None,
{
    let pr = prepare_query(c, "/v1/session/list", Vec::new(), q);
    proof {
        assert(params_view(Seq::<(String, String)>::empty()) + query_params(*c, opt_q(q))
            =~= query_params(*c, opt_q(q)));
    }
    pr
}

/// Build the read request that lists the sessions of one node.
pub fn session_node_request(c: &Config, node: &str, q: Option<&QueryOptions>) -> (r:
    PreparedRequest)
    ensures
        r.method == Method::Get,
        r.url@ == c.address@ + ("/v1/session/node/"@ + node@),
        params_view(r.params@) == query_params(*c, opt_q(q)),
        r.body is None,
{
    let path = path_with("/v1/session/node/", node);
    let pr = prepare_query(c, path.as_str(), Vec::new(), q);
    proof {
        assert(params_view(Seq::<(String, String)>::empty()) + query_params(*c, opt_q(q))
            =~= query_params(*c, opt_q(q)));
    }
    pr
}

/// Whether a dynamic value fits the shape of one session record: an object
/// whose known fields, where present and not null, carry their types.
pub open spec fn session_entry_shape_ok(v: serde_json::Value) -> bool {
    &&& is_object_of(v)
    &&& spec_opt_str(v, "ID"@) is Some
    &&& spec_opt_str(v, "Name"@) is Some
    &&& spec_opt_str(v, "Node"@) is Some
    &&& spec_opt_u64(v, "LockDelay"@) is Some
    &&& spec_opt_str(v, "Behavior"@) is Some
    &&& spec_opt_str(v, "TTL"@) is Some
    &&& spec_opt_str_arr(v, "Checks"@) is Some
    &&& spec_opt_u64(v, "CreateIndex"@) is Some
    &&& spec_opt_u64(v, "ModifyIndex"@) is Some
}

/// Whether `e` is exactly what the dynamic value decodes to, field for
/// field, absent and null fields unset.
pub open spec fn session_entry_matches(e: SessionEntry, v: serde_json::Value) -> bool {
    &&& Some(view_opt_str(e.id)) == spec_opt_str(v, "ID"@)
    &&& Some(view_opt_str(e.name)) == spec_opt_str(v, "Name"@)
    &&& Some(view_opt_str(e.node)) == spec_opt_str(v, "Node"@)
    &&& Some(e.lock_delay) == spec_opt_u64(v, "LockDelay"@)
    &&& Some(view_opt_str(e.behavior)) == spec_opt_str(v, "Behavior"@)
    &&& Some(view_opt_str(e.ttl)) == spec_opt_str(v, "TTL"@)
    &&& Some(view_opt_str_arr(e.checks)) == spec_opt_str_arr(v, "Checks"@)
    &&& Some(e.create_index) == spec_opt_u64(v, "CreateIndex"@)
    &&& Some(e.modify_index) == spec_opt_u64(v, "ModifyIndex"@)
}

/// The elements of a session listing: meaningful when the value is an
/// array.
pub open spec fn spec_entries(v: serde_json::Value) -> Seq<serde_json::Value> {
    match arr_of(v) {
        Some(a) => a,
        None => Seq::empty(),
    }
}

/// Whether a dynamic value fits the shape of a session listing: an array of
/// session records.
pub open spec fn session_list_shape_ok(v: serde_json::Value) -> bool {
    &&& arr_of(v) is Some
    &&& forall|i: int|
        0 <= i < spec_entries(v).len() ==> session_entry_shape_ok(#[trigger] spec_entries(v)[i])
}

/// Whether `es` is exactly what the dynamic value decodes to, record for
/// record.
pub open spec fn session_list_matches(es: Seq<SessionEntry>, v: serde_json::Value) -> bool {
    &&& es.len() == spec_entries(v).len()
    &&& forall|i: int|
        0 <= i < es.len() ==> session_entry_matches(#[trigger] es[i], spec_entries(v)[i])
}

/// Decode one session record from a dynamic value: the record must be an
/// object; an absent or null field stays unset, and a field of the wrong
/// type is a shape mismatch.
pub fn decode_session_entry(v: &serde_json::Value) -> (r: Result<SessionEntry, ()>)
    ensures
        r is Ok <==> session_entry_shape_ok(*v),
        r matches Ok(e) ==> session_entry_matches(e, *v),
{
    if !value_is_object(v) {
        return Err(());
    }
    let id = opt_str_field(v, "ID")?;
    let name = opt_str_field(v, "Name")?;
    let node = opt_str_field(v, "Node")?;
    let lock_delay = opt_u64_field(v, "LockDelay")?;
    let behavior = opt_str_field(v, "Behavior")?;
    let ttl = opt_str_field(v, "TTL")?;
    let checks = opt_str_arr_field(v, "Checks")?;
    let create_index = opt_u64_field(v, "CreateIndex")?;
    let modify_index = opt_u64_field(v, "ModifyIndex")?;
    Ok(SessionEntry {
        id,
        name,
        node,
        lock_delay,
        behavior,
        ttl,
        checks,
        create_index,
        modify_index,
    })
}

fn decode_session_list(v: &serde_json::Value) -> (r: Result<Vec<SessionEntry>, ()>)
    ensures
        r is Ok <==> session_list_shape_ok(*v),
        r matches Ok(es) ==> session_list_matches(es@, *v),
{
    let mut out: Vec<SessionEntry> = Vec::new();
    match value_array(v) {
        Some(arr) => {
            proof {
                assert(spec_entries(*v) == arr@);
            }
            let mut i: usize = 0;
            while i < arr.len()
                invariant
                    i <= arr@.len(),
                    spec_entries(*v) == arr@,
                    arr_of(*v) == Some(arr@),
                    out@.len() == i,
                    forall|j: int|
                        0 <= j < i ==> session_entry_shape_ok(#[trigger] spec_entries(*v)[j]),
                    forall|j: int|
                        0 <= j < i ==> session_entry_matches(
                            #[trigger] out@[j],
                            spec_entries(*v)[j],
                        ),
                decreases arr@.len() - i,
            {
                let xi = &arr[i];
                proof {
                    assert(*xi == arr@[i as int]);
                    assert(arr@[i as int] == spec_entries(*v)[i as int]);
                }
                match decode_session_entry(xi) {
                    Ok(e) => out.push(e),
                    Err(_) => {
                        proof {
                            assert(!session_entry_shape_ok(spec_entries(*v)[i as int]));
                        }
                        return Err(());
                    },
                }
                i = i + 1;
            }
        },
        None => {
            return Err(());
        },
    }
    Ok(out)
}

/// Interpret the response of a session creation: a non-2xx status is an
/// HTTP error with the original status code and body; on success, a body
/// that is not JSON or is no session object is a decode error; otherwise
/// the decoded entry (the server fills at least its id) and the measured
/// request time.
pub fn session_create_response(status: u16, body: String, request_time_ms: u64) -> (r: Result<
    (SessionEntry, WriteMeta),
    ConsulError,
>)
    ensures
        !is_success(status) ==> (r matches Err(ConsulError::HttpError(s, b)) && s == status && b@
            == body@),
        is_success(status) && !json_wf(body@) ==> (r matches Err(e) && e matches
            ConsulError::DecodeError(_)),
        is_success(status) ==> (r is Ok || (r matches Err(e) && e matches
            ConsulError::DecodeError(_))),
        is_success(status) && json_wf(body@) ==> (r is Ok <==> session_entry_shape_ok(
            json_value_of(body@),
        )),
        r matches Ok((x, m)) ==> session_entry_matches(x, json_value_of(body@))
            && m.request_time_ms == request_time_ms,
{
    match write_response(status, body, request_time_ms) {
        Ok((v, m)) => match decode_session_entry(&v) {
            Ok(entry) => Ok((entry, m)),
            Err(_) => Err(ConsulError::DecodeError(shape_mismatch())),
        },
        Err(e) => Err(e),
    }
}

/// Interpret the response of a session destruction. Destroying a session is
/// idempotent on the server's side; whatever boolean the server answers on
/// a 2xx status is surfaced as it stands, so a repeated destroy interprets
/// deterministically. A 2xx body that is no JSON boolean is a decode error.
pub fn session_destroy_response(status: u16, body: String, request_time_ms: u64) -> (r: Result<
    (bool, WriteMeta),
    ConsulError,
>)
    ensures
        !is_success(status) ==> (r matches Err(ConsulError::HttpError(s, b)) && s == status && b@
            == body@),
        is_success(status) && !json_wf(body@) ==> (r matches Err(e) && e matches
            ConsulError::DecodeError(_)),
        is_success(status) ==> (r is Ok || (r matches Err(e) && e matches
            ConsulError::DecodeError(_))),
        is_success(status) && json_wf(body@) ==> (r is Ok <==> bool_of(
            json_value_of(body@),
        ) is Some),
        r matches Ok((x, m)) ==> Some(x) == bool_of(json_value_of(body@)) && m.request_time_ms
            == request_time_ms,
{
    match write_response(status, body, request_time_ms) {
        Ok((v, m)) => match value_bool(&v) {
            Some(x) => Ok((x, m)),
            None => Err(ConsulError::DecodeError(shape_mismatch())),
        },
        Err(e) => Err(e),
    }
}

/// Interpret the response of a session renewal: on success, a body that is
/// no array of session objects is a decode error; otherwise the renewed
/// entries and the measured request time.
pub fn session_renew_response(status: u16, body: String, request_time_ms: u64) -> (r: Result<
    (Vec<SessionEntry>, WriteMeta),
    ConsulError,
>)
    ensures
        !is_success(status) ==> (r matches Err(ConsulError::HttpError(s, b)) && s == status && b@
            == body@),
        is_success(status) && !json_wf(body@) ==> (r matches Err(e) && e matches
            ConsulError::DecodeError(_)),
        is_success(status) ==> (r is Ok || (r matches Err(e) && e matches
            ConsulError::DecodeError(_))),
        is_success(status) && json_wf(body@) ==> (r is Ok <==> session_list_shape_ok(
            json_value_of(body@),
        )),
        r matches Ok((x, m)) ==> session_list_matches(x@, json_value_of(body@))
            && m.request_time_ms == request_time_ms,
{
    match write_response(status, body, request_time_ms) {
        Ok((v, m)) => match decode_session_list(&v) {
            Ok(entries) => Ok((entries, m)),
            Err(_) => Err(ConsulError::DecodeError(shape_mismatch())),
        },
        Err(e) => Err(e),
    }
}

/// Interpret the response of a session read (info, list, or the sessions of
/// one node): a non-2xx status is an HTTP error with the original status
/// code and body; on success, a body that is not JSON or is no array of
/// session objects is a decode error, never a silently-empty listing;
/// otherwise the decoded entries and the metadata of the response headers.
pub fn session_read_response(status: u16, body: String, h: &ResponseHeaders) -> (r: Result<
    (Vec<SessionEntry>, QueryMeta),
    ConsulError,
>)
    ensures
        !is_success(status) ==> (r matches Err(ConsulError::HttpError(s, b)) && s == status && b@
            == body@),
        is_success(status) && !json_wf(body@) ==> (r matches Err(e) && e matches
            ConsulError::DecodeError(_)),
        is_success(status) ==> (r is Ok || (r matches Err(e) && e matches
            ConsulError::DecodeError(_))),
        is_success(status) && json_wf(body@) ==> (r is Ok <==> session_list_shape_ok(
            json_value_of(body@),
        )),
        r matches Ok((x, m)) ==> session_list_matches(x@, json_value_of(body@)) && m
            == meta_of_headers(*h),
{
    match read_response(status, body, h) {
        Ok((v, m)) => match decode_session_list(&v) {
            Ok(entries) => Ok((entries, m)),
            Err(_) => Err(ConsulError::DecodeError(shape_mismatch())),
        },
        Err(e) => Err(e),
    }
}

} // verus!
