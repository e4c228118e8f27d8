//! The Connect certificate-authority endpoints: listing CA roots and
//! reading or updating the CA configuration. Each operation is one fixed
//! path handed to the request pipeline, plus a decoder for its response.

use vstd::prelude::*;

verus! {

use vstd::utf8::encode_utf8;
use crate::digits::dec_bytes;
use crate::encode::{obj_bytes, str_lit, ObjBuilder};
use crate::errors::{shape_mismatch, ConsulError};
use crate::json::{
    arr_of, bool_field_or, get_of, is_null_of, is_object_of, json_null, json_value_of, json_wf,
    spec_bool_or, spec_str_or, spec_u64_or, str_field_or, u64_field_or, value_array,
    value_bytes_of, value_clone, value_get, value_is_null, value_is_object, value_to_bytes,
};
use crate::options::{Config, QueryOptions, WriteOptions};
use crate::pipeline::{
    is_success, meta_of_headers, opt_q, opt_w, params_view, prepare_query, prepare_write,
    query_params, read_response, write_params, write_unit_response, Method, PreparedRequest,
    QueryMeta, ResponseHeaders, WriteMeta,
};

/// The certificate-authority configuration. The provider-specific `config`
/// blob has no fixed shape: it is carried as a dynamic JSON value.
#[derive(Debug)]
pub struct CAConfig {
    pub provider: String,
    pub config: serde_json::Value,
    pub create_index: u64,
    pub modify_index: u64,
}

impl Default for CAConfig {
    /// An empty configuration: no provider, a null blob, zero indexes.
    fn default() -> (r: CAConfig)
        ensures
            r.provider@ == Seq::<char>::empty(),
            r.create_index == 0,
            r.modify_index == 0,
    {
        CAConfig { provider: String::new(), config: json_null(), create_index: 0, modify_index: 0 }
    }
}

/// One CA root certificate.
#[derive(PartialEq, Eq, Debug)]
pub struct CARoot {
    pub id: String,
    pub name: String,
    pub root_cert: String,
    pub active: bool,
    pub create_index: u64,
    pub modify_index: u64,
}

impl Default for CARoot {
    /// A root with every field empty, as Consul's omitted fields decode.
    fn default() -> (r: CARoot)
        ensures
            r.id@ == Seq::<char>::empty(),
            r.name@ == Seq::<char>::empty(),
            r.root_cert@ == Seq::<char>::empty(),
            !r.active,
            r.create_index == 0,
            r.modify_index == 0,
    {
        CARoot {
            id: String::new(),
            name: String::new(),
            root_cert: String::new(),
            active: false,
            create_index: 0,
            modify_index: 0,
        }
    }
}

/// The listing of CA roots.
#[derive(Debug)]
pub struct CARootList {
    pub active_root_id: String,
    pub trust_domain: String,
    pub roots: Vec<CARoot>,
}

impl Default for CARootList {
    /// An empty listing.
    fn default() -> (r: CARootList)
        ensures
            r.active_root_id@ == Seq::<char>::empty(),
            r.trust_domain@ == Seq::<char>::empty(),
            r.roots@.len() == 0,
    {
        CARootList { active_root_id: String::new(), trust_domain: String::new(), roots: Vec::new() }
    }
}

/// Build the read request that lists the CA roots.
pub fn ca_roots_request(c: &Config, q: Option<&QueryOptions>) -> (r: PreparedRequest)
    ensures
        r.method == Method::Get,
        r.url@ == c.address@ + "/v1/connect/ca/roots"@,
        params_view(r.params@) == query_params(*c, opt_q(q)),
        r.body is None,
{
    let pr = prepare_query(c, "/v1/connect/ca/roots", Vec::new(), q);
    proof {
        assert(params_view(Seq::<(String, String)>::empty()) + query_params(*c, opt_q(q))
            =~= query_params(*c, opt_q(q)));
    }
    pr
}

/// Whether a dynamic value fits the shape of one CA root record: an object
/// whose known fields, where present and not null, carry their types.
pub open spec fn ca_root_shape_ok(v: serde_json::Value) -> bool {
    &&& is_object_of(v)
    &&& spec_str_or(v, "ID"@) is Some
    &&& spec_str_or(v, "Name"@) is Some
    &&& spec_str_or(v, "RootCert"@) is Some
    &&& spec_bool_or(v, "Active"@) is Some
    &&& spec_u64_or(v, "CreateIndex"@) is Some
    &&& spec_u64_or(v, "ModifyIndex"@) is Some
}

/// Whether `root` is exactly what the dynamic value decodes to, field for
/// field, with absent and null fields defaulted.
pub open spec fn ca_root_matches(root: CARoot, v: serde_json::Value) -> bool {
    &&& Some(root.id@) == spec_str_or(v, "ID"@)
    &&& Some(root.name@) == spec_str_or(v, "Name"@)
    &&& Some(root.root_cert@) == spec_str_or(v, "RootCert"@)
    &&& Some(root.active) == spec_bool_or(v, "Active"@)
    &&& Some(root.create_index) == spec_u64_or(v, "CreateIndex"@)
    &&& Some(root.modify_index) == spec_u64_or(v, "ModifyIndex"@)
}

/// The elements of the `Roots` member: empty where absent or null.
pub open spec fn spec_roots(v: serde_json::Value) -> Seq<serde_json::Value> {
    match get_of(v, "Roots"@) {
        Some(x) => if is_null_of(x) {
            Seq::empty()
        } else {
            match arr_of(x) {
                Some(a) => a,
                None => Seq::empty(),
            }
        },
        None => Seq::empty(),
    }
}

/// Whether every element of the `Roots` member fits the root shape.
pub open spec fn roots_elems_ok(v: serde_json::Value) -> bool {
    forall|i: int| 0 <= i < spec_roots(v).len() ==> ca_root_shape_ok(#[trigger] spec_roots(v)[i])
}

/// Whether the `Roots` member fits: absent, null, or an array of root
/// records.
pub open spec fn roots_field_ok(v: serde_json::Value) -> bool {
    &&& (match get_of(v, "Roots"@) {
        Some(x) => is_null_of(x) || arr_of(x) is Some,
        None => true,
    })
    &&& roots_elems_ok(v)
}

/// Whether a dynamic value fits the shape of the roots listing.
pub open spec fn ca_root_list_shape_ok(v: serde_json::Value) -> bool {
    &&& is_object_of(v)
    &&& spec_str_or(v, "ActiveRootID"@) is Some
    &&& spec_str_or(v, "TrustDomain"@) is Some
    &&& roots_field_ok(v)
}

/// Whether `list` is exactly what the dynamic value decodes to.
pub open spec fn ca_root_list_matches(list: CARootList, v: serde_json::Value) -> bool {
    &&& Some(list.active_root_id@) == spec_str_or(v, "ActiveRootID"@)
    &&& Some(list.trust_domain@) == spec_str_or(v, "TrustDomain"@)
    &&& list.roots@.len() == spec_roots(v).len()
    &&& forall|i: int|
        0 <= i < list.roots@.len() ==> ca_root_matches(#[trigger] list.roots@[i], spec_roots(v)[i])
}

fn decode_ca_root(v: &serde_json::Value) -> (r: Result<CARoot, ()>)
    ensures
        r is Ok <==> ca_root_shape_ok(*v),
        r matches Ok(root) ==> ca_root_matches(root, *v),
{
    if !value_is_object(v) {
        return Err(());
    }
    let id = str_field_or(v, "ID")?;
    let name = str_field_or(v, "Name")?;
    let root_cert = str_field_or(v, "RootCert")?;
    let active = bool_field_or(v, "Active")?;
    let create_index = u64_field_or(v, "CreateIndex")?;
    let modify_index = u64_field_or(v, "ModifyIndex")?;
    Ok(CARoot { id, name, root_cert, active, create_index, modify_index })
}

fn decode_ca_root_list(v: &serde_json::Value) -> (r: Result<CARootList, ()>)
    ensures
        r is Ok <==> ca_root_list_shape_ok(*v),
        r matches Ok(list) ==> ca_root_list_matches(list, *v),
{
    if !value_is_object(v) {
        return Err(());
    }
    let mut roots: Vec<CARoot> = Vec::new();
    match value_get(v, "Roots") {
        Some(rv) => {
            if !value_is_null(rv) {
                match value_array(rv) {
                    Some(arr) => {
                        proof {
                            assert(spec_roots(*v) == arr@);
                        }
                        let mut i: usize = 0;
                        while i < arr.len()
                            invariant
                                i <= arr@.len(),
                                spec_roots(*v) == arr@,
                                get_of(*v, "Roots"@) == Some(*rv),
                                !is_null_of(*rv),
                                arr_of(*rv) == Some(arr@),
                                roots@.len() == i,
                                forall|j: int|
                                    0 <= j < i ==> ca_root_shape_ok(#[trigger] spec_roots(*v)[j]),
                                forall|j: int|
                                    0 <= j < i ==> ca_root_matches(
                                        #[trigger] roots@[j],
                                        spec_roots(*v)[j],
                                    ),
                            decreases arr@.len() - i,
                        {
                            let xi = &arr[i];
                            proof {
                                assert(*xi == arr@[i as int]);
                                assert(arr@[i as int] == spec_roots(*v)[i as int]);
                            }
                            match decode_ca_root(xi) {
                                Ok(root) => roots.push(root),
                                Err(_) => {
                                    proof {
                                        assert(!ca_root_shape_ok(spec_roots(*v)[i as int]));
                                        assert(!roots_elems_ok(*v));
                                    }
                                    return Err(());
                                },
                            }
                            i = i + 1;
                        }
                        proof {
                            assert(roots_elems_ok(*v));
                        }
                    },
                    None => {
                        return Err(());
                    },
                }
            }
        },
        None => {},
    }
    let active_root_id = str_field_or(v, "ActiveRootID")?;
    let trust_domain = str_field_or(v, "TrustDomain")?;
    Ok(CARootList { active_root_id, trust_domain, roots })
}

/// Interpret the response of the CA roots listing: a non-2xx status is an
/// HTTP error with the original status code and body; on success, a body
/// that is not JSON, or is JSON of the wrong shape (no object at the top, a
/// `Roots` member that is no array of root objects, a field of the wrong
/// type), is a decode error; otherwise the decoded listing and the metadata
/// of the response headers.
pub fn ca_roots_response(status: u16, body: String, h: &ResponseHeaders) -> (r: Result<
    (CARootList, QueryMeta),
    ConsulError,
>)
    ensures
        !is_success(status) ==> (r matches Err(ConsulError::HttpError(s, b)) && s == status && b@
            == body@),
        is_success(status) && !json_wf(body@) ==> (r matches Err(e) && e matches
            ConsulError::DecodeError(_)),
        is_success(status) ==> (r is Ok || (r matches Err(e) && e matches
            ConsulError::DecodeError(_))),
        is_success(status) && json_wf(body@) ==> (r is Ok <==> ca_root_list_shape_ok(
            json_value_of(body@),
        )),
        r matches Ok((x, m)) ==> ca_root_list_matches(x, json_value_of(body@)) && m
            == meta_of_headers(*h),
{
    match read_response(status, body, h) {
        Ok((v, m)) => match decode_ca_root_list(&v) {
            Ok(list) => Ok((list, m)),
            Err(_) => Err(ConsulError::DecodeError(shape_mismatch())),
        },
        Err(e) => Err(e),
    }
}

/// Build the read request of the CA configuration.
pub fn ca_get_config_request(c: &Config, q: Option<&QueryOptions>) -> (r: PreparedRequest)
    ensures
        r.method == Method::Get,
        r.url@ == c.address@ + "/v1/connect/ca/configuration"@,
        params_view(r.params@) == query_params(*c, opt_q(q)),
        r.body is None,
{
    let pr = prepare_query(c, "/v1/connect/ca/configuration", Vec::new(), q);
    proof {
        assert(params_view(Seq::<(String, String)>::empty()) + query_params(*c, opt_q(q))
            =~= query_params(*c, opt_q(q)));
    }
    pr
}

/// Whether a dynamic value fits the shape of the CA configuration: an
/// object whose known fields, where present and not null, carry their
/// types. The dynamic `Config` blob fits whatever its shape.
pub open spec fn ca_config_shape_ok(v: serde_json::Value) -> bool {
    &&& is_object_of(v)
    &&& spec_str_or(v, "Provider"@) is Some
    &&& spec_u64_or(v, "CreateIndex"@) is Some
    &&& spec_u64_or(v, "ModifyIndex"@) is Some
}

/// Whether `c` is exactly what the dynamic value decodes to: the fields
/// defaulted where absent or null, the blob carried through (null where
/// absent).
pub open spec fn ca_config_matches(c: CAConfig, v: serde_json::Value) -> bool {
    &&& Some(c.provider@) == spec_str_or(v, "Provider"@)
    &&& Some(c.create_index) == spec_u64_or(v, "CreateIndex"@)
    &&& Some(c.modify_index) == spec_u64_or(v, "ModifyIndex"@)
    &&& (match get_of(v, "Config"@) {
        Some(x) => c.config == x,
        None => is_null_of(c.config),
    })
}

/// Decode one CA configuration from a dynamic value: the top value must be
/// an object and the known fields must carry their types; the dynamic
/// `Config` blob is kept whatever its shape.
pub fn decode_ca_config(v: &serde_json::Value) -> (r: Result<CAConfig, ()>)
    ensures
        r is Ok <==> ca_config_shape_ok(*v),
        r matches Ok(c) ==> ca_config_matches(c, *v),
{
    if !value_is_object(v) {
        return Err(());
    }
    let cfg = match value_get(v, "Config") {
        Some(x) => value_clone(x),
        None => json_null(),
    };
    let provider = str_field_or(v, "Provider")?;
    let create_index = u64_field_or(v, "CreateIndex")?;
    let modify_index = u64_field_or(v, "ModifyIndex")?;
    Ok(CAConfig { provider, config: cfg, create_index, modify_index })
}

/// Interpret the response of the CA configuration read, classified as for
/// the roots listing: a wrong-shaped 2xx body is a decode error, never a
/// silently-defaulted configuration.
pub fn ca_get_config_response(status: u16, body: String, h: &ResponseHeaders) -> (r: Result<
    (CAConfig, QueryMeta),
    ConsulError,
>)
    ensures
        !is_success(status) ==> (r matches Err(ConsulError::HttpError(s, b)) && s == status && b@
            == body@),
        is_success(status) && !json_wf(body@) ==> (r matches Err(e) && e matches
            ConsulError::DecodeError(_)),
        is_success(status) ==> (r is Ok || (r matches Err(e) && e matches
            ConsulError::DecodeError(_))),
        is_success(status) && json_wf(body@) ==> (r is Ok <==> ca_config_shape_ok(
            json_value_of(body@),
        )),
        r matches Ok((x, m)) ==> ca_config_matches(x, json_value_of(body@)) && m
            == meta_of_headers(*h),
{
    match read_response(status, body, h) {
        Ok((v, m)) => match decode_ca_config(&v) {
            Ok(conf) => Ok((conf, m)),
            Err(_) => Err(ConsulError::DecodeError(shape_mismatch())),
        },
        Err(e) => Err(e),
    }
}

/// The JSON body of a CA configuration update, over the already-encoded
/// provider blob: provider as a JSON string, the blob verbatim, the two
/// indexes as numbers.
pub open spec fn ca_config_body_spec(provider: Seq<char>, cfg: Seq<u8>, ci: u64, mi: u64) -> Seq<
    u8,
> {
    obj_bytes(
        seq![
            (encode_utf8("Provider"@), str_lit(provider)),
            (encode_utf8("Config"@), cfg),
            (encode_utf8("CreateIndex"@), dec_bytes(ci as nat)),
            (encode_utf8("ModifyIndex"@), dec_bytes(mi as nat)),
        ],
    )
}

/// Frame the JSON body of a CA configuration update.
pub fn ca_config_body(provider: &String, cfg: Vec<u8>, ci: u64, mi: u64) -> (r: Vec<u8>)
    ensures
        r@ == ca_config_body_spec(provider@, cfg@, ci, mi),
{
    let ghost cfgv = cfg@;
    let mut b = ObjBuilder::new();
    b.add_str("Provider", provider.as_str());
    b.add_raw("Config", cfg);
    b.add_u64("CreateIndex", ci);
    b.add_u64("ModifyIndex", mi);
    let ghost fs = b.fields();
    proof {
        assert(fs =~= seq![
            (encode_utf8("Provider"@), str_lit(provider@)),
            (encode_utf8("Config"@), cfgv),
            (encode_utf8("CreateIndex"@), dec_bytes(ci as nat)),
            (encode_utf8("ModifyIndex"@), dec_bytes(mi as nat)),
        ]);
    }
    b.finish()
}

/// Build the write request that updates the CA configuration: a PUT whose
/// body frames the given configuration, the dynamic blob serialized by
/// serde_json and spliced verbatim.
pub fn ca_set_config_request(c: &Config, conf: &CAConfig, w: Option<&WriteOptions>) -> (r:
    PreparedRequest)
    ensures
        r.method == Method::Put,
        r.url@ == c.address@ + "/v1/connect/ca/configuration"@,
        params_view(r.params@) == write_params(*c, opt_w(w)),
        r.body matches Some(b) && b@ == ca_config_body_spec(
            conf.provider@,
            value_bytes_of(conf.config),
            conf.create_index,
            conf.modify_index,
        ),
{
    let cfg_bytes = value_to_bytes(&conf.config);
    let body = ca_config_body(&conf.provider, cfg_bytes, conf.create_index, conf.modify_index);
    let pr = prepare_write(
        Method::Put,
        c,
        "/v1/connect/ca/configuration",
        Some(body),
        Vec::new(),
        w,
    );
    proof {
        assert(params_view(Seq::<(String, String)>::empty()) + write_params(*c, opt_w(w))
            =~= write_params(*c, opt_w(w)));
    }
    pr
}

/// Interpret the response of a CA configuration update: any 2xx status
/// succeeds with the measured request time; a non-2xx status is an HTTP
/// error with the original status code and body.
pub fn ca_set_config_response(status: u16, body: String, request_time_ms: u64) -> (r: Result<
    ((), WriteMeta),
    ConsulError,
>)
    ensures
        !is_success(status) ==> (r matches Err(ConsulError::HttpError(s, b)) && s == status && b@
            == body@),
        is_success(status) ==> (r matches Ok((u, m)) && m.request_time_ms == request_time_ms),
{
    write_unit_response(status, body, request_time_ms)
}

} // verus!
