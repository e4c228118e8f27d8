//! The trusted boundary to serde_json — parsing response bodies into
//! dynamic JSON values and reading those values — together with the
//! spec-level account of what each reading yields. Every reader's result is
//! a function of the value alone and carries a name, so the decoders'
//! contracts can say exactly which values decode and to what.

use vstd::prelude::*;

verus! {

#[verifier::external_type_specification]
#[verifier::external_body]
pub struct ExValue(serde_json::Value);

/// Whether serde_json accepts `s` as one JSON document.
pub uninterp spec fn json_wf(s: Seq<char>) -> bool;

/// The dynamic value serde_json parses `s` into, meaningful when
/// `json_wf(s)` holds: a function of the string alone.
pub uninterp spec fn json_value_of(s: Seq<char>) -> serde_json::Value;

/// Relies on serde_json::from_str::<Value>: parsing is a function of the
/// string alone; it succeeds exactly on the strings serde_json accepts as
/// JSON, which `json_wf` names, and yields the value `json_value_of` names.
/// On failure the error's message is returned.
#[verifier::external_body]
pub(crate) fn parse_json(s: &str) -> (r: Result<serde_json::Value, String>)
    ensures
        r is Ok <==> json_wf(s@),
        r matches Ok(v) ==> v == json_value_of(s@),
{
    serde_json::from_str::<serde_json::Value>(s).map_err(|e| e.to_string())
}

/// The JSON text serde_json renders for a dynamic value: a function of the
/// value alone (its maps are ordered).
pub uninterp spec fn value_bytes_of(v: serde_json::Value) -> Seq<u8>;

/// Relies on serde_json::to_string: the JSON text of a dynamic value, which
/// `value_bytes_of` names. Serializing a `Value` cannot fail (its maps have
/// string keys); a failure would be mapped to an empty byte string.
#[verifier::external_body]
pub(crate) fn value_to_bytes(v: &serde_json::Value) -> (r: Vec<u8>)
    ensures
        r@ == value_bytes_of(*v),
{
    match serde_json::to_string(v) {
        Ok(s) => s.into_bytes(),
        Err(_) => Vec::new(),
    }
}

/// Whether a dynamic value is a JSON object.
pub uninterp spec fn is_object_of(v: serde_json::Value) -> bool;

/// Relies on serde_json::Value::is_object, which `is_object_of` names.
#[verifier::external_body]
pub(crate) fn value_is_object(v: &serde_json::Value) -> (r: bool)
    ensures
        r == is_object_of(*v),
{
    v.is_object()
}

/// Whether a dynamic value is JSON null.
pub uninterp spec fn is_null_of(v: serde_json::Value) -> bool;

/// Relies on serde_json::Value::is_null, which `is_null_of` names.
#[verifier::external_body]
pub(crate) fn value_is_null(v: &serde_json::Value) -> (r: bool)
    ensures
        r == is_null_of(*v),
{
    v.is_null()
}

/// The value under a key of a JSON object: `None` where the value is no
/// object or has no such key.
pub uninterp spec fn get_of(v: serde_json::Value, key: Seq<char>) -> Option<serde_json::Value>;

/// Relies on serde_json::Value::get with a string index (the non-panicking
/// lookup), which `get_of` names.
#[verifier::external_body]
pub(crate) fn value_get<'a>(v: &'a serde_json::Value, key: &str) -> (r: Option<
    &'a serde_json::Value,
>)
    ensures
        r matches Some(x) ==> get_of(*v, key@) == Some(*x),
        r is None ==> get_of(*v, key@) is None,
{
    v.get(key)
}

/// The payload of a JSON string, `None` on any other value.
pub uninterp spec fn str_of(v: serde_json::Value) -> Option<Seq<char>>;

/// Relies on serde_json::Value::as_str, which `str_of` names.
#[verifier::external_body]
pub(crate) fn value_str(v: &serde_json::Value) -> (r: Option<String>)
    ensures
        r matches Some(s) ==> str_of(*v) == Some(s@),
        r is None ==> str_of(*v) is None,
{
    v.as_str().map(|s| s.to_owned())
}

/// The payload of a JSON number that is an unsigned integer fitting a
/// `u64`, `None` otherwise.
pub uninterp spec fn u64_of(v: serde_json::Value) -> Option<u64>;

/// Relies on serde_json::Value::as_u64, which `u64_of` names.
#[verifier::external_body]
pub(crate) fn value_u64(v: &serde_json::Value) -> (r: Option<u64>)
    ensures
        r == u64_of(*v),
{
    v.as_u64()
}

/// The payload of a JSON boolean, `None` on any other value.
pub uninterp spec fn bool_of(v: serde_json::Value) -> Option<bool>;

/// Relies on serde_json::Value::as_bool, which `bool_of` names.
#[verifier::external_body]
pub(crate) fn value_bool(v: &serde_json::Value) -> (r: Option<bool>)
    ensures
        r == bool_of(*v),
{
    v.as_bool()
}

/// The elements of a JSON array, `None` on any other value.
pub uninterp spec fn arr_of(v: serde_json::Value) -> Option<Seq<serde_json::Value>>;

/// Relies on serde_json::Value::as_array, which `arr_of` names.
#[verifier::external_body]
pub(crate) fn value_array<'a>(v: &'a serde_json::Value) -> (r: Option<&'a Vec<serde_json::Value>>)
    ensures
        r matches Some(a) ==> arr_of(*v) == Some(a@),
        r is None ==> arr_of(*v) is None,
{
    v.as_array()
}

/// Relies on serde_json::Value::clone: a deep copy of a pure data tree,
/// equal to its source as a value.
#[verifier::external_body]
pub(crate) fn value_clone(v: &serde_json::Value) -> (r: serde_json::Value)
    ensures
        r == *v,
{
    v.clone()
}

/// Relies on serde_json::Value::Null, the empty dynamic value, used where
/// a defaulted field holds no JSON at all.
#[verifier::external_body]
pub(crate) fn json_null() -> (r: serde_json::Value)
    ensures
        is_null_of(r),
{
    serde_json::Value::Null
}

/// The characters of an optional string.
pub open spec fn view_opt_str(o: Option<String>) -> Option<Seq<char>> {
    match o {
        Some(s) => Some(s@),
        None => None,
    }
}

/// The characters of an optional list of strings.
pub open spec fn view_opt_str_arr(o: Option<Vec<String>>) -> Option<Seq<Seq<char>>> {
    match o {
        Some(items) => Some(items.deep_view()),
        None => None,
    }
}

/// What an optional string field holds: `Some(None)` where it is absent or
/// null, `Some(Some(s))` where it is the string `s`, and `None` — a shape
/// mismatch — where it holds a value of another type.
pub open spec fn spec_opt_str(v: serde_json::Value, key: Seq<char>) -> Option<Option<Seq<char>>> {
    match get_of(v, key) {
        Some(x) => if is_null_of(x) {
            Some(None)
        } else {
            match str_of(x) {
                Some(s) => Some(Some(s)),
                None => None,
            }
        },
        None => Some(None),
    }
}

/// What an optional unsigned-number field holds, as `spec_opt_str`.
pub open spec fn spec_opt_u64(v: serde_json::Value, key: Seq<char>) -> Option<Option<u64>> {
    match get_of(v, key) {
        Some(x) => if is_null_of(x) {
            Some(None)
        } else {
            match u64_of(x) {
                Some(n) => Some(Some(n)),
                None => None,
            }
        },
        None => Some(None),
    }
}

/// What a defaulted string field decodes to: the empty string where absent
/// or null, `None` on a shape mismatch.
pub open spec fn spec_str_or(v: serde_json::Value, key: Seq<char>) -> Option<Seq<char>> {
    match spec_opt_str(v, key) {
        Some(Some(s)) => Some(s),
        Some(None) => Some(Seq::empty()),
        None => None,
    }
}

/// What a defaulted unsigned-number field decodes to: 0 where absent or
/// null, `None` on a shape mismatch.
pub open spec fn spec_u64_or(v: serde_json::Value, key: Seq<char>) -> Option<u64> {
    match spec_opt_u64(v, key) {
        Some(Some(n)) => Some(n),
        Some(None) => Some(0),
        None => None,
    }
}

/// What a defaulted boolean field decodes to: false where absent or null,
/// `None` on a shape mismatch.
pub open spec fn spec_bool_or(v: serde_json::Value, key: Seq<char>) -> Option<bool> {
    match get_of(v, key) {
        Some(x) => if is_null_of(x) {
            Some(false)
        } else {
            bool_of(x)
        },
        None => Some(false),
    }
}

/// Whether every element of `a` is a JSON string.
pub open spec fn all_strings(a: Seq<serde_json::Value>) -> bool {
    forall|i: int| 0 <= i < a.len() ==> str_of(#[trigger] a[i]) is Some
}

/// The strings of `a`, meaningful when `all_strings(a)` holds.
pub open spec fn strings_of(a: Seq<serde_json::Value>) -> Seq<Seq<char>> {
    a.map_values(
        |x: serde_json::Value|
            match str_of(x) {
                Some(s) => s,
                None => Seq::empty(),
            },
    )
}

/// What an optional string-array field holds: `None` — a shape mismatch —
/// where the field is no array or has an element that is no string.
pub open spec fn spec_opt_str_arr(v: serde_json::Value, key: Seq<char>) -> Option<
    Option<Seq<Seq<char>>>,
> {
    match get_of(v, key) {
        Some(x) => if is_null_of(x) {
            Some(None)
        } else {
            match arr_of(x) {
                Some(a) => if all_strings(a) {
                    Some(Some(strings_of(a)))
                } else {
                    None
                },
                None => None,
            }
        },
        None => Some(None),
    }
}

/// Read an optional string field: `Ok(None)` where it is absent or null,
/// `Err` where it holds a value of another type.
pub(crate) fn opt_str_field(v: &serde_json::Value, key: &str) -> (r: Result<Option<String>, ()>)
    ensures
        r matches Ok(o) ==> spec_opt_str(*v, key@) == Some(view_opt_str(o)),
        r is Err ==> spec_opt_str(*v, key@) is None,
{
    match value_get(v, key) {
        Some(x) => {
            if value_is_null(x) {
                Ok(None)
            } else {
                match value_str(x) {
                    Some(s) => Ok(Some(s)),
                    None => Err(()),
                }
            }
        },
        None => Ok(None),
    }
}

/// Read an optional unsigned-number field, as `opt_str_field`.
pub(crate) fn opt_u64_field(v: &serde_json::Value, key: &str) -> (r: Result<Option<u64>, ()>)
    ensures
        r matches Ok(o) ==> spec_opt_u64(*v, key@) == Some(o),
        r is Err ==> spec_opt_u64(*v, key@) is None,
{
    match value_get(v, key) {
        Some(x) => {
            if value_is_null(x) {
                Ok(None)
            } else {
                match value_u64(x) {
                    Some(n) => Ok(Some(n)),
                    None => Err(()),
                }
            }
        },
        None => Ok(None),
    }
}

/// Read an optional string-array field: `Ok(None)` where absent or null,
/// `Err` where it is no array or holds an element that is no string.
pub(crate) fn opt_str_arr_field(v: &serde_json::Value, key: &str) -> (r: Result<
    Option<Vec<String>>,
    (),
>)
    ensures
        r matches Ok(o) ==> spec_opt_str_arr(*v, key@) == Some(view_opt_str_arr(o)),
        r is Err ==> spec_opt_str_arr(*v, key@) is None,
{
    match value_get(v, key) {
        Some(x) => {
            if value_is_null(x) {
                return Ok(None);
            }
            match value_array(x) {
                Some(arr) => {
                    let mut out: Vec<String> = Vec::new();
                    let mut i: usize = 0;
                    while i < arr.len()
                        invariant
                            i <= arr@.len(),
                            get_of(*v, key@) == Some(*x),
                            !is_null_of(*x),
                            arr_of(*x) == Some(arr@),
                            forall|j: int| 0 <= j < i ==> str_of(#[trigger] arr@[j]) is Some,
                            out.deep_view() == strings_of(arr@.take(i as int)),
                        decreases arr@.len() - i,
                    {
                        let xi = &arr[i];
                        proof {
                            assert(*xi == arr@[i as int]);
                        }
                        match value_str(xi) {
                            Some(s) => {
                                let ghost d0 = out.deep_view();
                                let ghost sv = s@;
                                out.push(s);
                                proof {
                                    assert(out.deep_view() =~= d0.push(sv));
                                    assert(strings_of(arr@.take(i as int + 1)) =~= strings_of(
                                        arr@.take(i as int),
                                    ).push(sv));
                                }
                            },
                            None => {
                                proof {
                                    assert(str_of(arr@[i as int]) is None);
                                    assert(!all_strings(arr@));
                                }
                                return Err(());
                            },
                        }
                        i = i + 1;
                    }
                    proof {
                        assert(arr@.take(arr@.len() as int) =~= arr@);
                        assert(all_strings(arr@));
                    }
                    Ok(Some(out))
                },
                None => Err(()),
            }
        },
        None => Ok(None),
    }
}

/// Read a defaulted string field: the empty string where absent or null,
/// `Err` on a shape mismatch.
pub(crate) fn str_field_or(v: &serde_json::Value, key: &str) -> (r: Result<String, ()>)
    ensures
        r matches Ok(s) ==> spec_str_or(*v, key@) == Some(s@),
        r is Err ==> spec_str_or(*v, key@) is None,
{
    match opt_str_field(v, key) {
        Ok(Some(s)) => Ok(s),
        Ok(None) => Ok(String::new()),
        Err(_) => Err(()),
    }
}

/// Read a defaulted unsigned-number field: 0 where absent or null, `Err` on
/// a shape mismatch.
pub(crate) fn u64_field_or(v: &serde_json::Value, key: &str) -> (r: Result<u64, ()>)
    ensures
        r matches Ok(n) ==> spec_u64_or(*v, key@) == Some(n),
        r is Err ==> spec_u64_or(*v, key@) is None,
{
    match opt_u64_field(v, key) {
        Ok(Some(n)) => Ok(n),
        Ok(None) => Ok(0),
        Err(_) => Err(()),
    }
}

/// Read a defaulted boolean field: false where absent or null, `Err` on a
/// shape mismatch.
pub(crate) fn bool_field_or(v: &serde_json::Value, key: &str) -> (r: Result<bool, ()>)
    ensures
        r matches Ok(b) ==> spec_bool_or(*v, key@) == Some(b),
        r is Err ==> spec_bool_or(*v, key@) is None,
{
    match value_get(v, key) {
        Some(x) => {
            if value_is_null(x) {
                Ok(false)
            } else {
                match value_bool(x) {
                    Some(b) => Ok(b),
                    None => Err(()),
                }
            }
        },
        None => Ok(false),
    }
}

} // verus!
