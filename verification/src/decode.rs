//! Decoding of the worker's input: a parsed JSON document is read into a
//! `CompileRequest`, succeeding exactly when every required field is present
//! with the right type.

use crate::response::CompileRequest;
use vstd::prelude::*;

verus! {

#[verifier::external_type_specification]
#[verifier::external_body]
pub struct ExJsonValue(serde_json::Value);

/// The string-valued fields of a JSON document: the map holds a key exactly
/// when the document is an object whose value at that key is a JSON string.
pub uninterp spec fn json_str_fields(v: serde_json::Value) -> Map<Seq<char>, Seq<char>>;

/// The unsigned-integer fields of a JSON document: the map holds a key
/// exactly when the document is an object whose value at that key is a number
/// stored as a non-negative integer within u64.
pub uninterp spec fn json_u64_fields(v: serde_json::Value) -> Map<Seq<char>, u64>;

/// Whether a whole input text parses as one JSON document; the parse is a
/// function of the text alone.
pub uninterp spec fn json_parse_ok(s: Seq<char>) -> bool;

/// The string-valued fields of the document a text parses to.
pub uninterp spec fn parsed_str_fields(s: Seq<char>) -> Map<Seq<char>, Seq<char>>;

/// The unsigned-integer fields of the document a text parses to.
pub uninterp spec fn parsed_u64_fields(s: Seq<char>) -> Map<Seq<char>, u64>;

/// Relies on serde_json::Value::get and Value::as_str: the lookup returns the
/// field's text exactly when the document is an object that maps the key to a
/// JSON string.
#[verifier::external_body]
fn get_str_field(v: &serde_json::Value, key: &str) -> (r: Option<String>)
    ensures
        match r {
            Some(s) => json_str_fields(*v).contains_key(key@) && s@ == json_str_fields(*v)[key@],
            None => !json_str_fields(*v).contains_key(key@),
        },
{
    match v.get(key).and_then(serde_json::Value::as_str) {
        Some(s) => Some(s.to_string()),
        None => None,
    }
}

/// Relies on serde_json::Value::get and Value::as_u64: the lookup returns the
/// field's value exactly when the document is an object that maps the key to
/// a non-negative integer within u64.
#[verifier::external_body]
fn get_u64_field(v: &serde_json::Value, key: &str) -> (r: Option<u64>)
    ensures
        match r {
            Some(x) => json_u64_fields(*v).contains_key(key@) && x == json_u64_fields(*v)[key@],
            None => !json_u64_fields(*v).contains_key(key@),
        },
{
    v.get(key).and_then(serde_json::Value::as_u64)
}

/// Relies on serde_json::from_str::<Value>: parses text as one JSON document,
/// a function of the text alone; the rendering of a parse error is never
/// empty.
#[verifier::external_body]
fn parse_json_text(s: &str) -> (r: Result<serde_json::Value, String>)
    ensures
        r is Ok <==> json_parse_ok(s@),
        r matches Ok(v) ==> (json_str_fields(v) == parsed_str_fields(s@) && json_u64_fields(v)
            == parsed_u64_fields(s@)),
        r matches Err(e) ==> e@.len() > 0,
{
    match serde_json::from_str::<serde_json::Value>(s) {
        Ok(v) => Ok(v),
        Err(e) => Err(e.to_string()),
    }
}

/// Whether two field readings of a document hold every field a request
/// requires, each with the right type.
pub open spec fn fields_complete(sf: Map<Seq<char>, Seq<char>>, uf: Map<Seq<char>, u64>) -> bool {
    &&& sf.contains_key("projectRoot"@)
    &&& sf.contains_key("mainFile"@)
    &&& sf.contains_key("buildDir"@)
    &&& uf.contains_key("timeoutMs"@)
}

/// The report for the first required field that is missing or mistyped.
pub open spec fn spec_decode_error(sf: Map<Seq<char>, Seq<char>>, uf: Map<Seq<char>, u64>) -> Seq<
    char,
> {
    if !sf.contains_key("projectRoot"@) {
        "missing or invalid field: projectRoot"@
    } else if !sf.contains_key("mainFile"@) {
        "missing or invalid field: mainFile"@
    } else if !sf.contains_key("buildDir"@) {
        "missing or invalid field: buildDir"@
    } else {
        "missing or invalid field: timeoutMs"@
    }
}

/// Reads a request out of a parsed JSON document: succeeds exactly when all
/// four required fields are present with the right types, and otherwise
/// reports the first field that is missing or mistyped.
pub fn decode_request(v: &serde_json::Value) -> (r: Result<CompileRequest, String>)
    ensures
        match r {
            Ok(req) => fields_complete(json_str_fields(*v), json_u64_fields(*v))
                && req.project_root@ == json_str_fields(*v)["projectRoot"@] && req.main_file@
                == json_str_fields(*v)["mainFile"@] && req.build_dir@ == json_str_fields(
                *v,
            )["buildDir"@] && req.timeout_ms == json_u64_fields(*v)["timeoutMs"@],
            Err(e) => !fields_complete(json_str_fields(*v), json_u64_fields(*v)) && e@
                == spec_decode_error(json_str_fields(*v), json_u64_fields(*v)) && e@.len() > 0,
        },
{
    let project_root = match get_str_field(v, "projectRoot") {
        Some(s) => s,
        None => {
            proof {
                reveal_strlit("missing or invalid field: projectRoot");
            }
            return Err("missing or invalid field: projectRoot".to_owned());
        },
    };
    let main_file = match get_str_field(v, "mainFile") {
        Some(s) => s,
        None => {
            proof {
                reveal_strlit("missing or invalid field: mainFile");
            }
            return Err("missing or invalid field: mainFile".to_owned());
        },
    };
    let build_dir = match get_str_field(v, "buildDir") {
        Some(s) => s,
        None => {
            proof {
                reveal_strlit("missing or invalid field: buildDir");
            }
            return Err("missing or invalid field: buildDir".to_owned());
        },
    };
    let timeout_ms = match get_u64_field(v, "timeoutMs") {
        Some(x) => x,
        None => {
            proof {
                reveal_strlit("missing or invalid field: timeoutMs");
            }
            return Err("missing or invalid field: timeoutMs".to_owned());
        },
    };
    Ok(CompileRequest { project_root, main_file, build_dir, timeout_ms })
}

/// Decodes the worker's whole input text: parses it as one JSON document and
/// reads the request out of it. It succeeds exactly when the text parses and
/// every required field is present with the right type, handing back exactly
/// those fields; a failed decode always carries a non-empty description of
/// the failure.
pub fn decode_request_str(text: &str) -> (r: Result<CompileRequest, String>)
    ensures
        match r {
            Ok(req) => json_parse_ok(text@) && fields_complete(
                parsed_str_fields(text@),
                parsed_u64_fields(text@),
            ) && req.project_root@ == parsed_str_fields(text@)["projectRoot"@] && req.main_file@
                == parsed_str_fields(text@)["mainFile"@] && req.build_dir@ == parsed_str_fields(
                text@,
            )["buildDir"@] && req.timeout_ms == parsed_u64_fields(text@)["timeoutMs"@],
            Err(e) => e@.len() > 0 && (json_parse_ok(text@) ==> (!fields_complete(
                parsed_str_fields(text@),
                parsed_u64_fields(text@),
            ) && e@ == spec_decode_error(parsed_str_fields(text@), parsed_u64_fields(text@)))),
        },
{
    match parse_json_text(text) {
        Ok(v) => decode_request(&v),
        Err(e) => Err(e),
    }
}

} // verus!
