//! Encoding of the worker's single output line: the response is laid out as
//! a JSON object with the ten fields of the external schema, and rendered as
//! one line of text.

use crate::response::CompileResponse;
use vstd::prelude::*;
use vstd::string::*;

verus! {

#[verifier::external_type_specification]
#[verifier::external_body]
#[verifier::reject_recursive_types(K)]
#[verifier::reject_recursive_types(V)]
pub struct ExJsonMap<K, V>(serde_json::Map<K, V>);

/// One scalar JSON field value, as the encoder models it. Every integer is
/// one numeric variant: the JSON number a field holds does not remember which
/// integer type built it.
pub enum JsonField {
    Null,
    Bool(bool),
    Num(int),
    Text(Seq<char>),
}

/// One scalar JSON field value, as the encoder builds it.
pub enum JsonAtom {
    Null,
    Bool(bool),
    UInt(u64),
    Int(i64),
    Text(String),
}

impl View for JsonAtom {
    type V = JsonField;

    open spec fn view(&self) -> JsonField {
        match self {
            JsonAtom::Null => JsonField::Null,
            JsonAtom::Bool(b) => JsonField::Bool(*b),
            JsonAtom::UInt(n) => JsonField::Num(*n as int),
            JsonAtom::Int(n) => JsonField::Num(*n as int),
            JsonAtom::Text(s) => JsonField::Text(s@),
        }
    }
}

/// The fields a JSON object under construction holds, each with its scalar
/// value.
pub uninterp spec fn obj_fields(m: serde_json::Map<String, serde_json::Value>) -> Map<Seq<char>, JsonField>;

/// Relies on serde_json::Map::new: a fresh object holds no fields.
#[verifier::external_body]
fn new_object() -> (m: serde_json::Map<String, serde_json::Value>)
    ensures
        obj_fields(m).dom() == Set::<Seq<char>>::empty(),
{
    serde_json::Map::new()
}

/// Relies on serde_json::Map::insert: setting a field maps the key to the
/// given scalar, replacing any earlier value. An integer is stored by its
/// value alone, as serde_json normalizes every non-negative integer to the
/// same representation whichever integer type built it.
#[verifier::external_body]
fn set_field(m: &mut serde_json::Map<String, serde_json::Value>, key: &str, val: &JsonAtom)
    ensures
        obj_fields(*final(m)) == obj_fields(*old(m)).insert(key@, val@),
{
    let value = match val {
        JsonAtom::Null => serde_json::Value::Null,
        JsonAtom::Bool(b) => serde_json::Value::from(*b),
        JsonAtom::UInt(n) => serde_json::Value::from(*n),
        JsonAtom::Int(n) => serde_json::Value::from(*n),
        JsonAtom::Text(s) => serde_json::Value::from(s.as_str()),
    };
    m.insert(key.to_string(), value);
}

/// The single line of JSON text rendered for an object with the given fields:
/// with keys kept sorted, the rendering is a function of the fields alone.
pub uninterp spec fn rendered_object(fields: Map<Seq<char>, JsonField>) -> Seq<char>;

/// Relies on serde_json::to_string on a Value::Object: renders the object as
/// one line of JSON text, a function of its fields alone. Rendering an object
/// whose keys are strings never fails: the serializer writes to an in-memory
/// buffer and has no failure path for such a value.
#[verifier::external_body]
fn object_to_text(m: &serde_json::Map<String, serde_json::Value>) -> (r: Result<String, String>)
    ensures
        r is Ok,
        r matches Ok(s) ==> s@ == rendered_object(obj_fields(*m)),
{
    match serde_json::to_string(&serde_json::Value::Object(m.clone())) {
        Ok(s) => Ok(s),
        Err(e) => Err(e.to_string()),
    }
}

/// The JSON object the worker reports for a response: the ten fields of the
/// external schema, an absent optional value encoded as null.
pub open spec fn spec_response_fields(r: CompileResponse) -> Map<Seq<char>, JsonField> {
    map![
        "success"@ => JsonField::Bool(r.success),
        "timedOut"@ => JsonField::Bool(r.timed_out),
        "exitCode"@ => (match r.exit_code {
            Some(c) => JsonField::Num(c as int),
            None => JsonField::Null,
        }),
        "stdout"@ => JsonField::Text(r.stdout@),
        "stderr"@ => JsonField::Text(r.stderr@),
        "pdfPath"@ => (match r.pdf_path {
            Some(p) => JsonField::Text(p@),
            None => JsonField::Null,
        }),
        "logPath"@ => (match r.log_path {
            Some(p) => JsonField::Text(p@),
            None => JsonField::Null,
        }),
        "pdfBytes"@ => (match r.pdf_bytes {
            Some(n) => JsonField::Num(n as int),
            None => JsonField::Null,
        }),
        "logBytes"@ => (match r.log_bytes {
            Some(n) => JsonField::Num(n as int),
            None => JsonField::Null,
        }),
        "error"@ => (match r.error {
            Some(e) => JsonField::Text(e@),
            None => JsonField::Null,
        }),
    ]
}

/// Encodes a response as the worker's single output line: the rendering of
/// its ten-field object. The renderer never fails on such an object, so the
/// defensive empty-object arm below is unreachable.
pub fn encode_response(r: &CompileResponse) -> (out: String)
    ensures
        out@ == rendered_object(spec_response_fields(*r)),
{
    let mut obj = new_object();
    set_field(&mut obj, "success", &JsonAtom::Bool(r.success));
    set_field(&mut obj, "timedOut", &JsonAtom::Bool(r.timed_out));
    let exit_atom = match &r.exit_code {
        Some(c) => JsonAtom::Int(*c as i64),
        None => JsonAtom::Null,
    };
    set_field(&mut obj, "exitCode", &exit_atom);
    set_field(&mut obj, "stdout", &JsonAtom::Text(r.stdout.clone()));
    set_field(&mut obj, "stderr", &JsonAtom::Text(r.stderr.clone()));
    let pdf_path_atom = match &r.pdf_path {
        Some(p) => JsonAtom::Text(p.clone()),
        None => JsonAtom::Null,
    };
    set_field(&mut obj, "pdfPath", &pdf_path_atom);
    let log_path_atom = match &r.log_path {
        Some(p) => JsonAtom::Text(p.clone()),
        None => JsonAtom::Null,
    };
    set_field(&mut obj, "logPath", &log_path_atom);
    let pdf_bytes_atom = match &r.pdf_bytes {
        Some(n) => JsonAtom::UInt(*n),
        None => JsonAtom::Null,
    };
    set_field(&mut obj, "pdfBytes", &pdf_bytes_atom);
    let log_bytes_atom = match &r.log_bytes {
        Some(n) => JsonAtom::UInt(*n),
        None => JsonAtom::Null,
    };
    set_field(&mut obj, "logBytes", &log_bytes_atom);
    let error_atom = match &r.error {
        Some(e) => JsonAtom::Text(e.clone()),
        None => JsonAtom::Null,
    };
    set_field(&mut obj, "error", &error_atom);
    proof {
        assert(obj_fields(obj) =~= spec_response_fields(*r));
    }
    match object_to_text(&obj) {
        Ok(s) => s,
        Err(_) => String::from_str("{}"),
    }
}

} // verus!
