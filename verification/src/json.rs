//! The one boundary to serde_json. A request body is parsed once; what the
//! rest of the library needs from the parsed document is handed out as plain
//! values: whether the text is JSON at all and, when its top level is an
//! object, the object's entries, each summarized as its key, whether its
//! value is JSON null, and the value's text when it is a JSON string.

use vstd::prelude::*;

verus! {

/// The parse outcome of a body text, as a function of the text alone:
/// `None` when the text is not a JSON document; `Some(None)` when it is a
/// JSON document whose top level is not an object; `Some(Some(fields))` when
/// the top level is an object, with one triple per entry, in key order:
/// the key, whether the value is JSON null, and the value's text when the
/// value is a JSON string (`None` for every other value).
pub uninterp spec fn json_shape(s: Seq<char>) -> Option<
    Option<Seq<(Seq<char>, bool, Option<Seq<char>>)>>,
>;

/// Whether the text is a JSON document.
pub open spec fn json_ok(s: Seq<char>) -> bool {
    json_shape(s) is Some
}

/// The summarized entries of the document's top-level object, or `None`
/// when the text is not a JSON document or its top level is not an object.
pub open spec fn json_object_fields(s: Seq<char>) -> Option<
    Seq<(Seq<char>, bool, Option<Seq<char>>)>,
> {
    match json_shape(s) {
        Some(fields) => fields,
        None => None,
    }
}

/// The view of one summarized entry.
pub open spec fn field_view(f: (String, bool, Option<String>)) -> (Seq<char>, bool, Option<
    Seq<char>,
>) {
    (
        f.0@,
        f.1,
        match f.2 {
            Some(t) => Some(t@),
            None => None,
        },
    )
}

/// The view of a sequence of summarized entries.
pub open spec fn fields_view(fs: Seq<(String, bool, Option<String>)>) -> Seq<
    (Seq<char>, bool, Option<Seq<char>>),
> {
    fs.map_values(|f: (String, bool, Option<String>)| field_view(f))
}

/// The view of the wrapper's successful result.
pub open spec fn shape_view(o: Option<Vec<(String, bool, Option<String>)>>) -> Option<
    Seq<(Seq<char>, bool, Option<Seq<char>>)>,
> {
    match o {
        Some(fields) => Some(fields_view(fields@)),
        None => None,
    }
}

/// Relies on `serde_json::from_str::<serde_json::Value>`: whether the text
/// parses as a JSON document is a function of the text alone, and so are the
/// entries of a top-level object (`serde_json`'s object map holds them in
/// key order, duplicates collapsed). On a parse failure the result carries
/// the parser's message.
#[verifier::external_body]
pub(crate) fn parse_json_shape(s: &str) -> (r: Result<
    Option<Vec<(String, bool, Option<String>)>>,
    String,
>)
    ensures
        r is Ok <==> json_ok(s@),
        (r matches Ok(o) ==> json_shape(s@) == Some(shape_view(o))),
{
    match serde_json::from_str::<serde_json::Value>(s) {
        Err(e) => Err(format!("{}", e)),
        Ok(serde_json::Value::Object(entries)) => Ok(Some(
            entries.into_iter().map(|(k, v)| match v {
                serde_json::Value::Null => (k, true, None),
                serde_json::Value::String(t) => (k, false, Some(t)),
                _ => (k, false, None),
            }).collect(),
        )),
        Ok(_) => Ok(None),
    }
}

} // verus!
