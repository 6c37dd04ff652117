use vstd::prelude::*;

verus! {

/// A JSON document as plain values. Numbers keep the text that `serde_json` renders them
/// with; objects keep their members in the order the parser hands them out.
#[derive(Debug)]
pub enum JsonValue {
    Null,
    Bool(bool),
    Number(String),
    Str(String),
    Array(Vec<JsonValue>),
    Object(Vec<JsonMember>),
}

/// One member of a JSON object.
#[derive(Debug)]
pub struct JsonMember {
    pub key: String,
    pub value: JsonValue,
}

/// The mathematical content of a JSON document.
pub enum JsonView {
    Null,
    Bool(bool),
    Number(Seq<char>),
    Str(Seq<char>),
    Array(Seq<JsonView>),
    Object(Seq<(Seq<char>, JsonView)>),
}

/// The content of a [`JsonValue`].
pub open spec fn json_view(v: JsonValue) -> JsonView
    decreases v,
{
    match v {
        JsonValue::Null => JsonView::Null,
        JsonValue::Bool(b) => JsonView::Bool(b),
        JsonValue::Number(n) => JsonView::Number(n@),
        JsonValue::Str(s) => JsonView::Str(s@),
        JsonValue::Array(items) => JsonView::Array(
            Seq::new(
                items@.len(),
                |i: int|
                    if 0 <= i < items@.len() {
                        proof {
                            assert(decreases_to!(items => items@));
                            assert(decreases_to!(items@ => items@[i]));
                        }
                        json_view(items@[i])
                    } else {
                        JsonView::Null
                    },
            ),
        ),
        JsonValue::Object(members) => JsonView::Object(
            Seq::new(
                members@.len(),
                |i: int|
                    if 0 <= i < members@.len() {
                        proof {
                            assert(decreases_to!(members => members@));
                            assert(decreases_to!(members@ => members@[i]));
                            assert(decreases_to!(members@[i] => members@[i].value));
                        }
                        (members@[i].key@, json_view(members@[i].value))
                    } else {
                        (Seq::empty(), JsonView::Null)
                    },
            ),
        ),
    }
}

impl View for JsonValue {
    type V = JsonView;

    open spec fn view(&self) -> JsonView {
        json_view(*self)
    }
}

#[verifier::external_type_specification]
#[verifier::external_body]
pub struct ExSerdeJsonValue(serde_json::Value);

/// What `serde_json::from_str::<serde_json::Value>` makes of `text`: the document, or the
/// text of the parser's error.
pub uninterp spec fn parsed_json(text: Seq<char>) -> Result<JsonView, Seq<char>>;

/// What `serde_json::to_string` writes for `value` (object members in the order of
/// `serde_json::Map`).
pub uninterp spec fn json_text(value: JsonView) -> Seq<char>;

/// A parse result with its error message taken as text.
pub open spec fn parse_view(r: Result<JsonValue, String>) -> Result<JsonView, Seq<char>> {
    match r {
        Ok(v) => Ok(v@),
        Err(e) => Err(e@),
    }
}

/// A JSON array of the given items.
pub fn array_of(items: Vec<JsonValue>) -> (res: JsonValue)
    ensures
        res@ == JsonView::Array(items@.map_values(|v: JsonValue| json_view(v))),
{
    let res = JsonValue::Array(items);
    proof {
        let xs = match res@ {
            JsonView::Array(xs) => xs,
            _ => Seq::empty(),
        };
        assert(xs =~= items@.map_values(|v: JsonValue| json_view(v)));
    }
    res
}

/// A JSON object of the given members, in order.
pub fn object_of(members: Vec<JsonMember>) -> (res: JsonValue)
    ensures
        res@ == JsonView::Object(members@.map_values(|m: JsonMember| (m.key@, json_view(m.value)))),
{
    let res = JsonValue::Object(members);
    proof {
        let ms = match res@ {
            JsonView::Object(ms) => ms,
            _ => Seq::empty(),
        };
        assert(ms =~= members@.map_values(|m: JsonMember| (m.key@, json_view(m.value))));
    }
    res
}

/// Moves a `serde_json::Value` into a [`JsonValue`], variant for variant.
#[verifier::external_body]
fn from_serde(value: serde_json::Value) -> JsonValue {
    match value {
        serde_json::Value::Null => JsonValue::Null,
        serde_json::Value::Bool(b) => JsonValue::Bool(b),
        serde_json::Value::Number(n) => JsonValue::Number(n.to_string()),
        serde_json::Value::String(s) => JsonValue::Str(s),
        serde_json::Value::Array(items) => JsonValue::Array(items.into_iter().map(from_serde).collect()),
        serde_json::Value::Object(map) => JsonValue::Object(
            map.into_iter().map(|(key, v)| JsonMember { key, value: from_serde(v) }).collect(),
        ),
    }
}

/// Moves a [`JsonValue`] into a `serde_json::Value`, variant for variant; number text
/// that `serde_json` does not read as a number becomes `null`.
#[verifier::external_body]
fn to_serde(value: &JsonValue) -> serde_json::Value {
    match value {
        JsonValue::Null => serde_json::Value::Null,
        JsonValue::Bool(b) => serde_json::Value::Bool(*b),
        JsonValue::Number(n) => n.parse::<serde_json::Number>().map(serde_json::Value::Number).unwrap_or(serde_json::Value::Null),
        JsonValue::Str(s) => serde_json::Value::String(s.clone()),
        JsonValue::Array(items) => serde_json::Value::Array(items.iter().map(to_serde).collect()),
        JsonValue::Object(members) => serde_json::Value::Object(
            members.iter().map(|m| (m.key.clone(), to_serde(&m.value))).collect(),
        ),
    }
}

/// Calls `serde_json::from_str::<serde_json::Value>`; the outcome is named by
/// `parsed_json`, the error by its `Display` text.
#[verifier::external_body]
pub(crate) fn parse_json(text: &str) -> (res: Result<JsonValue, String>)
    ensures
        parse_view(res) == parsed_json(text@),
{
    match serde_json::from_str::<serde_json::Value>(text) {
        Ok(v) => Ok(from_serde(v)),
        Err(e) => Err(e.to_string()),
    }
}

/// Calls `serde_json::to_string` on the value; the text is named by `json_text`.
#[verifier::external_body]
pub(crate) fn to_json_text(value: &JsonValue) -> (res: String)
    ensures
        res@ == json_text(value@),
{
    serde_json::to_string(&to_serde(value)).unwrap_or_default()
}

} // verus!
