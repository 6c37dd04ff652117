use vstd::prelude::*;
use crate::json::{parse_json, parsed_json, JsonMember, JsonValue, JsonView};
use crate::text::{ascii_lowercase, chars_eq, lowercase_chars, owned, push_char, push_str, str_eq, chars_of};

verus! {

/// The text a scalar JSON value stands for: a string itself, a number its text, a boolean
/// `true` or `false`; other values stand for none.
pub open spec fn scalar_text(v: JsonView) -> Option<Seq<char>> {
    match v {
        JsonView::Str(s) => Some(s),
        JsonView::Number(n) => Some(n),
        JsonView::Bool(b) => Some(if b { "true"@ } else { "false"@ }),
        _ => None,
    }
}

/// The value of the first member named `key`.
pub open spec fn member_value(members: Seq<(Seq<char>, JsonView)>, key: Seq<char>) -> Option<JsonView>
    decreases members.len(),
{
    if members.len() == 0 {
        None
    } else if members[0].0 == key {
        Some(members[0].1)
    } else {
        member_value(members.drop_first(), key)
    }
}

/// `Value::get(key)`: the member of an object, none for any other value.
pub open spec fn json_get(v: JsonView, key: Seq<char>) -> Option<JsonView> {
    match v {
        JsonView::Object(members) => member_value(members, key),
        _ => None,
    }
}

/// The text of the first listed member of `v` that holds a scalar.
pub open spec fn field_in(v: JsonView, names: Seq<&str>) -> Option<Seq<char>>
    decreases names.len(),
{
    if names.len() == 0 {
        None
    } else {
        match json_get(v, names[0]@) {
            Some(x) => match scalar_text(x) {
                Some(t) => Some(t),
                None => field_in(v, names.drop_first()),
            },
            None => field_in(v, names.drop_first()),
        }
    }
}

/// A listed member of a nested value; a nested string is read as a JSON document.
pub open spec fn nested_value_field(nested: JsonView, names: Seq<&str>) -> Option<Seq<char>> {
    match field_in(nested, names) {
        Some(t) => Some(t),
        None => match nested {
            JsonView::Str(s) => match parsed_json(s) {
                Ok(p) => field_in(p, names),
                Err(_) => None,
            },
            _ => None,
        },
    }
}

/// The first container member of `v`, in the listed order, that yields a listed field.
pub open spec fn nested_field(v: JsonView, containers: Seq<&str>, names: Seq<&str>) -> Option<Seq<char>>
    decreases containers.len(),
{
    if containers.len() == 0 {
        None
    } else {
        let here = match json_get(v, containers[0]@) {
            Some(n) => nested_value_field(n, names),
            None => None,
        };
        match here {
            Some(t) => Some(t),
            None => nested_field(v, containers.drop_first(), names),
        }
    }
}

/// A listed field at the top level of `v`, else inside one of the containers.
pub open spec fn string_field_spec(v: JsonView, containers: Seq<&str>, names: Seq<&str>) -> Option<Seq<char>> {
    match field_in(v, names) {
        Some(t) => Some(t),
        None => nested_field(v, containers, names),
    }
}

/// A listed field inside the one member `object_name` of `v`.
pub open spec fn object_field(v: JsonView, object_name: Seq<char>, names: Seq<&str>) -> Option<Seq<char>> {
    match json_get(v, object_name) {
        Some(n) => nested_value_field(n, names),
        None => None,
    }
}

/// The view of an optional string.
pub open spec fn text_view(s: Option<String>) -> Option<Seq<char>> {
    match s {
        Some(v) => Some(v@),
        None => None,
    }
}

/// The members of an object, as (key, content) pairs.
pub open spec fn member_views(members: Seq<JsonMember>) -> Seq<(Seq<char>, JsonView)> {
    Seq::new(members.len(), |i: int| (members[i].key@, members[i].value@))
}

fn member_lookup<'a>(members: &'a Vec<JsonMember>, key: &str) -> (res: Option<&'a JsonValue>)
    ensures
        match res {
            Some(r) => member_value(member_views(members@), key@) == Some(r@),
            None => member_value(member_views(members@), key@) is None,
        },
{
    let mut i: usize = 0;
    assert(member_views(members@).skip(0) =~= member_views(members@));
    while i < members.len()
        invariant
            0 <= i <= members.len(),
            member_value(member_views(members@), key@) == member_value(member_views(members@).skip(i as int), key@),
        decreases members.len() - i,
    {
        assert(member_views(members@).skip(i as int).drop_first() =~= member_views(members@).skip(i + 1));
        if str_eq(members[i].key.as_str(), key) {
            return Some(&members[i].value);
        }
        i = i + 1;
    }
    None
}

/// `Value::get(key)`.
pub fn json_lookup<'a>(v: &'a JsonValue, key: &str) -> (res: Option<&'a JsonValue>)
    ensures
        match res {
            Some(r) => json_get(v@, key@) == Some(r@),
            None => json_get(v@, key@) is None,
        },
{
    match v {
        JsonValue::Object(members) => {
            proof {
                let ms = match v@ {
                    JsonView::Object(ms) => ms,
                    _ => Seq::empty(),
                };
                assert(ms =~= member_views(members@));
            }
            member_lookup(members, key)
        },
        _ => None,
    }
}

/// The text of a scalar value.
pub fn scalar_string(v: &JsonValue) -> (res: Option<String>)
    ensures
        text_view(res) == scalar_text(v@),
{
    match v {
        JsonValue::Str(s) => Some(owned(s.as_str())),
        JsonValue::Number(n) => Some(owned(n.as_str())),
        JsonValue::Bool(b) => Some(if *b { owned("true") } else { owned("false") }),
        _ => None,
    }
}

/// The first listed member of `payload` that holds a scalar, as text.
pub fn string_field_in(payload: &JsonValue, names: &[&str]) -> (res: Option<String>)
    ensures
        text_view(res) == field_in(payload@, names@),
{
    let mut i: usize = 0;
    assert(names@.skip(0) =~= names@);
    while i < names.len()
        invariant
            0 <= i <= names.len(),
            field_in(payload@, names@) == field_in(payload@, names@.skip(i as int)),
        decreases names.len() - i,
    {
        assert(names@.skip(i as int).drop_first() =~= names@.skip(i + 1));
        assert(names@.skip(i as int)[0] == names@[i as int]);
        match json_lookup(payload, names[i]) {
            Some(value) => {
                match scalar_string(value) {
                    Some(text) => return Some(text),
                    None => {},
                }
            },
            None => {},
        }
        i = i + 1;
    }
    None
}

/// A listed field of a nested value, reading a nested string as a JSON document.
pub fn nested_value_string_field(nested: &JsonValue, names: &[&str]) -> (res: Option<String>)
    ensures
        text_view(res) == nested_value_field(nested@, names@),
{
    match string_field_in(nested, names) {
        Some(text) => Some(text),
        None => match nested {
            JsonValue::Str(s) => match parse_json(s.as_str()) {
                Ok(parsed) => string_field_in(&parsed, names),
                Err(_) => None,
            },
            _ => None,
        },
    }
}

/// A listed field found in the first container member that yields one.
pub fn nested_string_field(payload: &JsonValue, containers: &[&str], names: &[&str]) -> (res: Option<String>)
    ensures
        text_view(res) == nested_field(payload@, containers@, names@),
{
    let mut i: usize = 0;
    assert(containers@.skip(0) =~= containers@);
    while i < containers.len()
        invariant
            0 <= i <= containers.len(),
            nested_field(payload@, containers@, names@) == nested_field(
                payload@,
                containers@.skip(i as int),
                names@,
            ),
        decreases containers.len() - i,
    {
        assert(containers@.skip(i as int).drop_first() =~= containers@.skip(i + 1));
        assert(containers@.skip(i as int)[0] == containers@[i as int]);
        match json_lookup(payload, containers[i]) {
            Some(nested) => {
                match nested_value_string_field(nested, names) {
                    Some(text) => return Some(text),
                    None => {},
                }
            },
            None => {},
        }
        i = i + 1;
    }
    None
}

/// A listed field at the top level, else inside one of the containers.
pub fn string_field(payload: &JsonValue, containers: &[&str], names: &[&str]) -> (res: Option<String>)
    ensures
        text_view(res) == string_field_spec(payload@, containers@, names@),
{
    match string_field_in(payload, names) {
        Some(text) => Some(text),
        None => nested_string_field(payload, containers, names),
    }
}

/// A listed field inside the member `object_name`.
pub fn nested_object_string_field(payload: &JsonValue, object_name: &str, names: &[&str]) -> (res: Option<String>)
    ensures
        text_view(res) == object_field(payload@, object_name@, names@),
{
    match json_lookup(payload, object_name) {
        Some(nested) => nested_value_string_field(nested, names),
        None => None,
    }
}

/// `key` equals one of `names`, ignoring ASCII case.
pub open spec fn matches_any_name(key: Seq<char>, names: Seq<&str>) -> bool {
    exists|i: int| 0 <= i < names.len() && ascii_lowercase(key) == ascii_lowercase(#[trigger] names[i]@)
}

/// The value of the first header whose name is one of `names`, ignoring ASCII case.
pub open spec fn header_lookup(headers: Seq<(String, String)>, names: Seq<&str>) -> Option<Seq<char>>
    decreases headers.len(),
{
    if headers.len() == 0 {
        None
    } else if matches_any_name(headers[0].0@, names) {
        Some(headers[0].1@)
    } else {
        header_lookup(headers.drop_first(), names)
    }
}

/// `str::eq_ignore_ascii_case`.
pub fn eq_ignore_ascii_case(a: &str, b: &str) -> (res: bool)
    ensures
        res == (ascii_lowercase(a@) == ascii_lowercase(b@)),
{
    let la = lowercase_chars(a);
    let lb = lowercase_chars(b);
    chars_eq(&la, &lb)
}

fn name_matches(key: &str, names: &[&str]) -> (res: bool)
    ensures
        res == matches_any_name(key@, names@),
{
    let mut i: usize = 0;
    while i < names.len()
        invariant
            0 <= i <= names.len(),
            forall|j: int| 0 <= j < i ==> ascii_lowercase(key@) != ascii_lowercase(#[trigger] names@[j]@),
        decreases names.len() - i,
    {
        if eq_ignore_ascii_case(key, names[i]) {
            return true;
        }
        i = i + 1;
    }
    false
}

/// The value of the first header whose name is one of `names`, ignoring ASCII case.
pub fn header_value(headers: &[(String, String)], names: &[&str]) -> (res: Option<String>)
    ensures
        text_view(res) == header_lookup(headers@, names@),
{
    let mut i: usize = 0;
    assert(headers@.skip(0) =~= headers@);
    while i < headers.len()
        invariant
            0 <= i <= headers.len(),
            header_lookup(headers@, names@) == header_lookup(headers@.skip(i as int), names@),
        decreases headers.len() - i,
    {
        assert(headers@.skip(i as int).drop_first() =~= headers@.skip(i + 1));
        assert(headers@.skip(i as int)[0] == headers@[i as int]);
        if name_matches(headers[i].0.as_str(), names) {
            return Some(owned(headers[i].1.as_str()));
        }
        i = i + 1;
    }
    None
}

/// A provider session id: kept when it already holds `:`, else prefixed with `provider:`.
pub open spec fn provider_session_id_text(provider: Seq<char>, session_id: Seq<char>) -> Seq<char> {
    if session_id.contains(':') {
        session_id
    } else {
        provider + seq![':'] + session_id
    }
}

/// Qualifies a session id with its provider unless it is qualified already.
pub fn format_provider_session_id(provider: &str, session_id: &str) -> (res: String)
    ensures
        res@ == provider_session_id_text(provider@, session_id@),
{
    let chars = chars_of(session_id);
    let mut i: usize = 0;
    while i < chars.len()
        invariant
            chars@ == session_id@,
            0 <= i <= chars.len(),
            forall|j: int| 0 <= j < i ==> chars@[j] != ':',
        decreases chars.len() - i,
    {
        if chars[i] == ':' {
            return owned(session_id);
        }
        i = i + 1;
    }
    let mut out = owned(provider);
    push_char(&mut out, ':');
    push_str(&mut out, session_id);
    assert(out@ =~= provider@ + seq![':'] + session_id@);
    out
}

} // verus!
