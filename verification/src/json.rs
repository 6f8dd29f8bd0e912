//! JSON documents, parsed by `serde_json`, and the reading of imgur's API
//! answer from one.

use serde_json::Value;
use vstd::prelude::*;
use crate::media::{Field, Image, Images, ScrapeData};
use crate::text::same_text;

verus! {

#[verifier::external_type_specification]
#[verifier::external_body]
pub struct ExValue(Value);

/// A text that is not JSON, with `serde_json`'s message about it.
#[derive(Debug, Clone, PartialEq, Eq)]
pub struct InvalidJson {
    pub message: String,
}

/// A JSON value.
#[derive(Debug, PartialEq, Eq)]
pub enum Json {
    Null,
    Bool(bool),
    /// A number, as `serde_json` prints it.
    Number(String),
    Str(String),
    Array(Vec<Json>),
    /// The members of an object, each key once.
    Object(Vec<(String, Json)>),
}

/// A JSON value as mathematics sees it.
pub enum JsonSpec {
    Null,
    Bool(bool),
    Number(Seq<char>),
    Str(Seq<char>),
    Array(Seq<JsonSpec>),
    Object(Seq<(Seq<char>, JsonSpec)>),
}

/// The value that a `Json` holds.
pub open spec fn json_view(j: Json) -> JsonSpec
    decreases j,
{
    match j {
        Json::Null => JsonSpec::Null,
        Json::Bool(b) => JsonSpec::Bool(b),
        Json::Number(n) => JsonSpec::Number(n@),
        Json::Str(s) => JsonSpec::Str(s@),
        Json::Array(v) => JsonSpec::Array(
            Seq::new(v@.len(), |i: int| if 0 <= i < v@.len() { json_view(v@[i]) } else { JsonSpec::Null }),
        ),
        Json::Object(v) => JsonSpec::Object(
            Seq::new(
                v@.len(),
                |i: int|
                    if 0 <= i < v@.len() {
                        (v@[i].0@, json_view(v@[i].1))
                    } else {
                        (Seq::empty(), JsonSpec::Null)
                    },
            ),
        ),
    }
}

/// A parse result as mathematics sees it.
pub open spec fn parsed_json_view(r: Result<Json, String>) -> Result<JsonSpec, Seq<char>> {
    match r {
        Ok(j) => Ok(json_view(j)),
        Err(m) => Err(m@),
    }
}

/// What `serde_json::from_str` makes of a text: the value, or where the
/// text is not JSON, the message of the error (its `Display`).
pub uninterp spec fn json_parse(text: Seq<char>) -> Result<JsonSpec, Seq<char>>;

/// Converts a `serde_json` value member by member; called by [`parse_json`]
/// only.
#[verifier::external_body]
fn json_of(v: &Value) -> Json {
    match v {
        Value::Null => Json::Null,
        Value::Bool(b) => Json::Bool(*b),
        Value::Number(n) => Json::Number(n.to_string()),
        Value::String(s) => Json::Str(s.clone()),
        Value::Array(a) => Json::Array(a.iter().map(json_of).collect()),
        Value::Object(m) => Json::Object(m.iter().map(|(k, x)| (k.clone(), json_of(x))).collect()),
    }
}

/// Calls `serde_json::from_str` for a `serde_json::Value` and converts the
/// result (an error to its message); it is the name `json_parse` of the
/// text.
#[verifier::external_body]
pub(crate) fn parse_json(text: &str) -> (r: Result<Json, String>)
    ensures
        parsed_json_view(r) == json_parse(text@),
{
    match serde_json::from_str::<Value>(text) {
        Ok(v) => Ok(json_of(&v)),
        Err(e) => Err(e.to_string()),
    }
}

/// The member `key` of an object's members, `Null` where there is none.
pub open spec fn lookup(members: Seq<(Seq<char>, JsonSpec)>, key: Seq<char>) -> JsonSpec
    decreases members.len(),
{
    if members.len() == 0 {
        JsonSpec::Null
    } else if members[0].0 == key {
        members[0].1
    } else {
        lookup(members.drop_first(), key)
    }
}

/// `value[key]`: the member of an object, `Null` for any other value or a
/// missing key.
pub open spec fn index(value: JsonSpec, key: Seq<char>) -> JsonSpec {
    match value {
        JsonSpec::Object(m) => lookup(m, key),
        _ => JsonSpec::Null,
    }
}

/// The boolean of a boolean value; `None` for any other value.
pub open spec fn bool_of(value: JsonSpec) -> Option<bool> {
    match value {
        JsonSpec::Bool(b) => Some(b),
        _ => None,
    }
}

/// Whether a field holds what a value holds: absent for null, the text of
/// a string, another kind for anything else.
pub open spec fn field_matches(f: Field, value: JsonSpec) -> bool {
    match value {
        JsonSpec::Null => f is Absent,
        JsonSpec::Str(s) => f matches Field::Text(t) && t@ == s,
        _ => f is Other,
    }
}

/// Whether an image holds the image fields of a value.
pub open spec fn image_matches(img: Image, value: JsonSpec) -> bool {
    &&& field_matches(img.link, index(value, "link"@))
    &&& field_matches(img.id, index(value, "id"@))
    &&& field_matches(img.ext, index(value, "ext"@))
    &&& field_matches(img.title, index(value, "title"@))
}

/// Whether scraped data holds what a value holds.
pub open spec fn data_matches(d: ScrapeData, value: JsonSpec) -> bool {
    &&& image_matches(d.fields, value)
    &&& match index(value, "images"@) {
        JsonSpec::Null => d.images is Absent,
        JsonSpec::Array(a) => d.images is List && d.images->List_0@.len() == a.len() && forall|i: int|
            0 <= i < a.len() ==> image_matches(#[trigger] d.images->List_0@[i], a[i]),
        _ => d.images is Other,
    }
}

/// Reading data keeps every image of a list: the data read from a value
/// whose `images` member is a list of `n` values holds exactly `n` images,
/// the `i`-th read from the `i`-th value.
pub proof fn lemma_every_image_kept(d: ScrapeData, value: JsonSpec)
    requires
        data_matches(d, value),
        index(value, "images"@) is Array,
    ensures
        d.images is List,
        d.images->List_0@.len() == index(value, "images"@)->Array_0.len(),
        forall|i: int|
            0 <= i < d.images->List_0@.len() ==> image_matches(
                #[trigger] d.images->List_0@[i],
                index(value, "images"@)->Array_0[i],
            ),
{
}

/// The member `key` of an object.
pub fn member<'a>(value: &'a Json, key: &str) -> (r: Option<&'a Json>)
    ensures
        match r {
            Some(x) => json_view(*x) == index(json_view(*value), key@),
            None => index(json_view(*value), key@) == JsonSpec::Null,
        },
{
    match value {
        Json::Object(m) => {
            let n = m.len();
            let mut i: usize = 0;
            let ghost all = json_view(*value)->Object_0;
            assert(all.subrange(0, n as int) == all);
            while i < n
                invariant
                    n == m@.len(),
                    i <= n,
                    all == json_view(*value)->Object_0,
                    *value == Json::Object(*m),
                    all.len() == n,
                    lookup(all, key@) == lookup(all.subrange(i as int, n as int), key@),
                decreases n - i,
            {
                let ghost rest = all.subrange(i as int, n as int);
                assert(rest[0] == all[i as int]);
                assert(all[i as int] == (m@[i as int].0@, json_view(m@[i as int].1)));
                if same_text(m[i].0.as_str(), key) {
                    return Some(&m[i].1);
                }
                assert(rest.drop_first() == all.subrange(i + 1, n as int));
                i = i + 1;
            }
            None
        },
        _ => None,
    }
}

/// The member `key` as a field.
pub fn field_member(value: &Json, key: &str) -> (r: Field)
    ensures
        field_matches(r, index(json_view(*value), key@)),
{
    match member(value, key) {
        Some(Json::Str(s)) => Field::Text(s.clone()),
        Some(Json::Null) => Field::Absent,
        None => Field::Absent,
        Some(_) => Field::Other,
    }
}

/// The image fields of a value.
pub fn image_of(value: &Json) -> (r: Image)
    ensures
        image_matches(r, json_view(*value)),
{
    Image {
        link: field_member(value, "link"),
        id: field_member(value, "id"),
        ext: field_member(value, "ext"),
        title: field_member(value, "title"),
    }
}

/// The scraped data that a value holds.
pub fn data_of(value: &Json) -> (r: ScrapeData)
    ensures
        data_matches(r, json_view(*value)),
        image_matches(r.fields, json_view(*value)),
        index(json_view(*value), "images"@) is Array ==> r.images is List && r.images->List_0@.len()
            == index(json_view(*value), "images"@)->Array_0.len() && forall|i: int|
            0 <= i < r.images->List_0@.len() ==> image_matches(
                #[trigger] r.images->List_0@[i],
                index(json_view(*value), "images"@)->Array_0[i],
            ),
        index(json_view(*value), "images"@) is Null ==> r.images is Absent,
{
    let fields = image_of(value);
    let images = match member(value, "images") {
        Some(Json::Array(a)) => {
            let ghost av = json_view(Json::Array(*a))->Array_0;
            let n = a.len();
            let mut v: Vec<Image> = Vec::new();
            let mut i: usize = 0;
            while i < n
                invariant
                    n == a@.len(),
                    i <= n,
                    av == json_view(Json::Array(*a))->Array_0,
                    v@.len() == i,
                    forall|j: int| 0 <= j < i ==> image_matches(#[trigger] v@[j], av[j]),
                decreases n - i,
            {
                assert(av[i as int] == json_view(a@[i as int]));
                v.push(image_of(&a[i]));
                i = i + 1;
            }
            Images::List(v)
        },
        Some(Json::Null) => Images::Absent,
        None => Images::Absent,
        Some(_) => Images::Other,
    };
    ScrapeData { fields, images }
}

} // verus!
