//! imgur: images and albums, looked up through imgur's API.

use vstd::prelude::*;
use crate::json::{bool_of, data_matches, image_matches, data_of, index, json_parse, member, parse_json, InvalidJson, Json};
use crate::media::{field_text, text_field, Field, ScrapeData};
use crate::pattern::{
    capture_groups, contains_text, group, group_at, matches_pattern, pattern_compiles,
    plain_literal, regex_captures, regex_compiles, regex_is_match,
};
use crate::text::{decimal, owned, push_decimal, push_text};

verus! {

/// The version of imgur's API that is asked.
pub const API_VERSION: u64 = 3;

/// The client id sent with every API request.
pub const CLIENT_ID: &'static str = "b5f97137be15df2";

/// Marks the URL of an album or a gallery.
pub const COLLECTION_PATTERN: &'static str = "/a/|/gallery/";

/// Finds the id at the end of an imgur URL, before an optional extension.
pub const ID_PATTERN: &'static str = "([a-zA-Z0-9_]{5,7})(\\.\\w+)?$";

/// What the scraper sends to imgur's API for one URL.
#[derive(Debug, Clone, PartialEq, Eq)]
pub struct ImgurRequest {
    pub collection: bool,
    pub id: String,
    pub api_url: String,
    pub authorization: String,
}

/// The API's answer: its `success` flag (where it is a boolean) and its
/// `data`.
#[derive(Debug, Clone, PartialEq, Eq)]
pub struct ApiResponse {
    pub success: Option<bool>,
    pub data: ScrapeData,
}

/// The API endpoint for an album or an image id.
pub open spec fn api_url_spec(id: Seq<char>, collection: bool) -> Seq<char> {
    "https://api.imgur.com/"@ + decimal(API_VERSION as nat) + "/"@ + (if collection {
        "album"@
    } else {
        "image"@
    }) + "/"@ + id
}

/// The value of the `Authorization` header of every API request.
pub open spec fn authorization_spec() -> Seq<char> {
    "Client-ID "@ + CLIENT_ID@
}

proof fn lemma_collection_pattern()
    ensures
        COLLECTION_PATTERN@ == "/a/"@ + seq!['|'] + "/gallery/"@,
        plain_literal("/a/"@),
        plain_literal("/gallery/"@),
        COLLECTION_PATTERN@.len() <= 1000,
{
    reveal_strlit("/a/|/gallery/");
    reveal_strlit("/a/");
    reveal_strlit("/gallery/");
    assert(COLLECTION_PATTERN@ =~= "/a/"@ + seq!['|'] + "/gallery/"@);
}

/// Whether the URL is that of an album or a gallery: it contains `/a/` or
/// `/gallery/`.
pub fn is_collection(url: &str) -> (r: bool)
    ensures
        regex_compiles(COLLECTION_PATTERN@),
        r == regex_is_match(COLLECTION_PATTERN@, url@),
        r == (contains_text(url@, "/a/"@) || contains_text(url@, "/gallery/"@)),
{
    proof {
        lemma_collection_pattern();
    }
    let compiles = pattern_compiles(COLLECTION_PATTERN);
    assert(compiles);
    matches_pattern(COLLECTION_PATTERN, url)
}

/// The API endpoint for an album or an image id.
pub fn api_url(id: &str, collection: bool) -> (r: String)
    ensures
        r@ == api_url_spec(id@, collection),
        collection ==> r@ == "https://api.imgur.com/3/album/"@ + id@,
        !collection ==> r@ == "https://api.imgur.com/3/image/"@ + id@,
{
    let mut r = owned("https://api.imgur.com/");
    push_decimal(&mut r, API_VERSION);
    push_text(&mut r, "/");
    push_text(&mut r, if collection { "album" } else { "image" });
    push_text(&mut r, "/");
    push_text(&mut r, id);
    proof {
        reveal_strlit("https://api.imgur.com/");
        reveal_strlit("https://api.imgur.com/3/album/");
        reveal_strlit("https://api.imgur.com/3/image/");
        reveal_strlit("/");
        reveal_strlit("album");
        reveal_strlit("image");
        assert(decimal(3) == seq!['3']);
        assert("https://api.imgur.com/"@ + decimal(3) + "/"@ + "album"@ + "/"@
            =~= "https://api.imgur.com/3/album/"@);
        assert("https://api.imgur.com/"@ + decimal(3) + "/"@ + "image"@ + "/"@
            =~= "https://api.imgur.com/3/image/"@);
        assert(r@ =~= ("https://api.imgur.com/"@ + decimal(3) + "/"@ + (if collection {
            "album"@
        } else {
            "image"@
        }) + "/"@) + id@);
    }
    r
}

/// The value of the `Authorization` header.
pub fn authorization() -> (r: String)
    ensures
        r@ == authorization_spec(),
        r@ == "Client-ID b5f97137be15df2"@,
{
    let mut r = owned("Client-ID ");
    push_text(&mut r, CLIENT_ID);
    proof {
        reveal_strlit("Client-ID ");
        reveal_strlit("b5f97137be15df2");
        reveal_strlit("Client-ID b5f97137be15df2");
        assert(r@ =~= "Client-ID b5f97137be15df2"@);
    }
    r
}

/// Whether a request can be made for the URL: the id pattern compiles and
/// an id ends the URL.
pub open spec fn request_possible(url: Seq<char>) -> bool {
    &&& regex_compiles(ID_PATTERN@)
    &&& regex_captures(ID_PATTERN@, url) matches Some(g) && group(g, 1) is Some
}

/// Whether a request is the one for a URL.
pub open spec fn request_for(q: ImgurRequest, url: Seq<char>) -> bool {
    let c = contains_text(url, "/a/"@) || contains_text(url, "/gallery/"@);
    &&& q.collection == c
    &&& Some(q.id@) == group(regex_captures(ID_PATTERN@, url)->0, 1)
    &&& q.api_url@ == api_url_spec(q.id@, c)
    &&& q.authorization@ == authorization_spec()
}

/// The request for an imgur URL: whether it is an album, the id at its end,
/// the endpoint to ask and the `Authorization` header to send.
pub fn request(url: &str) -> (r: ImgurRequest)
    requires
        request_possible(url@),
    ensures
        request_for(r, url@),
{
    let collection = is_collection(url);
    let id = match capture_groups(ID_PATTERN, url) {
        Some(g) => match group_at(&g, 1) {
            Some(id) => id,
            None => String::new(),
        },
        None => String::new(),
    };
    let api_url = api_url(id.as_str(), collection);
    let authorization = authorization();
    ImgurRequest { collection, id, api_url, authorization }
}

/// The request for an imgur URL, where one can be made.
pub fn find_request(url: &str) -> (r: Option<ImgurRequest>)
    ensures
        r is Some <==> request_possible(url@),
        r matches Some(q) ==> request_for(q, url@),
{
    if !pattern_compiles(ID_PATTERN) {
        return None;
    }
    match capture_groups(ID_PATTERN, url) {
        Some(g) => match group_at(&g, 1) {
            Some(_) => Some(request(url)),
            None => None,
        },
        None => None,
    }
}

/// The API's answer in a body: its `success` flag, where it is a boolean,
/// and its `data`; `Err` with `serde_json`'s message where the body is not
/// JSON.
pub fn api_response(body: &str) -> (r: Result<ApiResponse, InvalidJson>)
    ensures
        json_parse(body@) matches Err(m) ==> (r matches Err(e) && e.message@ == m),
        json_parse(body@) matches Ok(j) ==> (r matches Ok(a) && a.success == bool_of(index(j, "success"@))
            && data_matches(a.data, index(j, "data"@))),
        json_parse(body@) is Ok ==> r is Ok,
        json_parse(body@) is Ok && index(index(json_parse(body@)->Ok_0, "data"@), "images"@) is Array ==> {
            let arr = index(index(json_parse(body@)->Ok_0, "data"@), "images"@)->Array_0;
            &&& r->Ok_0.data.images is List
            &&& r->Ok_0.data.images->List_0@.len() == arr.len()
            &&& forall|i: int|
                0 <= i < arr.len() ==> image_matches(#[trigger] r->Ok_0.data.images->List_0@[i], arr[i])
        },
{
    match parse_json(body) {
        Err(message) => Err(InvalidJson { message }),
        Ok(j) => {
            let success = match member(&j, "success") {
                Some(Json::Bool(b)) => Some(*b),
                _ => None,
            };
            let data = match member(&j, "data") {
                Some(d) => data_of(d),
                None => data_of(&Json::Null),
            };
            Ok(ApiResponse { success, data })
        },
    }
}

/// The title given to an untitled album: `Album_` and the album's id.
pub open spec fn default_title(id: Seq<char>) -> Seq<char> {
    "Album_"@ + id
}

/// The scraped data of a successful API answer: its `data`, where an
/// untitled album is titled `Album_<id>`.
pub fn scrape_data(request: &ImgurRequest, response: ApiResponse) -> (r: ScrapeData)
    requires
        response.success == Some(true),
    ensures
        r.images == response.data.images,
        r.fields.link == response.data.fields.link,
        r.fields.id == response.data.fields.id,
        r.fields.ext == response.data.fields.ext,
        response.data.fields.title is Absent && request.collection ==> field_text(r.fields.title) == Some(
            default_title(request.id@),
        ),
        response.data.fields.title is Absent && request.collection ==> (r.fields.title matches Field::Text(
            t,
        ) && t@ == "Album_"@ + request.id@),
        !(response.data.fields.title is Absent && request.collection) ==> r.fields.title
            == response.data.fields.title,
{
    let mut data = response.data;
    if matches!(data.fields.title, Field::Absent) && request.collection {
        let mut t = owned("Album_");
        push_text(&mut t, request.id.as_str());
        data.fields.title = text_field(t);
    }
    data
}

} // verus!
