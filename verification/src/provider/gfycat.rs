//! gfycat: each page offers a video in two formats and two animated images.

use scraper::{Html, Selector};
use vstd::prelude::*;
use crate::media::{field_text, text_field, Field, Image, Images, ScrapeData};
use crate::pattern::{capture_groups, group, group_at, opt_chars, pattern_compiles, regex_captures, regex_compiles};
use crate::text::{owned, push_text};

verus! {

/// Finds the page id at the end of a gfycat URL.
pub const ID_PATTERN: &'static str = "(\\w+)$";

/// Whether `scraper::Selector::parse` accepts the selector.
pub uninterp spec fn selector_parses(selector: Seq<char>) -> bool;

/// What `scraper` finds for a (parsing) selector and an attribute in a
/// document (`Html::parse_document`, the first element of `Html::select`,
/// then `Element::attr`): `None` where no element matches, `Some(None)`
/// where the first match lacks the attribute, else the attribute's value.
pub uninterp spec fn html_select_attr(document: Seq<char>, selector: Seq<char>, attr: Seq<char>) -> Option<
    Option<Seq<char>>,
>;

/// `scraper::Selector::parse(selector).is_ok()`: the name `selector_parses`.
#[verifier::external_body]
fn parse_selector(selector: &str) -> (r: bool)
    ensures
        r == selector_parses(selector@),
{
    Selector::parse(selector).is_ok()
}

/// The characters of a selection's attribute value.
pub open spec fn selection_view(r: Option<Option<String>>) -> Option<Option<Seq<char>>> {
    match r {
        None => None,
        Some(a) => Some(opt_chars(a)),
    }
}

/// Parses the selector (which succeeds by the `requires`) and the document
/// with `scraper` and reads the attribute of the first element that
/// matches; the result is the name `html_select_attr` of the three.
#[verifier::external_body]
fn select_attr(document: &str, selector: &str, attr: &str) -> (r: Option<Option<String>>)
    requires
        selector_parses(selector@),
    ensures
        selection_view(r) == html_select_attr(document@, selector@, attr@),
{
    let s = Selector::parse(selector).unwrap();
    let fragment = Html::parse_document(document);
    match fragment.select(&s).next() {
        Some(e) => match e.value().attr(attr) {
            Some(a) => Some(Some(a.to_string())),
            None => Some(None),
        },
        None => None,
    }
}

/// Whether [`get_value`] can read the value: a selector that parses finds
/// an element with the attribute.
pub open spec fn value_found(document: Seq<char>, selector: Seq<char>, attr: Seq<char>) -> bool {
    selector_parses(selector) ==> html_select_attr(document, selector, attr) matches Some(Some(_))
}

/// The value of the attribute `attr` of the first element of the document
/// that `selector` matches; `Err(())` where the selector does not parse.
pub fn get_value(document: &str, selector: &str, attr: &str) -> (r: Result<String, ()>)
    requires
        value_found(document@, selector@, attr@),
    ensures
        !selector_parses(selector@) ==> r == Err::<String, ()>(()),
        selector_parses(selector@) ==> (r matches Ok(v) && Some(Some(v@)) == html_select_attr(
            document@,
            selector@,
            attr@,
        )),
{
    if !parse_selector(selector) {
        return Err(());
    }
    match select_attr(document, selector, attr) {
        Some(Some(v)) => Ok(v),
        _ => Err(()),
    }
}

/// Whether the URL ends in a page id.
pub open spec fn id_found(url: Seq<char>) -> bool {
    &&& regex_compiles(ID_PATTERN@)
    &&& regex_captures(ID_PATTERN@, url) matches Some(g) && group(g, 1) is Some
}

/// The id of a gfycat page: the word at the end of its URL.
pub fn page_id(url: &str) -> (r: String)
    requires
        id_found(url@),
    ensures
        Some(r@) == group(regex_captures(ID_PATTERN@, url@)->0, 1),
{
    match capture_groups(ID_PATTERN, url) {
        Some(g) => match group_at(&g, 1) {
            Some(id) => id,
            None => String::new(),
        },
        None => String::new(),
    }
}

/// The id of a gfycat page, where its URL ends in one.
pub fn find_page_id(url: &str) -> (r: Option<String>)
    ensures
        r is Some <==> id_found(url@),
        r matches Some(id) ==> Some(id@) == group(regex_captures(ID_PATTERN@, url@)->0, 1),
{
    if !pattern_compiles(ID_PATTERN) {
        return None;
    }
    match capture_groups(ID_PATTERN, url) {
        Some(g) => match group_at(&g, 1) {
            Some(_) => Some(page_id(url)),
            None => None,
        },
        None => None,
    }
}

/// Whether an image has exactly the given link, id and extension, and no
/// title.
pub open spec fn is_image(img: Image, link: Seq<char>, id: Seq<char>, ext: Seq<char>) -> bool {
    &&& field_text(img.link) == Some(link)
    &&& field_text(img.id) == Some(id)
    &&& field_text(img.ext) == Some(ext)
    &&& img.title is Absent
}

fn make_image(link: String, id: &str, ext: &str) -> (r: Image)
    ensures
        is_image(r, link@, id@, ext@),
{
    Image { link: text_field(link), id: text_field(owned(id)), ext: text_field(owned(ext)), title: Field::Absent }
}

/// The value of an attribute of the first element a selector matches.
pub open spec fn found(body: Seq<char>, selector: Seq<char>, attr: Seq<char>) -> Seq<char> {
    html_select_attr(body, selector, attr)->0->0
}

/// Whether a page has the four values the scraper reads.
pub open spec fn page_complete(body: Seq<char>) -> bool {
    &&& selector_parses("source#webmSource"@)
    &&& value_found(body, "source#webmSource"@, "src"@)
    &&& selector_parses("source#mp4Source"@)
    &&& value_found(body, "source#mp4Source"@, "src"@)
    &&& selector_parses("a#large-gif"@)
    &&& value_found(body, "a#large-gif"@, "href"@)
    &&& selector_parses("a#small-gif"@)
    &&& value_found(body, "a#small-gif"@, "href"@)
}

/// The data of a page: no top-level fields, and the four images in order.
pub open spec fn page_data(d: ScrapeData, id: Seq<char>, body: Seq<char>) -> bool {
    &&& d.fields.link is Absent
    &&& d.fields.id is Absent
    &&& d.fields.ext is Absent
    &&& d.fields.title is Absent
    &&& d.images is List
    &&& d.images->List_0@.len() == 4
    &&& is_image(d.images->List_0@[0], found(body, "source#webmSource"@, "src"@), id, "webm"@)
    &&& is_image(d.images->List_0@[1], found(body, "source#mp4Source"@, "src"@), id, "mp4"@)
    &&& is_image(d.images->List_0@[2], found(body, "a#large-gif"@, "href"@), id, "gif"@)
    &&& is_image(d.images->List_0@[3], found(body, "a#small-gif"@, "href"@), id + "-size_restricted"@, "gif"@)
}

fn value_of(body: &str, selector: &str, attr: &str) -> (r: String)
    requires
        selector_parses(selector@),
        value_found(body@, selector@, attr@),
    ensures
        r@ == found(body@, selector@, attr@),
{
    match get_value(body, selector, attr) {
        Ok(v) => v,
        Err(_) => String::new(),
    }
}

/// The data of a gfycat page with the given id: the `webm` and `mp4`
/// videos and the large `gif`, named by the id, and the small `gif`, named
/// by the id and `-size_restricted`.
pub fn scrape_data(id: &str, body: &str) -> (r: ScrapeData)
    requires
        page_complete(body@),
    ensures
        page_data(r, id@, body@),
{
    let webm = value_of(body, "source#webmSource", "src");
    let mp4 = value_of(body, "source#mp4Source", "src");
    let large_gif = value_of(body, "a#large-gif", "href");
    let small_gif = value_of(body, "a#small-gif", "href");
    let mut small_id = owned(id);
    push_text(&mut small_id, "-size_restricted");
    let mut images: Vec<Image> = Vec::new();
    images.push(make_image(webm, id, "webm"));
    images.push(make_image(mp4, id, "mp4"));
    images.push(make_image(large_gif, id, "gif"));
    images.push(make_image(small_gif, small_id.as_str(), "gif"));
    ScrapeData { fields: Image::empty(), images: Images::List(images) }
}

fn has_value(body: &str, selector: &str, attr: &str) -> (r: bool)
    ensures
        r == (selector_parses(selector@) && value_found(body@, selector@, attr@)),
{
    parse_selector(selector) && match select_attr(body, selector, attr) {
        Some(Some(_)) => true,
        _ => false,
    }
}

/// The data of a gfycat page, where the page has the four values.
pub fn read_page(id: &str, body: &str) -> (r: Option<ScrapeData>)
    ensures
        r is Some <==> page_complete(body@),
        r matches Some(d) ==> page_data(d, id@, body@),
{
    if has_value(body, "source#webmSource", "src") && has_value(body, "source#mp4Source", "src")
        && has_value(body, "a#large-gif", "href") && has_value(body, "a#small-gif", "href") {
        Some(scrape_data(id, body))
    } else {
        None
    }
}

} // verus!
