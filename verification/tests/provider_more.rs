use imgscrpr::media::{Field, Image, Images, ScrapeData};
use imgscrpr::provider::gfycat;
use imgscrpr::provider::imgur::{self, ApiResponse, ImgurRequest};

// A hand-written page holding the elements of a gfycat page that the
// scraper reads (the live page cannot be fetched in the tests).
const PAGE: &str = r#"<!DOCTYPE html><html><head><title>gfy</title></head><body>
<video><source id="webmSource" src="https://giant.gfycat.com/FancyMerryBufflehead.webm" type="video/webm">
<source id="mp4Source" src="https://giant.gfycat.com/FancyMerryBufflehead.mp4" type="video/mp4"></video>
<a id="large-gif" href="https://thumbs.gfycat.com/FancyMerryBufflehead-max-14mb.gif">large</a>
<a id="small-gif" href="https://thumbs.gfycat.com/FancyMerryBufflehead-size_restricted.gif">small</a>
</body></html>"#;

fn s(x: &str) -> Option<String> {
    Some(x.to_string())
}

fn t(x: &str) -> Field {
    Field::Text(x.to_string())
}

fn img(link: &str, id: &str, ext: &str) -> Image {
    Image { link: t(link), id: t(id), ext: t(ext), title: Field::Absent }
}

fn empty() -> Image {
    Image { link: Field::Absent, id: Field::Absent, ext: Field::Absent, title: Field::Absent }
}

#[test]
fn it_returns_the_selected_value_given_valid_selector_and_attribute() {
    assert_eq!(gfycat::get_value(PAGE, "source#webmSource", "src").unwrap(), "https://giant.gfycat.com/FancyMerryBufflehead.webm");
    assert_eq!(gfycat::get_value(PAGE, "source#mp4Source", "src").unwrap(), "https://giant.gfycat.com/FancyMerryBufflehead.mp4");
    assert_eq!(gfycat::get_value(PAGE, "a#large-gif", "href").unwrap(), "https://thumbs.gfycat.com/FancyMerryBufflehead-max-14mb.gif");
    assert_eq!(gfycat::get_value(PAGE, "a#small-gif", "href").unwrap(), "https://thumbs.gfycat.com/FancyMerryBufflehead-size_restricted.gif");
}

#[test]
fn gfycat_invalid_selector_and_incomplete_page() {
    assert_eq!(gfycat::get_value(PAGE, "###", "href"), Err(()));
    assert!(gfycat::read_page("x", "<html><a id=\"large-gif\">no href</a></html>").is_none());
}

#[test]
fn gfycat_page_ids() {
    assert_eq!(gfycat::page_id("https://gfycat.com/FancyMerryBufflehead"), "FancyMerryBufflehead");
    assert_eq!(gfycat::find_page_id("https://gfycat.com/FancyMerryBufflehead"), Some("FancyMerryBufflehead".to_string()));
    assert_eq!(gfycat::find_page_id("https://gfycat.com/"), None);
}

#[test]
fn gfycat_page_data() {
    let d = gfycat::scrape_data("FancyMerryBufflehead", PAGE);
    let id = "FancyMerryBufflehead";
    assert_eq!(d.fields, empty());
    assert_eq!(d.images, Images::List(vec![
        img("https://giant.gfycat.com/FancyMerryBufflehead.webm", id, "webm"),
        img("https://giant.gfycat.com/FancyMerryBufflehead.mp4", id, "mp4"),
        img("https://thumbs.gfycat.com/FancyMerryBufflehead-max-14mb.gif", id, "gif"),
        img("https://thumbs.gfycat.com/FancyMerryBufflehead-size_restricted.gif", "FancyMerryBufflehead-size_restricted", "gif"),
    ]));
    assert_eq!(gfycat::read_page("FancyMerryBufflehead", PAGE), Some(d));
    assert_eq!(gfycat::read_page("x", "<html></html>"), None);
}

#[test]
fn imgur_requests() {
    let a = imgur::request("https://imgur.com/a/cdJA3");
    assert_eq!(a, ImgurRequest {
        collection: true,
        id: "cdJA3".to_string(),
        api_url: "https://api.imgur.com/3/album/cdJA3".to_string(),
        authorization: "Client-ID b5f97137be15df2".to_string(),
    });
    let i = imgur::request("https://i.imgur.com/Z94RUOi.jpg");
    assert!(!i.collection);
    assert_eq!(i.id, "Z94RUOi");
    assert_eq!(i.api_url, "https://api.imgur.com/3/image/Z94RUOi");
    assert_eq!(imgur::find_request("https://imgur.com/ab"), None);
    assert_eq!(imgur::find_request("https://imgur.com/a/cdJA3"), Some(a.clone()));
    assert_eq!(imgur::api_url("xyz12", false), "https://api.imgur.com/3/image/xyz12");
    assert_eq!(imgur::authorization(), "Client-ID b5f97137be15df2");
}

#[test]
fn imgur_answers() {
    let album = imgur::request("https://imgur.com/gallery/KtiYY");
    let image = imgur::request("https://i.imgur.com/Z94RUOi.jpg");
    let data = ScrapeData { fields: empty(), images: Images::List(vec![img("https://i.imgur.com/a.jpg", "a", "jpg")]) };

    let r = imgur::scrape_data(&album, ApiResponse { success: Some(true), data: data.clone() });
    assert_eq!(r.fields.title, t("Album_KtiYY"));
    assert_eq!(r.images, data.images);

    let mut titled = data.clone();
    titled.fields.title = t("Holiday");
    let r = imgur::scrape_data(&album, ApiResponse { success: Some(true), data: titled.clone() });
    assert_eq!(r, titled);

    let r = imgur::scrape_data(&image, ApiResponse { success: Some(true), data: data.clone() });
    assert_eq!(r, data);
}

#[test]
fn imgur_api_bodies() {
    let body = r#"{"success": true, "status": 200, "data": {"id": "cdJA3", "title": null,
        "images": [{"id": "a", "link": "https://i.imgur.com/a.jpg", "title": "A cat", "views": 3},
                   {"id": "b", "link": "https://i.imgur.com/b.png"}]}}"#;
    let r = imgur::api_response(body).unwrap();
    assert_eq!(r.success, Some(true));
    assert_eq!(r.data.fields, Image { link: Field::Absent, id: t("cdJA3"), ext: Field::Absent, title: Field::Absent });
    assert_eq!(r.data.images, Images::List(vec![
        Image { link: t("https://i.imgur.com/a.jpg"), id: t("a"), ext: Field::Absent, title: t("A cat") },
        Image { link: t("https://i.imgur.com/b.png"), id: t("b"), ext: Field::Absent, title: Field::Absent },
    ]));

    let failed = imgur::api_response(r#"{"success": false, "data": {"error": "x"}}"#).unwrap();
    assert_eq!(failed.success, Some(false));
    assert_eq!(failed.data.images, Images::Absent);
    let odd = imgur::api_response(r#"{"success": 1}"#).unwrap();
    assert_eq!(odd.success, None);
    let e = imgur::api_response("not json").unwrap_err();
    assert_eq!(e.message, "expected ident at line 1 column 2");
    let odd = imgur::api_response(r#"{"success": true, "data": {"title": 7, "images": "x"}}"#).unwrap();
    assert_eq!(odd.data.fields.title, Field::Other);
    assert_eq!(odd.data.images, Images::Other);
}
