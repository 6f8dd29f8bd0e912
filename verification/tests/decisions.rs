use imgscrpr::error::UnsupportedUrlError;
use imgscrpr::filename::{candidate_filename, first_free_name, splits_at_extension, uniq_valid_filename, valid_filename};
use imgscrpr::media::{Field, Image, Images, ScrapeData};
use imgscrpr::options::{Matches, Options};
use imgscrpr::plan::{
    classify_url, count_summary, custom_location, custom_location_with_sub_dir, default_location,
    image_filename, location_path, ordered_filename, pause_after, patterns_compile, plan_download,
    plural_suffix, can_plan, try_classify_url, try_image_filename, SaveLocation, Source, Tally,
};
use imgscrpr::text::{find_last, parse_decimal, replace_char, same_text, to_decimal};
use imgscrpr::web::{host, is_valid_url, is_web_scheme};

fn s(x: &str) -> Option<String> {
    Some(x.to_string())
}

fn field(o: Option<String>) -> Field {
    match o {
        Some(t) => Field::Text(t),
        None => Field::Absent,
    }
}

fn image(link: Option<String>, id: Option<String>, ext: Option<String>, title: Option<String>) -> Image {
    Image { link: field(link), id: field(id), ext: field(ext), title: field(title) }
}

fn options(output: &str, title: &str, nsfw: bool, kpics: bool) -> Options {
    Options {
        debug: false,
        kpics,
        nsfw,
        output: output.to_string(),
        title: title.to_string(),
        urls: vec!["https://example.com/a.png".to_string()],
        throttle: 0,
        sleep: 0,
        add_ordering: false,
    }
}

fn matches(urls: Vec<&str>, title_present: bool, title: Option<&str>) -> Matches {
    Matches {
        url_occurrences: urls.len() as u64,
        urls: Some(urls.into_iter().map(String::from).collect()),
        title_present,
        title: title.map(String::from),
        output: None,
        throttle: None,
        sleep: None,
        add_ordering_occurrences: 0,
        debug_occurrences: 0,
        nsfw_occurrences: 2,
        kpics_occurrences: 0,
    }
}

#[test]
fn decimal_text_of_numbers() {
    assert_eq!(to_decimal(0), "0");
    assert_eq!(to_decimal(7), "7");
    assert_eq!(to_decimal(10), "10");
    assert_eq!(to_decimal(1234), "1234");
    assert_eq!(to_decimal(u64::MAX), "18446744073709551615");
}

#[test]
fn text_helpers() {
    assert_eq!(replace_char("a b c", ' ', '_'), "a_b_c");
    assert_eq!(replace_char("", ' ', '_'), "");
    assert!(same_text("abc", "abc"));
    assert!(!same_text("abc", "abd"));
    assert!(!same_text("abc", "ab"));
    assert_eq!(find_last("a.b.c", '.'), 3);
    assert_eq!(find_last("abc", '.'), -1);
}

#[test]
fn valid_filename_replaces_every_slash() {
    assert_eq!(valid_filename("a/b/c.txt"), "a_b_c.txt");
    assert_eq!(valid_filename(valid_filename("a/b/c.txt").as_str()), "a_b_c.txt");
    assert_eq!(valid_filename("plain.txt"), "plain.txt");
}

#[test]
fn candidates_are_numbered_before_the_last_extension() {
    assert_eq!(candidate_filename("te/st/file.txt", 0), "te_st_file.txt");
    assert_eq!(candidate_filename("te/st/file.txt", 1), "te_st_file_1.txt");
    assert_eq!(candidate_filename("te/st/file.txt", 12), "te_st_file_12.txt");
    assert_eq!(candidate_filename("archive.tar.gz", 2), "archive.tar_2.gz");
    assert_eq!(candidate_filename("a.", 1), "a_1.");
    assert_ne!(candidate_filename("x.png", 1), candidate_filename("x.png", 11));
}

#[test]
fn unique_name_of_a_free_name_is_the_name() {
    assert_eq!(uniq_valid_filename("no/such/image.jpg"), "no_such_image.jpg");
    assert_eq!(uniq_valid_filename("my cat.png"), "my cat.png");
}

#[test]
fn options_read_every_argument() {
    let mut m = matches(vec!["https://a.com/x.png"], true, Some("Cats"));
    m.output = Some("out".to_string());
    m.debug_occurrences = 1;
    m.kpics_occurrences = 3;
    let o = Options::new(&m).unwrap();
    assert_eq!(o.urls, vec!["https://a.com/x.png".to_string()]);
    assert_eq!(o.title, "Cats");
    assert_eq!(o.output, "out");
    assert!(o.debug);
    assert!(o.nsfw);
    assert!(o.kpics);
}

#[test]
fn options_default_to_empty_values() {
    let mut m = matches(vec!["a", "b"], false, None);
    m.nsfw_occurrences = 0;
    let o = Options::new(&m).unwrap();
    assert_eq!(o.urls, vec!["a".to_string(), "b".to_string()]);
    assert_eq!(o.title, "");
    assert_eq!(o.output, "");
    assert!(!o.debug && !o.nsfw && !o.kpics);
}

#[test]
fn title_with_several_urls_is_refused() {
    let m = matches(vec!["a", "b"], true, None);
    assert_eq!(Options::new(&m), Err("Conflicting options: '--title' and multiple URLs"));
    let one = matches(vec!["a"], true, Some("t"));
    assert!(Options::new(&one).is_ok());
}

#[test]
fn urls_with_web_schemes_are_valid() {
    assert!(is_web_scheme("http"));
    assert!(is_web_scheme("https"));
    assert!(!is_web_scheme("ftp"));
    assert!(is_valid_url("http://example.com/a.png"));
    assert!(is_valid_url("HTTPS://example.com/a.png"));
    assert!(!is_valid_url("ftp://example.com/a.png"));
    assert!(!is_valid_url("mailto:someone@example.com"));
}

#[test]
fn host_of_a_url() {
    assert_eq!(host("https://i.imgur.com/Z94RUOi.jpg"), "i.imgur.com");
    assert_eq!(host("HTTPS://Example.COM/x"), "example.com");
    assert_eq!(host("data:text/plain,hi"), "");
}

#[test]
fn urls_are_classified_by_host() {
    assert_eq!(classify_url("https://i.imgur.com/Z94RUOi.jpg"), Ok(Some(Source::Imgur)));
    assert_eq!(classify_url("https://imgur.com/a/cdJA3"), Ok(Some(Source::Imgur)));
    assert_eq!(classify_url("https://gfycat.com/FancyMerryBufflehead"), Ok(Some(Source::Gfycat)));
    assert_eq!(classify_url("https://GfyCat.com/FancyMerryBufflehead"), Ok(Some(Source::Gfycat)));
    // imgur only counts in the host; gfycat anywhere in the URL
    assert_eq!(classify_url("https://example.com/imgur"), Err(UnsupportedUrlError));
    assert_eq!(classify_url("https://example.com/gfycat"), Ok(Some(Source::Gfycat)));
}

#[test]
fn direct_links_name_their_image() {
    let r = classify_url("https://example.com/pics/my-cat_1.png");
    let expected = ScrapeData {
        fields: image(
            s("https://example.com/pics/my-cat_1.png"),
            s("my-cat_1"),
            s("png"),
            None,
        ),
        images: Images::Absent,
    };
    assert_eq!(r, Ok(Some(Source::Direct(expected))));
}

#[test]
fn invalid_urls_are_skipped_and_others_unsupported() {
    assert_eq!(classify_url("not.valid/url"), Ok(None));
    assert_eq!(classify_url(""), Ok(None));
    assert_eq!(classify_url("ftp://example.com/a.png"), Ok(None));
    assert_eq!(classify_url("https://example.com/"), Err(UnsupportedUrlError));
    assert_eq!(classify_url("https://example.com/page"), Err(UnsupportedUrlError));
}

#[test]
fn unsupported_url_error_texts() {
    let e = UnsupportedUrlError;
    assert_eq!(e.description(), "[!!] URL not supported");
    assert_eq!(e.display_text(), "UnsupportedUrlError");
}

#[test]
fn save_location_follows_flags_and_title() {
    let titled = ScrapeData { fields: image(None, None, None, s("Album_x")), images: Images::Absent };
    let untitled = ScrapeData { fields: image(None, None, None, None), images: Images::Absent };

    let p = plan_download(&options("", "", false, false), untitled.clone());
    assert_eq!(p.location, SaveLocation::Default);
    let p = plan_download(&options("", "", false, false), titled.clone());
    assert_eq!(p.location, SaveLocation::SubDir { dir: "scraped".to_string(), sub_dir: "Album_x".to_string() });
    let p = plan_download(&options("out", "", false, false), titled.clone());
    assert_eq!(p.location, SaveLocation::SubDir { dir: "scraped".to_string(), sub_dir: "out".to_string() });
    let p = plan_download(&options("", "", true, true), untitled.clone());
    assert_eq!(p.location, SaveLocation::Dir { dir: "nsfw".to_string() });
    let p = plan_download(&options("", "", false, true), titled.clone());
    assert_eq!(p.location, SaveLocation::SubDir { dir: "kpics".to_string(), sub_dir: "Album_x".to_string() });
    let p = plan_download(&options("out", "", true, false), untitled);
    assert_eq!(p.location, SaveLocation::SubDir { dir: "nsfw".to_string(), sub_dir: "out".to_string() });
}

#[test]
fn plan_lists_the_images() {
    let single = ScrapeData { fields: image(s("l"), s("i"), s("png"), None), images: Images::Absent };
    let p = plan_download(&options("", "", false, false), single.clone());
    assert_eq!(p.images, vec![single.fields.clone()]);
    let a = image(s("l1"), s("i1"), None, None);
    let b = image(s("l2"), s("i2"), None, s("t"));
    let album = ScrapeData { fields: image(None, None, None, s("T")), images: Images::List(vec![a.clone(), b.clone()]) };
    let p = plan_download(&options("", "", false, false), album);
    assert_eq!(p.images, vec![a, b]);
}

#[test]
fn location_paths() {
    assert_eq!(default_location("/home/u"), "/home/u/Pictures/scraped/");
    assert_eq!(custom_location("/home/u", "nsfw"), "/home/u/Pictures/nsfw/");
    assert_eq!(custom_location_with_sub_dir("/home/u", "kpics", "Album_x"), "/home/u/Pictures/kpics/Album_x");
    assert_eq!(location_path("/h", &SaveLocation::Default), "/h/Pictures/scraped/");
    assert_eq!(location_path("/h", &SaveLocation::Dir { dir: "d".to_string() }), "/h/Pictures/d/");
    assert_eq!(
        location_path("/h", &SaveLocation::SubDir { dir: "scraped".to_string(), sub_dir: "s".to_string() }),
        "/h/Pictures/scraped/s"
    );
}

#[test]
fn image_file_names() {
    let o = options("", "", false, false);
    // extension field first
    assert_eq!(image_filename(&o, &image(s("https://x/a.gif"), s("abc"), s("webm"), None)), "abc.webm");
    // else the link's extension
    assert_eq!(image_filename(&o, &image(s("https://i.imgur.com/Z94RUOi.jpg"), s("Z94RUOi"), None, None)), "Z94RUOi.jpg");
    // the image title before the id, spaces replaced
    assert_eq!(image_filename(&o, &image(s("https://x/a.png"), s("abc"), None, s("my cat pic"))), "my_cat_pic.png");
    // the --title value first of all
    let t = options("", "holiday photo", false, false);
    assert_eq!(image_filename(&t, &image(s("https://x/a.png"), s("abc"), None, s("x"))), "holiday_photo.png");
}

#[test]
fn images_without_type_or_name_are_not_named() {
    let o = options("", "", false, false);
    assert_eq!(try_image_filename(&o, &image(None, s("abc"), None, None)), None);
    assert_eq!(try_image_filename(&o, &image(s("https://x/noext"), s("abc"), None, None)), None);
    assert_eq!(try_image_filename(&o, &image(s("https://x/a.png"), None, None, None)), None);
    assert_eq!(try_image_filename(&o, &image(s("https://x/a.png"), s("abc"), None, None)), Some("abc.png".to_string()));
}

#[test]
fn summaries_count_images() {
    assert_eq!(count_summary(0), "0 image");
    assert_eq!(count_summary(1), "1 image");
    assert_eq!(count_summary(2), "2 images");
    assert_eq!(count_summary(10), "10 images");
    assert_eq!(plural_suffix(1), "");
    assert_eq!(plural_suffix(3), "s");
}

#[test]
fn saved_names_have_no_spaces_or_slashes() {
    let o = options("", "a b/c", false, false);
    let name = image_filename(&o, &image(s("https://x/y.png"), None, None, None));
    assert_eq!(name, "a_b/c.png");
    let saved = uniq_valid_filename(name.as_str());
    assert_eq!(saved, "a_b_c.png");
    assert!(!saved.contains(' ') && !saved.contains('/'));
}

#[test]
fn direct_link_saved_under_its_file_name() {
    let o = options("", "", false, false);
    let data = match classify_url("https://example.com/x/photo.jpg") {
        Ok(Some(Source::Direct(d))) => d,
        other => panic!("unexpected {:?}", other),
    };
    let plan = plan_download(&o, data);
    assert_eq!(plan.images.len(), 1);
    assert_eq!(image_filename(&o, &plan.images[0]), "photo.jpg");
}

#[test]
fn throttle_sleep_and_ordering_options() {
    let mut m = matches(vec!["a"], false, None);
    m.throttle = Some("5".to_string());
    m.sleep = Some("12".to_string());
    m.add_ordering_occurrences = 1;
    let o = Options::new(&m).unwrap();
    assert_eq!((o.throttle, o.sleep, o.add_ordering), (5, 12, true));
    // a TIME that is no whole number of seconds means no wait
    m.throttle = Some("5s".to_string());
    m.sleep = Some("1.5".to_string());
    let o = Options::new(&m).unwrap();
    assert_eq!((o.throttle, o.sleep), (0, 0));
    m.sleep = Some("".to_string());
    assert_eq!(Options::new(&m).unwrap().sleep, 0);
}

#[test]
fn decimal_parsing() {
    assert_eq!(parse_decimal("0"), Some(0));
    assert_eq!(parse_decimal("42"), Some(42));
    assert_eq!(parse_decimal("18446744073709551615"), Some(u64::MAX));
    assert_eq!(parse_decimal("18446744073709551616"), None);
    assert_eq!(parse_decimal(""), None);
    assert_eq!(parse_decimal("-1"), None);
    assert_eq!(parse_decimal("1.5"), None);
}

#[test]
fn ordering_and_pauses() {
    let mut o = options("", "", false, false);
    assert_eq!(ordered_filename(&o, 3, "a.png".to_string()), "a.png");
    o.add_ordering = true;
    assert_eq!(ordered_filename(&o, 3, "a.png".to_string()), "3_a.png");
    assert_eq!(pause_after(5, 0, 3), 5);
    assert_eq!(pause_after(5, 2, 3), 0);
    assert_eq!(pause_after(5, 0, 1), 0);
}

#[test]
fn tally_counts_downloads() {
    let mut t = Tally::new();
    assert!(!t.any_failed());
    t.record(true);
    t.record(true);
    t.record(false);
    assert_eq!((t.count, t.failed), (2, 1));
    assert!(t.any_failed());
}

#[test]
fn first_free_name_asks_in_order() {
    let taken = |n: &str| n == "te_st.txt" || n == "te_st_1.txt";
    assert_eq!(first_free_name("te/st.txt", &taken), "te_st_2.txt");
    let none = |_: &str| false;
    assert_eq!(first_free_name("te/st.txt", &none), "te_st.txt");
}

#[test]
fn checked_entry_points() {
    assert!(patterns_compile());
    assert_eq!(try_classify_url("https://imgur.com/a/cdJA3"), Some(Ok(Some(Source::Imgur))));
    assert_eq!(try_classify_url("not.valid/url"), Some(Ok(None)));
    assert!(splits_at_extension("a/b.png"));
    assert!(!splits_at_extension(".png"));
    assert!(!splits_at_extension("noext"));
    assert!(!splits_at_extension(".."));
}

#[test]
fn unreadable_title_or_list_cannot_be_planned() {
    let ok = ScrapeData { fields: image(None, None, None, s("T")), images: Images::Absent };
    assert!(can_plan(&ok));
    let odd_title = ScrapeData { fields: Image { title: Field::Other, ..image(None, None, None, None) }, images: Images::Absent };
    assert!(!can_plan(&odd_title));
    let odd_list = ScrapeData { fields: image(None, None, None, None), images: Images::Other };
    assert!(!can_plan(&odd_list));
    // a field of another kind only matters where it is read
    let o = options("", "named", false, false);
    let img = Image { id: Field::Other, title: Field::Other, ..image(s("https://x/a.png"), None, None, None) };
    assert_eq!(try_image_filename(&o, &img), Some("named.png".to_string()));
    let o = options("", "", false, false);
    assert_eq!(try_image_filename(&o, &img), None);
}

#[test]
fn two_searches_on_an_unchanged_disk_agree() {
    assert_eq!(uniq_valid_filename("a/b.png"), uniq_valid_filename("a/b.png"));
    let taken = |n: &str| n == "x.png";
    assert_eq!(first_free_name("x.png", &taken), first_free_name("x.png", &taken));
}
