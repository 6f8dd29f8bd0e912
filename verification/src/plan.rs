//! The scraper's decisions for each URL: which host it belongs to, where
//! its images are saved, and what each image's file is called.

use vstd::prelude::*;
use crate::error::UnsupportedUrlError;
use crate::media::{field_text, images_spec, text_field, Field, Image, Images, ScrapeData};
use crate::options::Options;
use crate::pattern::{
    capture_groups, contains_text, group, group_at, matches_pattern, opt_chars, pattern_compiles,
    plain_literal, regex_captures, regex_compiles, regex_is_match,
};
use crate::text::{decimal, owned, push_char, push_text, replace_char, replaced, to_decimal};
use crate::web::{host, host_spec, is_valid_url, valid_url};

verus! {

/// Matches the host of an imgur URL.
pub const IMGUR_PATTERN: &'static str = "imgur";

/// Matches a gfycat URL, in any case (the inline flag `i` is the regex
/// crate's case-insensitive setting).
pub const GFYCAT_PATTERN: &'static str = "(?i)gfycat";

/// Matches a URL that ends in a file name: its id and its extension.
pub const DIRECT_PATTERN: &'static str = "/([a-zA-Z0-9\\-_]+)\\.(\\w+)$";

/// Matches the extension at the end of an image link.
pub const EXTENSION_PATTERN: &'static str = "\\.(\\w+)$";

/// Where the data of a URL comes from.
#[derive(Debug, Clone, PartialEq, Eq)]
pub enum Source {
    /// imgur's API.
    Imgur,
    /// The gfycat page itself.
    Gfycat,
    /// The URL itself names the one image.
    Direct(ScrapeData),
}

/// Whether the data of a direct link is the link with the given id and
/// extension, untitled.
pub open spec fn direct_data(d: ScrapeData, url: Seq<char>, id: Seq<char>, ext: Seq<char>) -> bool {
    &&& field_text(d.fields.link) == Some(url)
    &&& field_text(d.fields.id) == Some(id)
    &&& field_text(d.fields.ext) == Some(ext)
    &&& d.fields.title is Absent
    &&& d.images is Absent
}

/// Whether the scraper's patterns that are more than plain text compile.
pub open spec fn patterns_compile_spec() -> bool {
    &&& regex_compiles(GFYCAT_PATTERN@)
    &&& regex_compiles(DIRECT_PATTERN@)
    &&& regex_compiles(EXTENSION_PATTERN@)
}

/// Whether the scraper's patterns compile (the imgur pattern is plain text,
/// which always does).
pub fn patterns_compile() -> (r: bool)
    ensures
        r == patterns_compile_spec(),
{
    pattern_compiles(GFYCAT_PATTERN) && pattern_compiles(
        DIRECT_PATTERN,
    ) && pattern_compiles(EXTENSION_PATTERN)
}

proof fn lemma_imgur_pattern()
    ensures
        plain_literal(IMGUR_PATTERN@),
        IMGUR_PATTERN@ == "imgur"@,
        IMGUR_PATTERN@.len() <= 1000,
{
    reveal_strlit("imgur");
}

/// Whether a URL reaches the direct-link case: it is scraped and neither
/// imgur nor gfycat, and ends in a file name.
pub open spec fn is_direct(url: Seq<char>) -> bool {
    &&& valid_url(url)
    &&& !regex_is_match(IMGUR_PATTERN@, host_spec(url))
    &&& !regex_is_match(GFYCAT_PATTERN@, url)
    &&& regex_is_match(DIRECT_PATTERN@, url)
}

/// Whether a URL can be classified: the patterns compile, and a direct link
/// has the id and the extension its pattern captures.
pub open spec fn classifiable(url: Seq<char>) -> bool {
    &&& patterns_compile_spec()
    &&& is_direct(url) ==> (regex_captures(DIRECT_PATTERN@, url) matches Some(g) && group(g, 1) is Some
        && group(g, 2) is Some)
}

/// Where the data of a URL comes from: `Ok(None)` for a URL that is skipped
/// (it does not parse, or is not http or https); imgur when imgur hosts it;
/// gfycat when it names gfycat; the URL itself when it ends in a file name;
/// else the URL is not supported.
pub fn classify_url(url: &str) -> (r: Result<Option<Source>, UnsupportedUrlError>)
    requires
        classifiable(url@),
    ensures
        classify_url_result(url@, r),
        valid_url(url@) ==> regex_is_match(IMGUR_PATTERN@, host_spec(url@)) == contains_text(
            host_spec(url@),
            "imgur"@,
        ),
{
    if !is_valid_url(url) {
        return Ok(None);
    }
    let h = host(url);
    proof {
        lemma_imgur_pattern();
    }
    let compiles = pattern_compiles(IMGUR_PATTERN);
    assert(compiles);
    if matches_pattern(IMGUR_PATTERN, h.as_str()) {
        return Ok(Some(Source::Imgur));
    }
    if matches_pattern(GFYCAT_PATTERN, url) {
        return Ok(Some(Source::Gfycat));
    }
    if !matches_pattern(DIRECT_PATTERN, url) {
        return Err(UnsupportedUrlError);
    }
    let (id, ext) = match capture_groups(DIRECT_PATTERN, url) {
        Some(g) => match (group_at(&g, 1), group_at(&g, 2)) {
            (Some(id), Some(ext)) => (id, ext),
            _ => (String::new(), String::new()),
        },
        None => (String::new(), String::new()),
    };
    let fields = Image { link: text_field(owned(url)), id: text_field(id), ext: text_field(ext), title: Field::Absent };
    Ok(Some(Source::Direct(ScrapeData { fields, images: Images::Absent })))
}

/// [`classify_url`] where the URL can be classified; `None` elsewhere.
pub fn try_classify_url(url: &str) -> (r: Option<Result<Option<Source>, UnsupportedUrlError>>)
    ensures
        r is Some <==> classifiable(url@),
        r matches Some(x) ==> (classify_url_result(url@, x)),
{
    if !patterns_compile() {
        return None;
    }
    if is_valid_url(url) {
        let h = host(url);
        proof {
            lemma_imgur_pattern();
        }
        let compiles = pattern_compiles(IMGUR_PATTERN);
        assert(compiles);
        if !matches_pattern(IMGUR_PATTERN, h.as_str()) && !matches_pattern(GFYCAT_PATTERN, url)
            && matches_pattern(DIRECT_PATTERN, url) {
            let ok = match capture_groups(DIRECT_PATTERN, url) {
                Some(g) => group_at(&g, 1).is_some() && group_at(&g, 2).is_some(),
                None => false,
            };
            if !ok {
                return None;
            }
        }
    }
    Some(classify_url(url))
}

/// Whether a result is the one [`classify_url`] gives for a URL.
pub open spec fn classify_url_result(url: Seq<char>, r: Result<Option<Source>, UnsupportedUrlError>) -> bool {
    &&& !valid_url(url) ==> r == Ok::<Option<Source>, UnsupportedUrlError>(None)
    &&& valid_url(url) && regex_is_match(IMGUR_PATTERN@, host_spec(url)) ==> r == Ok::<
        Option<Source>,
        UnsupportedUrlError,
    >(Some(Source::Imgur))
    &&& valid_url(url) && !regex_is_match(IMGUR_PATTERN@, host_spec(url)) && regex_is_match(
        GFYCAT_PATTERN@,
        url,
    ) ==> r == Ok::<Option<Source>, UnsupportedUrlError>(Some(Source::Gfycat))
    &&& valid_url(url) && !regex_is_match(IMGUR_PATTERN@, host_spec(url)) && !regex_is_match(
        GFYCAT_PATTERN@,
        url,
    ) && !regex_is_match(DIRECT_PATTERN@, url) ==> r == Err::<Option<Source>, UnsupportedUrlError>(
        UnsupportedUrlError,
    )
    &&& is_direct(url) ==> (r matches Ok(Some(Source::Direct(d))) && {
        let g = regex_captures(DIRECT_PATTERN@, url)->0;
        direct_data(d, url, group(g, 1)->0, group(g, 2)->0)
    })
}

/// The directory under `Pictures` that a URL's images are saved in, and the
/// directory inside it.
#[derive(Debug, Clone, PartialEq, Eq)]
pub enum SaveLocation {
    /// `Pictures/scraped/`.
    Default,
    /// `Pictures/<dir>/`.
    Dir { dir: String },
    /// `Pictures/<dir>/<sub_dir>`.
    SubDir { dir: String, sub_dir: String },
}

/// What to do for the data of one URL: where to save and what to download.
#[derive(Debug, Clone, PartialEq, Eq)]
pub struct DownloadPlan {
    pub location: SaveLocation,
    pub images: Vec<Image>,
}

/// The directory chosen by the flags: `nsfw` before `kpics`.
pub open spec fn save_dir_spec(opts: Options) -> Option<Seq<char>> {
    if opts.nsfw {
        Some("nsfw"@)
    } else if opts.kpics {
        Some("kpics"@)
    } else {
        None
    }
}

/// The inner directory: the `--output` value where it is given, else the
/// title of the scraped data.
pub open spec fn save_sub_dir_spec(opts: Options, title: Option<Seq<char>>) -> Option<Seq<char>> {
    if opts.output@.len() > 0 {
        Some(opts.output@)
    } else {
        title
    }
}

/// Whether a location is the one for a directory and an inner directory; an
/// inner directory without a directory goes under `scraped`.
pub open spec fn location_is(loc: SaveLocation, dir: Option<Seq<char>>, sub_dir: Option<Seq<char>>) -> bool {
    match (dir, sub_dir) {
        (Some(d), Some(s)) => loc matches SaveLocation::SubDir { dir, sub_dir } && dir@ == d && sub_dir@ == s,
        (Some(d), None) => loc matches SaveLocation::Dir { dir } && dir@ == d,
        (None, Some(s)) => loc matches SaveLocation::SubDir { dir, sub_dir } && dir@ == "scraped"@ && sub_dir@ == s,
        (None, None) => loc is Default,
    }
}

/// Whether the data can be planned: its title, and its list of images,
/// are absent or of the kind the scraper reads.
pub open spec fn plannable(data: ScrapeData) -> bool {
    &&& !(data.fields.title is Other)
    &&& !(data.images is Other)
}

/// Whether the data can be planned.
pub fn can_plan(data: &ScrapeData) -> (r: bool)
    ensures
        r == plannable(*data),
{
    !matches!(data.fields.title, Field::Other) && !matches!(data.images, Images::Other)
}

/// The directory under `Pictures` that a location names (`scraped` for
/// the default).
pub open spec fn location_dir(loc: SaveLocation) -> Seq<char> {
    match loc {
        SaveLocation::Default => "scraped"@,
        SaveLocation::Dir { dir } => dir@,
        SaveLocation::SubDir { dir, .. } => dir@,
    }
}

/// Whatever the flags, the inner directory is the `--output` value where
/// one is given, else the title of the scraped data where it has one; the
/// flags choose only the directory above it (`nsfw` before `kpics`).
pub proof fn lemma_inner_directory(opts: Options, title: Option<Seq<char>>, loc: SaveLocation)
    requires
        location_is(loc, save_dir_spec(opts), save_sub_dir_spec(opts, title)),
    ensures
        opts.output@.len() > 0 ==> loc is SubDir && loc->SubDir_sub_dir@ == opts.output@,
        opts.output@.len() == 0 && title is Some ==> loc is SubDir && loc->SubDir_sub_dir@ == title->0,
        opts.output@.len() == 0 && title is None ==> !(loc is SubDir),
        opts.nsfw ==> !(loc is Default) && location_dir(loc) == "nsfw"@,
        !opts.nsfw && opts.kpics ==> !(loc is Default) && location_dir(loc) == "kpics"@,
        !opts.nsfw && !opts.kpics ==> location_dir(loc) == "scraped"@,
{
}

/// Where the images of the scraped data go, and which images they are.
pub fn plan_download(opts: &Options, data: ScrapeData) -> (r: DownloadPlan)
    requires
        plannable(data),
    ensures
        location_is(r.location, save_dir_spec(*opts), save_sub_dir_spec(*opts, field_text(data.fields.title))),
        r.images@ == images_spec(data),
        opts.output@.len() > 0 ==> r.location is SubDir && r.location->SubDir_sub_dir@ == opts.output@,
        opts.output@.len() == 0 && data.fields.title is Text ==> r.location is SubDir
            && r.location->SubDir_sub_dir@ == data.fields.title->Text_0@,
        opts.output@.len() == 0 && !(data.fields.title is Text) ==> !(r.location is SubDir),
        opts.nsfw ==> !(r.location is Default) && location_dir(r.location) == "nsfw"@,
        !opts.nsfw && opts.kpics ==> !(r.location is Default) && location_dir(r.location) == "kpics"@,
        data.images is List ==> r.images@ == data.images->List_0@,
        !(data.images is List) ==> r.images@ == seq![data.fields],
{
    let title = match &data.fields.title {
        Field::Text(t) => Some(t.clone()),
        _ => None,
    };
    let sub_dir = if !opts.output.as_str().is_empty() {
        Some(opts.output.clone())
    } else {
        title
    };
    let location = if opts.nsfw {
        match sub_dir {
            Some(s) => SaveLocation::SubDir { dir: owned("nsfw"), sub_dir: s },
            None => SaveLocation::Dir { dir: owned("nsfw") },
        }
    } else if opts.kpics {
        match sub_dir {
            Some(s) => SaveLocation::SubDir { dir: owned("kpics"), sub_dir: s },
            None => SaveLocation::Dir { dir: owned("kpics") },
        }
    } else {
        match sub_dir {
            Some(s) => SaveLocation::SubDir { dir: owned("scraped"), sub_dir: s },
            None => SaveLocation::Default,
        }
    };
    let images = data.images_of();
    DownloadPlan { location, images }
}

/// `<home>/Pictures/scraped/`.
pub fn default_location(home: &str) -> (r: String)
    ensures
        r@ == home@ + "/Pictures/scraped/"@,
{
    let mut r = owned(home);
    push_text(&mut r, "/Pictures/scraped/");
    r
}

/// `<home>/Pictures/<dir>/`.
pub fn custom_location(home: &str, dir: &str) -> (r: String)
    ensures
        r@ == home@ + "/Pictures/"@ + dir@ + "/"@,
{
    let mut r = owned(home);
    push_text(&mut r, "/Pictures/");
    push_text(&mut r, dir);
    push_text(&mut r, "/");
    r
}

/// `<home>/Pictures/<dir>/<sub_dir>`.
pub fn custom_location_with_sub_dir(home: &str, dir: &str, sub_dir: &str) -> (r: String)
    ensures
        r@ == home@ + "/Pictures/"@ + dir@ + "/"@ + sub_dir@,
{
    let mut r = owned(home);
    push_text(&mut r, "/Pictures/");
    push_text(&mut r, dir);
    push_text(&mut r, "/");
    push_text(&mut r, sub_dir);
    r
}

/// The path of a location in the home directory `home`.
pub open spec fn location_path_spec(home: Seq<char>, loc: SaveLocation) -> Seq<char> {
    match loc {
        SaveLocation::Default => home + "/Pictures/scraped/"@,
        SaveLocation::Dir { dir } => home + "/Pictures/"@ + dir@ + "/"@,
        SaveLocation::SubDir { dir, sub_dir } => home + "/Pictures/"@ + dir@ + "/"@ + sub_dir@,
    }
}

/// The path of a location in the home directory `home`.
pub fn location_path(home: &str, loc: &SaveLocation) -> (r: String)
    ensures
        r@ == location_path_spec(home@, *loc),
        loc is Default ==> r@ == home@ + "/Pictures/scraped/"@,
        loc matches SaveLocation::Dir { dir } ==> r@ == home@ + "/Pictures/"@ + dir@ + "/"@,
        loc matches SaveLocation::SubDir { dir, sub_dir } ==> r@ == home@ + "/Pictures/"@ + dir@
            + "/"@ + sub_dir@,
{
    match loc {
        SaveLocation::Default => default_location(home),
        SaveLocation::Dir { dir } => custom_location(home, dir.as_str()),
        SaveLocation::SubDir { dir, sub_dir } => custom_location_with_sub_dir(
            home,
            dir.as_str(),
            sub_dir.as_str(),
        ),
    }
}

/// The file type of an image: its `ext`, else the extension at the end of
/// its link; `None` where it has neither.
pub open spec fn filetype_spec(img: Image) -> Option<Seq<char>> {
    match img.ext {
        Field::Text(e) => Some(e@),
        Field::Other => None,
        Field::Absent => match field_text(img.link) {
            None => None,
            Some(l) => match regex_captures(EXTENSION_PATTERN@, l) {
                Some(g) => group(g, 1),
                None => None,
            },
        },
    }
}

/// The name of an image before its extension: the `--title` value where it
/// is given, else the image's title, else its id; `None` where it has none.
pub open spec fn base_name_spec(opts: Options, img: Image) -> Option<Seq<char>> {
    if opts.title@.len() > 0 {
        Some(opts.title@)
    } else {
        match img.title {
            Field::Text(t) => Some(t@),
            Field::Absent => field_text(img.id),
            Field::Other => None,
        }
    }
}

/// Whether an image can be named: the extension pattern compiles and the
/// image has a file type and a name.
pub open spec fn nameable(opts: Options, img: Image) -> bool {
    &&& regex_compiles(EXTENSION_PATTERN@)
    &&& filetype_spec(img) is Some
    &&& base_name_spec(opts, img) is Some
}

/// The file name of an image: `<name>.<type>` with spaces replaced by `_`.
pub open spec fn image_filename_spec(opts: Options, img: Image) -> Seq<char> {
    replaced(base_name_spec(opts, img)->0 + seq!['.'] + filetype_spec(img)->0, ' ', '_')
}

fn filetype(img: &Image) -> (r: Option<String>)
    requires
        regex_compiles(EXTENSION_PATTERN@),
    ensures
        opt_chars(r) == filetype_spec(*img),
{
    match &img.ext {
        Field::Text(e) => Some(e.clone()),
        Field::Other => None,
        Field::Absent => match &img.link {
            Field::Text(l) => match capture_groups(EXTENSION_PATTERN, l.as_str()) {
                Some(g) => group_at(&g, 1),
                None => None,
            },
            _ => None,
        },
    }
}

fn base_name(opts: &Options, img: &Image) -> (r: Option<String>)
    ensures
        opt_chars(r) == base_name_spec(*opts, *img),
{
    if !opts.title.as_str().is_empty() {
        Some(opts.title.clone())
    } else {
        match &img.title {
            Field::Text(t) => Some(t.clone()),
            Field::Absent => match &img.id {
                Field::Text(i) => Some(i.clone()),
                _ => None,
            },
            Field::Other => None,
        }
    }
}

/// The file name that an image is saved under, before it is made unique.
pub fn image_filename(opts: &Options, img: &Image) -> (r: String)
    requires
        nameable(*opts, *img),
    ensures
        r@ == image_filename_spec(*opts, *img),
        !r@.contains(' '),
        opts.title@.len() > 0 ==> r@ == replaced(opts.title@ + seq!['.'] + filetype_spec(*img)->0, ' ', '_'),
        opts.title@.len() == 0 && img.title is Text ==> r@ == replaced(
            img.title->Text_0@ + seq!['.'] + filetype_spec(*img)->0,
            ' ',
            '_',
        ),
        opts.title@.len() == 0 && img.title is Absent ==> r@ == replaced(
            img.id->Text_0@ + seq!['.'] + filetype_spec(*img)->0,
            ' ',
            '_',
        ),
        img.ext is Text ==> filetype_spec(*img) == Some(img.ext->Text_0@),
{
    let t = match filetype(img) {
        Some(t) => t,
        None => String::new(),
    };
    let b = match base_name(opts, img) {
        Some(b) => b,
        None => String::new(),
    };
    let ghost bv = b@;
    let mut name = b;
    push_char(&mut name, '.');
    push_text(&mut name, t.as_str());
    assert(name@ =~= bv + seq!['.'] + t@);
    let r = replace_char(name.as_str(), ' ', '_');
    proof { crate::text::lemma_replaced_lacks(name@, ' ', '_'); }
    r
}

/// The file name of an image, where it can be named.
pub fn try_image_filename(opts: &Options, img: &Image) -> (r: Option<String>)
    ensures
        r is Some <==> nameable(*opts, *img),
        r matches Some(n) ==> n@ == image_filename_spec(*opts, *img),
        r is Some && opts.title@.len() > 0 ==> r->0@ == replaced(
            opts.title@ + seq!['.'] + filetype_spec(*img)->0,
            ' ',
            '_',
        ),
        r is Some && opts.title@.len() == 0 && img.title is Text ==> r->0@ == replaced(
            img.title->Text_0@ + seq!['.'] + filetype_spec(*img)->0,
            ' ',
            '_',
        ),
        r is Some && opts.title@.len() == 0 && img.title is Absent ==> r->0@ == replaced(
            img.id->Text_0@ + seq!['.'] + filetype_spec(*img)->0,
            ' ',
            '_',
        ),
{
    if !pattern_compiles(EXTENSION_PATTERN) {
        return None;
    }
    if filetype(img).is_some() && base_name(opts, img).is_some() {
        Some(image_filename(opts, img))
    } else {
        None
    }
}

/// The name of the `position`-th image (counting from 1) with
/// `--add-ordering`: the position, `_`, and the name.
pub open spec fn ordered_spec(position: nat, name: Seq<char>) -> Seq<char> {
    decimal(position) + seq!['_'] + name
}

/// The file name with the image's position in front, where `--add-ordering`
/// asks for it; the name unchanged otherwise.
pub fn ordered_filename(opts: &Options, position: u64, name: String) -> (r: String)
    ensures
        r@ == if opts.add_ordering { ordered_spec(position as nat, name@) } else { name@ },
        opts.add_ordering ==> r@ == decimal(position as nat) + seq!['_'] + name@,
        !opts.add_ordering ==> r@ == name@,
{
    if opts.add_ordering {
        let mut r = to_decimal(position);
        push_char(&mut r, '_');
        push_text(&mut r, name.as_str());
        r
    } else {
        name
    }
}

/// The seconds to wait after the `index`-th of `count` steps: `seconds`,
/// except after the last step.
pub fn pause_after(seconds: u64, index: usize, count: usize) -> (r: u64)
    ensures
        r == if index + 1 < count { seconds } else { 0 },
{
    if index < count && index + 1 < count {
        seconds
    } else {
        0
    }
}

/// The downloads of one URL: how many succeeded and how many failed.
#[derive(Debug, Clone, Copy, PartialEq, Eq, Structural)]
pub struct Tally {
    pub count: u64,
    pub failed: u64,
}

impl Tally {
    /// No download yet.
    pub fn new() -> (r: Tally)
        ensures
            r.count == 0,
            r.failed == 0,
    {
        Tally { count: 0, failed: 0 }
    }

    /// Counts one download, as a success or a failure (a count stays at
    /// `u64::MAX` once there).
    pub fn record(&mut self, downloaded: bool)
        ensures
            downloaded ==> final(self).count == if old(self).count < u64::MAX {
                old(self).count + 1
            } else {
                old(self).count as int
            },
            downloaded ==> final(self).failed == old(self).failed,
            !downloaded ==> final(self).failed == if old(self).failed < u64::MAX {
                old(self).failed + 1
            } else {
                old(self).failed as int
            },
            !downloaded ==> final(self).count == old(self).count,
    {
        if downloaded {
            self.count = self.count.saturating_add(1);
        } else {
            self.failed = self.failed.saturating_add(1);
        }
    }

    /// Whether any download failed, which the summary reports.
    pub fn any_failed(&self) -> (r: bool)
        ensures
            r == (self.failed > 0),
    {
        self.failed > 0
    }
}

/// `s` where there is more than one, else nothing.
pub open spec fn plural_spec(n: nat) -> Seq<char> {
    if n > 1 {
        "s"@
    } else {
        ""@
    }
}

/// The plural ending for a count.
pub fn plural_suffix(n: u64) -> (r: &'static str)
    ensures
        r@ == plural_spec(n as nat),
        n > 1 ==> r@ == "s"@,
        n <= 1 ==> r@.len() == 0,
{
    proof {
        reveal_strlit("");
    }
    if n > 1 {
        "s"
    } else {
        ""
    }
}

/// `<count> image` or `<count> images`, as the summary of a URL says it.
pub fn count_summary(count: u64) -> (r: String)
    ensures
        r@ == decimal(count as nat) + " image"@ + plural_spec(count as nat),
        count > 1 ==> r@ == decimal(count as nat) + " images"@,
        count <= 1 ==> r@ == decimal(count as nat) + " image"@,
{
    let mut r = to_decimal(count);
    push_text(&mut r, " image");
    push_text(&mut r, plural_suffix(count));
    proof {
        reveal_strlit(" image");
        reveal_strlit(" images");
        reveal_strlit("s");
        reveal_strlit("");
        assert(" image"@ + "s"@ =~= " images"@);
        assert(" image"@ + ""@ =~= " image"@);
        assert(r@ =~= decimal(count as nat) + (" image"@ + plural_spec(count as nat)));
    }
    r
}

/// The file name keeps the whole base name: before the `.` that starts the
/// file type stand exactly the base name's characters (spaces as `_`).
pub proof fn lemma_file_name_keeps_base(base: Seq<char>, filetype: Seq<char>)
    ensures
        replaced(base + seq!['.'] + filetype, ' ', '_').len() == base.len() + 1 + filetype.len(),
        replaced(base + seq!['.'] + filetype, ' ', '_').subrange(0, base.len() as int) == replaced(
            base,
            ' ',
            '_',
        ),
        replaced(base + seq!['.'] + filetype, ' ', '_')[base.len() as int] == '.',
{
    let n = base + seq!['.'] + filetype;
    assert(n[base.len() as int] == '.');
    assert(replaced(n, ' ', '_').subrange(0, base.len() as int) =~= replaced(base, ' ', '_'));
}

/// Without `--title`, an image with a title is named after its whole
/// title; with `--title`, after the whole `--title` value.
pub proof fn lemma_image_named_by_title(opts: Options, img: Image)
    requires
        nameable(opts, img),
    ensures
        opts.title@.len() > 0 ==> image_filename_spec(opts, img) == replaced(
            opts.title@ + seq!['.'] + filetype_spec(img)->0,
            ' ',
            '_',
        ),
        opts.title@.len() == 0 && img.title is Text ==> image_filename_spec(opts, img) == replaced(
            img.title->Text_0@ + seq!['.'] + filetype_spec(img)->0,
            ' ',
            '_',
        ),
        opts.title@.len() == 0 && img.title is Text ==> image_filename_spec(opts, img).subrange(
            0,
            img.title->Text_0@.len() as int,
        ) == replaced(img.title->Text_0@, ' ', '_'),
{
    if opts.title@.len() == 0 && img.title is Text {
        lemma_file_name_keeps_base(img.title->Text_0@, filetype_spec(img)->0);
    }
}

/// A direct link is downloaded as its one image, saved (without `--title`)
/// as `<id>.<ext>` from the link's file name, spaces replaced by `_`.
pub proof fn lemma_direct_link_file_name(opts: Options, d: ScrapeData, url: Seq<char>, id: Seq<char>, ext: Seq<char>)
    requires
        direct_data(d, url, id, ext),
        opts.title@.len() == 0,
        regex_compiles(EXTENSION_PATTERN@),
    ensures
        plannable(d),
        images_spec(d) == seq![d.fields],
        nameable(opts, d.fields),
        image_filename_spec(opts, d.fields) == replaced(id + seq!['.'] + ext, ' ', '_'),
{
}

/// With `--title`, every image that has a file type is named after the
/// title, whatever its own title or id.
pub proof fn lemma_title_names_every_image(opts: Options, img: Image)
    requires
        opts.title@.len() > 0,
        regex_compiles(EXTENSION_PATTERN@),
        filetype_spec(img) is Some,
    ensures
        nameable(opts, img),
        image_filename_spec(opts, img) == replaced(opts.title@ + seq!['.'] + filetype_spec(img)->0, ' ', '_'),
{
}

} // verus!
