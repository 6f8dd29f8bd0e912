//! The data scraped for a URL: a title and one or more images.

use vstd::prelude::*;

verus! {

/// A field of scraped data: absent (or null), text, or a value of another
/// kind, which the scraper cannot use where it reads the field.
#[derive(Debug, Clone, PartialEq, Eq)]
pub enum Field {
    Absent,
    Text(String),
    Other,
}

/// The text of a field; `None` for an absent field or one of another kind.
pub open spec fn field_text(f: Field) -> Option<Seq<char>> {
    match f {
        Field::Text(s) => Some(s@),
        _ => None,
    }
}

/// One downloadable item, or the top level of the scraped data, with the
/// fields that the scraper reads.
#[derive(Debug, Clone, PartialEq, Eq)]
pub struct Image {
    pub link: Field,
    pub id: Field,
    pub ext: Field,
    pub title: Field,
}

/// The list of images of scraped data: absent (or null), a list, or a value
/// of another kind.
#[derive(Debug, Clone, PartialEq, Eq)]
pub enum Images {
    Absent,
    List(Vec<Image>),
    Other,
}

/// The data scraped for one URL: its own fields (the album title, or the
/// single image itself) and, for an album, the list of its images.
#[derive(Debug, Clone, PartialEq, Eq)]
pub struct ScrapeData {
    pub fields: Image,
    pub images: Images,
}

/// The images of scraped data: its list where it has one, else the data
/// itself as the only image.
pub open spec fn images_spec(data: ScrapeData) -> Seq<Image> {
    match data.images {
        Images::List(v) => v@,
        _ => seq![data.fields],
    }
}

/// A text field.
pub fn text_field(s: String) -> (r: Field)
    ensures
        field_text(r) == Some(s@),
{
    Field::Text(s)
}

impl Image {
    /// An image with no fields.
    pub fn empty() -> (r: Image)
        ensures
            r.link is Absent,
            r.id is Absent,
            r.ext is Absent,
            r.title is Absent,
    {
        Image { link: Field::Absent, id: Field::Absent, ext: Field::Absent, title: Field::Absent }
    }
}

impl ScrapeData {
    /// The images to download.
    pub fn images_of(self) -> (r: Vec<Image>)
        ensures
            r@ == images_spec(self),
    {
        match self.images {
            Images::List(v) => v,
            _ => {
                let mut v = Vec::new();
                v.push(self.fields);
                v
            },
        }
    }
}

} // verus!
