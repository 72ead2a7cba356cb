//! The scraped source: a search page leads to a detail page, whose fields
//! are each read on their own, and a book becomes a summary.

use vstd::prelude::*;

use crate::color::{outcome_accent, ColorError};
use crate::html::{
    attrs_view, nested_attrs, nested_texts, select_attrs, select_nested_attrs,
    select_nested_texts, select_texts, selected_attrs, selected_texts, texts_view,
};
use crate::numfmt::{decimal, digit_char, push_decimal};
use crate::parse::{page_count_spec, parse_page_count, parse_rating, rating_display, rating_spec, rating_text};
use crate::summary::{
    agree_except_color, make_field, opt_chars, truncate_description, truncated, Field,
    FieldModel, MediaSummary, Rgb, SummaryModel,
};
use crate::text::{owned, push_str};

verus! {

/// What a detail page gave; each field is present only where its own
/// extraction succeeded.
#[derive(Clone, Debug)]
pub struct Book {
    pub title: Option<String>,
    pub author: Option<String>,
    /// Rating out of five, in hundredths.
    pub rating: Option<u32>,
    pub thumbnail_url: Option<String>,
    pub description: Option<String>,
    pub page_count: Option<u16>,
    pub published_date: Option<String>,
    pub book_url: Option<String>,
}

pub struct BookModel {
    pub title: Option<Seq<char>>,
    pub author: Option<Seq<char>>,
    pub rating: Option<u32>,
    pub thumbnail_url: Option<Seq<char>>,
    pub description: Option<Seq<char>>,
    pub page_count: Option<u16>,
    pub published_date: Option<Seq<char>>,
    pub book_url: Option<Seq<char>>,
}

impl View for Book {
    type V = BookModel;

    open spec fn view(&self) -> BookModel {
        BookModel {
            title: opt_chars(self.title),
            author: opt_chars(self.author),
            rating: self.rating,
            thumbnail_url: opt_chars(self.thumbnail_url),
            description: opt_chars(self.description),
            page_count: self.page_count,
            published_date: opt_chars(self.published_date),
            book_url: opt_chars(self.book_url),
        }
    }
}

/// Why the search step found no detail page.
#[derive(Clone, Copy, Debug, PartialEq, Eq, Structural)]
pub enum ScrapeError {
    /// The results table, its first link or the link's target is missing:
    /// no match, or a page laid out otherwise.
    NoResults,
}

/// The percent-encoding of a text, as a URL query component.
pub uninterp spec fn url_encoded(s: Seq<char>) -> Seq<char>;

/// Characters that percent-encoding keeps as they are.
pub open spec fn unreserved(c: char) -> bool {
    ('0' <= c && c <= '9') || ('A' <= c && c <= 'Z') || ('a' <= c && c <= 'z') || c == '-' || c
        == '.' || c == '_' || c == '~'
}

/// An upper-case hexadecimal digit, for `d < 16`.
pub open spec fn hex_digit(d: u32) -> char {
    if d < 10 {
        digit_char(d as nat)
    } else if d == 10 {
        'A'
    } else if d == 11 {
        'B'
    } else if d == 12 {
        'C'
    } else if d == 13 {
        'D'
    } else if d == 14 {
        'E'
    } else {
        'F'
    }
}

/// The percent-encoding of an ASCII text: unreserved characters stay, every
/// other one becomes `%` and its code in two upper-case hex digits.
pub open spec fn ascii_encoded(s: Seq<char>) -> Seq<char>
    decreases s.len(),
{
    if s.len() == 0 {
        s
    } else {
        let c = s.last();
        ascii_encoded(s.drop_last()) + if unreserved(c) {
            seq![c]
        } else {
            seq!['%', hex_digit((c as u32) / 16), hex_digit((c as u32) % 16)]
        }
    }
}

/// Relies on urlencoding::encode: every byte of the UTF-8 text but ASCII
/// letters, digits and `-_.~` becomes `%XX`, in upper-case hex.
#[verifier::external_body]
fn encode_component(s: &str) -> (r: String)
    ensures
        r@ == url_encoded(s@),
        (forall|i: int| 0 <= i < s@.len() ==> (#[trigger] s@[i] as u32) < 128) ==> r@
            == ascii_encoded(s@),
{
    urlencoding::encode(s).into_owned()
}

pub open spec fn search_url_spec(title: Seq<char>) -> Seq<char> {
    "https://www.goodreads.com/search?utf8=✓&q="@ + url_encoded(title)
        + "&search_type=books&search[field]=on"@
}

/// The search-results page to fetch for a title.
pub fn search_url(title: &str) -> (r: String)
    ensures
        r@ == search_url_spec(title@),
        (forall|i: int| 0 <= i < title@.len() ==> (#[trigger] title@[i] as u32) < 128) ==> r@
            == "https://www.goodreads.com/search?utf8=✓&q="@ + ascii_encoded(title@)
            + "&search_type=books&search[field]=on"@,
{
    let mut r = owned("https://www.goodreads.com/search?utf8=✓&q=");
    let enc = encode_component(title);
    push_str(&mut r, enc.as_str());
    push_str(&mut r, "&search_type=books&search[field]=on");
    r
}

/// The detail page that a search-results page leads to: the target of the
/// first link in the first results table.
pub open spec fn detail_url_spec(search_page: Seq<char>) -> Result<Seq<char>, ScrapeError> {
    detail_from_links(first_of(nested_attrs(search_page, "table.tableList"@, "a"@, "href"@)))
}

/// The first element of a sequence, if it has one.
pub open spec fn first_of<T>(s: Seq<T>) -> Option<T> {
    if s.len() > 0 {
        Some(s[0])
    } else {
        None
    }
}

fn take_first<T>(v: Vec<T>) -> (r: Option<T>)
    ensures
        r == first_of(v@),
{
    if v.len() > 0 {
        let mut v = v;
        Some(v.swap_remove(0))
    } else {
        None
    }
}

pub open spec fn links_view(hrefs: Option<Vec<Option<String>>>) -> Option<Seq<Option<Seq<char>>>> {
    match hrefs {
        Some(v) => Some(attrs_view(v)),
        None => None,
    }
}

/// The detail page that the links of the first results table lead to:
/// the first link's target, made absolute.
pub open spec fn detail_from_links(hrefs: Option<Seq<Option<Seq<char>>>>) -> Result<Seq<char>, ScrapeError> {
    match hrefs {
        None => Err(ScrapeError::NoResults),
        Some(hrefs) => if hrefs.len() == 0 {
            Err(ScrapeError::NoResults)
        } else {
            match hrefs[0] {
                Some(h) => Ok("https://www.goodreads.com"@ + h),
                None => Err(ScrapeError::NoResults),
            }
        },
    }
}

/// Picks the detail page out of the link targets of the first results
/// table (`None` when there is no such table).
pub fn detail_url_from_links(hrefs: Option<Vec<Option<String>>>) -> (r: Result<String, ScrapeError>)
    ensures
        match r {
            Ok(u) => detail_from_links(links_view(hrefs)) == Ok::<Seq<char>, ScrapeError>(u@),
            Err(e) => detail_from_links(links_view(hrefs)) == Err::<Seq<char>, ScrapeError>(e),
        },
{
    match hrefs {
        None => Err(ScrapeError::NoResults),
        Some(hrefs) => {
            if hrefs.len() == 0 {
                Err(ScrapeError::NoResults)
            } else {
                let mut hrefs = hrefs;
                let ghost before = hrefs@;
                let first = hrefs.swap_remove(0);
                assert(before.map_values(|o: Option<String>| opt_chars(o))[0] == opt_chars(first));
                match first {
                    Some(h) => {
                        let mut u = owned("https://www.goodreads.com");
                        push_str(&mut u, h.as_str());
                        Ok(u)
                    },
                    None => Err(ScrapeError::NoResults),
                }
            }
        },
    }
}

/// Finds the detail page in a search-results page.
pub fn detail_url(search_page: &str) -> (r: Result<String, ScrapeError>)
    ensures
        match r {
            Ok(u) => detail_url_spec(search_page@) == Ok::<Seq<char>, ScrapeError>(u@),
            Err(e) => detail_url_spec(search_page@) == Err::<Seq<char>, ScrapeError>(e),
        },
{
    let tables = select_nested_attrs(search_page, "table.tableList", "a", "href");
    let ghost groups = tables@;
    let first = take_first(tables);
    proof {
        if groups.len() > 0 {
            assert(groups.map_values(|g: Vec<Option<String>>| attrs_view(g))[0] == attrs_view(
                groups[0],
            ));
        }
    }
    detail_url_from_links(first)
}

pub open spec fn first_text(texts: Seq<Seq<char>>) -> Option<Seq<char>> {
    if texts.len() > 0 {
        Some(texts[0])
    } else {
        None
    }
}

pub open spec fn first_attr(attrs: Seq<Option<Seq<char>>>) -> Option<Seq<char>> {
    if attrs.len() > 0 {
        attrs[0]
    } else {
        None
    }
}

pub open spec fn first_rating(ratings: Seq<Seq<char>>) -> Option<u32> {
    if ratings.len() > 0 {
        rating_spec(ratings[0])
    } else {
        None
    }
}

/// Page count and publication date: the first and second paragraph of the
/// details block, when there is one.
pub open spec fn featured_details(details: Option<Seq<Seq<char>>>) -> (Option<u16>, Option<Seq<char>>) {
    match details {
        None => (None, None),
        Some(ps) => (
            if ps.len() > 0 {
                page_count_spec(ps[0])
            } else {
                None
            },
            if ps.len() > 1 {
                Some(ps[1])
            } else {
                None
            },
        ),
    }
}

/// What the selectors of a detail page matched, before any field is read.
#[derive(Clone, Debug)]
pub struct PageExtracts {
    pub titles: Vec<String>,
    pub authors: Vec<String>,
    pub ratings: Vec<String>,
    pub thumbnails: Vec<Option<String>>,
    pub descriptions: Vec<String>,
    /// The paragraphs of the first details block, if there is one.
    pub details: Option<Vec<String>>,
}

pub struct ExtractsModel {
    pub titles: Seq<Seq<char>>,
    pub authors: Seq<Seq<char>>,
    pub ratings: Seq<Seq<char>>,
    pub thumbnails: Seq<Option<Seq<char>>>,
    pub descriptions: Seq<Seq<char>>,
    pub details: Option<Seq<Seq<char>>>,
}

impl View for PageExtracts {
    type V = ExtractsModel;

    open spec fn view(&self) -> ExtractsModel {
        ExtractsModel {
            titles: texts_view(self.titles),
            authors: texts_view(self.authors),
            ratings: texts_view(self.ratings),
            thumbnails: attrs_view(self.thumbnails),
            descriptions: texts_view(self.descriptions),
            details: match self.details {
                Some(v) => Some(texts_view(v)),
                None => None,
            },
        }
    }
}

/// What a detail page's selectors match.
pub open spec fn page_extracts(page: Seq<char>) -> ExtractsModel {
    ExtractsModel {
        titles: selected_texts(page, ".Text.Text__title1"@),
        authors: selected_texts(page, ".ContributorLink__name"@),
        ratings: selected_texts(page, ".RatingStatistics__rating"@),
        thumbnails: selected_attrs(page, ".ResponsiveImage"@, "src"@),
        descriptions: selected_texts(page, ".Formatted"@),
        details: first_of(nested_texts(page, ".FeaturedDetails"@, "p"@)),
    }
}

/// The book that the matches of a detail page at `url` describe: each
/// field from its own matches alone.
pub open spec fn book_from_extracts_spec(x: ExtractsModel, url: Seq<char>) -> BookModel {
    BookModel {
        title: first_text(x.titles),
        author: first_text(x.authors),
        rating: first_rating(x.ratings),
        thumbnail_url: first_attr(x.thumbnails),
        description: first_text(x.descriptions),
        page_count: featured_details(x.details).0,
        published_date: featured_details(x.details).1,
        book_url: Some(url),
    }
}

/// The book that a detail page at `url` describes.
pub open spec fn book_spec(page: Seq<char>, url: Seq<char>) -> BookModel {
    book_from_extracts_spec(page_extracts(page), url)
}

fn first_text_of(texts: &Vec<String>) -> (r: Option<String>)
    ensures
        opt_chars(r) == first_text(texts_view(*texts)),
{
    if texts.len() > 0 {
        Some(texts[0].clone())
    } else {
        None
    }
}

fn first_attr_of(attrs: &Vec<Option<String>>) -> (r: Option<String>)
    ensures
        opt_chars(r) == first_attr(attrs_view(*attrs)),
{
    if attrs.len() > 0 {
        match &attrs[0] {
            Some(a) => Some(a.clone()),
            None => None,
        }
    } else {
        None
    }
}

/// Runs every selector of a detail page.
pub fn extract_page(page: &str) -> (r: PageExtracts)
    ensures
        r@ == page_extracts(page@),
{
    let blocks = select_nested_texts(page, ".FeaturedDetails", "p");
    let ghost groups = blocks@;
    let details = take_first(blocks);
    proof {
        if groups.len() > 0 {
            assert(groups.map_values(|g: Vec<String>| texts_view(g))[0] == texts_view(groups[0]));
        }
    }
    PageExtracts {
        titles: select_texts(page, ".Text.Text__title1"),
        authors: select_texts(page, ".ContributorLink__name"),
        ratings: select_texts(page, ".RatingStatistics__rating"),
        thumbnails: select_attrs(page, ".ResponsiveImage", "src"),
        descriptions: select_texts(page, ".Formatted"),
        details,
    }
}

/// Reads each field of a book out of its own matches, so that one missing
/// or malformed field leaves the others as they are.
pub fn book_from_extracts(x: &PageExtracts, url: &str) -> (r: Book)
    ensures
        r@ == book_from_extracts_spec(x@, url@),
{
    let rating = if x.ratings.len() > 0 {
        parse_rating(x.ratings[0].as_str())
    } else {
        None
    };
    let (page_count, published_date) = match &x.details {
        None => (None, None),
        Some(ps) => {
            let page_count = if ps.len() > 0 {
                parse_page_count(ps[0].as_str())
            } else {
                None
            };
            let published_date = if ps.len() > 1 {
                Some(ps[1].clone())
            } else {
                None
            };
            (page_count, published_date)
        },
    };
    Book {
        title: first_text_of(&x.titles),
        author: first_text_of(&x.authors),
        rating,
        thumbnail_url: first_attr_of(&x.thumbnails),
        description: first_text_of(&x.descriptions),
        page_count,
        published_date,
        book_url: Some(owned(url)),
    }
}

/// Reads a detail page at `url`.
pub fn book_from_page(page: &str, url: &str) -> (r: Book)
    ensures
        r@ == book_spec(page@, url@),
{
    book_from_extracts(&extract_page(page), url)
}

/// The facts a book adds, in their fixed order: author, publication date,
/// page count, rating.
pub open spec fn book_fields(b: BookModel) -> Seq<FieldModel> {
    let a: Seq<FieldModel> = match b.author {
        Some(x) => seq![("Author"@, x, true)],
        None => Seq::empty(),
    };
    let p: Seq<FieldModel> = match b.published_date {
        Some(x) => seq![("Published"@, x, true)],
        None => Seq::empty(),
    };
    let c: Seq<FieldModel> = match b.page_count {
        Some(n) => seq![("Page Count"@, decimal(n as nat), true)],
        None => Seq::empty(),
    };
    let r: Seq<FieldModel> = match b.rating {
        Some(h) => seq![("Rating"@, rating_text(h as nat), true)],
        None => Seq::empty(),
    };
    a + p + c + r
}

/// The summary of a book; `accent` is the colour taken from its thumbnail,
/// if any was.
pub open spec fn book_summary_spec(b: BookModel, accent: Option<Rgb>) -> SummaryModel {
    SummaryModel {
        title: b.title,
        link_url: b.book_url,
        thumbnail_url: b.thumbnail_url,
        description: match b.description {
            Some(d) => Some(truncated(d)),
            None => None,
        },
        fields: book_fields(b),
        accent_color: if b.thumbnail_url is Some {
            accent
        } else {
            None
        },
    }
}

fn push_field_if(fields: &mut Vec<Field>, label: &str, value: &Option<String>)
    ensures
        final(fields)@.map_values(|f: Field| f@) == old(fields)@.map_values(|f: Field| f@) + match opt_chars(*value) {
            Some(x) => seq![(label@, x, true)],
            None => Seq::<FieldModel>::empty(),
        },
{
    match value {
        Some(x) => {
            fields.push(make_field(label, x.clone(), true));
        },
        None => {},
    }
    assert(final(fields)@.map_values(|f: Field| f@) =~= old(fields)@.map_values(|f: Field| f@) + match opt_chars(*value) {
        Some(x) => seq![(label@, x, true)],
        None => Seq::<FieldModel>::empty(),
    });
}

/// Assembles the summary of a book.
pub fn book_summary(book: &Book, accent: Option<Rgb>) -> (r: MediaSummary)
    ensures
        r@ == book_summary_spec(book@, accent),
{
    let mut fields: Vec<Field> = Vec::new();
    push_field_if(&mut fields, "Author", &book.author);
    push_field_if(&mut fields, "Published", &book.published_date);
    let count = match book.page_count {
        Some(n) => {
            let mut v = String::new();
            push_decimal(&mut v, n as u64);
            Some(v)
        },
        None => None,
    };
    push_field_if(&mut fields, "Page Count", &count);
    let rating = match book.rating {
        Some(h) => Some(rating_display(h)),
        None => None,
    };
    push_field_if(&mut fields, "Rating", &rating);
    assert(fields@.map_values(|f: Field| f@) =~= book_fields(book@));
    let description = match &book.description {
        Some(d) => Some(truncate_description(d.as_str())),
        None => None,
    };
    let accent_color = match &book.thumbnail_url {
        Some(_) => accent,
        None => None,
    };
    MediaSummary {
        title: book.title.clone(),
        link_url: book.book_url.clone(),
        thumbnail_url: book.thumbnail_url.clone(),
        description,
        fields,
        accent_color,
    }
}

/// A failed colour extraction changes nothing but the colour: the book's
/// summary then has no accent colour and agrees in every other part with
/// the one made with any colour that extraction could have given.
pub proof fn lemma_book_color_failure_only_drops_color(
    b: BookModel,
    outcome: Result<Rgb, ColorError>,
    c: Rgb,
)
    requires
        outcome is Err,
    ensures
        book_summary_spec(b, outcome_accent(outcome)).accent_color is None,
        agree_except_color(
            book_summary_spec(b, outcome_accent(outcome)),
            book_summary_spec(b, Some(c)),
        ),
{
}

} // verus!
