use mediabot::book::{
    book_from_extracts, book_from_page, book_summary, detail_url, detail_url_from_links,
    search_url, Book, PageExtracts, ScrapeError,
};
use mediabot::color::{accent_of, accent_of_palette, color_from_fetch, extract_accent_color, ColorError};
use mediabot::image_search::{
    first_image_link, link_from_items, search_request, ImageSearchError, SearchConfig,
};
use mediabot::movie::{
    first_hit, metadata_api_key, movie_summary, title_of, LookupError, MetadataConfig, MovieDetails,
    MovieHit,
};
use mediabot::summary::{Field, MediaSummary, Rgb};

fn jaws() -> MovieHit {
    MovieHit {
        id: 578,
        title: "Jaws".to_string(),
        release_year: Some(1975),
        overview: "A shark terrorizes a beach town.".to_string(),
        poster_path: Some("/jaws.jpg".to_string()),
    }
}

fn jaws_details() -> MovieDetails {
    MovieDetails {
        budget: 7000000,
        revenue: 470700000,
        runtime: Some(124),
        imdb_id: Some("tt0073195".to_string()),
    }
}

fn field(s: &MediaSummary, i: usize) -> (String, String, bool) {
    let f: &Field = &s.fields[i];
    (f.label.clone(), f.value.clone(), f.inline)
}

fn same_but_color(a: &MediaSummary, b: &MediaSummary) -> bool {
    a.title == b.title
        && a.link_url == b.link_url
        && a.thumbnail_url == b.thumbnail_url
        && a.description == b.description
        && a.fields.len() == b.fields.len()
        && (0..a.fields.len()).all(|i| field(a, i) == field(b, i))
}

#[test]
fn jaws_summary_fields() {
    let s = movie_summary(&jaws(), &Some(jaws_details()), None);
    assert_eq!(s.title.as_deref(), Some("Jaws (1975)"));
    assert_eq!(s.fields.len(), 3);
    assert_eq!(field(&s, 0), ("Budget".to_string(), "$7,000,000".to_string(), true));
    assert_eq!(field(&s, 1), ("Revenue".to_string(), "$470,700,000".to_string(), true));
    assert_eq!(field(&s, 2), ("Runtime".to_string(), "124 minutes".to_string(), true));
    assert_eq!(s.link_url.as_deref(), Some("https://www.imdb.com/title/tt0073195"));
    assert_eq!(s.thumbnail_url.as_deref(), Some("https://image.tmdb.org/t/p/original/jaws.jpg"));
}

#[test]
fn zero_budget_still_renders() {
    let d = MovieDetails { budget: 0, revenue: 0, runtime: None, imdb_id: None };
    let s = movie_summary(&jaws(), &Some(d), None);
    assert_eq!(s.fields.len(), 2);
    assert_eq!(field(&s, 0).1, "$0");
    assert_eq!(field(&s, 1).1, "$0");
    assert_eq!(s.link_url, None);
}

#[test]
fn failed_details_keep_title_and_description() {
    let s = movie_summary(&jaws(), &None, None);
    let full = movie_summary(&jaws(), &Some(jaws_details()), None);
    assert_eq!(s.title.as_deref(), Some("Jaws (1975)"));
    assert_eq!(s.description.as_deref(), Some("A shark terrorizes a beach town."));
    assert_eq!(s.title, full.title);
    assert_eq!(s.description, full.description);
    assert!(s.fields.is_empty());
    assert_eq!(s.link_url, None);
}

#[test]
fn title_without_year_and_before_year_zero() {
    let mut hit = jaws();
    hit.release_year = None;
    assert_eq!(title_of(&hit), "Jaws");
    hit.release_year = Some(-44);
    assert_eq!(title_of(&hit), "Jaws (-44)");
}

#[test]
fn long_overview_is_truncated() {
    let mut hit = jaws();
    hit.overview = "x".repeat(700);
    let s = movie_summary(&hit, &None, None);
    assert_eq!(s.description.unwrap().chars().count(), 503);
}

#[test]
fn first_hit_rules() {
    assert_eq!(first_hit(None).unwrap_err(), LookupError::SourceUnavailable);
    assert_eq!(first_hit(Some(vec![])).unwrap_err(), LookupError::NotFound);
    let mut other = jaws();
    other.id = 1;
    other.title = "Jaws 2".to_string();
    let hit = first_hit(Some(vec![jaws(), other])).unwrap();
    assert_eq!(hit.id, 578);
    assert_eq!(hit.title, "Jaws");
}

#[test]
fn color_failure_changes_only_color() {
    let red = Rgb { r: 200, g: 10, b: 10 };
    let failed = accent_of(color_from_fetch(None));
    assert_eq!(failed, None);
    let without = movie_summary(&jaws(), &Some(jaws_details()), failed);
    let with = movie_summary(&jaws(), &Some(jaws_details()), Some(red));
    assert_eq!(without.accent_color, None);
    assert_eq!(with.accent_color, Some(red));
    assert!(same_but_color(&without, &with));
}

#[test]
fn no_poster_means_no_color() {
    let mut hit = jaws();
    hit.poster_path = None;
    let s = movie_summary(&hit, &None, Some(Rgb { r: 1, g: 2, b: 3 }));
    assert_eq!(s.thumbnail_url, None);
    assert_eq!(s.accent_color, None);
}

#[test]
fn color_errors() {
    assert_eq!(color_from_fetch(None), Err(ColorError::Fetch));
    assert_eq!(extract_accent_color(b"definitely not an image"), Err(ColorError::Decode));
    assert_eq!(color_from_fetch(Some(vec![1, 2, 3])), Err(ColorError::Decode));
    assert_eq!(accent_of_palette(None), Err(ColorError::NoPalette));
    assert_eq!(accent_of_palette(Some(vec![])), Err(ColorError::NoPalette));
    assert_eq!(
        accent_of_palette(Some(vec![(9, 8, 7), (1, 2, 3)])),
        Ok(Rgb { r: 9, g: 8, b: 7 })
    );
}

#[test]
fn color_of_a_red_image() {
    let img = image::RgbaImage::from_pixel(16, 16, image::Rgba([220, 20, 20, 255]));
    let mut bytes: Vec<u8> = Vec::new();
    img.write_to(&mut std::io::Cursor::new(&mut bytes), image::ImageFormat::Png).unwrap();
    let c = extract_accent_color(&bytes).unwrap();
    assert!(c.r > 150 && c.g < 80 && c.b < 80);
    assert_eq!(color_from_fetch(Some(bytes)), Ok(c));
}

#[test]
fn search_url_encodes_title() {
    assert_eq!(
        search_url("Dune Messiah & co"),
        "https://www.goodreads.com/search?utf8=✓&q=Dune%20Messiah%20%26%20co&search_type=books&search[field]=on"
    );
}

#[test]
fn search_page_without_table_has_no_results() {
    let page = "<html><body><p>Looking for a book?</p></body></html>";
    assert_eq!(detail_url(page), Err(ScrapeError::NoResults));
    let empty_table = "<html><body><table class=\"tableList\"><tr><td>none</td></tr></table></body></html>";
    assert_eq!(detail_url(empty_table), Err(ScrapeError::NoResults));
}

#[test]
fn search_page_first_link_wins() {
    let page = "<html><body><table class=\"tableList\"><tr><td>\
        <a href=\"/book/show/1.Dune\">Dune</a><a href=\"/author/2\">x</a></td></tr></table>\
        <table class=\"tableList\"><tr><td><a href=\"/book/show/9\">y</a></td></tr></table></body></html>";
    assert_eq!(detail_url(page).unwrap(), "https://www.goodreads.com/book/show/1.Dune");
}

#[test]
fn detail_links_rules() {
    assert_eq!(detail_url_from_links(None), Err(ScrapeError::NoResults));
    assert_eq!(detail_url_from_links(Some(vec![])), Err(ScrapeError::NoResults));
    assert_eq!(detail_url_from_links(Some(vec![None, Some("/b".to_string())])), Err(ScrapeError::NoResults));
    assert_eq!(
        detail_url_from_links(Some(vec![Some("/book/show/5".to_string())])).unwrap(),
        "https://www.goodreads.com/book/show/5"
    );
}

const DETAIL_PAGE: &str = "<html><body>\
    <h1 class=\"Text Text__title1\">Dune</h1>\
    <span class=\"ContributorLink__name\">Frank Herbert</span>\
    <div class=\"RatingStatistics__rating\">4.27</div>\
    <img class=\"ResponsiveImage\" src=\"https://img.example/dune.jpg\">\
    <div class=\"Formatted\">Desert planet.</div>\
    <div class=\"FeaturedDetails\"><p>412</p><p>First published 1965</p></div>\
    </body></html>";

#[test]
fn detail_page_fields() {
    let b = book_from_page(DETAIL_PAGE, "https://www.goodreads.com/book/show/1");
    assert_eq!(b.title.as_deref(), Some("Dune"));
    assert_eq!(b.author.as_deref(), Some("Frank Herbert"));
    assert_eq!(b.rating, Some(427));
    assert_eq!(b.thumbnail_url.as_deref(), Some("https://img.example/dune.jpg"));
    assert_eq!(b.description.as_deref(), Some("Desert planet."));
    assert_eq!(b.page_count, Some(412));
    assert_eq!(b.published_date.as_deref(), Some("First published 1965"));
    assert_eq!(b.book_url.as_deref(), Some("https://www.goodreads.com/book/show/1"));
}

#[test]
fn bad_rating_leaves_other_fields() {
    let page = DETAIL_PAGE.replace("4.27", "N/A");
    let b = book_from_page(&page, "u");
    assert_eq!(b.rating, None);
    assert_eq!(b.title.as_deref(), Some("Dune"));
    assert_eq!(b.page_count, Some(412));
}

#[test]
fn missing_details_block() {
    let page = "<html><body><h1 class=\"Text Text__title1\">Solo</h1></body></html>";
    let b = book_from_page(page, "u");
    assert_eq!(b.title.as_deref(), Some("Solo"));
    assert_eq!(b.author, None);
    assert_eq!(b.page_count, None);
    assert_eq!(b.published_date, None);
    assert_eq!(b.description, None);
}

#[test]
fn extracts_read_independently() {
    let x = PageExtracts {
        titles: vec!["T".to_string(), "T2".to_string()],
        authors: vec![],
        ratings: vec!["bad".to_string()],
        thumbnails: vec![None, Some("x".to_string())],
        descriptions: vec!["D".to_string()],
        details: Some(vec!["12".to_string()]),
    };
    let b = book_from_extracts(&x, "u");
    assert_eq!(b.title.as_deref(), Some("T"));
    assert_eq!(b.author, None);
    assert_eq!(b.rating, None);
    assert_eq!(b.thumbnail_url, None);
    assert_eq!(b.description.as_deref(), Some("D"));
    assert_eq!(b.page_count, Some(12));
    assert_eq!(b.published_date, None);
}

#[test]
fn book_summary_fields_in_order() {
    let b = book_from_page(DETAIL_PAGE, "https://www.goodreads.com/book/show/1");
    let s = book_summary(&b, Some(Rgb { r: 1, g: 2, b: 3 }));
    assert_eq!(s.title.as_deref(), Some("Dune"));
    assert_eq!(s.description.as_deref(), Some("Desert planet."));
    assert_eq!(s.accent_color, Some(Rgb { r: 1, g: 2, b: 3 }));
    assert_eq!(s.fields.len(), 4);
    assert_eq!(field(&s, 0), ("Author".to_string(), "Frank Herbert".to_string(), true));
    assert_eq!(field(&s, 1), ("Published".to_string(), "First published 1965".to_string(), true));
    assert_eq!(field(&s, 2), ("Page Count".to_string(), "412".to_string(), true));
    assert_eq!(field(&s, 3), ("Rating".to_string(), "4.3/5".to_string(), true));
    let failed = book_summary(&b, None);
    assert!(same_but_color(&s, &failed));
    assert_eq!(failed.accent_color, None);
}

#[test]
fn empty_book_has_nothing_made_up() {
    let b = Book {
        title: None,
        author: None,
        rating: None,
        thumbnail_url: None,
        description: None,
        page_count: None,
        published_date: None,
        book_url: None,
    };
    let s = book_summary(&b, Some(Rgb { r: 1, g: 1, b: 1 }));
    assert_eq!(s.title, None);
    assert_eq!(s.description, None);
    assert!(s.fields.is_empty());
    assert_eq!(s.accent_color, None);
}

#[test]
fn image_search_needs_credentials() {
    let no_key = SearchConfig { api_key: None, engine_id: Some("cx".to_string()) };
    assert_eq!(search_request(&no_key, "cat"), Err(ImageSearchError::Configuration));
    let no_engine = SearchConfig { api_key: Some("k".to_string()), engine_id: None };
    assert_eq!(search_request(&no_engine, "cat"), Err(ImageSearchError::Configuration));
    let ok = SearchConfig { api_key: Some("k".to_string()), engine_id: Some("cx".to_string()) };
    assert_eq!(
        search_request(&ok, "cat").unwrap(),
        "https://www.googleapis.com/customsearch/v1?key=k&searchType=image&cx=cx&q=cat"
    );
}

#[test]
fn image_search_answers() {
    assert_eq!(
        first_image_link(r#"{"items":[{"link":"https://a/1.png"},{"link":"https://a/2.png"}]}"#).unwrap(),
        "https://a/1.png"
    );
    assert_eq!(first_image_link(r#"{"items":[]}"#), Err(ImageSearchError::NotFound));
    assert_eq!(first_image_link(r#"{"kind":"x"}"#), Err(ImageSearchError::NotFound));
    assert_eq!(first_image_link(r#"{"items":[{"title":"no link"}]}"#), Err(ImageSearchError::NotFound));
    assert_eq!(first_image_link("not json"), Err(ImageSearchError::BadResponse));
    assert_eq!(link_from_items(Err(())), Err(ImageSearchError::BadResponse));
    assert_eq!(link_from_items(Ok(None)), Err(ImageSearchError::NotFound));
    assert_eq!(link_from_items(Ok(Some(vec![Some("l".to_string())]))).unwrap(), "l");
}

#[test]
fn only_the_first_results_table_counts() {
    let page = "<html><body><table class=\"tableList\"><tr><td>no link</td></tr></table>\
        <table class=\"tableList\"><tr><td><a href=\"/book/show/9\">y</a></td></tr></table></body></html>";
    assert_eq!(detail_url(page), Err(ScrapeError::NoResults));
}

#[test]
fn only_the_first_details_block_counts() {
    let page = "<html><body><div class=\"FeaturedDetails\"><p>abc</p></div>\
        <div class=\"FeaturedDetails\"><p>99</p><p>1999</p></div></body></html>";
    let b = book_from_page(page, "u");
    assert_eq!(b.page_count, None);
    assert_eq!(b.published_date, None);
}

#[test]
fn missing_movie_key_is_source_unavailable() {
    let none = MetadataConfig { api_key: None };
    assert_eq!(metadata_api_key(&none), Err(LookupError::SourceUnavailable));
    let some = MetadataConfig { api_key: Some("abc".to_string()) };
    assert_eq!(metadata_api_key(&some).unwrap(), "abc");
}

#[test]
fn search_url_encodes_ascii_in_upper_hex() {
    assert_eq!(
        search_url("a/b?c~d"),
        "https://www.goodreads.com/search?utf8=✓&q=a%2Fb%3Fc~d&search_type=books&search[field]=on"
    );
}
