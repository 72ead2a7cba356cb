//! The structured metadata source: picking the search hit and turning a hit,
//! with or without its extended details, into a summary.

use vstd::prelude::*;

use crate::color::{outcome_accent, ColorError};
use crate::numfmt::{decimal, grouped, lemma_decimal_is_digits, push_decimal, push_grouped};
use crate::summary::{
    agree_except_color, make_field, truncate_description, truncated, FieldModel, Field, MediaSummary, Rgb,
    SummaryModel,
};
use crate::text::{owned, push_str};

verus! {

/// One ranked result of a title search.
#[derive(Clone, Debug)]
pub struct MovieHit {
    pub id: u64,
    pub title: String,
    pub release_year: Option<i32>,
    pub overview: String,
    pub poster_path: Option<String>,
}

/// The extended details of a hit.
#[derive(Clone, Debug)]
pub struct MovieDetails {
    pub budget: u64,
    pub revenue: u64,
    pub runtime: Option<u64>,
    pub imdb_id: Option<String>,
}

/// Why a lookup produced no hit.
#[derive(Clone, Copy, Debug, PartialEq, Eq, Structural)]
pub enum LookupError {
    /// The search could not be made: transport, credentials or the source.
    SourceUnavailable,
    /// The search succeeded and found nothing.
    NotFound,
}

/// How the metadata source is reached, as the application configured it.
#[derive(Clone, Debug)]
pub struct MetadataConfig {
    pub api_key: Option<String>,
}

/// The key a lookup is made with: a missing key makes the source
/// unavailable for this request, before any search is made.
pub fn metadata_api_key(config: &MetadataConfig) -> (r: Result<String, LookupError>)
    ensures
        match config.api_key {
            Some(k) => r matches Ok(v) && v@ == k@,
            None => r == Err::<String, LookupError>(LookupError::SourceUnavailable),
        },
{
    match &config.api_key {
        Some(k) => Ok(k.clone()),
        None => Err(LookupError::SourceUnavailable),
    }
}

/// The search step's outcome: `None` when the search itself failed.
/// The first ranked hit wins.
pub open spec fn first_hit_spec(search: Option<Seq<MovieHit>>) -> Result<MovieHit, LookupError> {
    match search {
        None => Err(LookupError::SourceUnavailable),
        Some(hits) => if hits.len() == 0 {
            Err(LookupError::NotFound)
        } else {
            Ok(hits[0])
        },
    }
}

/// Picks the hit that a lookup goes on with.
pub fn first_hit(search: Option<Vec<MovieHit>>) -> (r: Result<MovieHit, LookupError>)
    ensures
        r == first_hit_spec(
            match search {
                Some(v) => Some(v@),
                None => None,
            },
        ),
{
    match search {
        None => Err(LookupError::SourceUnavailable),
        Some(mut hits) => {
            if hits.len() == 0 {
                Err(LookupError::NotFound)
            } else {
                Ok(hits.swap_remove(0))
            }
        },
    }
}

/// A year in decimal, with a minus sign before the years before year zero.
pub open spec fn year_text(y: int) -> Seq<char> {
    if y < 0 {
        seq!['-'] + decimal((-y) as nat)
    } else {
        decimal(y as nat)
    }
}

/// The title a hit is shown under: `"Title (Year)"` when the year is known.
pub open spec fn movie_title(hit: MovieHit) -> Seq<char> {
    match hit.release_year {
        Some(y) => hit.title@ + " ("@ + year_text(y as int) + ")"@,
        None => hit.title@,
    }
}

pub open spec fn imdb_link(id: Seq<char>) -> Seq<char> {
    "https://www.imdb.com/title/"@ + id
}

pub open spec fn poster_link(path: Seq<char>) -> Seq<char> {
    "https://image.tmdb.org/t/p/original"@ + path
}

/// An amount of money as shown: a dollar sign and the grouped digits.
pub open spec fn money(v: u64) -> Seq<char> {
    "$"@ + grouped(v as nat)
}

/// The facts that the extended details add, in their fixed order.
pub open spec fn detail_fields(details: Option<MovieDetails>) -> Seq<FieldModel> {
    match details {
        None => Seq::empty(),
        Some(d) => {
            let base = seq![
                ("Budget"@, money(d.budget), true),
                ("Revenue"@, money(d.revenue), true),
            ];
            match d.runtime {
                Some(m) => base.push(("Runtime"@, decimal(m as nat) + " minutes"@, true)),
                None => base,
            }
        },
    }
}

/// The summary of a hit; `accent` is the colour taken from its poster, if
/// any was.
pub open spec fn movie_summary_spec(
    hit: MovieHit,
    details: Option<MovieDetails>,
    accent: Option<Rgb>,
) -> SummaryModel {
    SummaryModel {
        title: Some(movie_title(hit)),
        link_url: match details {
            Some(d) => match d.imdb_id {
                Some(id) => Some(imdb_link(id@)),
                None => None,
            },
            None => None,
        },
        thumbnail_url: match hit.poster_path {
            Some(p) => Some(poster_link(p@)),
            None => None,
        },
        description: Some(truncated(hit.overview@)),
        fields: detail_fields(details),
        accent_color: if hit.poster_path is Some {
            accent
        } else {
            None
        },
    }
}

/// A failed details step never costs a summary its identity: with the hit's
/// title (or year) and overview present, the summary has a non-empty title
/// and description, the same ones that it has when the details arrive.
pub proof fn lemma_details_failure_keeps_identity(
    hit: MovieHit,
    details: MovieDetails,
    accent: Option<Rgb>,
)
    requires
        hit.title@.len() > 0 || hit.release_year is Some,
        hit.overview@.len() > 0,
    ensures
        movie_summary_spec(hit, None, accent).title matches Some(t) && t.len() > 0,
        movie_summary_spec(hit, None, accent).description matches Some(d) && d.len() > 0,
        movie_summary_spec(hit, None, accent).title == movie_summary_spec(
            hit,
            Some(details),
            accent,
        ).title,
        movie_summary_spec(hit, None, accent).description == movie_summary_spec(
            hit,
            Some(details),
            accent,
        ).description,
{
    match hit.release_year {
        Some(y) => {
            let yy = y as int;
            if yy < 0 {
                lemma_decimal_is_digits((-yy) as nat);
            } else {
                lemma_decimal_is_digits(yy as nat);
            }
            assert(year_text(yy).len() > 0);
            let t = hit.title@ + " ("@ + year_text(yy) + ")"@;
            assert(t.len() >= year_text(yy).len());
        },
        None => {},
    }
}

/// A failed colour extraction changes nothing but the colour: the summary
/// then has no accent colour and agrees in every other part with the one
/// made with any colour that extraction could have given.
pub proof fn lemma_color_failure_only_drops_color(
    hit: MovieHit,
    details: Option<MovieDetails>,
    outcome: Result<Rgb, ColorError>,
    c: Rgb,
)
    requires
        outcome is Err,
    ensures
        movie_summary_spec(hit, details, outcome_accent(outcome)).accent_color is None,
        agree_except_color(
            movie_summary_spec(hit, details, outcome_accent(outcome)),
            movie_summary_spec(hit, details, Some(c)),
        ),
{
}

fn push_year(out: &mut String, y: i32)
    ensures
        final(out)@ == old(out)@ + year_text(y as int),
{
    if y < 0 {
        out.push('-');
        let a: i64 = -(y as i64);
        push_decimal(out, a as u64);
        assert(final(out)@ =~= old(out)@ + year_text(y as int));
    } else {
        push_decimal(out, y as u64);
    }
}

/// The title line of a hit.
pub fn title_of(hit: &MovieHit) -> (r: String)
    ensures
        r@ == movie_title(*hit),
{
    let mut r = hit.title.clone();
    match hit.release_year {
        Some(y) => {
            push_str(&mut r, " (");
            push_year(&mut r, y);
            push_str(&mut r, ")");
        },
        None => {},
    }
    r
}

fn money_text(v: u64) -> (r: String)
    ensures
        r@ == money(v),
{
    let mut r = owned("$");
    push_grouped(&mut r, v);
    r
}

fn detail_fields_of(details: &Option<MovieDetails>) -> (r: Vec<Field>)
    ensures
        r@.map_values(|f: Field| f@) == detail_fields(*details),
{
    let mut r: Vec<Field> = Vec::new();
    match details {
        None => {},
        Some(d) => {
            r.push(make_field("Budget", money_text(d.budget), true));
            r.push(make_field("Revenue", money_text(d.revenue), true));
            match d.runtime {
                Some(m) => {
                    let mut v = String::new();
                    push_decimal(&mut v, m);
                    push_str(&mut v, " minutes");
                    assert(v@ =~= decimal(m as nat) + " minutes"@);
                    r.push(make_field("Runtime", v, true));
                },
                None => {},
            }
        },
    }
    assert(r@.map_values(|f: Field| f@) =~= detail_fields(*details));
    r
}

/// Assembles the summary of a hit. `details` is `None` when the details
/// step failed: the summary then keeps the hit's identity and overview and
/// has no extended facts.
pub fn movie_summary(hit: &MovieHit, details: &Option<MovieDetails>, accent: Option<Rgb>) -> (r:
    MediaSummary)
    ensures
        r@ == movie_summary_spec(*hit, *details, accent),
{
    let link_url = match details {
        Some(d) => match &d.imdb_id {
            Some(id) => {
                let mut u = owned("https://www.imdb.com/title/");
                push_str(&mut u, id.as_str());
                Some(u)
            },
            None => None,
        },
        None => None,
    };
    let (thumbnail_url, accent_color) = match &hit.poster_path {
        Some(p) => {
            let mut u = owned("https://image.tmdb.org/t/p/original");
            push_str(&mut u, p.as_str());
            (Some(u), accent)
        },
        None => (None, None),
    };
    let r = MediaSummary {
        title: Some(title_of(hit)),
        link_url,
        thumbnail_url,
        description: Some(truncate_description(hit.overview.as_str())),
        fields: detail_fields_of(details),
        accent_color,
    };
    r
}

} // verus!
