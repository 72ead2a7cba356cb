//! The image search: one request built from the configured credentials,
//! and the first result's link read from the JSON answer.

use vstd::prelude::*;

use crate::summary::opt_chars;
use crate::text::{owned, push_str};

verus! {

/// Credentials of the image-search service, as the application found them.
#[derive(Clone, Debug)]
pub struct SearchConfig {
    pub api_key: Option<String>,
    pub engine_id: Option<String>,
}

#[derive(Clone, Copy, Debug, PartialEq, Eq, Structural)]
pub enum ImageSearchError {
    /// The API key or the search-engine id is not set.
    Configuration,
    /// The answer is not JSON.
    BadResponse,
    /// The answer lists no result with a link.
    NotFound,
}

pub open spec fn request_url_spec(key: Seq<char>, engine: Seq<char>, term: Seq<char>) -> Seq<char> {
    "https://www.googleapis.com/customsearch/v1?key="@ + key + "&searchType=image&cx="@ + engine
        + "&q="@ + term
}

/// The request to make for `term`, or the configuration error that stops
/// the search before any request.
pub open spec fn search_request_spec(
    key: Option<Seq<char>>,
    engine: Option<Seq<char>>,
    term: Seq<char>,
) -> Result<Seq<char>, ImageSearchError> {
    match (key, engine) {
        (Some(k), Some(e)) => Ok(request_url_spec(k, e, term)),
        _ => Err(ImageSearchError::Configuration),
    }
}

/// Builds the search request for `term`.
pub fn search_request(config: &SearchConfig, term: &str) -> (r: Result<String, ImageSearchError>)
    ensures
        match r {
            Ok(u) => search_request_spec(opt_chars(config.api_key), opt_chars(config.engine_id), term@)
                == Ok::<Seq<char>, ImageSearchError>(u@),
            Err(e) => search_request_spec(opt_chars(config.api_key), opt_chars(config.engine_id), term@)
                == Err::<Seq<char>, ImageSearchError>(e),
        },
{
    match (&config.api_key, &config.engine_id) {
        (Some(k), Some(e)) => {
            let mut u = owned("https://www.googleapis.com/customsearch/v1?key=");
            push_str(&mut u, k.as_str());
            push_str(&mut u, "&searchType=image&cx=");
            push_str(&mut u, e.as_str());
            push_str(&mut u, "&q=");
            push_str(&mut u, term);
            Ok(u)
        },
        _ => Err(ImageSearchError::Configuration),
    }
}

/// For a JSON text: `None` when it does not parse; else, when its top-level
/// `array_key` member is an array, the string value of each element's
/// `item_key` member (absent where it is missing or not a string).
pub uninterp spec fn json_array_strings(body: Seq<char>, array_key: Seq<char>, item_key: Seq<char>) -> Option<
    Option<Seq<Option<Seq<char>>>>,
>;

pub open spec fn items_view(r: Result<Option<Vec<Option<String>>>, ()>) -> Option<
    Option<Seq<Option<Seq<char>>>>,
> {
    match r {
        Err(_) => None,
        Ok(None) => Some(None),
        Ok(Some(v)) => Some(Some(v@.map_values(|o: Option<String>| opt_chars(o)))),
    }
}

/// Relies on serde_json::from_str into a Value, with Value::get, as_array
/// and as_str to read the members.
#[verifier::external_body]
fn read_array_strings(body: &str, array_key: &str, item_key: &str) -> (r: Result<
    Option<Vec<Option<String>>>,
    (),
>)
    ensures
        items_view(r) == json_array_strings(body@, array_key@, item_key@),
{
    let v: serde_json::Value = serde_json::from_str(body).map_err(|_| ())?;
    Ok(v.get(array_key).and_then(|a| a.as_array()).map(
        |items| items.iter().map(|i| i.get(item_key).and_then(|l| l.as_str()).map(String::from)).collect(),
    ))
}

/// The link an answer yields: the first result's, if it has one.
pub open spec fn link_spec(items: Option<Option<Seq<Option<Seq<char>>>>>) -> Result<
    Seq<char>,
    ImageSearchError,
> {
    match items {
        None => Err(ImageSearchError::BadResponse),
        Some(None) => Err(ImageSearchError::NotFound),
        Some(Some(links)) => if links.len() == 0 {
            Err(ImageSearchError::NotFound)
        } else {
            match links[0] {
                Some(l) => Ok(l),
                None => Err(ImageSearchError::NotFound),
            }
        },
    }
}

/// Picks the link out of the results' links as read from the answer.
pub fn link_from_items(items: Result<Option<Vec<Option<String>>>, ()>) -> (r: Result<
    String,
    ImageSearchError,
>)
    ensures
        match r {
            Ok(u) => link_spec(items_view(items)) == Ok::<Seq<char>, ImageSearchError>(u@),
            Err(e) => link_spec(items_view(items)) == Err::<Seq<char>, ImageSearchError>(e),
        },
{
    match items {
        Err(_) => Err(ImageSearchError::BadResponse),
        Ok(None) => Err(ImageSearchError::NotFound),
        Ok(Some(links)) => {
            if links.len() == 0 {
                Err(ImageSearchError::NotFound)
            } else {
                let mut links = links;
                let ghost before = links@;
                let first = links.swap_remove(0);
                assert(before.map_values(|o: Option<String>| opt_chars(o))[0] == opt_chars(first));
                match first {
                    Some(l) => Ok(l),
                    None => Err(ImageSearchError::NotFound),
                }
            }
        },
    }
}

/// Reads the first result's link out of the service's JSON answer.
pub fn first_image_link(body: &str) -> (r: Result<String, ImageSearchError>)
    ensures
        match r {
            Ok(u) => link_spec(json_array_strings(body@, "items"@, "link"@)) == Ok::<
                Seq<char>,
                ImageSearchError,
            >(u@),
            Err(e) => link_spec(json_array_strings(body@, "items"@, "link"@)) == Err::<
                Seq<char>,
                ImageSearchError,
            >(e),
        },
{
    link_from_items(read_array_strings(body, "items", "link"))
}

} // verus!
