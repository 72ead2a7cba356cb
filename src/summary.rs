//! The presentation object that every lookup ends in, and the rules for
//! its description.

use vstd::prelude::*;
use vstd::string::*;

use crate::text::{owned, push_str};

verus! {

/// The most characters of a description that a summary keeps.
pub const DESCRIPTION_LIMIT: usize = 500;

/// A colour as red, green and blue channels.
#[derive(Clone, Copy, Debug, PartialEq, Eq, Structural)]
pub struct Rgb {
    pub r: u8,
    pub g: u8,
    pub b: u8,
}

/// One labelled fact of a summary; `inline` hints that it is short.
#[derive(Clone, Debug)]
pub struct Field {
    pub label: String,
    pub value: String,
    pub inline: bool,
}

/// The card shown for a looked-up title.
#[derive(Clone, Debug)]
pub struct MediaSummary {
    pub title: Option<String>,
    pub link_url: Option<String>,
    pub thumbnail_url: Option<String>,
    pub description: Option<String>,
    pub fields: Vec<Field>,
    pub accent_color: Option<Rgb>,
}

/// What a field says: label, value and the inline hint.
pub type FieldModel = (Seq<char>, Seq<char>, bool);

/// What a summary says, over plain sequences.
pub struct SummaryModel {
    pub title: Option<Seq<char>>,
    pub link_url: Option<Seq<char>>,
    pub thumbnail_url: Option<Seq<char>>,
    pub description: Option<Seq<char>>,
    pub fields: Seq<FieldModel>,
    pub accent_color: Option<Rgb>,
}

pub open spec fn opt_chars(o: Option<String>) -> Option<Seq<char>> {
    match o {
        Some(s) => Some(s@),
        None => None,
    }
}

impl View for Field {
    type V = FieldModel;

    open spec fn view(&self) -> FieldModel {
        (self.label@, self.value@, self.inline)
    }
}

impl View for MediaSummary {
    type V = SummaryModel;

    open spec fn view(&self) -> SummaryModel {
        SummaryModel {
            title: opt_chars(self.title),
            link_url: opt_chars(self.link_url),
            thumbnail_url: opt_chars(self.thumbnail_url),
            description: opt_chars(self.description),
            fields: self.fields@.map_values(|f: Field| f@),
            accent_color: self.accent_color,
        }
    }
}

/// Two summaries that agree in everything but the accent colour.
pub open spec fn agree_except_color(a: SummaryModel, b: SummaryModel) -> bool {
    &&& a.title == b.title
    &&& a.link_url == b.link_url
    &&& a.thumbnail_url == b.thumbnail_url
    &&& a.description == b.description
    &&& a.fields == b.fields
}

/// The marker put after a cut description.
pub open spec fn ellipsis() -> Seq<char> {
    seq!['.', '.', '.']
}

/// A description as a summary shows it: unchanged up to the limit, else its
/// first `DESCRIPTION_LIMIT` characters and an ellipsis.
pub open spec fn truncated(d: Seq<char>) -> Seq<char> {
    if d.len() > DESCRIPTION_LIMIT {
        d.subrange(0, DESCRIPTION_LIMIT as int) + ellipsis()
    } else {
        d
    }
}

/// Cuts a description to the limit, counting characters, not bytes.
pub fn truncate_description(description: &str) -> (r: String)
    ensures
        r@ == truncated(description@),
        r@.len() <= DESCRIPTION_LIMIT + 3,
        description@.len() <= DESCRIPTION_LIMIT ==> r@ == description@,
{
    let n = description.unicode_len();
    if n > DESCRIPTION_LIMIT {
        let kept = description.substring_char(0, DESCRIPTION_LIMIT);
        let mut r = owned(kept);
        push_str(&mut r, "...");
        proof {
            reveal_strlit("...");
        }
        assert(r@ =~= truncated(description@));
        r
    } else {
        owned(description)
    }
}

/// A field built from its parts.
pub fn make_field(label: &str, value: String, inline: bool) -> (f: Field)
    ensures
        f@ == (label@, value@, inline),
{
    Field { label: owned(label), value, inline }
}

} // verus!
