//! Lookup-and-present core of a media chat bot: it turns what outside
//! sources return (search results, HTML pages, image bytes, JSON) into
//! summary cards, with every decision stated and proved.

pub mod text;
pub mod numfmt;
pub mod summary;
pub mod movie;
pub mod color;
pub mod parse;
pub mod html;
pub mod book;
pub mod image_search;
pub mod links;
pub mod people;

pub use numfmt::format_currency;
pub use summary::truncate_description;
