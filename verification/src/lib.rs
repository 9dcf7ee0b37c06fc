//! Assembles Open Graph and Twitter Card metadata from a stream of
//! colon-delimited property paths and their string contents.
//!
//! The caller (an HTML scanner, outside this crate) hands over one
//! `(property, content)` pair per `<meta>` tag; the resolver routes each pair
//! into a typed root object, creating nested and repeated entries as the
//! path dictates.

pub mod coerce;
pub mod error;
pub mod graph_object;
pub mod meta_data;
pub mod open_graph;
pub mod scraper;
pub mod twitter;

pub use crate::error::ParseError;
pub use crate::meta_data::MetaData;
pub use crate::scraper::{OpenGraphScraper, TwitterScraper};
