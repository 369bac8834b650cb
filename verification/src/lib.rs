//! Citations of United States Congress legislative documents.
//!
//! A citation string such as `"118hr8070ih"` names a document: the congress
//! (`118`), the chamber (`h` for House), the kind of document (`r`, a House
//! bill), the document number (`8070`) and, optionally, a version of the
//! bill's text (`ih`, introduced in House). [`Citation::parse`] splits such a
//! string into its segments, validates every field, and returns a [`Citation`]
//! value; [`Citation::to_url`] renders a validated citation as a canonical
//! `https://www.congress.gov` URL.

pub mod citation;
pub mod clock;
pub mod digits;
pub mod error;
pub mod laws;
pub mod scan;
pub mod text;
pub mod tokens;
pub mod vocab;

pub use citation::{Chamber, Citation, CitationView, CongObjectType, Congress, Version};
pub use clock::current_congress;
pub use error::Error;
pub use tokens::{CiteParts, CitePartsView};
