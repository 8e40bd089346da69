//! Looks up terms in an online German dictionary: candidate listing,
//! speculative prefetching of every candidate, and extraction and rendering
//! of structured definitions.
pub mod definition;
pub mod fmt;
pub mod markup;
pub mod prefetch;
pub mod render;
pub mod search;

pub use definition::{
    Definition, DefinitionSource, Meaning, MeaningSource, ParseError, SenseSource, SimpleMeaning,
    Tuple, TupleSource,
};
pub use fmt::{normalize, trim, write_text_trimmed, write_without_shys};
pub use markup::Queries;
pub use search::{
    candidate_line, parse_selection, search_url, url, Item, ItemSource, Selection, BASE_URL,
};
pub use prefetch::{Rendezvous, Wait};
