//! The values that travel to and from the search endpoint.

pub mod images;
pub mod page;
pub mod parameters;

pub use images::{Envelope, Image, Representations, SearchImages};
pub use page::{Page, PerPage, PerPageError, DEFAULT_PER_PAGE, MAX_PER_PAGE};
pub use parameters::{Key, Pair, Parameters, Query, SortDirection, SortField};
