//! A paginated search client core for the Derpibooru image board.
//!
//! The crate holds everything about a search that can be decided without
//! touching the network: how a request is encoded, how a reply is decoded, and
//! how the pages of one search are strung together into a single sequence of
//! images. Sending a request and waiting between requests is left to the caller.
//!
//! - [`models`] holds the parameters of a request and the page of results that
//!   answers it, with the rules for writing the one and reading the other.
//! - [`api`] holds the search itself: the pull that hands out an image or asks
//!   for the next page, and the step that takes a reply in.
//! - [`trace`] says what a consumer sees that pulls a search to its end, and
//!   proves it.
//! - [`json`] is the boundary to the JSON parser, [`text`] writes numbers in
//!   decimal, [`error`] names the failures and [`config`] the configuration.

pub mod api;
pub mod config;
pub mod error;
pub mod json;
pub mod models;
pub mod text;
pub mod trace;
