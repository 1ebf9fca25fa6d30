//! The application's configuration.

use vstd::prelude::*;

verus! {

/// The application's configuration.
#[derive(Debug)]
pub struct Config {
    /// The API key of the user on whose behalf requests are made, if any.
    pub api_key: Option<String>,
}

impl View for Config {
    type V = Option<Seq<char>>;

    open spec fn view(&self) -> Option<Seq<char>> {
        match self.api_key {
            Some(key) => Some(key@),
            None => None,
        }
    }
}

} // verus!
