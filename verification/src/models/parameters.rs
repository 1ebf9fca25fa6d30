//! The parameters of a request, and how they are written into a query string.

use crate::config::Config;
use crate::models::page::{Page, PerPage, DEFAULT_PER_PAGE};
use crate::text::{decimal, decimal_string};
use vstd::prelude::*;

verus! {

/// An optional authentication token. Where there is none, no user is
/// authenticated.
#[derive(Debug, Clone, Copy)]
pub struct Key<'a>(&'a Option<String>);

impl<'a> View for Key<'a> {
    type V = Option<Seq<char>>;

    closed spec fn view(&self) -> Option<Seq<char>> {
        match *self.0 {
            Some(token) => Some(token@),
            None => None,
        }
    }
}

impl<'a> Key<'a> {
    /// The key that holds the given token, or none.
    pub fn new(token: &'a Option<String>) -> (key: Key<'a>)
        ensures
            key@ == match *token {
                Some(t) => Some(t@),
                None => None,
            },
    {
        Key(token)
    }

    /// The key that a configuration names.
    pub fn from_config(config: &'a Config) -> (key: Key<'a>)
        ensures
            key@ == config@,
    {
        Key(&config.api_key)
    }

    /// The token, where there is one.
    pub fn token(&self) -> (token: Option<&'a str>)
        ensures
            match token {
                Some(t) => self@ == Some(t@),
                None => self@ is None,
            },
    {
        match self.0 {
            Some(t) => Some(t.as_str()),
            None => None,
        }
    }
}

impl Default for Key<'_> {
    /// No token: the request is not authenticated.
    fn default() -> (key: Self)
        ensures
            key@ is None,
    {
        Key(&None)
    }
}

/// The field by which the results of a search are sorted.
#[derive(Debug, Clone, Copy, PartialEq, Eq)]
pub enum SortField {
    /// Sort by Wilson score
    WilsonScore,
}

impl SortField {
    /// The field's name as the server spells it.
    pub open spec fn wire_name(self) -> Seq<char> {
        match self {
            SortField::WilsonScore => "wilson_score"@,
        }
    }

    /// The field's name as the server spells it.
    pub fn as_str(&self) -> (name: &'static str)
        ensures
            name@ == self.wire_name(),
    {
        match self {
            SortField::WilsonScore => "wilson_score",
        }
    }
}

/// The direction in which the results of a search are sorted.
#[derive(Debug, Clone, Copy, PartialEq, Eq)]
pub enum SortDirection {
    /// Ascending
    Asc,
    /// Descending
    Desc,
}

impl SortDirection {
    /// The direction's name as the server spells it.
    pub open spec fn wire_name(self) -> Seq<char> {
        match self {
            SortDirection::Asc => "asc"@,
            SortDirection::Desc => "desc"@,
        }
    }

    /// The direction's name as the server spells it.
    pub fn as_str(&self) -> (name: &'static str)
        ensures
            name@ == self.wire_name(),
    {
        match self {
            SortDirection::Asc => "asc",
            SortDirection::Desc => "desc",
        }
    }
}

/// This is a list of general parameters that are useful when working with the API.
/// Not all parameters may be used in every request.
#[derive(Debug)]
pub struct Parameters<'a> {
    /// Assuming the user can access the filter ID given by the parameter,
    /// overrides the current filter for this request.
    /// This is primarily useful for unauthenticated API access.
    pub filter_id: Option<u32>,
    /// An optional authentication token.
    /// If omitted, no user will be authenticated.
    pub key: Key<'a>,
    /// Controls the current page of the response, if the response is paginated.
    /// Empty values default to the first page.
    pub page: Page,
    /// Controls the number of results per page, up to a limit of 50, if the response is paginated.
    /// The default is 25.
    pub per_page: PerPage,
    /// The current search query, if the request is a search request.
    pub q: Option<String>,
    /// The current sort field, if the request is a search request.
    pub sf: Option<SortField>,
    /// The current sort direction, if the request is a search request.
    pub sd: Option<SortDirection>,
}

/// The parameters of a request as plain values.
pub struct Query {
    pub filter_id: Option<u32>,
    pub key: Option<Seq<char>>,
    pub page: nat,
    pub per_page: nat,
    pub q: Option<Seq<char>>,
    pub sf: Option<SortField>,
    pub sd: Option<SortDirection>,
}

/// One pair of a query string: the key and, not yet percent-encoded, the value.
pub type Pair = (Seq<char>, Seq<char>);

impl Query {
    /// The pair for `filter_id`, where a filter is named.
    pub open spec fn filter_pairs(self) -> Seq<Pair> {
        match self.filter_id {
            Some(id) => seq![("filter_id"@, decimal(id as nat))],
            None => seq![],
        }
    }

    /// The pair for `key`, where there is a token.
    pub open spec fn key_pairs(self) -> Seq<Pair> {
        match self.key {
            Some(token) => seq![("key"@, token)],
            None => seq![],
        }
    }

    /// The pairs for `page` and `per_page`, which every request carries.
    pub open spec fn paging_pairs(self) -> Seq<Pair> {
        seq![("page"@, decimal(self.page)), ("per_page"@, decimal(self.per_page))]
    }

    /// The pair for `q`, where there is a search query.
    pub open spec fn search_pairs(self) -> Seq<Pair> {
        match self.q {
            Some(text) => seq![("q"@, text)],
            None => seq![],
        }
    }

    /// The pairs for `sf` and `sd`, each where it is set.
    pub open spec fn sort_pairs(self) -> Seq<Pair> {
        (match self.sf {
            Some(field) => seq![("sf"@, field.wire_name())],
            None => seq![],
        }) + (match self.sd {
            Some(direction) => seq![("sd"@, direction.wire_name())],
            None => seq![],
        })
    }

    /// The query string as a list of pairs, in the order `filter_id`, `key`,
    /// `page`, `per_page`, `q`, `sf`, `sd`. A parameter that is not set has no
    /// pair at all.
    pub open spec fn pairs(self) -> Seq<Pair> {
        self.filter_pairs() + self.key_pairs() + self.paging_pairs() + self.search_pairs()
            + self.sort_pairs()
    }

    /// The same query for another page.
    pub open spec fn at_page(self, page: nat) -> Query {
        Query { page, ..self }
    }
}

impl<'a> View for Parameters<'a> {
    type V = Query;

    open spec fn view(&self) -> Query {
        Query {
            filter_id: self.filter_id,
            key: self.key@,
            page: self.page@,
            per_page: self.per_page@,
            q: match self.q {
                Some(text) => Some(text@),
                None => None,
            },
            sf: self.sf,
            sd: self.sd,
        }
    }
}

impl Default for Parameters<'_> {
    /// The first page of 25 results, with nothing else set.
    fn default() -> (params: Self)
        ensures
            params@ == (Query {
                filter_id: None,
                key: None,
                page: 1,
                per_page: DEFAULT_PER_PAGE as nat,
                q: None,
                sf: None,
                sd: None,
            }),
    {
        Parameters {
            filter_id: None,
            key: Key::default(),
            page: Page::default(),
            per_page: PerPage::default(),
            q: None,
            sf: None,
            sd: None,
        }
    }
}

/// One pair of a query string, made of a key that the server knows and a value.
fn pair(key: &str, value: String) -> (p: (String, String))
    ensures
        p.0@ == key@,
        p.1@ == value@,
{
    (String::from_str(key), value)
}

impl<'a> Parameters<'a> {
    /// The parameters of a search for `query`, with everything else at its
    /// default.
    pub fn search(query: String) -> (params: Self)
        ensures
            params@ == (Query {
                filter_id: None,
                key: None,
                page: 1,
                per_page: DEFAULT_PER_PAGE as nat,
                q: Some(query@),
                sf: None,
                sd: None,
            }),
    {
        Parameters {
            filter_id: None,
            key: Key::default(),
            page: Page::default(),
            per_page: PerPage::default(),
            q: Some(query),
            sf: None,
            sd: None,
        }
    }

    /// The query string for these parameters as a list of pairs of key and
    /// value. The values are not percent-encoded: that is left to whatever
    /// writes the pairs into a URL.
    pub fn query_pairs(&self) -> (pairs: Vec<(String, String)>)
        ensures
            pairs.deep_view() == self@.pairs(),
    {
        let mut pairs: Vec<(String, String)> = Vec::new();
        if let Some(id) = self.filter_id {
            pairs.push(pair("filter_id", decimal_string(id as u64)));
        }
        if let Some(token) = self.key.token() {
            pairs.push(pair("key", String::from_str(token)));
        }
        assert(pairs.deep_view() =~= self@.filter_pairs() + self@.key_pairs());
        pairs.push(pair("page", decimal_string(self.page.get() as u64)));
        pairs.push(pair("per_page", decimal_string(self.per_page.get() as u64)));
        assert(pairs.deep_view() =~= self@.filter_pairs() + self@.key_pairs()
            + self@.paging_pairs());
        if let Some(text) = &self.q {
            pairs.push(pair("q", text.clone()));
        }
        assert(pairs.deep_view() =~= self@.filter_pairs() + self@.key_pairs()
            + self@.paging_pairs() + self@.search_pairs());
        if let Some(field) = self.sf {
            pairs.push(pair("sf", String::from_str(field.as_str())));
        }
        if let Some(direction) = self.sd {
            pairs.push(pair("sd", String::from_str(direction.as_str())));
        }
        assert(pairs.deep_view() =~= self@.pairs());
        pairs
    }
}

} // verus!
