//! One search, spread over as many pages as it takes.
//!
//! [`ApiSearchImages`] strings the pages of a search together into one sequence
//! of images. It never touches the network itself. A pull either hands out an
//! image that is already there, or says that the sequence has ended, or asks
//! for a request to be sent; whoever drives the search sends the request,
//! waits as the request demands, and hands the reply back.

use crate::error::{Failure, SearchError};
use crate::models::images::{decoded, envelope_of_text, Envelope, Image, SearchImages};
use crate::models::page::{Page, PerPage, MAX_PER_PAGE};
use crate::models::parameters::{Pair, Parameters, Query};
use core::ops::AddAssign;
use std::collections::VecDeque;
use vstd::arithmetic::div_mod::lemma_fundamental_div_mod;
use vstd::prelude::*;

verus! {

/// The address of the search endpoint.
pub const SEARCH_URL: &'static str = "https://derpibooru.org/api/v1/json/search/images";

/// The time to wait before each request unless another is chosen, in
/// milliseconds. The server allows ten searches in ten seconds; a wait of 1100
/// milliseconds keeps a search under that with room to spare.
pub const DEFAULT_DELAY_MS: u64 = 1100;

/// The status of a reply that holds a page of results.
pub const STATUS_OK: u16 = 200;

/// A request for one page of results.
#[derive(Debug, Clone, PartialEq, Eq)]
pub struct Request {
    /// The address to send a `GET` request to.
    pub endpoint: &'static str,
    /// The query string as pairs of key and value, to be percent-encoded.
    pub query: Vec<(String, String)>,
    /// The time to wait before the request is sent, in milliseconds.
    pub delay_ms: u64,
}

/// A `Request` as plain values.
pub struct Wire {
    pub endpoint: Seq<char>,
    pub query: Seq<Pair>,
    pub delay_ms: u64,
}

impl View for Request {
    type V = Wire;

    open spec fn view(&self) -> Wire {
        Wire { endpoint: self.endpoint@, query: self.query.deep_view(), delay_ms: self.delay_ms }
    }
}

/// What came of sending a request.
#[derive(Debug, Clone, PartialEq, Eq)]
pub enum Reply {
    /// The server replied.
    Response {
        /// The HTTP status of the reply.
        status: u16,
        /// The body of the reply.
        body: String,
    },
    /// No reply came; the text is the transport's account of what went wrong.
    Failed(String),
}

impl Reply {
    /// What a reply amounts to: its page of results where the status is 200
    /// and the body decodes, and otherwise the failure that says why not.
    pub open spec fn outcome(self) -> Result<Envelope, Failure> {
        match self {
            Reply::Response { status, body } => if status == STATUS_OK {
                envelope_of_text(body@)
            } else {
                Err(Failure::UnexpectedStatus(status))
            },
            Reply::Failed(reason) => Err(Failure::TransportFailure(reason@)),
        }
    }

    /// Checks the status of a reply and decodes its body.
    pub fn decode(self) -> (r: Result<SearchImages, SearchError>)
        ensures
            decoded(r) == self.outcome(),
    {
        match self {
            Reply::Response { status, body } => if status == STATUS_OK {
                SearchImages::from_json(body.as_str())
            } else {
                Err(SearchError::UnexpectedStatus(status))
            },
            Reply::Failed(reason) => Err(SearchError::TransportFailure(reason)),
        }
    }
}

/// What a pull comes to.
#[derive(Debug, Clone, PartialEq, Eq)]
pub enum Pull {
    /// The next image of the sequence.
    Item(Image),
    /// The sequence has ended.
    Exhausted,
    /// The next image lies on a page that has yet to be fetched: the request
    /// is to be sent and its reply handed to [`ApiSearchImages::receive`].
    Fetch(Request),
}

/// A `Pull` as plain values.
pub enum Decision {
    Item(Seq<char>),
    Exhausted,
    Fetch(Wire),
}

impl View for Pull {
    type V = Decision;

    open spec fn view(&self) -> Decision {
        match self {
            Pull::Item(image) => Decision::Item(image@),
            Pull::Exhausted => Decision::Exhausted,
            Pull::Fetch(request) => Decision::Fetch(request@),
        }
    }
}

/// Where a search stands.
#[derive(Debug, Clone, Copy, PartialEq, Eq)]
pub enum Phase {
    /// Nothing has been fetched yet.
    AwaitingFirstFetch,
    /// Images of the last page fetched are waiting to be handed out.
    HasBufferedItems,
    /// The last page fetched has been handed out.
    AwaitingNextFetch,
    /// The sequence has ended.
    Exhausted,
}

/// A search as plain values.
pub struct State {
    /// The parameters of the next request; its page is the next to ask for.
    pub query: Query,
    /// The total that the server reported last; 0 before the first reply.
    pub total: nat,
    /// The images that have been fetched and not yet handed out.
    pub buffer: Seq<Seq<char>>,
    /// Whether the sequence has ended.
    pub finished: bool,
    /// The time to wait before each request, in milliseconds.
    pub delay_ms: u64,
}

/// What the reply to a request brings: an image, the end of the sequence, or
/// a failure.
pub type Answer = Result<Option<Seq<char>>, Failure>;

impl State {
    /// A search that has not begun: the first page, at the largest page size,
    /// whatever the parameters asked for.
    pub open spec fn initial(query: Query) -> State {
        State {
            query: Query { page: 1, per_page: MAX_PER_PAGE as nat, ..query },
            total: 0,
            buffer: Seq::empty(),
            finished: false,
            delay_ms: DEFAULT_DELAY_MS,
        }
    }

    /// The number of the next page to ask for.
    pub open spec fn page(self) -> nat {
        self.query.page
    }

    /// Whether the pages fetched so far cover the total that the server
    /// reported. Before anything is known of the total, they do not.
    pub open spec fn covered(self) -> bool {
        self.total != 0 && (self.page() - 1) * self.query.per_page >= self.total
    }

    /// The request for the next page.
    pub open spec fn request(self) -> Wire {
        Wire { endpoint: SEARCH_URL@, query: self.query.pairs(), delay_ms: self.delay_ms }
    }

    /// Where the search stands.
    pub open spec fn phase(self) -> Phase {
        if self.buffer.len() > 0 {
            Phase::HasBufferedItems
        } else if self.finished {
            Phase::Exhausted
        } else if self.page() <= 1 {
            Phase::AwaitingFirstFetch
        } else {
            Phase::AwaitingNextFetch
        }
    }

    /// One pull. An image that is buffered is handed out, and nothing else
    /// changes. With the buffer empty, the sequence ends where it has ended
    /// before or the pages fetched cover the total; otherwise the next page is
    /// asked for.
    pub open spec fn pull(self) -> (State, Decision) {
        if self.buffer.len() > 0 {
            (State { buffer: self.buffer.drop_first(), ..self }, Decision::Item(self.buffer[0]))
        } else if self.finished || self.covered() {
            (State { finished: true, ..self }, Decision::Exhausted)
        } else {
            (self, Decision::Fetch(self.request()))
        }
    }

    /// The reply to a request. A page of results moves the search on by one
    /// page, replaces the buffer and the total, and hands out its first
    /// image; a page without images ends the sequence. A failure ends the
    /// sequence too, and is handed out in place of an image. A search that
    /// has ended stays as it is.
    pub open spec fn accept(self, fetched: Result<Envelope, Failure>) -> (State, Answer) {
        if self.finished {
            (self, Ok(None))
        } else {
            match fetched {
                Ok(envelope) => {
                    let next = State {
                        query: self.query.at_page(self.page() + 1),
                        total: envelope.total,
                        buffer: envelope.images.drop_first(),
                        finished: envelope.images.len() == 0,
                        delay_ms: self.delay_ms,
                    };
                    if envelope.images.len() == 0 {
                        (State { buffer: Seq::empty(), ..next }, Ok(None))
                    } else {
                        (next, Ok(Some(envelope.images[0])))
                    }
                },
                Err(failure) => (
                    State { buffer: Seq::empty(), finished: true, ..self },
                    Err(failure),
                ),
            }
        }
    }
}

/// What the reply to a request brought, as plain values.
pub open spec fn answer(r: Result<Option<Image>, SearchError>) -> Answer {
    match r {
        Ok(Some(image)) => Ok(Some(image@)),
        Ok(None) => Ok(None),
        Err(error) => Err(error@),
    }
}

/// The results of a search, page after page, as one sequence of images.
#[derive(Debug)]
pub struct ApiSearchImages<'a> {
    params: Parameters<'a>,
    images: VecDeque<Image>,
    total: usize,
    finished: bool,
    delay_ms: u64,
}

impl<'a> View for ApiSearchImages<'a> {
    type V = State;

    closed spec fn view(&self) -> State {
        State {
            query: self.params@,
            total: self.total as nat,
            buffer: self.images@.map_values(|image: Image| image@),
            finished: self.finished,
            delay_ms: self.delay_ms,
        }
    }
}

/// The images of a page, ready to be handed out from the front.
fn into_buffer(images: Vec<Image>) -> (buffer: VecDeque<Image>)
    ensures
        buffer@ == images@,
{
    let mut images = images;
    let mut buffer: VecDeque<Image> = VecDeque::new();
    let ghost all = images@;
    while images.len() > 0
        invariant
            images@ + buffer@ == all,
        decreases images.len(),
    {
        let ghost front = images@;
        let ghost back = buffer@;
        let last = images.pop();
        match last {
            Some(image) => {
                buffer.push_front(image);
                assert(images@ + buffer@ =~= front + back);
            },
            None => {},
        }
    }
    assert(buffer@ =~= images@ + buffer@);
    buffer
}

impl<'a> ApiSearchImages<'a> {
    /// A search with the given parameters. It starts at the first page and asks
    /// for pages of the largest size, whatever page and size the parameters
    /// name: fewer requests are needed that way.
    pub fn new(params: Parameters<'a>) -> (search: ApiSearchImages<'a>)
        ensures
            search@ == State::initial(params@),
    {
        let mut params = params;
        params.page = Page::default();
        params.per_page = PerPage::maximum();
        let search = ApiSearchImages {
            params,
            images: VecDeque::new(),
            total: 0,
            finished: false,
            delay_ms: DEFAULT_DELAY_MS,
        };
        assert(search@.buffer =~= Seq::<Seq<char>>::empty());
        search
    }

    /// The same search with another time to wait before each request.
    pub fn with_delay(self, delay_ms: u64) -> (search: ApiSearchImages<'a>)
        ensures
            search@ == (State { delay_ms, ..self@ }),
    {
        let mut search = self;
        search.delay_ms = delay_ms;
        search
    }

    /// The total that the server reported last; 0 before the first reply.
    pub fn total(&self) -> (total: usize)
        ensures
            total == self@.total,
    {
        self.total
    }

    /// The number of the next page to ask for.
    pub fn next_page(&self) -> (page: usize)
        ensures
            page == self@.page(),
            page >= 1,
    {
        self.params.page.get()
    }

    /// The number of images that have been fetched and not yet handed out.
    pub fn buffered(&self) -> (count: usize)
        ensures
            count == self@.buffer.len(),
    {
        self.images.len()
    }

    /// The time to wait before each request, in milliseconds.
    pub fn delay_ms(&self) -> (delay_ms: u64)
        ensures
            delay_ms == self@.delay_ms,
    {
        self.delay_ms
    }

    /// Where the search stands.
    pub fn phase(&self) -> (phase: Phase)
        ensures
            phase == self@.phase(),
    {
        if self.images.len() > 0 {
            Phase::HasBufferedItems
        } else if self.finished {
            Phase::Exhausted
        } else if self.params.page.get() <= 1 {
            Phase::AwaitingFirstFetch
        } else {
            Phase::AwaitingNextFetch
        }
    }

    /// Whether the pages fetched so far cover the total that the server
    /// reported.
    pub fn covered(&self) -> (covered: bool)
        ensures
            covered == self@.covered(),
    {
        if self.total == 0 {
            return false;
        }
        let size: usize = self.params.per_page.get();
        let fetched: usize = self.params.page.get() - 1;
        let ghost limit = usize::MAX as int;
        let ghost width = size as int;
        let ghost pages = fetched as int;
        proof {
            lemma_fundamental_div_mod(limit, width);
        }
        if fetched > usize::MAX / size {
            assert(pages * width > limit) by (nonlinear_arith)
                requires
                    pages >= limit / width + 1,
                    width >= 1,
                    limit == width * (limit / width) + limit % width,
                    0 <= limit % width < width,
            ;
            true
        } else {
            assert(pages * width <= limit) by (nonlinear_arith)
                requires
                    0 <= pages <= limit / width,
                    width >= 1,
                    limit == width * (limit / width) + limit % width,
                    0 <= limit % width < width,
            ;
            fetched * self.params.per_page >= self.total
        }
    }

    /// One pull. While images are buffered, the first of them is handed out:
    /// no request is asked for and nothing is waited for. With the buffer
    /// empty, the sequence has ended where it ended before or where the pages
    /// fetched cover the total; otherwise the request for the next page is
    /// handed out, and its reply is due to [`ApiSearchImages::receive`].
    pub fn try_next(&mut self) -> (pull: Pull)
        ensures
            (final(self)@, pull@) == old(self)@.pull(),
            old(self)@.buffer.len() > 0 ==> pull@ == Decision::Item(old(self)@.buffer[0])
                && final(self)@.query == old(self)@.query,
            pull is Fetch ==> final(self)@ == old(self)@,
    {
        match self.images.pop_front() {
            Some(image) => {
                assert(self@.buffer =~= old(self)@.buffer.drop_first());
                return Pull::Item(image);
            },
            None => {},
        }
        assert(self@.buffer =~= old(self)@.buffer);
        if self.finished || self.covered() {
            self.finished = true;
            return Pull::Exhausted;
        }
        Pull::Fetch(
            Request {
                endpoint: SEARCH_URL,
                query: self.params.query_pairs(),
                delay_ms: self.delay_ms,
            },
        )
    }

    /// Takes in what a request brought, decoded. The page number must leave
    /// room for the next.
    pub fn accept(&mut self, fetched: Result<SearchImages, SearchError>) -> (r: Result<
        Option<Image>,
        SearchError,
    >)
        requires
            old(self)@.page() < usize::MAX,
        ensures
            (final(self)@, answer(r)) == old(self)@.accept(decoded(fetched)),
    {
        if self.finished {
            return Ok(None);
        }
        match fetched {
            Ok(page) => {
                let ghost envelope = page@;
                self.params.page.add_assign(1);
                self.total = page.total;
                self.images = into_buffer(page.images);
                assert(self@.buffer =~= envelope.images);
                match self.images.pop_front() {
                    Some(image) => {
                        assert(self@.buffer =~= envelope.images.drop_first());
                        Ok(Some(image))
                    },
                    None => {
                        self.finished = true;
                        assert(self@.buffer =~= Seq::<Seq<char>>::empty());
                        Ok(None)
                    },
                }
            },
            Err(error) => {
                self.images = VecDeque::new();
                self.finished = true;
                assert(self@.buffer =~= Seq::<Seq<char>>::empty());
                Err(error)
            },
        }
    }

    /// Takes in the reply to the request that the last pull asked for, and
    /// hands out the first image of the page that it holds. The page number
    /// must leave room for the next.
    pub fn receive(&mut self, reply: Reply) -> (r: Result<Option<Image>, SearchError>)
        requires
            old(self)@.page() < usize::MAX,
        ensures
            (final(self)@, answer(r)) == old(self)@.accept(reply.outcome()),
    {
        self.accept(reply.decode())
    }

    /// What a reply brought, as an item of the sequence: an image or a
    /// failure, or nothing where the sequence has ended.
    pub fn next(brought: Result<Option<Image>, SearchError>) -> (item: Option<
        Result<Image, SearchError>,
    >)
        ensures
            item == match brought {
                Ok(Some(image)) => Some(Ok::<Image, SearchError>(image)),
                Ok(None) => None,
                Err(error) => Some(Err::<Image, SearchError>(error)),
            },
    {
        match brought {
            Ok(Some(image)) => Some(Ok(image)),
            Ok(None) => None,
            Err(error) => Some(Err(error)),
        }
    }
}

} // verus!
