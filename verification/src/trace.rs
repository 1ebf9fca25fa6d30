//! What a whole search yields.
//!
//! A consumer pulls until the sequence ends or fails, and sends each request
//! that a pull asks for. [`drain`] is that loop written down once, against a
//! list of what the server sends back to each request in turn. The proofs
//! of this file say what holds of it.

use crate::api::{Decision, Phase, State};
use crate::error::Failure;
use crate::models::images::Envelope;
use crate::models::parameters::Query;
use vstd::prelude::*;

verus! {

/// What the server sends back, request after request.
pub type Script = Seq<Result<Envelope, Failure>>;

/// What a consumer has seen when it stops pulling.
pub struct Trace {
    /// The images handed out, in order.
    pub items: Seq<Seq<char>>,
    /// The number of requests sent.
    pub fetches: nat,
    /// The page that each request asked for, in order.
    pub requested: Seq<nat>,
    /// The failure that ended the sequence, if one did.
    pub failure: Option<Failure>,
    /// Whether the sequence came to its end. It did not where a request went
    /// out that the script holds no reply for.
    pub complete: bool,
    /// The search as the consumer leaves it.
    pub end: State,
}

impl Trace {
    /// A consumer that stops at once.
    pub open spec fn stop(end: State, complete: bool) -> Trace {
        Trace {
            items: Seq::empty(),
            fetches: 0,
            requested: Seq::empty(),
            failure: None,
            complete,
            end,
        }
    }

    /// The same trace after one more image in front.
    pub open spec fn yielding(self, image: Seq<char>) -> Trace {
        Trace { items: seq![image] + self.items, ..self }
    }

    /// The same trace after one more request in front, for the given page.
    pub open spec fn fetching(self, page: nat) -> Trace {
        Trace { fetches: self.fetches + 1, requested: seq![page] + self.requested, ..self }
    }
}

/// Pulls until the sequence ends or fails, answering each request with the
/// next entry of the script.
pub open spec fn drain(search: State, script: Script) -> Trace
    decreases script.len(), search.buffer.len(),
{
    let (pulled, decision) = search.pull();
    match decision {
        Decision::Item(image) => drain(pulled, script).yielding(image),
        Decision::Exhausted => Trace::stop(pulled, true),
        Decision::Fetch(_) => if script.len() == 0 {
            Trace::stop(pulled, false)
        } else {
            let (next, answer) = pulled.accept(script[0]);
            match answer {
                Ok(Some(image)) => drain(next, script.drop_first()).yielding(image).fetching(
                    search.page(),
                ),
                Ok(None) => Trace::stop(next, true).fetching(search.page()),
                Err(failure) => Trace { failure: Some(failure), ..Trace::stop(next, true) }.fetching(
                    search.page(),
                ),
            }
        },
    }
}

/// The images of the pages of a script, one page after the other. A failure
/// holds no images.
pub open spec fn served_images(script: Script) -> Seq<Seq<char>>
    decreases script.len(),
{
    if script.len() == 0 {
        Seq::empty()
    } else {
        (match script[0] {
            Ok(envelope) => envelope.images,
            Err(_) => Seq::empty(),
        }) + served_images(script.drop_first())
    }
}

/// The images come out in the order in which the server sent them: first
/// what was buffered, then the images of each page fetched, page after page,
/// and nothing else. The requests ask for consecutive pages, starting with the
/// search's next page.
pub proof fn drain_keeps_order(search: State, script: Script)
    ensures
        drain(search, script).fetches <= script.len(),
        drain(search, script).items == search.buffer + served_images(
            script.take(drain(search, script).fetches as int),
        ),
        drain(search, script).requested == Seq::new(
            drain(search, script).fetches,
            |i: int| (search.page() + i) as nat,
        ),
    decreases script.len(), search.buffer.len(),
{
    let trace = drain(search, script);
    let (pulled, decision) = search.pull();
    match decision {
        Decision::Item(image) => {
            drain_keeps_order(pulled, script);
            let rest = drain(pulled, script);
            assert(trace.items =~= search.buffer + served_images(script.take(rest.fetches as int)));
        },
        Decision::Exhausted => {
            assert(script.take(0) =~= Seq::empty());
            assert(trace.items =~= search.buffer + served_images(script.take(0)));
            assert(trace.requested =~= Seq::new(0, |i: int| (search.page() + i) as nat));
        },
        Decision::Fetch(_) => {
            if script.len() == 0 {
                assert(script.take(0) =~= Seq::empty());
                assert(trace.items =~= search.buffer + served_images(script.take(0)));
                assert(trace.requested =~= Seq::new(0, |i: int| (search.page() + i) as nat));
            } else {
                let (next, answer) = pulled.accept(script[0]);
                let head = script.take(1);
                assert(head.drop_first() =~= Seq::empty());
                assert(head[0] == script[0]);
                assert(served_images(head.drop_first()) =~= Seq::empty());
                match answer {
                    Ok(Some(image)) => {
                        let rest = drain(next, script.drop_first());
                        drain_keeps_order(next, script.drop_first());
                        let taken = script.take(rest.fetches as int + 1);
                        assert(taken.drop_first() =~= script.drop_first().take(
                            rest.fetches as int,
                        ));
                        assert(taken[0] == script[0]);
                        let page = script[0]->Ok_0.images;
                        assert(seq![image] + next.buffer =~= page);
                        assert(trace.items =~= search.buffer + served_images(taken));
                        assert(trace.requested =~= Seq::new(
                            trace.fetches,
                            |i: int| (search.page() + i) as nat,
                        ));
                    },
                    Ok(None) => {
                        assert(script[0]->Ok_0.images =~= Seq::empty());
                        assert(served_images(head) =~= Seq::empty());
                        assert(trace.items =~= search.buffer + served_images(head));
                        assert(trace.requested =~= Seq::new(
                            1,
                            |i: int| (search.page() + i) as nat,
                        ));
                    },
                    Err(failure) => {
                        assert(served_images(head) =~= Seq::empty());
                        assert(trace.items =~= search.buffer + served_images(head));
                        assert(trace.requested =~= Seq::new(
                            1,
                            |i: int| (search.page() + i) as nat,
                        ));
                    },
                }
            }
        },
    }
}

/// A search changes nothing of its parameters but the page, which moves on
/// by one with each reply that holds a page; it keeps the largest page size
/// from its first request to its last, and its time to wait.
pub proof fn drain_moves_only_the_page(search: State, script: Script)
    ensures
        drain(search, script).end.query == search.query.at_page(drain(search, script).end.page()),
        drain(search, script).end.delay_ms == search.delay_ms,
        search.page() <= drain(search, script).end.page() <= search.page() + drain(
            search,
            script,
        ).fetches,
    decreases script.len(), search.buffer.len(),
{
    let (pulled, decision) = search.pull();
    match decision {
        Decision::Item(image) => {
            drain_moves_only_the_page(pulled, script);
        },
        Decision::Exhausted => {},
        Decision::Fetch(_) => {
            if script.len() > 0 {
                let (next, answer) = pulled.accept(script[0]);
                match answer {
                    Ok(Some(image)) => {
                        drain_moves_only_the_page(next, script.drop_first());
                    },
                    Ok(None) => {},
                    Err(failure) => {},
                }
            }
        },
    }
}

/// A sequence that has ended stays ended: every further pull says so again,
/// asks for no request and changes nothing, and a reply that still comes in
/// is dropped.
pub proof fn exhausted_is_terminal(search: State, script: Script)
    requires
        search.phase() == Phase::Exhausted,
    ensures
        search.pull() == (search, Decision::Exhausted),
        forall|fetched: Result<Envelope, Failure>| #[trigger]
            search.accept(fetched) == (search, Ok::<Option<Seq<char>>, Failure>(None)),
        drain(search, script) == Trace::stop(search, true),
{
}

/// A sequence that came to its end, with or without a failure, is exhausted:
/// nothing is buffered any more and no pull will ask for another page.
pub proof fn drain_ends_exhausted(search: State, script: Script)
    requires
        drain(search, script).complete,
    ensures
        drain(search, script).end.phase() == Phase::Exhausted,
    decreases script.len(), search.buffer.len(),
{
    let (pulled, decision) = search.pull();
    match decision {
        Decision::Item(image) => {
            drain_ends_exhausted(pulled, script);
        },
        Decision::Exhausted => {},
        Decision::Fetch(_) => {
            if script.len() > 0 {
                let (next, answer) = pulled.accept(script[0]);
                match answer {
                    Ok(Some(image)) => {
                        drain_ends_exhausted(next, script.drop_first());
                    },
                    Ok(None) => {},
                    Err(failure) => {},
                }
            }
        },
    }
}

/// Only the last request of a search can fail or come back empty: every
/// reply before it brought a page with images. And a search reports a failure
/// just when its last request failed, and reports that failure.
pub proof fn drain_stops_at_failure(search: State, script: Script)
    ensures
        forall|i: int|
            0 <= i < drain(search, script).fetches - 1 ==> (#[trigger] script[i] matches Ok(
                envelope,
            ) && envelope.images.len() > 0),
        match drain(search, script).failure {
            Some(failure) => drain(search, script).fetches >= 1 && script[drain(
                search,
                script,
            ).fetches - 1] == Err::<Envelope, Failure>(failure),
            None => drain(search, script).fetches >= 1 ==> script[drain(search, script).fetches
                - 1] is Ok,
        },
    decreases script.len(), search.buffer.len(),
{
    let trace = drain(search, script);
    let (pulled, decision) = search.pull();
    drain_keeps_order(search, script);
    match decision {
        Decision::Item(image) => {
            drain_stops_at_failure(pulled, script);
        },
        Decision::Exhausted => {},
        Decision::Fetch(_) => {
            if script.len() > 0 {
                let (next, answer) = pulled.accept(script[0]);
                match answer {
                    Ok(Some(image)) => {
                        let rest = script.drop_first();
                        drain_stops_at_failure(next, rest);
                        drain_keeps_order(next, rest);
                        assert forall|i: int| 0 <= i < trace.fetches - 1 implies (
                        #[trigger] script[i] matches Ok(envelope) && envelope.images.len()
                            > 0) by {
                            if i > 0 {
                                assert(script[i] == rest[i - 1]);
                            }
                        }
                        if drain(next, rest).fetches >= 1 {
                            assert(script[trace.fetches - 1] == rest[drain(next, rest).fetches
                                - 1]);
                        }
                    },
                    Ok(None) => {},
                    Err(failure) => {},
                }
            }
        },
    }
}

/// The number of images on one page of a result of `total` images that is
/// cut into pages of `size`; pages are counted from one.
pub open spec fn page_len(total: nat, size: nat, page: nat) -> nat {
    let before = (page - 1) * size;
    if before >= total {
        0
    } else if total - before >= size {
        size
    } else {
        (total - before) as nat
    }
}

/// The number of pages that hold a result of `total` images in pages of
/// `size`: the quotient, rounded up.
pub open spec fn pages_needed(total: nat, size: nat) -> nat {
    if size == 0 {
        0
    } else {
        ((total + size - 1) / size as int) as nat
    }
}

/// A script serves a result of `total` images, from page `first` on, when each
/// of its replies is a page that reports that total and holds that page's
/// share of the images.
pub open spec fn serves(script: Script, total: nat, size: nat, first: nat) -> bool {
    forall|i: int|
        0 <= i < script.len() ==> (#[trigger] script[i] matches Ok(envelope) && envelope.total
            == total && envelope.images.len() == page_len(total, size, (first + i) as nat))
}

/// A number of pages covers a total just when it is at least the number of
/// pages needed.
pub proof fn pages_needed_is_least(total: nat, size: nat, pages: nat)
    requires
        size >= 1,
    ensures
        pages * size >= total <==> pages >= pages_needed(total, size),
{
    let width = size as int;
    let sum = total + size - 1;
    let needed = sum / width;
    vstd::arithmetic::div_mod::lemma_fundamental_div_mod(sum, width);
    if pages >= needed {
        assert(pages * width >= total) by (nonlinear_arith)
            requires
                pages >= needed,
                width >= 1,
                sum == width * needed + sum % width,
                0 <= sum % width < width,
                sum == total + width - 1,
        ;
    } else {
        assert(pages * width < total) by (nonlinear_arith)
            requires
                0 <= pages <= needed - 1,
                width >= 1,
                sum == width * needed + sum % width,
                0 <= sum % width < width,
                sum == total + width - 1,
        ;
    }
}

/// The images that a result of `total` images still holds from page `page` on.
pub open spec fn images_left(total: nat, size: nat, page: nat) -> nat {
    if (page - 1) * size >= total {
        0
    } else {
        (total - (page - 1) * size) as nat
    }
}

/// A search in the middle of a result that the server serves faithfully comes
/// to its end without a failure, sends one request for each page that is
/// left, and hands out what is buffered and every image that is left.
pub proof fn drain_of_served(search: State, script: Script, total: nat)
    requires
        total > 0,
        search.query.per_page >= 1,
        search.page() >= 1,
        !search.finished,
        search.total == total || (search.total == 0 && search.page() == 1),
        serves(script, total, search.query.per_page, search.page()),
        script.len() + search.page() - 1 >= pages_needed(total, search.query.per_page),
    ensures
        drain(search, script).complete,
        drain(search, script).failure is None,
        drain(search, script).fetches == if pages_needed(total, search.query.per_page)
            >= search.page() - 1 {
            pages_needed(total, search.query.per_page) - (search.page() - 1)
        } else {
            0
        },
        drain(search, script).items.len() == search.buffer.len() + images_left(
            total,
            search.query.per_page,
            search.page(),
        ),
        drain(search, script).end.total == total,
    decreases script.len(), search.buffer.len(),
{
    let size = search.query.per_page;
    let page = search.page();
    let fetched = (page - 1) as nat;
    let (pulled, decision) = search.pull();
    pages_needed_is_least(total, size, fetched);
    match decision {
        Decision::Item(image) => {
            drain_of_served(pulled, script, total);
        },
        Decision::Exhausted => {},
        Decision::Fetch(_) => {
            assert(fetched * size < total) by {
                if search.total == 0 {
                    assert(fetched * size == 0) by (nonlinear_arith)
                        requires
                            fetched == 0,
                    ;
                }
            }
            assert(script.len() >= 1);
            let envelope = script[0]->Ok_0;
            assert(script[0] is Ok);
            assert(envelope.images.len() == page_len(total, size, page));
            let (next, answer) = pulled.accept(script[0]);
            let rest = script.drop_first();
            assert forall|i: int| 0 <= i < rest.len() implies (#[trigger] rest[i] matches Ok(
                reply,
            ) && reply.total == total && reply.images.len() == page_len(
                total,
                size,
                (next.page() + i) as nat,
            )) by {
                assert(rest[i] == script[i + 1]);
            }
            pages_needed_is_least(total, size, page);
            assert(page * size == fetched * size + size) by (nonlinear_arith)
                requires
                    page == fetched + 1,
            ;
            drain_of_served(next, rest, total);
        },
    }
}

/// A search of a result that the server serves faithfully hands out every
/// image of the result: as many as the total that the server reports. It sends
/// one request for each page of 50 that the result fills, the last one in
/// part, and not one more.
pub proof fn served_result_is_drained(query: Query, script: Script, total: nat)
    requires
        total > 0,
        serves(script, total, 50, 1),
        script.len() >= pages_needed(total, 50),
    ensures
        drain(State::initial(query), script).complete,
        drain(State::initial(query), script).failure is None,
        drain(State::initial(query), script).fetches == pages_needed(total, 50),
        drain(State::initial(query), script).items.len() == total,
        drain(State::initial(query), script).end.total == total,
        drain(State::initial(query), script).end.phase() == Phase::Exhausted,
{
    let search = State::initial(query);
    drain_of_served(search, script, total);
    drain_ends_exhausted(search, script);
    assert((search.page() - 1) * search.query.per_page == 0) by (nonlinear_arith)
        requires
            search.page() == 1,
    ;
}

/// A search whose first reply reports no images at all hands out nothing and
/// is exhausted after that one request.
pub proof fn empty_result_ends_at_once(query: Query, script: Script)
    requires
        script.len() >= 1,
        script[0] matches Ok(envelope) && envelope.total == 0 && envelope.images.len() == 0,
    ensures
        drain(State::initial(query), script).items == Seq::<Seq<char>>::empty(),
        drain(State::initial(query), script).fetches == 1,
        drain(State::initial(query), script).complete,
        drain(State::initial(query), script).failure is None,
        drain(State::initial(query), script).end.phase() == Phase::Exhausted,
{
    let search = State::initial(query);
    assert(drain(State::initial(query), script).items =~= Seq::<Seq<char>>::empty());
}

} // verus!
