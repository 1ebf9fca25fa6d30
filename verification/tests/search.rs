use derpibooru_search::api::{
    ApiSearchImages, Phase, Pull, Reply, Request, DEFAULT_DELAY_MS, SEARCH_URL,
};
use derpibooru_search::error::SearchError;
use derpibooru_search::models::{Image, Parameters, PerPage};

/// The address of image number `n` of a result, counted from zero.
fn address(n: usize) -> String {
    format!("https://derpicdn.net/img/view/{}.png", n)
}

/// The body of a page that reports `total` and holds the images `from..to`.
fn body(total: usize, from: usize, to: usize) -> String {
    let images: Vec<String> = (from..to)
        .map(|n| format!("{{\"id\":{},\"representations\":{{\"full\":\"{}\",\"thumb\":\"t\"}}}}", n, address(n)))
        .collect();
    format!("{{\"images\":[{}],\"interactions\":[],\"total\":{}}}", images.join(","), total)
}

/// The value that a request carries under `key`.
fn value_of(request: &Request, key: &str) -> Option<String> {
    request.query.iter().find(|pair| pair.0 == key).map(|pair| pair.1.clone())
}

/// A server that holds `total` images and serves them faithfully.
fn serve(total: usize, request: &Request) -> Reply {
    let page: usize = value_of(request, "page").unwrap().parse().unwrap();
    let size: usize = value_of(request, "per_page").unwrap().parse().unwrap();
    let from = ((page - 1) * size).min(total);
    let to = (page * size).min(total);
    Reply::Response { status: 200, body: body(total, from, to) }
}

/// What a consumer sees that pulls until the sequence ends or fails.
struct Seen {
    items: Vec<Image>,
    error: Option<SearchError>,
    requests: Vec<Request>,
}

fn drain(search: &mut ApiSearchImages, server: &mut dyn FnMut(&Request) -> Reply) -> Seen {
    let mut seen = Seen { items: Vec::new(), error: None, requests: Vec::new() };
    loop {
        let item = match search.try_next() {
            Pull::Item(image) => Some(Ok(image)),
            Pull::Exhausted => None,
            Pull::Fetch(request) => {
                let reply = server(&request);
                seen.requests.push(request);
                assert!(search.next_page() < usize::MAX);
                ApiSearchImages::next(search.receive(reply))
            }
        };
        match item {
            Some(Ok(image)) => seen.items.push(image),
            Some(Err(error)) => {
                seen.error = Some(error);
                return seen;
            }
            None => return seen,
        }
    }
}

fn search_for(query: &str) -> ApiSearchImages<'static> {
    ApiSearchImages::new(Parameters::search(query.to_string()))
}

fn addresses(items: &[Image]) -> Vec<String> {
    items.iter().map(|image| image.representations.full.clone()).collect()
}

#[test]
fn three_pages_of_120_images_come_out_in_order() {
    let mut search = search_for("safe");
    let seen = drain(&mut search, &mut |request| serve(120, request));
    assert_eq!(seen.requests.len(), 3);
    assert_eq!(seen.error, None);
    assert_eq!(addresses(&seen.items), (0..120).map(address).collect::<Vec<String>>());
    let pages: Vec<String> =
        seen.requests.iter().map(|request| value_of(request, "page").unwrap()).collect();
    assert_eq!(pages, vec!["1", "2", "3"]);
    for request in &seen.requests {
        assert_eq!(request.endpoint, SEARCH_URL);
        assert_eq!(value_of(request, "per_page").unwrap(), "50");
        assert_eq!(value_of(request, "q").unwrap(), "safe");
    }
    assert_eq!(search.total(), 120);
    assert_eq!(search.next_page(), 4);
    assert_eq!(search.phase(), Phase::Exhausted);
}

#[test]
fn an_empty_result_takes_one_request() {
    let mut search = search_for("nothing matches this");
    let seen = drain(&mut search, &mut |request| serve(0, request));
    assert_eq!(seen.requests.len(), 1);
    assert_eq!(seen.items.len(), 0);
    assert_eq!(seen.error, None);
    assert_eq!(search.phase(), Phase::Exhausted);
    assert_eq!(search.try_next(), Pull::Exhausted);
    assert_eq!(search.try_next(), Pull::Exhausted);
}

#[test]
fn a_failed_second_request_ends_the_sequence() {
    let mut search = search_for("safe");
    let mut sent = 0;
    let seen = drain(&mut search, &mut |request| {
        sent += 1;
        if sent == 2 {
            Reply::Response { status: 500, body: String::from("Internal Server Error") }
        } else {
            serve(120, request)
        }
    });
    assert_eq!(addresses(&seen.items), (0..50).map(address).collect::<Vec<String>>());
    assert_eq!(seen.error, Some(SearchError::UnexpectedStatus(500)));
    assert_eq!(seen.requests.len(), 2);
    assert_eq!(search.phase(), Phase::Exhausted);
    assert_eq!(search.try_next(), Pull::Exhausted);
    assert_eq!(search.receive(serve(120, &seen.requests[1])), Ok(None));
    assert_eq!(search.try_next(), Pull::Exhausted);
}

#[test]
fn a_malformed_first_reply_is_the_only_item() {
    let mut search = search_for("safe");
    let seen = drain(&mut search, &mut |_| Reply::Response {
        status: 200,
        body: String::from("<html>maintenance</html>"),
    });
    assert_eq!(seen.items.len(), 0);
    assert_eq!(seen.requests.len(), 1);
    assert!(matches!(seen.error, Some(SearchError::MalformedResponse(_))));
    assert_eq!(search.try_next(), Pull::Exhausted);
}

#[test]
fn a_request_that_never_arrives_is_a_transport_failure() {
    let mut search = search_for("safe");
    let seen = drain(&mut search, &mut |_| Reply::Failed(String::from("connection refused")));
    assert_eq!(seen.items.len(), 0);
    assert_eq!(
        seen.error,
        Some(SearchError::TransportFailure(String::from("connection refused")))
    );
    assert_eq!(search.phase(), Phase::Exhausted);
}

#[test]
fn the_number_of_requests_is_the_number_of_pages_rounded_up() {
    for (total, requests) in [(1, 1), (49, 1), (50, 1), (51, 2), (100, 2), (101, 3), (250, 5)] {
        let mut search = search_for("safe");
        let seen = drain(&mut search, &mut |request| serve(total, request));
        assert_eq!(seen.requests.len(), requests, "total {}", total);
        assert_eq!(seen.items.len(), total);
        assert_eq!(search.total(), total);
        assert_eq!(seen.error, None);
    }
}

#[test]
fn a_buffered_image_costs_no_request() {
    let mut search = search_for("safe");
    let first = match search.try_next() {
        Pull::Fetch(request) => request,
        other => panic!("expected a request, got {:?}", other),
    };
    assert_eq!(search.receive(serve(120, &first)), Ok(Some(Image::new(address(0)))));
    assert_eq!(search.buffered(), 49);
    assert_eq!(search.phase(), Phase::HasBufferedItems);
    for n in 1..50 {
        assert_eq!(search.try_next(), Pull::Item(Image::new(address(n))));
        assert_eq!(search.next_page(), 2);
    }
    assert_eq!(search.buffered(), 0);
    assert_eq!(search.phase(), Phase::AwaitingNextFetch);
    assert!(matches!(search.try_next(), Pull::Fetch(_)));
}

#[test]
fn a_pull_that_asks_for_a_request_changes_nothing() {
    let mut search = search_for("safe");
    assert_eq!(search.phase(), Phase::AwaitingFirstFetch);
    let first = search.try_next();
    let again = search.try_next();
    assert_eq!(first, again);
    assert_eq!(search.phase(), Phase::AwaitingFirstFetch);
    assert_eq!(search.next_page(), 1);
    assert_eq!(search.total(), 0);
}

#[test]
fn a_search_starts_at_page_one_with_the_largest_page_size() {
    let mut params = Parameters::search(String::from("safe"));
    params.per_page = PerPage::try_from(10).unwrap();
    params.page += 4;
    assert_eq!(params.page.get(), 5);
    let mut search = ApiSearchImages::new(params);
    match search.try_next() {
        Pull::Fetch(request) => {
            assert_eq!(value_of(&request, "page").unwrap(), "1");
            assert_eq!(value_of(&request, "per_page").unwrap(), "50");
            assert_eq!(request.delay_ms, 1100);
            assert_eq!(request.delay_ms, DEFAULT_DELAY_MS);
        }
        other => panic!("expected a request, got {:?}", other),
    }
}

#[test]
fn the_delay_can_be_chosen() {
    let mut search = search_for("safe").with_delay(250);
    assert_eq!(search.delay_ms(), 250);
    match search.try_next() {
        Pull::Fetch(request) => assert_eq!(request.delay_ms, 250),
        other => panic!("expected a request, got {:?}", other),
    }
}

#[test]
fn the_latest_total_counts() {
    let mut search = search_for("safe");
    let mut sent = 0;
    let seen = drain(&mut search, &mut |request| {
        sent += 1;
        if sent == 1 {
            serve(120, request)
        } else {
            serve(70, request)
        }
    });
    assert_eq!(seen.requests.len(), 2);
    assert_eq!(seen.items.len(), 70);
    assert_eq!(search.total(), 70);
}

#[test]
fn an_empty_page_ends_the_sequence() {
    let mut search = search_for("safe");
    let mut sent = 0;
    let seen = drain(&mut search, &mut |request| {
        sent += 1;
        if sent == 1 {
            serve(120, request)
        } else {
            Reply::Response { status: 200, body: body(120, 0, 0) }
        }
    });
    assert_eq!(seen.requests.len(), 2);
    assert_eq!(seen.items.len(), 50);
    assert_eq!(seen.error, None);
    assert_eq!(search.try_next(), Pull::Exhausted);
}

#[test]
fn a_status_other_than_200_is_unexpected() {
    for status in [201u16, 204, 301, 404, 429, 500, 503] {
        let reply = Reply::Response { status, body: body(1, 0, 1) };
        assert_eq!(reply.decode(), Err(SearchError::UnexpectedStatus(status)));
    }
    let reply = Reply::Response { status: 200, body: body(1, 0, 1) };
    assert_eq!(reply.decode().unwrap().images, vec![Image::new(address(0))]);
}

#[test]
fn next_turns_what_a_reply_brought_into_an_item() {
    let image = Image::new(address(7));
    assert_eq!(ApiSearchImages::next(Ok(Some(image.clone()))), Some(Ok(image)));
    assert_eq!(ApiSearchImages::next(Ok(None)), None);
    assert_eq!(
        ApiSearchImages::next(Err(SearchError::UnexpectedStatus(502))),
        Some(Err(SearchError::UnexpectedStatus(502)))
    );
}
