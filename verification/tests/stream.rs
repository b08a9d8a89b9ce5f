use planchet::models::Category;
use planchet::models::Issuer;
use planchet::models::SearchTypeResult;
use planchet::parse_api_error;
use planchet::ClientBuilder;
use planchet::Error;
use planchet::KnownApiError;
use planchet::PageStream;
use planchet::PullOutcome;
use planchet::SearchTypesParams;

fn item(id: i64) -> SearchTypeResult {
    SearchTypeResult {
        id,
        title: format!("Type {}", id),
        category: Category::Coin,
        issuer: Issuer {
            code: "canada".to_string(),
            name: "Canada".to_string(),
        },
        min_year: Some(1858),
        max_year: Some(1901),
        obverse_thumbnail: None,
        reverse_thumbnail: None,
    }
}

/// Drains a stream of integers, recording the emitted items, any emitted
/// failure, and the page numbers that were requested; pages are answered
/// from `pages`, each with the same reported `count`.
fn drain(
    stream: &mut PageStream<i64>,
    count: i64,
    pages: &[Vec<i64>],
) -> (Vec<i64>, Option<Error>, Vec<i64>) {
    let mut items = Vec::new();
    let mut failure = None;
    let mut requested = Vec::new();
    loop {
        match stream.pull() {
            PullOutcome::Item(x) => items.push(x),
            PullOutcome::Failure(e) => failure = Some(e),
            PullOutcome::NeedPage(p) => {
                requested.push(p);
                let idx = (p - 1) as usize;
                stream.provide_page(count, pages[idx].clone());
            }
            PullOutcome::Done => break,
        }
    }
    (items, failure, requested)
}

#[test]
fn full_pages_drain_in_order_test() {
    // 26 items over a 25-item page and a 1-item page, with the total
    // reported as 26 throughout.
    let page1: Vec<i64> = (1..=25).collect();
    let page2: Vec<i64> = vec![26];
    let page3: Vec<i64> = vec![];
    let mut stream: PageStream<i64> = PageStream::new();
    let (items, failure, requested) = drain(&mut stream, 26, &[page1, page2, page3]);
    let expected: Vec<i64> = (1..=26).collect();
    assert_eq!(items, expected);
    assert!(failure.is_none());
    // the reported total is reached with page 2, so no further page is
    // ever requested
    assert_eq!(requested, vec![1, 2]);
}

#[test]
fn early_empty_page_terminates_test() {
    // page 1 reports a total of 10 but the stream sees an empty page 2:
    // it ends silently, with no error and no third request.
    let page1: Vec<i64> = vec![1, 2];
    let page2: Vec<i64> = vec![];
    let mut stream: PageStream<i64> = PageStream::new();
    let (items, failure, requested) = drain(&mut stream, 10, &[page1, page2]);
    assert_eq!(items, vec![1, 2]);
    assert!(failure.is_none());
    assert_eq!(requested, vec![1, 2]);
}

#[test]
fn empty_first_page_test() {
    let mut stream: PageStream<i64> = PageStream::new();
    let (items, failure, requested) = drain(&mut stream, 0, &[vec![]]);
    assert!(items.is_empty());
    assert!(failure.is_none());
    assert_eq!(requested, vec![1]);
}

#[test]
fn failure_short_circuit_test() {
    // page 2 of a 3-page stream fails with RateLimitExceeded: the
    // consumer sees the items of page 1, then exactly one error, then
    // the end; page 3 is never requested.
    let mut stream: PageStream<i64> = PageStream::new();
    let mut items = Vec::new();
    let mut failures = Vec::new();
    let mut requested = Vec::new();
    loop {
        match stream.pull() {
            PullOutcome::Item(x) => items.push(x),
            PullOutcome::Failure(e) => failures.push(e),
            PullOutcome::NeedPage(p) => {
                requested.push(p);
                if p == 1 {
                    stream.provide_page(9, vec![1, 2, 3]);
                } else {
                    stream.provide_failure(parse_api_error(429, "rate limited".to_string()));
                }
            }
            PullOutcome::Done => break,
        }
    }
    assert_eq!(items, vec![1, 2, 3]);
    assert_eq!(requested, vec![1, 2]);
    assert_eq!(failures.len(), 1);
    match &failures[0] {
        Error::ApiError(a) => {
            assert_eq!(a.kind, Some(KnownApiError::RateLimitExceeded));
            assert_eq!(a.status, 429);
        }
        _ => panic!("expected an ApiError"),
    }
    // the stream is over for good: further pulls keep reporting Done
    assert!(matches!(stream.pull(), PullOutcome::Done));
    assert!(matches!(stream.pull(), PullOutcome::Done));
}

#[test]
fn transport_failure_terminates_test() {
    let mut stream: PageStream<i64> = PageStream::new();
    match stream.pull() {
        PullOutcome::NeedPage(1) => {
            stream.provide_failure(Error::Request("connection refused".to_string()))
        }
        _ => panic!("expected the stream to request page 1"),
    }
    match stream.pull() {
        PullOutcome::Failure(Error::Request(m)) => assert_eq!(m, "connection refused"),
        _ => panic!("expected the transport failure to be emitted"),
    }
    assert!(matches!(stream.pull(), PullOutcome::Done));
}

#[test]
fn search_scenario_test() {
    // search("victoria"): page 1 answers {count: 2, items: [id 1]},
    // page 2 answers {count: 2, items: [id 2]}; draining yields the two
    // items, and the reported total stops the stream there.
    let client = ClientBuilder::new()
        .api_key("test_key".to_string())
        .build()
        .unwrap();
    let params = SearchTypesParams::new().q("victoria".to_string());
    let mut stream = client.stream_all_types(params);

    let mut ids = Vec::new();
    let mut requested = Vec::new();
    loop {
        match stream.pull() {
            PullOutcome::Item(t) => ids.push(t.id),
            PullOutcome::Failure(e) => panic!("unexpected failure: {:?}", e),
            PullOutcome::NeedPage(p) => {
                requested.push(p);
                let spec = stream.page_request(p);
                assert_eq!(spec.url, "https://api.numista.com/v3/types");
                let page_value = spec
                    .query
                    .iter()
                    .find(|(n, _)| n == "page")
                    .map(|(_, v)| v.clone())
                    .unwrap();
                assert_eq!(page_value, format!("{}", p));
                if p == 1 {
                    stream.provide_page(2, vec![item(1)]);
                } else {
                    stream.provide_page(2, vec![item(2)]);
                }
            }
            PullOutcome::Done => break,
        }
    }
    assert_eq!(ids, vec![1, 2]);
    assert_eq!(requested, vec![1, 2]);
}

#[test]
fn stream_is_freshly_created_per_call_test() {
    let client = ClientBuilder::new()
        .api_key("test_key".to_string())
        .build()
        .unwrap();
    let params = SearchTypesParams::new().q("victoria".to_string());
    let mut first = client.stream_all_types(params.clone());
    match first.pull() {
        PullOutcome::NeedPage(1) => first.provide_page(1, vec![item(7)]),
        _ => panic!("expected the first stream to request page 1"),
    }
    assert!(matches!(first.pull(), PullOutcome::Item(t) if t.id == 7));

    // a second stream with the same parameters starts over at page 1
    let mut second = client.stream_all_types(params);
    assert!(matches!(second.pull(), PullOutcome::NeedPage(1)));
}

#[test]
fn buffered_items_kept_in_page_order_test() {
    let mut stream: PageStream<i64> = PageStream::new();
    let (items, failure, requested) =
        drain(&mut stream, 6, &[vec![10, 20, 30], vec![40, 50, 60], vec![]]);
    assert_eq!(items, vec![10, 20, 30, 40, 50, 60]);
    assert!(failure.is_none());
    assert_eq!(requested, vec![1, 2]);
}
