use serp_sdk::streaming::{collect_items, flatten_page, page_query};
use serp_sdk::{Paginator, SearchQuery, SerpError, StopReason, StreamConfig, StreamState};
use std::time::Duration;

#[test]
fn streaming_test_stream_config() {
    let config = StreamConfig::new()
        .page_size(20)
        .unwrap()
        .max_pages(5)
        .delay(std::time::Duration::from_millis(500));

    assert_eq!(config.page_size, 20);
    assert_eq!(config.max_pages, 5);
    assert_eq!(config.delay_between_requests, std::time::Duration::from_millis(500));
}

#[test]
fn test_invalid_page_size() {
    let result = StreamConfig::new().page_size(0);
    assert!(result.is_err());

    let result = StreamConfig::new().page_size(101);
    assert!(result.is_err());
}

#[test]
fn integration_test_stream_config() {
    let config = StreamConfig::new()
        .page_size(20)
        .unwrap()
        .max_pages(5)
        .delay(Duration::from_millis(500));

    assert_eq!(config.page_size, 20);
    assert_eq!(config.max_pages, 5);
    assert_eq!(config.delay_between_requests, Duration::from_millis(500));
}

#[test]
fn test_stream_config_validation() {
    let result = StreamConfig::new().page_size(0);
    assert!(result.is_err());

    let result = StreamConfig::new().page_size(101);
    assert!(result.is_err());
}

#[test]
fn default_stream_config() {
    let c = StreamConfig::default();
    assert_eq!(c.page_size, 10);
    assert_eq!(c.max_pages, 10);
    assert_eq!(c.delay_between_requests, Duration::from_millis(100));
    assert!(matches!(StreamConfig::new().page_size(0), Err(SerpError::InvalidParameter(_))));
}

fn config(page_size: u32, max_pages: usize) -> StreamConfig {
    StreamConfig::new()
        .page_size(page_size)
        .unwrap()
        .max_pages(max_pages)
        .delay(Duration::from_millis(250))
}

/// Drives a paginator; `outcome(k)` says whether page k is fetched and
/// whether the predicate matches it. Returns the pages requested.
fn drive(p: &mut Paginator, outcome: impl Fn(usize) -> (bool, bool)) -> Vec<(usize, Option<u32>, Option<u32>)> {
    let mut seen = Vec::new();
    while let Some(req) = p.next_request() {
        let q = req.query.build("k".to_string());
        seen.push((req.page, q.num(), q.start()));
        let (ok, matched) = outcome(req.page);
        p.record(ok, matched);
    }
    seen
}

#[test]
fn pages_use_offsets_in_order_within_budget() {
    let mut p = Paginator::new(SearchQuery::new("rust"), config(5, 3));
    let seen = drive(&mut p, |_| (true, false));
    assert_eq!(
        seen,
        vec![(0, Some(5), Some(0)), (1, Some(5), Some(5)), (2, Some(5), Some(10))]
    );
    assert_eq!(p.current_state(), StreamState::Stopped(StopReason::Exhausted));
}

#[test]
fn failure_on_second_page_stops_the_stream() {
    let mut p = Paginator::new(SearchQuery::new("rust"), config(5, 3));
    let seen = drive(&mut p, |k| (k != 1, false));
    assert_eq!(seen.len(), 2);
    assert_eq!(p.current_state(), StreamState::Stopped(StopReason::Failed));
}

#[test]
fn predicate_match_on_first_page_stops_the_stream() {
    let mut p = Paginator::new(SearchQuery::new("rust"), config(5, 4));
    let seen = drive(&mut p, |k| (true, k == 0));
    assert_eq!(seen.len(), 1);
    assert_eq!(p.current_state(), StreamState::Stopped(StopReason::PredicateMatched));
}

#[test]
fn failure_on_last_page_counts_as_exhausted() {
    let mut p = Paginator::new(SearchQuery::new("rust"), config(5, 2));
    let seen = drive(&mut p, |k| (k != 1, false));
    assert_eq!(seen.len(), 2);
    assert_eq!(p.current_state(), StreamState::Stopped(StopReason::Exhausted));
}

#[test]
fn zero_page_budget_fetches_nothing() {
    let mut p = Paginator::new(SearchQuery::new("rust"), config(5, 0));
    assert!(drive(&mut p, |_| (true, false)).is_empty());
    assert_eq!(p.current_state(), StreamState::Stopped(StopReason::Exhausted));
}

#[test]
fn record_after_stop_changes_nothing() {
    let mut p = Paginator::new(SearchQuery::new("rust"), config(5, 1));
    drive(&mut p, |_| (true, false));
    p.record(false, true);
    assert!(p.next_request().is_none());
    assert_eq!(p.current_state(), StreamState::Stopped(StopReason::Exhausted));
}

#[test]
fn pause_before_every_page_but_the_first() {
    let mut p = Paginator::new(SearchQuery::new("rust"), config(5, 3));
    let mut pauses = Vec::new();
    while let Some(req) = p.next_request() {
        pauses.push(req.pause);
        p.record(true, false);
    }
    let d = Some(Duration::from_millis(250));
    assert_eq!(pauses, vec![None, d, d]);
}

#[test]
fn page_size_overrides_base_count_on_every_page() {
    let base = SearchQuery::new("rust").limit(50).unwrap();
    let mut p = Paginator::new(base, config(7, 4));
    let seen = drive(&mut p, |_| (true, false));
    assert_eq!(seen.len(), 4);
    for (k, num, start) in seen {
        assert_eq!(num, Some(7));
        assert_eq!(start, Some(7 * k as u32));
    }
}

#[test]
fn page_query_keeps_count_for_out_of_range_page_size() {
    let base = SearchQuery::new("rust").limit(50).unwrap();
    let q = page_query(&base, 0, 3).build("k".to_string());
    assert_eq!(q.num(), Some(50));
    assert_eq!(q.start(), Some(0));
}

#[test]
fn page_offset_wraps_at_32_bits() {
    let base = SearchQuery::new("rust");
    let q = page_query(&base, 100, 42_949_673).build("k".to_string());
    assert_eq!(q.start(), Some(4));
}

#[test]
fn flattened_pages_keep_order_and_skip_empty() {
    let mut items: Vec<Result<&str, SerpError>> = Vec::new();
    items.extend(flatten_page(Ok(Some(vec!["a", "b", "c"]))));
    items.extend(flatten_page::<&str>(Ok(Some(vec![]))));
    assert_eq!(items.len(), 3);
    let values: Vec<&str> = items.into_iter().map(|r| r.unwrap()).collect();
    assert_eq!(values, vec!["a", "b", "c"]);
}

#[test]
fn flattened_missing_list_and_failed_page() {
    assert!(flatten_page::<u8>(Ok(None)).is_empty());
    let failed = flatten_page::<u8>(Err(SerpError::Timeout));
    assert_eq!(failed.len(), 1);
    assert!(matches!(failed[0], Err(SerpError::Timeout)));
}

#[test]
fn collect_returns_all_values_or_first_error() {
    let ok: Vec<Result<u8, SerpError>> = vec![Ok(1), Ok(2), Ok(3)];
    assert_eq!(collect_items(ok).unwrap(), vec![1, 2, 3]);

    let bad: Vec<Result<u8, SerpError>> = vec![
        Ok(1),
        Err(SerpError::Network("first".to_string())),
        Err(SerpError::Timeout),
    ];
    match collect_items(bad) {
        Err(SerpError::Network(m)) => assert_eq!(m, "first"),
        other => panic!("unexpected {:?}", other),
    }
    assert!(collect_items::<u8>(Vec::new()).unwrap().is_empty());
}
