use esq::dates::day_long_offset;
use esq::builder::{
    MatchClause, Query, RangeClause, SearchQueryBuilder, SortField, DEFAULT_SIZE,
};
use esq::error::ESQError;
use esq::paginator::PaginatorState;
use esq::params::{validate_parameters, ValidationResult};
use esq::plan::{seek_origin, seek_request, ExtractionParameters, Hit, BATCH_SIZE};
use esq::snapshot::SnapshotManager;

fn sort(fields: &[(&str, bool)]) -> Vec<SortField> {
    fields
        .iter()
        .map(|(f, a)| SortField { field: f.to_string(), ascending: *a })
        .collect()
}

fn resolve(
    around: Option<&str>,
    from: Option<&str>,
    to: Option<&str>,
    lines: u32,
    follow: bool,
) -> (ValidationResult, ExtractionParameters) {
    let around = around.map(|s| s.to_string());
    let from = from.map(|s| s.to_string());
    let to = to.map(|s| s.to_string());
    let v = validate_parameters(&around, &from, &to, &lines, follow, &None, &None).unwrap();
    let p = ExtractionParameters::from_mode(&v, &lines, &around, &to).unwrap();
    (v, p)
}

fn hit(n: u32) -> Hit {
    Hit { source: format!("{{\"n\":{}}}", n), sort: Some(format!("[{}]", n)) }
}

fn hits(from: u32, count: u32) -> Vec<Hit> {
    (from..from + count).map(hit).collect()
}

#[test]
fn plan_of_each_mode() {
    let (_, p) = resolve(Some("2024-01-01"), None, None, 10, false);
    assert!(p.use_pit);
    assert_eq!(p.total_docs, Some(10));
    let s = p.seek_origin.unwrap();
    assert_eq!(s.datetime, Some("2024-01-01".to_string()));
    assert_eq!(s.size, 5);
    assert_eq!(p.sort_order, sort(&[("@timestamp", true), ("_shard_doc", true)]));

    let (_, p) = resolve(None, None, Some("2024-01-01"), 7, false);
    assert!(p.use_pit);
    assert_eq!(p.seek_origin.unwrap().size, 7);

    let (_, p) = resolve(None, Some("2024-01-01"), None, 20000, false);
    assert!(!p.use_pit);
    assert_eq!(p.total_docs, Some(20000));
    assert!(p.seek_origin.is_none());
    assert_eq!(p.sort_order, sort(&[("@timestamp", true), ("_shard_doc", true)]));

    let (_, p) = resolve(None, Some("2024-01-01"), Some("2024-01-02"), 10, false);
    assert!(p.use_pit);
    assert_eq!(p.total_docs, None);
    assert!(p.seek_origin.is_none());
    assert!(!p.sleep_between_batches);

    let (_, p) = resolve(None, None, None, 10, true);
    assert!(p.use_pit);
    assert_eq!(p.total_docs, None);
    assert!(p.sleep_between_batches);
    let s = p.seek_origin.unwrap();
    assert_eq!((s.datetime, s.size), (None, 10));

    let (_, p) = resolve(None, None, None, 20, false);
    assert!(!p.use_pit);
    assert_eq!(p.total_docs, Some(20));
    assert!(!p.sleep_between_batches);
}

#[test]
fn probe_looks_back_from_now() {
    let (_, p) = resolve(None, None, None, 20, false);
    let q = seek_request(&p).unwrap().unwrap();
    assert_eq!(q.size, 21);
    assert_eq!(q.sort, sort(&[("@timestamp", false), ("_shard_doc", true)]));
    assert_eq!(q.source, Some(vec![]));
    assert_eq!(q.search_after, None);
    assert_eq!(
        q.query,
        Some(Query::Range(RangeClause { gte: None, lt: "now-1m".to_string() }))
    );
}

#[test]
fn probe_around_anchor_takes_half() {
    let (_, p) = resolve(Some("2024-01-01T10:00:00Z"), None, None, 10, false);
    let q = seek_request(&p).unwrap().unwrap();
    assert_eq!(q.size, 6);
    assert_eq!(q.sort, sort(&[("@timestamp", false), ("_shard_doc", true)]));
    let expected = dateparser::parse("2024-01-01T10:00:00Z").unwrap().to_rfc3339();
    assert_eq!(q.query, Some(Query::Range(RangeClause { gte: None, lt: expected })));
}

#[test]
fn probe_with_unreadable_anchor_fails() {
    let (_, p) = resolve(None, None, Some("not a date at all"), 10, false);
    assert!(matches!(seek_request(&p), Err(ESQError::DateParseError(_))));
    let (_, p) = resolve(Some("not a date at all"), None, None, 10, false);
    assert!(matches!(seek_request(&p), Err(ESQError::DateParseError(_))));
    let (_, p) = resolve(None, Some("2024-01-01"), None, 10, false);
    assert!(matches!(seek_request(&p), Ok(None)));
}

#[test]
fn probe_keeps_filters() {
    let v = validate_parameters(&None, &None, &None, &10, false, &None, &Some("a:1".to_string()))
        .unwrap();
    let p = ExtractionParameters::from_mode(&v, &10, &None, &None).unwrap();
    let q = seek_request(&p).unwrap().unwrap();
    match q.query {
        Some(Query::Both(range, MatchClause::Match(f))) => {
            assert_eq!(range.lt, "now-1m");
            assert_eq!((f.field.as_str(), f.value.as_str()), ("a", "1"));
        }
        other => panic!("unexpected query {:?}", other),
    }
}

#[test]
fn probe_cursor_is_last_hit() {
    assert_eq!(seek_origin(&vec![]), None);
    assert_eq!(seek_origin(&hits(3, 4)), Some("[6]".to_string()));
}

#[test]
fn empty_batch_ends_bounded_loop() {
    let (_, p) = resolve(None, Some("2024-01-01"), None, 10, false);
    let mut state = PaginatorState::new(&p);
    assert!(state.advance(&vec![]));
    assert_eq!(state.cursor, None);
    assert_eq!(state.remaining, Some(10));
    let (_, p) = resolve(None, Some("2024-01-01"), None, 100, false);
    let mut state = PaginatorState::new(&p);
    assert!(!state.advance(&hits(0, 4)));
    assert!(state.advance(&vec![]));
    assert_eq!(state.cursor, Some("[3]".to_string()));
    assert_eq!(state.remaining, Some(96));
}

#[test]
fn empty_batch_keeps_polling() {
    let (_, p) = resolve(None, None, None, 10, true);
    let mut state = PaginatorState::new(&p);
    assert!(!state.advance(&vec![]));
    assert!(!state.advance(&hits(0, 3000)));
    assert_eq!(state.batch_size(BATCH_SIZE), 1000);
    assert_eq!(state.cursor, Some("[2999]".to_string()));
}

#[test]
fn budget_of_25_in_batches_of_10() {
    let mut state = PaginatorState { cursor: None, remaining: Some(25), polling: false };
    let mut sizes = vec![];
    let mut cursors = vec![];
    let mut next: u32 = 0;
    loop {
        let req = state.request(SearchQueryBuilder::new(), 10);
        assert_eq!(req.search_after, state.cursor);
        sizes.push(req.size);
        let batch = hits(next, req.size);
        next += req.size;
        let stop = state.advance(&batch);
        cursors.push(state.cursor.clone().unwrap());
        if stop {
            break;
        }
    }
    assert_eq!(sizes, vec![10, 10, 5]);
    assert_eq!(cursors, vec!["[9]".to_string(), "[19]".to_string(), "[24]".to_string()]);
    assert_eq!(state.remaining, Some(0));
}

#[test]
fn full_range_requests_full_batches() {
    let (_, p) = resolve(None, Some("2024-01-01"), Some("2024-01-02"), 10, false);
    let state = PaginatorState::new(&p);
    assert_eq!(state.batch_size(BATCH_SIZE), 1000);
}

#[test]
fn budget_saturates_at_zero() {
    let mut state = PaginatorState { cursor: None, remaining: Some(3), polling: false };
    assert!(state.advance(&hits(0, 5)));
    assert_eq!(state.remaining, Some(0));
}

#[test]
fn snapshot_open_and_close_pair_up() {
    let mut m = SnapshotManager::new();
    assert!(!m.is_open());
    m.on_opened(Some("first".to_string())).unwrap();
    assert_eq!(m.snapshot_id(), Some("first".to_string()));
    // a refresh while following: close, then open again
    assert_eq!(m.close(), Some("first".to_string()));
    m.on_opened(Some("second".to_string())).unwrap();
    assert_eq!(m.close(), Some("second".to_string()));
    assert_eq!(m.close(), None);
    assert_eq!(m.open_requests(), 2);
    assert_eq!(m.close_requests(), 2);
}

#[test]
fn snapshot_answer_without_id_fails() {
    let mut m = SnapshotManager::new();
    assert!(matches!(m.on_opened(None), Err(ESQError::ESError(_))));
    assert!(!m.is_open());
    assert_eq!(m.close(), None);
    assert_eq!(m.open_requests(), m.close_requests());
}

#[test]
fn open_range_round_trip() {
    let b = SearchQueryBuilder::new().with_time_range(Some("2024-01-01"), None, "1m").unwrap();
    let req = b.build();
    match req.query {
        Some(Query::Range(RangeClause { gte: Some(gte), lt })) => {
            assert_eq!(lt, "now-1m");
            // a bare date takes the current time of day in the local time zone
            let read = dateparser::parse(&gte).unwrap();
            let direct = dateparser::parse("2024-01-01").unwrap();
            assert!((direct - read).num_seconds().abs() < 60);
            assert!(gte.ends_with("+00:00"));
        }
        other => panic!("unexpected query {:?}", other),
    }
}

#[test]
fn closed_range_reads_both_dates() {
    let b = SearchQueryBuilder::new()
        .with_time_range(Some("2024-01-01T00:00:00Z"), Some("2024-01-02T00:00:00Z"), "1m")
        .unwrap();
    let range = b.query_range.unwrap();
    assert_eq!(range.gte, Some("2024-01-01T00:00:00+00:00".to_string()));
    assert_eq!(range.lt, "2024-01-02T00:00:00+00:00");
}

#[test]
fn unreadable_date_fails() {
    let r = SearchQueryBuilder::new().with_time_range(Some("yesterday-ish"), None, "1m");
    assert!(matches!(r, Err(ESQError::DateParseError(_))));
    let r = SearchQueryBuilder::new().with_time_range(None, Some("nope"), "1m");
    assert!(matches!(r, Err(ESQError::DateParseError(_))));
}

#[test]
fn build_combines_range_and_match() {
    let m = MatchClause::MatchAll;
    let req = SearchQueryBuilder::new()
        .with_query_match(Some(m.clone()))
        .with_time_range(None, None, "5m")
        .unwrap()
        .build();
    assert_eq!(
        req.query,
        Some(Query::Both(RangeClause { gte: None, lt: "now-5m".to_string() }, m.clone()))
    );
    let req = SearchQueryBuilder::new().with_query_match(Some(m.clone())).build();
    assert_eq!(req.query, Some(Query::Match(m)));
    let req = SearchQueryBuilder::new().build();
    assert_eq!(req.query, None);
    assert_eq!(req.size, DEFAULT_SIZE);
    assert_eq!(req.source, None);
}

#[test]
fn pit_adds_tiebreak() {
    let b = SearchQueryBuilder::new().with_pit(true);
    assert_eq!(b.sort_order, sort(&[("@timestamp", true), ("_shard_doc", true)]));
    let b = SearchQueryBuilder::new().with_pit(false);
    assert_eq!(b.sort_order, sort(&[("@timestamp", true)]));
}

#[test]
fn request_carries_cursor_and_projection() {
    let state = PaginatorState { cursor: Some("[5,2]".to_string()), remaining: None, polling: false };
    let base = SearchQueryBuilder::new().with_source_fields(Some(vec!["msg".to_string()]));
    let req = state.request(base, 1000);
    assert_eq!(req.size, 1000);
    assert_eq!(req.search_after, Some("[5,2]".to_string()));
    assert_eq!(req.source, Some(vec!["msg".to_string()]));
}

#[test]
fn probe_up_to_given_time() {
    let (_, p) = resolve(None, None, Some("2024-01-01"), 4, false);
    let q = esq::plan::probe_request(&p, Some("2024-01-01T00:00:00+00:00".to_string())).unwrap();
    assert_eq!(q.size, 5);
    assert_eq!(
        q.query,
        Some(Query::Range(RangeClause { gte: None, lt: "2024-01-01T00:00:00+00:00".to_string() }))
    );
    let (_, p) = resolve(None, Some("2024-01-01"), None, 4, false);
    assert!(esq::plan::probe_request(&p, None).is_none());
}

#[test]
fn should_stop_counts_budget() {
    let (_, p) = resolve(None, Some("2024-01-01"), None, 25, false);
    let mut remaining = p.total_docs;
    assert!(!p.should_stop(10, &mut remaining));
    assert_eq!(remaining, Some(15));
    assert!(p.should_stop(20, &mut remaining));
    assert_eq!(remaining, Some(0));
    let (_, p) = resolve(None, None, None, 25, true);
    let mut remaining = p.total_docs;
    assert!(!p.should_stop(0, &mut remaining));
    assert_eq!(remaining, None);
}

#[test]
fn update_search_after_moves_cursor() {
    let (_, mut p) = resolve(None, None, None, 5, false);
    p.update_search_after(Some(&"[1,2]".to_string()));
    assert_eq!(p.search_after, Some("[1,2]".to_string()));
    p.update_search_after(None);
    assert_eq!(p.search_after, None);
}

#[test]
fn day_long_offset_is_refused_before_parsing() {
    for d in ["2024-01-01 +9900", "2024-01-01+2400", "10:00 -2400", "2024-01-01 10:00 +25:00"] {
        let r = SearchQueryBuilder::new().with_time_range(Some(d), None, "1m");
        assert!(matches!(r, Err(ESQError::DateParseError(_))), "{}", d);
        let r = SearchQueryBuilder::new().with_time_range(None, Some(d), "1m");
        assert!(matches!(r, Err(ESQError::DateParseError(_))), "{}", d);
    }
    let (_, p) = resolve(Some("2024-01-01 +9900"), None, None, 10, false);
    assert!(matches!(seek_request(&p), Err(ESQError::DateParseError(_))));
}

#[test]
fn ordinary_dates_pass_the_offset_check() {
    assert!(!day_long_offset("2024-12-31"));
    assert!(!day_long_offset("2024-12-31T23:59:59-05:00"));
    assert!(!day_long_offset("2024-01-01 10:00 +2359"));
    assert!(day_long_offset("2024-01-01 -2400"));
    let b = SearchQueryBuilder::new().with_time_range(Some("2024-12-31T10:00:00Z"), None, "1m");
    assert!(b.is_ok());
}
