use sensorflow::handler::{INVALID_RANGE_ERROR, INVALID_RANGE_HINT};
use sensorflow::query::{
    filtered_query, AND_DEVICE, AND_FROM, AND_MESH, AND_UNTIL, LIMIT_CLAUSE, ORDER_NEWEST_FIRST,
    SELECT_READINGS,
};
use sensorflow::{
    build_readings_query, Config, F32Bits, GateAction, GateEvent, IngestError, IngestGate,
    PageBody, Pager, RawSensorReading, ReadingsQuery, ReadingsRequest, Reply, RequestAction,
    RequestEvent, SensorReading, SqlPiece, SqlValue, UtcTimestamp,
};

fn raw(device: &str, secs: i64, temp: f32) -> RawSensorReading {
    RawSensorReading {
        mesh_id: "mesh-001".to_string(),
        device_id: device.to_string(),
        timestamp: UtcTimestamp { secs, nanos: 0 },
        temperature_c: F32Bits { bits: temp.to_bits() },
        humidity: F32Bits { bits: 50.0f32.to_bits() },
        status: "ok".to_string(),
    }
}

fn page(items: Vec<Option<RawSensorReading>>, next: Option<&str>) -> PageBody {
    PageBody { results: Some(items), next_cursor: next.map(|c| c.to_string()) }
}

fn query(device: Option<&str>, mesh: Option<&str>, range: Option<&str>, limit: Option<u32>) -> ReadingsQuery {
    ReadingsQuery {
        device_id: device.map(|s| s.to_string()),
        mesh_id: mesh.map(|s| s.to_string()),
        timestamp_range: range.map(|s| s.to_string()),
        limit,
    }
}

fn config(max_pages: u32) -> Config {
    Config {
        db_url: "postgres://u:p@db/sensors".to_string(),
        db_pool_max: 5,
        api_url: "http://upstream/api".to_string(),
        api_max_pages: max_pages,
    }
}

fn sql(s: &str) -> SqlPiece {
    SqlPiece::Sql(s.to_string())
}

#[test]
fn pager_follows_cursors_until_none() {
    let mut p = Pager::new("http://up/r".to_string(), 10);
    assert_eq!(p.next_url(), Some("http://up/r".to_string()));
    p.on_page(page(vec![Some(raw("d1", 1, 20.0)), None, Some(raw("d2", 2, 21.0))], Some("abc")));
    assert_eq!(p.next_url(), Some("http://up/r?cursor=abc".to_string()));
    p.on_page(page(vec![Some(raw("d3", 3, 22.0))], None));
    assert!(p.is_done());
    assert_eq!(p.next_url(), None);
    assert_eq!(p.pages_fetched(), 2);
    let got: Vec<String> = p.into_readings().into_iter().map(|r| r.device_id).collect();
    assert_eq!(got, vec!["d1", "d2", "d3"]);
}

#[test]
fn pager_stops_at_page_cap_with_cursor_left() {
    let mut p = Pager::new("u".to_string(), 3);
    let mut fetched = 0;
    while let Some(_) = p.next_url() {
        p.on_page(page(vec![Some(raw("d", fetched, 20.0))], Some("more")));
        fetched += 1;
    }
    assert_eq!(fetched, 3);
    assert_eq!(p.pages_fetched(), 3);
    assert_eq!(p.into_readings().len(), 3);
}

#[test]
fn pager_with_zero_cap_fetches_nothing() {
    let p = Pager::new("u".to_string(), 0);
    assert!(p.is_done());
    assert_eq!(p.next_url(), None);
}

#[test]
fn pager_skips_unusable_results_and_ignores_late_pages() {
    let mut p = Pager::new("u".to_string(), 5);
    p.on_page(PageBody { results: None, next_cursor: Some("c2".to_string()) });
    assert_eq!(p.next_url(), Some("u?cursor=c2".to_string()));
    p.on_page(page(vec![None, Some(raw("d", 1, 20.0))], None));
    p.on_page(page(vec![Some(raw("late", 2, 20.0))], Some("x")));
    assert_eq!(p.pages_fetched(), 2);
    let got: Vec<String> = p.into_readings().into_iter().map(|r| r.device_id).collect();
    assert_eq!(got, vec!["d"]);
}

fn run_gate(gate: IngestGate, has_data: bool, pages: &mut Vec<PageBody>, fail_store: &[usize]) -> (IngestGate, usize, Vec<SensorReading>) {
    let mut gate = gate;
    let mut fetches = 0;
    let mut stored = Vec::new();
    let mut attempts = 0;
    loop {
        let event = match gate.action() {
            GateAction::CheckExisting => GateEvent::Existence(Ok(has_data)),
            GateAction::FetchPage(_) => {
                fetches += 1;
                GateEvent::Page(Ok(pages.remove(0)))
            },
            GateAction::StoreRow(r) => {
                attempts += 1;
                if fail_store.contains(&attempts) {
                    GateEvent::Stored(Err("duplicate".to_string()))
                } else {
                    stored.push(r);
                    GateEvent::Stored(Ok(()))
                }
            },
            GateAction::RecomputeSummaries => GateEvent::Recomputed(Ok(())),
            GateAction::Finished(_) => return (gate, fetches, stored),
        };
        gate = gate.step(event);
    }
}

#[test]
fn gate_loads_once_then_takes_fast_path() {
    let mut pages = vec![
        page(vec![Some(raw("d1", 1, 70.0))], Some("c")),
        page(vec![Some(raw("d2", 2, 20.0))], None),
    ];
    let (first, fetches, stored) = run_gate(IngestGate::new("u".to_string(), 10), false, &mut pages, &[]);
    assert_eq!(fetches, 2);
    assert_eq!(stored.len(), 2);
    assert!(stored[0].temperature_alert);
    assert!(!stored[1].temperature_alert);
    assert_eq!(first.rows_stored(), 2);
    assert!(matches!(first.outcome(), Some(Ok(()))));

    // The store now holds rows: the second pass fetches nothing.
    let mut none = Vec::new();
    let (second, fetches, stored) = run_gate(IngestGate::new("u".to_string(), 10), true, &mut none, &[]);
    assert_eq!(fetches, 0);
    assert!(stored.is_empty());
    assert_eq!(second.rows_stored(), 0);
    assert!(matches!(second.outcome(), Some(Ok(()))));
}

#[test]
fn gate_skips_failed_rows_and_still_recomputes() {
    let mut pages = vec![page(
        vec![Some(raw("a", 1, 20.0)), Some(raw("b", 2, 20.0)), Some(raw("c", 3, 20.0))],
        None,
    )];
    let (gate, _, stored) = run_gate(IngestGate::new("u".to_string(), 10), false, &mut pages, &[2]);
    let devices: Vec<String> = stored.into_iter().map(|r| r.device_id).collect();
    assert_eq!(devices, vec!["a", "c"]);
    assert_eq!(gate.rows_stored(), 2);
    assert!(matches!(gate.outcome(), Some(Ok(()))));
}

#[test]
fn gate_surfaces_upstream_check_and_aggregate_errors() {
    let g = IngestGate::new("u".to_string(), 3).step(GateEvent::Existence(Err("db down".to_string())));
    assert!(matches!(g.outcome(), Some(Err(IngestError::Check(_)))));

    let g = IngestGate::new("u".to_string(), 3).step(GateEvent::Existence(Ok(false)));
    assert!(matches!(g.action(), GateAction::FetchPage(ref u) if u == "u"));
    let g = g.step(GateEvent::Page(Err("502".to_string())));
    assert!(matches!(g.outcome(), Some(Err(IngestError::Upstream(ref m))) if m == "502"));

    let g = IngestGate::new("u".to_string(), 3).step(GateEvent::Existence(Ok(false)));
    let g = g.step(GateEvent::Page(Ok(page(vec![], None))));
    assert!(matches!(g.action(), GateAction::RecomputeSummaries));
    let g = g.step(GateEvent::Recomputed(Err("boom".to_string())));
    assert!(matches!(g.outcome(), Some(Err(IngestError::Aggregate(_)))));
}

#[test]
fn gate_with_zero_page_cap_goes_straight_to_recompute() {
    let g = IngestGate::new("u".to_string(), 0).step(GateEvent::Existence(Ok(false)));
    assert!(matches!(g.action(), GateAction::RecomputeSummaries));
}

#[test]
fn query_has_every_predicate_in_order() {
    let from = UtcTimestamp { secs: 100, nanos: 0 };
    let until = UtcTimestamp { secs: 200, nanos: 0 };
    let q = query(Some("device-001"), Some("mesh-001"), None, Some(7));
    let plan = filtered_query(&q, Some((Some(from), Some(until))));
    assert_eq!(
        plan.pieces,
        vec![
            sql(SELECT_READINGS),
            sql(AND_DEVICE),
            SqlPiece::Bind(SqlValue::Text("device-001".to_string())),
            sql(AND_MESH),
            SqlPiece::Bind(SqlValue::Text("mesh-001".to_string())),
            sql(AND_FROM),
            SqlPiece::Bind(SqlValue::Timestamp(from)),
            sql(AND_UNTIL),
            SqlPiece::Bind(SqlValue::Timestamp(until)),
            sql(ORDER_NEWEST_FIRST),
            sql(LIMIT_CLAUSE),
            SqlPiece::Bind(SqlValue::BigInt(7)),
        ]
    );
}

#[test]
fn query_defaults_to_limit_1000_without_filters() {
    let plan = build_readings_query(&query(None, None, None, None));
    assert_eq!(
        plan.pieces,
        vec![
            sql(SELECT_READINGS),
            sql(ORDER_NEWEST_FIRST),
            sql(LIMIT_CLAUSE),
            SqlPiece::Bind(SqlValue::BigInt(1000)),
        ]
    );
}

#[test]
fn query_bounds_come_from_the_range_text() {
    let plan = build_readings_query(&query(None, None, Some(",2025-03-22T00:00:00Z"), Some(3)));
    assert_eq!(
        plan.pieces,
        vec![
            sql(SELECT_READINGS),
            sql(AND_UNTIL),
            SqlPiece::Bind(SqlValue::Timestamp(UtcTimestamp { secs: 1_742_601_600, nanos: 0 })),
            sql(ORDER_NEWEST_FIRST),
            sql(LIMIT_CLAUSE),
            SqlPiece::Bind(SqlValue::BigInt(3)),
        ]
    );
}

fn drive(req: ReadingsRequest, has_data: bool, pages: &mut Vec<PageBody>, rows: Vec<SensorReading>) -> (Reply, usize, usize, Vec<ReadingsQuery>, Vec<Vec<SqlPiece>>) {
    let mut req = req;
    let mut fetches = 0;
    let mut checks = 0;
    let mut queries = Vec::new();
    let mut rows = Some(rows);
    loop {
        let event = match req.action() {
            RequestAction::Gate(GateAction::CheckExisting) => {
                checks += 1;
                RequestEvent::Gate(GateEvent::Existence(Ok(has_data)))
            },
            RequestAction::Gate(GateAction::FetchPage(_)) => {
                fetches += 1;
                RequestEvent::Gate(GateEvent::Page(Ok(pages.remove(0))))
            },
            RequestAction::Gate(GateAction::StoreRow(_)) => RequestEvent::Gate(GateEvent::Stored(Ok(()))),
            RequestAction::Gate(GateAction::RecomputeSummaries) => RequestEvent::Gate(GateEvent::Recomputed(Ok(()))),
            RequestAction::Gate(GateAction::Finished(_)) => panic!("a finished pass is not handed out"),
            RequestAction::RunQuery(q) => {
                queries.push(q.pieces);
                RequestEvent::Loaded(Ok(rows.take().unwrap()))
            },
            RequestAction::Respond => {
                let reply = req.into_reply().unwrap();
                return (reply, checks, fetches, Vec::new(), queries);
            },
        };
        req = req.step(event);
    }
}

fn normalized(device: &str, secs: i64) -> SensorReading {
    raw(device, secs, 20.0).to_transformed()
}

#[test]
fn empty_store_limit_five_ingests_once_then_queries_newest_first() {
    let req = ReadingsRequest::start(query(None, None, None, Some(5)), &config(10));
    let mut pages = vec![page(vec![Some(raw("d", 1, 20.0)), Some(raw("d", 2, 20.0))], None)];
    let rows = vec![normalized("d", 2), normalized("d", 1)];
    let (reply, checks, fetches, _, queries) = drive(req, false, &mut pages, rows);
    assert_eq!(checks, 1);
    assert_eq!(fetches, 1);
    assert_eq!(queries.len(), 1);
    let q = &queries[0];
    assert_eq!(q[q.len() - 3], sql(ORDER_NEWEST_FIRST));
    assert_eq!(q[q.len() - 1], SqlPiece::Bind(SqlValue::BigInt(5)));
    assert_eq!(reply.status(), 200);
    assert_eq!(reply.error_message(), None);
    match reply {
        Reply::Readings(v) => assert_eq!(v.len(), 2),
        other => panic!("unexpected reply {other:?}"),
    }
}

#[test]
fn timestamp_range_bad_returns_422() {
    let bad_ranges = [
        "not-a-timestamp",
        "2025-03-21T00:00:00Z",
        "2025-03-22T00:00:00Z,2025-03-21T00:00:00Z",
    ];
    for r in bad_ranges {
        let req = ReadingsRequest::start(query(None, None, Some(r), None), &config(10));
        assert!(req.is_replied(), "range={r}");
        assert!(matches!(req.action(), RequestAction::Respond));
        let reply = req.into_reply().unwrap();
        assert_eq!(reply.status(), 422, "range={r}");
        assert_eq!(reply.error_message(), Some("invalid timestamp_range"));
        assert!(reply.hint().is_some(), "missing hint in 422 body for range={r}");
    }
    assert_eq!(INVALID_RANGE_ERROR, "invalid timestamp_range");
    assert!(INVALID_RANGE_HINT.contains("start,end"));
}

#[test]
fn device_filter_reaches_the_query() {
    let req = ReadingsRequest::start(query(Some("device-001"), None, None, Some(10)), &config(10));
    let mut none = Vec::new();
    let (reply, checks, fetches, _, queries) = drive(req, true, &mut none, vec![normalized("device-001", 5)]);
    assert_eq!((checks, fetches), (1, 0));
    assert_eq!(queries[0][1], sql(AND_DEVICE));
    assert_eq!(queries[0][2], SqlPiece::Bind(SqlValue::Text("device-001".to_string())));
    assert_eq!(reply.status(), 200);
}

#[test]
fn ingest_or_load_failure_is_a_server_error() {
    let req = ReadingsRequest::start(query(None, None, None, None), &config(10));
    let req = req.step(RequestEvent::Gate(GateEvent::Existence(Err("no db".to_string()))));
    let reply = req.into_reply().unwrap();
    assert_eq!(reply.status(), 500);
    assert_eq!(reply.error_message(), Some("ingest failed"));

    let req = ReadingsRequest::start(query(None, None, None, None), &config(10));
    let req = req.step(RequestEvent::Gate(GateEvent::Existence(Ok(true))));
    assert!(matches!(req.action(), RequestAction::RunQuery(_)));
    let req = req.step(RequestEvent::Loaded(Err("timeout".to_string())));
    let reply = req.into_reply().unwrap();
    assert_eq!(reply.status(), 500);
    assert_eq!(reply.error_message(), Some("load failed"));
    assert_eq!(reply.hint(), None);
}
