use babel_core::igdb::pipeline::{
    chunk_ids, endpoint_url, id_query, igdb_headers, latest_update_sql, margin_timestamp,
    missing_column_statement, resume_timestamp, sync_query, table_info_sql, BatchBuffer,
    FetchAction, FetchOutcome, FetchPlanner, API_BATCH_SIZE, DATABASE_BATCH_SIZE,
    REQUEST_CONCURRENCY,
};

#[test]
fn pipeline_constants() {
    assert_eq!(API_BATCH_SIZE, 500);
    assert_eq!(REQUEST_CONCURRENCY, 4);
    assert_eq!(DATABASE_BATCH_SIZE, 5000);
}

#[test]
fn planner_issues_consecutive_pages() {
    let mut p = FetchPlanner::new();
    assert!(!p.is_stopped());
    assert_eq!(p.next_round(), vec![0, 500, 1000, 1500]);
    p.end_round();
    assert_eq!(p.next_round(), vec![2000, 2500, 3000, 3500]);
    p.end_round();
    assert!(!p.is_stopped());
}

#[test]
fn planner_stops_after_round_with_empty_page() {
    let mut p = FetchPlanner::new();
    let offsets = p.next_round();
    assert_eq!(offsets.len(), 4);
    assert_eq!(p.record_outcome(FetchOutcome::Records(500)), FetchAction::Forward);
    assert_eq!(p.record_outcome(FetchOutcome::Records(0)), FetchAction::EndOfData);
    assert!(!p.is_stopped());
    assert_eq!(p.record_outcome(FetchOutcome::Records(12)), FetchAction::Forward);
    p.end_round();
    assert!(p.is_stopped());
    assert!(p.next_round().is_empty());
    assert!(p.next_round().is_empty());
}

#[test]
fn planner_ignores_failed_requests() {
    let mut p = FetchPlanner::new();
    p.next_round();
    assert_eq!(p.record_outcome(FetchOutcome::NotSent), FetchAction::Ignore);
    assert_eq!(p.record_outcome(FetchOutcome::NetworkError), FetchAction::Ignore);
    assert_eq!(p.record_outcome(FetchOutcome::ErrorStatus), FetchAction::Ignore);
    assert_eq!(p.record_outcome(FetchOutcome::Unparsable), FetchAction::Ignore);
    p.end_round();
    assert!(!p.is_stopped());
    assert_eq!(p.next_round(), vec![2000, 2500, 3000, 3500]);
}

#[test]
fn planner_stops_when_writer_is_gone() {
    let mut p = FetchPlanner::new();
    p.next_round();
    p.writer_gone();
    assert!(p.is_stopped());
    p.end_round();
    assert!(p.next_round().is_empty());
}

#[test]
fn planner_runs_out_of_offsets() {
    let mut p = FetchPlanner::new();
    let mut count: u64 = 0;
    let mut last: u32 = 0;
    let mut expected: u64 = 0;
    loop {
        let round = p.next_round();
        if round.is_empty() {
            break;
        }
        for o in round {
            assert_eq!(o as u64, expected);
            expected += 500;
            last = o;
            count += 1;
        }
        p.end_round();
    }
    assert_eq!(count, 8589935);
    assert_eq!(last, 4294967000);
    assert!(p.is_stopped());
}

#[test]
fn buffer_writes_batches_of_enough_records() {
    let mut b: BatchBuffer<u32> = BatchBuffer::new();
    assert_eq!(b.len(), 0);
    assert!(b.push_items((0..3000).collect()).is_none());
    assert_eq!(b.len(), 3000);
    let batch = b.push_items((3000..5500).collect()).expect("batch is due");
    assert_eq!(batch, (0..5500).collect::<Vec<u32>>());
    assert_eq!(b.len(), 0);
    assert!(b.push_items(vec![1, 2, 3]).is_none());
    assert_eq!(b.finish(), Some(vec![1, 2, 3]));
}

#[test]
fn buffer_batch_at_exact_threshold() {
    let mut b: BatchBuffer<u32> = BatchBuffer::new();
    let batch = b.push_items((0..5000).collect()).expect("batch is due");
    assert_eq!(batch.len(), 5000);
    assert_eq!(b.finish(), None);
}

#[test]
fn buffer_keeps_order_across_pages() {
    let mut b: BatchBuffer<u32> = BatchBuffer::new();
    let mut written: Vec<u32> = Vec::new();
    let mut next = 0u32;
    for size in [400u32, 4700, 0, 3, 5000, 1200] {
        let page: Vec<u32> = (next..next + size).collect();
        next += size;
        if let Some(batch) = b.push_items(page) {
            assert!(batch.len() >= 5000);
            written.extend(batch);
        }
        assert!(b.len() < 5000);
    }
    if let Some(last) = b.finish() {
        written.extend(last);
    }
    assert_eq!(written, (0..next).collect::<Vec<u32>>());
}

#[test]
fn empty_buffer_writes_nothing() {
    let b: BatchBuffer<u32> = BatchBuffer::new();
    assert_eq!(b.finish(), None);
}

#[test]
fn chunking_ids() {
    let ids: Vec<i64> = (1..=1201).collect();
    let chunks = chunk_ids(&ids);
    assert_eq!(chunks.len(), 3);
    assert_eq!(chunks[0], (1..=500).collect::<Vec<i64>>());
    assert_eq!(chunks[1], (501..=1000).collect::<Vec<i64>>());
    assert_eq!(chunks[2], (1001..=1201).collect::<Vec<i64>>());
    assert!(chunk_ids(&vec![]).is_empty());
    let exact: Vec<i64> = (0..500).collect();
    assert_eq!(chunk_ids(&exact), vec![exact.clone()]);
    assert_eq!(chunk_ids(&vec![9]), vec![vec![9]]);
}

#[test]
fn id_queries() {
    assert_eq!(id_query("name, genres", &vec![3, 14, 15]), "fields name, genres; where id = (3,14,15); limit 500;");
    assert_eq!(id_query("name", &vec![7]), "fields name; where id = (7); limit 500;");
}

#[test]
fn paged_query_without_conditions() {
    assert_eq!(
        sync_query("name, slug, updated_at", None, None, 0),
        "fields name, slug, updated_at; sort updated_at asc; limit 500; offset 0;"
    );
}

#[test]
fn paged_query_with_conditions() {
    assert_eq!(
        sync_query("name", Some(1699999900), None, 1500),
        "fields name; where updated_at >= 1699999900; sort updated_at asc; limit 500; offset 1500;"
    );
    assert_eq!(
        sync_query("name", None, Some("cover.image_id != null"), 500),
        "fields name; where cover.image_id != null; sort updated_at asc; limit 500; offset 500;"
    );
    assert_eq!(
        sync_query("name", Some(0), Some("game_type = (0,8,9)"), 4294967000),
        "fields name; where updated_at >= 0 & game_type = (0,8,9); sort updated_at asc; limit 500; offset 4294967000;"
    );
}

#[test]
fn resume_margin() {
    assert_eq!(margin_timestamp(1700000000), 1699999900);
    assert_eq!(margin_timestamp(101), 1);
    assert_eq!(margin_timestamp(100), 0);
    assert_eq!(margin_timestamp(50), 0);
    assert_eq!(margin_timestamp(-5), 0);
    assert_eq!(margin_timestamp(i64::MIN), 0);
    assert_eq!(margin_timestamp(i64::MAX), i64::MAX - 100);
    assert_eq!(resume_timestamp(None), None);
    assert_eq!(resume_timestamp(Some(1000)), Some(900));
}

#[test]
fn endpoint_and_schema_statements() {
    assert_eq!(endpoint_url("games"), "https://api.igdb.com/v4/games");
    assert_eq!(latest_update_sql("genres"), "SELECT MAX(updated_at) FROM genres");
    assert_eq!(table_info_sql("games"), "PRAGMA table_info(games)");
}

#[test]
fn adding_missing_columns() {
    let columns = vec!["game_id".to_string(), "name".to_string(), "summary".to_string()];
    assert_eq!(missing_column_statement(&columns, "games", "summary", "TEXT"), None);
    assert_eq!(
        missing_column_statement(&columns, "games", "storyline", "TEXT"),
        Some("ALTER TABLE games ADD COLUMN storyline TEXT".to_string())
    );
    assert_eq!(
        missing_column_statement(&vec![], "game_involved_companies", "company_id", "INTEGER"),
        Some("ALTER TABLE game_involved_companies ADD COLUMN company_id INTEGER".to_string())
    );
}

#[test]
fn request_headers() {
    let h = igdb_headers("client123", "token456").expect("valid headers");
    assert_eq!(h.client_id.text(), "client123");
    assert_eq!(h.authorization.text(), "Bearer token456");
    assert_eq!(h.client_id.into_value().to_str().unwrap(), "client123");
    assert_eq!(h.authorization.into_value().to_str().unwrap(), "Bearer token456");
    assert!(igdb_headers("tab\tok", "t").is_ok());
    assert!(igdb_headers("caf\u{e9}", "t").is_ok());
}

#[test]
fn request_headers_refuse_control_bytes() {
    assert!(igdb_headers("bad\nid", "t").is_err());
    assert!(igdb_headers("id", "bad\u{7f}token").is_err());
    assert!(igdb_headers("id", "bad\rtoken").is_err());
}
