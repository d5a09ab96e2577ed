//! Tests for the status-document accessors, the sampler and the differ.

use mongo_newrelic::status::{AccessError, Node, StatusDocument};
use mongo_newrelic::stats::{diff_stats, sample, try_diff_stats, Stats};
use mongo_newrelic::Decimal6;

fn leaf_i32(k: &str, v: i32) -> (String, Node) {
    (k.to_string(), Node::I32(v))
}

fn leaf_i64(k: &str, v: i64) -> (String, Node) {
    (k.to_string(), Node::I64(v))
}

fn leaf_dec(k: &str, millionths: i64) -> (String, Node) {
    (k.to_string(), Node::Dec(Decimal6 { millionths }))
}

fn subdoc(k: &str, entries: Vec<(String, Node)>) -> (String, Node) {
    (k.to_string(), Node::Doc(StatusDocument { entries }))
}

/// A status document carrying every required field, with distinct values.
fn full_doc(db: &str) -> StatusDocument {
    StatusDocument {
        entries: vec![
            subdoc("connections", vec![leaf_i32("current", 5), leaf_i32("available", 95)]),
            subdoc(
                "globalLock",
                vec![
                    subdoc("activeClients", vec![leaf_i32("readers", 1), leaf_i32("writers", 2)]),
                    subdoc("currentQueue", vec![leaf_i32("readers", 3), leaf_i32("writers", 4)]),
                ],
            ),
            subdoc(
                "opcounters",
                vec![
                    leaf_i32("insert", 100),
                    leaf_i32("query", 200),
                    leaf_i32("update", 300),
                    leaf_i32("delete", 400),
                    leaf_i32("getmore", 500),
                    leaf_i32("command", 600),
                ],
            ),
            subdoc(
                "network",
                vec![leaf_dec("bytesIn", 5_000_000_000), leaf_dec("bytesOut", 6_000_250_000)],
            ),
            subdoc("indexCounters", vec![leaf_dec("missRatio", 20_000)]),
            subdoc("recordStats", vec![leaf_i32("pageFaultExceptionsThrown", 7)]),
            subdoc(
                "locks",
                vec![subdoc(
                    db,
                    vec![subdoc(
                        "timeLockedMicros",
                        vec![leaf_i64("r", 1000), leaf_i64("w", 2000)],
                    )],
                )],
            ),
            subdoc(
                "metrics",
                vec![subdoc("document", vec![leaf_i64("returned", 800), leaf_i64("inserted", 900)])],
            ),
        ],
    }
}

/// Removes the entry named by a path of keys from a document tree.
fn remove_path(doc: &mut StatusDocument, path: &[&str]) {
    if path.len() == 1 {
        doc.entries.retain(|e| e.0 != path[0]);
    } else {
        for e in doc.entries.iter_mut() {
            if e.0 == path[0] {
                if let Node::Doc(d) = &mut e.1 {
                    remove_path(d, &path[1..]);
                }
            }
        }
    }
}

#[test]
fn sample_extracts_all_twenty_fields_exactly() {
    let doc = full_doc("mydb");
    let s = sample(&doc, "mydb").unwrap();
    assert_eq!(s.connections, 5);
    assert_eq!(s.connections_available, 95);
    assert_eq!(s.active_r, 1);
    assert_eq!(s.active_w, 2);
    assert_eq!(s.inserts, 100);
    assert_eq!(s.queries, 200);
    assert_eq!(s.updates, 300);
    assert_eq!(s.deletes, 400);
    assert_eq!(s.getmores, 500);
    assert_eq!(s.commands, 600);
    assert_eq!(s.page_fault, 7);
    assert_eq!(s.queue_read, 3);
    assert_eq!(s.queue_write, 4);
    assert_eq!(s.net_in_bytes, Decimal6 { millionths: 5_000_000_000 });
    assert_eq!(s.net_out_bytes, Decimal6 { millionths: 6_000_250_000 });
    assert_eq!(s.idx_miss_ratio, Decimal6 { millionths: 20_000 });
    assert_eq!(s.r_time_locked_micros, 1000);
    assert_eq!(s.w_time_locked_micros, 2000);
    assert_eq!(s.docs_returned, 800);
    assert_eq!(s.docs_inserted, 900);
}

#[test]
fn sample_fails_when_any_one_field_is_missing() {
    let cases: Vec<(Vec<&str>, &str)> = vec![
        (vec!["connections", "current"], "connections.current"),
        (vec!["connections", "available"], "connections.available"),
        (
            vec!["globalLock", "activeClients", "readers"],
            "globalLock.activeClients.readers",
        ),
        (
            vec!["globalLock", "activeClients", "writers"],
            "globalLock.activeClients.writers",
        ),
        (vec!["opcounters", "insert"], "opcounters.insert"),
        (vec!["opcounters", "query"], "opcounters.query"),
        (vec!["opcounters", "update"], "opcounters.update"),
        (vec!["opcounters", "delete"], "opcounters.delete"),
        (vec!["opcounters", "getmore"], "opcounters.getmore"),
        (vec!["opcounters", "command"], "opcounters.command"),
        (
            vec!["recordStats", "pageFaultExceptionsThrown"],
            "recordStats.pageFaultExceptionsThrown",
        ),
        (
            vec!["globalLock", "currentQueue", "readers"],
            "globalLock.currentQueue.readers",
        ),
        (
            vec!["globalLock", "currentQueue", "writers"],
            "globalLock.currentQueue.writers",
        ),
        (vec!["network", "bytesIn"], "network.bytesIn"),
        (vec!["network", "bytesOut"], "network.bytesOut"),
        (vec!["indexCounters", "missRatio"], "indexCounters.missRatio"),
        (
            vec!["locks", "mydb", "timeLockedMicros", "r"],
            "locks.mydb.timeLockedMicros.r",
        ),
        (
            vec!["locks", "mydb", "timeLockedMicros", "w"],
            "locks.mydb.timeLockedMicros.w",
        ),
        (vec!["metrics", "document", "returned"], "metrics.document.returned"),
        (vec!["metrics", "document", "inserted"], "metrics.document.inserted"),
    ];
    for (path, expected_field) in cases {
        let mut doc = full_doc("mydb");
        remove_path(&mut doc, &path);
        let e = sample(&doc, "mydb").unwrap_err();
        assert_eq!(e.field, expected_field);
        assert_eq!(e.cause, AccessError::FieldMissing);
    }
}

#[test]
fn sample_fails_on_missing_network_bytes_in() {
    let mut doc = full_doc("mydb");
    remove_path(&mut doc, &["network", "bytesIn"]);
    let e = sample(&doc, "mydb").unwrap_err();
    assert_eq!(e.field, "network.bytesIn");
    assert_eq!(e.cause, AccessError::FieldMissing);
}

#[test]
fn sample_reports_the_first_failing_field() {
    let mut doc = full_doc("mydb");
    remove_path(&mut doc, &["globalLock"]);
    remove_path(&mut doc, &["network"]);
    let e = sample(&doc, "mydb").unwrap_err();
    assert_eq!(e.field, "globalLock.activeClients.readers");
    assert_eq!(e.cause, AccessError::FieldMissing);
}

#[test]
fn sample_fails_when_the_database_name_is_absent_under_locks() {
    let doc = full_doc("otherdb");
    let e = sample(&doc, "mydb").unwrap_err();
    assert_eq!(e.field, "locks.mydb.timeLockedMicros.r");
    assert_eq!(e.cause, AccessError::FieldMissing);
}

#[test]
fn sample_fails_with_type_mismatch_on_a_wrongly_typed_leaf() {
    let mut doc = full_doc("mydb");
    remove_path(&mut doc, &["connections", "current"]);
    if let Node::Doc(d) = &mut doc.entries[0].1 {
        d.entries.push(("current".to_string(), Node::Text("five".to_string())));
    }
    let e = sample(&doc, "mydb").unwrap_err();
    assert_eq!(e.field, "connections.current");
    assert_eq!(e.cause, AccessError::TypeMismatch);
}

#[test]
fn sample_fails_with_type_mismatch_on_a_non_document_interior_node() {
    let mut doc = full_doc("mydb");
    remove_path(&mut doc, &["globalLock"]);
    doc.entries.push(("globalLock".to_string(), Node::I32(1)));
    let e = sample(&doc, "mydb").unwrap_err();
    assert_eq!(e.field, "globalLock.activeClients.readers");
    assert_eq!(e.cause, AccessError::TypeMismatch);
}

#[test]
fn accessors_read_typed_values_and_signal_failures() {
    let doc = full_doc("mydb");
    assert_eq!(doc.get_i32(&["connections", "current"]), Ok(5));
    assert_eq!(doc.get_i64(&["locks", "mydb", "timeLockedMicros", "w"]), Ok(2000));
    assert_eq!(
        doc.get_dec6(&["indexCounters", "missRatio"]),
        Ok(Decimal6 { millionths: 20_000 })
    );
    assert_eq!(doc.get_i32(&["connections", "gone"]), Err(AccessError::FieldMissing));
    assert_eq!(doc.get_i64(&["connections", "current"]), Err(AccessError::TypeMismatch));
    let sub = doc.get_document(&["globalLock", "activeClients"]).unwrap();
    assert_eq!(sub.get_i32(&["readers"]), Ok(1));
    assert!(doc.get_document(&["connections", "current"]).is_err());
}

fn stats_with(
    gauges: (i32, i32, i32, i32, i32, i32),
    counters: (i32, i32, i32, i32, i32, i32, i32),
    net: (i64, i64),
    ratio: i64,
    locks: (i64, i64),
    docs: (i64, i64),
) -> Stats {
    Stats {
        connections: gauges.0,
        connections_available: gauges.1,
        active_r: gauges.2,
        active_w: gauges.3,
        queue_read: gauges.4,
        queue_write: gauges.5,
        inserts: counters.0,
        queries: counters.1,
        updates: counters.2,
        deletes: counters.3,
        getmores: counters.4,
        commands: counters.5,
        page_fault: counters.6,
        net_in_bytes: Decimal6 { millionths: net.0 },
        net_out_bytes: Decimal6 { millionths: net.1 },
        idx_miss_ratio: Decimal6 { millionths: ratio },
        r_time_locked_micros: locks.0,
        w_time_locked_micros: locks.1,
        docs_returned: docs.0,
        docs_inserted: docs.1,
    }
}

#[test]
fn diff_subtracts_counters_and_passes_gauges_through() {
    let p = stats_with(
        (5, 95, 1, 2, 3, 4),
        (100, 200, 300, 400, 500, 600, 7),
        (5_000_000_000, 6_000_000_000),
        20_000,
        (1000, 2000),
        (800, 900),
    );
    let c = stats_with(
        (7, 93, 2, 3, 4, 5),
        (140, 260, 390, 520, 650, 780, 9),
        (5_600_000_000, 6_700_000_000),
        30_000,
        (1500, 2600),
        (880, 990),
    );
    let d = diff_stats(p, c);
    assert_eq!(d.connections, 7);
    assert_eq!(d.connections_available, 93);
    assert_eq!(d.active_r, 2);
    assert_eq!(d.active_w, 3);
    assert_eq!(d.queue_read, 4);
    assert_eq!(d.queue_write, 5);
    assert_eq!(d.idx_miss_ratio, Decimal6 { millionths: 30_000 });
    assert_eq!(d.inserts, 40);
    assert_eq!(d.queries, 60);
    assert_eq!(d.updates, 90);
    assert_eq!(d.deletes, 120);
    assert_eq!(d.getmores, 150);
    assert_eq!(d.commands, 180);
    assert_eq!(d.page_fault, 2);
    assert_eq!(d.net_in_bytes, Decimal6 { millionths: 600_000_000 });
    assert_eq!(d.net_out_bytes, Decimal6 { millionths: 700_000_000 });
    assert_eq!(d.r_time_locked_micros, 500);
    assert_eq!(d.w_time_locked_micros, 600);
    assert_eq!(d.docs_returned, 80);
    assert_eq!(d.docs_inserted, 90);
}

#[test]
fn try_diff_refuses_a_pair_whose_delta_overflows() {
    let base = stats_with(
        (5, 95, 1, 2, 3, 4),
        (100, 200, 300, 400, 500, 600, 7),
        (5_000_000_000, 6_000_000_000),
        20_000,
        (1000, 2000),
        (800, 900),
    );
    let mut p = base;
    let mut c = base;
    p.inserts = -2;
    c.inserts = i32::MAX;
    assert!(try_diff_stats(p, c).is_none());
    p.inserts = 100;
    c.inserts = 140;
    let d = try_diff_stats(p, c).unwrap();
    assert_eq!(d, diff_stats(p, c));
    assert_eq!(d.inserts, 40);
}

#[test]
fn diff_surfaces_negative_deltas_on_counter_reset() {
    let mut p = stats_with(
        (5, 95, 1, 2, 3, 4),
        (100, 200, 300, 400, 500, 600, 7),
        (5_000_000_000, 6_000_000_000),
        20_000,
        (1000, 2000),
        (800, 900),
    );
    let mut c = p;
    p.net_in_bytes = Decimal6 { millionths: 5_000_000_000 };
    c.net_in_bytes = Decimal6 { millionths: 200_000_000 };
    c.inserts = 10;
    let d = diff_stats(p, c);
    assert_eq!(d.net_in_bytes, Decimal6 { millionths: -4_800_000_000 });
    assert_eq!(d.inserts, -90);
}
