//! Tests for the metrics encoder, the envelope serializer and the tick step.

use mongo_newrelic::config::Config;
use mongo_newrelic::driver::tick;
use mongo_newrelic::newrelic::{build_agent, get_metrics_map, get_newrelic_body_json, MetricValue};
use mongo_newrelic::stats::{diff_stats, Stats};
use mongo_newrelic::Decimal6;

fn delta_stats() -> Stats {
    Stats {
        connections: 7,
        connections_available: 93,
        active_r: 2,
        active_w: 3,
        inserts: 40,
        queries: 60,
        updates: 90,
        deletes: 120,
        getmores: 150,
        commands: 180,
        page_fault: 2,
        queue_read: 4,
        queue_write: 5,
        net_in_bytes: Decimal6 { millionths: -4_800_000_000 },
        net_out_bytes: Decimal6 { millionths: 2_500_000 },
        idx_miss_ratio: Decimal6 { millionths: 30_000 },
        r_time_locked_micros: 500,
        w_time_locked_micros: 600,
        docs_returned: 80,
        docs_inserted: 90,
    }
}

fn config() -> Config {
    Config {
        db_host: "dbhost".to_string(),
        db_name: "mydb".to_string(),
        poll_cadence_secs: 60,
        newrelic_api_url: "https://example.invalid/metrics".to_string(),
        newrelic_license_key: "test-license-key".to_string(),
        plugin_guid: "com.example.mongo".to_string(),
    }
}

#[test]
fn envelope_matches_the_exact_expected_bytes() {
    let body = get_newrelic_body_json(&delta_stats(), &config());
    let expected = "{\"agent\":{\"host\":\"dbhost\",\"pid\":1234,\"version\":\"0.1\"},\"components\":[{\"name\":\"mydb\",\"guid\":\"com.example.mongo\",\"duration\":60,\"metrics\":{\"Component/conn/Connections[Count]\":7,\"Component/conn/Connections Available[Count]\":93,\"Component/clients/Active Readers[Count]\":2,\"Component/clients/Active Writers[Count]\":3,\"Component/ops/Inserts[Count]\":40,\"Component/ops/Queries[Count]\":60,\"Component/ops/Updates[Count]\":90,\"Component/ops/Deletes[Count]\":120,\"Component/ops/Getmores[Count]\":150,\"Component/ops/Commands[Count]\":180,\"Component/sys/Page Fault[Count]\":2,\"Component/sys/Queue Read[Count]\":4,\"Component/sys/Queue Write[Count]\":5,\"Component/net/Bytes In[Count]\":-4800.000000,\"Component/net/Bytes Out[Count]\":2.500000,\"Component/idx/Index Miss Ratio[Count]\":0.030000,\"Component/locks/R Locked uSec[Count]\":500,\"Component/locks/W Locked uSec[Count]\":600,\"Component/documents/Returned[Count]\":80,\"Component/documents/Inserted[Count]\":90}}]}";
    assert_eq!(body, expected);
}

#[test]
fn envelope_round_trips_through_a_json_parser() {
    let p = Stats {
        connections: 5,
        connections_available: 95,
        active_r: 1,
        active_w: 2,
        inserts: 100,
        queries: 200,
        updates: 300,
        deletes: 400,
        getmores: 500,
        commands: 600,
        page_fault: 7,
        queue_read: 3,
        queue_write: 4,
        net_in_bytes: Decimal6 { millionths: 5_000_000_000 },
        net_out_bytes: Decimal6 { millionths: 6_000_000_000 },
        idx_miss_ratio: Decimal6 { millionths: 20_000 },
        r_time_locked_micros: 1000,
        w_time_locked_micros: 2000,
        docs_returned: 800,
        docs_inserted: 900,
    };
    let mut c = p;
    c.connections = 7;
    c.inserts = 140;
    c.idx_miss_ratio = Decimal6 { millionths: 30_000 };
    c.net_in_bytes = Decimal6 { millionths: 5_600_000_000 };
    let cfg = config();
    let delta = diff_stats(p, c);
    let body = get_newrelic_body_json(&delta, &cfg);
    let v: serde_json::Value = serde_json::from_str(&body).unwrap();
    assert_eq!(v["agent"]["host"].as_str().unwrap(), "dbhost");
    assert_eq!(v["agent"]["pid"].as_i64().unwrap(), 1234);
    assert_eq!(v["agent"]["version"].as_str().unwrap(), "0.1");
    let components = v["components"].as_array().unwrap();
    assert_eq!(components.len(), 1);
    let comp = &components[0];
    assert_eq!(comp["name"].as_str().unwrap(), cfg.db_name);
    assert_eq!(comp["guid"].as_str().unwrap(), cfg.plugin_guid);
    assert_eq!(comp["duration"].as_i64().unwrap(), cfg.poll_cadence_secs);
    let metrics = comp["metrics"].as_object().unwrap();
    assert_eq!(metrics.len(), 20);
    assert_eq!(metrics["Component/conn/Connections[Count]"].as_i64().unwrap(), 7);
    assert_eq!(metrics["Component/ops/Inserts[Count]"].as_i64().unwrap(), 40);
    assert_eq!(metrics["Component/ops/Queries[Count]"].as_i64().unwrap(), 0);
    assert_eq!(metrics["Component/idx/Index Miss Ratio[Count]"].as_f64().unwrap(), 0.03);
    assert_eq!(metrics["Component/net/Bytes In[Count]"].as_f64().unwrap(), 600.0);
    assert_eq!(metrics["Component/net/Bytes Out[Count]"].as_f64().unwrap(), 0.0);
    assert_eq!(metrics["Component/locks/R Locked uSec[Count]"].as_i64().unwrap(), 0);
    assert_eq!(metrics["Component/documents/Returned[Count]"].as_i64().unwrap(), 0);
}

#[test]
fn strings_from_configuration_are_escaped_in_the_envelope() {
    let mut cfg = config();
    cfg.db_host = "db\"host\\one\n\ttwo\u{1}".to_string();
    cfg.db_name = "my\"db".to_string();
    cfg.plugin_guid = "guid\\x".to_string();
    let body = get_newrelic_body_json(&delta_stats(), &cfg);
    let v: serde_json::Value = serde_json::from_str(&body).unwrap();
    assert_eq!(v["agent"]["host"].as_str().unwrap(), cfg.db_host);
    assert_eq!(v["components"][0]["name"].as_str().unwrap(), cfg.db_name);
    assert_eq!(v["components"][0]["guid"].as_str().unwrap(), cfg.plugin_guid);
}

#[test]
fn extreme_counter_values_survive_the_round_trip() {
    let mut d = delta_stats();
    d.r_time_locked_micros = i64::MIN;
    d.w_time_locked_micros = i64::MAX;
    let body = get_newrelic_body_json(&d, &config());
    let v: serde_json::Value = serde_json::from_str(&body).unwrap();
    let metrics = &v["components"][0]["metrics"];
    assert_eq!(metrics["Component/locks/R Locked uSec[Count]"].as_i64().unwrap(), i64::MIN);
    assert_eq!(metrics["Component/locks/W Locked uSec[Count]"].as_i64().unwrap(), i64::MAX);
}

#[test]
fn metrics_map_lists_all_twenty_names_in_table_order() {
    let d = delta_stats();
    let map = get_metrics_map(&d);
    assert_eq!(map.len(), 20);
    assert_eq!(map[0].0, "Component/conn/Connections[Count]");
    assert_eq!(map[0].1, MetricValue::Int(7));
    assert_eq!(map[4].0, "Component/ops/Inserts[Count]");
    assert_eq!(map[4].1, MetricValue::Int(40));
    assert_eq!(map[13].0, "Component/net/Bytes In[Count]");
    assert_eq!(
        map[13].1,
        MetricValue::Dec(Decimal6 { millionths: -4_800_000_000 })
    );
    assert_eq!(map[19].0, "Component/documents/Inserted[Count]");
    assert_eq!(map[19].1, MetricValue::Int(90));
    let mut names: Vec<String> = map.iter().map(|e| e.0.clone()).collect();
    names.sort();
    names.dedup();
    assert_eq!(names.len(), 20);
}

#[test]
fn build_agent_copies_its_parts() {
    let agent = build_agent("host7", 4321, "2.0".to_string());
    assert_eq!(agent.host, "host7");
    assert_eq!(agent.pid, 4321);
    assert_eq!(agent.version, "2.0");
}

#[test]
fn first_tick_reports_nothing_and_retains_the_snapshot() {
    let c = delta_stats();
    let (payload, stored) = tick(None, c, &config());
    assert!(payload.is_none());
    assert_eq!(stored, c);
}

#[test]
fn later_ticks_report_the_delta_envelope() {
    let mut p = delta_stats();
    let mut c = delta_stats();
    p.inserts = 100;
    c.inserts = 140;
    let cfg = config();
    let (payload, stored) = tick(Some(p), c, &cfg);
    assert_eq!(stored, c);
    let expected = get_newrelic_body_json(&diff_stats(p, c), &cfg);
    assert_eq!(payload.unwrap(), expected);
}
