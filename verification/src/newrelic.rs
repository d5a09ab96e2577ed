//! The metrics encoder: the fixed metric-name table, and the verified
//! serializer that turns a delta snapshot plus static identity into the
//! vendor JSON envelope.

use vstd::prelude::*;
use vstd::string::StringExecFns;

use crate::config::Config;
use crate::stats::{diff_fits, diff_spec, Stats};
use crate::text::{
    chars_to_string, dec6_str, dec6_to_dec, escape_json, i64_to_dec, int_str, json_escape,
};
use crate::Decimal6;

verus! {

/// One numeric metric value: an integer count or an exact decimal.
#[derive(Debug, Clone, Copy, PartialEq, Eq, Structural)]
pub enum MetricValue {
    Int(i64),
    Dec(Decimal6),
}

/// Static agent identity in the envelope.
#[derive(Debug)]
pub struct NewrelicAgent {
    pub host: String,
    pub pid: i64,
    pub version: String,
}

/// One reported component: identity, reporting interval, and the ordered
/// metric-name-to-value mapping.
#[derive(Debug)]
pub struct NewrelicComponent {
    pub name: String,
    pub guid: String,
    pub duration: i64,
    pub metrics: Vec<(String, MetricValue)>,
}

/// The whole envelope: one agent descriptor and the reported components.
#[derive(Debug)]
pub struct NewrelicBody {
    pub agent: NewrelicAgent,
    pub components: Vec<NewrelicComponent>,
}

/// The views of an ordered metric mapping.
pub open spec fn pairs_view(v: Seq<(String, MetricValue)>) -> Seq<(Seq<char>, MetricValue)> {
    v.map_values(|p: (String, MetricValue)| (p.0@, p.1))
}

/// The fixed metric-name table: the twenty schema fields in order, each
/// under its human-readable `Component/<category>/<Label>[Count]` name.
pub open spec fn metrics_map_spec(s: Stats) -> Seq<(Seq<char>, MetricValue)> {
    seq![
        ("Component/conn/Connections[Count]"@, MetricValue::Int(s.connections as i64)),
        (
            "Component/conn/Connections Available[Count]"@,
            MetricValue::Int(s.connections_available as i64),
        ),
        ("Component/clients/Active Readers[Count]"@, MetricValue::Int(s.active_r as i64)),
        ("Component/clients/Active Writers[Count]"@, MetricValue::Int(s.active_w as i64)),
        ("Component/ops/Inserts[Count]"@, MetricValue::Int(s.inserts as i64)),
        ("Component/ops/Queries[Count]"@, MetricValue::Int(s.queries as i64)),
        ("Component/ops/Updates[Count]"@, MetricValue::Int(s.updates as i64)),
        ("Component/ops/Deletes[Count]"@, MetricValue::Int(s.deletes as i64)),
        ("Component/ops/Getmores[Count]"@, MetricValue::Int(s.getmores as i64)),
        ("Component/ops/Commands[Count]"@, MetricValue::Int(s.commands as i64)),
        ("Component/sys/Page Fault[Count]"@, MetricValue::Int(s.page_fault as i64)),
        ("Component/sys/Queue Read[Count]"@, MetricValue::Int(s.queue_read as i64)),
        ("Component/sys/Queue Write[Count]"@, MetricValue::Int(s.queue_write as i64)),
        ("Component/net/Bytes In[Count]"@, MetricValue::Dec(s.net_in_bytes)),
        ("Component/net/Bytes Out[Count]"@, MetricValue::Dec(s.net_out_bytes)),
        ("Component/idx/Index Miss Ratio[Count]"@, MetricValue::Dec(s.idx_miss_ratio)),
        ("Component/locks/R Locked uSec[Count]"@, MetricValue::Int(s.r_time_locked_micros)),
        ("Component/locks/W Locked uSec[Count]"@, MetricValue::Int(s.w_time_locked_micros)),
        ("Component/documents/Returned[Count]"@, MetricValue::Int(s.docs_returned)),
        ("Component/documents/Inserted[Count]"@, MetricValue::Int(s.docs_inserted)),
    ]
}

/// Builds the ordered metric mapping for a (delta) snapshot: all twenty
/// fields, each under its fixed name, in table order.
pub fn get_metrics_map(stats: &Stats) -> (r: Vec<(String, MetricValue)>)
    ensures
        pairs_view(r@) == metrics_map_spec(*stats),
{
    let mut stats_map: Vec<(String, MetricValue)> = Vec::new();
    stats_map.push(
        ("Component/conn/Connections[Count]".to_owned(), MetricValue::Int(stats.connections as i64)),
    );
    stats_map.push(
        (
            "Component/conn/Connections Available[Count]".to_owned(),
            MetricValue::Int(stats.connections_available as i64),
        ),
    );
    stats_map.push(
        (
            "Component/clients/Active Readers[Count]".to_owned(),
            MetricValue::Int(stats.active_r as i64),
        ),
    );
    stats_map.push(
        (
            "Component/clients/Active Writers[Count]".to_owned(),
            MetricValue::Int(stats.active_w as i64),
        ),
    );
    stats_map.push(
        ("Component/ops/Inserts[Count]".to_owned(), MetricValue::Int(stats.inserts as i64)),
    );
    stats_map.push(
        ("Component/ops/Queries[Count]".to_owned(), MetricValue::Int(stats.queries as i64)),
    );
    stats_map.push(
        ("Component/ops/Updates[Count]".to_owned(), MetricValue::Int(stats.updates as i64)),
    );
    stats_map.push(
        ("Component/ops/Deletes[Count]".to_owned(), MetricValue::Int(stats.deletes as i64)),
    );
    stats_map.push(
        ("Component/ops/Getmores[Count]".to_owned(), MetricValue::Int(stats.getmores as i64)),
    );
    stats_map.push(
        ("Component/ops/Commands[Count]".to_owned(), MetricValue::Int(stats.commands as i64)),
    );
    stats_map.push(
        ("Component/sys/Page Fault[Count]".to_owned(), MetricValue::Int(stats.page_fault as i64)),
    );
    stats_map.push(
        ("Component/sys/Queue Read[Count]".to_owned(), MetricValue::Int(stats.queue_read as i64)),
    );
    stats_map.push(
        ("Component/sys/Queue Write[Count]".to_owned(), MetricValue::Int(stats.queue_write as i64)),
    );
    stats_map.push(("Component/net/Bytes In[Count]".to_owned(), MetricValue::Dec(stats.net_in_bytes)));
    stats_map.push(
        ("Component/net/Bytes Out[Count]".to_owned(), MetricValue::Dec(stats.net_out_bytes)),
    );
    stats_map.push(
        ("Component/idx/Index Miss Ratio[Count]".to_owned(), MetricValue::Dec(stats.idx_miss_ratio)),
    );
    stats_map.push(
        (
            "Component/locks/R Locked uSec[Count]".to_owned(),
            MetricValue::Int(stats.r_time_locked_micros),
        ),
    );
    stats_map.push(
        (
            "Component/locks/W Locked uSec[Count]".to_owned(),
            MetricValue::Int(stats.w_time_locked_micros),
        ),
    );
    stats_map.push(
        ("Component/documents/Returned[Count]".to_owned(), MetricValue::Int(stats.docs_returned)),
    );
    stats_map.push(
        ("Component/documents/Inserted[Count]".to_owned(), MetricValue::Int(stats.docs_inserted)),
    );
    proof {
        assert(pairs_view(stats_map@) =~= metrics_map_spec(*stats));
    }
    stats_map
}

/// The JSON text of one metric value.
pub open spec fn value_json(v: MetricValue) -> Seq<char> {
    match v {
        MetricValue::Int(i) => int_str(i as int),
        MetricValue::Dec(d) => dec6_str(d.millionths as int),
    }
}

/// The JSON text of one metric entry. The fixed metric names contain no
/// character that JSON requires escaped, so the name stands verbatim.
pub open spec fn entry_json(p: (Seq<char>, MetricValue)) -> Seq<char> {
    "\""@ + p.0 + "\":"@ + value_json(p.1)
}

/// The comma-joined JSON entries of an ordered metric mapping.
pub open spec fn entries_json(ps: Seq<(Seq<char>, MetricValue)>) -> Seq<char>
    decreases ps.len(),
{
    if ps.len() == 0 {
        seq![]
    } else if ps.len() == 1 {
        entry_json(ps[0])
    } else {
        entries_json(ps.drop_last()) + ","@ + entry_json(ps.last())
    }
}

/// The JSON object for the agent descriptor.
pub open spec fn agent_json_parts(host: Seq<char>, pid: int, version: Seq<char>) -> Seq<char> {
    "{\"host\":\""@ + json_escape(host) + "\",\"pid\":"@ + int_str(pid) + ",\"version\":\""@
        + json_escape(version) + "\"}"@
}

/// The JSON object for one component.
pub open spec fn component_json_parts(
    name: Seq<char>,
    guid: Seq<char>,
    duration: int,
    metrics: Seq<(Seq<char>, MetricValue)>,
) -> Seq<char> {
    "{\"name\":\""@ + json_escape(name) + "\",\"guid\":\""@ + json_escape(guid)
        + "\",\"duration\":"@ + int_str(duration) + ",\"metrics\":{"@ + entries_json(metrics)
        + "}}"@
}

/// The comma-joined JSON objects of the components list.
pub open spec fn components_json(cs: Seq<NewrelicComponent>) -> Seq<char>
    decreases cs.len(),
{
    if cs.len() == 0 {
        seq![]
    } else if cs.len() == 1 {
        component_json(cs[0])
    } else {
        components_json(cs.drop_last()) + ","@ + component_json(cs.last())
    }
}

/// The JSON object of one component value.
pub open spec fn component_json(c: NewrelicComponent) -> Seq<char> {
    component_json_parts(c.name@, c.guid@, c.duration as int, pairs_view(c.metrics@))
}

/// The JSON text of a whole envelope value.
pub open spec fn body_json(b: NewrelicBody) -> Seq<char> {
    "{\"agent\":"@ + agent_json_parts(b.agent.host@, b.agent.pid as int, b.agent.version@)
        + ",\"components\":["@ + components_json(b.components@) + "]}"@
}

fn append_vec_chars(out: &mut String, v: Vec<char>)
    ensures
        final(out)@ == old(out)@ + v@,
{
    let s = chars_to_string(&v);
    out.append(s.as_str());
}

fn append_value(out: &mut String, v: &MetricValue)
    ensures
        final(out)@ == old(out)@ + value_json(*v),
{
    match v {
        MetricValue::Int(i) => append_vec_chars(out, i64_to_dec(*i)),
        MetricValue::Dec(d) => append_vec_chars(out, dec6_to_dec(*d)),
    }
}

fn append_entries(out: &mut String, ps: &Vec<(String, MetricValue)>)
    ensures
        final(out)@ == old(out)@ + entries_json(pairs_view(ps@)),
{
    let mut i: usize = 0;
    while i < ps.len()
        invariant
            i <= ps@.len(),
            out@ == old(out)@ + entries_json(pairs_view(ps@).take(i as int)),
        decreases ps@.len() - i,
    {
        if i > 0 {
            out.append(",");
        }
        out.append("\"");
        let entry = &ps[i];
        out.append(entry.0.as_str());
        out.append("\":");
        append_value(out, &entry.1);
        proof {
            let pv = pairs_view(ps@);
            assert(pv.take(i + 1).drop_last() =~= pv.take(i as int));
            assert(pv.take(i + 1).last() == pv[i as int]);
            assert(out@ =~= old(out)@ + entries_json(pv.take(i + 1)));
        }
        i += 1;
    }
    proof {
        assert(pairs_view(ps@).take(pairs_view(ps@).len() as int) =~= pairs_view(ps@));
    }
}

fn append_agent(out: &mut String, a: &NewrelicAgent)
    ensures
        final(out)@ == old(out)@ + agent_json_parts(a.host@, a.pid as int, a.version@),
{
    out.append("{\"host\":\"");
    append_vec_chars(out, escape_json(a.host.as_str()));
    out.append("\",\"pid\":");
    append_vec_chars(out, i64_to_dec(a.pid));
    out.append(",\"version\":\"");
    append_vec_chars(out, escape_json(a.version.as_str()));
    out.append("\"}");
    proof {
        assert(out@ =~= old(out)@ + agent_json_parts(a.host@, a.pid as int, a.version@));
    }
}

fn append_component(out: &mut String, c: &NewrelicComponent)
    ensures
        final(out)@ == old(out)@ + component_json(*c),
{
    out.append("{\"name\":\"");
    append_vec_chars(out, escape_json(c.name.as_str()));
    out.append("\",\"guid\":\"");
    append_vec_chars(out, escape_json(c.guid.as_str()));
    out.append("\",\"duration\":");
    append_vec_chars(out, i64_to_dec(c.duration));
    out.append(",\"metrics\":{");
    append_entries(out, &c.metrics);
    out.append("}}");
    proof {
        assert(out@ =~= old(out)@ + component_json(*c));
    }
}

/// Serializes a whole envelope value into its exact JSON text.
pub fn encode_body(body: &NewrelicBody) -> (r: String)
    ensures
        r@ == body_json(*body),
{
    let mut out = String::new();
    out.append("{\"agent\":");
    append_agent(&mut out, &body.agent);
    out.append(",\"components\":[");
    let ghost head = out@;
    let mut i: usize = 0;
    while i < body.components.len()
        invariant
            i <= body.components@.len(),
            out@ == head + components_json(body.components@.take(i as int)),
        decreases body.components@.len() - i,
    {
        if i > 0 {
            out.append(",");
        }
        append_component(&mut out, &body.components[i]);
        proof {
            let cs = body.components@;
            assert(cs.take(i + 1).drop_last() =~= cs.take(i as int));
            assert(cs.take(i + 1).last() == cs[i as int]);
            assert(out@ =~= head + components_json(cs.take(i + 1)));
        }
        i += 1;
    }
    out.append("]}");
    proof {
        assert(body.components@.take(body.components@.len() as int) =~= body.components@);
        assert(out@ =~= body_json(*body));
    }
    out
}

/// Builds the agent descriptor from its parts.
pub fn build_agent(host: &str, pid: i64, version: String) -> (r: NewrelicAgent)
    ensures
        r.host@ == host@,
        r.pid == pid,
        r.version == version,
{
    NewrelicAgent { host: host.to_owned(), pid: pid, version: version }
}

/// The exact JSON envelope reported for a delta snapshot under a
/// configuration: the static agent descriptor, then one component whose
/// name is the database, whose guid is the plugin identifier, whose
/// duration is the reporting interval, and whose metrics are the full
/// twenty-entry table.
pub open spec fn envelope_json(stats: Stats, config: Config) -> Seq<char> {
    "{\"agent\":"@ + agent_json_parts(config.db_host@, 1234, "0.1"@) + ",\"components\":["@
        + component_json_parts(
        config.db_name@,
        config.plugin_guid@,
        config.poll_cadence_secs as int,
        metrics_map_spec(stats),
    ) + "]}"@
}

/// Encodes a delta snapshot plus the configured identity into the vendor
/// JSON envelope, ready for transport.
pub fn get_newrelic_body_json(stats: &Stats, config: &Config) -> (r: String)
    ensures
        r@ == envelope_json(*stats, *config),
{
    let agent = build_agent(config.db_host.as_str(), 1234, "0.1".to_owned());
    let component = NewrelicComponent {
        name: config.db_name.clone(),
        guid: config.plugin_guid.clone(),
        duration: config.poll_cadence_secs,
        metrics: get_metrics_map(stats),
    };
    let mut components: Vec<NewrelicComponent> = Vec::new();
    components.push(component);
    let body = NewrelicBody { agent: agent, components: components };
    let r = encode_body(&body);
    proof {
        assert(body.components@.len() == 1);
        assert(components_json(body.components@) == component_json(body.components@[0]));
        assert(r@ =~= envelope_json(*stats, *config));
    }
    r
}

/// Law: the metric mapping encoded for the delta of two snapshots holds
/// exactly the twenty fixed metric names, pairwise distinct, and each is
/// mapped to the corresponding delta value: gauge entries hold the current
/// snapshot's value and counter entries hold current minus previous.
#[verifier::rlimit(100)]
pub proof fn lemma_envelope_delta_metrics(p: Stats, c: Stats)
    requires
        diff_fits(p, c),
    ensures
        metrics_map_spec(diff_spec(p, c)).len() == 20,
        metrics_map_spec(diff_spec(p, c))[0] == ("Component/conn/Connections[Count]"@, MetricValue::Int(c.connections as i64)),
        metrics_map_spec(diff_spec(p, c))[1] == ("Component/conn/Connections Available[Count]"@, MetricValue::Int(c.connections_available as i64)),
        metrics_map_spec(diff_spec(p, c))[2] == ("Component/clients/Active Readers[Count]"@, MetricValue::Int(c.active_r as i64)),
        metrics_map_spec(diff_spec(p, c))[3] == ("Component/clients/Active Writers[Count]"@, MetricValue::Int(c.active_w as i64)),
        metrics_map_spec(diff_spec(p, c))[4] == ("Component/ops/Inserts[Count]"@, MetricValue::Int((c.inserts - p.inserts) as i64)),
        metrics_map_spec(diff_spec(p, c))[5] == ("Component/ops/Queries[Count]"@, MetricValue::Int((c.queries - p.queries) as i64)),
        metrics_map_spec(diff_spec(p, c))[6] == ("Component/ops/Updates[Count]"@, MetricValue::Int((c.updates - p.updates) as i64)),
        metrics_map_spec(diff_spec(p, c))[7] == ("Component/ops/Deletes[Count]"@, MetricValue::Int((c.deletes - p.deletes) as i64)),
        metrics_map_spec(diff_spec(p, c))[8] == ("Component/ops/Getmores[Count]"@, MetricValue::Int((c.getmores - p.getmores) as i64)),
        metrics_map_spec(diff_spec(p, c))[9] == ("Component/ops/Commands[Count]"@, MetricValue::Int((c.commands - p.commands) as i64)),
        metrics_map_spec(diff_spec(p, c))[10] == ("Component/sys/Page Fault[Count]"@, MetricValue::Int((c.page_fault - p.page_fault) as i64)),
        metrics_map_spec(diff_spec(p, c))[11] == ("Component/sys/Queue Read[Count]"@, MetricValue::Int(c.queue_read as i64)),
        metrics_map_spec(diff_spec(p, c))[12] == ("Component/sys/Queue Write[Count]"@, MetricValue::Int(c.queue_write as i64)),
        metrics_map_spec(diff_spec(p, c))[13] == ("Component/net/Bytes In[Count]"@, MetricValue::Dec(Decimal6 { millionths: (c.net_in_bytes.millionths - p.net_in_bytes.millionths) as i64 })),
        metrics_map_spec(diff_spec(p, c))[14] == ("Component/net/Bytes Out[Count]"@, MetricValue::Dec(Decimal6 { millionths: (c.net_out_bytes.millionths - p.net_out_bytes.millionths) as i64 })),
        metrics_map_spec(diff_spec(p, c))[15] == ("Component/idx/Index Miss Ratio[Count]"@, MetricValue::Dec(c.idx_miss_ratio)),
        metrics_map_spec(diff_spec(p, c))[16] == ("Component/locks/R Locked uSec[Count]"@, MetricValue::Int((c.r_time_locked_micros - p.r_time_locked_micros) as i64)),
        metrics_map_spec(diff_spec(p, c))[17] == ("Component/locks/W Locked uSec[Count]"@, MetricValue::Int((c.w_time_locked_micros - p.w_time_locked_micros) as i64)),
        metrics_map_spec(diff_spec(p, c))[18] == ("Component/documents/Returned[Count]"@, MetricValue::Int((c.docs_returned - p.docs_returned) as i64)),
        metrics_map_spec(diff_spec(p, c))[19] == ("Component/documents/Inserted[Count]"@, MetricValue::Int((c.docs_inserted - p.docs_inserted) as i64)),
        forall|i: int, j: int|
            #![trigger metrics_map_spec(diff_spec(p, c))[i], metrics_map_spec(diff_spec(p, c))[j]]
            0 <= i < j < 20 ==> metrics_map_spec(diff_spec(p, c))[i].0 != metrics_map_spec(
                diff_spec(p, c),
            )[j].0,
{
    reveal_strlit("Component/conn/Connections[Count]");
    reveal_strlit("Component/conn/Connections Available[Count]");
    reveal_strlit("Component/clients/Active Readers[Count]");
    reveal_strlit("Component/clients/Active Writers[Count]");
    reveal_strlit("Component/ops/Inserts[Count]");
    reveal_strlit("Component/ops/Queries[Count]");
    reveal_strlit("Component/ops/Updates[Count]");
    reveal_strlit("Component/ops/Deletes[Count]");
    reveal_strlit("Component/ops/Getmores[Count]");
    reveal_strlit("Component/ops/Commands[Count]");
    reveal_strlit("Component/sys/Page Fault[Count]");
    reveal_strlit("Component/sys/Queue Read[Count]");
    reveal_strlit("Component/sys/Queue Write[Count]");
    reveal_strlit("Component/net/Bytes In[Count]");
    reveal_strlit("Component/net/Bytes Out[Count]");
    reveal_strlit("Component/idx/Index Miss Ratio[Count]");
    reveal_strlit("Component/locks/R Locked uSec[Count]");
    reveal_strlit("Component/locks/W Locked uSec[Count]");
    reveal_strlit("Component/documents/Returned[Count]");
    reveal_strlit("Component/documents/Inserted[Count]");
    assert("Component/ops/Inserts[Count]"@[14] != "Component/ops/Queries[Count]"@[14]);
    assert("Component/ops/Inserts[Count]"@[14] != "Component/ops/Updates[Count]"@[14]);
    assert("Component/ops/Inserts[Count]"@[14] != "Component/ops/Deletes[Count]"@[14]);
    assert("Component/ops/Queries[Count]"@[14] != "Component/ops/Updates[Count]"@[14]);
    assert("Component/ops/Queries[Count]"@[14] != "Component/ops/Deletes[Count]"@[14]);
    assert("Component/ops/Updates[Count]"@[14] != "Component/ops/Deletes[Count]"@[14]);
    assert("Component/ops/Getmores[Count]"@[14] != "Component/ops/Commands[Count]"@[14]);
    assert("Component/ops/Getmores[Count]"@[10] != "Component/net/Bytes In[Count]"@[10]);
    assert("Component/ops/Commands[Count]"@[10] != "Component/net/Bytes In[Count]"@[10]);
    assert("Component/sys/Page Fault[Count]"@[14] != "Component/sys/Queue Read[Count]"@[14]);
    assert("Component/documents/Returned[Count]"@[20] != "Component/documents/Inserted[Count]"@[20]);
    assert("Component/locks/R Locked uSec[Count]"@[16] != "Component/locks/W Locked uSec[Count]"@[16]);
    assert("Component/clients/Active Readers[Count]"@[25] != "Component/clients/Active Writers[Count]"@[25]);
    let m = metrics_map_spec(diff_spec(p, c));
    assert forall|i: int, j: int| 0 <= i < j < 20 implies m[i].0 != m[j].0 by {
        assert(m[0].0 == "Component/conn/Connections[Count]"@);
        assert(m[1].0 == "Component/conn/Connections Available[Count]"@);
        assert(m[2].0 == "Component/clients/Active Readers[Count]"@);
        assert(m[3].0 == "Component/clients/Active Writers[Count]"@);
        assert(m[4].0 == "Component/ops/Inserts[Count]"@);
        assert(m[5].0 == "Component/ops/Queries[Count]"@);
        assert(m[6].0 == "Component/ops/Updates[Count]"@);
        assert(m[7].0 == "Component/ops/Deletes[Count]"@);
        assert(m[8].0 == "Component/ops/Getmores[Count]"@);
        assert(m[9].0 == "Component/ops/Commands[Count]"@);
        assert(m[10].0 == "Component/sys/Page Fault[Count]"@);
        assert(m[11].0 == "Component/sys/Queue Read[Count]"@);
        assert(m[12].0 == "Component/sys/Queue Write[Count]"@);
        assert(m[13].0 == "Component/net/Bytes In[Count]"@);
        assert(m[14].0 == "Component/net/Bytes Out[Count]"@);
        assert(m[15].0 == "Component/idx/Index Miss Ratio[Count]"@);
        assert(m[16].0 == "Component/locks/R Locked uSec[Count]"@);
        assert(m[17].0 == "Component/locks/W Locked uSec[Count]"@);
        assert(m[18].0 == "Component/documents/Returned[Count]"@);
        assert(m[19].0 == "Component/documents/Inserted[Count]"@);
    };
}

} // verus!
