//! The fixed counter/gauge schema: extracting a `Stats` snapshot from a
//! status document, and differencing two consecutive snapshots.

use vstd::prelude::*;
use vstd::string::StringExecFns;

use crate::Decimal6;
use crate::status::{dec6_at, i32_at, i64_at, path_view, AccessError, StatusDocument};

verus! {

/// One point-in-time extraction of the fixed schema: current counts and
/// gauges, plus cumulative counters, all numeric and fully populated.
/// The same shape carries a delta, where each counter field holds the
/// change since the previous snapshot.
#[derive(Debug, Clone, Copy, PartialEq, Eq, Structural)]
pub struct Stats {
    pub connections: i32,
    pub connections_available: i32,
    pub active_r: i32,
    pub active_w: i32,
    pub inserts: i32,
    pub queries: i32,
    pub updates: i32,
    pub deletes: i32,
    pub getmores: i32,
    pub commands: i32,
    pub page_fault: i32,
    pub queue_read: i32,
    pub queue_write: i32,
    pub net_in_bytes: Decimal6,
    pub net_out_bytes: Decimal6,
    pub idx_miss_ratio: Decimal6,
    pub r_time_locked_micros: i64,
    pub w_time_locked_micros: i64,
    pub docs_returned: i64,
    pub docs_inserted: i64,
}

/// A failed sample: the first status field that could not be read, dotted
/// path and cause included. No partial snapshot accompanies it.
#[derive(Debug, Clone)]
pub struct SampleError {
    pub field: String,
    pub cause: AccessError,
}

pub open spec fn path_connections() -> Seq<Seq<char>> {
    seq!["connections"@, "current"@]
}

pub open spec fn path_connections_available() -> Seq<Seq<char>> {
    seq!["connections"@, "available"@]
}

pub open spec fn path_active_r() -> Seq<Seq<char>> {
    seq!["globalLock"@, "activeClients"@, "readers"@]
}

pub open spec fn path_active_w() -> Seq<Seq<char>> {
    seq!["globalLock"@, "activeClients"@, "writers"@]
}

pub open spec fn path_inserts() -> Seq<Seq<char>> {
    seq!["opcounters"@, "insert"@]
}

pub open spec fn path_queries() -> Seq<Seq<char>> {
    seq!["opcounters"@, "query"@]
}

pub open spec fn path_updates() -> Seq<Seq<char>> {
    seq!["opcounters"@, "update"@]
}

pub open spec fn path_deletes() -> Seq<Seq<char>> {
    seq!["opcounters"@, "delete"@]
}

pub open spec fn path_getmores() -> Seq<Seq<char>> {
    seq!["opcounters"@, "getmore"@]
}

pub open spec fn path_commands() -> Seq<Seq<char>> {
    seq!["opcounters"@, "command"@]
}

pub open spec fn path_page_fault() -> Seq<Seq<char>> {
    seq!["recordStats"@, "pageFaultExceptionsThrown"@]
}

pub open spec fn path_queue_read() -> Seq<Seq<char>> {
    seq!["globalLock"@, "currentQueue"@, "readers"@]
}

pub open spec fn path_queue_write() -> Seq<Seq<char>> {
    seq!["globalLock"@, "currentQueue"@, "writers"@]
}

pub open spec fn path_net_in_bytes() -> Seq<Seq<char>> {
    seq!["network"@, "bytesIn"@]
}

pub open spec fn path_net_out_bytes() -> Seq<Seq<char>> {
    seq!["network"@, "bytesOut"@]
}

pub open spec fn path_idx_miss_ratio() -> Seq<Seq<char>> {
    seq!["indexCounters"@, "missRatio"@]
}

pub open spec fn path_r_time_locked(db: Seq<char>) -> Seq<Seq<char>> {
    seq!["locks"@, db, "timeLockedMicros"@, "r"@]
}

pub open spec fn path_w_time_locked(db: Seq<char>) -> Seq<Seq<char>> {
    seq!["locks"@, db, "timeLockedMicros"@, "w"@]
}

pub open spec fn path_docs_returned() -> Seq<Seq<char>> {
    seq!["metrics"@, "document"@, "returned"@]
}

pub open spec fn path_docs_inserted() -> Seq<Seq<char>> {
    seq!["metrics"@, "document"@, "inserted"@]
}

/// The dotted name of the read-lock time field for a live database name.
pub open spec fn name_r_time_locked(db: Seq<char>) -> Seq<char> {
    "locks."@ + db + ".timeLockedMicros.r"@
}

/// The dotted name of the write-lock time field for a live database name.
pub open spec fn name_w_time_locked(db: Seq<char>) -> Seq<char> {
    "locks."@ + db + ".timeLockedMicros.w"@
}

/// The first of the twenty fixed field reads that fails on this document,
/// in schema order, as (dotted field name, cause); `None` when all succeed.
pub open spec fn first_failure(doc: StatusDocument, db: Seq<char>) -> Option<
    (Seq<char>, AccessError),
> {
    if i32_at(doc, path_connections()) is Err {
        Some(("connections.current"@, i32_at(doc, path_connections())->Err_0))
    } else if i32_at(doc, path_connections_available()) is Err {
        Some(("connections.available"@, i32_at(doc, path_connections_available())->Err_0))
    } else if i32_at(doc, path_active_r()) is Err {
        Some(("globalLock.activeClients.readers"@, i32_at(doc, path_active_r())->Err_0))
    } else if i32_at(doc, path_active_w()) is Err {
        Some(("globalLock.activeClients.writers"@, i32_at(doc, path_active_w())->Err_0))
    } else if i32_at(doc, path_inserts()) is Err {
        Some(("opcounters.insert"@, i32_at(doc, path_inserts())->Err_0))
    } else if i32_at(doc, path_queries()) is Err {
        Some(("opcounters.query"@, i32_at(doc, path_queries())->Err_0))
    } else if i32_at(doc, path_updates()) is Err {
        Some(("opcounters.update"@, i32_at(doc, path_updates())->Err_0))
    } else if i32_at(doc, path_deletes()) is Err {
        Some(("opcounters.delete"@, i32_at(doc, path_deletes())->Err_0))
    } else if i32_at(doc, path_getmores()) is Err {
        Some(("opcounters.getmore"@, i32_at(doc, path_getmores())->Err_0))
    } else if i32_at(doc, path_commands()) is Err {
        Some(("opcounters.command"@, i32_at(doc, path_commands())->Err_0))
    } else if i32_at(doc, path_page_fault()) is Err {
        Some(("recordStats.pageFaultExceptionsThrown"@, i32_at(doc, path_page_fault())->Err_0))
    } else if i32_at(doc, path_queue_read()) is Err {
        Some(("globalLock.currentQueue.readers"@, i32_at(doc, path_queue_read())->Err_0))
    } else if i32_at(doc, path_queue_write()) is Err {
        Some(("globalLock.currentQueue.writers"@, i32_at(doc, path_queue_write())->Err_0))
    } else if dec6_at(doc, path_net_in_bytes()) is Err {
        Some(("network.bytesIn"@, dec6_at(doc, path_net_in_bytes())->Err_0))
    } else if dec6_at(doc, path_net_out_bytes()) is Err {
        Some(("network.bytesOut"@, dec6_at(doc, path_net_out_bytes())->Err_0))
    } else if dec6_at(doc, path_idx_miss_ratio()) is Err {
        Some(("indexCounters.missRatio"@, dec6_at(doc, path_idx_miss_ratio())->Err_0))
    } else if i64_at(doc, path_r_time_locked(db)) is Err {
        Some((name_r_time_locked(db), i64_at(doc, path_r_time_locked(db))->Err_0))
    } else if i64_at(doc, path_w_time_locked(db)) is Err {
        Some((name_w_time_locked(db), i64_at(doc, path_w_time_locked(db))->Err_0))
    } else if i64_at(doc, path_docs_returned()) is Err {
        Some(("metrics.document.returned"@, i64_at(doc, path_docs_returned())->Err_0))
    } else if i64_at(doc, path_docs_inserted()) is Err {
        Some(("metrics.document.inserted"@, i64_at(doc, path_docs_inserted())->Err_0))
    } else {
        None
    }
}

/// The snapshot a fully successful sample extracts: each field holds
/// exactly the value found at its fixed path.
pub open spec fn snapshot_of(doc: StatusDocument, db: Seq<char>) -> Stats {
    Stats {
        connections: i32_at(doc, path_connections())->Ok_0,
        connections_available: i32_at(doc, path_connections_available())->Ok_0,
        active_r: i32_at(doc, path_active_r())->Ok_0,
        active_w: i32_at(doc, path_active_w())->Ok_0,
        inserts: i32_at(doc, path_inserts())->Ok_0,
        queries: i32_at(doc, path_queries())->Ok_0,
        updates: i32_at(doc, path_updates())->Ok_0,
        deletes: i32_at(doc, path_deletes())->Ok_0,
        getmores: i32_at(doc, path_getmores())->Ok_0,
        commands: i32_at(doc, path_commands())->Ok_0,
        page_fault: i32_at(doc, path_page_fault())->Ok_0,
        queue_read: i32_at(doc, path_queue_read())->Ok_0,
        queue_write: i32_at(doc, path_queue_write())->Ok_0,
        net_in_bytes: dec6_at(doc, path_net_in_bytes())->Ok_0,
        net_out_bytes: dec6_at(doc, path_net_out_bytes())->Ok_0,
        idx_miss_ratio: dec6_at(doc, path_idx_miss_ratio())->Ok_0,
        r_time_locked_micros: i64_at(doc, path_r_time_locked(db))->Ok_0,
        w_time_locked_micros: i64_at(doc, path_w_time_locked(db))->Ok_0,
        docs_returned: i64_at(doc, path_docs_returned())->Ok_0,
        docs_inserted: i64_at(doc, path_docs_inserted())->Ok_0,
    }
}

/// Extracts the twenty fixed fields from a status document. Atomic: either
/// every field reads back with its exact value, or the whole sample fails
/// with the first failing field's dotted path, and no snapshot is returned.
pub fn sample(doc: &StatusDocument, db_name: &str) -> (r: Result<Stats, SampleError>)
    ensures
        match r {
            Ok(s) => first_failure(*doc, db_name@) is None && s == snapshot_of(*doc, db_name@),
            Err(e) => first_failure(*doc, db_name@) == Some((e.field@, e.cause)),
        },
{
    let p_connections: &[&str] = &["connections", "current"];
    proof {
        assert(path_view(p_connections@) =~= path_connections());
    }
    let connections = match doc.get_i32(p_connections) {
        Ok(v) => v,
        Err(e) => {
            return Err(SampleError { field: "connections.current".to_owned(), cause: e });
        },
    };
    let p_connections_available: &[&str] = &["connections", "available"];
    proof {
        assert(path_view(p_connections_available@) =~= path_connections_available());
    }
    let connections_available = match doc.get_i32(p_connections_available) {
        Ok(v) => v,
        Err(e) => {
            return Err(SampleError { field: "connections.available".to_owned(), cause: e });
        },
    };
    let p_active_r: &[&str] = &["globalLock", "activeClients", "readers"];
    proof {
        assert(path_view(p_active_r@) =~= path_active_r());
    }
    let active_r = match doc.get_i32(p_active_r) {
        Ok(v) => v,
        Err(e) => {
            return Err(
                SampleError { field: "globalLock.activeClients.readers".to_owned(), cause: e },
            );
        },
    };
    let p_active_w: &[&str] = &["globalLock", "activeClients", "writers"];
    proof {
        assert(path_view(p_active_w@) =~= path_active_w());
    }
    let active_w = match doc.get_i32(p_active_w) {
        Ok(v) => v,
        Err(e) => {
            return Err(
                SampleError { field: "globalLock.activeClients.writers".to_owned(), cause: e },
            );
        },
    };
    let p_inserts: &[&str] = &["opcounters", "insert"];
    proof {
        assert(path_view(p_inserts@) =~= path_inserts());
    }
    let inserts = match doc.get_i32(p_inserts) {
        Ok(v) => v,
        Err(e) => {
            return Err(SampleError { field: "opcounters.insert".to_owned(), cause: e });
        },
    };
    let p_queries: &[&str] = &["opcounters", "query"];
    proof {
        assert(path_view(p_queries@) =~= path_queries());
    }
    let queries = match doc.get_i32(p_queries) {
        Ok(v) => v,
        Err(e) => {
            return Err(SampleError { field: "opcounters.query".to_owned(), cause: e });
        },
    };
    let p_updates: &[&str] = &["opcounters", "update"];
    proof {
        assert(path_view(p_updates@) =~= path_updates());
    }
    let updates = match doc.get_i32(p_updates) {
        Ok(v) => v,
        Err(e) => {
            return Err(SampleError { field: "opcounters.update".to_owned(), cause: e });
        },
    };
    let p_deletes: &[&str] = &["opcounters", "delete"];
    proof {
        assert(path_view(p_deletes@) =~= path_deletes());
    }
    let deletes = match doc.get_i32(p_deletes) {
        Ok(v) => v,
        Err(e) => {
            return Err(SampleError { field: "opcounters.delete".to_owned(), cause: e });
        },
    };
    let p_getmores: &[&str] = &["opcounters", "getmore"];
    proof {
        assert(path_view(p_getmores@) =~= path_getmores());
    }
    let getmores = match doc.get_i32(p_getmores) {
        Ok(v) => v,
        Err(e) => {
            return Err(SampleError { field: "opcounters.getmore".to_owned(), cause: e });
        },
    };
    let p_commands: &[&str] = &["opcounters", "command"];
    proof {
        assert(path_view(p_commands@) =~= path_commands());
    }
    let commands = match doc.get_i32(p_commands) {
        Ok(v) => v,
        Err(e) => {
            return Err(SampleError { field: "opcounters.command".to_owned(), cause: e });
        },
    };
    let p_page_fault: &[&str] = &["recordStats", "pageFaultExceptionsThrown"];
    proof {
        assert(path_view(p_page_fault@) =~= path_page_fault());
    }
    let page_fault = match doc.get_i32(p_page_fault) {
        Ok(v) => v,
        Err(e) => {
            return Err(
                SampleError { field: "recordStats.pageFaultExceptionsThrown".to_owned(), cause: e },
            );
        },
    };
    let p_queue_read: &[&str] = &["globalLock", "currentQueue", "readers"];
    proof {
        assert(path_view(p_queue_read@) =~= path_queue_read());
    }
    let queue_read = match doc.get_i32(p_queue_read) {
        Ok(v) => v,
        Err(e) => {
            return Err(
                SampleError { field: "globalLock.currentQueue.readers".to_owned(), cause: e },
            );
        },
    };
    let p_queue_write: &[&str] = &["globalLock", "currentQueue", "writers"];
    proof {
        assert(path_view(p_queue_write@) =~= path_queue_write());
    }
    let queue_write = match doc.get_i32(p_queue_write) {
        Ok(v) => v,
        Err(e) => {
            return Err(
                SampleError { field: "globalLock.currentQueue.writers".to_owned(), cause: e },
            );
        },
    };
    let p_net_in_bytes: &[&str] = &["network", "bytesIn"];
    proof {
        assert(path_view(p_net_in_bytes@) =~= path_net_in_bytes());
    }
    let net_in_bytes = match doc.get_dec6(p_net_in_bytes) {
        Ok(v) => v,
        Err(e) => {
            return Err(SampleError { field: "network.bytesIn".to_owned(), cause: e });
        },
    };
    let p_net_out_bytes: &[&str] = &["network", "bytesOut"];
    proof {
        assert(path_view(p_net_out_bytes@) =~= path_net_out_bytes());
    }
    let net_out_bytes = match doc.get_dec6(p_net_out_bytes) {
        Ok(v) => v,
        Err(e) => {
            return Err(SampleError { field: "network.bytesOut".to_owned(), cause: e });
        },
    };
    let p_idx_miss_ratio: &[&str] = &["indexCounters", "missRatio"];
    proof {
        assert(path_view(p_idx_miss_ratio@) =~= path_idx_miss_ratio());
    }
    let idx_miss_ratio = match doc.get_dec6(p_idx_miss_ratio) {
        Ok(v) => v,
        Err(e) => {
            return Err(SampleError { field: "indexCounters.missRatio".to_owned(), cause: e });
        },
    };
    let p_r_time: &[&str] = &["locks", db_name, "timeLockedMicros", "r"];
    proof {
        assert(path_view(p_r_time@) =~= path_r_time_locked(db_name@));
    }
    let r_time_locked_micros = match doc.get_i64(p_r_time) {
        Ok(v) => v,
        Err(e) => {
            let mut field = "locks.".to_owned();
            field.append(db_name);
            field.append(".timeLockedMicros.r");
            return Err(SampleError { field, cause: e });
        },
    };
    let p_w_time: &[&str] = &["locks", db_name, "timeLockedMicros", "w"];
    proof {
        assert(path_view(p_w_time@) =~= path_w_time_locked(db_name@));
    }
    let w_time_locked_micros = match doc.get_i64(p_w_time) {
        Ok(v) => v,
        Err(e) => {
            let mut field = "locks.".to_owned();
            field.append(db_name);
            field.append(".timeLockedMicros.w");
            return Err(SampleError { field, cause: e });
        },
    };
    let p_docs_returned: &[&str] = &["metrics", "document", "returned"];
    proof {
        assert(path_view(p_docs_returned@) =~= path_docs_returned());
    }
    let docs_returned = match doc.get_i64(p_docs_returned) {
        Ok(v) => v,
        Err(e) => {
            return Err(SampleError { field: "metrics.document.returned".to_owned(), cause: e });
        },
    };
    let p_docs_inserted: &[&str] = &["metrics", "document", "inserted"];
    proof {
        assert(path_view(p_docs_inserted@) =~= path_docs_inserted());
    }
    let docs_inserted = match doc.get_i64(p_docs_inserted) {
        Ok(v) => v,
        Err(e) => {
            return Err(SampleError { field: "metrics.document.inserted".to_owned(), cause: e });
        },
    };
    Ok(
        Stats {
            connections,
            connections_available,
            active_r,
            active_w,
            inserts,
            queries,
            updates,
            deletes,
            getmores,
            commands,
            page_fault,
            queue_read,
            queue_write,
            net_in_bytes,
            net_out_bytes,
            idx_miss_ratio,
            r_time_locked_micros,
            w_time_locked_micros,
            docs_returned,
            docs_inserted,
        },
    )
}

/// Every counter difference of the pair fits its field's machine type.
pub open spec fn diff_fits(p: Stats, c: Stats) -> bool {
    &&& i32::MIN <= c.inserts - p.inserts <= i32::MAX
    &&& i32::MIN <= c.queries - p.queries <= i32::MAX
    &&& i32::MIN <= c.updates - p.updates <= i32::MAX
    &&& i32::MIN <= c.deletes - p.deletes <= i32::MAX
    &&& i32::MIN <= c.getmores - p.getmores <= i32::MAX
    &&& i32::MIN <= c.commands - p.commands <= i32::MAX
    &&& i32::MIN <= c.page_fault - p.page_fault <= i32::MAX
    &&& i64::MIN <= c.net_in_bytes.millionths - p.net_in_bytes.millionths <= i64::MAX
    &&& i64::MIN <= c.net_out_bytes.millionths - p.net_out_bytes.millionths <= i64::MAX
    &&& i64::MIN <= c.r_time_locked_micros - p.r_time_locked_micros <= i64::MAX
    &&& i64::MIN <= c.w_time_locked_micros - p.w_time_locked_micros <= i64::MAX
    &&& i64::MIN <= c.docs_returned - p.docs_returned <= i64::MAX
    &&& i64::MIN <= c.docs_inserted - p.docs_inserted <= i64::MAX
}

/// The delta of two snapshots: counters subtracted, gauges passed through.
pub open spec fn diff_spec(p: Stats, c: Stats) -> Stats {
    Stats {
        connections: c.connections,
        connections_available: c.connections_available,
        active_r: c.active_r,
        active_w: c.active_w,
        inserts: (c.inserts - p.inserts) as i32,
        queries: (c.queries - p.queries) as i32,
        updates: (c.updates - p.updates) as i32,
        deletes: (c.deletes - p.deletes) as i32,
        getmores: (c.getmores - p.getmores) as i32,
        commands: (c.commands - p.commands) as i32,
        page_fault: (c.page_fault - p.page_fault) as i32,
        queue_read: c.queue_read,
        queue_write: c.queue_write,
        net_in_bytes: Decimal6 {
            millionths: (c.net_in_bytes.millionths - p.net_in_bytes.millionths) as i64,
        },
        net_out_bytes: Decimal6 {
            millionths: (c.net_out_bytes.millionths - p.net_out_bytes.millionths) as i64,
        },
        idx_miss_ratio: c.idx_miss_ratio,
        r_time_locked_micros: (c.r_time_locked_micros - p.r_time_locked_micros) as i64,
        w_time_locked_micros: (c.w_time_locked_micros - p.w_time_locked_micros) as i64,
        docs_returned: (c.docs_returned - p.docs_returned) as i64,
        docs_inserted: (c.docs_inserted - p.docs_inserted) as i64,
    }
}

/// Decides executably whether every counter difference of the pair fits
/// its field's machine type.
pub fn diff_fits_check(p: &Stats, c: &Stats) -> (r: bool)
    ensures
        r == diff_fits(*p, *c),
{
    let d_inserts: i64 = c.inserts as i64 - p.inserts as i64;
    let d_queries: i64 = c.queries as i64 - p.queries as i64;
    let d_updates: i64 = c.updates as i64 - p.updates as i64;
    let d_deletes: i64 = c.deletes as i64 - p.deletes as i64;
    let d_getmores: i64 = c.getmores as i64 - p.getmores as i64;
    let d_commands: i64 = c.commands as i64 - p.commands as i64;
    let d_page_fault: i64 = c.page_fault as i64 - p.page_fault as i64;
    let d_net_in: i128 = c.net_in_bytes.millionths as i128 - p.net_in_bytes.millionths as i128;
    let d_net_out: i128 = c.net_out_bytes.millionths as i128 - p.net_out_bytes.millionths as i128;
    let d_r_time: i128 = c.r_time_locked_micros as i128 - p.r_time_locked_micros as i128;
    let d_w_time: i128 = c.w_time_locked_micros as i128 - p.w_time_locked_micros as i128;
    let d_docs_ret: i128 = c.docs_returned as i128 - p.docs_returned as i128;
    let d_docs_ins: i128 = c.docs_inserted as i128 - p.docs_inserted as i128;
    let lo32: i64 = i32::MIN as i64;
    let hi32: i64 = i32::MAX as i64;
    let lo64: i128 = i64::MIN as i128;
    let hi64: i128 = i64::MAX as i128;
    lo32 <= d_inserts && d_inserts <= hi32 && lo32 <= d_queries && d_queries <= hi32
        && lo32 <= d_updates && d_updates <= hi32 && lo32 <= d_deletes && d_deletes <= hi32
        && lo32 <= d_getmores && d_getmores <= hi32 && lo32 <= d_commands && d_commands <= hi32
        && lo32 <= d_page_fault && d_page_fault <= hi32 && lo64 <= d_net_in && d_net_in <= hi64
        && lo64 <= d_net_out && d_net_out <= hi64 && lo64 <= d_r_time && d_r_time <= hi64
        && lo64 <= d_w_time && d_w_time <= hi64 && lo64 <= d_docs_ret && d_docs_ret <= hi64
        && lo64 <= d_docs_ins && d_docs_ins <= hi64
}

/// Differences two snapshots when every counter delta fits, and reports
/// the overflowing pair otherwise, instead of demanding it of the caller.
pub fn try_diff_stats(p_stats: Stats, c_stats: Stats) -> (r: Option<Stats>)
    ensures
        match r {
            Some(d) => diff_fits(p_stats, c_stats) && d == diff_spec(p_stats, c_stats),
            None => !diff_fits(p_stats, c_stats),
        },
{
    if diff_fits_check(&p_stats, &c_stats) {
        Some(diff_stats(p_stats, c_stats))
    } else {
        None
    }
}

/// Differences two consecutive snapshots. Counters become `current -
/// previous` — negative when the server's cumulative counters reset, with
/// no clamping — and gauges hold the current value verbatim.
pub fn diff_stats(p_stats: Stats, c_stats: Stats) -> (r: Stats)
    requires
        diff_fits(p_stats, c_stats),
    ensures
        r == diff_spec(p_stats, c_stats),
        r.connections == c_stats.connections,
        r.connections_available == c_stats.connections_available,
        r.active_r == c_stats.active_r,
        r.active_w == c_stats.active_w,
        r.queue_read == c_stats.queue_read,
        r.queue_write == c_stats.queue_write,
        r.idx_miss_ratio == c_stats.idx_miss_ratio,
        r.inserts == c_stats.inserts - p_stats.inserts,
        r.queries == c_stats.queries - p_stats.queries,
        r.updates == c_stats.updates - p_stats.updates,
        r.deletes == c_stats.deletes - p_stats.deletes,
        r.getmores == c_stats.getmores - p_stats.getmores,
        r.commands == c_stats.commands - p_stats.commands,
        r.page_fault == c_stats.page_fault - p_stats.page_fault,
        r.net_in_bytes.millionths == c_stats.net_in_bytes.millionths
            - p_stats.net_in_bytes.millionths,
        r.net_out_bytes.millionths == c_stats.net_out_bytes.millionths
            - p_stats.net_out_bytes.millionths,
        r.r_time_locked_micros == c_stats.r_time_locked_micros - p_stats.r_time_locked_micros,
        r.w_time_locked_micros == c_stats.w_time_locked_micros - p_stats.w_time_locked_micros,
        r.docs_returned == c_stats.docs_returned - p_stats.docs_returned,
        r.docs_inserted == c_stats.docs_inserted - p_stats.docs_inserted,
{
    Stats {
        connections: c_stats.connections,
        connections_available: c_stats.connections_available,
        active_r: c_stats.active_r,
        active_w: c_stats.active_w,
        inserts: c_stats.inserts - p_stats.inserts,
        queries: c_stats.queries - p_stats.queries,
        updates: c_stats.updates - p_stats.updates,
        deletes: c_stats.deletes - p_stats.deletes,
        getmores: c_stats.getmores - p_stats.getmores,
        commands: c_stats.commands - p_stats.commands,
        page_fault: c_stats.page_fault - p_stats.page_fault,
        queue_read: c_stats.queue_read,
        queue_write: c_stats.queue_write,
        net_in_bytes: Decimal6 {
            millionths: c_stats.net_in_bytes.millionths - p_stats.net_in_bytes.millionths,
        },
        net_out_bytes: Decimal6 {
            millionths: c_stats.net_out_bytes.millionths - p_stats.net_out_bytes.millionths,
        },
        idx_miss_ratio: c_stats.idx_miss_ratio,
        r_time_locked_micros: c_stats.r_time_locked_micros - p_stats.r_time_locked_micros,
        w_time_locked_micros: c_stats.w_time_locked_micros - p_stats.w_time_locked_micros,
        docs_returned: c_stats.docs_returned - p_stats.docs_returned,
        docs_inserted: c_stats.docs_inserted - p_stats.docs_inserted,
    }
}

} // verus!

