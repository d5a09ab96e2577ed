//! The per-tick decision step of the driver loop: what to report, and what
//! becomes the retained previous snapshot. The loop around it — timer,
//! database fetch and HTTP delivery — is I/O and lives with the caller.

use vstd::prelude::*;

use crate::config::Config;
use crate::newrelic::{envelope_json, get_newrelic_body_json};
use crate::stats::{diff_fits, diff_spec, diff_stats, Stats};

verus! {

/// One tick after a successful sample. With no previous snapshot nothing
/// is diffed and nothing is reported; otherwise the delta envelope for
/// (previous, current) is produced. Either way the current snapshot is
/// handed back as the previous one to retain for the next tick.
pub fn tick(prev: Option<Stats>, current: Stats, config: &Config) -> (r: (Option<String>, Stats))
    requires
        match prev {
            Some(p) => diff_fits(p, current),
            None => true,
        },
    ensures
        r.1 == current,
        match prev {
            Some(p) => match r.0 {
                Some(payload) => payload@ == envelope_json(diff_spec(p, current), *config),
                None => false,
            },
            None => r.0 is None,
        },
{
    match prev {
        Option::Some(p_stats) => {
            let computed_stats = diff_stats(p_stats, current);
            let body = get_newrelic_body_json(&computed_stats, config);
            (Some(body), current)
        },
        Option::None => (None, current),
    }
}

} // verus!
