//! Queries of the alert store.
use vstd::prelude::*;
use vstd::string::*;
use crate::text::{decimal, push_decimal};

verus! {

/// The query that reads stored alerts, newest first, at most `limit` of
/// them; where `filter_by_severity` holds, only those whose severity equals
/// the query's first parameter.
pub open spec fn alerts_query_text(filter_by_severity: bool, limit: nat) -> Seq<char> {
    "SELECT alert_type, severity, source_ip, destination_ip, details, timestamp FROM alerts"@ + (
    if filter_by_severity {
        " WHERE severity = ?1"@
    } else {
        Seq::empty()
    }) + " ORDER BY timestamp DESC LIMIT "@ + decimal(limit)
}

pub fn alerts_query(filter_by_severity: bool, limit: usize) -> (r: String)
    ensures
        r@ == alerts_query_text(filter_by_severity, limit as nat),
{
    let mut q = String::from_str(
        "SELECT alert_type, severity, source_ip, destination_ip, details, timestamp FROM alerts",
    );
    let ghost base = q@;
    if filter_by_severity {
        q.append(" WHERE severity = ?1");
    }
    assert(q@ =~= base + (if filter_by_severity {
        " WHERE severity = ?1"@
    } else {
        Seq::<char>::empty()
    }));
    q.append(" ORDER BY timestamp DESC LIMIT ");
    push_decimal(&mut q, limit as u128);
    assert(q@ =~= alerts_query_text(filter_by_severity, limit as nat));
    q
}

} // verus!
