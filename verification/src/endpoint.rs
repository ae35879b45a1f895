//! Forming the exporter target from a user-given base endpoint.

use vstd::prelude::*;

verus! {

/// The fixed path suffix under which an OTLP/HTTP collector accepts log
/// records.
pub open spec fn logs_path() -> Seq<char> {
    "/v1/logs"@
}

/// The exporter target for a base endpoint: exactly the endpoint with
/// `/v1/logs` appended, nothing inserted and nothing dropped.
pub fn export_target(endpoint: &str) -> (r: String)
    ensures
        r@ == endpoint@ + logs_path(),
{
    let base = String::from_str(endpoint);
    base.concat("/v1/logs")
}

} // verus!
