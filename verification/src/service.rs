//! The service core: route one request through the counting store and shape
//! the response, with the liveness path bypassing the count entirely.

use vstd::prelude::*;
use vstd::string::StringExecFns;
use crate::request::{client_ip, make_key, spec_client_ip, spec_key};
use crate::store::{spec_record, CountingStore};

verus! {

/// The request path that answers liveness probes; it is never counted.
pub open spec fn spec_health_path() -> Seq<char> {
    "/healthz"@
}

/// Whether `path` is the liveness path.
pub fn is_health_path(path: &str) -> (b: bool)
    ensures
        b == (path@ == spec_health_path()),
{
    let health = String::from_str("/healthz");
    let owned = path.to_owned();
    owned.eq(&health)
}

/// The payload a counted request is answered with.
pub struct CountResponse {
    /// Requests seen for this client and path in the current window,
    /// including the present one.
    pub total: u64,
    /// The client identifier the request was counted under.
    pub ip: String,
    /// The request path.
    pub path: String,
}

/// Handle one request at clock reading `now`: a request to the liveness path
/// leaves the store untouched and gets no counted response; any other
/// request is recorded under its client-and-path key and answered with the
/// resulting count, the derived client identifier, and the path.
pub fn handle_request(
    store: &mut CountingStore,
    path: String,
    header_ip: Option<String>,
    peer_ip: String,
    ttl: u64,
    now: u64,
) -> (resp: Option<CountResponse>)
    ensures
        path@ == spec_health_path() ==> resp is None && final(store)@ == old(store)@,
        path@ != spec_health_path() ==> match resp {
            Some(r) => {
                let ip = spec_client_ip(header_ip.deep_view(), peer_ip@);
                let key = spec_key(ip, path@);
                &&& final(store)@ == spec_record(old(store)@, key, ttl, now)
                &&& r.total == final(store)@[key].value
                &&& r.total >= 1
                &&& r.ip@ == ip
                &&& r.path@ == path@
            },
            None => false,
        },
{
    if is_health_path(path.as_str()) {
        return None;
    }
    let ip = client_ip(header_ip, peer_ip);
    let key = make_key(ip.as_str(), path.as_str());
    let total = store.record_and_get(key, ttl, now);
    Some(CountResponse { total, ip, path })
}

} // verus!
