//! Deriving the client identifier and the counting key from a request.

use vstd::prelude::*;
use vstd::string::StringExecFns;

verus! {

/// The client identifier a request is counted under: the proxy-supplied
/// connecting-IP header when it is present and non-empty, otherwise the
/// transport-level peer address.
pub open spec fn spec_client_ip(header: Option<Seq<char>>, peer: Seq<char>) -> Seq<char> {
    match header {
        Some(h) => if h.len() > 0 {
            h
        } else {
            peer
        },
        None => peer,
    }
}

/// The composite counting key: `<client-identifier>:<request-path>`.
pub open spec fn spec_key(ip: Seq<char>, path: Seq<char>) -> Seq<char> {
    ip + seq![':'] + path
}

/// Pick the client identifier: a present, non-empty connecting-IP header
/// wins; a missing or empty one falls back to the peer address.
pub fn client_ip(header: Option<String>, peer: String) -> (ip: String)
    ensures
        ip@ == spec_client_ip(header.deep_view(), peer@),
{
    match header {
        Some(h) => {
            if !h.as_str().is_empty() {
                h
            } else {
                peer
            }
        },
        None => peer,
    }
}

/// Build the counting key for a client identifier and a request path.
pub fn make_key(ip: &str, path: &str) -> (key: String)
    ensures
        key@ == spec_key(ip@, path@),
{
    let mut key = ip.to_owned();
    key.append(":");
    key.append(path);
    proof {
        reveal_strlit(":");
        assert(key@ =~= spec_key(ip@, path@));
    }
    key
}

} // verus!
