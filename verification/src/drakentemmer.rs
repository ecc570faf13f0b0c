pub mod server_details;

use crate::text::joined;
use vstd::prelude::*;

verus! {

/// How many requests to the panel may run at once: the given number, or one.
pub fn concurrency_limit(concurrent_requests: Option<usize>) -> (n: usize)
    ensures
        n == (match concurrent_requests {
            Some(k) => k,
            None => 1,
        }),
{
    match concurrent_requests {
        Some(k) => k,
        None => 1,
    }
}

/// The panel's address for the details of the server `identifier`:
/// `{base_url}/api/client/servers/{identifier}`.
pub fn server_details_url(base_url: &str, identifier: &str) -> (url: String)
    ensures
        url@ == base_url@ + "/api/client/servers/"@ + identifier@,
{
    let mut url = joined(base_url, "/api/client/servers/");
    url.append(identifier);
    url
}

} // verus!
