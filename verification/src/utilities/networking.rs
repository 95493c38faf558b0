//! Probe-address construction. Issuing the requests is the driver's
//! work; the URL of a local route is built here.

use vstd::prelude::*;
use vstd::string::StringExecFns;

verus! {

/// The URL under which a route of the freshly launched server is
/// probed: the server binds to port 8080 on the local host.
pub fn local_endpoint_url(route: &str) -> (r: String)
    ensures
        r@ == "http://localhost:8080"@ + route@,
{
    let mut url: String = "http://localhost:8080".to_owned();
    url.append(route);
    url
}

} // verus!
