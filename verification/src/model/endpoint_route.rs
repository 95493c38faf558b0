//! REST endpoint routes extracted from generated server code, and the
//! filter that picks the subset safe to probe automatically.

use vstd::prelude::*;

verus! {

/// `serde_json::Value` is carried through the model opaquely: the core
/// never looks inside a request or response schema, it only stores and
/// hands them back.
#[verifier::external_type_specification]
#[verifier::external_body]
pub struct ExValue(serde_json::Value);

/// Relies on `serde_json::Value::clone`, a derived clone: the copy is a
/// value equal to its source.
pub assume_specification[ <serde_json::Value as Clone>::clone ](v: &serde_json::Value) -> (res: serde_json::Value)
    ensures
        res == *v,
;

/// The HTTP method of a route.
#[derive(Debug, Clone, Copy, PartialEq, Eq, Structural)]
pub enum HTTPMethod {
    Get,
    Patch,
    Post,
    Put,
    Delete,
}

/// One route of the generated server's REST surface.
pub struct EndpointRoute {
    /// Whether the path contains a parameterized segment.
    pub is_route_dynamic: bool,
    pub method: HTTPMethod,
    /// Opaque structured description of the request body.
    pub request_body: serde_json::Value,
    /// Opaque structured description of the response.
    pub response: serde_json::Value,
    /// The route path.
    pub route: String,
}

impl Clone for EndpointRoute {
    fn clone(&self) -> (r: Self)
        ensures
            r == *self,
    {
        EndpointRoute {
            is_route_dynamic: self.is_route_dynamic,
            method: self.method,
            request_body: self.request_body.clone(),
            response: self.response.clone(),
            route: self.route.clone(),
        }
    }
}

/// Only non-dynamic GET routes may be probed automatically: probing them
/// needs no path-parameter guessing and must not cause side effects.
pub open spec fn probe_eligible(e: EndpointRoute) -> bool {
    e.method == HTTPMethod::Get && !e.is_route_dynamic
}

/// The probe-eligible subsequence of a route sequence, in order.
pub open spec fn eligible_routes(s: Seq<EndpointRoute>) -> Seq<EndpointRoute>
    decreases s.len(),
{
    if s.len() == 0 {
        Seq::empty()
    } else if probe_eligible(s.last()) {
        eligible_routes(s.drop_last()).push(s.last())
    } else {
        eligible_routes(s.drop_last())
    }
}

/// Whether one route may be probed automatically.
pub fn is_probe_eligible(e: &EndpointRoute) -> (r: bool)
    ensures
        r == probe_eligible(*e),
{
    e.method == HTTPMethod::Get && !e.is_route_dynamic
}

/// The subset of an extracted schema that is safe to probe: exactly the
/// non-dynamic GET routes, keeping their order.
pub fn filter_probe_routes(routes: &Vec<EndpointRoute>) -> (r: Vec<EndpointRoute>)
    ensures
        r@ == eligible_routes(routes@),
{
    let mut kept: Vec<EndpointRoute> = Vec::new();
    let mut i: usize = 0;
    while i < routes.len()
        invariant
            i <= routes.len(),
            kept@ == eligible_routes(routes@.subrange(0, i as int)),
        decreases routes.len() - i,
    {
        if is_probe_eligible(&routes[i]) {
            kept.push(routes[i].clone());
        }
        i = i + 1;
        proof {
            let prefix = routes@.subrange(0, i as int);
            assert(prefix.drop_last() =~= routes@.subrange(0, i - 1));
            assert(prefix.last() == routes@[i - 1]);
        }
    }
    proof {
        assert(routes@.subrange(0, routes@.len() as int) =~= routes@);
    }
    kept
}

/// The filtered probe set is exactly the set of schema routes with
/// method GET and a non-dynamic path, and is therefore a subset of the
/// stored (unfiltered) schema.
pub proof fn lemma_probe_set_exact(s: Seq<EndpointRoute>, e: EndpointRoute)
    ensures
        eligible_routes(s).contains(e) <==> (s.contains(e) && probe_eligible(e)),
    decreases s.len(),
{
    if s.len() == 0 {
    } else {
        lemma_probe_set_exact(s.drop_last(), e);
        let rest = eligible_routes(s.drop_last());
        if eligible_routes(s).contains(e) {
            if probe_eligible(s.last()) {
                let j = choose|j: int|
                    0 <= j < eligible_routes(s).len() && eligible_routes(s)[j] == e;
                if j == eligible_routes(s).len() - 1 {
                    assert(e == s.last());
                    assert(s[s.len() - 1] == e);
                } else {
                    assert(rest[j] == e);
                    assert(rest.contains(e));
                }
            } else {
                assert(rest.contains(e));
            }
            if s.drop_last().contains(e) {
                let k = choose|k: int|
                    0 <= k < s.drop_last().len() && s.drop_last()[k] == e;
                assert(s[k] == e);
            }
        }
        if s.contains(e) && probe_eligible(e) {
            let k = choose|k: int| 0 <= k < s.len() && s[k] == e;
            if k < s.len() - 1 {
                assert(s.drop_last()[k] == e);
                assert(s.drop_last().contains(e));
                let j = choose|j: int| 0 <= j < rest.len() && rest[j] == e;
                assert(eligible_routes(s)[j] == e);
                assert(eligible_routes(s).contains(e));
            } else {
                assert(e == s.last());
                let f = eligible_routes(s);
                assert(f[f.len() - 1] == e);
                assert(f.contains(e));
            }
        }
    }
}

} // verus!
