//! The REST request builder: an HTTP verb, an endpoint under the fixed API
//! base, query parameters, and headers. Building is pure composition; the
//! caller owning the HTTP client performs the send.

use vstd::prelude::*;
use vstd::string::StringExecFns;

verus! {

/// The HTTP verbs the builder offers.
#[derive(Debug, Clone, Copy, PartialEq, Eq, Structural)]
pub enum HTTPMethod {
    Get,
    Head,
    Post,
    Put,
    Delete,
}

/// A verb and an endpoint path under the API base.
#[derive(Debug)]
pub struct Route {
    pub method: HTTPMethod,
    pub endpoint: String,
}

impl Route {
    /// A route for the given verb and endpoint.
    pub fn new(method: HTTPMethod, endpoint: &str) -> (r: Route)
        ensures
            r.method == method,
            r.endpoint@ == endpoint@,
    {
        Route { method, endpoint: endpoint.to_owned() }
    }
}

/// The mathematical value of a list of key/value pairs.
pub open spec fn spec_pairs_view(v: Seq<(String, String)>) -> Seq<(Seq<char>, Seq<char>)> {
    v.map_values(|p: (String, String)| (p.0@, p.1@))
}

/// A list of key/value pairs with every pair carrying the given key removed,
/// order of the rest kept.
pub open spec fn spec_remove_key(hs: Seq<(Seq<char>, Seq<char>)>, k: Seq<char>) -> Seq<
    (Seq<char>, Seq<char>),
>
    decreases hs.len(),
{
    if hs.len() == 0 {
        Seq::empty()
    } else {
        let init = spec_remove_key(hs.drop_last(), k);
        if hs.last().0 == k {
            init
        } else {
            init.push(hs.last())
        }
    }
}

/// What inserting a header does: any value the key already carried is
/// replaced, so the key ends up exactly once, with the new value, last.
pub open spec fn spec_header_insert(
    hs: Seq<(Seq<char>, Seq<char>)>,
    k: Seq<char>,
    v: Seq<char>,
) -> Seq<(Seq<char>, Seq<char>)> {
    spec_remove_key(hs, k).push((k, v))
}

/// A request under construction: the route, the query parameters in the
/// order added, and the headers with each key held once.
#[derive(Debug)]
pub struct Request {
    pub route: Route,
    pub params: Vec<(String, String)>,
    pub headers: Vec<(String, String)>,
}

impl Request {
    /// A fresh GET request for the endpoint.
    pub fn get(endpoint: &str) -> (r: Request)
        ensures
            r.route.method == HTTPMethod::Get,
            r.route.endpoint@ == endpoint@,
            r.params@.len() == 0,
            r.headers@.len() == 0,
    {
        Self::new(HTTPMethod::Get, endpoint)
    }

    /// A fresh HEAD request for the endpoint.
    pub fn head(endpoint: &str) -> (r: Request)
        ensures
            r.route.method == HTTPMethod::Head,
            r.route.endpoint@ == endpoint@,
            r.params@.len() == 0,
            r.headers@.len() == 0,
    {
        Self::new(HTTPMethod::Head, endpoint)
    }

    /// A fresh POST request for the endpoint.
    pub fn post(endpoint: &str) -> (r: Request)
        ensures
            r.route.method == HTTPMethod::Post,
            r.route.endpoint@ == endpoint@,
            r.params@.len() == 0,
            r.headers@.len() == 0,
    {
        Self::new(HTTPMethod::Post, endpoint)
    }

    /// A fresh PUT request for the endpoint.
    pub fn put(endpoint: &str) -> (r: Request)
        ensures
            r.route.method == HTTPMethod::Put,
            r.route.endpoint@ == endpoint@,
            r.params@.len() == 0,
            r.headers@.len() == 0,
    {
        Self::new(HTTPMethod::Put, endpoint)
    }

    /// A fresh DELETE request for the endpoint.
    pub fn delete(endpoint: &str) -> (r: Request)
        ensures
            r.route.method == HTTPMethod::Delete,
            r.route.endpoint@ == endpoint@,
            r.params@.len() == 0,
            r.headers@.len() == 0,
    {
        Self::new(HTTPMethod::Delete, endpoint)
    }

    fn new(method: HTTPMethod, endpoint: &str) -> (r: Request)
        ensures
            r.route.method == method,
            r.route.endpoint@ == endpoint@,
            r.params@.len() == 0,
            r.headers@.len() == 0,
    {
        Request { route: Route::new(method, endpoint), params: Vec::new(), headers: Vec::new() }
    }

    /// Attaches the credential: the authorization header is set to
    /// `Bot <token>`.
    pub fn authorize(self, token: &str) -> (r: Request)
        ensures
            r.route == self.route,
            r.params == self.params,
            spec_pairs_view(r.headers@) == spec_header_insert(
                spec_pairs_view(self.headers@),
                "Authorization"@,
                "Bot "@ + token@,
            ),
    {
        let value = String::from_str("Bot ").concat(token);
        self.with_header("Authorization", value.as_str())
    }

    /// Adds one query parameter and hands the request back.
    pub fn with_param(self, key: &str, val: &str) -> (r: Request)
        ensures
            r.route == self.route,
            r.headers == self.headers,
            spec_pairs_view(r.params@) == spec_pairs_view(self.params@).push((key@, val@)),
    {
        let mut s = self;
        s.add_param(key, val);
        s
    }

    /// Appends one query parameter.
    pub fn add_param(&mut self, key: &str, val: &str)
        ensures
            final(self).route == old(self).route,
            final(self).headers == old(self).headers,
            spec_pairs_view(final(self).params@) == spec_pairs_view(old(self).params@).push(
                (key@, val@),
            ),
    {
        let ghost before = self.params@;
        self.params.push((key.to_owned(), val.to_owned()));
        proof {
            assert(spec_pairs_view(self.params@) =~= spec_pairs_view(before).push((key@, val@)));
        }
    }

    /// Appends a batch of query parameters in order.
    pub fn add_params(&mut self, new_params: Vec<(&str, &str)>)
        ensures
            final(self).route == old(self).route,
            final(self).headers == old(self).headers,
            spec_pairs_view(final(self).params@) == spec_pairs_view(old(self).params@)
                + new_params@.map_values(|p: (&str, &str)| (p.0@, p.1@)),
    {
        let ghost all = new_params@.map_values(|p: (&str, &str)| (p.0@, p.1@));
        let ghost start = spec_pairs_view(self.params@);
        let mut i: usize = 0;
        while i < new_params.len()
            invariant
                0 <= i <= new_params@.len(),
                all == new_params@.map_values(|p: (&str, &str)| (p.0@, p.1@)),
                spec_pairs_view(self.params@) == start + all.take(i as int),
                self.route == old(self).route,
                self.headers == old(self).headers,
            decreases new_params@.len() - i,
        {
            let (key, val) = new_params[i];
            self.add_param(key, val);
            proof {
                assert(all.take(i as int + 1) =~= all.take(i as int).push(all[i as int]));
                assert(spec_pairs_view(self.params@) =~= start + all.take(i as int + 1));
            }
            i = i + 1;
        }
        proof {
            assert(all.take(new_params@.len() as int) =~= all);
        }
    }

    /// Sets one header and hands the request back.
    pub fn with_header(self, key: &str, val: &str) -> (r: Request)
        ensures
            r.route == self.route,
            r.params == self.params,
            spec_pairs_view(r.headers@) == spec_header_insert(
                spec_pairs_view(self.headers@),
                key@,
                val@,
            ),
    {
        let mut s = self;
        s.add_header(key, val);
        s
    }

    /// Sets one header: any value the key already carried is replaced.
    pub fn add_header(&mut self, key: &str, val: &str)
        ensures
            final(self).route == old(self).route,
            final(self).params == old(self).params,
            spec_pairs_view(final(self).headers@) == spec_header_insert(
                spec_pairs_view(old(self).headers@),
                key@,
                val@,
            ),
    {
        let ghost hs = spec_pairs_view(self.headers@);
        let wanted = key.to_owned();
        let mut kept: Vec<(String, String)> = Vec::new();
        let mut i: usize = 0;
        while i < self.headers.len()
            invariant
                0 <= i <= self.headers@.len(),
                hs == spec_pairs_view(self.headers@),
                wanted@ == key@,
                spec_pairs_view(kept@) == spec_remove_key(hs.take(i as int), key@),
                self.route == old(self).route,
                self.params == old(self).params,
                self.headers == old(self).headers,
            decreases self.headers@.len() - i,
        {
            let pair = &self.headers[i];
            proof {
                assert(hs.take(i as int + 1).drop_last() =~= hs.take(i as int));
                assert(hs.take(i as int + 1).last() == hs[i as int]);
            }
            if !(pair.0 == wanted) {
                let ghost kept_before = kept@;
                kept.push((pair.0.clone(), pair.1.clone()));
                proof {
                    assert(spec_pairs_view(kept@) =~= spec_pairs_view(kept_before).push(
                        hs[i as int],
                    ));
                }
            }
            i = i + 1;
        }
        proof {
            assert(hs.take(self.headers@.len() as int) =~= hs);
        }
        let ghost removed = spec_pairs_view(kept@);
        kept.push((wanted, val.to_owned()));
        self.headers = kept;
        proof {
            assert(spec_pairs_view(self.headers@) =~= removed.push((key@, val@)));
        }
    }

    /// Sets a batch of headers in order; later entries replace earlier ones
    /// with the same key.
    pub fn add_headers(&mut self, new_headers: Vec<(&str, &str)>)
        ensures
            final(self).route == old(self).route,
            final(self).params == old(self).params,
            spec_pairs_view(final(self).headers@) == new_headers@.map_values(
                |p: (&str, &str)| (p.0@, p.1@),
            ).fold_left(spec_pairs_view(old(self).headers@), |
                hs: Seq<(Seq<char>, Seq<char>)>,
                p: (Seq<char>, Seq<char>),
            | spec_header_insert(hs, p.0, p.1)),
    {
        let ghost all = new_headers@.map_values(|p: (&str, &str)| (p.0@, p.1@));
        let ghost f = |hs: Seq<(Seq<char>, Seq<char>)>, p: (Seq<char>, Seq<char>)|
            spec_header_insert(hs, p.0, p.1);
        let ghost start = spec_pairs_view(self.headers@);
        let mut i: usize = 0;
        while i < new_headers.len()
            invariant
                0 <= i <= new_headers@.len(),
                all == new_headers@.map_values(|p: (&str, &str)| (p.0@, p.1@)),
                f == (|hs: Seq<(Seq<char>, Seq<char>)>, p: (Seq<char>, Seq<char>)|
                    spec_header_insert(hs, p.0, p.1)),
                spec_pairs_view(self.headers@) == all.take(i as int).fold_left(start, f),
                self.route == old(self).route,
                self.params == old(self).params,
            decreases new_headers@.len() - i,
        {
            let (key, val) = new_headers[i];
            self.add_header(key, val);
            proof {
                assert(all.take(i as int + 1).drop_last() =~= all.take(i as int));
                assert(all.take(i as int + 1).last() == all[i as int]);
            }
            i = i + 1;
        }
        proof {
            assert(all.take(new_headers@.len() as int) =~= all);
        }
    }

    /// The absolute URL the request will be sent to: the fixed API base
    /// followed by the endpoint.
    pub fn full_url(&self) -> (r: String)
        ensures
            r@ == "https://discord.com/api/v9"@ + self.route.endpoint@,
    {
        let mut s = String::from_str("https://discord.com/api/v9");
        s.append(self.route.endpoint.as_str());
        s
    }
}

} // verus!
