//! The client: a credential with its bot profile, and the builder for the
//! guild-listing call. Building composes the request; the caller owning the
//! HTTP client performs the send and parses the response records.

use crate::request::{spec_header_insert, spec_pairs_view, HTTPMethod, Request};
use crate::text::{spec_dec_str, u64_to_string};
use crate::user::User;
use vstd::prelude::*;

verus! {

/// A client for one bot: its profile and its credential.
#[derive(Debug)]
pub struct Client {
    pub user: User,
    pub token: String,
}

impl Client {
    /// A client from an already-fetched profile and the credential; the
    /// profile endpoint call is the caller's I/O.
    pub fn new(user: User, token: &str) -> (r: Client)
        ensures
            r.user == user,
            r.token@ == token@,
    {
        Client { user, token: token.to_owned() }
    }

    /// Begins a guild-listing call: a builder with no bounds and no limit.
    pub fn fetch_guilds(&self) -> (r: FetchGuilds<'_>)
        ensures
            r.token@ == self.token@,
            r.before is None,
            r.after is None,
            r.limit is None,
    {
        FetchGuilds::default(self.token.as_str())
    }
}

/// A builder for one guild-listing call: the borrowed credential, optional
/// upper and lower guild-identifier bounds, and an optional page limit.
#[derive(Debug)]
pub struct FetchGuilds<'a> {
    pub token: &'a str,
    pub before: Option<u64>,
    pub after: Option<u64>,
    pub limit: Option<u32>,
}

/// The query parameters a guild-listing call sends, in order: `before`,
/// `after` and `limit`, each only when given, each rendered in decimal.
pub open spec fn spec_fetch_params(
    before: Option<u64>,
    after: Option<u64>,
    limit: Option<u32>,
) -> Seq<(Seq<char>, Seq<char>)> {
    let s0 = Seq::<(Seq<char>, Seq<char>)>::empty();
    let s1 = if before is Some {
        s0.push(("before"@, spec_dec_str(before->0 as int)))
    } else {
        s0
    };
    let s2 = if after is Some {
        s1.push(("after"@, spec_dec_str(after->0 as int)))
    } else {
        s1
    };
    if limit is Some {
        s2.push(("limit"@, spec_dec_str(limit->0 as int)))
    } else {
        s2
    }
}

impl<'a> FetchGuilds<'a> {
    /// A builder with no bounds and no limit.
    pub fn default(token: &'a str) -> (r: Self)
        ensures
            r.token@ == token@,
            r.before is None,
            r.after is None,
            r.limit is None,
    {
        FetchGuilds { token, before: None, after: None, limit: None }
    }

    /// Bounds the call from above: only guilds before this identifier.
    pub fn before(self, before: u64) -> (r: Self)
        ensures
            r.token@ == self.token@,
            r.before == Some(before),
            r.after == self.after,
            r.limit == self.limit,
    {
        FetchGuilds { before: Some(before), ..self }
    }

    /// Bounds the call from below: only guilds after this identifier.
    pub fn after(self, after: u64) -> (r: Self)
        ensures
            r.token@ == self.token@,
            r.before == self.before,
            r.after == Some(after),
            r.limit == self.limit,
    {
        FetchGuilds { after: Some(after), ..self }
    }

    /// Limits the page size. The call accepts a limit strictly between
    /// zero and two hundred.
    pub fn limit(self, limit: u32) -> (r: Self)
        ensures
            r.token@ == self.token@,
            r.before == self.before,
            r.after == self.after,
            r.limit == Some(limit),
    {
        FetchGuilds { limit: Some(limit), ..self }
    }

    /// The request the call sends: `GET /users/@me/guilds`, authorized with
    /// the credential, with exactly the chosen parameters. A limit outside
    /// the accepted range is left out by precondition.
    pub fn build_request(self) -> (r: Request)
        requires
            self.limit matches Some(l) ==> 0 < l < 200,
        ensures
            r.route.method == HTTPMethod::Get,
            r.route.endpoint@ == "/users/@me/guilds"@,
            spec_pairs_view(r.headers@) == spec_header_insert(
                Seq::empty(),
                "Authorization"@,
                "Bot "@ + self.token@,
            ),
            spec_pairs_view(r.params@) == spec_fetch_params(self.before, self.after, self.limit),
    {
        let mut request = Request::get("/users/@me/guilds").authorize(self.token);
        proof {
            assert(spec_pairs_view(Seq::empty()) =~= Seq::<(Seq<char>, Seq<char>)>::empty());
        }
        if let Some(before) = self.before {
            let rendered = u64_to_string(before);
            request.add_param("before", rendered.as_str());
        }
        if let Some(after) = self.after {
            let rendered = u64_to_string(after);
            request.add_param("after", rendered.as_str());
        }
        if let Some(limit) = self.limit {
            let rendered = u64_to_string(limit as u64);
            request.add_param("limit", rendered.as_str());
        }
        request
    }
}

} // verus!
