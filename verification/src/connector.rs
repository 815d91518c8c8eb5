//! The connector's computable half. Resolving the gateway endpoint is one
//! REST call and opening the socket is transport I/O, both performed by the
//! caller; everything the caller puts on the wire for them — the resolution
//! request, the socket URL, and the authorization header value — is built
//! and specified here.

use crate::codec::GatewayError;
use crate::request::{HTTPMethod, Request};
use vstd::prelude::*;
use vstd::string::StringExecFns;

verus! {

/// The two I/O steps of the connection bootstrap: resolving the gateway
/// endpoint over one REST call, and opening the socket to it.
#[derive(Debug, Clone, Copy, PartialEq, Eq, Structural)]
pub enum BootstrapStep {
    ResolveEndpoint,
    OpenSocket,
}

/// What a failed bootstrap step surfaces as: a failed endpoint resolution
/// is a `BootstrapFailure`, a failed socket open or handshake a
/// `TransportFailure`.
pub open spec fn spec_bootstrap_failure(step: BootstrapStep) -> GatewayError {
    match step {
        BootstrapStep::ResolveEndpoint => GatewayError::BootstrapFailure,
        BootstrapStep::OpenSocket => GatewayError::TransportFailure,
    }
}

/// Maps a failed bootstrap step to the error surfaced to the caller,
/// exactly as `spec_bootstrap_failure` states. Both failures are fatal to
/// this connection attempt, with no retry at this layer, and neither is
/// swallowed.
pub fn bootstrap_failure(step: BootstrapStep) -> (r: GatewayError)
    ensures
        r == spec_bootstrap_failure(step),
{
    match step {
        BootstrapStep::ResolveEndpoint => GatewayError::BootstrapFailure,
        BootstrapStep::OpenSocket => GatewayError::TransportFailure,
    }
}

/// The query string appended to the resolved endpoint: the protocol version
/// and the encoding.
pub open spec fn spec_gateway_query() -> Seq<char> {
    "/?v=9&encoding=json"@
}

/// The request that resolves the gateway endpoint: `GET /gateway/bot` with
/// the bot-token authorization header and the version and encoding
/// parameters.
pub fn gateway_request(token: &str) -> (r: Request)
    ensures
        r.route.method == HTTPMethod::Get,
        r.route.endpoint@ == "/gateway/bot"@,
        crate::request::spec_pairs_view(r.headers@) == crate::request::spec_header_insert(
            Seq::empty(),
            "Authorization"@,
            "Bot "@ + token@,
        ),
        crate::request::spec_pairs_view(r.params@) == Seq::<(Seq<char>, Seq<char>)>::empty().push(
            ("v"@, "9"@),
        ).push(("encoding"@, "json"@)),
{
    Request::get("/gateway/bot").authorize(token).with_param("v", "9").with_param(
        "encoding",
        "json",
    )
}

/// The URL the socket is opened to: the resolved endpoint followed by the
/// version and encoding query.
pub fn gateway_url(base: &str) -> (r: String)
    ensures
        r@ == base@ + spec_gateway_query(),
{
    let mut s = base.to_owned();
    s.append("/?v=9&encoding=json");
    s
}

/// The authorization header value attached at connect time.
pub fn bot_authorization(token: &str) -> (r: String)
    ensures
        r@ == "Bot "@ + token@,
{
    String::from_str("Bot ").concat(token)
}

} // verus!
