//! Client-side models and core logic for the ChilloutVR web API.
//!
//! The crate holds typed descriptions of the HTTP queries and WebSocket
//! messages that the service understands, the data models of its responses,
//! and the pieces of client logic that are worth getting exactly right: the
//! token-bucket rate limiter that bounds the outbound request rate, the
//! canonical wire text of frames and response envelopes, and the lifecycle of
//! the API client facades.  Everything here is plain, synchronous logic with
//! contracts; an embedding program supplies the HTTP transport, the socket,
//! and the clock.

use vstd::prelude::*;

pub mod api_client;
pub mod id;
pub mod limiter;
pub mod model;
pub mod query;
pub mod wire;

verus! {

/// The main HTTP API endpoint.
pub open spec fn api_v1_http_url_spec() -> Seq<char> {
    "https://api.abinteractive.net/1"@
}

/// The main HTTP API endpoint.
pub fn api_v1_http_url() -> (r: &'static str)
    ensures
        r@ == api_v1_http_url_spec(),
{
    "https://api.abinteractive.net/1"
}

/// The API host name.
pub open spec fn api_v1_hostname_spec() -> Seq<char> {
    "api.abinteractive.net"@
}

/// The API host name.
pub fn api_v1_hostname() -> (r: &'static str)
    ensures
        r@ == api_v1_hostname_spec(),
{
    "api.abinteractive.net"
}

/// The WebSocket API endpoint.
pub open spec fn api_v1_ws_url_spec() -> Seq<char> {
    "wss://api.abinteractive.net/1/users/ws"@
}

/// The WebSocket API endpoint.
pub fn api_v1_ws_url() -> (r: &'static str)
    ensures
        r@ == api_v1_ws_url_spec(),
{
    "wss://api.abinteractive.net/1/users/ws"
}

} // verus!
