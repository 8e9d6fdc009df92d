//! The API client core: configuration, errors, the shared request budget,
//! and the exact reading of a response body.
//!
//! An HTTP transport is deliberately absent.  The functions here compute
//! everything a transport needs (header lists, the request budget's answer,
//! what a status and body mean) and leave the socket work to the embedding
//! program.

use vstd::prelude::*;

use crate::limiter::RateLimiter;
use crate::query::SavedLoginCredentials;
use crate::wire;

pub mod ws;

verus! {

/// An error that may happen with an API query.
#[derive(Clone, Copy, Debug, PartialEq, Eq, Structural)]
pub enum ApiError {
    /// A request body could not be built or a response could not be decoded.
    Serde,
    /// The HTTP transport failed or answered with a non-success status.
    Http,
    /// The WebSocket transport failed.
    WebSocket,
}

/// Configuration for the API client.
#[derive(Debug, Clone)]
pub struct ApiConfiguration {
    /// The user agent of the API client.
    pub user_agent: String,
    /// If the API client should indicate it has the mature access DLC
    /// enabled.
    pub mature_content_enabled: bool,
    /// What platform the API client should indicate it's using (almost
    /// always should remain `pc_standalone`).
    pub platform: String,
    /// A comma separated string of compatible API versions.
    pub compatible_versions: String,
}

/// The text `true` or `false`.
pub fn bool_str(b: bool) -> (r: &'static str)
    ensures
        b ==> r@ == "true"@,
        !b ==> r@ == "false"@,
{
    if b {
        "true"
    } else {
        "false"
    }
}

impl ApiConfiguration {
    /// Creates a new API client configuration with the default platform and
    /// compatible versions.
    pub fn new(user_agent: String) -> (r: Self)
        ensures
            r.user_agent@ == user_agent@,
            !r.mature_content_enabled,
            r.platform@ == "pc_standalone"@,
            r.compatible_versions@ == "0,1,2"@,
    {
        Self {
            user_agent,
            mature_content_enabled: false,
            platform: String::from_str("pc_standalone"),
            compatible_versions: String::from_str("0,1,2"),
        }
    }

    /// The headers every request carries: the user agent and the three
    /// client-description headers, in this order.
    pub fn to_headers(&self) -> (r: Vec<(String, String)>)
        ensures
            r@.len() == 4,
            r@[0].0@ == "User-Agent"@ && r@[0].1@ == self.user_agent@,
            r@[1].0@ == "MatureContentDlc"@ && (self.mature_content_enabled ==> r@[1].1@
                == "true"@) && (!self.mature_content_enabled ==> r@[1].1@ == "false"@),
            r@[2].0@ == "Platform"@ && r@[2].1@ == self.platform@,
            r@[3].0@ == "CompatibleVersions"@ && r@[3].1@ == self.compatible_versions@,
    {
        let mut r: Vec<(String, String)> = Vec::new();
        r.push((String::from_str("User-Agent"), self.user_agent.clone()));
        r.push(
            (
                String::from_str("MatureContentDlc"),
                String::from_str(bool_str(self.mature_content_enabled)),
            ),
        );
        r.push((String::from_str("Platform"), self.platform.clone()));
        r.push((String::from_str("CompatibleVersions"), self.compatible_versions.clone()));
        r
    }
}

/// The request budget the service grants: twelve requests per minute
/// sustained, in bursts of up to five.  Measured in milliseconds, that is
/// one admission per five thousand time units.
pub fn http_rate_limiter() -> (r: RateLimiter)
    ensures
        r.wf(),
        r.period == 5000,
        r.capacity == 5 * 5000,
        r.available == r.capacity,
        r.last == 0,
{
    RateLimiter::new(5, 5000)
}

/// Whether an HTTP status is a success.
pub open spec fn status_ok(status: u16) -> bool {
    200 <= status < 300
}

/// Reads the `data` payload out of the enveloped response text `s`:
/// an object holding an optional `message` (a string or `null`) and then a
/// `data` field whose raw text runs to the closing brace of the envelope.
/// `None` when `s` is not shaped that way.
pub open spec fn spec_unwrap_wrapped(s: Seq<char>) -> Option<Seq<char>> {
    let i0 = wire::ws_end(s, 0);
    if !(i0 < s.len() && s[i0] == '{') {
        None
    } else {
        let i1 = wire::ws_end(s, i0 + 1);
        if wire::match_at_spec(s, i1, "\"message\""@) {
            let j = wire::ws_end(s, i1 + 9);
            if !(j < s.len() && s[j] == ':') {
                None
            } else {
                let k = wire::ws_end(s, j + 1);
                if wire::match_at_spec(s, k, "null"@) {
                    spec_message_tail(s, k + 4)
                } else if k < s.len() && s[k] == '"' {
                    let e = wire::string_end(s, k + 1, false);
                    if e >= 0 {
                        spec_message_tail(s, e + 1)
                    } else {
                        None
                    }
                } else {
                    None
                }
            }
        } else {
            spec_data_field(s, i1)
        }
    }
}

/// After the message value ending at `m_end`, expects the comma and then
/// the `data` field.
pub open spec fn spec_message_tail(s: Seq<char>, m_end: int) -> Option<Seq<char>> {
    let c = wire::ws_end(s, m_end);
    if c < s.len() && s[c] == ',' {
        spec_data_field(s, wire::ws_end(s, c + 1))
    } else {
        None
    }
}

/// Expects `"data"`, a colon, and the raw payload running to the final
/// closing brace, starting exactly at `i`.
pub open spec fn spec_data_field(s: Seq<char>, i: int) -> Option<Seq<char>> {
    if wire::match_at_spec(s, i, "\"data\""@) {
        let j = wire::ws_end(s, i + 6);
        if j < s.len() && s[j] == ':' {
            let p0 = wire::ws_end(s, j + 1);
            if p0 < s.len() - 1 && s[s.len() - 1] == '}' {
                Some(s.subrange(p0, s.len() - 1))
            } else {
                None
            }
        } else {
            None
        }
    } else {
        None
    }
}

/// Reads the `data` payload out of an enveloped response body.
pub fn unwrap_wrapped(s: &str) -> (r: Result<String, ApiError>)
    ensures
        match r {
            Ok(d) => spec_unwrap_wrapped(s@) == Some(d@),
            Err(e) => spec_unwrap_wrapped(s@) is None && e == ApiError::Serde,
        },
{
    let n = s.unicode_len();
    let i0 = wire::skip_ws(s, 0);
    if !(i0 < n && s.get_char(i0) == '{') {
        return Err(ApiError::Serde);
    }
    let i1 = wire::skip_ws(s, i0 + 1);
    if wire::match_at(s, i1, "\"message\"") {
        proof {
            reveal_strlit("\"message\"");
        }
        let j = wire::skip_ws(s, i1 + 9);
        if !(j < n && s.get_char(j) == ':') {
            return Err(ApiError::Serde);
        }
        let k = wire::skip_ws(s, j + 1);
        let m_end: usize;
        if wire::match_at(s, k, "null") {
            proof {
                reveal_strlit("null");
            }
            m_end = k + 4;
        } else if k < n && s.get_char(k) == '"' {
            match wire::scan_string(s, k + 1) {
                Some(e) => {
                    m_end = e + 1;
                },
                None => {
                    return Err(ApiError::Serde);
                },
            }
        } else {
            return Err(ApiError::Serde);
        }
        let c = wire::skip_ws(s, m_end);
        if c < n && s.get_char(c) == ',' {
            let i2 = wire::skip_ws(s, c + 1);
            data_field(s, i2)
        } else {
            Err(ApiError::Serde)
        }
    } else {
        data_field(s, i1)
    }
}

/// Reads the raw `data` payload expected exactly at position `i`.
fn data_field(s: &str, i: usize) -> (r: Result<String, ApiError>)
    requires
        i <= s@.len(),
        s@.len() <= usize::MAX,
    ensures
        match r {
            Ok(d) => spec_data_field(s@, i as int) == Some(d@),
            Err(e) => spec_data_field(s@, i as int) is None && e == ApiError::Serde,
        },
{
    let n = s.unicode_len();
    if !wire::match_at(s, i, "\"data\"") {
        return Err(ApiError::Serde);
    }
    proof {
        reveal_strlit("\"data\"");
    }
    let j = wire::skip_ws(s, i + 6);
    if !(j < n && s.get_char(j) == ':') {
        return Err(ApiError::Serde);
    }
    let p0 = wire::skip_ws(s, j + 1);
    if n > 0 && p0 < n - 1 && s.get_char(n - 1) == '}' {
        let payload = s.substring_char(p0, n - 1);
        Ok(String::from_str(payload))
    } else {
        Err(ApiError::Serde)
    }
}

/// Unwrapping agrees across the envelope forms: for any payload text, the
/// enveloped body `{"message":null,"data":p}`, the enveloped body
/// `{"data":p}` with the message left out, and the bare body `p` (which a
/// query that declares no envelope keeps as it is) all yield the same
/// payload `p`.
pub proof fn lemma_unwrap_envelope_forms(p: Seq<char>)
    requires
        p.len() >= 1,
        !wire::is_ws(p[0]),
    ensures
        spec_unwrap_wrapped("{\"message\":null,\"data\":"@ + p + "}"@) == Some(p),
        spec_unwrap_wrapped("{\"data\":"@ + p + "}"@) == Some(p),
{
    reveal_strlit("{\"message\":null,\"data\":");
    reveal_strlit("{\"data\":");
    reveal_strlit("\"message\"");
    reveal_strlit("null");
    reveal_strlit("\"data\"");
    reveal_strlit("}");
    let msg_lit = "\"message\""@;
    let data_lit = "\"data\""@;
    {
        let a = "{\"message\":null,\"data\":"@;
        let s = a + p + "}"@;
        assert(a.len() == 23);
        assert(s.len() == 24 + p.len());
        assert forall|k: int| 0 <= k < 23 implies s[k] == a[k] by {}
        assert(s[0] == '{' && !wire::is_ws(s[0]));
        assert(wire::ws_end(s, 0) == 0);
        assert(s[1] == '"' && !wire::is_ws(s[1]));
        assert(wire::ws_end(s, 1) == 1);
        assert(s.subrange(1, 10) =~= msg_lit);
        assert(wire::match_at_spec(s, 1, msg_lit));
        assert(s[10] == ':' && !wire::is_ws(s[10]));
        assert(wire::ws_end(s, 10) == 10);
        assert(s[11] == 'n' && !wire::is_ws(s[11]));
        assert(wire::ws_end(s, 11) == 11);
        assert(s.subrange(11, 15) =~= "null"@);
        assert(wire::match_at_spec(s, 11, "null"@));
        assert(s[15] == ',' && !wire::is_ws(s[15]));
        assert(wire::ws_end(s, 15) == 15);
        assert(s[16] == '"' && !wire::is_ws(s[16]));
        assert(wire::ws_end(s, 16) == 16);
        assert(s.subrange(16, 22) =~= data_lit);
        assert(wire::match_at_spec(s, 16, data_lit));
        assert(s[22] == ':' && !wire::is_ws(s[22]));
        assert(wire::ws_end(s, 22) == 22);
        assert(s[23] == p[0] && !wire::is_ws(s[23]));
        assert(wire::ws_end(s, 23) == 23);
        assert(s[s.len() - 1] == '}');
        assert(s.subrange(23, s.len() - 1) =~= p);
        assert(spec_data_field(s, 16) == Some(p));
        assert(spec_message_tail(s, 15) == Some(p));
        assert(spec_unwrap_wrapped(s) == Some(p));
    }
    {
        let b = "{\"data\":"@;
        let s = b + p + "}"@;
        assert(b.len() == 8);
        assert(s.len() == 9 + p.len());
        assert forall|k: int| 0 <= k < 8 implies s[k] == b[k] by {}
        assert(s[0] == '{' && !wire::is_ws(s[0]));
        assert(wire::ws_end(s, 0) == 0);
        assert(s[1] == '"' && !wire::is_ws(s[1]));
        assert(wire::ws_end(s, 1) == 1);
        assert(s[2] == 'd');
        assert(!wire::match_at_spec(s, 1, msg_lit)) by {
            if wire::match_at_spec(s, 1, msg_lit) {
                assert(s.subrange(1, 10)[1] == msg_lit[1]);
            }
        }
        assert(s.subrange(1, 7) =~= data_lit);
        assert(wire::match_at_spec(s, 1, data_lit));
        assert(s[7] == ':' && !wire::is_ws(s[7]));
        assert(wire::ws_end(s, 7) == 7);
        assert(s[8] == p[0] && !wire::is_ws(s[8]));
        assert(wire::ws_end(s, 8) == 8);
        assert(s[s.len() - 1] == '}');
        assert(s.subrange(8, s.len() - 1) =~= p);
        assert(spec_data_field(s, 1) == Some(p));
        assert(spec_unwrap_wrapped(s) == Some(p));
    }
}

/// One HTTP request, fully resolved from a query description: everything a
/// transport needs to send it, and how its response is to be read.
pub struct RequestPlan {
    /// The URL of the request.
    pub url: String,
    /// The method of the request.
    pub method: crate::query::RequestMethod,
    /// The JSON body, when the query carries one.
    pub body: Option<String>,
    /// Whether the response arrives wrapped in the message/data envelope.
    pub wrapped_response: bool,
}

/// Resolves a query against the authentication state it requires.  This is
/// the computing half of dispatching a query; a transport sends the plan
/// after the rate limiter admits it, and `interpret_response` reads what
/// comes back.
pub fn plan_request<S, Q: crate::query::Queryable<S>>(queryable: &Q, state: &S) -> (r: RequestPlan)
    ensures
        r.url@ == queryable.url_spec(state),
        r.method == queryable.method_spec(state),
        match r.body {
            Some(b) => queryable.body_spec(state) == Some(b@),
            None => queryable.body_spec(state) is None,
        },
        r.wrapped_response == queryable.wrapped_response_spec(),
{
    RequestPlan {
        url: queryable.url(state),
        method: queryable.method(state),
        body: queryable.body(state),
        wrapped_response: queryable.wrapped_response(),
    }
}

/// What a response means: a non-success status is a transport error; on
/// success the body stands as it is, or, for a query that declared its
/// response enveloped, the envelope's `data` payload is extracted, a
/// malformed envelope being a serialization error.
pub fn interpret_response(status: u16, body: &str, wrapped: bool) -> (r: Result<String, ApiError>)
    ensures
        match r {
            Ok(d) => {
                &&& status_ok(status)
                &&& if wrapped {
                    spec_unwrap_wrapped(body@) == Some(d@)
                } else {
                    d@ == body@
                }
            },
            Err(e) => {
                &&& !status_ok(status) ==> e == ApiError::Http
                &&& status_ok(status) ==> (wrapped && spec_unwrap_wrapped(body@) is None && e
                    == ApiError::Serde)
            },
        },
{
    if !(200 <= status && status < 300) {
        return Err(ApiError::Http);
    }
    if wrapped {
        unwrap_wrapped(body)
    } else {
        Ok(String::from_str(body))
    }
}

impl SavedLoginCredentials {
    /// The two credential headers authenticated requests carry, in this
    /// order.
    pub fn to_headers(&self) -> (r: Vec<(String, String)>)
        ensures
            r@.len() == 2,
            r@[0].0@ == "Username"@ && r@[0].1@ == self.username@,
            r@[1].0@ == "AccessKey"@ && r@[1].1@ == self.access_key@,
    {
        let mut r: Vec<(String, String)> = Vec::new();
        r.push((String::from_str("Username"), self.username.clone()));
        r.push((String::from_str("AccessKey"), self.access_key.clone()));
        r
    }
}

/// Everything the embedding program needs to open the WebSocket connection:
/// the endpoint and the headers of the upgrade request.
pub struct WsHandshakeRequest {
    /// The WebSocket endpoint.
    pub url: String,
    /// The headers the upgrade request carries: the client-description
    /// headers followed by the credential headers.
    pub headers: Vec<(String, String)>,
}

/// What a caller that wants the WebSocket channel should do next.
#[derive(Clone, Copy, Debug, PartialEq, Eq, Structural)]
pub enum WsDirective {
    /// A live session is installed: use it.
    UseSession,
    /// No session, or a dead one: perform a rate-limited handshake and
    /// install the fresh session before using the channel.
    NeedHandshake,
}

/// The main API client without authentication.
pub struct UnauthenticatedCVR {
    /// The client's configuration.
    pub config: ApiConfiguration,
    /// The outbound request budget, shared by every call this client makes.
    pub http_rate_limiter: RateLimiter,
}

/// The main API client with authentication.
pub struct AuthenticatedCVR {
    /// The client's configuration.
    pub config: ApiConfiguration,
    /// The credentials this client's requests carry.
    pub auth: SavedLoginCredentials,
    /// The outbound request budget, shared by every call this client makes,
    /// the WebSocket handshake included.
    pub http_rate_limiter: RateLimiter,
    /// The WebSocket session slot: empty until first use, replaced on
    /// reconnection, emptied on disconnect.
    pub ws: Option<ws::Client>,
}

impl UnauthenticatedCVR {
    /// Creates a new CVR API client without credentials, with a full
    /// request budget.
    pub fn new(config: ApiConfiguration) -> (r: Self)
        ensures
            r.config == config,
            r.http_rate_limiter == http_rate_limiter_spec(),
    {
        UnauthenticatedCVR { config, http_rate_limiter: http_rate_limiter() }
    }

    /// Adds authentication to the API client, consuming it.  The request
    /// budget carries over as it stands; no WebSocket session exists yet.
    pub fn upgrade(self, auth: SavedLoginCredentials) -> (r: AuthenticatedCVR)
        ensures
            r.config == self.config,
            r.auth == auth,
            r.http_rate_limiter == self.http_rate_limiter,
            r.ws is None,
    {
        AuthenticatedCVR {
            config: self.config,
            auth,
            http_rate_limiter: self.http_rate_limiter,
            ws: None,
        }
    }
}

impl AuthenticatedCVR {
    /// Creates a CVR API client from configuration and credentials, with a
    /// full request budget and no WebSocket session.
    pub fn new(config: ApiConfiguration, auth: SavedLoginCredentials) -> (r: Self)
        ensures
            r.config == config,
            r.auth == auth,
            r.http_rate_limiter == http_rate_limiter_spec(),
            r.ws is None,
    {
        AuthenticatedCVR { config, auth, http_rate_limiter: http_rate_limiter(), ws: None }
    }

    /// Removes the authentication from the API client, consuming it.  The
    /// request budget carries over as it stands; whatever WebSocket session
    /// existed is dropped with the authenticated client, never carried over.
    pub fn downgrade(self) -> (r: UnauthenticatedCVR)
        ensures
            r.config == self.config,
            r.http_rate_limiter == self.http_rate_limiter,
    {
        UnauthenticatedCVR { config: self.config, http_rate_limiter: self.http_rate_limiter }
    }

    /// Whether the installed session, if any, is live.
    pub open spec fn ws_live(self) -> bool {
        match self.ws {
            Some(c) => c.live,
            None => false,
        }
    }

    /// The read-side of the session slot protocol: a live installed session
    /// is used as it is; otherwise the caller must perform the rate-limited
    /// handshake outside any lock and install the fresh session.  Liveness
    /// must be re-checked this way before every use, because the socket task
    /// can die between calls.
    pub fn ws_directive(&self) -> (r: WsDirective)
        ensures
            r == WsDirective::UseSession <==> self.ws_live(),
    {
        match &self.ws {
            Some(c) => {
                if c.is_live() {
                    WsDirective::UseSession
                } else {
                    WsDirective::NeedHandshake
                }
            },
            None => WsDirective::NeedHandshake,
        }
    }

    /// The upgrade request that opens the WebSocket connection: the WS
    /// endpoint, with the client-description headers followed by the
    /// credential headers.  The handshake shares the HTTP request budget:
    /// the caller drives `http_rate_limiter` to admission before connecting.
    pub fn ws_handshake_request(&self) -> (r: WsHandshakeRequest)
        ensures
            r.url@ == crate::api_v1_ws_url_spec(),
            r.headers@.len() == 6,
            r.headers@[0].0@ == "User-Agent"@ && r.headers@[0].1@ == self.config.user_agent@,
            r.headers@[1].0@ == "MatureContentDlc"@,
            self.config.mature_content_enabled ==> r.headers@[1].1@ == "true"@,
            !self.config.mature_content_enabled ==> r.headers@[1].1@ == "false"@,
            r.headers@[2].0@ == "Platform"@ && r.headers@[2].1@ == self.config.platform@,
            r.headers@[3].0@ == "CompatibleVersions"@ && r.headers@[3].1@
                == self.config.compatible_versions@,
            r.headers@[4].0@ == "Username"@ && r.headers@[4].1@ == self.auth.username@,
            r.headers@[5].0@ == "AccessKey"@ && r.headers@[5].1@ == self.auth.access_key@,
    {
        let mut headers = self.config.to_headers();
        let mut credential_headers = self.auth.to_headers();
        headers.append(&mut credential_headers);
        WsHandshakeRequest { url: String::from_str(crate::api_v1_ws_url()), headers }
    }

    /// Installs a session into the slot, replacing whatever was there.  Two
    /// callers racing the first use may each create a session; the second
    /// install simply replaces the first, whose socket the embedding
    /// program then drops.  That race is accepted by design: the handshake
    /// must not run under a lock.
    pub fn ws_install(&mut self, session: ws::Client)
        ensures
            final(self).ws == Some(session),
            final(self).config == old(self).config,
            final(self).auth == old(self).auth,
            final(self).http_rate_limiter == old(self).http_rate_limiter,
    {
        self.ws = Some(session);
    }

    /// Closes the WebSocket connection if it is open: the slot is emptied,
    /// and the embedding program drops the socket task with the session.
    pub fn ws_disconnect(&mut self)
        ensures
            final(self).ws is None,
            final(self).config == old(self).config,
            final(self).auth == old(self).auth,
            final(self).http_rate_limiter == old(self).http_rate_limiter,
    {
        self.ws = None;
    }

    /// If a WS session is installed, live or not.
    pub fn ws_is_connected(&self) -> (r: bool)
        ensures
            r == (self.ws is Some),
    {
        match &self.ws {
            Some(_) => true,
            None => false,
        }
    }

    /// Hands a frame to the installed session: with none installed the
    /// channel refuses, and otherwise the session's own sending contract
    /// decides.  A caller that wants the full lazily-connecting behaviour asks
    /// `ws_directive` and, told `NeedHandshake`, connects and installs
    /// before handing the frame in.
    pub fn ws_send(&mut self, frame: String) -> (r: Result<ws::SendOutcome, ApiError>)
        ensures
            final(self).config == old(self).config,
            final(self).auth == old(self).auth,
            final(self).http_rate_limiter == old(self).http_rate_limiter,
            old(self).ws is None ==> (r matches Err(e) && e == ApiError::WebSocket && final(self).ws
                is None),
            old(self).ws matches Some(c) ==> {
                &&& final(self).ws is Some
                &&& !c.live ==> (r matches Err(e) && e == ApiError::WebSocket && final(self).ws
                    == old(self).ws)
                &&& (c.live && c.outbound@.len() < c.capacity) ==> ((r matches Ok(o) && o
                    == ws::SendOutcome::Enqueued) && (final(self).ws matches Some(c2)
                    && c2.outbound@ == c.outbound@.push(frame) && c2.live == c.live && c2.capacity
                    == c.capacity))
                &&& (c.live && c.outbound@.len() >= c.capacity) ==> (r matches Ok(o) && o
                    == ws::SendOutcome::Full && final(self).ws == old(self).ws)
            },
    {
        match &mut self.ws {
            Some(c) => c.send(frame),
            None => Err(ApiError::WebSocket),
        }
    }
}

/// The spec-level value of a fresh request budget.
pub open spec fn http_rate_limiter_spec() -> RateLimiter {
    RateLimiter { period: 5000, capacity: 25000, available: 25000, last: 0 }
}

/// An upgrade followed straight by a downgrade hands back the facade it
/// started from: the configuration and the rate limiter state carry over
/// unchanged through both consuming transitions, and an unauthenticated
/// facade holds no WebSocket session that could survive them.  The
/// hypotheses are exactly what the contracts of `upgrade` and `downgrade`
/// give for their results.
pub proof fn lemma_upgrade_downgrade_identity(
    u: UnauthenticatedCVR,
    a: AuthenticatedCVR,
    d: UnauthenticatedCVR,
)
    requires
        a.config == u.config,
        a.http_rate_limiter == u.http_rate_limiter,
        d.config == a.config,
        d.http_rate_limiter == a.http_rate_limiter,
    ensures
        d == u,
{
}

} // verus!
