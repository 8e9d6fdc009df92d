//! The WebSocket side of the API client: the exact frame text and the state
//! of one session.
//!
//! A frame in either direction is a JSON object carrying a numeric
//! discriminant and a raw `data` payload.  The encoder and decoder here pin
//! that text down exactly, so that encoding and then decoding a frame is
//! proved to give back what went in.  The session itself is kept as plain
//! state: a liveness flag and the bounded outbound queue, stepped by the
//! calls below; the embedding program owns the socket and mirrors these
//! steps on it.

use vstd::prelude::*;

use crate::model::WsResponseData;
use crate::wire;

use super::ApiError;

verus! {

/// The canonical text of an outgoing frame: its request discriminant and
/// the raw JSON text of its payload.
pub open spec fn request_frame(d: u64, p: Seq<char>) -> Seq<char> {
    "{\"requestType\":"@ + wire::dec_digits(d as nat) + ",\"data\":"@ + p + "}"@
}

/// The canonical text of an incoming frame: its response discriminant and
/// the raw JSON text of its payload.
pub open spec fn response_frame(d: u64, p: Seq<char>) -> Seq<char> {
    "{\"responseType\":"@ + wire::dec_digits(d as nat) + ",\"data\":"@ + p + "}"@
}

/// Writes the outgoing frame for discriminant `d` around the payload text.
pub fn encode_request_frame(d: u64, data: &str) -> (r: String)
    ensures
        r@ == request_frame(d, data@),
{
    let mut out = String::new();
    out.append("{\"requestType\":");
    let digits = wire::u64_to_string(d);
    out.append(digits.as_str());
    out.append(",\"data\":");
    out.append(data);
    out.append("}");
    proof {
        assert(out@ =~= request_frame(d, data@));
    }
    out
}

/// Writes the incoming frame for discriminant `d` around the payload text;
/// this is what a conforming server sends back.
pub fn encode_response_frame(d: u64, data: &str) -> (r: String)
    ensures
        r@ == response_frame(d, data@),
{
    let mut out = String::new();
    out.append("{\"responseType\":");
    let digits = wire::u64_to_string(d);
    out.append(digits.as_str());
    out.append(",\"data\":");
    out.append(data);
    out.append("}");
    proof {
        assert(out@ =~= response_frame(d, data@));
    }
    out
}

/// What an incoming frame text parses to: its discriminant and the raw text
/// of its `data` payload, or nothing when the text is not a frame.
pub open spec fn spec_parse_response_frame(s: Seq<char>) -> Option<(u64, Seq<char>)> {
    if wire::match_at_spec(s, 0, "{\"responseType\":"@) {
        let j = wire::digit_run_end(s, 16);
        let digits = s.subrange(16, j);
        if j > 16 && wire::digits_val(digits) <= u64::MAX {
            if wire::match_at_spec(s, j, ",\"data\":"@) {
                if j + 8 < s.len() - 1 && s[s.len() - 1] == '}' {
                    Some((wire::digits_val(digits) as u64, s.subrange(j + 8, s.len() - 1)))
                } else {
                    None
                }
            } else {
                None
            }
        } else {
            None
        }
    } else {
        None
    }
}

/// Splits an incoming frame into its discriminant and raw payload text.
pub fn decode_response_frame(s: &str) -> (r: Result<(u64, String), ApiError>)
    ensures
        match r {
            Ok(f) => spec_parse_response_frame(s@) == Some((f.0, f.1@)),
            Err(e) => spec_parse_response_frame(s@) is None && e == ApiError::Serde,
        },
{
    let n = s.unicode_len();
    if !wire::match_at(s, 0, "{\"responseType\":") {
        return Err(ApiError::Serde);
    }
    proof {
        reveal_strlit("{\"responseType\":");
    }
    let j = wire::scan_digits(s, 16);
    if j == 16 {
        return Err(ApiError::Serde);
    }
    proof {
        wire::lemma_digit_run_end(s@, 16);
        assert(wire::all_digits(s@.subrange(16, j as int)));
    }
    let v = match wire::parse_digits(s, 16, j) {
        Some(v) => v,
        None => {
            return Err(ApiError::Serde);
        },
    };
    if !wire::match_at(s, j, ",\"data\":") {
        return Err(ApiError::Serde);
    }
    proof {
        reveal_strlit(",\"data\":");
    }
    if j + 8 < n - 1 && s.get_char(n - 1) == '}' {
        let payload = s.substring_char(j + 8, n - 1);
        Ok((v, String::from_str(payload)))
    } else {
        Err(ApiError::Serde)
    }
}

/// Round trip: an incoming frame written by `encode_response_frame` parses
/// back to exactly the discriminant and payload it was written from, for
/// every discriminant and every nonempty payload text.
pub proof fn lemma_response_frame_round_trip(d: u64, p: Seq<char>)
    requires
        p.len() >= 1,
    ensures
        spec_parse_response_frame(response_frame(d, p)) == Some((d, p)),
{
    reveal_strlit("{\"responseType\":");
    reveal_strlit(",\"data\":");
    reveal_strlit("}");
    let pre = "{\"responseType\":"@;
    let mid = ",\"data\":"@;
    let digits = wire::dec_digits(d as nat);
    wire::lemma_dec_digits(d as nat);
    let s = response_frame(d, p);
    let dl = digits.len() as int;
    assert(pre.len() == 16);
    assert(mid.len() == 8);
    assert(s.len() == 16 + dl + 8 + p.len() + 1);
    // the fixed prefix is in place
    assert(s.subrange(0, 16) =~= pre);
    assert(wire::match_at_spec(s, 0, pre));
    // the digit run covers exactly the printed digits
    assert forall|k: int| 0 <= k < dl implies s[16 + k] == digits[k] by {}
    assert(s[16 + dl] == mid[0]);
    assert(!wire::is_digit(','));
    wire::lemma_digit_run_end_of_digits(s, 16, digits);
    let j = 16 + dl;
    assert(wire::digit_run_end(s, 16) == j);
    assert(s.subrange(16, j) =~= digits);
    assert(wire::digits_val(digits) == d as nat);
    // the separator and the closing brace are in place
    assert(s.subrange(j, j + 8) =~= mid);
    assert(wire::match_at_spec(s, j, mid));
    assert(s[s.len() - 1] == '}');
    assert(j + 8 < s.len() - 1);
    assert(s.subrange(j + 8, s.len() - 1) =~= p);
}

/// Decodes one incoming frame all the way to the message union: the text
/// must be a frame, and the frame's discriminant must be a registered one;
/// the payload text is carried over unchanged.  Anything else — malformed
/// text, or a discriminant the catalogue does not know — is a serialization
/// error, never a silent drop.
pub fn decode_ws_message(text: &str) -> (r: Result<WsResponseData, ApiError>)
    ensures
        match spec_parse_response_frame(text@) {
            Some(f) => {
                &&& crate::model::known_discriminant(f.0) ==> (r matches Ok(v)
                    && v.discriminant_spec() == f.0 && v.payload_spec() == f.1)
                &&& !crate::model::known_discriminant(f.0) ==> (r matches Err(e) && e
                    == ApiError::Serde)
            },
            None => r matches Err(e) && e == ApiError::Serde,
        },
{
    match decode_response_frame(text) {
        Ok(frame) => crate::model::decode_ws_data(frame.0, frame.1),
        Err(e) => Err(e),
    }
}

/// What a `send` call did with a frame.
#[derive(Clone, Copy, Debug, PartialEq, Eq, Structural)]
pub enum SendOutcome {
    /// The frame took a place in the outbound queue.
    Enqueued,
    /// The queue is at capacity; the caller must wait for space and hand the
    /// frame in again.
    Full,
}

/// One WebSocket session: the liveness of its socket task and the bounded
/// queue of frames accepted for sending and not yet written to the socket.
pub struct Client {
    /// Whether the socket task still runs; cleared once the socket or the
    /// queue closes, and never set again.
    pub live: bool,
    /// The frames accepted for sending, oldest first.
    pub outbound: Vec<String>,
    /// How many frames the outbound queue holds at most.
    pub capacity: usize,
}

impl Client {
    /// A fresh session, as installed right after a successful handshake:
    /// live, with an empty outbound queue of the given bound.
    pub fn new(capacity: usize) -> (r: Client)
        requires
            capacity >= 1,
        ensures
            r.live,
            r.outbound@ =~= Seq::<String>::empty(),
            r.capacity == capacity,
    {
        Client { live: true, outbound: Vec::new(), capacity }
    }

    /// Whether the session can still carry frames.  This is a plain reading
    /// of the state: it changes only when an operation changes the state.
    pub fn is_live(&self) -> (r: bool)
        ensures
            r == self.live,
    {
        self.live
    }

    /// Hands a frame to the session.  On a live session with queue space
    /// the frame takes the next place in line; a full queue asks the caller
    /// to wait; a dead session refuses outright.
    pub fn send(&mut self, frame: String) -> (r: Result<SendOutcome, ApiError>)
        ensures
            !old(self).live ==> (r matches Err(e) && e == ApiError::WebSocket && *final(self)
                == *old(self)),
            old(self).live && old(self).outbound@.len() < old(self).capacity ==> (r matches Ok(o)
                && o == SendOutcome::Enqueued
                && final(self).outbound@ == old(self).outbound@.push(frame)
                && final(self).live == old(self).live
                && final(self).capacity == old(self).capacity),
            old(self).live && old(self).outbound@.len() >= old(self).capacity ==> (r matches Ok(o)
                && o == SendOutcome::Full && *final(self) == *old(self)),
    {
        if !self.live {
            return Err(ApiError::WebSocket);
        }
        if self.outbound.len() < self.capacity {
            self.outbound.push(frame);
            Ok(SendOutcome::Enqueued)
        } else {
            Ok(SendOutcome::Full)
        }
    }

    /// Takes the frame that has waited longest, in the order `send` accepted
    /// them; the socket task drains the queue through this.
    pub fn next_outbound(&mut self) -> (r: Option<String>)
        ensures
            old(self).outbound@.len() == 0 ==> r is None && *final(self) == *old(self),
            old(self).outbound@.len() > 0 ==> r == Some(old(self).outbound@[0])
                && final(self).outbound@ == old(self).outbound@.skip(1)
                && final(self).live == old(self).live
                && final(self).capacity == old(self).capacity,
    {
        if self.outbound.len() == 0 {
            return None;
        }
        let frame = self.outbound.remove(0);
        proof {
            assert(final(self).outbound@ =~= old(self).outbound@.skip(1));
        }
        Some(frame)
    }

    /// Records that the socket or its queue closed; the session never comes
    /// back to life, a new one must be made.
    pub fn close(&mut self)
        ensures
            !final(self).live,
            final(self).outbound@ == old(self).outbound@,
            final(self).capacity == old(self).capacity,
    {
        self.live = false;
    }
}

/// Liveness reads are idempotent: two `is_live` answers taken from the same
/// session state, with no operation between them, are the same answer.
pub proof fn lemma_is_live_idempotent(c: Client, r1: bool, r2: bool)
    requires
        r1 == c.live,
        r2 == c.live,
    ensures
        r1 == r2,
{
}

} // verus!
