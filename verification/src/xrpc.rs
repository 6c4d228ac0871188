//! The XRPC transport logic: target-URL construction, decoding of typed
//! responses and structured errors, and the nonce-challenge retry rule.
//!
//! The rule is the same for the resource path (trigger status 401) and the
//! token endpoint (trigger status 400): retry at most once, and only on an
//! explicit nonce challenge. An unverified driver performs the sends and
//! feeds each response to a `NonceRetryFlow`, which decides whether to
//! resend once with the server's nonce or to conclude.
use vstd::prelude::*;

use crate::encoding::{query_encode, query_encoded_of};
use crate::error::{Error, XrpcErrorResponse};
use crate::strutil::push_char;

verus! {

/// One HTTP response, reduced to what the transport logic reads: the
/// status, the proof-of-possession nonce header if the server sent one,
/// and the body text.
pub struct HttpResponse {
    pub status: u16,
    pub dpop_nonce: Option<String>,
    pub body: String,
}

/// The `error` and optional `message` fields of a response body, when the
/// body parses as the declared XRPC error shape.
pub uninterp spec fn xrpc_error_fields(body: Seq<char>) -> Option<(Seq<char>, Option<Seq<char>>)>;

/// Relies on serde_json: parses the body as a JSON object with a string
/// `error` field and an optional string `message` field; what it yields
/// depends on the body alone.
#[verifier::external_body]
pub fn parse_error_body(body: &str) -> (r: Option<XrpcErrorResponse>)
    ensures
        r is Some <==> xrpc_error_fields(body@) is Some,
        match r {
            Option::None => true,
            Option::Some(e) => xrpc_error_fields(body@) matches Option::Some(f) && e.error@ == f.0
                && (match (e.message, f.1) {
                (Option::None, Option::None) => true,
                (Option::Some(m), Option::Some(fm)) => m@ == fm,
                _ => false,
            }),
        },
{
    let v: serde_json::Value = serde_json::from_str(body).ok()?;
    let error = v.get("error")?.as_str()?.to_string();
    let message = match v.get("message") {
        None | Some(serde_json::Value::Null) => None,
        Some(serde_json::Value::String(s)) => Some(s.clone()),
        Some(_) => return None,
    };
    Some(XrpcErrorResponse { error, message })
}

/// `e` is the structured error decoded from a failure response: the
/// server-declared error code when the body parses as the error shape,
/// otherwise the fallback code with the raw body as the message.
pub open spec fn spec_decoded_error(
    status: u16,
    body: Seq<char>,
    fallback: Seq<char>,
    e: Error,
) -> bool {
    e matches Error::Xrpc { status: s, error, message } && s == status && (match xrpc_error_fields(
        body,
    ) {
        Option::Some(f) => error@ == f.0 && (match (message, f.1) {
            (Option::None, Option::None) => true,
            (Option::Some(m), Option::Some(fm)) => m@ == fm,
            _ => false,
        }),
        Option::None => error@ == fallback && (message matches Option::Some(m) && m@ == body),
    })
}

/// Decodes a failure body into a structured `Xrpc` error.
pub fn decode_error(status: u16, body: String, fallback: &str) -> (e: Error)
    ensures
        spec_decoded_error(status, body@, fallback@, e),
{
    match parse_error_body(body.as_str()) {
        Option::Some(parsed) => Error::Xrpc {
            status,
            error: parsed.error,
            message: parsed.message,
        },
        Option::None => Error::Xrpc {
            status,
            error: fallback.to_owned(),
            message: Option::Some(body),
        },
    }
}

/// `r` is the outcome of a terminal response: the body on any success
/// status, the decoded structured error otherwise.
pub open spec fn spec_response_outcome(
    status: u16,
    body: Seq<char>,
    fallback: Seq<char>,
    r: Result<String, Error>,
) -> bool {
    if 200 <= status < 300 {
        r matches Result::Ok(b) && b@ == body
    } else {
        r matches Result::Err(e) && spec_decoded_error(status, body, fallback, e)
    }
}

/// Decodes a terminal response: a success status yields the body for the
/// caller to parse, any other status yields the structured error with the
/// generic fallback code.
pub fn decode_response(resp: HttpResponse) -> (r: Result<String, Error>)
    ensures
        spec_response_outcome(resp.status, resp.body@, "Unknown"@, r),
        r is Ok <==> 200 <= resp.status < 300,
{
    if 200 <= resp.status && resp.status < 300 {
        Ok(resp.body)
    } else {
        Err(decode_error(resp.status, resp.body, "Unknown"))
    }
}

/// Decodes a terminal response of the JSON POST path. The nonce-less
/// challenge response keeps its own fallback error code; every other
/// terminal response is decoded as `decode_response` does.
pub fn decode_post_terminal(first: bool, resp: HttpResponse) -> (r: Result<String, Error>)
    ensures
        (first && resp.status == 401) ==> spec_response_outcome(
            resp.status,
            resp.body@,
            "Unauthorized"@,
            r,
        ),
        !(first && resp.status == 401) ==> spec_response_outcome(
            resp.status,
            resp.body@,
            "Unknown"@,
            r,
        ),
        r is Ok <==> 200 <= resp.status < 300,
{
    if first && resp.status == 401 {
        Err(decode_error(resp.status, resp.body, "Unauthorized"))
    } else {
        decode_response(resp)
    }
}

/// A no-content POST succeeds on any success status and ignores the body;
/// failures decode as the JSON path does.
pub fn decode_no_response(resp: HttpResponse) -> (r: Result<(), Error>)
    ensures
        r is Ok <==> 200 <= resp.status < 300,
        r matches Result::Err(e) ==> spec_decoded_error(resp.status, resp.body@, "Unknown"@, e),
{
    if 200 <= resp.status && resp.status < 300 {
        Ok(())
    } else {
        Err(decode_error(resp.status, resp.body, "Unknown"))
    }
}

/// Where a request stands in the single-retry protocol.
pub enum FlowState {
    /// The first response has not arrived yet.
    AwaitingFirst,
    /// A challenge was answered with one resend; its response is pending.
    AwaitingRetry,
    /// A terminal response was seen.
    Done,
}

/// What the driver must do with the response it just received.
pub enum FlowDecision {
    /// Send the identical request once more, with this nonce in the proof.
    Resend { nonce: String },
    /// The response is terminal: decode it and stop.
    Conclude,
}

/// The transition rule: only the first response can trigger a resend, and
/// only when its status is the trigger status and it carries a nonce.
/// Yields the next state and whether to resend.
pub open spec fn spec_flow_step(
    trigger: u16,
    st: FlowState,
    status: u16,
    has_nonce: bool,
) -> (FlowState, bool) {
    match st {
        FlowState::AwaitingFirst => {
            if status == trigger && has_nonce {
                (FlowState::AwaitingRetry, true)
            } else {
                (FlowState::Done, false)
            }
        },
        _ => (FlowState::Done, false),
    }
}

/// The retry state of one request: the challenge status it reacts to, its
/// position in the protocol, and how many resends it has issued.
pub struct NonceRetryFlow {
    trigger_status: u16,
    state: FlowState,
    retries: u64,
}

impl NonceRetryFlow {
    pub closed spec fn spec_trigger(&self) -> u16 {
        self.trigger_status
    }

    pub closed spec fn spec_state(&self) -> FlowState {
        self.state
    }

    pub closed spec fn spec_retries(&self) -> u64 {
        self.retries
    }

    /// No resend before the first response; never more than one resend.
    pub open spec fn wf(&self) -> bool {
        &&& self.spec_retries() <= 1
        &&& self.spec_state() is AwaitingFirst ==> self.spec_retries() == 0
    }

    /// The flow for resource requests, challenged by a 401.
    pub fn for_resource() -> (r: NonceRetryFlow)
        ensures
            r.wf(),
            r.spec_trigger() == 401,
            r.spec_state() is AwaitingFirst,
            r.spec_retries() == 0,
    {
        NonceRetryFlow { trigger_status: 401, state: FlowState::AwaitingFirst, retries: 0 }
    }

    /// The flow for token-endpoint requests, challenged by a 400.
    pub fn for_token_endpoint() -> (r: NonceRetryFlow)
        ensures
            r.wf(),
            r.spec_trigger() == 400,
            r.spec_state() is AwaitingFirst,
            r.spec_retries() == 0,
    {
        NonceRetryFlow { trigger_status: 400, state: FlowState::AwaitingFirst, retries: 0 }
    }

    /// Whether the flow can still take a response: well formed and not yet
    /// concluded. An unverified driver checks this before handing a
    /// response over.
    pub fn accepts_response(&self) -> (r: bool)
        ensures
            r == (self.wf() && !(self.spec_state() is Done)),
    {
        self.retries <= 1 && (match self.state {
            FlowState::AwaitingFirst => self.retries == 0,
            FlowState::AwaitingRetry => true,
            FlowState::Done => false,
        })
    }

    /// Feeds one response to the flow. Exactly the first response with the
    /// trigger status and a nonce header yields a resend carrying that
    /// nonce; every other response concludes the request. Once concluded,
    /// no further response is accepted, so a request is resent at most
    /// once, whatever the retry's outcome.
    pub fn on_response(&mut self, resp: &HttpResponse) -> (d: FlowDecision)
        requires
            old(self).wf(),
            !(old(self).spec_state() is Done),
        ensures
            final(self).wf(),
            final(self).spec_trigger() == old(self).spec_trigger(),
            (final(self).spec_state(), d is Resend) == spec_flow_step(
                old(self).spec_trigger(),
                old(self).spec_state(),
                resp.status,
                resp.dpop_nonce is Some,
            ),
            d matches FlowDecision::Resend { nonce } ==> resp.dpop_nonce matches Option::Some(n)
                && nonce@ == n@ && final(self).spec_retries() == old(self).spec_retries() + 1,
            d is Conclude ==> final(self).spec_retries() == old(self).spec_retries(),
    {
        match self.state {
            FlowState::AwaitingFirst => {
                if resp.status == self.trigger_status {
                    match &resp.dpop_nonce {
                        Option::Some(n) => {
                            self.state = FlowState::AwaitingRetry;
                            self.retries = self.retries + 1;
                            return FlowDecision::Resend { nonce: n.clone() };
                        },
                        Option::None => {},
                    }
                }
                self.state = FlowState::Done;
                FlowDecision::Conclude
            },
            _ => {
                self.state = FlowState::Done;
                FlowDecision::Conclude
            },
        }
    }
}

/// A challenge response (the trigger status with a nonce) is answered by
/// exactly one resend, and the retry's response concludes the request no
/// matter what it holds: there is never a second resend.
pub proof fn lemma_nonce_challenge_retries_once(
    trigger: u16,
    retry_status: u16,
    retry_has_nonce: bool,
)
    ensures
        spec_flow_step(trigger, FlowState::AwaitingFirst, trigger, true) == (
            FlowState::AwaitingRetry,
            true,
        ),
        spec_flow_step(trigger, FlowState::AwaitingRetry, retry_status, retry_has_nonce) == (
            FlowState::Done,
            false,
        ),
{
}

/// A response without a nonce header never triggers a resend, whatever its
/// status: the request concludes immediately with zero retries.
pub proof fn lemma_no_nonce_no_retry(trigger: u16, status: u16)
    ensures
        spec_flow_step(trigger, FlowState::AwaitingFirst, status, false) == (
            FlowState::Done,
            false,
        ),
{
}

/// The query-pair view of an exec parameter list.
pub open spec fn spec_pairs_view(params: Seq<(String, String)>) -> Seq<(Seq<char>, Seq<char>)> {
    Seq::new(params.len(), |i: int| (params[i].0@, params[i].1@))
}

/// `base` with every trailing slash removed.
pub open spec fn spec_trim_slashes(s: Seq<char>) -> Seq<char>
    decreases s.len(),
{
    if s.len() > 0 && s[s.len() - 1] == '/' {
        spec_trim_slashes(s.drop_last())
    } else {
        s
    }
}

/// The query string from pair `i` on: `?` before the first pair, `&`
/// before each further one, keys and values percent-encoded.
pub open spec fn spec_query_from(params: Seq<(Seq<char>, Seq<char>)>, i: int) -> Seq<char>
    decreases params.len() - i,
{
    if i < 0 || i >= params.len() {
        Seq::empty()
    } else {
        seq![if i == 0 { '?' } else { '&' }] + query_encoded_of(params[i].0) + seq!['=']
            + query_encoded_of(params[i].1) + spec_query_from(params, i + 1)
    }
}

/// The target URL of an XRPC call: the endpoint without trailing slashes,
/// the fixed path prefix, the method id, and the encoded query pairs.
pub open spec fn spec_xrpc_url(
    base: Seq<char>,
    nsid: Seq<char>,
    params: Seq<(Seq<char>, Seq<char>)>,
) -> Seq<char> {
    spec_trim_slashes(base) + "/xrpc/"@ + nsid + spec_query_from(params, 0)
}

/// Removes trailing slashes.
pub fn trim_trailing_slashes(s: &str) -> (r: &str)
    ensures
        r@ == spec_trim_slashes(s@),
{
    let n = s.unicode_len();
    let mut end: usize = n;
    proof {
        assert(s@.subrange(0, s@.len() as int) =~= s@);
    }
    while end > 0 && s.get_char(end - 1) == '/'
        invariant
            end <= n,
            n == s@.len(),
            spec_trim_slashes(s@) == spec_trim_slashes(s@.subrange(0, end as int)),
        decreases end,
    {
        proof {
            let pre = s@.subrange(0, end as int);
            assert(pre.drop_last() =~= s@.subrange(0, end - 1));
        }
        end = end - 1;
    }
    let r = s.substring_char(0, end);
    proof {
        let pre = s@.subrange(0, end as int);
        if end > 0 {
            assert(pre[pre.len() - 1] == s@[end - 1]);
        }
        assert(spec_trim_slashes(pre) == pre);
    }
    r
}

/// Builds the target URL for an XRPC method with query parameters.
pub fn build_xrpc_url(base: &str, nsid: &str, params: &Vec<(String, String)>) -> (r: String)
    ensures
        r@ == spec_xrpc_url(base@, nsid@, spec_pairs_view(params@)),
{
    let trimmed = trim_trailing_slashes(base);
    let mut out = trimmed.to_owned();
    out.append("/xrpc/");
    out.append(nsid);
    let ghost pview = spec_pairs_view(params@);
    proof {
        assert(out@ + spec_query_from(pview, 0) =~= spec_xrpc_url(
            base@,
            nsid@,
            spec_pairs_view(params@),
        ));
    }
    let len = params.len();
    let mut i: usize = 0;
    while i < len
        invariant
            i <= len,
            len == params@.len(),
            pview == spec_pairs_view(params@),
            pview.len() == len,
            out@ + spec_query_from(pview, i as int) =~= spec_xrpc_url(
                base@,
                nsid@,
                spec_pairs_view(params@),
            ),
        decreases len - i,
    {
        let ghost before = out@;
        if i == 0 {
            push_char(&mut out, '?');
        } else {
            push_char(&mut out, '&');
        }
        let (k, v) = (&params[i].0, &params[i].1);
        out.append(query_encode(k.as_str()).as_str());
        push_char(&mut out, '=');
        out.append(query_encode(v.as_str()).as_str());
        proof {
            assert(pview[i as int] == (params@[i as int].0@, params@[i as int].1@));
            assert(out@ =~= before + seq![if i == 0 {
                '?'
            } else {
                '&'
            }] + query_encoded_of(pview[i as int].0) + seq!['='] + query_encoded_of(
                pview[i as int].1,
            ));
            assert(out@ + spec_query_from(pview, i + 1) =~= before + spec_query_from(
                pview,
                i as int,
            ));
        }
        i = i + 1;
    }
    proof {
        assert(spec_query_from(pview, len as int) =~= Seq::<char>::empty());
        assert(out@ =~= out@ + spec_query_from(pview, len as int));
    }
    out
}

} // verus!
