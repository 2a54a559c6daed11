//! The request executor: a transport capability that logs what it is
//! handed, the retry loop that drives the backoff policy across attempts,
//! and the client that turns a logical call into a typed result.

use vstd::prelude::*;
use vstd::string::*;
use vstd::utf8::encode_utf8;
use crate::backoff::Backoff;
use crate::decode::{decode_post, decode_response, decodes_to, FromJson, HttpResponse};
use crate::error::Error;
use crate::request::{
    build_request, header_value_ok, method_from_str, params_view, spec_encode_params,
    spec_method_from, Method, Request,
};

verus! {

/// One thing a transport did: the request it was handed, and the response
/// or the failure message that came back.
pub type TransportEvent = (Request, Result<HttpResponse, String>);

/// An abstract capability that can send one fully-formed request and
/// return a response or fail with a transport-level message. Shared by
/// many logical calls; substitutable, so alternative transports plug in.
pub trait Transport {
    /// Every send made through this transport, in order, each with the
    /// request handed over and the outcome that came back. An
    /// implementation that leaves the default in place says nothing of
    /// its history.
    open spec fn log(&self) -> Seq<TransportEvent> {
        arbitrary()
    }

    /// One attempt to send the request; the attempt, with the request
    /// exactly as handed over, is appended to the log.
    fn send(&mut self, req: &Request) -> (r: Result<HttpResponse, String>)
        ensures
            final(self).log() == old(self).log().push((*req, r)),
    ;

    /// Pause between attempts, without stalling unrelated logical calls.
    fn pause(&mut self, ms: u64)
        ensures
            final(self).log() == old(self).log(),
    ;
}

/// Whether a request carries exactly the given method, URL, bearer header
/// and body (with the one media type this library ever accepts).
pub open spec fn request_matches(
    req: Request,
    method: Method,
    url: Seq<char>,
    authorization: Seq<char>,
    body: Option<Seq<char>>,
) -> bool {
    &&& req.method == method
    &&& req.url@ == url
    &&& req.accept@ == "application/json"@
    &&& req.authorization@ == authorization
    &&& req.body.deep_view() == body
}

/// The log grew only by sends of one and the same request: the given
/// method, URL, authorization and body, identical across attempts.
pub open spec fn sends_matched(
    pre: Seq<TransportEvent>,
    post: Seq<TransportEvent>,
    method: Method,
    url: Seq<char>,
    authorization: Seq<char>,
    body: Option<Seq<char>>,
) -> bool {
    &&& pre.len() <= post.len()
    &&& post.take(pre.len() as int) == pre
    &&& forall|i: int|
        pre.len() <= i < post.len() ==> request_matches(
            (#[trigger] post[i]).0,
            method,
            url,
            authorization,
            body,
        )
}

/// What a resource-layer call does to its client: nothing is sent on a
/// token no header value can carry; otherwise one logical call runs — one
/// or two sends, all of the same request with the given method, URL and
/// body under the client's bearer header — and the token and base URL are
/// kept as they were.
pub open spec fn drove_one_request<T: Transport>(
    pre: Client<T>,
    post: Client<T>,
    method: Method,
    url: Seq<char>,
    body: Option<Seq<char>>,
) -> bool {
    &&& post.api_key == pre.api_key
    &&& post.server_url == pre.server_url
    &&& !header_value_ok(encode_utf8("Bearer "@ + pre.api_key@)) ==> post.transport.log()
        == pre.transport.log()
    &&& header_value_ok(encode_utf8("Bearer "@ + pre.api_key@)) ==> {
        &&& pre.transport.log().len() < post.transport.log().len() <= pre.transport.log().len()
            + 2
        &&& sends_matched(
            pre.transport.log(),
            post.transport.log(),
            method,
            url,
            "Bearer "@ + pre.api_key@,
            body,
        )
    }
}

/// One scripted transport outcome: a failure message, or a response with
/// its status and body bytes.
pub enum ScriptStep {
    /// The send fails with this message.
    Fail(String),
    /// The send returns this status and body.
    Respond(u16, Vec<u8>),
}

/// A transport that plays back a fixed script, one step per send; sends
/// past the end of the script fail. It never sleeps.
pub struct ScriptedTransport {
    /// The outcomes to play back, in order.
    pub script: Vec<ScriptStep>,
    /// How many steps have been consumed.
    pub pos: usize,
    /// Every send made so far, with its outcome.
    pub events: Ghost<Seq<TransportEvent>>,
}

impl ScriptedTransport {
    /// A transport about to play the given script from its start, with an
    /// empty history.
    pub fn new(script: Vec<ScriptStep>) -> (r: Self)
        ensures
            r.script == script,
            r.pos == 0,
            r.log() == Seq::<TransportEvent>::empty(),
    {
        ScriptedTransport { script, pos: 0, events: Ghost(Seq::empty()) }
    }
}

impl Transport for ScriptedTransport {
    open spec fn log(&self) -> Seq<TransportEvent> {
        self.events@
    }

    fn send(&mut self, req: &Request) -> (r: Result<HttpResponse, String>)
        ensures
            old(self).pos < old(self).script.len() ==> match old(self).script@[old(
                self,
            ).pos as int] {
                ScriptStep::Fail(m) => r is Err && r->Err_0 == m,
                ScriptStep::Respond(status, bytes) => {
                    &&& r is Ok
                    &&& r->Ok_0.status == status
                    &&& r->Ok_0.body is Ok
                    &&& r->Ok_0.body->Ok_0@ == bytes@
                },
            },
            old(self).pos >= old(self).script.len() ==> r is Err,
            final(self).script == old(self).script,
            final(self).pos == if old(self).pos < usize::MAX {
                (old(self).pos + 1) as usize
            } else {
                old(self).pos
            },
    {
        let r: Result<HttpResponse, String> = if self.pos < self.script.len() {
            let step_fail: Option<String> = match &self.script[self.pos] {
                ScriptStep::Fail(msg) => Some(msg.clone()),
                ScriptStep::Respond(_, _) => None,
            };
            match step_fail {
                Some(msg) => Err(msg),
                None => {
                    let (status, bytes): (u16, Vec<u8>) = match &self.script[self.pos] {
                        ScriptStep::Respond(status, bytes) => (*status, clone_bytes(bytes)),
                        ScriptStep::Fail(_) => (0, Vec::new()),
                    };
                    Ok(HttpResponse { status, body: Ok(bytes) })
                },
            }
        } else {
            Err(String::from_str("no scripted response is left"))
        };
        if self.pos < usize::MAX {
            self.pos = self.pos + 1;
        }
        self.events = Ghost(self.events@.push((*req, r)));
        r
    }

    fn pause(&mut self, ms: u64) {
    }
}

fn clone_bytes(b: &Vec<u8>) -> (r: Vec<u8>)
    ensures
        r@ == b@,
{
    let mut r: Vec<u8> = Vec::new();
    let mut i: usize = 0;
    while i < b.len()
        invariant
            i <= b@.len(),
            r@ == b@.take(i as int),
        decreases b@.len() - i,
    {
        r.push(b[i]);
        assert(r@ =~= b@.take(i + 1 as int));
        i += 1;
    }
    proof {
        assert(b@.take(b@.len() as int) =~= b@);
    }
    r
}

/// Everything the retry loop promises, over the transport's log: the
/// request is handed over unchanged on every attempt; at most one send
/// more than the policy has waits; every attempt before the last failed;
/// the call succeeds exactly when the last send did, returning that
/// send's own response unaltered and at once; and when every attempt is
/// spent, the retry-exhausted error wraps the last failure's message.
pub open spec fn retry_post(
    pre: Seq<TransportEvent>,
    post: Seq<TransportEvent>,
    req: Request,
    retries: u32,
    r: Result<HttpResponse, Error>,
) -> bool {
    &&& pre.len() < post.len() <= pre.len() + retries + 1
    &&& post.take(pre.len() as int) == pre
    &&& forall|i: int| pre.len() <= i < post.len() ==> (#[trigger] post[i]).0 == req
    &&& forall|i: int| pre.len() <= i < post.len() - 1 ==> (#[trigger] post[i]).1 is Err
    &&& (r is Ok <==> post.last().1 is Ok)
    &&& r is Ok ==> post.last().1 == Ok::<HttpResponse, String>(r->Ok_0)
    &&& r is Err ==> {
        &&& post.len() == pre.len() + retries + 1
        &&& post.last().1 is Err
        &&& r->Err_0.kind is RetryError
        &&& r->Err_0.cause == Some(post.last().1->Err_0)
    }
}

/// Drives the backoff policy across attempts: an implicit zero-wait first
/// attempt, then one wait consumed before each retry.
pub fn retry_with_backoff<T: Transport>(
    transport: &mut T,
    req: &Request,
    backoff: &Backoff,
) -> (r: Result<HttpResponse, Error>)
    requires
        backoff.wf(),
    ensures
        retry_post(old(transport).log(), final(transport).log(), *req, backoff.retries, r),
{
    let schedule = backoff.schedule();
    let n = schedule.len();
    let mut last_err: Option<String> = match transport.send(req) {
        Ok(resp) => {
            proof {
                assert(final(transport).log().take(old(transport).log().len() as int)
                    =~= old(transport).log());
            }
            return Ok(resp);
        },
        Err(msg) => Some(msg),
    };
    proof {
        assert(transport.log().take(old(transport).log().len() as int) =~= old(
            transport,
        ).log());
    }
    let mut i: usize = 0;
    while i < n
        invariant
            i <= n,
            n == schedule@.len(),
            n == backoff.retries as nat,
            transport.log().len() == old(transport).log().len() + 1 + i as nat,
            transport.log().take(old(transport).log().len() as int) == old(transport).log(),
            forall|k: int|
                old(transport).log().len() <= k < transport.log().len() ==> (#[trigger] transport.log()[k]).0
                    == *req,
            forall|k: int|
                old(transport).log().len() <= k < transport.log().len() ==> (#[trigger] transport.log()[k]).1 is Err,
            last_err is Some,
            transport.log().last().1 == Err::<HttpResponse, String>(last_err->Some_0),
        decreases n - i,
    {
        transport.pause(schedule[i]);
        match transport.send(req) {
            Ok(resp) => {
                proof {
                    assert(final(transport).log().take(old(transport).log().len() as int)
                        =~= old(transport).log());
                }
                return Ok(resp);
            },
            Err(msg) => {
                last_err = Some(msg);
            },
        }
        proof {
            assert(transport.log().take(old(transport).log().len() as int) =~= old(
                transport,
            ).log());
        }
        i += 1;
    }
    match last_err {
        Some(msg) => Err(Error::new_retry_error(msg)),
        None => Err(Error::new_internal_error()),
    }
}

/// Retry exhaustion: against a transport whose every send in this call
/// failed, the call fails, after exactly one send more than the policy
/// has waits, with the retry-exhausted error wrapping the last failure's
/// message.
pub proof fn lemma_retry_exhaustion(
    pre: Seq<TransportEvent>,
    post: Seq<TransportEvent>,
    req: Request,
    retries: u32,
    r: Result<HttpResponse, Error>,
)
    requires
        retry_post(pre, post, req, retries, r),
        forall|i: int| pre.len() <= i < post.len() ==> (#[trigger] post[i]).1 is Err,
    ensures
        r is Err,
        r->Err_0.kind is RetryError,
        post.len() == pre.len() + retries + 1,
        r->Err_0.cause == Some(post.last().1->Err_0),
{
    assert(post[post.len() - 1].1 is Err);
}

/// Represents an HTTP client: the bearer token, the server's base URL, and
/// the transport capability the client sends through.
pub struct Client<T: Transport> {
    /// The bearer token presented on every call.
    pub api_key: String,
    /// The base URL of the host server.
    pub server_url: String,
    /// The transport that carries the requests.
    pub transport: T,
}

impl<T: Transport> Client<T> {
    /// Create a new instance from a token, a server URL, and a transport.
    pub fn new(token: &str, server_url: &str, transport: T) -> (r: Self)
        ensures
            r.api_key@ == token@,
            r.server_url@ == server_url@,
            r.transport == transport,
    {
        Self { api_key: token.to_owned(), server_url: server_url.to_owned(), transport }
    }

    /// Returns the bearer token.
    pub fn token(&self) -> (t: String)
        ensures
            t@ == self.api_key@,
    {
        self.api_key.clone()
    }

    /// Executes one logical call: builds the authenticated request (failing
    /// fast, before any attempt, exactly when no header value can carry the
    /// token), hands that one request to the transport under the default
    /// backoff policy of a single retry, and decodes the response the last
    /// send returned into a typed value and the raw JSON tree.
    pub fn send_request<D: FromJson>(
        &mut self,
        method: &str,
        endpoint: &str,
        params: &[(&str, &str)],
        body: Option<String>,
    ) -> (r: Result<(D, serde_json::Value), Error>)
        ensures
            final(self).api_key == old(self).api_key,
            final(self).server_url == old(self).server_url,
            !header_value_ok(encode_utf8("Bearer "@ + old(self).api_key@)) <==> (r is Err
                && r->Err_0.kind is InvalidHeaderValue),
            r is Err && r->Err_0.kind is InvalidHeaderValue ==> final(self).transport.log()
                == old(self).transport.log() && r->Err_0.cause is None,
            header_value_ok(encode_utf8("Bearer "@ + old(self).api_key@)) ==> {
                &&& old(self).transport.log().len() < final(self).transport.log().len() <= old(
                    self,
                ).transport.log().len() + 2
                &&& sends_matched(
                    old(self).transport.log(),
                    final(self).transport.log(),
                    spec_method_from(method@),
                    old(self).server_url@ + "/"@ + endpoint@ + "?"@ + spec_encode_params(
                        params_view(params@),
                    ),
                    "Bearer "@ + old(self).api_key@,
                    body.deep_view(),
                )
            },
            r is Err && r->Err_0.kind is RetryError ==> {
                &&& final(self).transport.log().len() == old(self).transport.log().len() + 2
                &&& forall|i: int|
                    old(self).transport.log().len() <= i < final(self).transport.log().len()
                        ==> (#[trigger] final(self).transport.log()[i]).1 is Err
                &&& r->Err_0.cause == Some(final(self).transport.log().last().1->Err_0)
            },
            (r is Ok || (r is Err && !(r->Err_0.kind is InvalidHeaderValue) && !(
            r->Err_0.kind is RetryError))) ==> {
                &&& final(self).transport.log().len() > old(self).transport.log().len()
                &&& final(self).transport.log().last().1 is Ok
                &&& decode_post::<D>(final(self).transport.log().last().1->Ok_0, r)
            },
            r is Ok ==> decodes_to::<D>(r->Ok_0.0, r->Ok_0.1),
    {
        let m: Method = method_from_str(method);
        let backoff = Backoff::new(1, 100, 20_000);
        let req: Request = match build_request(
            m,
            self.server_url.as_str(),
            endpoint,
            params,
            self.api_key.as_str(),
            body,
        ) {
            Ok(req) => req,
            Err(e) => {
                return Err(e);
            },
        };
        let resp: HttpResponse = match retry_with_backoff(&mut self.transport, &req, &backoff) {
            Ok(resp) => resp,
            Err(e) => {
                return Err(e);
            },
        };
        decode_response::<D>(resp)
    }
}

} // verus!
