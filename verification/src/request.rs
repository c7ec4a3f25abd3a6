//! One dispatched request: its correlation id, its padding payload, the
//! settings its transport client is built with, and the classification and
//! rendering of its outcome.

use rand::Rng;
use vstd::prelude::*;
use vstd::string::StringExecFns;

use crate::config::Protocol;
use crate::numtext::{dec_digit, spec_decimal, u64_to_decimal};

verus! {

/// An ASCII alphanumeric character: a digit or a letter of either case.
pub open spec fn is_alnum_char(c: char) -> bool {
    ||| 48 <= c as u32 <= 57
    ||| 65 <= c as u32 <= 90
    ||| 97 <= c as u32 <= 122
}

/// A padding payload for the configured size: exactly `size_kb * 1024`
/// alphanumeric characters.
pub open spec fn is_payload(s: Seq<char>, size_kb: usize) -> bool {
    &&& s.len() == size_kb * 1024
    &&& forall|i: int| 0 <= i < s.len() ==> is_alnum_char(#[trigger] s[i])
}

/// Relies on rand's `Alphanumeric` distribution: every sample is one of the
/// 62 ASCII alphanumeric characters, and `take` fixes the count.
#[verifier::external_body]
fn random_string(size: usize) -> (r: String)
    requires
        size <= usize::MAX / 1024,
    ensures
        r@.len() == size * 1024,
        forall|i: int| 0 <= i < r@.len() ==> is_alnum_char(#[trigger] r@[i]),
{
    rand::rng().sample_iter(&rand::distr::Alphanumeric).take(size * 1024).map(
        char::from,
    ).collect::<String>()
}

/// The padding payload: a fresh random alphanumeric string of exactly
/// `size_kb * 1024` characters; empty for size zero.
pub fn build_payload(size_kb: usize) -> (r: String)
    requires
        size_kb <= usize::MAX / 1024,
    ensures
        is_payload(r@, size_kb),
{
    random_string(size_kb)
}

/// Digit `d` of the standard base-62 alphabet: `0`-`9`, then `A`-`Z`, then
/// `a`-`z`.
pub open spec fn base62_digit(d: nat) -> char {
    if d < 10 {
        dec_digit(d)
    } else if d < 36 {
        ((55 + d) as u8) as char
    } else {
        ((61 + d) as u8) as char
    }
}

/// Base-62 rendering of `n` over the standard alphabet, most significant
/// digit first, without leading zeros (`0` itself is "0").
pub open spec fn spec_base62(n: nat) -> Seq<char>
    decreases n,
{
    if n < 62 {
        seq![base62_digit(n)]
    } else {
        spec_base62(n / 62).push(base62_digit(n % 62))
    }
}

/// Relies on rand: eight random bytes, read as one big-endian 64-bit number.
#[verifier::external_body]
fn random_u64() -> (r: u64) {
    let bytes: [u8; 8] = rand::rng().random();
    u64::from_be_bytes(bytes)
}

/// Relies on base62::encode: the standard-alphabet positional base-62
/// rendering of the number, most significant digit first, no leading zeros.
#[verifier::external_body]
fn base62_encode(n: u64) -> (r: String)
    ensures
        r@ == spec_base62(n as nat),
{
    base62::encode(n)
}

/// A short printable token: at least one character, all alphanumeric.
pub open spec fn is_id_token(s: Seq<char>) -> bool {
    &&& s.len() >= 1
    &&& forall|i: int| 0 <= i < s.len() ==> is_alnum_char(#[trigger] s[i])
}

/// Every base-62 rendering is a printable token.
proof fn lemma_base62_token(n: nat)
    ensures
        is_id_token(spec_base62(n)),
    decreases n,
{
    if n >= 62 {
        lemma_base62_token(n / 62);
    }
}

proof fn lemma_base62_digit_injective(d1: nat, d2: nat)
    requires
        d1 < 62,
        d2 < 62,
        base62_digit(d1) == base62_digit(d2),
    ensures
        d1 == d2,
{
    assert(base62_digit(d1) as u32 == base62_digit(d2) as u32);
}

/// Law: the base-62 rendering is injective, so two dispatched requests can
/// share a correlation id only when their 64-bit random draws collide.
pub proof fn lemma_base62_injective(a: nat, b: nat)
    requires
        spec_base62(a) == spec_base62(b),
    ensures
        a == b,
    decreases a,
{
    if a < 62 && b < 62 {
        assert(spec_base62(a) == seq![base62_digit(a)]);
        assert(spec_base62(b) == seq![base62_digit(b)]);
        assert(base62_digit(a) == spec_base62(a)[0]);
        assert(base62_digit(b) == spec_base62(b)[0]);
        lemma_base62_digit_injective(a, b);
    } else if a < 62 {
        assert(spec_base62(a).len() == 1);
        lemma_base62_len_ge_two(b);
    } else if b < 62 {
        assert(spec_base62(b).len() == 1);
        lemma_base62_len_ge_two(a);
    } else {
        assert(spec_base62(a) == spec_base62(a / 62).push(base62_digit(a % 62)));
        assert(spec_base62(b) == spec_base62(b / 62).push(base62_digit(b % 62)));
        assert(spec_base62(a).last() == base62_digit(a % 62));
        assert(spec_base62(b).last() == base62_digit(b % 62));
        lemma_base62_digit_injective(a % 62, b % 62);
        assert(spec_base62(a).drop_last() =~= spec_base62(a / 62));
        assert(spec_base62(b).drop_last() =~= spec_base62(b / 62));
        lemma_base62_injective(a / 62, b / 62);
    }
}

proof fn lemma_base62_len_pos(n: nat)
    ensures
        spec_base62(n).len() >= 1,
    decreases n,
{
    if n >= 62 {
        lemma_base62_len_pos(n / 62);
    }
}

proof fn lemma_base62_len_ge_two(n: nat)
    requires
        n >= 62,
    ensures
        spec_base62(n).len() >= 2,
{
    lemma_base62_len_pos(n / 62);
    assert(spec_base62(n) == spec_base62(n / 62).push(base62_digit(n % 62)));
}

/// A fresh correlation id: a random 64-bit number rendered in base 62, short
/// enough to log and unique over a process's lifetime with overwhelming
/// probability.
pub fn correlation_id() -> (r: String)
    ensures
        is_id_token(r@),
{
    let n = random_u64();
    let r = base62_encode(n);
    proof {
        lemma_base62_token(n as nat);
    }
    r
}

/// How one request carries its correlation id and payload: two custom
/// headers, or two query parameters in the query-string variant.
pub enum RequestParts {
    /// `my_id` and `random_header` custom header values.
    HeaderPair { my_id: String, random_header: String },
    /// The `content` query-parameter value.
    QueryParam { content: String },
}

/// The id and padding attached to one request, placed according to the
/// configured protocol mode: query parameters in the query-string variant,
/// custom headers otherwise.
pub fn build_request_parts(id: &str, header_size_kb: usize, protocol: &Protocol) -> (p:
    RequestParts)
    requires
        header_size_kb <= usize::MAX / 1024,
    ensures
        *protocol == Protocol::QueryString ==> (p matches RequestParts::QueryParam { content }
            && is_payload(content@, header_size_kb)),
        *protocol != Protocol::QueryString ==> (p matches RequestParts::HeaderPair {
            my_id,
            random_header,
        } && my_id@ == id@ && is_payload(random_header@, header_size_kb)),
{
    match protocol {
        Protocol::QueryString => RequestParts::QueryParam {
            content: build_payload(header_size_kb),
        },
        _ => RequestParts::HeaderPair {
            my_id: id.to_owned(),
            random_header: build_payload(header_size_kb),
        },
    }
}

/// The settings every transport client is built with, and the protocol
/// policy chosen by the mode.
pub struct ClientSettings {
    /// Per-request timeout, seconds.
    pub timeout_secs: u64,
    /// TCP keep-alive interval, seconds.
    pub keepalive_secs: u64,
    pub tcp_nodelay: bool,
    /// Bound on idle pooled connections per target host.
    pub pool_max_idle_per_host: usize,
    /// How long an idle pooled connection is kept, seconds.
    pub pool_idle_timeout_secs: u64,
    /// Force HTTP/2 with prior knowledge; otherwise restrict to HTTP/1.1.
    pub http2_prior_knowledge: bool,
}

/// The connection-pooled client configuration for a protocol mode: a 30s
/// request timeout, 60s keep-alive, no-delay, at most 5 idle connections per
/// host kept 90s, and HTTP/2 prior knowledge exactly in HTTP/2 mode.
pub fn client_settings(protocol: &Protocol) -> (s: ClientSettings)
    ensures
        s.timeout_secs == 30,
        s.keepalive_secs == 60,
        s.tcp_nodelay,
        s.pool_max_idle_per_host == 5,
        s.pool_idle_timeout_secs == 90,
        s.http2_prior_knowledge == (*protocol == Protocol::Http2),
{
    ClientSettings {
        timeout_secs: 30,
        keepalive_secs: 60,
        tcp_nodelay: true,
        pool_max_idle_per_host: 5,
        pool_idle_timeout_secs: 90,
        http2_prior_knowledge: match protocol {
            Protocol::Http2 => true,
            _ => false,
        },
    }
}

/// Whether an HTTP status is in the success range.
pub open spec fn spec_is_success(status: u16) -> bool {
    200 <= status < 300
}

pub fn is_success_status(status: u16) -> (r: bool)
    ensures
        r == spec_is_success(status),
{
    200 <= status && status < 300
}

/// Whether the body of a successful response could be read back.
pub enum BodyRead {
    Read,
    Failed(String),
}

/// What the transport handed back for one request, as plain values: a
/// network-level send failure with its rendered cause, or a response status
/// together with how the body read went.
pub enum TransportReply {
    SendFailed(String),
    Responded(u16, BodyRead),
}

/// The result of one dispatched request.
pub enum RequestOutcome {
    Success,
    HttpError(u16),
    ResponseReadError(u16, String),
    SendError(String),
}

/// Classifies what came back from the transport: a send failure is a
/// `SendError`; a status outside the success range is an `HttpError`; a
/// successful status is a `Success` when the body could be read and a
/// `ResponseReadError` otherwise.
pub fn classify(reply: TransportReply) -> (o: RequestOutcome)
    ensures
        reply matches TransportReply::SendFailed(cause) ==> (o matches RequestOutcome::SendError(
            c,
        ) && c == cause),
        reply matches TransportReply::Responded(status, body) ==> {
            &&& !spec_is_success(status) ==> (o matches RequestOutcome::HttpError(s) && s
                == status)
            &&& spec_is_success(status) && body is Read ==> o is Success
            &&& spec_is_success(status) ==> (body matches BodyRead::Failed(cause) ==> (
            o matches RequestOutcome::ResponseReadError(s, c) && s == status && c == cause))
        },
{
    match reply {
        TransportReply::SendFailed(cause) => RequestOutcome::SendError(cause),
        TransportReply::Responded(status, body) => {
            if is_success_status(status) {
                match body {
                    BodyRead::Read => RequestOutcome::Success,
                    BodyRead::Failed(cause) => RequestOutcome::ResponseReadError(status, cause),
                }
            } else {
                RequestOutcome::HttpError(status)
            }
        },
    }
}

/// The exact log message each outcome renders to, embedding the request's
/// correlation id.
pub open spec fn outcome_message(id: Seq<char>, o: RequestOutcome) -> Seq<char> {
    match o {
        RequestOutcome::Success => "Request "@ + id + " Succeded"@,
        RequestOutcome::HttpError(status) => "Request "@ + id + " Failed. HTTP "@ + spec_decimal(
            status as nat,
        ),
        RequestOutcome::ResponseReadError(status, cause) => "Response "@ + id + " Failed. HTTP "@
            + spec_decimal(status as nat) + ": "@ + cause@,
        RequestOutcome::SendError(cause) => "Request "@ + id + " failed to send with error: "@
            + cause@,
    }
}

pub fn render_outcome(id: &str, outcome: &RequestOutcome) -> (r: String)
    ensures
        r@ == outcome_message(id@, *outcome),
{
    match outcome {
        RequestOutcome::Success => {
            let mut r = "Request ".to_owned();
            r.append(id);
            r.append(" Succeded");
            r
        },
        RequestOutcome::HttpError(status) => {
            let mut r = "Request ".to_owned();
            r.append(id);
            r.append(" Failed. HTTP ");
            r.append(u64_to_decimal(*status as u64).as_str());
            r
        },
        RequestOutcome::ResponseReadError(status, cause) => {
            let mut r = "Response ".to_owned();
            r.append(id);
            r.append(" Failed. HTTP ");
            r.append(u64_to_decimal(*status as u64).as_str());
            r.append(": ");
            r.append(cause.as_str());
            r
        },
        RequestOutcome::SendError(cause) => {
            let mut r = "Request ".to_owned();
            r.append(id);
            r.append(" failed to send with error: ");
            r.append(cause.as_str());
            r
        },
    }
}

} // verus!
