//! HTTP framing of the bridge: the checks on one request, the assembly of a
//! request from the bytes of a connection, and the response to it.
use crate::bridge::credentials::{body_credential, body_credential_field};
use crate::bridge::protocol::{protocol_error_message, BridgePayload, BridgeProtocolError};
use crate::bridge::session::BridgeSession;
use crate::bridge::transport::{BridgeTransportError, TransportConfig, LOCALHOST};
use crate::text::{
    append_chars, append_str, chars_of, decimal, decimal_chars, eq_ignore_ascii_case,
    eq_ignore_ascii_case_chars, lines, lines_of, opt_view, parse_usize, parse_usize_chars,
    split_once, split_once_chars, starts_with_chars, str_eq, string_from_chars, to_string, trim,
    trim_chars, views_of, words, words_of,
};
use vstd::prelude::*;

verus! {

pub const RESULT_ENDPOINT: &'static str = "/v1/result";

pub const BEARER_PREFIX: &'static str = "Bearer ";

pub const READ_CHUNK_BYTES: usize = 8192;

pub const MIB: usize = 1048576;

#[derive(Debug, Clone, PartialEq, Eq)]
pub struct HttpRequestParts {
    pub method: String,
    pub path: String,
    pub authorization: Option<String>,
    pub body: Vec<u8>,
}

impl HttpRequestParts {
    pub fn new(method: &str, path: &str, authorization: Option<String>, body: Vec<u8>) -> (res:
        Self)
        ensures
            res.method@ == method@,
            res.path@ == path@,
            res.authorization == authorization,
            res.body == body,
    {
        HttpRequestParts { method: to_string(method), path: to_string(path), authorization, body }
    }
}

#[derive(Debug, Clone, PartialEq)]
pub enum HttpRequestParseError {
    InvalidMethod,
    InvalidPath,
    MissingAuthorization,
    InvalidAuthorization,
    BodyTooLarge { actual: usize, max: usize },
    InvalidJson(String),
    CredentialField(String),
    Protocol(BridgeProtocolError),
}

/// The text that describes a request error.
pub open spec fn parse_error_message(e: HttpRequestParseError) -> Seq<char> {
    match e {
        HttpRequestParseError::InvalidMethod => "expected POST request"@,
        HttpRequestParseError::InvalidPath => "expected /v1/result endpoint"@,
        HttpRequestParseError::MissingAuthorization => "missing authorization header"@,
        HttpRequestParseError::InvalidAuthorization => "invalid authorization header"@,
        HttpRequestParseError::BodyTooLarge { actual, max } => "request body too large: "@
            + decimal(actual as nat) + "; max "@ + decimal(max as nat),
        HttpRequestParseError::InvalidJson(err) => "invalid JSON payload: "@ + err@,
        HttpRequestParseError::CredentialField(key) => "credential-like field not accepted: "@
            + key@,
        HttpRequestParseError::Protocol(err) => protocol_error_message(err),
    }
}

impl HttpRequestParseError {
    /// The text that `Display` would write for the error.
    pub fn message(&self) -> (res: String)
        ensures
            res@ == parse_error_message(*self),
    {
        match self {
            HttpRequestParseError::InvalidMethod => to_string("expected POST request"),
            HttpRequestParseError::InvalidPath => to_string("expected /v1/result endpoint"),
            HttpRequestParseError::MissingAuthorization => to_string(
                "missing authorization header",
            ),
            HttpRequestParseError::InvalidAuthorization => to_string(
                "invalid authorization header",
            ),
            HttpRequestParseError::BodyTooLarge { actual, max } => {
                let mut out: Vec<char> = Vec::new();
                append_str(&mut out, "request body too large: ");
                append_chars(&mut out, decimal_chars(*actual).as_slice());
                append_str(&mut out, "; max ");
                append_chars(&mut out, decimal_chars(*max).as_slice());
                string_from_chars(out.as_slice())
            },
            HttpRequestParseError::InvalidJson(err) => {
                let mut out: Vec<char> = Vec::new();
                append_str(&mut out, "invalid JSON payload: ");
                append_str(&mut out, err.as_str());
                string_from_chars(out.as_slice())
            },
            HttpRequestParseError::CredentialField(key) => {
                let mut out: Vec<char> = Vec::new();
                append_str(&mut out, "credential-like field not accepted: ");
                append_str(&mut out, key.as_str());
                string_from_chars(out.as_slice())
            },
            HttpRequestParseError::Protocol(err) => err.message(),
        }
    }
}

// ---------------------------------------------------------------------
// Checks on one request
// ---------------------------------------------------------------------

/// `max_body_mb` MiB, saturated at `usize::MAX`.
pub open spec fn max_body_bytes_of(max_body_mb: usize) -> usize {
    if max_body_mb * MIB > usize::MAX {
        usize::MAX
    } else {
        (max_body_mb * MIB) as usize
    }
}

pub fn max_body_bytes(config: &TransportConfig) -> (res: usize)
    ensures
        res == max_body_bytes_of(config.max_body_mb),
{
    match config.max_body_mb.checked_mul(MIB) {
        Some(v) => v,
        None => usize::MAX,
    }
}

/// Accepts exactly an `Authorization` value of `Bearer ` followed by the
/// session's token.
pub fn validate_authorization(authorization: Option<&str>, expected_token: &str) -> (res: Result<
    (),
    HttpRequestParseError,
>)
    ensures
        match authorization {
            None => res == Err::<(), HttpRequestParseError>(
                HttpRequestParseError::MissingAuthorization,
            ),
            Some(a) => if a@ == BEARER_PREFIX@ + expected_token@ {
                res is Ok
            } else {
                res == Err::<(), HttpRequestParseError>(HttpRequestParseError::InvalidAuthorization)
            },
        },
{
    let auth_str = match authorization {
        Some(a) => a,
        None => {
            return Err(HttpRequestParseError::MissingAuthorization);
        },
    };
    let a = chars_of(auth_str);
    let p = chars_of(BEARER_PREFIX);
    let t = chars_of(expected_token);
    if !starts_with_chars(a.as_slice(), p.as_slice()) {
        proof {
            if a@ == p@ + t@ {
                assert(a@.subrange(0, p@.len() as int) =~= p@);
            }
        }
        return Err(HttpRequestParseError::InvalidAuthorization);
    }
    let n = p.len();
    assert(a@.subrange(0, n as int) == p@);
    if a.len() - n != t.len() {
        return Err(HttpRequestParseError::InvalidAuthorization);
    }
    let mut i: usize = 0;
    while i < t.len()
        invariant
            n == p@.len(),
            n + t@.len() == a@.len(),
            n + t.len() == a.len(),
            authorization == Some(auth_str),
            auth_str@ == a@,
            expected_token@ == t@,
            BEARER_PREFIX@ == p@,
            a@.subrange(0, n as int) == p@,
            forall|k: int| 0 <= k < i ==> a@[n + k] == t@[k],
            i <= t.len(),
        decreases t.len() - i,
    {
        if a[n + i] != t[i] {
            proof {
                if a@ == p@ + t@ {
                    assert((p@ + t@)[n + i] == t@[i as int]);
                }
            }
            return Err(HttpRequestParseError::InvalidAuthorization);
        }
        i = i + 1;
    }
    assert(a@ =~= p@ + t@);
    Ok(())
}

/// The error the method, path, authorization and size checks report, if any.
pub open spec fn envelope_error(
    request: HttpRequestParts,
    session: BridgeSession,
    config: TransportConfig,
) -> Option<HttpRequestParseError> {
    if request.method@ != "POST"@ {
        Some(HttpRequestParseError::InvalidMethod)
    } else if request.path@ != RESULT_ENDPOINT@ {
        Some(HttpRequestParseError::InvalidPath)
    } else if request.authorization is None {
        Some(HttpRequestParseError::MissingAuthorization)
    } else if request.authorization->0@ != BEARER_PREFIX@ + session.bearer_token@ {
        Some(HttpRequestParseError::InvalidAuthorization)
    } else if request.body.len() > max_body_bytes_of(config.max_body_mb) {
        Some(
            HttpRequestParseError::BodyTooLarge {
                actual: request.body.len(),
                max: max_body_bytes_of(config.max_body_mb),
            },
        )
    } else {
        None
    }
}

/// Checks what can be checked before the body is decoded: the method, the
/// path, the bearer token and the body's size.
pub fn check_bridge_request(
    request: &HttpRequestParts,
    session: &BridgeSession,
    config: &TransportConfig,
) -> (res: Result<(), HttpRequestParseError>)
    ensures
        match envelope_error(*request, *session, *config) {
            Some(e) => res == Err::<(), HttpRequestParseError>(e),
            None => res is Ok,
        },
{
    if !str_eq(request.method.as_str(), "POST") {
        return Err(HttpRequestParseError::InvalidMethod);
    }
    if !str_eq(request.path.as_str(), RESULT_ENDPOINT) {
        return Err(HttpRequestParseError::InvalidPath);
    }
    let auth: Option<&str> = match &request.authorization {
        Some(a) => Some(a.as_str()),
        None => None,
    };
    let checked = validate_authorization(auth, session.bearer_token.as_str());
    if checked.is_err() {
        return checked;
    }
    let max = max_body_bytes(config);
    if request.body.len() > max {
        return Err(HttpRequestParseError::BodyTooLarge { actual: request.body.len(), max });
    }
    Ok(())
}

/// Takes the outcome of decoding the body as JSON and validates the payload
/// against the session.
pub fn accept_bridge_payload(
    decoded: Result<BridgePayload, String>,
    session: &BridgeSession,
    config: &TransportConfig,
) -> (res: Result<BridgePayload, HttpRequestParseError>)
    ensures
        match decoded {
            Err(m) => res == Err::<BridgePayload, HttpRequestParseError>(
                HttpRequestParseError::InvalidJson(m),
            ),
            Ok(p) => {
                &&& res is Ok <==> p.accepted(session.request_id@, config.max_timing_records)
                &&& res matches Ok(q) ==> q == p
                &&& res matches Err(e) ==> e matches HttpRequestParseError::Protocol(pe)
                    && p.rejected_with(pe, session.request_id@, config.max_timing_records)
            },
        },
{
    match decoded {
        Err(m) => Err(HttpRequestParseError::InvalidJson(m)),
        Ok(payload) => {
            match payload.validate_with_limits(
                session.request_id.as_str(),
                config.max_timing_records,
            ) {
                Ok(()) => Ok(payload),
                Err(e) => Err(HttpRequestParseError::Protocol(e)),
            }
        },
    }
}

/// Accepts one bridge request: a `POST /v1/result` with the session's bearer
/// token, a body within the size limit that decoded (`decoded`) into a
/// payload, holds no credential-like field, and passes validation against
/// the session.
pub fn parse_bridge_request(
    request: &HttpRequestParts,
    session: &BridgeSession,
    config: &TransportConfig,
    decoded: Result<BridgePayload, String>,
) -> (res: Result<BridgePayload, HttpRequestParseError>)
    ensures
        match envelope_error(*request, *session, *config) {
            Some(e) => res == Err::<BridgePayload, HttpRequestParseError>(e),
            None => match decoded {
                Err(m) => res == Err::<BridgePayload, HttpRequestParseError>(
                    HttpRequestParseError::InvalidJson(m),
                ),
                Ok(p) => match body_credential(request.body@) {
                    Some(k) => res matches Err(HttpRequestParseError::CredentialField(x)) && x@
                        == k,
                    None => {
                        &&& res is Ok <==> p.accepted(
                            session.request_id@,
                            config.max_timing_records,
                        )
                        &&& res matches Ok(q) ==> q == p
                        &&& res matches Err(e) ==> e matches HttpRequestParseError::Protocol(pe)
                            && p.rejected_with(pe, session.request_id@, config.max_timing_records)
                    },
                },
            },
        },
{
    match check_bridge_request(request, session, config) {
        Err(e) => {
            return Err(e);
        },
        Ok(()) => {},
    }
    if decoded.is_ok() {
        match body_credential_field(request.body.as_slice()) {
            Some(k) => {
                return Err(HttpRequestParseError::CredentialField(k));
            },
            None => {},
        }
    }
    accept_bridge_payload(decoded, session, config)
}

/// Only an authenticated `POST` to the result endpoint, with a body within
/// the size limit that carries a payload for this session's request id
/// and no credential-like field, gets through the checks.
pub proof fn law_accepted_requests_are_authentic(
    request: HttpRequestParts,
    session: BridgeSession,
    config: TransportConfig,
    payload: BridgePayload,
)
    requires
        envelope_error(request, session, config) is None,
        body_credential(request.body@) is None,
        payload.accepted(session.request_id@, config.max_timing_records),
    ensures
        request.method@ == "POST"@,
        request.path@ == RESULT_ENDPOINT@,
        request.authorization matches Some(a) && a@ == BEARER_PREFIX@ + session.bearer_token@,
        request.body.len() <= max_body_bytes_of(config.max_body_mb),
        payload.request_id@ == session.request_id@,
        0 < payload.timings.len() <= config.max_timing_records,
{
}

/// How a rejected request is reported by the transport.
pub fn transport_error_from_parse(err: HttpRequestParseError) -> (res: BridgeTransportError)
    ensures
        match err {
            HttpRequestParseError::Protocol(p) => res == BridgeTransportError::Protocol(p),
            _ => res matches BridgeTransportError::RequestRejected(m) && m@ == parse_error_message(
                err,
            ),
        },
{
    match err {
        HttpRequestParseError::Protocol(p) => BridgeTransportError::Protocol(p),
        other => BridgeTransportError::RequestRejected(other.message()),
    }
}

/// A transport may only be bound to `127.0.0.1`.
pub fn check_bind_host(config: &TransportConfig) -> (res: Result<(), BridgeTransportError>)
    ensures
        res is Ok <==> config.host@ == LOCALHOST@,
        res matches Err(e) ==> e matches BridgeTransportError::BindFailed(m) && m@
            == "HTTP bridge transport only binds to 127.0.0.1"@,
{
    if str_eq(config.host.as_str(), LOCALHOST) {
        Ok(())
    } else {
        Err(BridgeTransportError::BindFailed(to_string("HTTP bridge transport only binds to 127.0.0.1")))
    }
}

// ---------------------------------------------------------------------
// Assembling a request from the bytes of a connection
// ---------------------------------------------------------------------

/// What `String::from_utf8_lossy` makes of `bytes`.
pub uninterp spec fn utf8_lossy(bytes: Seq<u8>) -> Seq<char>;

pub open spec fn ascii_chars(bytes: Seq<u8>) -> Seq<char> {
    bytes.map_values(|b: u8| b as char)
}

/// Calls `String::from_utf8_lossy`. The contract names its result and
/// claims no more than what its documentation gives: bytes that are all
/// ASCII decode to the same characters.
#[verifier::external_body]
pub(crate) fn decode_utf8_lossy(bytes: &[u8]) -> (res: String)
    ensures
        res@ == utf8_lossy(bytes@),
        (forall|i: int| 0 <= i < bytes@.len() ==> bytes@[i] < 128) ==> res@ == ascii_chars(bytes@),
{
    String::from_utf8_lossy(bytes).into_owned()
}

/// `\r\n\r\n` starts at position `i` of `b`.
pub open spec fn is_header_end_at(b: Seq<u8>, i: int) -> bool {
    0 <= i && i + 4 <= b.len() && b[i] == 13 && b[i + 1] == 10 && b[i + 2] == 13 && b[i + 3] == 10
}

pub open spec fn header_end_from(b: Seq<u8>, k: nat) -> Option<int>
    decreases b.len() + 1 - k,
{
    if k + 4 > b.len() {
        None
    } else if is_header_end_at(b, k as int) {
        Some(k as int)
    } else {
        header_end_from(b, k + 1)
    }
}

/// Where the first `\r\n\r\n` of `b` starts.
pub open spec fn header_end(b: Seq<u8>) -> Option<int> {
    header_end_from(b, 0)
}

pub fn find_header_end(buffer: &[u8]) -> (res: Option<usize>)
    ensures
        match res {
            Some(i) => header_end(buffer@) == Some(i as int),
            None => header_end(buffer@) is None,
        },
{
    let mut i: usize = 0;
    while i < buffer.len() && buffer.len() - i >= 4
        invariant
            header_end(buffer@) == header_end_from(buffer@, i as nat),
        decreases buffer.len() - i,
    {
        if buffer[i] == 13 && buffer[i + 1] == 10 && buffer[i + 2] == 13 && buffer[i + 3] == 10 {
            return Some(i);
        }
        i = i + 1;
    }
    None
}

/// The trimmed value of the first line `name: value` whose name equals
/// `name` up to ASCII case.
pub open spec fn header_value(ls: Seq<Seq<char>>, name: Seq<char>) -> Option<Seq<char>>
    decreases ls.len(),
{
    if ls.len() == 0 {
        None
    } else {
        match split_once(ls[0], ':') {
            Some(pair) => if eq_ignore_ascii_case(pair.0, name) {
                Some(trim(pair.1))
            } else {
                header_value(ls.drop_first(), name)
            },
            None => header_value(ls.drop_first(), name),
        }
    }
}

fn find_header_value(ls: &Vec<Vec<char>>, from: usize, name: &[char]) -> (res: Option<Vec<char>>)
    requires
        from <= ls.len(),
    ensures
        match res {
            Some(v) => header_value(views_of(ls@).skip(from as int), name@) == Some(v@),
            None => header_value(views_of(ls@).skip(from as int), name@) is None,
        },
{
    let mut i = from;
    while i < ls.len()
        invariant
            from <= i <= ls.len(),
            header_value(views_of(ls@).skip(from as int), name@) == header_value(
                views_of(ls@).skip(i as int),
                name@,
            ),
        decreases ls.len() - i,
    {
        let ghost rest = views_of(ls@).skip(i as int);
        assert(rest.drop_first() =~= views_of(ls@).skip(i + 1));
        assert(rest[0] == ls@[i as int]@);
        match split_once_chars(ls[i].as_slice(), ':') {
            Some((n, v)) => {
                if eq_ignore_ascii_case_chars(n.as_slice(), name) {
                    return Some(trim_chars(v.as_slice()));
                }
            },
            None => {},
        }
        i = i + 1;
    }
    assert(views_of(ls@).skip(i as int).len() == 0);
    None
}

/// The value of the `Content-Length` header (0 when there is none), if it
/// parses as a `usize`.
pub open spec fn content_length_of(h: Seq<char>) -> Option<usize> {
    match header_value(lines(h), "content-length"@) {
        Some(v) => parse_usize(v),
        None => Some(0),
    }
}

pub open spec fn rejected_with_text(
    res: Result<HttpRequestParts, BridgeTransportError>,
    m: Seq<char>,
) -> bool {
    res matches Err(BridgeTransportError::RequestRejected(x)) && x@ == m
}

/// The parts of a request with header block `h` and body `body`: the method
/// and path are the first two words of the request line, the authorization
/// is the first `Authorization` header after it.
pub open spec fn parts_outcome(
    h: Seq<char>,
    body: Seq<u8>,
    res: Result<HttpRequestParts, BridgeTransportError>,
) -> bool {
    let ls = lines(h);
    if ls.len() == 0 {
        rejected_with_text(res, "missing HTTP request line"@)
    } else if words(ls[0]).len() == 0 {
        rejected_with_text(res, "missing HTTP method"@)
    } else if words(ls[0]).len() == 1 {
        rejected_with_text(res, "missing HTTP path"@)
    } else {
        res matches Ok(p) && p.method@ == words(ls[0])[0] && p.path@ == words(ls[0])[1] && opt_view(
            p.authorization,
        ) == header_value(ls.drop_first(), "authorization"@) && p.body@ == body
    }
}

fn rejected(m: &str) -> (res: Result<HttpRequestParts, BridgeTransportError>)
    ensures
        rejected_with_text(res, m@),
{
    Err(BridgeTransportError::RequestRejected(to_string(m)))
}

/// Splits a header block into the parts of a request.
pub fn request_parts_from_headers(headers: &[char], body: Vec<u8>) -> (res: Result<
    HttpRequestParts,
    BridgeTransportError,
>)
    ensures
        parts_outcome(headers@, body@, res),
{
    let ls = lines_of(headers);
    if ls.len() == 0 {
        return rejected("missing HTTP request line");
    }
    assert(views_of(ls@)[0] == ls@[0]@);
    let ws = words_of(ls[0].as_slice());
    if ws.len() == 0 {
        return rejected("missing HTTP method");
    }
    if ws.len() == 1 {
        return rejected("missing HTTP path");
    }
    assert(views_of(ws@)[0] == ws@[0]@);
    assert(views_of(ws@)[1] == ws@[1]@);
    let name = chars_of("authorization");
    let authorization = match find_header_value(&ls, 1, name.as_slice()) {
        Some(v) => Some(string_from_chars(v.as_slice())),
        None => None,
    };
    assert(views_of(ls@).skip(1) =~= views_of(ls@).drop_first());
    Ok(
        HttpRequestParts {
            method: string_from_chars(ws[0].as_slice()),
            path: string_from_chars(ws[1].as_slice()),
            authorization,
            body,
        },
    )
}

/// The value of the `Content-Length` header of a header block.
pub fn content_length(headers: &[char]) -> (res: Result<usize, BridgeTransportError>)
    ensures
        match content_length_of(headers@) {
            Some(n) => res == Ok::<usize, BridgeTransportError>(n),
            None => res matches Err(BridgeTransportError::RequestRejected(m)) && m@
                == "invalid content-length header"@,
        },
{
    let ls = lines_of(headers);
    let name = chars_of("content-length");
    assert(views_of(ls@).skip(0) =~= views_of(ls@));
    let value = match find_header_value(&ls, 0, name.as_slice()) {
        Some(v) => v,
        None => {
            return Ok(0);
        },
    };
    match parse_usize_chars(value.as_slice()) {
        Some(n) => Ok(n),
        None => Err(BridgeTransportError::RequestRejected(to_string("invalid content-length header"))),
    }
}

pub enum ReadPhase {
    /// The header block has not ended yet.
    Headers,
    /// The headers are read; the body spans `body_start..body_start + content_length`.
    Body { body_start: usize, content_length: usize, headers: Vec<char> },
}

/// What reading one more piece of a connection led to.
#[derive(Debug, PartialEq)]
pub enum ReadStep {
    NeedMore,
    Finished(Result<HttpRequestParts, BridgeTransportError>),
}

/// Assembles one request from the bytes read from a connection.
pub struct HttpRequestReader {
    buffer: Vec<u8>,
    phase: ReadPhase,
    max_body_bytes: usize,
    max_request_bytes: usize,
}

pub open spec fn finished_rejected(res: ReadStep, m: Seq<char>) -> bool {
    res matches ReadStep::Finished(r) && rejected_with_text(r, m)
}

/// What reading `b` (all bytes so far) leads to while the header block is
/// still being read.
pub open spec fn header_step(
    b: Seq<u8>,
    max_body: usize,
    max_request: usize,
    res: ReadStep,
    still_headers: bool,
    body_start: usize,
    content_length: usize,
    headers: Seq<char>,
) -> bool {
    if b.len() > max_request {
        finished_rejected(res, "request exceeds configured body limit"@)
    } else {
        match header_end(b) {
            None => res is NeedMore && still_headers,
            Some(he) => {
                let h = utf8_lossy(b.take(he));
                match content_length_of(h) {
                    None => finished_rejected(res, "invalid content-length header"@),
                    Some(cl) => if cl > max_body {
                        finished_rejected(
                            res,
                            parse_error_message(
                                HttpRequestParseError::BodyTooLarge { actual: cl, max: max_body },
                            ),
                        )
                    } else if b.len() >= he + 4 + cl {
                        res matches ReadStep::Finished(r) && parts_outcome(
                            h,
                            b.subrange(he + 4, he + 4 + cl),
                            r,
                        )
                    } else {
                        &&& res is NeedMore
                        &&& !still_headers
                        &&& body_start == he + 4 && content_length == cl && headers == h
                    },
                }
            },
        }
    }
}

/// What reading `b` leads to once the headers are known.
pub open spec fn body_step(
    b: Seq<u8>,
    body_start: usize,
    content_length: usize,
    headers: Seq<char>,
    res: ReadStep,
) -> bool {
    if b.len() >= body_start + content_length {
        res matches ReadStep::Finished(r) && parts_outcome(
            headers,
            b.subrange(body_start as int, body_start + content_length),
            r,
        )
    } else {
        res is NeedMore
    }
}

impl HttpRequestReader {
    /// A body awaited by the reader is within its size limit.
    pub closed spec fn well_formed(&self) -> bool {
        match self.phase {
            ReadPhase::Body { content_length, .. } => content_length <= self.max_body_bytes,
            ReadPhase::Headers => true,
        }
    }

    pub closed spec fn buffered(&self) -> Seq<u8> {
        self.buffer@
    }

    pub closed spec fn reading_headers(&self) -> bool {
        self.phase is Headers
    }

    pub closed spec fn spec_max_body_bytes(&self) -> usize {
        self.max_body_bytes
    }

    pub closed spec fn spec_max_request_bytes(&self) -> usize {
        self.max_request_bytes
    }

    pub closed spec fn body_start(&self) -> usize {
        self.phase->body_start
    }

    pub closed spec fn content_length(&self) -> usize {
        self.phase->content_length
    }

    pub closed spec fn headers(&self) -> Seq<char> {
        self.phase->headers@
    }

    /// A reader for a transport with `config`: bodies up to the configured
    /// size, requests up to that plus one read chunk.
    pub fn new(config: &TransportConfig) -> (res: Self)
        ensures
            res.buffered() == Seq::<u8>::empty(),
            res.reading_headers(),
            res.well_formed(),
            res.spec_max_body_bytes() == max_body_bytes_of(config.max_body_mb),
            res.spec_max_request_bytes() == (if max_body_bytes_of(config.max_body_mb)
                + READ_CHUNK_BYTES > usize::MAX {
                usize::MAX as int
            } else {
                max_body_bytes_of(config.max_body_mb) + READ_CHUNK_BYTES
            }),
    {
        let max_body = max_body_bytes(config);
        let max_request = match max_body.checked_add(READ_CHUNK_BYTES) {
            Some(v) => v,
            None => usize::MAX,
        };
        HttpRequestReader {
            buffer: Vec::new(),
            phase: ReadPhase::Headers,
            max_body_bytes: max_body,
            max_request_bytes: max_request,
        }
    }

    /// Takes the next bytes read from the connection (a read that returned
    /// at least one byte).
    pub fn push(&mut self, chunk: &[u8]) -> (res: ReadStep)
        ensures
            final(self).buffered() == old(self).buffered() + chunk@,
            final(self).spec_max_body_bytes() == old(self).spec_max_body_bytes(),
            final(self).spec_max_request_bytes() == old(self).spec_max_request_bytes(),
            old(self).reading_headers() ==> header_step(
                final(self).buffered(),
                old(self).spec_max_body_bytes(),
                old(self).spec_max_request_bytes(),
                res,
                final(self).reading_headers(),
                final(self).body_start(),
                final(self).content_length(),
                final(self).headers(),
            ),
            !old(self).reading_headers() ==> body_step(
                final(self).buffered(),
                old(self).body_start(),
                old(self).content_length(),
                old(self).headers(),
                res,
            ),
            !old(self).reading_headers() && res is NeedMore ==> !final(self).reading_headers()
                && final(self).body_start() == old(self).body_start() && final(self).content_length()
                == old(self).content_length() && final(self).headers() == old(self).headers(),
            old(self).well_formed() ==> final(self).well_formed(),
            old(self).well_formed() ==> (res matches ReadStep::Finished(Ok(p)) ==> p.body.len()
                <= old(self).spec_max_body_bytes()),
    {
        let mut i: usize = 0;
        while i < chunk.len()
            invariant
                i <= chunk.len(),
                self.buffer@ == old(self).buffer@ + chunk@.take(i as int),
                self.phase == old(self).phase,
                self.max_body_bytes == old(self).max_body_bytes,
                self.max_request_bytes == old(self).max_request_bytes,
            decreases chunk.len() - i,
        {
            self.buffer.push(chunk[i]);
            i = i + 1;
            assert(self.buffer@ =~= old(self).buffer@ + chunk@.take(i as int));
        }
        assert(chunk@.take(chunk.len() as int) =~= chunk@);
        match &self.phase {
            ReadPhase::Headers => self.step_headers(),
            ReadPhase::Body { body_start, content_length, headers } => {
                let bs = *body_start;
                let cl = *content_length;
                match bs.checked_add(cl) {
                    Some(end) => {
                        if self.buffer.len() >= end {
                            let body = crate::text::copy_bytes(self.buffer.as_slice(), bs, end);
                            ReadStep::Finished(request_parts_from_headers(headers.as_slice(), body))
                        } else {
                            ReadStep::NeedMore
                        }
                    },
                    None => {
                        assert(self.buffer@.len() == self.buffer.len());
                        ReadStep::NeedMore
                    },
                }
            },
        }
    }

    fn step_headers(&mut self) -> (res: ReadStep)
        requires
            old(self).phase is Headers,
        ensures
            final(self).buffer@ == old(self).buffer@,
            final(self).max_body_bytes == old(self).max_body_bytes,
            final(self).max_request_bytes == old(self).max_request_bytes,
            header_step(
                old(self).buffer@,
                old(self).max_body_bytes,
                old(self).max_request_bytes,
                res,
                final(self).phase is Headers,
                final(self).phase->body_start,
                final(self).phase->content_length,
                final(self).phase->headers@,
            ),
            res matches ReadStep::Finished(Ok(p)) ==> p.body.len() <= old(self).max_body_bytes,
            final(self).well_formed(),
    {
        if self.buffer.len() > self.max_request_bytes {
            return ReadStep::Finished(rejected("request exceeds configured body limit"));
        }
        let he = match find_header_end(self.buffer.as_slice()) {
            Some(he) => he,
            None => {
                return ReadStep::NeedMore;
            },
        };
        assert(is_header_end_at(self.buffer@, he as int)) by {
            lemma_header_end_from(self.buffer@, 0);
        }
        let head = crate::text::copy_bytes(self.buffer.as_slice(), 0, he);
        assert(head@ =~= self.buffer@.take(he as int));
        let text = decode_utf8_lossy(head.as_slice());
        let h = chars_of(text.as_str());
        let cl = match content_length(h.as_slice()) {
            Ok(cl) => cl,
            Err(e) => {
                return ReadStep::Finished(Err(e));
            },
        };
        if cl > self.max_body_bytes {
            let err = HttpRequestParseError::BodyTooLarge { actual: cl, max: self.max_body_bytes };
            return ReadStep::Finished(Err(BridgeTransportError::RequestRejected(err.message())));
        }
        let body_start = he + 4;
        match body_start.checked_add(cl) {
            Some(end) => {
                if self.buffer.len() >= end {
                    let body = crate::text::copy_bytes(self.buffer.as_slice(), body_start, end);
                    return ReadStep::Finished(request_parts_from_headers(h.as_slice(), body));
                }
            },
            None => {},
        }
        self.phase = ReadPhase::Body { body_start, content_length: cl, headers: h };
        ReadStep::NeedMore
    }

    /// The connection ended (a read returned no bytes) before the request
    /// was complete.
    pub fn end_of_stream(&self) -> (res: Result<HttpRequestParts, BridgeTransportError>)
        ensures
            self.reading_headers() ==> rejected_with_text(
                res,
                "request did not include complete HTTP headers"@,
            ),
            !self.reading_headers() ==> rejected_with_text(
                res,
                "request body ended before content-length was satisfied"@,
            ),
    {
        match &self.phase {
            ReadPhase::Headers => rejected("request did not include complete HTTP headers"),
            ReadPhase::Body { .. } => rejected(
                "request body ended before content-length was satisfied",
            ),
        }
    }
}

proof fn lemma_header_end_from(b: Seq<u8>, k: nat)
    ensures
        header_end_from(b, k) matches Some(i) ==> k <= i && is_header_end_at(b, i),
    decreases b.len() + 1 - k,
{
    if k + 4 <= b.len() && !is_header_end_at(b, k as int) {
        lemma_header_end_from(b, k + 1);
    }
}

// ---------------------------------------------------------------------
// Waiting for the connection, and answering it
// ---------------------------------------------------------------------

/// What one attempt to accept a connection returned.
#[derive(Debug, PartialEq)]
pub enum AcceptOutcome {
    Accepted,
    WouldBlock,
    Failed(String),
}

/// What the transport does next while it waits for its one connection.
#[derive(Debug, PartialEq)]
pub enum PollAction {
    HandleConnection,
    Sleep,
    Stop(BridgeTransportError),
}

/// Handles an accepted connection at once; keeps polling until the
/// deadline has passed, then gives up with `Timeout`; stops on any other
/// accept failure.
pub fn next_poll_action(outcome: AcceptOutcome, deadline_passed: bool) -> (res: PollAction)
    ensures
        match outcome {
            AcceptOutcome::Accepted => res is HandleConnection,
            AcceptOutcome::WouldBlock => if deadline_passed {
                res == PollAction::Stop(BridgeTransportError::Timeout)
            } else {
                res is Sleep
            },
            AcceptOutcome::Failed(m) => res == PollAction::Stop(BridgeTransportError::Io(m)),
        },
{
    match outcome {
        AcceptOutcome::Accepted => PollAction::HandleConnection,
        AcceptOutcome::WouldBlock => if deadline_passed {
            PollAction::Stop(BridgeTransportError::Timeout)
        } else {
            PollAction::Sleep
        },
        AcceptOutcome::Failed(m) => PollAction::Stop(BridgeTransportError::Io(m)),
    }
}

/// The status line and body that answer a request with `result`.
pub open spec fn response_parts(result: Result<BridgePayload, BridgeTransportError>) -> (
    &'static str,
    &'static str,
) {
    match result {
        Ok(_) => ("200 OK", "ok"),
        Err(BridgeTransportError::Timeout) => ("408 Request Timeout", "timeout"),
        Err(BridgeTransportError::Protocol(_)) => ("400 Bad Request", "bad request"),
        Err(BridgeTransportError::RequestRejected(_)) => ("400 Bad Request", "bad request"),
        Err(BridgeTransportError::BindFailed(_)) => ("500 Internal Server Error", "internal error"),
        Err(BridgeTransportError::Io(_)) => ("500 Internal Server Error", "internal error"),
    }
}

pub fn response_status(result: &Result<BridgePayload, BridgeTransportError>) -> (res: (
    &'static str,
    &'static str,
))
    ensures
        res == response_parts(*result),
{
    match result {
        Ok(_) => ("200 OK", "ok"),
        Err(BridgeTransportError::Timeout) => ("408 Request Timeout", "timeout"),
        Err(BridgeTransportError::Protocol(_)) => ("400 Bad Request", "bad request"),
        Err(BridgeTransportError::RequestRejected(_)) => ("400 Bad Request", "bad request"),
        Err(BridgeTransportError::BindFailed(_)) => ("500 Internal Server Error", "internal error"),
        Err(BridgeTransportError::Io(_)) => ("500 Internal Server Error", "internal error"),
    }
}

/// An accepted payload is answered `200 OK`, a rejected request `400 Bad
/// Request`, a request that never came `408 Request Timeout`.
pub proof fn law_answer_status(result: Result<BridgePayload, BridgeTransportError>)
    ensures
        (response_parts(result).0 == "200 OK") <==> result is Ok,
        result matches Err(BridgeTransportError::RequestRejected(_)) ==> response_parts(result).0
            == "400 Bad Request",
        result matches Err(BridgeTransportError::Protocol(_)) ==> response_parts(result).0
            == "400 Bad Request",
        result matches Err(BridgeTransportError::Timeout) ==> response_parts(result).0
            == "408 Request Timeout",
{
    reveal_strlit("200 OK");
    reveal_strlit("408 Request Timeout");
    reveal_strlit("400 Bad Request");
    reveal_strlit("500 Internal Server Error");
}

/// The HTTP response with `status` and `body`, which closes the connection.
pub open spec fn response_text(status: Seq<char>, body: Seq<char>) -> Seq<char> {
    "HTTP/1.1 "@ + status + "\r\nContent-Length: "@ + decimal(body.len()) + "\r\nConnection: close\r\n\r\n"@
        + body
}

/// The response that answers a request with `result` (its bodies are
/// ASCII, so their length in characters is their length in bytes).
pub fn render_response(result: &Result<BridgePayload, BridgeTransportError>) -> (res: String)
    ensures
        res@ == response_text(response_parts(*result).0@, response_parts(*result).1@),
{
    let (status, body) = response_status(result);
    let b = chars_of(body);
    let mut out: Vec<char> = Vec::new();
    append_str(&mut out, "HTTP/1.1 ");
    append_str(&mut out, status);
    append_str(&mut out, "\r\nContent-Length: ");
    append_chars(&mut out, decimal_chars(b.len()).as_slice());
    append_str(&mut out, "\r\nConnection: close\r\n\r\n");
    append_chars(&mut out, b.as_slice());
    string_from_chars(out.as_slice())
}

} // verus!
