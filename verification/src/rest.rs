//! REST client core: request building, response interpretation, and
//! webhook URL parsing.
//!
//! Everything here is byte-level computation; the transport that carries
//! the built request and brings back the response lives outside.

use vstd::prelude::*;
use vstd::string::StrSliceExecFns;
use vstd::string::StringSliceAdditionalSpecFns;
use crate::codec;
use crate::ids::WebhookId;

verus! {

/// A webhook URL could not be read.
#[derive(Clone, Copy, Debug, PartialEq, Eq, Structural)]
pub enum UrlError {
    /// The URL itself does not parse.
    UrlInvalid,
    /// A required path segment is missing.
    SegmentMissing,
    /// The id segment is not a number.
    IdInvalid,
}

/// The path segments of a URL, as byte strings, when the URL parses and
/// has a segmented path.  A pure function of the URL text.
pub uninterp spec fn url_path_segments_of(s: Seq<char>) -> Option<Seq<Seq<u8>>>;

/// Relies on url::Url::parse and url::Url::path_segments: a URL's path
/// segments are a function of the URL text alone; `None` when the text
/// is not a URL or its path cannot be split into segments.
#[verifier::external_body]
fn parse_url_segments(s: &str) -> (r: Option<Vec<Vec<u8>>>)
    ensures
        match r {
            Some(v) => url_path_segments_of(s@) matches Some(ss) && v@.len() == ss.len() && (
            forall|i: int| 0 <= i < ss.len() ==> #[trigger] v@[i]@ == ss[i]),
            None => url_path_segments_of(s@) is None,
        },
{
    match url::Url::parse(s) {
        Ok(u) => match u.path_segments() {
            Some(segments) => Some(segments.map(|seg| seg.as_bytes().to_vec()).collect()),
            None => None,
        },
        Err(_) => None,
    }
}

/// What a run of path segments holds as webhook coordinates: the segments
/// must start `api / webhooks / <id>`, and a fourth segment is the token.
pub open spec fn spec_webhook_parts(segs: Seq<Seq<u8>>) -> Result<
    (u64, Option<Seq<u8>>),
    UrlError,
> {
    if segs.len() < 1 || segs[0] != seq![97u8, 112u8, 105u8] {
        Err(UrlError::SegmentMissing)
    } else if segs.len() < 2 || segs[1] != seq![
        119u8,
        101u8,
        98u8,
        104u8,
        111u8,
        111u8,
        107u8,
        115u8,
    ] {
        Err(UrlError::SegmentMissing)
    } else if segs.len() < 3 {
        Err(UrlError::SegmentMissing)
    } else {
        match codec::spec_u64_value(segs[2], 0, segs[2].len() as int) {
            Some(id) => Ok(
                (
                    id,
                    if segs.len() >= 4 {
                        Some(segs[3])
                    } else {
                        None
                    },
                ),
            ),
            None => Err(UrlError::IdInvalid),
        }
    }
}

/// Read the webhook id and token out of already-split path segments.
pub fn webhook_from_segments(segs: &Vec<Vec<u8>>) -> (r: Result<
    (WebhookId, Option<Vec<u8>>),
    UrlError,
>)
    ensures
        match r {
            Ok((id, token)) => spec_webhook_parts(spec_seg_views(segs@)) matches Ok(parts)
                && parts.0 == id.0 && (match token {
                Some(t) => parts.1 == Some(t@),
                None => parts.1 is None,
            }),
            Err(e) => spec_webhook_parts(spec_seg_views(segs@)) == Err::<
                (u64, Option<Seq<u8>>),
                UrlError,
            >(e),
        },
{
    let ghost views = spec_seg_views(segs@);
    let api = ("api").as_bytes_vec();
    let webhooks = ("webhooks").as_bytes_vec();
    proof {
        reveal_strlit("api");
        reveal_strlit("webhooks");
        assert(("api")@ =~= seq!['a', 'p', 'i']);
        assert(("webhooks")@ =~= seq!['w', 'e', 'b', 'h', 'o', 'o', 'k', 's']);
        assert(vstd::string::is_ascii("api"));
        assert(vstd::string::is_ascii("webhooks"));
        vstd::string::is_ascii_spec_bytes("api");
        vstd::string::is_ascii_spec_bytes("webhooks");
        assert(api@ =~= seq![97u8, 112u8, 105u8]);
        assert(webhooks@ =~= seq![119u8, 101u8, 98u8, 104u8, 111u8, 111u8, 107u8, 115u8]);
    }
    if segs.len() < 1 || !codec::range_eq(&segs[0], 0, segs[0].len(), &api) {
        proof {
            if segs@.len() >= 1 {
                assert(segs@[0]@.subrange(0, segs@[0]@.len() as int) =~= views[0]);
            }
        }
        return Err(UrlError::SegmentMissing);
    }
    proof {
        assert(segs@[0]@.subrange(0, segs@[0]@.len() as int) =~= views[0]);
    }
    if segs.len() < 2 || !codec::range_eq(&segs[1], 0, segs[1].len(), &webhooks) {
        proof {
            if segs@.len() >= 2 {
                assert(segs@[1]@.subrange(0, segs@[1]@.len() as int) =~= views[1]);
            }
        }
        return Err(UrlError::SegmentMissing);
    }
    proof {
        assert(segs@[1]@.subrange(0, segs@[1]@.len() as int) =~= views[1]);
    }
    if segs.len() < 3 {
        return Err(UrlError::SegmentMissing);
    }
    let id_seg = &segs[2];
    match codec::u64_value(id_seg, 0, id_seg.len()) {
        Some(id) => {
            if segs.len() >= 4 {
                let tok = &segs[3];
                Ok((WebhookId(id), Some(codec::copy_range(tok, 0, tok.len()))))
            } else {
                Ok((WebhookId(id), None))
            }
        },
        None => Err(UrlError::IdInvalid),
    }
}

/// The views of split path segments.
pub open spec fn spec_seg_views(s: Seq<Vec<u8>>) -> Seq<Seq<u8>> {
    s.map_values(|v: Vec<u8>| v@)
}

/// Parse the webhook id and token, if it exists in the string: the URL's
/// path must run `api / webhooks / <id> [/ <token> [/ ...]]`.
pub fn parse_webhook_url(url: &str) -> (r: Result<(WebhookId, Option<Vec<u8>>), UrlError>)
    ensures
        match url_path_segments_of(url@) {
            Some(ss) => match r {
                Ok((id, token)) => spec_webhook_parts(ss) matches Ok(parts) && parts.0 == id.0
                    && (match token {
                    Some(t) => parts.1 == Some(t@),
                    None => parts.1 is None,
                }),
                Err(e) => e != (UrlError::UrlInvalid) && spec_webhook_parts(ss) == Err::<
                    (u64, Option<Seq<u8>>),
                    UrlError,
                >(e),
            },
            None => r == Err::<(WebhookId, Option<Vec<u8>>), UrlError>(UrlError::UrlInvalid),
        },
{
    let segs = match parse_url_segments(url) {
        Some(s) => s,
        None => {
            return Err(UrlError::UrlInvalid);
        },
    };
    proof {
        let ss = (match url_path_segments_of(url@) {
            Some(ss) => ss,
            None => Seq::<Seq<u8>>::empty(),
        });
        assert(spec_seg_views(segs@) =~= ss);
    }
    match webhook_from_segments(&segs) {
        Ok(p) => Ok(p),
        Err(e) => {
            proof {
                assert(e != (UrlError::UrlInvalid));
            }
            Err(e)
        },
    }
}

/// An HTTP method.
#[derive(Clone, Copy, Debug, PartialEq, Eq, Structural, Hash)]
pub enum Method {
    Delete,
    Get,
    Patch,
    Post,
    Put,
}

/// A request to perform: the method, the route key the limiter buckets
/// it under, the materialized path, the body and extra headers.
#[derive(Clone, Debug, PartialEq, Eq)]
pub struct Request {
    pub method: Method,
    /// The route key: method + path template + major parameters.
    pub route_key: Vec<u8>,
    /// The materialized path under the API base.
    pub path: Vec<u8>,
    /// The JSON body, when one is carried.
    pub body: Option<Vec<u8>>,
    /// Whether the body goes out as multipart form data instead.
    pub multipart: bool,
    /// Extra headers, appended after the standard ones.
    pub headers: Vec<(Vec<u8>, Vec<u8>)>,
}

/// Client configuration the request builder needs.
#[derive(Clone, Debug, PartialEq, Eq)]
pub struct ClientConfig {
    /// The authorization header value, when the client authenticates.
    pub token: Option<Vec<u8>>,
    /// Plain HTTP instead of TLS, for debugging proxies.
    pub use_http: bool,
}

impl ClientConfig {
    /// A client over TLS with the given authorization value.
    pub fn new(token: Vec<u8>) -> (r: ClientConfig)
        ensures
            r.token == Some(token),
            r.use_http == false,
    {
        ClientConfig { token: Some(token), use_http: false }
    }
}

/// A request laid out for the transport: the URL and every header.
#[derive(Clone, Debug, PartialEq, Eq)]
pub struct RequestParts {
    pub method: Method,
    pub url: Vec<u8>,
    pub headers: Vec<(Vec<u8>, Vec<u8>)>,
    pub body: Option<Vec<u8>>,
    pub multipart: bool,
}

/// The request failed.
#[derive(Clone, Debug, PartialEq, Eq)]
pub enum HttpError {
    /// A header value could not be constructed.
    CreatingHeader,
    /// The transport failed outright.
    RequestError,
    /// The request was canceled before its ticket was granted.
    RequestCanceled,
    /// The response body could not be read.
    ChunkingResponse,
    /// The response body could not be parsed.
    Parsing,
    /// The platform answered with an error status.
    Response { status: u16, code: Option<u64>, message: Option<Vec<u8>>, body: Vec<u8> },
}

/// A byte fit to stand in a header value: a tab or a visible character.
pub open spec fn spec_header_value_byte(b: u8) -> bool {
    b == 9 || (32 <= b && b != 127)
}

/// Every byte of `s` fits in a header value.
pub open spec fn spec_valid_header_value(s: Seq<u8>) -> bool {
    forall|i: int| 0 <= i < s.len() ==> spec_header_value_byte(#[trigger] s[i])
}

/// Executable twin of [`spec_valid_header_value`].
pub fn valid_header_value(s: &Vec<u8>) -> (r: bool)
    ensures
        r == spec_valid_header_value(s@),
{
    let mut k: usize = 0;
    while k < s.len()
        invariant
            k <= s@.len(),
            forall|i: int| 0 <= i < k ==> spec_header_value_byte(#[trigger] s@[i]),
        decreases s@.len() - k,
    {
        let b = s[k];
        if !(b == 9 || (32 <= b && b != 127)) {
            return false;
        }
        k += 1;
    }
    true
}

/// The scheme-and-base prefix of every request URL.
pub open spec fn spec_url_prefix(use_http: bool) -> Seq<u8> {
    if use_http {
        ("http://discord.com/api/v6/").spec_bytes()
    } else {
        ("https://discord.com/api/v6/").spec_bytes()
    }
}

/// Lay a request out for the transport: the URL under the API base and
/// the standard headers, in order — authorization when the client has a
/// token, the body headers unless the body is multipart, the rate-limit
/// precision and the user agent, then the request's own headers.
pub fn build_raw_request(cfg: &ClientConfig, req: &Request) -> (r: Result<RequestParts, HttpError>)
    ensures
        match r {
            Ok(parts) => {
                let na: int = if cfg.token is Some {
                    1
                } else {
                    0
                };
                let nb: int = if req.multipart {
                    0
                } else {
                    2
                };
                &&& parts.headers@.len() == na + nb + 2 + req.headers@.len()
                &&& (match cfg.token {
                    Some(t) => spec_valid_header_value(t@) && parts.headers@[0].0@ == (
                    "Authorization").spec_bytes() && parts.headers@[0].1@ == t@,
                    None => true,
                })
                &&& (!req.multipart ==> parts.headers@[na].0@ == ("content-length").spec_bytes()
                    && parts.headers@[na].1@ == codec::spec_u64_digits(
                    match req.body {
                        Some(b) => b@.len() as u64,
                        None => 0u64,
                    },
                ) && parts.headers@[na + 1].0@ == ("Content-Type").spec_bytes() && parts.headers@[
                    na + 1
                ].1@ == ("application/json").spec_bytes())
                &&& parts.headers@[na + nb].0@ == ("X-RateLimit-Precision").spec_bytes()
                &&& parts.headers@[na + nb].1@ == ("millisecond").spec_bytes()
                &&& parts.headers@[na + nb + 1].0@ == ("User-Agent").spec_bytes()
                &&& parts.headers@[na + nb + 1].1@ == (
                "DiscordBot (https://crates.io/crates/chat_gateway, 0.1.0)").spec_bytes()
                &&& (forall|i: int| 0 <= i < req.headers@.len() ==> (#[trigger] parts.headers@[na
                    + nb + 2 + i]).0@ == req.headers@[i].0@ && parts.headers@[na + nb + 2 + i].1@
                    == req.headers@[i].1@)
                &&& parts.url@ == spec_url_prefix(cfg.use_http) + req.path@
                &&& parts.method == req.method
                &&& parts.multipart == req.multipart
                &&& (match req.body {
                    Some(b) => parts.body matches Some(pb) && pb@ == b@,
                    None => parts.body is None,
                })
            },
            Err(e) => e == (HttpError::CreatingHeader) && (match cfg.token {
                Some(t) => !spec_valid_header_value(t@),
                None => false,
            }),
        },
{
    let mut headers: Vec<(Vec<u8>, Vec<u8>)> = Vec::new();
    match &cfg.token {
        Some(t) => {
            if !valid_header_value(t) {
                return Err(HttpError::CreatingHeader);
            }
            let auth_name = ("Authorization").as_bytes_vec();
            let auth_value = codec::copy_range(t, 0, t.len());
            proof {
                assert(auth_value@ =~= t@);
            }
            headers.push((auth_name, auth_value));
            proof {
                assert(headers@[0].0@ == ("Authorization").spec_bytes());
                assert(headers@[0].1@ == t@);
            }
        },
        None => {},
    }
    if !req.multipart {
        let len: u64 = match &req.body {
            Some(b) => b.len() as u64,
            None => 0,
        };
        headers.push((("content-length").as_bytes_vec(), codec::u64_to_digits(len)));
        headers.push(
            (("Content-Type").as_bytes_vec(), ("application/json").as_bytes_vec()),
        );
    }
    headers.push(
        (("X-RateLimit-Precision").as_bytes_vec(), ("millisecond").as_bytes_vec()),
    );
    headers.push(
        (
            ("User-Agent").as_bytes_vec(),
            ("DiscordBot (https://crates.io/crates/chat_gateway, 0.1.0)").as_bytes_vec(),
        ),
    );
    push_pairs(&mut headers, &req.headers);
    let prefix = if cfg.use_http {
        ("http://discord.com/api/v6/").as_bytes_vec()
    } else {
        ("https://discord.com/api/v6/").as_bytes_vec()
    };
    let mut url = prefix;
    codec::push_bytes(&mut url, &req.path);
    let body = match &req.body {
        Some(b) => {
            let copy = codec::copy_range(b, 0, b.len());
            proof {
                assert(copy@ =~= b@);
            }
            Some(copy)
        },
        None => None,
    };
    let parts = RequestParts {
        method: req.method,
        url,
        headers,
        body,
        multipart: req.multipart,
    };
    Ok(parts)
}

/// Append copies of header pairs, keeping what is already there.
fn push_pairs(dst: &mut Vec<(Vec<u8>, Vec<u8>)>, src: &Vec<(Vec<u8>, Vec<u8>)>)
    ensures
        final(dst)@.len() == old(dst)@.len() + src@.len(),
        forall|i: int| 0 <= i < old(dst)@.len() ==> final(dst)@[i] == old(dst)@[i],
        forall|i: int| 0 <= i < src@.len() ==> (#[trigger] final(dst)@[old(dst)@.len() + i]).0@
            == src@[i].0@ && final(dst)@[old(dst)@.len() + i].1@ == src@[i].1@,
{
    let ghost base = dst@;
    let mut k: usize = 0;
    while k < src.len()
        invariant
            k <= src@.len(),
            dst@.len() == base.len() + k,
            forall|i: int| 0 <= i < base.len() ==> dst@[i] == base[i],
            forall|i: int| 0 <= i < k ==> (#[trigger] dst@[base.len() + i]).0@ == src@[i].0@
                && dst@[base.len() + i].1@ == src@[i].1@,
        decreases src@.len() - k,
    {
        let (hn, hv) = &src[k];
        dst.push((codec::copy_range(hn, 0, hn.len()), codec::copy_range(hv, 0, hv.len())));
        k += 1;
    }
}

/// Success is exactly a status in the 2xx range.
pub open spec fn spec_status_success(status: u16) -> bool {
    200 <= status < 300
}

/// The `code` member of a platform error body, when the body is a JSON
/// object carrying a numeric one.
pub open spec fn spec_api_error_code(body: Seq<u8>) -> Option<u64> {
    let start = codec::spec_skip_ws(body, 0);
    if start < body.len() {
        match codec::spec_payload_field(body, start, body.len() as int, ("code").spec_bytes()) {
            Some((a, b)) => codec::spec_u64_value(body, a, b),
            None => None,
        }
    } else {
        None
    }
}

/// The `message` member of a platform error body, when the body is a
/// JSON object carrying a string one.
pub open spec fn spec_api_error_message(body: Seq<u8>) -> Option<Seq<u8>> {
    let start = codec::spec_skip_ws(body, 0);
    if start < body.len() {
        match codec::spec_payload_field(
            body,
            start,
            body.len() as int,
            ("message").spec_bytes(),
        ) {
            Some((a, b)) => codec::spec_string_value(body, a, b),
            None => None,
        }
    } else {
        None
    }
}

/// Interpret a response: a 2xx succeeds; anything else carries the
/// platform's error body, whose `code` and `message` members are read
/// out of the JSON when present.
pub fn interpret_response(status: u16, body: &Vec<u8>) -> (r: Result<(), HttpError>)
    ensures
        r is Ok <==> spec_status_success(status),
        match r {
            Ok(()) => true,
            Err(e) => e matches HttpError::Response {
                status: s,
                code,
                message,
                body: b,
            } && s == status && b@ == body@ && code == spec_api_error_code(body@) && (match message {
                Some(m) => spec_api_error_message(body@) == Some(m@),
                None => spec_api_error_message(body@) is None,
            }),
        },
{
    if 200 <= status && status < 300 {
        return Ok(());
    }
    let start = codec::skip_ws(body, 0);
    let code = if start < body.len() {
        let key = ("code").as_bytes_vec();
        match codec::payload_field(body, start, body.len(), &key) {
            Some((a, b)) => codec::u64_value(body, a, b),
            None => None,
        }
    } else {
        None
    };
    let message = if start < body.len() {
        let key = ("message").as_bytes_vec();
        match codec::payload_field(body, start, body.len(), &key) {
            Some((a, b)) => codec::string_value(body, a, b),
            None => None,
        }
    } else {
        None
    };
    Err(
        HttpError::Response {
            status,
            code,
            message,
            body: codec::copy_range(body, 0, body.len()),
        },
    )
}

/// A message-acknowledgement response.
#[derive(Clone, Debug, PartialEq, Eq)]
pub struct AckMessageToken {
    pub token: String,
}

} // verus!
