//! Outbound HTTP: the typed request builder, the per-request controls it
//! carries to the host, and the buffered response.
use vstd::prelude::*;
use vstd::string::StringSliceAdditionalSpecFns;
use crate::duration::{Duration, duration_to_ms, saturate_u64};
use crate::error::SysError;
use crate::json::{JsonValue, json_encode, json_parse};
use crate::text::{ascii_uppercase, chars_of, string_from_chars, to_ascii_uppercase, utf8_str};

verus! {

/// How the host treats a `3xx` redirect response.
#[derive(Debug, Clone, Copy, PartialEq, Eq)]
pub enum RedirectPolicy {
    /// Follow redirects (bounded by the redirect hop limit).
    Follow,
    /// Do not follow; fail with a `redirect-blocked` host error.
    Error,
    /// Do not follow; return the `3xx` response as-is.
    Manual,
}

/// Header names and values, each name at most once.
pub open spec fn headers_model(h: Seq<(String, String)>) -> Seq<(Seq<char>, Seq<char>)> {
    Seq::new(h.len(), |i: int| (h[i].0@, h[i].1@))
}

pub open spec fn keys_distinct(h: Seq<(Seq<char>, Seq<char>)>) -> bool {
    forall|i: int, j: int| 0 <= i < j < h.len() ==> #[trigger] h[i].0 != #[trigger] h[j].0
}

/// `h` with `key` set to `value`: an existing header of that name has its
/// value replaced in place, otherwise the header is added.
pub open spec fn header_set(h: Seq<(Seq<char>, Seq<char>)>, key: Seq<char>, value: Seq<char>) -> Seq<(Seq<char>, Seq<char>)> {
    if exists|i: int| 0 <= i < h.len() && #[trigger] h[i].0 == key {
        h.update(choose|i: int| 0 <= i < h.len() && #[trigger] h[i].0 == key, (key, value))
    } else {
        h.push((key, value))
    }
}

/// Set `key: value` in a header list whose names are distinct.
pub fn insert_header(headers: &mut Vec<(String, String)>, key: String, value: String)
    requires
        keys_distinct(headers_model(old(headers)@)),
    ensures
        headers_model(final(headers)@) == header_set(headers_model(old(headers)@), key@, value@),
        keys_distinct(headers_model(final(headers)@)),
{
    let ghost h0 = headers_model(headers@);
    let mut i: usize = 0;
    while i < headers.len()
        invariant
            *headers == *old(headers),
            h0 == headers_model(headers@),
            keys_distinct(h0),
            i <= headers.len(),
            forall|j: int| 0 <= j < i ==> h0[j].0 != key@,
        decreases headers.len() - i,
    {
        if headers[i].0 == key {
            let ghost ii = i as int;
            proof {
                assert(h0[ii].0 == key@);
                let c = choose|j: int| 0 <= j < h0.len() && #[trigger] h0[j].0 == key@;
                if c != ii {
                    if c < ii {
                        assert(h0[c].0 != key@);
                    } else {
                        assert(h0[ii].0 != h0[c].0);
                    }
                }
            }
            headers.set(i, (key, value));
            proof {
                assert(headers_model(headers@) =~= header_set(h0, key@, value@));
            }
            return;
        }
        i = i + 1;
    }
    headers.push((key, value));
    proof {
        assert(headers_model(headers@) =~= h0.push((key@, value@)));
        assert(!exists|j: int| 0 <= j < h0.len() && #[trigger] h0[j].0 == key@);
    }
}

/// The request as the SDK sees it.
pub struct RequestModel {
    pub url: Seq<char>,
    pub method: Seq<char>,
    pub headers: Seq<(Seq<char>, Seq<char>)>,
    pub body: Option<Seq<u8>>,
    pub connect_timeout: Option<Duration>,
    pub first_byte_timeout: Option<Duration>,
    pub read_timeout: Option<Duration>,
    pub total_timeout: Option<Duration>,
    pub redirect: Option<RedirectPolicy>,
    pub max_redirects: Option<u32>,
    pub max_response_bytes: Option<u64>,
    pub max_decompressed_bytes: Option<u64>,
    pub auto_decompress: Option<bool>,
    pub https_only: Option<bool>,
    pub integrity: Option<Seq<char>>,
}

/// An HTTP request. Every per-request control is optional; an unset
/// control selects the host default for that field.
#[derive(Debug)]
pub struct Request {
    url: String,
    method: String,
    headers: Vec<(String, String)>,
    body: Option<Vec<u8>>,
    connect_timeout: Option<Duration>,
    first_byte_timeout: Option<Duration>,
    read_timeout: Option<Duration>,
    total_timeout: Option<Duration>,
    redirect: Option<RedirectPolicy>,
    max_redirects: Option<u32>,
    max_response_bytes: Option<u64>,
    max_decompressed_bytes: Option<u64>,
    auto_decompress: Option<bool>,
    https_only: Option<bool>,
    integrity: Option<String>,
}

pub open spec fn opt_bytes(b: Option<Vec<u8>>) -> Option<Seq<u8>> {
    match b {
        Some(v) => Some(v@),
        None => None,
    }
}

pub open spec fn opt_chars(s: Option<String>) -> Option<Seq<char>> {
    match s {
        Some(v) => Some(v@),
        None => None,
    }
}

impl View for Request {
    type V = RequestModel;

    closed spec fn view(&self) -> RequestModel {
        RequestModel {
            url: self.url@,
            method: self.method@,
            headers: headers_model(self.headers@),
            body: opt_bytes(self.body),
            connect_timeout: self.connect_timeout,
            first_byte_timeout: self.first_byte_timeout,
            read_timeout: self.read_timeout,
            total_timeout: self.total_timeout,
            redirect: self.redirect,
            max_redirects: self.max_redirects,
            max_response_bytes: self.max_response_bytes,
            max_decompressed_bytes: self.max_decompressed_bytes,
            auto_decompress: self.auto_decompress,
            https_only: self.https_only,
            integrity: opt_chars(self.integrity),
        }
    }
}

/// A request with `method` and `url` and nothing else set.
pub open spec fn fresh_request(method: Seq<char>, url: Seq<char>) -> RequestModel {
    RequestModel {
        url,
        method,
        headers: Seq::empty(),
        body: None,
        connect_timeout: None,
        first_byte_timeout: None,
        read_timeout: None,
        total_timeout: None,
        redirect: None,
        max_redirects: None,
        max_response_bytes: None,
        max_decompressed_bytes: None,
        auto_decompress: None,
        https_only: None,
        integrity: None,
    }
}

impl Request {
    /// Header names are distinct.
    pub closed spec fn wf(&self) -> bool {
        keys_distinct(headers_model(self.headers@))
    }

    /// Create a request with an arbitrary method.
    pub fn new(method: &str, url: &str) -> (r: Request)
        ensures
            r.wf(),
            r@ == fresh_request(method@, url@),
    {
        let r = Request {
            url: String::from_str(url),
            method: String::from_str(method),
            headers: Vec::new(),
            body: None,
            connect_timeout: None,
            first_byte_timeout: None,
            read_timeout: None,
            total_timeout: None,
            redirect: None,
            max_redirects: None,
            max_response_bytes: None,
            max_decompressed_bytes: None,
            auto_decompress: None,
            https_only: None,
            integrity: None,
        };
        proof {
            assert(headers_model(r.headers@) =~= Seq::empty());
        }
        r
    }

    /// Create a GET request.
    pub fn get(url: &str) -> (r: Request)
        ensures
            r.wf(),
            r@ == fresh_request("GET"@, url@),
    {
        Self::new("GET", url)
    }

    /// Create a POST request.
    pub fn post(url: &str) -> (r: Request)
        ensures
            r.wf(),
            r@ == fresh_request("POST"@, url@),
    {
        Self::new("POST", url)
    }

    /// Create a PUT request.
    pub fn put(url: &str) -> (r: Request)
        ensures
            r.wf(),
            r@ == fresh_request("PUT"@, url@),
    {
        Self::new("PUT", url)
    }

    /// Create a DELETE request.
    pub fn delete(url: &str) -> (r: Request)
        ensures
            r.wf(),
            r@ == fresh_request("DELETE"@, url@),
    {
        Self::new("DELETE", url)
    }

    /// Add a header; a header of the same name is replaced.
    pub fn header(self, key: &str, value: &str) -> (r: Request)
        requires
            self.wf(),
        ensures
            r.wf(),
            r@ == (RequestModel { headers: header_set(self@.headers, key@, value@), ..self@ }),
    {
        let mut s = self;
        insert_header(&mut s.headers, String::from_str(key), String::from_str(value));
        s
    }

    /// Set the request body as UTF-8 text.
    pub fn body(self, body: &str) -> (r: Request)
        requires
            self.wf(),
        ensures
            r.wf(),
            r@ == (RequestModel { body: Some(body.spec_bytes()), ..self@ }),
    {
        let mut s = self;
        s.body = Some(crate::text::str_bytes(body));
        s
    }

    /// Set the request body as raw bytes.
    pub fn body_bytes(self, body: Vec<u8>) -> (r: Request)
        requires
            self.wf(),
        ensures
            r.wf(),
            r@ == (RequestModel { body: Some(body@), ..self@ }),
    {
        let mut s = self;
        s.body = Some(body);
        s
    }

    /// Set a JSON body: the compact JSON text of `value`, with the header
    /// `Content-Type: application/json`.
    pub fn json(self, value: &JsonValue) -> (r: Request)
        requires
            self.wf(),
        ensures
            r.wf(),
            r@ == (RequestModel {
                headers: header_set(self@.headers, "Content-Type"@, "application/json"@),
                body: Some(json_encode(value@)),
                ..self@
            }),
    {
        let text = value.to_json_bytes();
        let s = self.header("Content-Type", "application/json");
        s.body_bytes(text)
    }

    /// Set the whole-request deadline.
    pub fn timeout(self, dur: Duration) -> (r: Request)
        requires
            self.wf(),
        ensures
            r.wf(),
            r@ == (RequestModel { total_timeout: Some(dur), ..self@ }),
    {
        let mut s = self;
        s.total_timeout = Some(dur);
        s
    }

    /// Set the connection-establishment deadline.
    pub fn connect_timeout(self, dur: Duration) -> (r: Request)
        requires
            self.wf(),
        ensures
            r.wf(),
            r@ == (RequestModel { connect_timeout: Some(dur), ..self@ }),
    {
        let mut s = self;
        s.connect_timeout = Some(dur);
        s
    }

    /// Set the deadline from request sent to first response byte.
    pub fn first_byte_timeout(self, dur: Duration) -> (r: Request)
        requires
            self.wf(),
        ensures
            r.wf(),
            r@ == (RequestModel { first_byte_timeout: Some(dur), ..self@ }),
    {
        let mut s = self;
        s.first_byte_timeout = Some(dur);
        s
    }

    /// Set the maximum idle gap between body chunks on the streaming path.
    pub fn read_timeout(self, dur: Duration) -> (r: Request)
        requires
            self.wf(),
        ensures
            r.wf(),
            r@ == (RequestModel { read_timeout: Some(dur), ..self@ }),
    {
        let mut s = self;
        s.read_timeout = Some(dur);
        s
    }

    /// Set how the host treats a `3xx` redirect.
    pub fn redirect(self, policy: RedirectPolicy) -> (r: Request)
        requires
            self.wf(),
        ensures
            r.wf(),
            r@ == (RequestModel { redirect: Some(policy), ..self@ }),
    {
        let mut s = self;
        s.redirect = Some(policy);
        s
    }

    /// Set the redirect hop limit.
    pub fn max_redirects(self, max: u32) -> (r: Request)
        requires
            self.wf(),
        ensures
            r.wf(),
            r@ == (RequestModel { max_redirects: Some(max), ..self@ }),
    {
        let mut s = self;
        s.max_redirects = Some(max);
        s
    }

    /// Cap the buffered response body in bytes.
    pub fn max_response_bytes(self, max: u64) -> (r: Request)
        requires
            self.wf(),
        ensures
            r.wf(),
            r@ == (RequestModel { max_response_bytes: Some(max), ..self@ }),
    {
        let mut s = self;
        s.max_response_bytes = Some(max);
        s
    }

    /// Cap the decompressed body in bytes.
    pub fn max_decompressed_bytes(self, max: u64) -> (r: Request)
        requires
            self.wf(),
        ensures
            r.wf(),
            r@ == (RequestModel { max_decompressed_bytes: Some(max), ..self@ }),
    {
        let mut s = self;
        s.max_decompressed_bytes = Some(max);
        s
    }

    /// Toggle automatic decompression.
    pub fn auto_decompress(self, on: bool) -> (r: Request)
        requires
            self.wf(),
        ensures
            r.wf(),
            r@ == (RequestModel { auto_decompress: Some(on), ..self@ }),
    {
        let mut s = self;
        s.auto_decompress = Some(on);
        s
    }

    /// Refuse any non-`https` scheme.
    pub fn https_only(self) -> (r: Request)
        requires
            self.wf(),
        ensures
            r.wf(),
            r@ == (RequestModel { https_only: Some(true), ..self@ }),
    {
        let mut s = self;
        s.https_only = Some(true);
        s
    }

    /// Require the response body to match a subresource-integrity digest.
    pub fn integrity(self, digest: &str) -> (r: Request)
        requires
            self.wf(),
        ensures
            r.wf(),
            r@ == (RequestModel { integrity: Some(digest@), ..self@ }),
    {
        let mut s = self;
        s.integrity = Some(String::from_str(digest));
        s
    }
}

/// Timeouts handed to the host, in whole milliseconds.
#[derive(Debug, Clone, Copy, PartialEq, Eq)]
pub struct TimeoutConfig {
    pub connect_ms: Option<u64>,
    pub first_byte_ms: Option<u64>,
    pub between_bytes_ms: Option<u64>,
    pub total_ms: Option<u64>,
}

/// The per-request controls handed to the host; `None` selects the host
/// default for that field.
#[derive(Debug, PartialEq, Eq)]
pub struct RequestOptions {
    pub timeouts: Option<TimeoutConfig>,
    pub redirect: Option<RedirectPolicy>,
    pub max_redirects: Option<u32>,
    pub max_response_bytes: Option<u64>,
    pub max_decompressed_bytes: Option<u64>,
    pub auto_decompress: Option<bool>,
    pub https_only: Option<bool>,
    pub integrity: Option<String>,
}

/// A timeout in milliseconds, saturating.
pub open spec fn ms_of(d: Option<Duration>) -> Option<u64> {
    match d {
        Some(d) => Some(saturate_u64(d.total_millis())),
        None => None,
    }
}

fn opt_ms(d: Option<Duration>) -> (r: Option<u64>)
    ensures
        r == ms_of(d),
{
    match d {
        Some(d) => Some(duration_to_ms(d)),
        None => None,
    }
}

/// The options the host receives for request `r`: the timeout block is
/// present exactly when some timeout is set.
pub open spec fn options_of(r: RequestModel) -> (Option<TimeoutConfig>, Option<RedirectPolicy>, Option<u32>, Option<u64>, Option<u64>, Option<bool>, Option<bool>, Option<Seq<char>>) {
    let timeouts = if r.connect_timeout is Some || r.first_byte_timeout is Some || r.read_timeout is Some
        || r.total_timeout is Some {
        Some(TimeoutConfig {
            connect_ms: ms_of(r.connect_timeout),
            first_byte_ms: ms_of(r.first_byte_timeout),
            between_bytes_ms: ms_of(r.read_timeout),
            total_ms: ms_of(r.total_timeout),
        })
    } else {
        None
    };
    (timeouts, r.redirect, r.max_redirects, r.max_response_bytes, r.max_decompressed_bytes, r.auto_decompress, r.https_only, r.integrity)
}

pub open spec fn options_model(o: RequestOptions) -> (Option<TimeoutConfig>, Option<RedirectPolicy>, Option<u32>, Option<u64>, Option<u64>, Option<bool>, Option<bool>, Option<Seq<char>>) {
    (o.timeouts, o.redirect, o.max_redirects, o.max_response_bytes, o.max_decompressed_bytes, o.auto_decompress, o.https_only, opt_chars(o.integrity))
}

/// An HTTP method as the host names it; non-standard methods travel as
/// their upper-cased text.
#[derive(Debug, PartialEq, Eq)]
pub enum HttpMethod {
    Get,
    Head,
    Post,
    Put,
    Delete,
    Connect,
    Options,
    Trace,
    Patch,
    Other(String),
}

/// The method named by `m`, compared case-insensitively (ASCII).
pub open spec fn method_of(m: Seq<char>) -> HttpMethodModel {
    let u = ascii_uppercase(m);
    if u == "GET"@ {
        HttpMethodModel::Get
    } else if u == "HEAD"@ {
        HttpMethodModel::Head
    } else if u == "POST"@ {
        HttpMethodModel::Post
    } else if u == "PUT"@ {
        HttpMethodModel::Put
    } else if u == "DELETE"@ {
        HttpMethodModel::Delete
    } else if u == "CONNECT"@ {
        HttpMethodModel::Connect
    } else if u == "OPTIONS"@ {
        HttpMethodModel::Options
    } else if u == "TRACE"@ {
        HttpMethodModel::Trace
    } else if u == "PATCH"@ {
        HttpMethodModel::Patch
    } else {
        HttpMethodModel::Other(u)
    }
}

pub enum HttpMethodModel {
    Get,
    Head,
    Post,
    Put,
    Delete,
    Connect,
    Options,
    Trace,
    Patch,
    Other(Seq<char>),
}

/// The name of a method as it goes on the wire.
pub open spec fn method_name(m: HttpMethodModel) -> Seq<char> {
    match m {
        HttpMethodModel::Get => "GET"@,
        HttpMethodModel::Head => "HEAD"@,
        HttpMethodModel::Post => "POST"@,
        HttpMethodModel::Put => "PUT"@,
        HttpMethodModel::Delete => "DELETE"@,
        HttpMethodModel::Connect => "CONNECT"@,
        HttpMethodModel::Options => "OPTIONS"@,
        HttpMethodModel::Trace => "TRACE"@,
        HttpMethodModel::Patch => "PATCH"@,
        HttpMethodModel::Other(u) => u,
    }
}

/// The method a request is sent with names exactly the request's method
/// text, upper-cased: `patch` is sent as `PATCH`, never as another method.
/// So two method texts that differ other than in case never become the
/// same method.
pub proof fn law_method_name(text: Seq<char>, other: Seq<char>)
    ensures
        method_name(method_of(text)) == ascii_uppercase(text),
        method_of(text) == method_of(other) ==> ascii_uppercase(text) == ascii_uppercase(other),
{
}

impl View for HttpMethod {
    type V = HttpMethodModel;

    open spec fn view(&self) -> HttpMethodModel {
        match *self {
            HttpMethod::Get => HttpMethodModel::Get,
            HttpMethod::Head => HttpMethodModel::Head,
            HttpMethod::Post => HttpMethodModel::Post,
            HttpMethod::Put => HttpMethodModel::Put,
            HttpMethod::Delete => HttpMethodModel::Delete,
            HttpMethod::Connect => HttpMethodModel::Connect,
            HttpMethod::Options => HttpMethodModel::Options,
            HttpMethod::Trace => HttpMethodModel::Trace,
            HttpMethod::Patch => HttpMethodModel::Patch,
            HttpMethod::Other(s) => HttpMethodModel::Other(s@),
        }
    }
}

fn chars_eq(a: &Vec<char>, b: &str) -> (r: bool)
    ensures
        r == (a@ == b@),
{
    let bv = chars_of(b);
    if a.len() != bv.len() {
        return false;
    }
    let mut i: usize = 0;
    while i < a.len()
        invariant
            a.len() == bv.len(),
            bv@ == b@,
            i <= a.len(),
            forall|j: int| 0 <= j < i ==> a@[j] == bv@[j],
        decreases a.len() - i,
    {
        if a[i] != bv[i] {
            return false;
        }
        i = i + 1;
    }
    assert(a@ =~= bv@);
    true
}

/// Parse a textual HTTP method to the typed method.
pub fn parse_method(method: &str) -> (m: HttpMethod)
    ensures
        m@ == method_of(method@),
{
    let u = to_ascii_uppercase(&chars_of(method));
    if chars_eq(&u, "GET") {
        HttpMethod::Get
    } else if chars_eq(&u, "HEAD") {
        HttpMethod::Head
    } else if chars_eq(&u, "POST") {
        HttpMethod::Post
    } else if chars_eq(&u, "PUT") {
        HttpMethod::Put
    } else if chars_eq(&u, "DELETE") {
        HttpMethod::Delete
    } else if chars_eq(&u, "CONNECT") {
        HttpMethod::Connect
    } else if chars_eq(&u, "OPTIONS") {
        HttpMethod::Options
    } else if chars_eq(&u, "TRACE") {
        HttpMethod::Trace
    } else if chars_eq(&u, "PATCH") {
        HttpMethod::Patch
    } else {
        HttpMethod::Other(string_from_chars(u.as_slice()))
    }
}

/// The request as the host receives it.
#[derive(Debug, PartialEq, Eq)]
pub struct HttpRequestData {
    pub url: String,
    pub method: HttpMethod,
    pub headers: Vec<(String, String)>,
    pub body: Option<Vec<u8>>,
}

fn clone_headers(h: &Vec<(String, String)>) -> (r: Vec<(String, String)>)
    ensures
        headers_model(r@) == headers_model(h@),
{
    let mut r: Vec<(String, String)> = Vec::new();
    let mut i: usize = 0;
    while i < h.len()
        invariant
            i <= h.len(),
            headers_model(r@) == headers_model(h@).take(i as int),
        decreases h.len() - i,
    {
        let ghost old_r = r@;
        let k = h[i].0.clone();
        let v = h[i].1.clone();
        r.push((k, v));
        assert(headers_model(r@) =~= headers_model(old_r).push((h@[i as int].0@, h@[i as int].1@)));
        i = i + 1;
        assert(headers_model(r@) =~= headers_model(h@).take(i as int));
    }
    assert(headers_model(h@).take(h.len() as int) =~= headers_model(h@));
    r
}

fn clone_bytes(b: &Option<Vec<u8>>) -> (r: Option<Vec<u8>>)
    ensures
        opt_bytes(r) == opt_bytes(*b),
{
    match b {
        Some(v) => Some(v.clone()),
        None => None,
    }
}

impl Request {
    /// The per-request controls for the host. An untouched request yields
    /// all-`None` options, which the host treats as its defaults.
    pub fn to_options(&self) -> (o: RequestOptions)
        ensures
            options_model(o) == options_of(self@),
    {
        let timeouts = if self.connect_timeout.is_some() || self.first_byte_timeout.is_some()
            || self.read_timeout.is_some() || self.total_timeout.is_some() {
            Some(TimeoutConfig {
                connect_ms: opt_ms(self.connect_timeout),
                first_byte_ms: opt_ms(self.first_byte_timeout),
                between_bytes_ms: opt_ms(self.read_timeout),
                total_ms: opt_ms(self.total_timeout),
            })
        } else {
            None
        };
        let integrity = match &self.integrity {
            Some(s) => Some(s.clone()),
            None => None,
        };
        RequestOptions {
            timeouts,
            redirect: self.redirect,
            max_redirects: self.max_redirects,
            max_response_bytes: self.max_response_bytes,
            max_decompressed_bytes: self.max_decompressed_bytes,
            auto_decompress: self.auto_decompress,
            https_only: self.https_only,
            integrity,
        }
    }

    /// The request line, headers and body for the host.
    pub fn to_request_data(&self) -> (d: HttpRequestData)
        ensures
            d.url@ == self@.url,
            d.method@ == method_of(self@.method),
            headers_model(d.headers@) == self@.headers,
            opt_bytes(d.body) == self@.body,
    {
        HttpRequestData {
            url: self.url.clone(),
            method: parse_method(self.method.as_str()),
            headers: clone_headers(&self.headers),
            body: clone_bytes(&self.body),
        }
    }
}

/// An HTTP response from a buffered request.
#[derive(Debug)]
pub struct Response {
    status: u16,
    headers: Vec<(String, String)>,
    body: Vec<u8>,
    final_url: String,
    redirect_count: u32,
    elapsed_ms: u64,
    wire_bytes: u64,
}

/// The response as the SDK sees it.
pub struct ResponseModel {
    pub status: u16,
    pub headers: Seq<(Seq<char>, Seq<char>)>,
    pub body: Seq<u8>,
    pub final_url: Seq<char>,
    pub redirect_count: u32,
    pub elapsed_ms: u64,
    pub wire_bytes: u64,
}

impl View for Response {
    type V = ResponseModel;

    closed spec fn view(&self) -> ResponseModel {
        ResponseModel {
            status: self.status,
            headers: headers_model(self.headers@),
            body: self.body@,
            final_url: self.final_url@,
            redirect_count: self.redirect_count,
            elapsed_ms: self.elapsed_ms,
            wire_bytes: self.wire_bytes,
        }
    }
}

/// `pairs` folded into a header list, later duplicates replacing earlier.
pub open spec fn headers_from_pairs(pairs: Seq<(Seq<char>, Seq<char>)>) -> Seq<(Seq<char>, Seq<char>)>
    decreases pairs.len(),
{
    if pairs.len() == 0 {
        Seq::empty()
    } else {
        header_set(headers_from_pairs(pairs.drop_last()), pairs.last().0, pairs.last().1)
    }
}

impl Response {
    /// Assemble the response from what the host returned: the status, the
    /// header pairs (a repeated name keeps its last value), the body and the
    /// request metadata.
    pub fn from_parts(
        status: u16,
        header_pairs: Vec<(String, String)>,
        body: Vec<u8>,
        final_url: String,
        redirect_count: u32,
        elapsed_ms: u64,
        wire_bytes: u64,
    ) -> (r: Response)
        ensures
            r@ == (ResponseModel {
                status,
                headers: headers_from_pairs(headers_model(header_pairs@)),
                body: body@,
                final_url: final_url@,
                redirect_count,
                elapsed_ms,
                wire_bytes,
            }),
    {
        let mut headers: Vec<(String, String)> = Vec::new();
        let mut i: usize = 0;
        proof {
            assert(headers_model(header_pairs@).take(0) =~= Seq::empty());
            assert(headers_model(headers@) =~= Seq::empty());
        }
        while i < header_pairs.len()
            invariant
                i <= header_pairs.len(),
                keys_distinct(headers_model(headers@)),
                headers_model(headers@) == headers_from_pairs(headers_model(header_pairs@).take(i as int)),
            decreases header_pairs.len() - i,
        {
            let k = header_pairs[i].0.clone();
            let v = header_pairs[i].1.clone();
            insert_header(&mut headers, k, v);
            proof {
                let hm = headers_model(header_pairs@);
                assert(hm.take(i + 1).drop_last() =~= hm.take(i as int));
            }
            i = i + 1;
        }
        proof {
            assert(headers_model(header_pairs@).take(header_pairs.len() as int) =~= headers_model(header_pairs@));
        }
        Response { status, headers, body, final_url, redirect_count, elapsed_ms, wire_bytes }
    }

    /// HTTP status code.
    pub fn status(&self) -> (s: u16)
        ensures
            s == self@.status,
    {
        self.status
    }

    /// Response headers, each name once.
    pub fn headers(&self) -> (h: &Vec<(String, String)>)
        ensures
            headers_model(h@) == self@.headers,
    {
        &self.headers
    }

    /// The raw response body.
    pub fn bytes(&self) -> (b: &[u8])
        ensures
            b@ == self@.body,
    {
        self.body.as_slice()
    }

    /// The response body as UTF-8 text; an API error when it is not UTF-8.
    pub fn text(&self) -> (r: Result<&str, SysError>)
        ensures
            r is Ok <==> vstd::utf8::valid_utf8(self@.body),
            r matches Ok(s) ==> s@ == vstd::utf8::decode_utf8(self@.body),
            r matches Err(e) ==> e is ApiError,
    {
        match utf8_str(self.body.as_slice()) {
            Ok(s) => Ok(s),
            Err(e) => Err(SysError::ApiError(e)),
        }
    }

    /// The response body parsed as JSON.
    pub fn json(&self) -> (r: Result<JsonValue, SysError>)
        ensures
            match r {
                Ok(v) => json_parse(self@.body) == Some(v@),
                Err(e) => json_parse(self@.body) is None && e is JsonError,
            },
    {
        JsonValue::from_json_bytes(self.body.as_slice())
    }

    /// Whether the status is in `200..300`.
    pub fn is_success(&self) -> (b: bool)
        ensures
            b == (200 <= self@.status < 300),
    {
        200 <= self.status && self.status < 300
    }

    /// The final URL after any redirects.
    pub fn final_url(&self) -> (u: &str)
        ensures
            u@ == self@.final_url,
    {
        self.final_url.as_str()
    }

    /// The number of redirect hops the host followed.
    pub fn redirect_count(&self) -> (n: u32)
        ensures
            n == self@.redirect_count,
    {
        self.redirect_count
    }

    /// Wall-clock duration of the request.
    pub fn elapsed(&self) -> (d: Duration)
        ensures
            d.wf(),
            d.total_millis() == self@.elapsed_ms,
    {
        Duration::from_millis(self.elapsed_ms)
    }

    /// Bytes received on the wire, before decompression.
    pub fn wire_bytes(&self) -> (n: u64)
        ensures
            n == self@.wire_bytes,
    {
        self.wire_bytes
    }
}

/// The next streamed chunk as the SDK reports it: an empty read is the end
/// of the stream.
pub fn read_chunk(bytes: Vec<u8>) -> (r: Option<Vec<u8>>)
    ensures
        bytes@.len() == 0 ==> r is None,
        bytes@.len() > 0 ==> r == Some(bytes),
{
    if bytes.len() == 0 {
        None
    } else {
        Some(bytes)
    }
}

} // verus!
