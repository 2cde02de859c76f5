//! The client that delivers batches to an ingest endpoint, and the builder
//! that configures it.

use crate::endpoint::{clone_uri, parsed_uri, uri_text, Endpoint, InvalidEndpoint, TRACE_API_PATH};
use crate::response::{
    classify, find_header, parse_u64, retry_after, value_is_text, Header, Response,
    RetryAfterError, SendableState,
};
use crate::time::{max_nanos, Duration};
use flate2::write::GzEncoder;
use flate2::Compression;
use hyper::Uri;
use std::io::Write;
use vstd::arithmetic::power2::{lemma_pow2_unfold, pow2};
use vstd::prelude::*;
use vstd::string::StringExecFns;
use vstd::utf8::encode_utf8;

verus! {

/// The version of this library, as it stands in the `User-Agent` header.
pub const VERSION: &'static str = "0.2.1";

/// An error of reading or writing a stream.
#[verifier::external_type_specification]
#[verifier::external_body]
pub struct ExIoError(std::io::Error);

/// The gzip stream that holds `text`, compressed at the default level, or
/// nothing where the text cannot be compressed.
pub uninterp spec fn gzip_of(text: Seq<char>) -> Option<Seq<u8>>;

/// Compresses the bytes of `text` with `GzEncoder`, at
/// `Compression::default()`, into a vector. The encoder writes a header
/// without a time stamp or a file name and reads nothing but the text, so
/// what it returns depends on the text alone, and is `gzip_of` of the text:
/// the stream where it succeeds, nothing where it fails.
#[verifier::external_body]
fn gzip(text: &str) -> (stream: Result<Vec<u8>, std::io::Error>)
    ensures
        match stream {
            Ok(bytes) => gzip_of(text@) == Some(bytes@),
            Err(_) => gzip_of(text@) is None,
        },
{
    let mut encoder = GzEncoder::new(Vec::new(), Compression::default());
    encoder.write_all(text.as_bytes())?;
    encoder.finish()
}

/// A batch could not be rendered as a payload.
#[derive(Clone, Copy, Debug, PartialEq, Eq, Structural)]
pub struct MarshallError;

/// Types that can be sent to an ingest API: batches of traces, metrics,
/// events or logs.
///
/// The client takes what an implementation hands it as it comes: it asks
/// nothing of the identifier and the payload, and does not rely on how a
/// batch is split.
pub trait Sendable: Sized {
    /// Returns the identifier of the batch: a version 4 UUID as text, by
    /// which the ingest service tells repeated requests apart.
    fn uuid(&self) -> &str;

    /// Renders the batch as a JSON payload in the form the ingest API
    /// expects.
    fn marshall(&self) -> Result<String, MarshallError>;

    /// Moves half of the records into a new batch, which is returned.
    fn split(&mut self) -> Self;
}

/// Why no request could be made for a batch.
#[derive(Clone, Copy, Debug, PartialEq, Eq, Structural)]
pub enum RequestError {
    /// The batch could not be rendered as a payload.
    Marshall,
    /// The payload could not be compressed.
    Compress,
    /// The API key, the batch identifier or the user agent holds a byte
    /// that no header value may hold.
    InvalidHeader,
}

/// The method of a request. Batches are always posted.
#[derive(Clone, Copy, Debug, PartialEq, Eq, Structural)]
pub enum Method {
    Post,
}

/// A request to an ingest endpoint, ready to be sent.
pub struct Request {
    pub method: Method,
    /// Where the request goes.
    pub uri: Uri,
    /// The headers, in the order in which they were set.
    pub headers: Vec<Header>,
    /// The payload, compressed.
    pub body: Vec<u8>,
}

/// The delay before each attempt that follows a failed one: none before the
/// first, then `factor`, doubled with every further attempt and capped at
/// the longest duration there is. `factor` is in nanoseconds, and so is the
/// result.
pub open spec fn backoff_nanos(factor: nat, attempt: nat) -> nat {
    if attempt == 0 {
        0
    } else if factor * pow2((attempt - 1) as nat) <= max_nanos() {
        factor * pow2((attempt - 1) as nat)
    } else {
        max_nanos()
    }
}

/// `sequence` is the backoff sequence for `factor` and `retries` attempts.
pub open spec fn is_backoff_sequence(sequence: Seq<Duration>, factor: Duration, retries: nat) -> bool {
    &&& sequence.len() == retries
    &&& forall|k: int|
        0 <= k < sequence.len() ==> (#[trigger] sequence[k]).wf() && sequence[k].total_nanos()
            == backoff_nanos(factor.total_nanos(), k as nat)
}

/// The suffix that names a product in the `User-Agent` header.
pub open spec fn product_text(product_info: Option<(String, String)>) -> Seq<char> {
    match product_info {
        Some((product, version)) => " "@ + product@ + "/"@ + version@,
        None => Seq::empty(),
    }
}

/// The `User-Agent` header of a client with the given product information.
pub open spec fn user_agent_text(product_info: Option<(String, String)>) -> Seq<char> {
    "NewRelic-Rust-TelemetrySDK/"@ + VERSION@ + product_text(product_info)
}

/// A byte that a header value may hold: anything but a control character
/// other than the tab.
pub open spec fn is_header_byte(b: u8) -> bool {
    (b >= 0x20 && b != 0x7f) || b == 0x09
}

/// `value` can stand as a header value.
pub open spec fn is_header_value(value: Seq<u8>) -> bool {
    forall|i: int| 0 <= i < value.len() ==> is_header_byte(#[trigger] value[i])
}

/// A list of headers as names and values.
pub open spec fn header_lines(headers: Seq<Header>) -> Seq<(Seq<u8>, Seq<u8>)> {
    headers.map_values(|h: Header| (h.name@, h.value@))
}

/// The headers of a request that carries a batch, in the order in which
/// they are set.
pub open spec fn request_headers(api_key: Seq<char>, uuid: Seq<char>, user_agent: Seq<char>) -> Seq<
    (Seq<u8>, Seq<u8>),
> {
    seq![
        (encode_utf8("Api-Key"@), encode_utf8(api_key)),
        (encode_utf8("Data-Format"@), encode_utf8("newrelic"@)),
        (encode_utf8("Data-Format-Version"@), encode_utf8("1"@)),
        (encode_utf8("x-request-id"@), encode_utf8(uuid)),
        (encode_utf8("user-agent"@), encode_utf8(user_agent)),
        (encode_utf8("content-encoding"@), encode_utf8("gzip"@)),
        (encode_utf8("content-type"@), encode_utf8("application/json"@)),
    ]
}

/// Configures a `Client`: the ingest endpoint, the backoff factor, the
/// retry maximum and the product information.
pub struct ClientBuilder {
    pub api_key: String,
    /// The wait after the first failed attempt; each later wait is twice
    /// the one before.
    pub backoff_factor: Duration,
    /// How often a batch is sent at most.
    pub retries_max: u32,
    pub endpoint_traces: Endpoint,
    /// A product and its version, for the `User-Agent` header.
    pub product_info: Option<(String, String)>,
    /// How many batches the blocking client sends in one cycle at most.
    pub blocking_queue_max: usize,
    pub use_tls: bool,
}

/// Delivers batches to an ingest endpoint.
pub struct Client {
    /// The key that every request carries in its `Api-Key` header.
    pub api_key: String,
    /// What every request carries in its `User-Agent` header.
    pub user_agent: String,
    /// The waits between the attempts to deliver a batch; its length is the
    /// number of attempts.
    pub backoff_sequence: Vec<Duration>,
    /// Where batches of spans are sent.
    pub endpoint_traces: Uri,
}

fn header(name: &str, value: &str) -> (h: Header)
    ensures
        h.name@ == encode_utf8(name@),
        h.value@ == encode_utf8(value@),
{
    Header { name: name.as_bytes_vec(), value: value.as_bytes_vec() }
}

/// Whether `value` can stand as a header value.
pub fn valid_header_value(value: &str) -> (valid: bool)
    ensures
        valid == is_header_value(encode_utf8(value@)),
{
    let bytes = value.as_bytes();
    let mut i: usize = 0;
    while i < bytes.len()
        invariant
            i <= bytes.len(),
            bytes@ == encode_utf8(value@),
            forall|j: int| 0 <= j < i ==> is_header_byte(#[trigger] bytes@[j]),
        decreases bytes.len() - i,
    {
        let b: u8 = bytes[i];
        if !((b >= 0x20 && b != 0x7f) || b == 0x09) {
            return false;
        }
        i = i + 1;
    }
    true
}

impl ClientBuilder {
    /// Initializes the builder with an API key. The other values are set to
    /// their defaults: a backoff factor of 5 seconds, at most 8 retries, the
    /// trace endpoint `trace-api.newrelic.com` without a port, no product
    /// information, at most 100 batches per cycle of the blocking client,
    /// and TLS.
    pub fn new(api_key: &str) -> (builder: ClientBuilder)
        ensures
            builder.api_key@ == api_key@,
            builder.backoff_factor == Duration::from_secs(5),
            builder.retries_max == 8,
            builder.endpoint_traces.host@ == "trace-api.newrelic.com"@,
            builder.endpoint_traces.port is None,
            builder.endpoint_traces.path@ == TRACE_API_PATH@,
            builder.product_info is None,
            builder.blocking_queue_max == 100,
            builder.use_tls,
    {
        ClientBuilder {
            api_key: api_key.to_owned(),
            backoff_factor: Duration::from_secs(5),
            retries_max: 8,
            endpoint_traces: Endpoint {
                host: "trace-api.newrelic.com".to_owned(),
                port: None,
                path: TRACE_API_PATH,
            },
            product_info: None,
            blocking_queue_max: 100,
            use_tls: true,
        }
    }

    /// Configures the backoff factor: after a failed request the client
    /// waits `factor * 2^(retries - 1)` before it sends the batch again.
    pub fn backoff_factor(self, factor: Duration) -> (builder: ClientBuilder)
        ensures
            builder == (ClientBuilder { backoff_factor: factor, ..self }),
    {
        let mut builder = self;
        builder.backoff_factor = factor;
        builder
    }

    /// Configures the maximum number of retries. With zero no request is
    /// repeated.
    pub fn retries_max(self, retries: u32) -> (builder: ClientBuilder)
        ensures
            builder == (ClientBuilder { retries_max: retries, ..self }),
    {
        let mut builder = self;
        builder.retries_max = retries;
        builder
    }

    /// Configures the ingest host for traces, and its port.
    pub fn endpoint_traces(self, url: &str, port: Option<u16>) -> (builder: ClientBuilder)
        ensures
            builder.endpoint_traces.host@ == url@,
            builder.endpoint_traces.port == port,
            builder.endpoint_traces.path@ == TRACE_API_PATH@,
            builder.api_key == self.api_key,
            builder.backoff_factor == self.backoff_factor,
            builder.retries_max == self.retries_max,
            builder.product_info == self.product_info,
            builder.blocking_queue_max == self.blocking_queue_max,
            builder.use_tls == self.use_tls,
    {
        let mut builder = self;
        builder.endpoint_traces = Endpoint { host: url.to_owned(), path: TRACE_API_PATH, port };
        builder
    }

    /// Configures a product and its version, which are appended to the
    /// `User-Agent` header.
    pub fn product_info(self, product: &str, version: &str) -> (builder: ClientBuilder)
        ensures
            builder.product_info matches Some(info) && info.0@ == product@ && info.1@ == version@,
            builder.api_key == self.api_key,
            builder.backoff_factor == self.backoff_factor,
            builder.retries_max == self.retries_max,
            builder.endpoint_traces == self.endpoint_traces,
            builder.blocking_queue_max == self.blocking_queue_max,
            builder.use_tls == self.use_tls,
    {
        let mut builder = self;
        builder.product_info = Some((product.to_owned(), version.to_owned()));
        builder
    }

    /// Configures how many batches the blocking client sends in one cycle
    /// at most. What the queue holds beyond that is dropped.
    pub fn blocking_queue_max(self, queue_max: usize) -> (builder: ClientBuilder)
        ensures
            builder == (ClientBuilder { blocking_queue_max: queue_max, ..self }),
    {
        let mut builder = self;
        builder.blocking_queue_max = queue_max;
        builder
    }

    /// Configures whether the endpoint is reached over TLS.
    pub fn tls(self, tls: bool) -> (builder: ClientBuilder)
        ensures
            builder == (ClientBuilder { use_tls: tls, ..self }),
    {
        let mut builder = self;
        builder.use_tls = tls;
        builder
    }

    /// Builds a client. Fails if the endpoint does not resolve into a URI.
    pub fn build(self) -> (built: Result<Client, InvalidEndpoint>)
        ensures
            built_from(self, built),
    {
        Client::new(self)
    }

    /// Builds a blocking client, which queues batches for one worker. Fails
    /// if the endpoint does not resolve into a URI.
    pub fn build_blocking(self) -> (built: Result<crate::blocking::Client, InvalidEndpoint>)
        ensures
            match built {
                Ok(blocking) => built_from(self, Ok(blocking.client)) && blocking.queue_max
                    == self.blocking_queue_max,
                Err(e) => built_from(self, Err(e)),
            },
    {
        crate::blocking::Client::new(self)
    }

    /// The sequence of waits between attempts: as many as there are
    /// retries, none before the first attempt, then the backoff factor,
    /// doubled each time.
    pub fn get_backoff_sequence(&self) -> (sequence: Vec<Duration>)
        ensures
            is_backoff_sequence(sequence@, self.backoff_factor, self.retries_max as nat),
    {
        let mut sequence: Vec<Duration> = Vec::new();
        let mut wait: Duration = Duration::from_secs(0);
        let mut k: u32 = 0;
        proof {
            use_type_invariant(&self.backoff_factor);
            self.backoff_factor.lemma_total_nanos_bound();
        }
        let ghost factor = self.backoff_factor.total_nanos();
        while k < self.retries_max
            invariant
                k <= self.retries_max,
                factor == self.backoff_factor.total_nanos(),
                factor <= max_nanos(),
                self.backoff_factor.wf(),
                is_backoff_sequence(sequence@, self.backoff_factor, k as nat),
                wait.wf(),
                wait.total_nanos() == backoff_nanos(factor, k as nat),
            decreases self.retries_max - k,
        {
            sequence.push(wait);
            let next: Duration = if k == 0 {
                self.backoff_factor
            } else {
                wait.saturating_mul(2)
            };
            proof {
                lemma_backoff_doubles(factor, k as nat);
            }
            wait = next;
            k = k + 1;
        }
        sequence
    }

    /// The `User-Agent` header: the name and version of this library, and
    /// after them the product and its version where they are configured.
    pub fn get_user_agent_header(&self) -> (header: String)
        ensures
            header@ == user_agent_text(self.product_info),
    {
        let mut header = String::from_str("NewRelic-Rust-TelemetrySDK/");
        header.append(VERSION);
        let ghost stem = header@;
        match &self.product_info {
            Some(info) => {
                header.append(" ");
                header.append(info.0.as_str());
                header.append("/");
                header.append(info.1.as_str());
                assert(header@ =~= stem + product_text(self.product_info));
            },
            None => {
                assert(header@ =~= stem + product_text(self.product_info));
            },
        }
        header
    }
}

/// Each wait after the first is the factor; each later one is twice the one
/// before it, capped at the longest duration.
pub proof fn lemma_backoff_doubles(factor: nat, k: nat)
    requires
        factor <= max_nanos(),
    ensures
        backoff_nanos(factor, k + 1) == if k == 0 {
            factor
        } else if backoff_nanos(factor, k) * 2 <= max_nanos() {
            backoff_nanos(factor, k) * 2
        } else {
            max_nanos()
        },
{
    if k == 0 {
        assert(pow2(0) == 1) by {
            lemma_pow2_unfold(1);
            vstd::arithmetic::power2::lemma2_to64();
        }
        assert(factor * pow2(0) == factor);
    } else {
        lemma_pow2_unfold(k);
        let p = pow2((k - 1) as nat);
        assert(pow2(k) == 2 * p);
        assert(factor * (2 * p) == (factor * p) * 2) by (nonlinear_arith);
    }
}

/// `built` is what building a client from `builder` gives: the client with
/// the builder's API key, its user agent, its backoff sequence and the URI
/// of its endpoint, or an error where the endpoint is no URI.
pub open spec fn built_from(builder: ClientBuilder, built: Result<Client, InvalidEndpoint>) -> bool {
    let text = uri_text(
        builder.endpoint_traces.host@,
        builder.endpoint_traces.port,
        builder.endpoint_traces.path@,
        builder.use_tls,
    );
    match built {
        Ok(client) => {
            &&& parsed_uri(text) == Some(client.endpoint_traces)
            &&& client.api_key == builder.api_key
            &&& client.user_agent@ == user_agent_text(builder.product_info)
            &&& is_backoff_sequence(
                client.backoff_sequence@,
                builder.backoff_factor,
                builder.retries_max as nat,
            )
        },
        Err(_) => parsed_uri(text) is None,
    }
}

impl Client {
    /// Constructs a client from a builder. Fails if the builder's endpoint
    /// does not resolve into a URI.
    pub fn new(builder: ClientBuilder) -> (built: Result<Client, InvalidEndpoint>)
        ensures
            built_from(builder, built),
    {
        match builder.endpoint_traces.uri(builder.use_tls) {
            Ok(endpoint_traces) => Ok(Self::with_endpoint(builder, endpoint_traces)),
            Err(e) => Err(e),
        }
    }

    /// Constructs the client that sends to `endpoint_traces` with the API
    /// key, the user agent and the backoff sequence of `builder`.
    pub fn with_endpoint(builder: ClientBuilder, endpoint_traces: Uri) -> (client: Client)
        ensures
            client.endpoint_traces == endpoint_traces,
            client.api_key == builder.api_key,
            client.user_agent@ == user_agent_text(builder.product_info),
            is_backoff_sequence(
                client.backoff_sequence@,
                builder.backoff_factor,
                builder.retries_max as nat,
            ),
    {
        let user_agent = builder.get_user_agent_header();
        let backoff_sequence = builder.get_backoff_sequence();
        Client { api_key: builder.api_key, endpoint_traces, user_agent, backoff_sequence }
    }

    /// Returns the gzip stream of `text`, or `Compress` where the text has
    /// none.
    pub fn to_gzip(text: &str) -> (stream: Result<Vec<u8>, RequestError>)
        ensures
            match stream {
                Ok(bytes) => gzip_of(text@) == Some(bytes@),
                Err(e) => e == RequestError::Compress && gzip_of(text@) is None,
            },
    {
        match gzip(text) {
            Ok(bytes) => Ok(bytes),
            Err(_) => Err(RequestError::Compress),
        }
    }

    /// Frames a compressed payload as a request to `endpoint`: a POST with
    /// the headers of `request_headers` and the payload as its body. Fails
    /// if the API key, `uuid` or the user agent cannot stand in a header.
    pub fn frame(&self, uuid: &str, body: Vec<u8>, endpoint: &Uri) -> (framed: Result<
        Request,
        RequestError,
    >)
        ensures
            match framed {
                Ok(request) => {
                    &&& self.frames(uuid@)
                    &&& request.method == Method::Post
                    &&& request.uri == *endpoint
                    &&& header_lines(request.headers@) == request_headers(
                        self.api_key@,
                        uuid@,
                        self.user_agent@,
                    )
                    &&& request.body == body
                },
                Err(e) => e == RequestError::InvalidHeader && !self.frames(uuid@),
            },
    {
        if !valid_header_value(self.api_key.as_str()) || !valid_header_value(uuid)
            || !valid_header_value(self.user_agent.as_str()) {
            return Err(RequestError::InvalidHeader);
        }
        let mut headers: Vec<Header> = Vec::new();
        headers.push(header("Api-Key", self.api_key.as_str()));
        headers.push(header("Data-Format", "newrelic"));
        headers.push(header("Data-Format-Version", "1"));
        headers.push(header("x-request-id", uuid));
        headers.push(header("user-agent", self.user_agent.as_str()));
        headers.push(header("content-encoding", "gzip"));
        headers.push(header("content-type", "application/json"));
        assert(header_lines(headers@) =~= request_headers(self.api_key@, uuid@, self.user_agent@));
        Ok(Request { method: Method::Post, uri: clone_uri(endpoint), headers, body })
    }

    /// Whether a request can be framed for a batch with identifier `uuid`:
    /// the API key, the identifier and the user agent can each stand in a
    /// header.
    pub open spec fn frames(&self, uuid: Seq<char>) -> bool {
        &&& is_header_value(encode_utf8(self.api_key@))
        &&& is_header_value(encode_utf8(uuid))
        &&& is_header_value(encode_utf8(self.user_agent@))
    }

    /// Makes the request that carries `payload` to `endpoint` for the batch
    /// with identifier `uuid`: the payload compressed and framed. Fails with
    /// `Compress` where the payload has no gzip stream, and else with
    /// `InvalidHeader` where a header value cannot stand.
    pub fn encode(&self, uuid: &str, payload: &str, endpoint: &Uri) -> (made: Result<
        Request,
        RequestError,
    >)
        ensures
            match made {
                Ok(request) => self.carries(request, uuid@, payload@, *endpoint),
                Err(RequestError::InvalidHeader) => gzip_of(payload@) is Some && !self.frames(
                    uuid@,
                ),
                Err(RequestError::Compress) => gzip_of(payload@) is None,
                Err(RequestError::Marshall) => false,
            },
            made is Ok <==> gzip_of(payload@) is Some && self.frames(uuid@),
    {
        let gzipped = match Self::to_gzip(payload) {
            Ok(gzipped) => gzipped,
            Err(e) => {
                return Err(e);
            },
        };
        self.frame(uuid, gzipped, endpoint)
    }

    /// `request` is the request that carries `payload` to `endpoint` for
    /// the batch with identifier `uuid`: a POST to the endpoint with the
    /// headers of `request_headers` and the gzip stream of the payload as
    /// its body.
    pub open spec fn carries(
        &self,
        request: Request,
        uuid: Seq<char>,
        payload: Seq<char>,
        endpoint: Uri,
    ) -> bool {
        &&& self.frames(uuid)
        &&& request.method == Method::Post
        &&& request.uri == endpoint
        &&& header_lines(request.headers@) == request_headers(
            self.api_key@,
            uuid,
            self.user_agent@,
        )
        &&& gzip_of(payload) == Some(request.body@)
    }

    /// Creates the request that carries `batch` to `endpoint`: the batch
    /// rendered, compressed and framed.
    ///
    /// The batch gives an identifier and a payload, or fails to render
    /// itself, and the result follows from what it gives: `Marshall` where
    /// it fails; `Compress` where the payload has no gzip stream;
    /// `InvalidHeader` where it has one, and a header value cannot stand;
    /// and else the request that carries the payload.
    pub fn request<B: Sendable>(&self, batch: &B, endpoint: &Uri) -> (made: Result<
        Request,
        RequestError,
    >)
        ensures
            match made {
                Ok(request) => exists|uuid: &str, payload: String|
                    {
                        &&& call_ensures(B::uuid, (batch,), uuid)
                        &&& call_ensures(
                            B::marshall,
                            (batch,),
                            Ok::<String, MarshallError>(payload),
                        )
                        &&& self.carries(request, uuid@, payload@, *endpoint)
                    },
                Err(RequestError::Marshall) => exists|e: MarshallError|
                    call_ensures(B::marshall, (batch,), Err::<String, MarshallError>(e)),
                Err(RequestError::Compress) => exists|payload: String|
                    {
                        &&& call_ensures(
                            B::marshall,
                            (batch,),
                            Ok::<String, MarshallError>(payload),
                        )
                        &&& gzip_of(payload@) is None
                    },
                Err(RequestError::InvalidHeader) => exists|uuid: &str, payload: String|
                    {
                        &&& call_ensures(B::uuid, (batch,), uuid)
                        &&& call_ensures(
                            B::marshall,
                            (batch,),
                            Ok::<String, MarshallError>(payload),
                        )
                        &&& gzip_of(payload@) is Some
                        &&& !self.frames(uuid@)
                    },
            },
    {
        let raw = match batch.marshall() {
            Ok(raw) => raw,
            Err(e) => {
                assert(call_ensures(B::marshall, (batch,), Err::<String, MarshallError>(e)));
                return Err(RequestError::Marshall);
            },
        };
        let uuid = batch.uuid();
        assert(call_ensures(B::uuid, (batch,), uuid));
        assert(call_ensures(B::marshall, (batch,), Ok::<String, MarshallError>(raw)));
        self.encode(uuid, raw.as_str(), endpoint)
    }

    /// Reads the wait that the `Retry-After` header asks for.
    pub fn extract_retry_after(headers: &Vec<Header>) -> (wait: Result<Duration, RetryAfterError>)
        ensures
            match retry_after(headers@) {
                Ok(secs) => wait == Ok::<Duration, RetryAfterError>(Duration::from_secs(secs)),
                Err(e) => wait == Err::<Duration, RetryAfterError>(e),
            },
    {
        match find_header(headers, "retry-after".as_bytes()) {
            Some(value) => {
                if !value_is_text(value.as_slice()) {
                    return Err(RetryAfterError::NotText);
                }
                match parse_u64(value.as_slice()) {
                    Some(secs) => Ok(Duration::from_secs(secs)),
                    None => Err(RetryAfterError::NotSeconds),
                }
            },
            None => Err(RetryAfterError::Missing),
        }
    }

    /// Decides from an endpoint's response whether a batch is done with,
    /// sent again or split.
    pub fn process_response<B: Sendable>(batch: &B, response: Response) -> (state: SendableState)
        ensures
            state == classify(response.status, response.headers@),
    {
        let status: u16 = response.status;
        if 200 <= status && status <= 299 {
            SendableState::Done
        } else if status == 400 || status == 401 || status == 403 || status == 404 || status == 405
            || status == 409 || status == 410 || status == 411 {
            SendableState::Done
        } else if status == 413 {
            SendableState::Split
        } else if status == 429 {
            match Self::extract_retry_after(&response.headers) {
                Ok(wait) => SendableState::Retry(Some(wait)),
                Err(_) => SendableState::Done,
            }
        } else {
            SendableState::Retry(None)
        }
    }
}

} // verus!
