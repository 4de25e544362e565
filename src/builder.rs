use crate::client::GeyserGrpcClient;
use crate::error::{GeyserGrpcBuilderError, GeyserGrpcBuilderResult};
use crate::interceptor::InterceptorXToken;
use crate::token::{check_x_token, header_value_ok, metadata_value_ok, token_ok};
use std::time::Duration;
use tonic::codec::CompressionEncoding;
use tonic::service::interceptor::InterceptedService;
use tonic::transport::{Channel, ClientTlsConfig, Endpoint};
use tonic_health::pb::health_client::HealthClient;
use vstd::prelude::*;
use yellowstone_grpc_proto::prelude::geyser_client::GeyserClient;

verus! {

#[verifier::external_type_specification]
#[verifier::external_body]
pub struct ExEndpoint(Endpoint);

#[verifier::external_type_specification]
#[verifier::external_body]
pub struct ExChannel(Channel);

#[verifier::external_type_specification]
#[verifier::external_body]
pub struct ExCompressionEncoding(CompressionEncoding);

/// The text of an optional token.
pub open spec fn str_view(t: Option<&str>) -> Option<Seq<char>> {
    match t {
        Some(s) => Some(s@),
        None => None,
    }
}

/// Whether tonic accepts `s` as an endpoint URI.
pub uninterp spec fn endpoint_accepts(s: Seq<char>) -> bool;

/// Relies on `Endpoint::from_shared`: it fails exactly on text that is not
/// an endpoint URI, and that verdict depends on the text alone. A new
/// endpoint holds tonic's defaults (`new_uri`, `new_uds`): nothing set, and
/// TCP_NODELAY on.
#[verifier::external_body]
fn endpoint_from_shared(s: &str) -> (r: Result<Endpoint, tonic::transport::Error>)
    ensures
        r is Ok <==> endpoint_accepts(s@),
        r matches Ok(e) ==> {
            &&& connect_timeout_of(e) is None
            &&& timeout_of(e) is None
            &&& buffer_size_of(e) is None
            &&& http2_adaptive_window_of(e) is None
            &&& http2_keep_alive_interval_of(e) is None
            &&& initial_connection_window_size_of(e) is None
            &&& initial_stream_window_size_of(e) is None
            &&& keep_alive_timeout_of(e) is None
            &&& keep_alive_while_idle_of(e) is None
            &&& tcp_keepalive_of(e) is None
            &&& tcp_nodelay_of(e)
            &&& !tls_set(e)
        },
{
    Endpoint::from_shared(s.to_string())
}

/// The connect timeout that an endpoint holds.
pub uninterp spec fn connect_timeout_of(e: Endpoint) -> Option<Duration>;

/// The request timeout that an endpoint holds.
pub uninterp spec fn timeout_of(e: Endpoint) -> Option<Duration>;

/// The request buffer size that an endpoint holds (`None`: tonic's default).
pub uninterp spec fn buffer_size_of(e: Endpoint) -> Option<usize>;

/// The HTTP/2 adaptive window setting that an endpoint holds.
pub uninterp spec fn http2_adaptive_window_of(e: Endpoint) -> Option<bool>;

/// The HTTP/2 keep-alive interval that an endpoint holds.
pub uninterp spec fn http2_keep_alive_interval_of(e: Endpoint) -> Option<Duration>;

/// The initial connection window size that an endpoint holds.
pub uninterp spec fn initial_connection_window_size_of(e: Endpoint) -> Option<u32>;

/// The initial stream window size that an endpoint holds.
pub uninterp spec fn initial_stream_window_size_of(e: Endpoint) -> Option<u32>;

/// The keep-alive timeout that an endpoint holds.
pub uninterp spec fn keep_alive_timeout_of(e: Endpoint) -> Option<Duration>;

/// The keep-alive-while-idle setting that an endpoint holds.
pub uninterp spec fn keep_alive_while_idle_of(e: Endpoint) -> Option<bool>;

/// The TCP keepalive that an endpoint holds.
pub uninterp spec fn tcp_keepalive_of(e: Endpoint) -> Option<Duration>;

/// The TCP_NODELAY setting that an endpoint holds.
pub uninterp spec fn tcp_nodelay_of(e: Endpoint) -> bool;

/// Whether an endpoint holds a TLS connector.
pub uninterp spec fn tls_set(e: Endpoint) -> bool;

/// The settings of an endpoint that this library changes, one field each.
pub struct EndpointSettings {
    pub connect_timeout: Option<Duration>,
    pub timeout: Option<Duration>,
    pub buffer_size: Option<usize>,
    pub http2_adaptive_window: Option<bool>,
    pub http2_keep_alive_interval: Option<Duration>,
    pub initial_connection_window_size: Option<u32>,
    pub initial_stream_window_size: Option<u32>,
    pub keep_alive_timeout: Option<Duration>,
    pub keep_alive_while_idle: Option<bool>,
    pub tcp_keepalive: Option<Duration>,
    pub tcp_nodelay: bool,
    pub tls: bool,
}

/// The settings that the endpoint `e` holds.
pub open spec fn settings_of(e: Endpoint) -> EndpointSettings {
    EndpointSettings {
        connect_timeout: connect_timeout_of(e),
        timeout: timeout_of(e),
        buffer_size: buffer_size_of(e),
        http2_adaptive_window: http2_adaptive_window_of(e),
        http2_keep_alive_interval: http2_keep_alive_interval_of(e),
        initial_connection_window_size: initial_connection_window_size_of(e),
        initial_stream_window_size: initial_stream_window_size_of(e),
        keep_alive_timeout: keep_alive_timeout_of(e),
        keep_alive_while_idle: keep_alive_while_idle_of(e),
        tcp_keepalive: tcp_keepalive_of(e),
        tcp_nodelay: tcp_nodelay_of(e),
        tls: tls_set(e),
    }
}

/// Relies on `Endpoint::connect_timeout`: stores `Some(dur)`, nothing else.
#[verifier::external_body]
fn endpoint_connect_timeout(e: Endpoint, dur: Duration) -> (r: Endpoint)
    ensures
        settings_of(r) == (EndpointSettings { connect_timeout: Some(dur), ..settings_of(e) }),
{
    e.connect_timeout(dur)
}

/// Relies on `Endpoint::timeout`: stores `Some(dur)`, nothing else.
#[verifier::external_body]
fn endpoint_timeout(e: Endpoint, dur: Duration) -> (r: Endpoint)
    ensures
        settings_of(r) == (EndpointSettings { timeout: Some(dur), ..settings_of(e) }),
{
    e.timeout(dur)
}

#[verifier::external_type_specification]
#[verifier::external_body]
pub struct ExClientTlsConfig(ClientTlsConfig);

/// Relies on `Endpoint::tls_config`: the endpoint with the TLS connector
/// set, or the transport error that building the connector gave.
#[verifier::external_body]
fn endpoint_tls_config(e: Endpoint, tls_config: ClientTlsConfig) -> (r: Result<
    Endpoint,
    tonic::transport::Error,
>)
    ensures
        r matches Ok(x) ==> settings_of(x) == (EndpointSettings { tls: true, ..settings_of(e) }),
{
    e.tls_config(tls_config)
}

/// Relies on `Endpoint::buffer_size`: stores `sz`, nothing else.
#[verifier::external_body]
fn endpoint_buffer_size(e: Endpoint, sz: Option<usize>) -> (r: Endpoint)
    ensures
        settings_of(r) == (EndpointSettings { buffer_size: sz, ..settings_of(e) }),
{
    e.buffer_size(sz)
}

/// Relies on `Endpoint::http2_adaptive_window`: stores `Some(enabled)`, nothing else.
#[verifier::external_body]
fn endpoint_http2_adaptive_window(e: Endpoint, enabled: bool) -> (r: Endpoint)
    ensures
        settings_of(r) == (EndpointSettings { http2_adaptive_window: Some(enabled), ..settings_of(e) }),
{
    e.http2_adaptive_window(enabled)
}

/// Relies on `Endpoint::http2_keep_alive_interval`: stores `Some(interval)`, nothing else.
#[verifier::external_body]
fn endpoint_http2_keep_alive_interval(e: Endpoint, interval: Duration) -> (r: Endpoint)
    ensures
        settings_of(r) == (EndpointSettings { http2_keep_alive_interval: Some(interval), ..settings_of(e) }),
{
    e.http2_keep_alive_interval(interval)
}

/// Relies on `Endpoint::initial_connection_window_size`: stores `sz`, nothing else.
#[verifier::external_body]
fn endpoint_initial_connection_window_size(e: Endpoint, sz: Option<u32>) -> (r: Endpoint)
    ensures
        settings_of(r) == (EndpointSettings { initial_connection_window_size: sz, ..settings_of(e) }),
{
    e.initial_connection_window_size(sz)
}

/// Relies on `Endpoint::initial_stream_window_size`: stores `sz`, nothing else.
#[verifier::external_body]
fn endpoint_initial_stream_window_size(e: Endpoint, sz: Option<u32>) -> (r: Endpoint)
    ensures
        settings_of(r) == (EndpointSettings { initial_stream_window_size: sz, ..settings_of(e) }),
{
    e.initial_stream_window_size(sz)
}

/// Relies on `Endpoint::keep_alive_timeout`: stores `Some(duration)`, nothing else.
#[verifier::external_body]
fn endpoint_keep_alive_timeout(e: Endpoint, duration: Duration) -> (r: Endpoint)
    ensures
        settings_of(r) == (EndpointSettings { keep_alive_timeout: Some(duration), ..settings_of(e) }),
{
    e.keep_alive_timeout(duration)
}

/// Relies on `Endpoint::keep_alive_while_idle`: stores `Some(enabled)`, nothing else.
#[verifier::external_body]
fn endpoint_keep_alive_while_idle(e: Endpoint, enabled: bool) -> (r: Endpoint)
    ensures
        settings_of(r) == (EndpointSettings { keep_alive_while_idle: Some(enabled), ..settings_of(e) }),
{
    e.keep_alive_while_idle(enabled)
}

/// Relies on `Endpoint::tcp_keepalive`: stores `tcp_keepalive`, nothing else.
#[verifier::external_body]
fn endpoint_tcp_keepalive(e: Endpoint, tcp_keepalive: Option<Duration>) -> (r: Endpoint)
    ensures
        settings_of(r) == (EndpointSettings { tcp_keepalive: tcp_keepalive, ..settings_of(e) }),
{
    e.tcp_keepalive(tcp_keepalive)
}

/// Relies on `Endpoint::tcp_nodelay`: stores `enabled`, nothing else.
#[verifier::external_body]
fn endpoint_tcp_nodelay(e: Endpoint, enabled: bool) -> (r: Endpoint)
    ensures
        settings_of(r) == (EndpointSettings { tcp_nodelay: enabled, ..settings_of(e) }),
{
    e.tcp_nodelay(enabled)
}

/// Relies on `Clone for Channel`: a second handle on the same transport.
#[verifier::external_body]
fn clone_channel(c: &Channel) -> Channel {
    c.clone()
}

/// The data-feed stub with the interceptor applied to its calls.
pub type GeyserStub = GeyserClient<InterceptedService<Channel, InterceptorXToken>>;

/// The health stub with the interceptor applied to its calls.
pub type HealthStub = HealthClient<InterceptedService<Channel, InterceptorXToken>>;

/// The token that the interceptor of a data-feed stub attaches.
pub uninterp spec fn geyser_token(g: GeyserStub) -> Option<Seq<char>>;

/// The transport handle that a data-feed stub sends over.
pub uninterp spec fn geyser_channel(g: GeyserStub) -> Channel;

/// The compression a data-feed stub sends with (`None`: tonic's default).
pub uninterp spec fn geyser_send_compressed(g: GeyserStub) -> Option<CompressionEncoding>;

/// The compression a data-feed stub accepts, where it accepts at most one
/// (`None`: tonic's default, none).
pub uninterp spec fn geyser_accept_compressed(g: GeyserStub) -> Option<CompressionEncoding>;

/// The decoding size limit of a data-feed stub (`None`: tonic's default).
pub uninterp spec fn geyser_max_decoding(g: GeyserStub) -> Option<usize>;

/// The encoding size limit of a data-feed stub (`None`: tonic's default).
pub uninterp spec fn geyser_max_encoding(g: GeyserStub) -> Option<usize>;

/// The token that the interceptor of a health stub attaches.
pub uninterp spec fn health_token(h: HealthStub) -> Option<Seq<char>>;

/// The transport handle that a health stub sends over.
pub uninterp spec fn health_channel(h: HealthStub) -> Channel;

/// A health stub has tonic's default compression and message size limits.
pub uninterp spec fn health_defaults(h: HealthStub) -> bool;

/// Every setting of a data-feed stub.
pub open spec fn geyser_settings(g: GeyserStub) -> (
    Option<Seq<char>>,
    Channel,
    Option<CompressionEncoding>,
    Option<CompressionEncoding>,
    Option<usize>,
    Option<usize>,
) {
    (
        geyser_token(g),
        geyser_channel(g),
        geyser_send_compressed(g),
        geyser_accept_compressed(g),
        geyser_max_decoding(g),
        geyser_max_encoding(g),
    )
}

/// Relies on `GeyserClient::with_interceptor`: a stub over `channel` whose
/// calls pass through `interceptor`, with tonic's default settings.
#[verifier::external_body]
fn geyser_with_interceptor(channel: Channel, interceptor: InterceptorXToken) -> (r: GeyserStub)
    ensures
        geyser_settings(r) == (interceptor.token_view(), channel, None::<CompressionEncoding>, None::<
            CompressionEncoding,
        >, None::<usize>, None::<usize>),
{
    GeyserClient::with_interceptor(channel, interceptor)
}

/// Relies on `HealthClient::with_interceptor`: a stub over `channel` whose
/// calls pass through `interceptor`.
#[verifier::external_body]
fn health_with_interceptor(channel: Channel, interceptor: InterceptorXToken) -> (r: HealthStub)
    ensures
        health_token(r) == interceptor.token_view(),
        health_channel(r) == channel,
        health_defaults(r),
{
    HealthClient::with_interceptor(channel, interceptor)
}

/// Relies on `GeyserClient::send_compressed`: sets that one setting.
#[verifier::external_body]
fn stub_send_compressed(g: GeyserStub, encoding: CompressionEncoding) -> (r: GeyserStub)
    ensures
        geyser_settings(r) == (geyser_token(g), geyser_channel(g), Some(encoding),
            geyser_accept_compressed(g), geyser_max_decoding(g), geyser_max_encoding(g)),
{
    g.send_compressed(encoding)
}

/// Relies on `GeyserClient::accept_compressed`: adds `encoding` to the
/// accepted ones; on a stub that accepts none yet, it is the only one.
#[verifier::external_body]
fn stub_accept_compressed(g: GeyserStub, encoding: CompressionEncoding) -> (r: GeyserStub)
    requires
        geyser_accept_compressed(g) is None,
    ensures
        geyser_settings(r) == (geyser_token(g), geyser_channel(g), geyser_send_compressed(g),
            Some(encoding), geyser_max_decoding(g), geyser_max_encoding(g)),
{
    g.accept_compressed(encoding)
}

/// Relies on `GeyserClient::max_decoding_message_size`: sets that one setting.
#[verifier::external_body]
fn stub_max_decoding_message_size(g: GeyserStub, limit: usize) -> (r: GeyserStub)
    ensures
        geyser_settings(r) == (geyser_token(g), geyser_channel(g), geyser_send_compressed(g),
            geyser_accept_compressed(g), Some(limit), geyser_max_encoding(g)),
{
    g.max_decoding_message_size(limit)
}

/// Relies on `GeyserClient::max_encoding_message_size`: sets that one setting.
#[verifier::external_body]
fn stub_max_encoding_message_size(g: GeyserStub, limit: usize) -> (r: GeyserStub)
    ensures
        geyser_settings(r) == (geyser_token(g), geyser_channel(g), geyser_send_compressed(g),
            geyser_accept_compressed(g), geyser_max_decoding(g), Some(limit)),
{
    g.max_encoding_message_size(limit)
}

/// The configuration of a connection, accumulated step by step. It is
/// buildable once a transport handle is present.
#[derive(Debug)]
pub struct GeyserGrpcBuilder {
    pub endpoint: Endpoint,
    pub channel: Option<Channel>,
    pub x_token: Option<String>,
    pub send_compressed: Option<CompressionEncoding>,
    pub accept_compressed: Option<CompressionEncoding>,
    pub max_decoding_message_size: Option<usize>,
    pub max_encoding_message_size: Option<usize>,
}

impl GeyserGrpcBuilder {
    /// The stored token, if any, is one that `x_token` accepts.
    pub open spec fn wf(&self) -> bool {
        match self.x_token {
            Some(t) => token_ok(t@),
            None => true,
        }
    }

    pub open spec fn token_view(&self) -> Option<Seq<char>> {
        match self.x_token {
            Some(t) => Some(t@),
            None => None,
        }
    }

    /// A transport handle is present: `build` can succeed.
    pub open spec fn is_buildable(&self) -> bool {
        self.channel is Some
    }

    /// A builder as it stands right after construction.
    pub open spec fn is_fresh(&self) -> bool {
        &&& self.channel is None
        &&& self.x_token is None
        &&& self.send_compressed is None
        &&& self.accept_compressed is None
        &&& self.max_decoding_message_size is None
        &&& self.max_encoding_message_size is None
    }

    /// `a` and `b` agree on everything but the endpoint and the channel.
    pub open spec fn same_stub_settings(a: &Self, b: &Self) -> bool {
        &&& a.token_view() == b.token_view()
        &&& a.send_compressed == b.send_compressed
        &&& a.accept_compressed == b.accept_compressed
        &&& a.max_decoding_message_size == b.max_decoding_message_size
        &&& a.max_encoding_message_size == b.max_encoding_message_size
    }

    /// `r` is `b` with only its endpoint settings changed, to `settings`.
    pub open spec fn endpoint_step(b: &Self, r: &Self, settings: EndpointSettings) -> bool {
        &&& Self::same_stub_settings(b, r)
        &&& r.channel == b.channel
        &&& (b.wf() ==> r.wf())
        &&& settings_of(r.endpoint) == settings
    }

    /// What `from_shared` returns for the text `s`.
    pub open spec fn from_shared_spec(s: Seq<char>, r: GeyserGrpcBuilderResult<Self>) -> bool {
        &&& (r is Ok <==> endpoint_accepts(s))
        &&& (r matches Ok(b) ==> b.is_fresh() && b.wf())
        &&& (r is Err ==> r matches Err(GeyserGrpcBuilderError::TonicError(_)))
    }

    /// What `x_token` returns for the token `t` (as text, if any).
    pub open spec fn x_token_spec(b: Self, t: Option<Seq<char>>, r: GeyserGrpcBuilderResult<Self>) -> bool {
        &&& (t is None ==> (r matches Ok(c) && c.x_token is None))
        &&& (t matches Some(v) && !metadata_value_ok(v) ==> r matches Err(
            GeyserGrpcBuilderError::MetadataValueError(_),
        ))
        &&& (t matches Some(v) && metadata_value_ok(v) && !header_value_ok(v) ==> r matches Err(
            GeyserGrpcBuilderError::XTokenNotAscii,
        ))
        &&& (t matches Some(v) && v.len() == 0 ==> r matches Err(
            GeyserGrpcBuilderError::InvalidXTokenLength(0),
        ))
        &&& (t matches Some(v) && token_ok(v) ==> r is Ok)
        &&& (r matches Ok(c) ==> c.token_view() == t && (b.wf() ==> c.wf()) && c.endpoint
            == b.endpoint && c.channel == b.channel && c.send_compressed == b.send_compressed
            && c.accept_compressed == b.accept_compressed && c.max_decoding_message_size
            == b.max_decoding_message_size && c.max_encoding_message_size
            == b.max_encoding_message_size)
    }

    /// What `with_channel` returns.
    pub open spec fn with_channel_spec(b: Self, r: Self) -> bool {
        &&& r.is_buildable()
        &&& r.endpoint == b.endpoint
        &&& Self::same_stub_settings(&b, &r)
        &&& (b.wf() ==> r.wf())
    }

    /// What `build` returns: a client exactly when a transport handle is
    /// present, `EmptyChannel` otherwise. The health stub runs over that
    /// handle; both stubs carry the configured token; the data-feed stub
    /// carries the configured compression and size limits.
    pub open spec fn build_spec(b: Self, r: GeyserGrpcBuilderResult<GeyserGrpcClient<InterceptorXToken>>) -> bool {
        &&& (r is Ok <==> b.is_buildable())
        &&& (r is Err ==> r matches Err(GeyserGrpcBuilderError::EmptyChannel))
        &&& (r matches Ok(c) ==> {
            &&& health_channel(c.health) == b.channel->Some_0
            &&& health_token(c.health) == b.token_view()
            &&& health_defaults(c.health)
            &&& geyser_token(c.geyser) == b.token_view()
            &&& geyser_send_compressed(c.geyser) == b.send_compressed
            &&& geyser_accept_compressed(c.geyser) == b.accept_compressed
            &&& geyser_max_decoding(c.geyser) == b.max_decoding_message_size
            &&& geyser_max_encoding(c.geyser) == b.max_encoding_message_size
        })
    }

    fn new(endpoint: Endpoint) -> (r: Self)
        ensures
            r.is_fresh(),
            r.endpoint == endpoint,
            r.wf(),
    {
        GeyserGrpcBuilder {
            endpoint,
            channel: None,
            x_token: None,
            send_compressed: None,
            accept_compressed: None,
            max_decoding_message_size: None,
            max_encoding_message_size: None,
        }
    }

    /// A builder for the endpoint URI `endpoint`; a malformed URI is a
    /// transport error here, before any connection is attempted.
    pub fn from_shared(endpoint: &str) -> (r: GeyserGrpcBuilderResult<Self>)
        ensures
            Self::from_shared_spec(endpoint@, r),
    {
        match endpoint_from_shared(endpoint) {
            Ok(e) => Ok(Self::new(e)),
            Err(e) => Err(GeyserGrpcBuilderError::TonicError(e)),
        }
    }

    /// The interceptor that `build` puts on both stubs.
    pub fn interceptor(&self) -> (r: InterceptorXToken)
        requires
            self.wf(),
        ensures
            r.token_view() == self.token_view(),
    {
        let x_token = match &self.x_token {
            Some(t) => Some(t.clone()),
            None => None,
        };
        InterceptorXToken::from_checked(x_token)
    }

    /// Assembles the client. Without a transport handle it fails with
    /// `EmptyChannel` and makes no network call.
    pub fn build(self) -> (r: GeyserGrpcBuilderResult<GeyserGrpcClient<InterceptorXToken>>)
        requires
            self.wf(),
        ensures
            Self::build_spec(self, r),
    {
        let interceptor = self.interceptor();
        let channel = match self.channel {
            Some(c) => c,
            None => {
                return Err(GeyserGrpcBuilderError::EmptyChannel);
            },
        };
        let mut geyser = geyser_with_interceptor(clone_channel(&channel), interceptor.clone());
        if let Some(encoding) = self.send_compressed {
            geyser = stub_send_compressed(geyser, encoding);
        }
        if let Some(encoding) = self.accept_compressed {
            geyser = stub_accept_compressed(geyser, encoding);
        }
        if let Some(limit) = self.max_decoding_message_size {
            geyser = stub_max_decoding_message_size(geyser, limit);
        }
        if let Some(limit) = self.max_encoding_message_size {
            geyser = stub_max_encoding_message_size(geyser, limit);
        }
        Ok(GeyserGrpcClient::new(health_with_interceptor(channel, interceptor), geyser))
    }

    /// Sets or clears the token. A token that a metadata value cannot carry,
    /// a non-ASCII one, or an empty one is refused and the builder is not
    /// returned.
    pub fn x_token(self, x_token: Option<&str>) -> (r: GeyserGrpcBuilderResult<Self>)
        ensures
            Self::x_token_spec(self, str_view(x_token), r),
    {
        let checked = check_x_token(x_token);
        match checked {
            Err(e) => Err(e),
            Ok(x_token) => Ok(GeyserGrpcBuilder { x_token, ..self }),
        }
    }

    /// Takes the outcome of connecting this builder's endpoint: the channel on
    /// success, the transport error otherwise.
    pub fn connected(self, outcome: Result<Channel, tonic::transport::Error>) -> (r:
        GeyserGrpcBuilderResult<Self>)
        ensures
            outcome matches Ok(ch) ==> (r matches Ok(b) && b.channel == Some(ch) && b.endpoint
                == self.endpoint && Self::same_stub_settings(&self, &b) && (self.wf() ==> b.wf())),
            outcome matches Err(e) ==> r == Err::<Self, GeyserGrpcBuilderError>(
                GeyserGrpcBuilderError::TonicError(e),
            ),
    {
        match outcome {
            Ok(channel) => Ok(GeyserGrpcBuilder { channel: Some(channel), ..self }),
            Err(e) => Err(GeyserGrpcBuilderError::TonicError(e)),
        }
    }

    /// Makes the builder buildable with `channel`, a transport handle made
    /// from this builder's endpoint (eagerly or lazily) by the caller.
    pub fn with_channel(self, channel: Channel) -> (r: Self)
        ensures
            Self::with_channel_spec(self, r),
            r.channel == Some(channel),
    {
        GeyserGrpcBuilder { channel: Some(channel), ..self }
    }

    /// Sets up TLS on the endpoint; whether the configuration is usable is
    /// the transport's verdict, and its error is passed on unchanged.
    pub fn tls_config(self, tls_config: ClientTlsConfig) -> (r: GeyserGrpcBuilderResult<Self>)
        ensures
            r matches Ok(b) ==> Self::endpoint_step(
                &self,
                &b,
                EndpointSettings { tls: true, ..settings_of(self.endpoint) },
            ),
            r is Err ==> r matches Err(GeyserGrpcBuilderError::TonicError(_)),
    {
        match endpoint_tls_config(self.endpoint, tls_config) {
            Ok(endpoint) => Ok(GeyserGrpcBuilder { endpoint, ..self }),
            Err(e) => Err(GeyserGrpcBuilderError::TonicError(e)),
        }
    }

    /// Sets the request buffer size; zero is not a usable size (making a
    /// channel from such an endpoint panics).
    pub fn buffer_size(self, sz: Option<usize>) -> (r: Self)
        requires
            sz != Some(0usize),
        ensures
            Self::endpoint_step(
                &self,
                &r,
                EndpointSettings { buffer_size: sz, ..settings_of(self.endpoint) },
            ),
    {
        let endpoint = endpoint_buffer_size(self.endpoint, sz);
        GeyserGrpcBuilder { endpoint, ..self }
    }

    pub fn connect_timeout(self, dur: Duration) -> (r: Self)
        ensures
            Self::endpoint_step(
                &self,
                &r,
                EndpointSettings { connect_timeout: Some(dur), ..settings_of(self.endpoint) },
            ),
    {
        let endpoint = endpoint_connect_timeout(self.endpoint, dur);
        GeyserGrpcBuilder { endpoint, ..self }
    }

    pub fn timeout(self, dur: Duration) -> (r: Self)
        ensures
            Self::endpoint_step(
                &self,
                &r,
                EndpointSettings { timeout: Some(dur), ..settings_of(self.endpoint) },
            ),
    {
        let endpoint = endpoint_timeout(self.endpoint, dur);
        GeyserGrpcBuilder { endpoint, ..self }
    }

    pub fn http2_adaptive_window(self, enabled: bool) -> (r: Self)
        ensures
            Self::endpoint_step(
                &self,
                &r,
                EndpointSettings { http2_adaptive_window: Some(enabled), ..settings_of(self.endpoint) },
            ),
    {
        let endpoint = endpoint_http2_adaptive_window(self.endpoint, enabled);
        GeyserGrpcBuilder { endpoint, ..self }
    }

    pub fn http2_keep_alive_interval(self, interval: Duration) -> (r: Self)
        ensures
            Self::endpoint_step(
                &self,
                &r,
                EndpointSettings { http2_keep_alive_interval: Some(interval), ..settings_of(self.endpoint) },
            ),
    {
        let endpoint = endpoint_http2_keep_alive_interval(self.endpoint, interval);
        GeyserGrpcBuilder { endpoint, ..self }
    }

    pub fn initial_connection_window_size(self, sz: Option<u32>) -> (r: Self)
        ensures
            Self::endpoint_step(
                &self,
                &r,
                EndpointSettings { initial_connection_window_size: sz, ..settings_of(self.endpoint) },
            ),
    {
        let endpoint = endpoint_initial_connection_window_size(self.endpoint, sz);
        GeyserGrpcBuilder { endpoint, ..self }
    }

    pub fn initial_stream_window_size(self, sz: Option<u32>) -> (r: Self)
        ensures
            Self::endpoint_step(
                &self,
                &r,
                EndpointSettings { initial_stream_window_size: sz, ..settings_of(self.endpoint) },
            ),
    {
        let endpoint = endpoint_initial_stream_window_size(self.endpoint, sz);
        GeyserGrpcBuilder { endpoint, ..self }
    }

    pub fn keep_alive_timeout(self, duration: Duration) -> (r: Self)
        ensures
            Self::endpoint_step(
                &self,
                &r,
                EndpointSettings { keep_alive_timeout: Some(duration), ..settings_of(self.endpoint) },
            ),
    {
        let endpoint = endpoint_keep_alive_timeout(self.endpoint, duration);
        GeyserGrpcBuilder { endpoint, ..self }
    }

    pub fn keep_alive_while_idle(self, enabled: bool) -> (r: Self)
        ensures
            Self::endpoint_step(
                &self,
                &r,
                EndpointSettings { keep_alive_while_idle: Some(enabled), ..settings_of(self.endpoint) },
            ),
    {
        let endpoint = endpoint_keep_alive_while_idle(self.endpoint, enabled);
        GeyserGrpcBuilder { endpoint, ..self }
    }

    pub fn tcp_keepalive(self, tcp_keepalive: Option<Duration>) -> (r: Self)
        ensures
            Self::endpoint_step(
                &self,
                &r,
                EndpointSettings { tcp_keepalive: tcp_keepalive, ..settings_of(self.endpoint) },
            ),
    {
        let endpoint = endpoint_tcp_keepalive(self.endpoint, tcp_keepalive);
        GeyserGrpcBuilder { endpoint, ..self }
    }

    pub fn tcp_nodelay(self, enabled: bool) -> (r: Self)
        ensures
            Self::endpoint_step(
                &self,
                &r,
                EndpointSettings { tcp_nodelay: enabled, ..settings_of(self.endpoint) },
            ),
    {
        let endpoint = endpoint_tcp_nodelay(self.endpoint, enabled);
        GeyserGrpcBuilder { endpoint, ..self }
    }

    pub fn send_compressed(self, encoding: CompressionEncoding) -> (r: Self)
        ensures
            r.send_compressed == Some(encoding),
            r.endpoint == self.endpoint,
            r.channel == self.channel,
            r.token_view() == self.token_view(),
            r.accept_compressed == self.accept_compressed,
            r.max_decoding_message_size == self.max_decoding_message_size,
            r.max_encoding_message_size == self.max_encoding_message_size,
            self.wf() ==> r.wf(),
    {
        GeyserGrpcBuilder { send_compressed: Some(encoding), ..self }
    }

    pub fn accept_compressed(self, encoding: CompressionEncoding) -> (r: Self)
        ensures
            r.accept_compressed == Some(encoding),
            r.endpoint == self.endpoint,
            r.channel == self.channel,
            r.token_view() == self.token_view(),
            r.send_compressed == self.send_compressed,
            r.max_decoding_message_size == self.max_decoding_message_size,
            r.max_encoding_message_size == self.max_encoding_message_size,
            self.wf() ==> r.wf(),
    {
        GeyserGrpcBuilder { accept_compressed: Some(encoding), ..self }
    }

    pub fn max_decoding_message_size(self, limit: usize) -> (r: Self)
        ensures
            r.max_decoding_message_size == Some(limit),
            r.endpoint == self.endpoint,
            r.channel == self.channel,
            r.token_view() == self.token_view(),
            r.send_compressed == self.send_compressed,
            r.accept_compressed == self.accept_compressed,
            r.max_encoding_message_size == self.max_encoding_message_size,
            self.wf() ==> r.wf(),
    {
        GeyserGrpcBuilder { max_decoding_message_size: Some(limit), ..self }
    }

    pub fn max_encoding_message_size(self, limit: usize) -> (r: Self)
        ensures
            r.max_encoding_message_size == Some(limit),
            r.endpoint == self.endpoint,
            r.channel == self.channel,
            r.token_view() == self.token_view(),
            r.send_compressed == self.send_compressed,
            r.accept_compressed == self.accept_compressed,
            r.max_decoding_message_size == self.max_decoding_message_size,
            self.wf() ==> r.wf(),
    {
        GeyserGrpcBuilder { max_encoding_message_size: Some(limit), ..self }
    }

}

} // verus!
