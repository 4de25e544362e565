use crate::builder::{endpoint_accepts, EndpointSettings, geyser_token, health_token, GeyserGrpcBuilder};
use crate::client::GeyserGrpcClient;
use crate::error::{GeyserGrpcBuilderError, GeyserGrpcBuilderResult};
use crate::interceptor::{x_token_entry, InterceptorXToken, X_TOKEN_KEY};
use crate::subscribe::{initial_queue, queued, RequestQueue};
use crate::token::token_ok;
use yellowstone_grpc_proto::prelude::SubscribeRequest;
use vstd::prelude::*;

verus! {

/// Every endpoint that `from_shared` accepts, given a valid token or none,
/// given a transport handle, builds into a client; both of the client's stubs
/// attach exactly that token.
pub proof fn lemma_lazy_build_succeeds(
    uri: Seq<char>,
    token: Option<Seq<char>>,
    created: GeyserGrpcBuilderResult<GeyserGrpcBuilder>,
    tokened: GeyserGrpcBuilderResult<GeyserGrpcBuilder>,
    lazy: GeyserGrpcBuilder,
    built: GeyserGrpcBuilderResult<GeyserGrpcClient<InterceptorXToken>>,
)
    requires
        endpoint_accepts(uri),
        token matches Some(t) ==> token_ok(t),
        GeyserGrpcBuilder::from_shared_spec(uri, created),
        created matches Ok(b) ==> GeyserGrpcBuilder::x_token_spec(b, token, tokened),
        tokened matches Ok(b) ==> GeyserGrpcBuilder::with_channel_spec(b, lazy),
        GeyserGrpcBuilder::build_spec(lazy, built),
    ensures
        created is Ok,
        tokened is Ok,
        built matches Ok(c) && geyser_token(c.geyser) == token && health_token(c.health) == token,
{
}

/// An empty token is refused with the length error, whatever the builder.
pub proof fn lemma_empty_token_refused(
    b: GeyserGrpcBuilder,
    r: GeyserGrpcBuilderResult<GeyserGrpcBuilder>,
)
    requires
        GeyserGrpcBuilder::x_token_spec(b, Some(Seq::<char>::empty()), r),
    ensures
        r matches Err(GeyserGrpcBuilderError::InvalidXTokenLength(0)),
{
}

/// A non-empty token that metadata can carry is accepted, and the
/// interceptor built from the result sends it unchanged under `x-token`.
pub proof fn lemma_token_round_trip(
    b: GeyserGrpcBuilder,
    t: Seq<char>,
    r: GeyserGrpcBuilderResult<GeyserGrpcBuilder>,
    interceptor: InterceptorXToken,
)
    requires
        token_ok(t),
        GeyserGrpcBuilder::x_token_spec(b, Some(t), r),
        r matches Ok(c) ==> interceptor.token_view() == c.token_view(),
    ensures
        r is Ok,
        x_token_entry(interceptor.token_view()) == Some((X_TOKEN_KEY@, t)),
{
}

/// A builder that was never connected, however it was configured since,
/// fails to build with `EmptyChannel`.
pub proof fn lemma_build_needs_channel(
    b: GeyserGrpcBuilder,
    r: GeyserGrpcBuilderResult<GeyserGrpcClient<InterceptorXToken>>,
)
    requires
        !b.is_buildable(),
        GeyserGrpcBuilder::build_spec(b, r),
    ensures
        r matches Err(GeyserGrpcBuilderError::EmptyChannel),
{
}

/// Configuration steps on the endpoint keep a builder that was never
/// connected in that state; only `with_channel` and `connected` leave it.
pub proof fn lemma_endpoint_steps_keep_state(
    b: GeyserGrpcBuilder,
    r: GeyserGrpcBuilder,
    settings: EndpointSettings,
)
    requires
        GeyserGrpcBuilder::endpoint_step(&b, &r, settings),
    ensures
        r.is_buildable() == b.is_buildable(),
{
}

/// A subscription opened with an initial request has it queued ahead of
/// everything else, alone; one opened without has nothing queued, so the
/// first request the caller sends is the first the server reads.
pub proof fn lemma_initial_request_first(request: Option<SubscribeRequest>, q: RequestQueue)
    requires
        queued(q) == initial_queue(request),
    ensures
        request matches Some(x) ==> queued(q).len() == 1 && queued(q)[0] == x,
        request is None ==> queued(q).len() == 0,
{
}

} // verus!
