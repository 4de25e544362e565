use crate::builder::GeyserGrpcBuilder;
use crate::error::GeyserGrpcBuilderResult;
use tonic::service::interceptor::InterceptedService;
use tonic::transport::Channel;
use tonic_health::pb::health_client::HealthClient;
use vstd::prelude::*;
use yellowstone_grpc_proto::prelude::geyser_client::GeyserClient;

verus! {

#[verifier::external_type_specification]
#[verifier::external_body]
#[verifier::reject_recursive_types(S)]
#[verifier::reject_recursive_types(F)]
pub struct ExInterceptedService<S, F>(InterceptedService<S, F>);

#[verifier::external_type_specification]
#[verifier::external_body]
#[verifier::reject_recursive_types(T)]
pub struct ExHealthClient<T>(HealthClient<T>);

#[verifier::external_type_specification]
#[verifier::external_body]
#[verifier::reject_recursive_types(T)]
pub struct ExGeyserClient<T>(GeyserClient<T>);

/// The service name that health checks ask about.
pub const HEALTH_SERVICE: &'static str = "geyser.Geyser";

/// A connected client: the health stub and the data-feed stub, both over
/// one transport handle and both wrapped by the same interceptor.
#[verifier::reject_recursive_types(F)]
pub struct GeyserGrpcClient<F> {
    pub health: HealthClient<InterceptedService<Channel, F>>,
    pub geyser: GeyserClient<InterceptedService<Channel, F>>,
}

impl GeyserGrpcClient<()> {
    /// Starts a builder for the endpoint `endpoint`; a malformed URI is
    /// reported here, before any connection is attempted.
    pub fn build_from_shared(endpoint: &str) -> (r: GeyserGrpcBuilderResult<GeyserGrpcBuilder>)
        ensures
            GeyserGrpcBuilder::from_shared_spec(endpoint@, r),
    {
        GeyserGrpcBuilder::from_shared(endpoint)
    }
}

impl<F> GeyserGrpcClient<F> {
    pub fn new(
        health: HealthClient<InterceptedService<Channel, F>>,
        geyser: GeyserClient<InterceptedService<Channel, F>>,
    ) -> (r: Self)
        ensures
            r.health == health,
            r.geyser == geyser,
    {
        GeyserGrpcClient { health, geyser }
    }
}

} // verus!
