use futures::channel::mpsc::SendError;
use tonic::metadata::errors::InvalidMetadataValue;
use tonic::Status;
use vstd::prelude::*;

verus! {

#[verifier::external_type_specification]
#[verifier::external_body]
pub struct ExInvalidMetadataValue(InvalidMetadataValue);

#[verifier::external_type_specification]
#[verifier::external_body]
pub struct ExTransportError(tonic::transport::Error);

#[verifier::external_type_specification]
#[verifier::external_body]
pub struct ExStatus(Status);

#[verifier::external_type_specification]
#[verifier::external_body]
pub struct ExSendError(SendError);

/// Failures of the calls made on a connected client.
#[derive(Debug)]
pub enum GeyserGrpcClientError {
    /// The server, or the RPC layer, answered with a non-success status.
    TonicStatus(Status),
    /// A subscribe request could not be queued: the receiving half is gone.
    SubscribeSendError(SendError),
}

pub type GeyserGrpcClientResult<T> = Result<T, GeyserGrpcClientError>;

/// Failures while configuring a connection and assembling a client.
#[derive(Debug)]
pub enum GeyserGrpcBuilderError {
    /// The token holds a byte that a metadata value cannot carry.
    MetadataValueError(InvalidMetadataValue),
    /// The token holds a character outside ASCII.
    XTokenNotAscii,
    /// The token is empty; the payload is its length.
    InvalidXTokenLength(usize),
    /// The transport refused the endpoint, its TLS settings or the connection.
    TonicError(tonic::transport::Error),
    /// `build` was called before `connect` or `connect_lazy`.
    EmptyChannel,
}

pub type GeyserGrpcBuilderResult<T> = Result<T, GeyserGrpcBuilderError>;

} // verus!
