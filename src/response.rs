use crate::error::{GeyserGrpcClientError, GeyserGrpcClientResult};
use tonic::{Response, Status};
use vstd::prelude::*;

verus! {

#[verifier::external_type_specification]
#[verifier::external_body]
#[verifier::reject_recursive_types(T)]
pub struct ExResponse<T>(Response<T>);

/// Relies on `Response::into_inner`: the message without its metadata.
#[verifier::external_body]
fn response_into_inner<T>(response: Response<T>) -> T {
    response.into_inner()
}

/// The outcome of an RPC as the client reports it: the message on success,
/// the status unmodified otherwise. Nothing is retried.
pub fn response_result<T>(outcome: Result<Response<T>, Status>) -> (r: GeyserGrpcClientResult<T>)
    ensures
        r is Ok <==> outcome is Ok,
        outcome matches Err(s) ==> r == Err::<T, GeyserGrpcClientError>(
            GeyserGrpcClientError::TonicStatus(s),
        ),
{
    match outcome {
        Ok(response) => Ok(response_into_inner(response)),
        Err(status) => Err(GeyserGrpcClientError::TonicStatus(status)),
    }
}

} // verus!
