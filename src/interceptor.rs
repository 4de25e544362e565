use crate::error::GeyserGrpcBuilderResult;
use crate::token::{check_x_token, metadata_value_ok, token_ok};
use tonic::metadata::AsciiMetadataValue;
use tonic::service::Interceptor;
use tonic::{Request, Status};
use vstd::prelude::*;

verus! {

#[verifier::external_type_specification]
#[verifier::external_body]
#[verifier::reject_recursive_types(T)]
pub struct ExRequest<T>(Request<T>);

/// The metadata key under which an authenticated call carries its token.
pub const X_TOKEN_KEY: &'static str = "x-token";

/// The metadata entry that a configured token adds to every outgoing call.
pub open spec fn x_token_entry(x_token: Option<Seq<char>>) -> Option<(Seq<char>, Seq<char>)> {
    match x_token {
        Some(t) => Some((X_TOKEN_KEY@, t)),
        None => None,
    }
}

/// The values, as text, that a request carries under the `x-token` key.
pub uninterp spec fn x_token_values(r: Request<()>) -> Seq<Seq<char>>;

/// A request with its `x-token` entries left out: its other metadata, its
/// extensions and its message.
pub uninterp spec fn without_x_token(r: Request<()>) -> Request<()>;

/// Relies on `AsciiMetadataValue::try_from(&str)` and `MetadataMap::insert`:
/// the value converts (`requires`), and `insert` replaces every earlier
/// entry under the key with this one, leaving the rest of the request as it
/// was. The key is `x-token`, a valid ASCII key, so `insert` does not panic.
#[verifier::external_body]
fn insert_ascii_metadata(request: &mut Request<()>, key: &'static str, value: &str)
    requires
        key@ == X_TOKEN_KEY@,
        metadata_value_ok(value@),
    ensures
        x_token_values(*final(request)) == seq![value@],
        without_x_token(*final(request)) == without_x_token(*old(request)),
{
    if let Ok(value) = AsciiMetadataValue::try_from(value) {
        request.metadata_mut().insert(key, value);
    }
}

/// Attaches the configured token to every outgoing call. The token, if
/// any, is always one that the builder accepts.
#[derive(Debug)]
pub struct InterceptorXToken {
    x_token: Option<String>,
}

impl InterceptorXToken {
    #[verifier::type_invariant]
    spec fn wf(&self) -> bool {
        match self.x_token {
            Some(t) => token_ok(t@),
            None => true,
        }
    }

    /// The token this interceptor attaches, if any.
    pub closed spec fn token_view(&self) -> Option<Seq<char>> {
        match self.x_token {
            Some(t) => Some(t@),
            None => None,
        }
    }

    /// An interceptor for a token already validated.
    pub(crate) fn from_checked(x_token: Option<String>) -> (r: Self)
        requires
            x_token matches Some(t) ==> token_ok(t@),
        ensures
            r.token_view() == (match x_token {
                Some(t) => Some(t@),
                None => None,
            }),
    {
        InterceptorXToken { x_token }
    }

    /// An interceptor for `x_token`, validated as `x_token` on the builder
    /// validates it.
    pub fn new(x_token: Option<&str>) -> (r: GeyserGrpcBuilderResult<Self>)
        ensures
            x_token is None ==> (r matches Ok(i) && i.token_view() is None),
            x_token is Some && token_ok(x_token->Some_0@) ==> (r matches Ok(i) && i.token_view()
                == Some(x_token->Some_0@)),
            x_token is Some && !token_ok(x_token->Some_0@) ==> r is Err,
    {
        match check_x_token(x_token) {
            Ok(t) => Ok(Self::from_checked(t)),
            Err(e) => Err(e),
        }
    }

    /// The metadata entry, key and value, that this interceptor adds to a call.
    pub fn header(&self) -> (r: Option<(&'static str, String)>)
        ensures
            match r {
                Some((k, v)) => x_token_entry(self.token_view()) == Some((k@, v@)),
                None => x_token_entry(self.token_view()) is None,
            },
    {
        match &self.x_token {
            Some(t) => Some((X_TOKEN_KEY, t.clone())),
            None => None,
        }
    }
}

impl Clone for InterceptorXToken {
    fn clone(&self) -> (r: Self)
        ensures
            r.token_view() == self.token_view(),
    {
        proof {
            use_type_invariant(self);
        }
        let x_token = match &self.x_token {
            Some(t) => Some(t.clone()),
            None => None,
        };
        InterceptorXToken { x_token }
    }
}

impl Interceptor for InterceptorXToken {
    fn call(&mut self, request: Request<()>) -> (r: Result<Request<()>, Status>)
        ensures
            *final(self) == *old(self),
            r is Ok,
            old(self).token_view() is None ==> r == Ok::<Request<()>, Status>(request),
            old(self).token_view() matches Some(t) ==> (r matches Ok(q) && x_token_values(q)
                == seq![t] && without_x_token(q) == without_x_token(request)),
    {
        let mut request = request;
        proof {
            use_type_invariant(&*self);
        }
        match &self.x_token {
            Some(value) => {
                proof {
                    assert(metadata_value_ok(value@)) by {
                        assert forall|i: int| 0 <= i < value@.len() implies
                            crate::token::metadata_char_ok(#[trigger] value@[i]) by {
                            assert(crate::token::header_char_ok(value@[i]));
                        }
                    }
                }
                insert_ascii_metadata(&mut request, X_TOKEN_KEY, value.as_str());
            },
            None => {},
        }
        Ok(request)
    }
}

} // verus!
