use crate::error::{GeyserGrpcClientError, GeyserGrpcClientResult};
use futures::channel::mpsc::{self, SendError, UnboundedReceiver, UnboundedSender};
use vstd::prelude::*;
use yellowstone_grpc_proto::prelude::SubscribeRequest;

verus! {

#[verifier::external_type_specification]
#[verifier::external_body]
pub struct ExSubscribeRequest(SubscribeRequest);

#[verifier::external_type_specification]
#[verifier::external_body]
#[verifier::reject_recursive_types(T)]
pub struct ExUnboundedSender<T>(UnboundedSender<T>);

#[verifier::external_type_specification]
#[verifier::external_body]
#[verifier::reject_recursive_types(T)]
pub struct ExUnboundedReceiver<T>(UnboundedReceiver<T>);

/// The producer half of a subscription: it accepts further requests at any
/// point of the session and never blocks, as the queue has no bound.
pub type RequestSink = UnboundedSender<SubscribeRequest>;

/// The consumer half, handed to the RPC as its outbound stream.
pub type RequestSource = UnboundedReceiver<SubscribeRequest>;

/// An unbounded request queue whose two halves are held together until the
/// subscription is opened. Holding the receiver keeps the queue open.
#[verifier::external_body]
pub struct RequestQueue {
    tx: RequestSink,
    rx: RequestSource,
}

/// The requests waiting in a queue, oldest first.
pub uninterp spec fn queued(q: RequestQueue) -> Seq<SubscribeRequest>;

/// Relies on `futures::channel::mpsc::unbounded`: a fresh, empty queue.
#[verifier::external_body]
fn new_queue() -> (r: RequestQueue)
    ensures
        queued(r) == Seq::<SubscribeRequest>::empty(),
{
    let (tx, rx) = mpsc::unbounded();
    RequestQueue { tx, rx }
}

/// Relies on `UnboundedSender::unbounded_send`, which appends at the back
/// and fails only once the receiving half is closed or dropped; the queue
/// holds its receiver, so the send succeeds. The error, were there one, is
/// the `SendError` of `TrySendError::into_send_error`.
#[verifier::external_body]
fn queue_push(q: &mut RequestQueue, request: SubscribeRequest) -> (r: Result<(), SendError>)
    ensures
        r is Ok,
        queued(*final(q)) == queued(*old(q)).push(request),
{
    q.tx.unbounded_send(request).map_err(|e| e.into_send_error())
}

/// The requests waiting in the receiving half of a queue, oldest first: what
/// it yields before anything sent later.
pub uninterp spec fn pending(rx: RequestSource) -> Seq<SubscribeRequest>;

impl RequestQueue {
    /// Relies on nothing but moving the two halves out: the sink for the
    /// caller and the source for the RPC, which yields the queued requests
    /// first, in order.
    #[verifier::external_body]
    pub fn into_parts(self) -> (r: (RequestSink, RequestSource))
        ensures
            pending(r.1) == queued(self),
    {
        (self.tx, self.rx)
    }
}

/// What a subscription's queue holds when it is opened: the initial request
/// alone, or nothing.
pub open spec fn initial_queue(request: Option<SubscribeRequest>) -> Seq<SubscribeRequest> {
    match request {
        Some(x) => seq![x],
        None => Seq::empty(),
    }
}

/// Opens the request queue of a subscription. An initial request, if any,
/// is queued before the RPC is opened, so it is the first that the server
/// reads; a failure to queue it would be a send error, before any RPC.
pub fn open_request_queue(request: Option<SubscribeRequest>) -> (r: GeyserGrpcClientResult<RequestQueue>)
    ensures
        r matches Ok(q) && queued(q) == initial_queue(request),
{
    let mut q = new_queue();
    match request {
        Some(request) => match queue_push(&mut q, request) {
            Ok(()) => {
                assert(queued(q) =~= seq![request]);
                Ok(q)
            },
            Err(e) => Err(GeyserGrpcClientError::SubscribeSendError(e)),
        },
        None => Ok(q),
    }
}

} // verus!
