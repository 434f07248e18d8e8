//! One handler, written against a single HTTP request and response model, behind
//! several serverless triggers: an application load balancer, a REST-style and an
//! HTTP-style API gateway, and a websocket gateway. The crate turns each trigger's
//! envelope into the canonical request and the handler's response back into the
//! envelope that the same trigger expects.
//!
//! The crate does no waiting of its own. `Adapter::call` starts an invocation and
//! `TransformResponse::poll` says, for each thing that the driver of the
//! invocation saw happen, what state the invocation is in next and what the
//! driver is to do.

use vstd::prelude::*;
use lambda_runtime::Context;
use vstd::utf8::valid_utf8;
use crate::request::{
    decoded_body, normalization, normalize, reply_context_of, RawEnvelope, ReplyContext, Request,
    StructuralParseError,
};
use crate::response::{denormalized, LambdaResponse, Response};

pub mod encoding;
pub mod ext;
pub mod headers;
pub mod request;
pub mod response;
pub mod roundtrip;
pub mod strmap;

verus! {

/// What a look at a unit of work that runs elsewhere gave.
#[derive(Debug, PartialEq, Eq)]
pub enum Polled<T> {
    /// The work is done, with this result.
    Ready(T),
    /// The work is not done yet.
    Pending,
}

/// An invocation on its way from the handler to the reply envelope. `F` is the
/// handler's work in flight, `C` the work in flight that turns what the handler
/// answered into a response.
#[derive(Debug)]
pub enum TransformResponse<F, C> {
    /// The handler has not answered yet.
    Request(ReplyContext, F),
    /// The handler has answered; its answer is not a response yet.
    Response(ReplyContext, C),
}

/// What the driver of an invocation saw when it resumed the work that the
/// invocation waits for.
#[derive(Debug)]
pub enum Event<C, E> {
    /// The work is not done yet.
    Pending,
    /// The handler is done: it failed, or it answered and the answer is on its
    /// way to becoming a response.
    Handled(Result<C, E>),
    /// The answer of the handler has become a response.
    Converted(Response),
}

/// Where an invocation stands after an event, and what its driver is to do.
#[derive(Debug)]
pub enum Step<F, C, E> {
    /// Nothing can be done before the work in flight is resumed from outside.
    Suspend(TransformResponse<F, C>),
    /// The invocation has moved on; the work that it now waits for is to be
    /// resumed at once.
    Resume(TransformResponse<F, C>),
    /// The invocation is over, with the reply envelope or the handler's error.
    Complete(Result<LambdaResponse, E>),
}

impl<F, C> TransformResponse<F, C> {
    /// Whether `event` can come from the work that the invocation waits for: the
    /// handler's while it has not answered, the conversion's afterwards.
    pub open spec fn awaits<E>(self, event: Event<C, E>) -> bool {
        match self {
            TransformResponse::Request(_, _) => !(event is Converted),
            TransformResponse::Response(_, _) => !(event is Handled),
        }
    }

    /// What the reply to the invocation needs from its request.
    pub open spec fn reply_context(self) -> ReplyContext {
        match self {
            TransformResponse::Request(context, _) => context,
            TransformResponse::Response(context, _) => context,
        }
    }

    /// Advances the invocation by one event.
    ///
    /// While the handler has not answered: an error of the handler ends the
    /// invocation with that error, an answer moves the invocation on to the
    /// conversion, which is to be resumed at once. While the answer is being
    /// converted: the response, once it is there, is written into the reply
    /// envelope of the origin, and the invocation ends with it. In both states
    /// work that is not done leaves the invocation as it is.
    pub fn poll<E>(self, event: Event<C, E>) -> (r: Step<F, C, E>)
        requires
            self.awaits(event),
        ensures
            match (self, event) {
                (_, Event::Pending) => r == Step::<F, C, E>::Suspend(self),
                (TransformResponse::Request(context, _), Event::Handled(Ok(conversion))) => r
                    == Step::<F, C, E>::Resume(TransformResponse::Response(context, conversion)),
                (TransformResponse::Request(_, _), Event::Handled(Err(error))) => r
                    == Step::<F, C, E>::Complete(Err(error)),
                (TransformResponse::Response(context, _), Event::Converted(response)) => {
                    &&& r matches Step::Complete(Ok(reply))
                    &&& reply@ == denormalized(context@, response@)
                    &&& reply@.is_base64_encoded == !valid_utf8(response@.body)
                    &&& decoded_body(reply@.body, reply@.is_base64_encoded) == Some(
                        response@.body,
                    )
                },
                _ => true,
            },
    {
        match self {
            TransformResponse::Request(context, work) => match event {
                Event::Handled(Ok(conversion)) => Step::Resume(
                    TransformResponse::Response(context, conversion),
                ),
                Event::Handled(Err(error)) => Step::Complete(Err(error)),
                _ => Step::Suspend(TransformResponse::Request(context, work)),
            },
            TransformResponse::Response(context, work) => match event {
                Event::Converted(response) => Step::Complete(
                    Ok(LambdaResponse::from_response(&context, response)),
                ),
                _ => Step::Suspend(TransformResponse::Response(context, work)),
            },
        }
    }
}

/// A handler of canonical requests, wrapped so that it can be started with the
/// envelope of any trigger.
pub struct Adapter<S> {
    service: S,
}

impl<S> From<S> for Adapter<S> {
    /// Wraps `service`.
    fn from(service: S) -> (r: Adapter<S>)
        ensures
            r.handler() == service,
    {
        Adapter { service }
    }
}

impl<S> vstd::std_specs::convert::FromSpecImpl<S> for Adapter<S> {
    open spec fn obeys_from_spec() -> bool {
        true
    }

    closed spec fn from_spec(service: S) -> Adapter<S> {
        Adapter { service }
    }
}

impl<S> Adapter<S> {
    /// The wrapped handler.
    pub closed spec fn handler(self) -> S {
        self.service
    }

    /// Whether `state` is the state of an invocation that was started with
    /// `envelope` and `context`: it waits for the handler, which was called with
    /// the request that stands for the envelope, and it holds what the reply to
    /// that request needs.
    pub open spec fn started<F, C>(
        self,
        envelope: RawEnvelope,
        context: Context,
        state: TransformResponse<F, C>,
    ) -> bool where S: Fn(Request) -> F {
        &&& state matches TransformResponse::Request(reply, work)
        &&& exists|request: Request|
            {
                &&& normalization(envelope, context) is Ok
                &&& normalization(envelope, context)->Ok_0 == request@
                &&& reply@ == reply_context_of(request@)
                &&& #[trigger] call_ensures(self.handler(), (request,), work)
            }
    }

    /// Whether an invocation can be started: the adapter hands on what the
    /// wrapped handler said of itself, unchanged.
    pub fn poll_ready<E>(&self, inner: Polled<Result<(), E>>) -> (r: Polled<Result<(), E>>)
        ensures
            r == inner,
    {
        inner
    }

    /// Starts an invocation: turns `envelope` into the canonical request with
    /// `context` attached, hands the request to the wrapped handler and gives the
    /// state in which the invocation waits for the handler. Where the envelope
    /// cannot be turned into a request the invocation fails at once and the
    /// handler is not called.
    pub fn call<F, C>(&self, envelope: RawEnvelope, context: Context) -> (r: Result<
        TransformResponse<F, C>,
        StructuralParseError,
    >) where S: Fn(Request) -> F
        requires
            forall|request: Request|
                normalization(envelope, context) is Ok && normalization(envelope, context)->Ok_0
                    == request@ ==> #[trigger] call_requires(self.handler(), (request,)),
        ensures
            r is Ok <==> normalization(envelope, context) is Ok,
            r matches Err(error) ==> normalization(envelope, context)->Err_0 == error,
            r matches Ok(state) ==> self.started(envelope, context, state),
    {
        match normalize(envelope, context) {
            Ok(request) => {
                let reply = request.reply_context();
                let ghost handed = request;
                assert(call_requires(self.handler(), (handed,)));
                let work = (self.service)(request);
                assert(call_ensures(self.handler(), (handed,), work));
                let state = TransformResponse::Request(reply, work);
                proof {
                    assert(normalization(envelope, context)->Ok_0 =~= handed@);
                    assert(state matches TransformResponse::Request(a, b) && a == reply && b
                        == work);
                    assert(self.started(envelope, context, state));
                }
                Ok(state)
            },
            Err(error) => Err(error),
        }
    }
}

} // verus!
