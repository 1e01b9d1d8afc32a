//! Wiring of the hello-world feature into a registry and an event bus.

use crate::event::DynEventBus;
use crate::event::EventError;
use crate::event::TransportEvent;
use crate::hello_world::api::METHOD_GET;
use crate::hello_world::api::SERVICE;
use crate::hello_world::api::TOPIC_CALLED;
use crate::hello_world::domain::get_message;
use crate::hello_world::domain::greeting;
use crate::router::DynRpcRegistry;
use crate::router::RouterError;
use crate::router::rpc_handler;
use crate::router::RpcError;
use crate::router::RpcHandler;
use crate::router::RpcRequest;
use crate::router::RpcResponse;
use crate::router::valid_key;
use crate::text::is_whitespace;
use crate::types::DynClock;
use vstd::prelude::*;
use vstd::utf8::encode_utf8;

verus! {

/// Whether `out` is the outcome of a call that composed `message` and was
/// told `published` by the event bus: the message's bytes where the event
/// went out, and an internal error with the bus's words where it did not.
pub open spec fn greeting_outcome(
    message: Seq<char>,
    published: Result<(), EventError>,
    out: Result<RpcResponse, RpcError>,
) -> bool {
    match published {
        Ok(_) => out matches Ok(response) && response.payload@ == encode_utf8(message),
        Err(err) => out matches Err(RpcError::Internal(msg)) && msg@ == err.message_text(),
    }
}

/// Turns the composed message and the bus's answer into the call's outcome.
pub fn respond(message: String, published: Result<(), EventError>) -> (out: Result<
    RpcResponse,
    RpcError,
>)
    ensures
        greeting_outcome(message@, published, out),
{
    match published {
        Ok(()) => Ok(RpcResponse { payload: message.as_str().as_bytes_vec() }),
        Err(err) => Err(RpcError::Internal(err.message())),
    }
}

/// The event that tells of a call: the topic of the feature, and no payload.
pub fn called_event() -> (event: TransportEvent)
    ensures
        event.topic@ == TOPIC_CALLED@,
        event.payload@ == Seq::<u8>::empty(),
{
    TransportEvent { topic: TOPIC_CALLED.to_owned(), payload: Vec::new() }
}

/// Whether `event` tells of a call: the topic of the feature, and no payload.
pub open spec fn is_called_event(event: TransportEvent) -> bool {
    event.topic@ == TOPIC_CALLED@ && event.payload@ == Seq::<u8>::empty()
}

/// Whether `out` is an outcome of one call of the greeting method on `events`
/// and `clock`: the outcome for the greeting at a time that the clock told,
/// and for what the bus answered when it was told of the call.
pub open spec fn is_greeting(
    events: DynEventBus,
    clock: DynClock,
    out: Result<RpcResponse, RpcError>,
) -> bool {
    exists|timestamp: Seq<char>, event: TransportEvent, published: Result<(), EventError>|
        #![trigger events.publishes(event, published), greeting(timestamp)]
        clock.tells(timestamp) && is_called_event(event) && events.publishes(event, published)
            && greeting_outcome(greeting(timestamp), published, out)
}

/// Whether `handler` is the greeting method on `events` and `clock`: each of
/// its outcomes is one of a call of that method.
pub open spec fn greets(handler: RpcHandler, events: DynEventBus, clock: DynClock) -> bool {
    forall|req: RpcRequest, out: Result<RpcResponse, RpcError>| #[trigger]
        handler.answers(req, out) ==> is_greeting(events, clock, out)
}

/// Handles one call of the greeting method: reads the clock, composes the
/// greeting, tells the bus, and answers.
pub fn greet(events: &DynEventBus, clock: &DynClock) -> (out: Result<RpcResponse, RpcError>)
    ensures
        is_greeting(*events, *clock, out),
{
    let timestamp = clock.now_rfc3339();
    let message = get_message(timestamp.as_str());
    let event = called_event();
    let published = events.publish(event);
    let out = respond(message, published);
    assert(clock.tells(timestamp@) && is_called_event(event) && events.publishes(event, published)
        && greeting_outcome(greeting(timestamp@), published, out));
    out
}

/// The key of the greeting method is valid: none of its names is blank.
pub proof fn lemma_greeting_key_valid()
    ensures
        valid_key((SERVICE@, METHOD_GET@)),
{
    reveal_strlit("greeting");
    reveal_strlit("get");
    assert(!is_whitespace(SERVICE@[0]));
    assert(!is_whitespace(METHOD_GET@[0]));
}

/// Whether `result` is what `router` answered to the registration of the
/// greeting method on `events` and `clock` under the feature's key.
pub open spec fn is_registration(
    router: DynRpcRegistry,
    events: DynEventBus,
    clock: DynClock,
    result: Result<(), RouterError>,
) -> bool {
    exists|handler: RpcHandler|
        greets(handler, events, clock) && #[trigger] router.registers(
            (SERVICE@, METHOD_GET@),
            handler,
            result,
        )
}

/// Registers the greeting method on `events` and `clock` with `router`, and
/// returns what the registry answered. The key is valid, so the registration
/// succeeds unless the key is taken.
pub fn register(router: DynRpcRegistry, events: DynEventBus, clock: DynClock) -> (result: Result<
    (),
    RouterError,
>)
    ensures
        is_registration(router, events, clock, result),
        result matches Err(err) ==> err matches RouterError::DuplicateRegistration {
            service,
            method,
        } && service@ == SERVICE@ && method@ == METHOD_GET@,
{
    let handler = rpc_handler(
        move |_req: RpcRequest| -> (out: Result<RpcResponse, RpcError>)
            ensures
                is_greeting(events, clock, out)
            { greet(&events, &clock) },
    );
    proof {
        lemma_greeting_key_valid();
    }
    let result = router.register(SERVICE, METHOD_GET, handler);
    assert(greets(handler, events, clock) && router.registers(
        (SERVICE@, METHOD_GET@),
        handler,
        result,
    ));
    result
}

} // verus!
