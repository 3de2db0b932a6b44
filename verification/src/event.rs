//! Native events, and handing what they carry to a callback.
//!
//! A widget reports a change through a custom event whose detail holds the
//! payload. An adapter takes the detail out, turns it into the type that the
//! application's callback expects, and calls the callback with it. An event
//! without a detail where one is expected is a fault in the program, not a
//! condition to recover from: the functions here leave it out by their
//! preconditions.

use vstd::pervasive::unreached;
use vstd::prelude::*;

verus! {

/// A native event, reduced to what an adapter reads of it. `D` is the type of
/// the detail.
#[derive(Debug)]
pub enum NativeEvent<D> {
    /// A custom event and the detail that it carries.
    Custom(D),
    /// Any other event; it carries no detail.
    Plain,
}

impl<D> NativeEvent<D> {
    /// Whether the event carries a detail.
    pub fn has_details(&self) -> (custom: bool)
        ensures
            custom == (self is Custom),
    {
        match self {
            NativeEvent::Custom(_) => true,
            NativeEvent::Plain => false,
        }
    }
}

/// Takes the detail out of a custom event.
pub fn event_into_details<D>(event: NativeEvent<D>) -> (detail: D)
    requires
        event is Custom,
    ensures
        detail == event->0,
{
    match event {
        NativeEvent::Custom(detail) => detail,
        NativeEvent::Plain => unreached(),
    }
}

/// Takes the detail out of a custom event and turns it into the type that a
/// callback expects.
pub fn event_details_into<D, T, F: FnOnce(D) -> T>(
    event: NativeEvent<D>,
    convert: F,
) -> (payload: T)
    requires
        event is Custom,
        call_requires(convert, (event->0,)),
    ensures
        call_ensures(convert, (event->0,), payload),
{
    convert(event_into_details(event))
}

/// Hands the payload of a custom event to a callback: the detail is taken
/// out, converted, and the callback is called once with the result.
pub fn forward_details<D, T, F: FnOnce(D) -> T, G: Fn(T)>(
    event: NativeEvent<D>,
    convert: F,
    callback: &G,
)
    requires
        event is Custom,
        call_requires(convert, (event->0,)),
        forall|payload: T|
            call_ensures(convert, (event->0,), payload) ==> call_requires(*callback, (payload,)),
    ensures
        exists|payload: T|
            call_ensures(convert, (event->0,), payload) && #[trigger] call_ensures(
                *callback,
                (payload,),
                (),
            ),
{
    let payload = event_details_into(event, convert);
    let ghost sent = payload;
    callback(payload);
    assert(call_ensures(*callback, (sent,), ()));
}

} // verus!
