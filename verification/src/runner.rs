//! The loop around the controller: when it asks, steps, brakes and stops.
//!
//! The loop asks the program whether to go on, lets it take a step if so,
//! and asks again. An answer of no ends the loop with a shutdown. A failure,
//! of the question or of the step, ends it with the brake and is handed on.

use vstd::prelude::*;

verus! {

/// What the loop did last, and how that went. `E` is the failure of the
/// hardware.
pub enum Event<E> {
    /// Nothing yet.
    Begun,
    /// The program was asked whether to go on.
    Asked(Result<bool, E>),
    /// The program took a step.
    Stepped(Result<(), E>),
}

/// What the loop does next.
pub enum Turn<E> {
    /// Ask the program whether to go on.
    Ask,
    /// Let the program take a step.
    Step,
    /// Give the hardware back and end.
    Shutdown,
    /// Put the program into its safe mode and end with the failure.
    Brake(E),
}

/// The turn that follows an event.
pub open spec fn spec_turn<E>(event: Event<E>) -> Turn<E> {
    match event {
        Event::Begun => Turn::Ask,
        Event::Asked(Ok(true)) => Turn::Step,
        Event::Asked(Ok(false)) => Turn::Shutdown,
        Event::Asked(Err(e)) => Turn::Brake(e),
        Event::Stepped(Ok(())) => Turn::Ask,
        Event::Stepped(Err(e)) => Turn::Brake(e),
    }
}

/// Decides what the loop does next.
pub fn turn<E>(event: Event<E>) -> (r: Turn<E>)
    ensures
        r == spec_turn(event),
{
    match event {
        Event::Begun => Turn::Ask,
        Event::Asked(Ok(true)) => Turn::Step,
        Event::Asked(Ok(false)) => Turn::Shutdown,
        Event::Asked(Err(e)) => Turn::Brake(e),
        Event::Stepped(Ok(())) => Turn::Ask,
        Event::Stepped(Err(e)) => Turn::Brake(e),
    }
}

/// A step is taken only on the answer yes, the hardware is given back only
/// on the answer no, and every failure brakes with that failure.
pub proof fn lemma_turn<E>(event: Event<E>)
    ensures
        spec_turn(event) is Step <==> event == Event::<E>::Asked(Ok(true)),
        spec_turn(event) is Shutdown <==> event == Event::<E>::Asked(Ok(false)),
        spec_turn(event) matches Turn::Brake(e) ==> event == Event::<E>::Asked(Err(e)) || event
            == Event::<E>::Stepped(Err(e)),
        (event matches Event::Asked(Err(e)) ==> spec_turn(event) == Turn::Brake(e)),
        (event matches Event::Stepped(Err(e)) ==> spec_turn(event) == Turn::Brake(e)),
{
}

} // verus!
