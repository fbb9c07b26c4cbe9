//! The event of an application's main loop: render, update or input.

use vstd::prelude::*;
use crate::generic_event::{EventId, GenericEvent, Payload};
use crate::input::Input;
use crate::render::RenderArgs;
use crate::update::UpdateArgs;

verus! {

/// An event of the main loop. It is an envelope around an envelope: what an
/// `Input` carries, an `Event::Input` carries too.
#[derive(Debug, PartialEq, Eq)]
pub enum Event {
    /// The next frame should be rendered.
    Render(RenderArgs),
    /// The application should advance its state.
    Update(UpdateArgs),
    /// The user did something.
    Input(Input),
}

impl Clone for Event {
    fn clone(&self) -> (r: Event)
        ensures
            r == *self,
    {
        match self {
            Event::Render(args) => Event::Render(*args),
            Event::Update(args) => Event::Update(*args),
            Event::Input(input) => Event::Input(input.clone()),
        }
    }
}

impl Event {
    /// The event that carries `args`.
    pub open spec fn of_payload(args: Payload) -> Event {
        match args {
            Payload::Render(render_args) => Event::Render(render_args),
            Payload::Update(update_args) => Event::Update(update_args),
            _ => Event::Input(Input::of_payload(args).unwrap()),
        }
    }

    /// The payload of an event.
    pub open spec fn to_payload(&self) -> Payload {
        match *self {
            Event::Render(render_args) => Payload::Render(render_args),
            Event::Update(update_args) => Payload::Update(update_args),
            Event::Input(input) => input.to_payload(),
        }
    }

    /// Reading the payload of the event made of `args` gives `args` back, and
    /// making an event of the payload of `event` gives `event` back.
    pub proof fn payload_round_trip(args: Payload, event: Event)
        ensures
            Event::of_payload(args).to_payload() == args,
            Event::of_payload(event.to_payload()) == event,
    {
        Input::payload_round_trip(args, Input::Focus(true));
        match event {
            Event::Input(input) => {
                Input::payload_round_trip(args, input);
            },
            _ => {},
        }
    }
}

impl GenericEvent for Event {
    open spec fn payload(&self) -> Payload {
        self.to_payload()
    }

    open spec fn carries(id: EventId) -> bool {
        true
    }

    open spec fn made_from(args: Payload, old_event: &Self) -> Option<Self> {
        Some(Event::of_payload(args))
    }

    proof fn made_from_carries(args: Payload, old_event: &Self) {
        Event::payload_round_trip(args, *old_event);
    }

    fn event_id(&self) -> (id: EventId) {
        match self {
            Event::Render(_) => EventId::Render,
            Event::Update(_) => EventId::Update,
            Event::Input(input) => input.event_id(),
        }
    }

    fn with_args<U, F: FnOnce(&Payload) -> U>(&self, f: F) -> (r: U) {
        match self {
            Event::Render(render_args) => {
                let args = Payload::Render(*render_args);
                f(&args)
            },
            Event::Update(update_args) => {
                let args = Payload::Update(*update_args);
                f(&args)
            },
            Event::Input(input) => input.with_args(f),
        }
    }

    fn from_args(args: &Payload, old_event: &Self) -> (r: Option<Self>) {
        match args {
            Payload::Render(render_args) => Some(Event::Render(*render_args)),
            Payload::Update(update_args) => Some(Event::Update(*update_args)),
            _ => match Input::from_payload(args) {
                Some(input) => Some(Event::Input(input)),
                None => None,
            },
        }
    }
}

} // verus!
