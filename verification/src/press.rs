//! Press events.

use vstd::prelude::*;
use vstd::pervasive::unreached;
use crate::button::Button;
use crate::generic_event::{EventId, GenericEvent, Payload, PRESS};

verus! {

impl Payload {
    /// The button of a press payload; `None` for every other kind.
    pub open spec fn press(&self) -> Option<Button> {
        match *self {
            Payload::Press(button) => Some(button),
            _ => None,
        }
    }
}

/// The press of a button.
pub trait PressEvent: GenericEvent {
    /// Creates a press event.
    fn from_button(button: Button, old_event: &Self) -> (r: Option<Self>)
        ensures
            r == Self::made_from(Payload::Press(button), old_event),
            r is Some <==> Self::carries(EventId::Press),
            r matches Some(e) ==> e.payload().press() == Some(button),
    {
        proof {
            Self::made_from_carries(Payload::Press(button), old_event);
        }
        Self::from_args(&Payload::Press(button), old_event)
    }

    /// Calls closure if this is a press event.
    fn press<U, F: FnOnce(Button) -> U>(&self, f: F) -> (r: Option<U>)
        requires
            self.payload().press() matches Some(v) ==> f.requires((v,)),
        ensures
            match self.payload().press() {
                Some(v) => r matches Some(u) && f.ensures((v,), u),
                None => r is None,
            },
    {
        if self.event_id() != PRESS {
            return None;
        }
        let visit = |args: &Payload| -> (r: Option<U>)
            requires
                args.press() is Some,
                f.requires((args.press().unwrap(),)),
            ensures
                r is Some,
                f.ensures((args.press().unwrap(),), r.unwrap()),
            {
                match args {
                    Payload::Press(button) => Some(f(*button)),
                    _ => unreached(),
                }
            };
        self.with_args(visit)
    }

    /// Returns press arguments.
    fn press_args(&self) -> (r: Option<Button>)
        ensures
            r == self.payload().press(),
    {
        self.press(|button: Button| -> (v: Button) ensures v == button { button })
    }
}

impl<T: GenericEvent> PressEvent for T {}

/// Reading a press event gives back what it was made of.
pub proof fn press_reads_what_was_made<E: GenericEvent>(button: Button, old_event: &E)
    ensures
        E::made_from(Payload::Press(button), old_event) matches Some(e) ==> e.payload().press()
            == Some(button),
{
    E::made_from_carries(Payload::Press(button), old_event);
}

/// An event made of a payload of another kind reads as no press event.
pub proof fn press_of_other_kind_is_none<E: GenericEvent>(args: Payload, old_event: &E)
    requires
        args.id() != EventId::Press,
    ensures
        E::made_from(args, old_event) matches Some(e) ==> e.payload().press() is None,
{
    E::made_from_carries(args, old_event);
}

} // verus!
