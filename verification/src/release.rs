//! Release events.

use vstd::prelude::*;
use vstd::pervasive::unreached;
use crate::button::Button;
use crate::generic_event::{EventId, GenericEvent, Payload, RELEASE};

verus! {

impl Payload {
    /// The button of a release payload; `None` for every other kind.
    pub open spec fn release(&self) -> Option<Button> {
        match *self {
            Payload::Release(button) => Some(button),
            _ => None,
        }
    }
}

/// The release of a button.
pub trait ReleaseEvent: GenericEvent {
    /// Creates a release event.
    fn from_button(button: Button, old_event: &Self) -> (r: Option<Self>)
        ensures
            r == Self::made_from(Payload::Release(button), old_event),
            r is Some <==> Self::carries(EventId::Release),
            r matches Some(e) ==> e.payload().release() == Some(button),
    {
        proof {
            Self::made_from_carries(Payload::Release(button), old_event);
        }
        Self::from_args(&Payload::Release(button), old_event)
    }

    /// Calls closure if this is a release event.
    fn release<U, F: FnOnce(Button) -> U>(&self, f: F) -> (r: Option<U>)
        requires
            self.payload().release() matches Some(v) ==> f.requires((v,)),
        ensures
            match self.payload().release() {
                Some(v) => r matches Some(u) && f.ensures((v,), u),
                None => r is None,
            },
    {
        if self.event_id() != RELEASE {
            return None;
        }
        let visit = |args: &Payload| -> (r: Option<U>)
            requires
                args.release() is Some,
                f.requires((args.release().unwrap(),)),
            ensures
                r is Some,
                f.ensures((args.release().unwrap(),), r.unwrap()),
            {
                match args {
                    Payload::Release(button) => Some(f(*button)),
                    _ => unreached(),
                }
            };
        self.with_args(visit)
    }

    /// Returns release arguments.
    fn release_args(&self) -> (r: Option<Button>)
        ensures
            r == self.payload().release(),
    {
        self.release(|button: Button| -> (v: Button) ensures v == button { button })
    }
}

impl<T: GenericEvent> ReleaseEvent for T {}

/// Reading a release event gives back what it was made of.
pub proof fn release_reads_what_was_made<E: GenericEvent>(button: Button, old_event: &E)
    ensures
        E::made_from(Payload::Release(button), old_event) matches Some(e) ==> e.payload().release()
            == Some(button),
{
    E::made_from_carries(Payload::Release(button), old_event);
}

/// An event made of a payload of another kind reads as no release event.
pub proof fn release_of_other_kind_is_none<E: GenericEvent>(args: Payload, old_event: &E)
    requires
        args.id() != EventId::Release,
    ensures
        E::made_from(args, old_event) matches Some(e) ==> e.payload().release() is None,
{
    E::made_from_carries(args, old_event);
}

} // verus!
