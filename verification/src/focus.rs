//! Focus events.

use vstd::prelude::*;
use vstd::pervasive::unreached;
use crate::generic_event::{EventId, GenericEvent, Payload, FOCUS};

verus! {

impl Payload {
    /// The flag of a focus payload; `None` for every other kind.
    pub open spec fn focus(&self) -> Option<bool> {
        match *self {
            Payload::Focus(focused) => Some(focused),
            _ => None,
        }
    }
}

/// When the window gains or loses focus.
pub trait FocusEvent: GenericEvent {
    /// Creates a focus event.
    fn from_focused(focused: bool, old_event: &Self) -> (r: Option<Self>)
        ensures
            r == Self::made_from(Payload::Focus(focused), old_event),
            r is Some <==> Self::carries(EventId::Focus),
            r matches Some(e) ==> e.payload().focus() == Some(focused),
    {
        proof {
            Self::made_from_carries(Payload::Focus(focused), old_event);
        }
        Self::from_args(&Payload::Focus(focused), old_event)
    }

    /// Calls closure if this is a focus event.
    fn focus<U, F: FnOnce(bool) -> U>(&self, f: F) -> (r: Option<U>)
        requires
            self.payload().focus() matches Some(v) ==> f.requires((v,)),
        ensures
            match self.payload().focus() {
                Some(v) => r matches Some(u) && f.ensures((v,), u),
                None => r is None,
            },
    {
        if self.event_id() != FOCUS {
            return None;
        }
        let visit = |args: &Payload| -> (r: Option<U>)
            requires
                args.focus() is Some,
                f.requires((args.focus().unwrap(),)),
            ensures
                r is Some,
                f.ensures((args.focus().unwrap(),), r.unwrap()),
            {
                match args {
                    Payload::Focus(focused) => Some(f(*focused)),
                    _ => unreached(),
                }
            };
        self.with_args(visit)
    }

    /// Returns focus arguments.
    fn focus_args(&self) -> (r: Option<bool>)
        ensures
            r == self.payload().focus(),
    {
        self.focus(|focused: bool| -> (v: bool) ensures v == focused { focused })
    }
}

impl<T: GenericEvent> FocusEvent for T {}

/// Reading a focus event gives back what it was made of.
pub proof fn focus_reads_what_was_made<E: GenericEvent>(focused: bool, old_event: &E)
    ensures
        E::made_from(Payload::Focus(focused), old_event) matches Some(e) ==> e.payload().focus()
            == Some(focused),
{
    E::made_from_carries(Payload::Focus(focused), old_event);
}

/// An event made of a payload of another kind reads as no focus event.
pub proof fn focus_of_other_kind_is_none<E: GenericEvent>(args: Payload, old_event: &E)
    requires
        args.id() != EventId::Focus,
    ensures
        E::made_from(args, old_event) matches Some(e) ==> e.payload().focus() is None,
{
    E::made_from_carries(args, old_event);
}

} // verus!
