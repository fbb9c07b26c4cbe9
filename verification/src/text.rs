//! Text events.

use vstd::prelude::*;
use vstd::pervasive::unreached;
use crate::generic_event::{EventId, GenericEvent, Payload, TEXT};

verus! {

impl Payload {
    /// The text of a text payload; `None` for every other kind.
    pub open spec fn text(&self) -> Option<String> {
        match *self {
            Payload::Text(text) => Some(text),
            _ => None,
        }
    }
}

/// When receiving text from user, such as typing a character.
pub trait TextEvent: GenericEvent {
    /// Creates a text event.
    fn from_text(text: &String, old_event: &Self) -> (r: Option<Self>)
        ensures
            r == Self::made_from(Payload::Text(*text), old_event),
            r is Some <==> Self::carries(EventId::Text),
            r matches Some(e) ==> e.payload().text() == Some(*text),
    {
        proof {
            Self::made_from_carries(Payload::Text(*text), old_event);
        }
        Self::from_args(&Payload::Text(text.clone()), old_event)
    }

    /// Calls closure if this is a text event.
    fn text<U, F: FnOnce(&String) -> U>(&self, f: F) -> (r: Option<U>)
        requires
            self.payload().text() matches Some(v) ==> f.requires((&v,)),
        ensures
            match self.payload().text() {
                Some(v) => r matches Some(u) && f.ensures((&v,), u),
                None => r is None,
            },
    {
        if self.event_id() != TEXT {
            return None;
        }
        let visit = |args: &Payload| -> (r: Option<U>)
            requires
                args.text() is Some,
                f.requires((&args.text().unwrap(),)),
            ensures
                r is Some,
                f.ensures((&args.text().unwrap(),), r.unwrap()),
            {
                match args {
                    Payload::Text(text) => Some(f(text)),
                    _ => unreached(),
                }
            };
        self.with_args(visit)
    }

    /// Returns text arguments.
    fn text_args(&self) -> (r: Option<String>)
        ensures
            r == self.payload().text(),
    {
        self.text(|text: &String| -> (v: String) ensures v == *text { text.clone() })
    }
}

impl<T: GenericEvent> TextEvent for T {}

/// Reading a text event gives back what it was made of.
pub proof fn text_reads_what_was_made<E: GenericEvent>(text: String, old_event: &E)
    ensures
        E::made_from(Payload::Text(text), old_event) matches Some(e) ==> e.payload().text()
            == Some(text),
{
    E::made_from_carries(Payload::Text(text), old_event);
}

/// An event made of a payload of another kind reads as no text event.
pub proof fn text_of_other_kind_is_none<E: GenericEvent>(args: Payload, old_event: &E)
    requires
        args.id() != EventId::Text,
    ensures
        E::made_from(args, old_event) matches Some(e) ==> e.payload().text() is None,
{
    E::made_from_carries(args, old_event);
}

} // verus!
