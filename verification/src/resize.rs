//! Resize events.

use vstd::prelude::*;
use vstd::pervasive::unreached;
use crate::generic_event::{EventId, GenericEvent, Payload, RESIZE};

verus! {

impl Payload {
    /// The width and height of a resize payload; `None` for every other kind.
    pub open spec fn resize(&self) -> Option<(u32, u32)> {
        match *self {
            Payload::Resize(w, h) => Some((w, h)),
            _ => None,
        }
    }
}

/// When the window is resized.
pub trait ResizeEvent: GenericEvent {
    /// Creates a resize event.
    fn from_width_height(w: u32, h: u32, old_event: &Self) -> (r: Option<Self>)
        ensures
            r == Self::made_from(Payload::Resize(w, h), old_event),
            r is Some <==> Self::carries(EventId::Resize),
            r matches Some(e) ==> e.payload().resize() == Some((w, h)),
    {
        proof {
            Self::made_from_carries(Payload::Resize(w, h), old_event);
        }
        Self::from_args(&Payload::Resize(w, h), old_event)
    }

    /// Calls closure if this is a resize event.
    fn resize<U, F: FnOnce(u32, u32) -> U>(&self, f: F) -> (r: Option<U>)
        requires
            self.payload().resize() matches Some(v) ==> f.requires((v.0, v.1)),
        ensures
            match self.payload().resize() {
                Some(v) => r matches Some(u) && f.ensures((v.0, v.1), u),
                None => r is None,
            },
    {
        if self.event_id() != RESIZE {
            return None;
        }
        let visit = |args: &Payload| -> (r: Option<U>)
            requires
                args.resize() is Some,
                f.requires((args.resize().unwrap().0, args.resize().unwrap().1)),
            ensures
                r is Some,
                f.ensures((args.resize().unwrap().0, args.resize().unwrap().1), r.unwrap()),
            {
                match args {
                    Payload::Resize(w, h) => Some(f(*w, *h)),
                    _ => unreached(),
                }
            };
        self.with_args(visit)
    }

    /// Returns resize arguments.
    fn resize_args(&self) -> (r: Option<(u32, u32)>)
        ensures
            r == self.payload().resize(),
    {
        self.resize(|w: u32, h: u32| -> (v: (u32, u32)) ensures v == (w, h) { (w, h) })
    }
}

impl<T: GenericEvent> ResizeEvent for T {}

/// Reading a resize event gives back what it was made of.
pub proof fn resize_reads_what_was_made<E: GenericEvent>(w: u32, h: u32, old_event: &E)
    ensures
        E::made_from(Payload::Resize(w, h), old_event) matches Some(e) ==> e.payload().resize()
            == Some((w, h)),
{
    E::made_from_carries(Payload::Resize(w, h), old_event);
}

/// An event made of a payload of another kind reads as no resize event.
pub proof fn resize_of_other_kind_is_none<E: GenericEvent>(args: Payload, old_event: &E)
    requires
        args.id() != EventId::Resize,
    ensures
        E::made_from(args, old_event) matches Some(e) ==> e.payload().resize() is None,
{
    E::made_from_carries(args, old_event);
}

} // verus!
