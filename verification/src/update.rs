//! Update events.

use vstd::prelude::*;
use vstd::pervasive::unreached;
use crate::generic_event::{EventId, GenericEvent, Payload, UPDATE};

verus! {

/// The arguments of an update event.
#[derive(Copy, Clone, Debug, PartialEq, Eq, Structural)]
pub struct UpdateArgs {
    /// The time since the last update in seconds: the IEEE 754 bit pattern
    /// of a 64-bit floating point number.
    pub dt: u64,
}

impl Payload {
    /// The arguments of an update payload; `None` for every other kind.
    pub open spec fn update(&self) -> Option<UpdateArgs> {
        match *self {
            Payload::Update(args) => Some(args),
            _ => None,
        }
    }
}

/// When the application state should be updated.
pub trait UpdateEvent: GenericEvent {
    /// Creates an update event.
    fn from_update_args(args: &UpdateArgs, old_event: &Self) -> (r: Option<Self>)
        ensures
            r == Self::made_from(Payload::Update(*args), old_event),
            r is Some <==> Self::carries(EventId::Update),
            r matches Some(e) ==> e.payload().update() == Some(*args),
    {
        proof {
            Self::made_from_carries(Payload::Update(*args), old_event);
        }
        Self::from_args(&Payload::Update(*args), old_event)
    }

    /// Calls closure if this is an update event.
    fn update<U, F: FnOnce(&UpdateArgs) -> U>(&self, f: F) -> (r: Option<U>)
        requires
            self.payload().update() matches Some(v) ==> f.requires((&v,)),
        ensures
            match self.payload().update() {
                Some(v) => r matches Some(u) && f.ensures((&v,), u),
                None => r is None,
            },
    {
        if self.event_id() != UPDATE {
            return None;
        }
        let visit = |args: &Payload| -> (r: Option<U>)
            requires
                args.update() is Some,
                f.requires((&args.update().unwrap(),)),
            ensures
                r is Some,
                f.ensures((&args.update().unwrap(),), r.unwrap()),
            {
                match args {
                    Payload::Update(args) => Some(f(args)),
                    _ => unreached(),
                }
            };
        self.with_args(visit)
    }

    /// Returns update arguments.
    fn update_args(&self) -> (r: Option<UpdateArgs>)
        ensures
            r == self.payload().update(),
    {
        self.update(|args: &UpdateArgs| -> (v: UpdateArgs) ensures v == *args { *args })
    }
}

impl<T: GenericEvent> UpdateEvent for T {}

/// Reading an update event gives back what it was made of.
pub proof fn update_reads_what_was_made<E: GenericEvent>(args: UpdateArgs, old_event: &E)
    ensures
        E::made_from(Payload::Update(args), old_event) matches Some(e) ==> e.payload().update()
            == Some(args),
{
    E::made_from_carries(Payload::Update(args), old_event);
}

/// An event made of a payload of another kind reads as no update event.
pub proof fn update_of_other_kind_is_none<E: GenericEvent>(args: Payload, old_event: &E)
    requires
        args.id() != EventId::Update,
    ensures
        E::made_from(args, old_event) matches Some(e) ==> e.payload().update() is None,
{
    E::made_from_carries(args, old_event);
}

} // verus!
