//! Mouse events. Coordinates are IEEE 754 bit patterns of 64-bit floating
//! point numbers.

use vstd::prelude::*;
use vstd::pervasive::unreached;
use crate::generic_event::{
    EventId, GenericEvent, Payload, MOUSE_CURSOR, MOUSE_RELATIVE, MOUSE_SCROLL,
};

verus! {

impl Payload {
    /// The coordinates of a mouse cursor payload; `None` for every other kind.
    pub open spec fn mouse_cursor(&self) -> Option<(u64, u64)> {
        match *self {
            Payload::MouseCursor(x, y) => Some((x, y)),
            _ => None,
        }
    }
}

/// The position of the mouse cursor.
pub trait MouseCursorEvent: GenericEvent {
    /// Creates a mouse cursor event.
    fn from_xy(x: u64, y: u64, old_event: &Self) -> (r: Option<Self>)
        ensures
            r == Self::made_from(Payload::MouseCursor(x, y), old_event),
            r is Some <==> Self::carries(EventId::MouseCursor),
            r matches Some(e) ==> e.payload().mouse_cursor() == Some((x, y)),
    {
        proof {
            Self::made_from_carries(Payload::MouseCursor(x, y), old_event);
        }
        Self::from_args(&Payload::MouseCursor(x, y), old_event)
    }

    /// Calls closure if this is a mouse cursor event.
    fn mouse_cursor<U, F: FnOnce(u64, u64) -> U>(&self, f: F) -> (r: Option<U>)
        requires
            self.payload().mouse_cursor() matches Some(v) ==> f.requires((v.0, v.1)),
        ensures
            match self.payload().mouse_cursor() {
                Some(v) => r matches Some(u) && f.ensures((v.0, v.1), u),
                None => r is None,
            },
    {
        if self.event_id() != MOUSE_CURSOR {
            return None;
        }
        let visit = |args: &Payload| -> (r: Option<U>)
            requires
                args.mouse_cursor() is Some,
                f.requires((args.mouse_cursor().unwrap().0, args.mouse_cursor().unwrap().1)),
            ensures
                r is Some,
                f.ensures((args.mouse_cursor().unwrap().0, args.mouse_cursor().unwrap().1), r.unwrap()),
            {
                match args {
                    Payload::MouseCursor(x, y) => Some(f(*x, *y)),
                    _ => unreached(),
                }
            };
        self.with_args(visit)
    }

    /// Returns mouse cursor arguments.
    fn mouse_cursor_args(&self) -> (r: Option<(u64, u64)>)
        ensures
            r == self.payload().mouse_cursor(),
    {
        self.mouse_cursor(|x: u64, y: u64| -> (v: (u64, u64)) ensures v == (x, y) { (x, y) })
    }
}

impl<T: GenericEvent> MouseCursorEvent for T {}

/// Reading a mouse cursor event gives back what it was made of.
pub proof fn mouse_cursor_reads_what_was_made<E: GenericEvent>(x: u64, y: u64, old_event: &E)
    ensures
        E::made_from(Payload::MouseCursor(x, y), old_event) matches Some(e) ==> e.payload().mouse_cursor()
            == Some((x, y)),
{
    E::made_from_carries(Payload::MouseCursor(x, y), old_event);
}

/// An event made of a payload of another kind reads as no mouse cursor event.
pub proof fn mouse_cursor_of_other_kind_is_none<E: GenericEvent>(args: Payload, old_event: &E)
    requires
        args.id() != EventId::MouseCursor,
    ensures
        E::made_from(args, old_event) matches Some(e) ==> e.payload().mouse_cursor() is None,
{
    E::made_from_carries(args, old_event);
}

impl Payload {
    /// The movement of a mouse relative payload; `None` for every other kind.
    pub open spec fn mouse_relative(&self) -> Option<(u64, u64)> {
        match *self {
            Payload::MouseRelative(x, y) => Some((x, y)),
            _ => None,
        }
    }
}

/// The relative movement of the mouse.
pub trait MouseRelativeEvent: GenericEvent {
    /// Creates a mouse relative event.
    fn from_xy(x: u64, y: u64, old_event: &Self) -> (r: Option<Self>)
        ensures
            r == Self::made_from(Payload::MouseRelative(x, y), old_event),
            r is Some <==> Self::carries(EventId::MouseRelative),
            r matches Some(e) ==> e.payload().mouse_relative() == Some((x, y)),
    {
        proof {
            Self::made_from_carries(Payload::MouseRelative(x, y), old_event);
        }
        Self::from_args(&Payload::MouseRelative(x, y), old_event)
    }

    /// Calls closure if this is a mouse relative event.
    fn mouse_relative<U, F: FnOnce(u64, u64) -> U>(&self, f: F) -> (r: Option<U>)
        requires
            self.payload().mouse_relative() matches Some(v) ==> f.requires((v.0, v.1)),
        ensures
            match self.payload().mouse_relative() {
                Some(v) => r matches Some(u) && f.ensures((v.0, v.1), u),
                None => r is None,
            },
    {
        if self.event_id() != MOUSE_RELATIVE {
            return None;
        }
        let visit = |args: &Payload| -> (r: Option<U>)
            requires
                args.mouse_relative() is Some,
                f.requires((args.mouse_relative().unwrap().0, args.mouse_relative().unwrap().1)),
            ensures
                r is Some,
                f.ensures((args.mouse_relative().unwrap().0, args.mouse_relative().unwrap().1), r.unwrap()),
            {
                match args {
                    Payload::MouseRelative(x, y) => Some(f(*x, *y)),
                    _ => unreached(),
                }
            };
        self.with_args(visit)
    }

    /// Returns mouse relative arguments.
    fn mouse_relative_args(&self) -> (r: Option<(u64, u64)>)
        ensures
            r == self.payload().mouse_relative(),
    {
        self.mouse_relative(|x: u64, y: u64| -> (v: (u64, u64)) ensures v == (x, y) { (x, y) })
    }
}

impl<T: GenericEvent> MouseRelativeEvent for T {}

/// Reading a mouse relative event gives back what it was made of.
pub proof fn mouse_relative_reads_what_was_made<E: GenericEvent>(x: u64, y: u64, old_event: &E)
    ensures
        E::made_from(Payload::MouseRelative(x, y), old_event) matches Some(e) ==> e.payload().mouse_relative()
            == Some((x, y)),
{
    E::made_from_carries(Payload::MouseRelative(x, y), old_event);
}

/// An event made of a payload of another kind reads as no mouse relative event.
pub proof fn mouse_relative_of_other_kind_is_none<E: GenericEvent>(args: Payload, old_event: &E)
    requires
        args.id() != EventId::MouseRelative,
    ensures
        E::made_from(args, old_event) matches Some(e) ==> e.payload().mouse_relative() is None,
{
    E::made_from_carries(args, old_event);
}

impl Payload {
    /// The scroll of a mouse scroll payload; `None` for every other kind.
    pub open spec fn mouse_scroll(&self) -> Option<(u64, u64)> {
        match *self {
            Payload::MouseScroll(x, y) => Some((x, y)),
            _ => None,
        }
    }
}

/// The scroll of the mouse wheel.
pub trait MouseScrollEvent: GenericEvent {
    /// Creates a mouse scroll event.
    fn from_xy(x: u64, y: u64, old_event: &Self) -> (r: Option<Self>)
        ensures
            r == Self::made_from(Payload::MouseScroll(x, y), old_event),
            r is Some <==> Self::carries(EventId::MouseScroll),
            r matches Some(e) ==> e.payload().mouse_scroll() == Some((x, y)),
    {
        proof {
            Self::made_from_carries(Payload::MouseScroll(x, y), old_event);
        }
        Self::from_args(&Payload::MouseScroll(x, y), old_event)
    }

    /// Calls closure if this is a mouse scroll event.
    fn mouse_scroll<U, F: FnOnce(u64, u64) -> U>(&self, f: F) -> (r: Option<U>)
        requires
            self.payload().mouse_scroll() matches Some(v) ==> f.requires((v.0, v.1)),
        ensures
            match self.payload().mouse_scroll() {
                Some(v) => r matches Some(u) && f.ensures((v.0, v.1), u),
                None => r is None,
            },
    {
        if self.event_id() != MOUSE_SCROLL {
            return None;
        }
        let visit = |args: &Payload| -> (r: Option<U>)
            requires
                args.mouse_scroll() is Some,
                f.requires((args.mouse_scroll().unwrap().0, args.mouse_scroll().unwrap().1)),
            ensures
                r is Some,
                f.ensures((args.mouse_scroll().unwrap().0, args.mouse_scroll().unwrap().1), r.unwrap()),
            {
                match args {
                    Payload::MouseScroll(x, y) => Some(f(*x, *y)),
                    _ => unreached(),
                }
            };
        self.with_args(visit)
    }

    /// Returns mouse scroll arguments.
    fn mouse_scroll_args(&self) -> (r: Option<(u64, u64)>)
        ensures
            r == self.payload().mouse_scroll(),
    {
        self.mouse_scroll(|x: u64, y: u64| -> (v: (u64, u64)) ensures v == (x, y) { (x, y) })
    }
}

impl<T: GenericEvent> MouseScrollEvent for T {}

/// Reading a mouse scroll event gives back what it was made of.
pub proof fn mouse_scroll_reads_what_was_made<E: GenericEvent>(x: u64, y: u64, old_event: &E)
    ensures
        E::made_from(Payload::MouseScroll(x, y), old_event) matches Some(e) ==> e.payload().mouse_scroll()
            == Some((x, y)),
{
    E::made_from_carries(Payload::MouseScroll(x, y), old_event);
}

/// An event made of a payload of another kind reads as no mouse scroll event.
pub proof fn mouse_scroll_of_other_kind_is_none<E: GenericEvent>(args: Payload, old_event: &E)
    requires
        args.id() != EventId::MouseScroll,
    ensures
        E::made_from(args, old_event) matches Some(e) ==> e.payload().mouse_scroll() is None,
{
    E::made_from_carries(args, old_event);
}

} // verus!
