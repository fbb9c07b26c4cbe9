//! The envelope abstraction: one trait through which every kind of event is
//! made, recognised and read, whatever the concrete event type.

use vstd::prelude::*;
use crate::button::Button;
use crate::render::RenderArgs;
use crate::update::UpdateArgs;

verus! {

/// The identity of a kind of event.
#[derive(Copy, Clone, Debug, PartialEq, Eq, Hash, Structural)]
pub enum EventId {
    /// A button was pressed.
    Press,
    /// A button was released.
    Release,
    /// The next frame should be rendered.
    Render,
    /// The application should advance its state.
    Update,
    /// The mouse cursor moved, in absolute coordinates.
    MouseCursor,
    /// The mouse moved, in relative coordinates.
    MouseRelative,
    /// The mouse wheel scrolled.
    MouseScroll,
    /// Text was entered.
    Text,
    /// The window was resized.
    Resize,
    /// The window gained or lost focus.
    Focus,
}

/// The identity of press events.
pub const PRESS: EventId = EventId::Press;

/// The identity of release events.
pub const RELEASE: EventId = EventId::Release;

/// The identity of render events.
pub const RENDER: EventId = EventId::Render;

/// The identity of update events.
pub const UPDATE: EventId = EventId::Update;

/// The identity of mouse cursor events.
pub const MOUSE_CURSOR: EventId = EventId::MouseCursor;

/// The identity of mouse relative events.
pub const MOUSE_RELATIVE: EventId = EventId::MouseRelative;

/// The identity of mouse scroll events.
pub const MOUSE_SCROLL: EventId = EventId::MouseScroll;

/// The identity of text events.
pub const TEXT: EventId = EventId::Text;

/// The identity of resize events.
pub const RESIZE: EventId = EventId::Resize;

/// The identity of focus events.
pub const FOCUS: EventId = EventId::Focus;

/// What an event carries: the arguments together with their kind, as one
/// value, so that the two cannot disagree.
///
/// Floating point arguments are held as IEEE 754 bit patterns.
#[derive(Debug, PartialEq, Eq)]
pub enum Payload {
    /// The button that was pressed.
    Press(Button),
    /// The button that was released.
    Release(Button),
    /// The arguments of a render event.
    Render(RenderArgs),
    /// The arguments of an update event.
    Update(UpdateArgs),
    /// The cursor's `x` and `y`.
    MouseCursor(u64, u64),
    /// The mouse's movement along `x` and `y`.
    MouseRelative(u64, u64),
    /// The scroll along `x` and `y`.
    MouseScroll(u64, u64),
    /// The text entered.
    Text(String),
    /// The new width and height.
    Resize(u32, u32),
    /// Whether the window has focus now.
    Focus(bool),
}

impl Clone for Payload {
    fn clone(&self) -> (r: Payload)
        ensures
            r == *self,
    {
        match self {
            Payload::Press(button) => Payload::Press(*button),
            Payload::Release(button) => Payload::Release(*button),
            Payload::Render(args) => Payload::Render(*args),
            Payload::Update(args) => Payload::Update(*args),
            Payload::MouseCursor(x, y) => Payload::MouseCursor(*x, *y),
            Payload::MouseRelative(x, y) => Payload::MouseRelative(*x, *y),
            Payload::MouseScroll(x, y) => Payload::MouseScroll(*x, *y),
            Payload::Text(text) => Payload::Text(text.clone()),
            Payload::Resize(w, h) => Payload::Resize(*w, *h),
            Payload::Focus(focused) => Payload::Focus(*focused),
        }
    }
}

impl Payload {
    /// The kind of a payload.
    pub open spec fn id(&self) -> EventId {
        match self {
            Payload::Press(_) => EventId::Press,
            Payload::Release(_) => EventId::Release,
            Payload::Render(_) => EventId::Render,
            Payload::Update(_) => EventId::Update,
            Payload::MouseCursor(_, _) => EventId::MouseCursor,
            Payload::MouseRelative(_, _) => EventId::MouseRelative,
            Payload::MouseScroll(_, _) => EventId::MouseScroll,
            Payload::Text(_) => EventId::Text,
            Payload::Resize(_, _) => EventId::Resize,
            Payload::Focus(_) => EventId::Focus,
        }
    }

    /// Returns the kind of the payload.
    pub fn event_id(&self) -> (id: EventId)
        ensures
            id == self.id(),
    {
        match self {
            Payload::Press(_) => EventId::Press,
            Payload::Release(_) => EventId::Release,
            Payload::Render(_) => EventId::Render,
            Payload::Update(_) => EventId::Update,
            Payload::MouseCursor(_, _) => EventId::MouseCursor,
            Payload::MouseRelative(_, _) => EventId::MouseRelative,
            Payload::MouseScroll(_, _) => EventId::MouseScroll,
            Payload::Text(_) => EventId::Text,
            Payload::Resize(_, _) => EventId::Resize,
            Payload::Focus(_) => EventId::Focus,
        }
    }
}

/// An envelope: a value that carries exactly one payload.
///
/// A type that implements this trait gets every typed event trait of this
/// library (`PressEvent`, `RenderEvent`, ...) with it.
pub trait GenericEvent: Sized {
    /// The payload that the envelope carries.
    spec fn payload(&self) -> Payload;

    /// Whether this type of envelope can carry a payload of the kind `id`.
    spec fn carries(id: EventId) -> bool;

    /// The envelope that `from_args` makes of `args`, with `old_event` for
    /// what the envelope holds besides its payload.
    spec fn made_from(args: Payload, old_event: &Self) -> Option<Self>;

    /// An envelope is made exactly of the kinds that the type can carry,
    /// and then carries the payload it was made of.
    proof fn made_from_carries(args: Payload, old_event: &Self)
        ensures
            Self::made_from(args, old_event) is Some <==> Self::carries(args.id()),
            Self::made_from(args, old_event) matches Some(e) ==> e.payload() == args,
    ;

    /// Returns the kind of the payload carried.
    fn event_id(&self) -> (id: EventId)
        ensures
            id == self.payload().id(),
    ;

    /// Calls `f` on the payload carried and returns what it returns.
    fn with_args<U, F: FnOnce(&Payload) -> U>(&self, f: F) -> (r: U)
        requires
            f.requires((&self.payload(),)),
        ensures
            f.ensures((&self.payload(),), r),
    ;

    /// Makes an envelope of the same type as `old_event` that carries `args`,
    /// or `None` where this type cannot carry that kind.
    fn from_args(args: &Payload, old_event: &Self) -> (r: Option<Self>)
        ensures
            r == Self::made_from(*args, old_event),
    ;
}

} // verus!
