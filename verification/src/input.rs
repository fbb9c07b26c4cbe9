//! Input events: what the user does with keyboard, mouse and window.

use vstd::prelude::*;
use crate::button::Button;
use crate::generic_event::{EventId, GenericEvent, Payload};

verus! {

/// A movement of the mouse. The numbers are IEEE 754 bit patterns.
#[derive(Copy, Clone, Debug, PartialEq, Eq, Structural)]
pub enum Motion {
    /// The cursor's `x` and `y` in window coordinates.
    MouseCursor(u64, u64),
    /// The mouse's movement along `x` and `y`.
    MouseRelative(u64, u64),
    /// The scroll along `x` and `y`.
    MouseScroll(u64, u64),
}

/// An input event.
#[derive(Debug, PartialEq, Eq)]
pub enum Input {
    /// A button was pressed.
    Press(Button),
    /// A button was released.
    Release(Button),
    /// The mouse moved or scrolled.
    Move(Motion),
    /// Text was entered.
    Text(String),
    /// The window was resized to this width and height.
    Resize(u32, u32),
    /// The window gained (`true`) or lost (`false`) focus.
    Focus(bool),
}

impl Clone for Input {
    fn clone(&self) -> (r: Input)
        ensures
            r == *self,
    {
        match self {
            Input::Press(button) => Input::Press(*button),
            Input::Release(button) => Input::Release(*button),
            Input::Move(motion) => Input::Move(*motion),
            Input::Text(text) => Input::Text(text.clone()),
            Input::Resize(w, h) => Input::Resize(*w, *h),
            Input::Focus(focused) => Input::Focus(*focused),
        }
    }
}

impl Input {
    /// Whether `id` is a kind of input.
    pub open spec fn is_input(id: EventId) -> bool {
        id != EventId::Render && id != EventId::Update
    }

    /// The input event that carries `args`, if `args` is input.
    pub open spec fn of_payload(args: Payload) -> Option<Input> {
        match args {
            Payload::Press(button) => Some(Input::Press(button)),
            Payload::Release(button) => Some(Input::Release(button)),
            Payload::MouseCursor(x, y) => Some(Input::Move(Motion::MouseCursor(x, y))),
            Payload::MouseRelative(x, y) => Some(Input::Move(Motion::MouseRelative(x, y))),
            Payload::MouseScroll(x, y) => Some(Input::Move(Motion::MouseScroll(x, y))),
            Payload::Text(text) => Some(Input::Text(text)),
            Payload::Resize(w, h) => Some(Input::Resize(w, h)),
            Payload::Focus(focused) => Some(Input::Focus(focused)),
            Payload::Render(_) => None,
            Payload::Update(_) => None,
        }
    }

    /// The payload of an input event.
    pub open spec fn to_payload(&self) -> Payload {
        match *self {
            Input::Press(button) => Payload::Press(button),
            Input::Release(button) => Payload::Release(button),
            Input::Move(Motion::MouseCursor(x, y)) => Payload::MouseCursor(x, y),
            Input::Move(Motion::MouseRelative(x, y)) => Payload::MouseRelative(x, y),
            Input::Move(Motion::MouseScroll(x, y)) => Payload::MouseScroll(x, y),
            Input::Text(text) => Payload::Text(text),
            Input::Resize(w, h) => Payload::Resize(w, h),
            Input::Focus(focused) => Payload::Focus(focused),
        }
    }

    /// Makes the input event that carries `args`, or `None` where `args` is
    /// no input.
    pub fn from_payload(args: &Payload) -> (r: Option<Input>)
        ensures
            r == Input::of_payload(*args),
            r is Some <==> Input::is_input(args.id()),
    {
        match args {
            Payload::Press(button) => Some(Input::Press(*button)),
            Payload::Release(button) => Some(Input::Release(*button)),
            Payload::MouseCursor(x, y) => Some(Input::Move(Motion::MouseCursor(*x, *y))),
            Payload::MouseRelative(x, y) => Some(Input::Move(Motion::MouseRelative(*x, *y))),
            Payload::MouseScroll(x, y) => Some(Input::Move(Motion::MouseScroll(*x, *y))),
            Payload::Text(text) => Some(Input::Text(text.clone())),
            Payload::Resize(w, h) => Some(Input::Resize(*w, *h)),
            Payload::Focus(focused) => Some(Input::Focus(*focused)),
            Payload::Render(_) => None,
            Payload::Update(_) => None,
        }
    }

    /// Reading the payload of the input made of `args` gives `args` back, and
    /// making an input of the payload of `input` gives `input` back.
    pub proof fn payload_round_trip(args: Payload, input: Input)
        ensures
            Input::of_payload(args) is Some <==> Input::is_input(args.id()),
            Input::of_payload(args) matches Some(i) ==> i.to_payload() == args,
            Input::of_payload(input.to_payload()) == Some(input),
    {
    }
}

impl GenericEvent for Input {
    open spec fn payload(&self) -> Payload {
        self.to_payload()
    }

    open spec fn carries(id: EventId) -> bool {
        Input::is_input(id)
    }

    open spec fn made_from(args: Payload, old_event: &Self) -> Option<Self> {
        Input::of_payload(args)
    }

    proof fn made_from_carries(args: Payload, old_event: &Self) {
    }

    fn event_id(&self) -> (id: EventId) {
        match self {
            Input::Press(_) => EventId::Press,
            Input::Release(_) => EventId::Release,
            Input::Move(Motion::MouseCursor(_, _)) => EventId::MouseCursor,
            Input::Move(Motion::MouseRelative(_, _)) => EventId::MouseRelative,
            Input::Move(Motion::MouseScroll(_, _)) => EventId::MouseScroll,
            Input::Text(_) => EventId::Text,
            Input::Resize(_, _) => EventId::Resize,
            Input::Focus(_) => EventId::Focus,
        }
    }

    fn with_args<U, F: FnOnce(&Payload) -> U>(&self, f: F) -> (r: U) {
        let args = match self {
            Input::Press(button) => Payload::Press(*button),
            Input::Release(button) => Payload::Release(*button),
            Input::Move(Motion::MouseCursor(x, y)) => Payload::MouseCursor(*x, *y),
            Input::Move(Motion::MouseRelative(x, y)) => Payload::MouseRelative(*x, *y),
            Input::Move(Motion::MouseScroll(x, y)) => Payload::MouseScroll(*x, *y),
            Input::Text(text) => Payload::Text(text.clone()),
            Input::Resize(w, h) => Payload::Resize(*w, *h),
            Input::Focus(focused) => Payload::Focus(*focused),
        };
        f(&args)
    }

    fn from_args(args: &Payload, old_event: &Self) -> (r: Option<Self>) {
        Input::from_payload(args)
    }
}

} // verus!
