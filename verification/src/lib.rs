//! Window-system independent input and lifecycle events.
//!
//! An event is an envelope around one payload. `GenericEvent` is all that a
//! concrete event type has to implement; the typed event traits and the
//! modifier key tracker are written once against it.

pub mod button;
pub mod event;
pub mod focus;
pub mod generic_event;
pub mod input;
pub mod keyboard;
pub mod modifier_key;
pub mod mouse;
pub mod press;
pub mod release;
pub mod render;
pub mod resize;
pub mod text;
pub mod update;

pub use button::{Button, ControllerButton, MouseButton};
pub use event::Event;
pub use focus::FocusEvent;
pub use generic_event::{
    EventId, GenericEvent, Payload, FOCUS, MOUSE_CURSOR, MOUSE_RELATIVE, MOUSE_SCROLL, PRESS, RELEASE,
    RENDER, RESIZE, TEXT, UPDATE,
};
pub use input::{Input, Motion};
pub use keyboard::Key;
pub use modifier_key::ModifierKey;
pub use mouse::{MouseCursorEvent, MouseRelativeEvent, MouseScrollEvent};
pub use press::PressEvent;
pub use release::ReleaseEvent;
pub use render::{RenderArgs, RenderEvent};
pub use resize::ResizeEvent;
pub use text::TextEvent;
pub use update::{UpdateArgs, UpdateEvent};
