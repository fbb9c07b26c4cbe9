//! Buttons of the input devices.

use vstd::prelude::*;
use crate::keyboard::Key;

verus! {

/// A button of a mouse.
#[allow(missing_docs)]
#[derive(Copy, Clone, Debug, PartialEq, Eq, Hash, Structural)]
pub enum MouseButton {
    Unknown,
    Left,
    Right,
    Middle,
    X1,
    X2,
    Button6,
    Button7,
    Button8,
}

/// A button of a controller: the controller's id and the button's index on it.
#[derive(Copy, Clone, Debug, PartialEq, Eq, Hash, Structural)]
pub struct ControllerButton {
    /// Which controller.
    pub id: u32,
    /// Which button on it.
    pub button: u8,
}

/// A button of any input device.
#[derive(Copy, Clone, Debug, PartialEq, Eq, Hash, Structural)]
pub enum Button {
    /// A keyboard key.
    Keyboard(Key),
    /// A mouse button.
    Mouse(MouseButton),
    /// A controller button.
    Controller(ControllerButton),
}

} // verus!
