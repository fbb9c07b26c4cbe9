//! The modifier keys that are held down, tracked from the events.

use vstd::prelude::*;
use crate::button::Button;
use crate::focus::FocusEvent;
use crate::generic_event::{GenericEvent, Payload};
use crate::keyboard::Key;
use crate::press::PressEvent;
use crate::release::ReleaseEvent;

verus! {

/// The set of modifier keys that are held down, one bit each: Ctrl is 1,
/// Shift is 2, Alt is 4 and Gui is 8. No bit set means that no modifier is
/// held. The bits of every combination of the four have a named constant.
#[derive(Copy, Clone, Debug, PartialEq, Eq, Hash, Structural)]
pub struct ModifierKey {
    /// The flags, as bits.
    pub bits: u8,
}

impl ModifierKey {
    /// No modifier.
    pub const NO_MODIFIER: u8 = 0b0000_0000;

    /// Ctrl.
    pub const CTRL: u8 = 0b0000_0001;

    /// Shift.
    pub const SHIFT: u8 = 0b0000_0010;

    /// Alt.
    pub const ALT: u8 = 0b0000_0100;

    /// Gui.
    pub const GUI: u8 = 0b0000_1000;

    /// Ctrl + Shift.
    pub const CTRL_SHIFT: u8 = 0b0000_0011;

    /// Ctrl + Alt.
    pub const CTRL_ALT: u8 = 0b0000_0101;

    /// Ctrl + Gui.
    pub const CTRL_GUI: u8 = 0b0000_1001;

    /// Ctrl + Shift + Alt.
    pub const CTRL_SHIFT_ALT: u8 = 0b0000_0111;

    /// Ctrl + Shift + Gui.
    pub const CTRL_SHIFT_GUI: u8 = 0b0000_1011;

    /// Ctrl + Shift + Alt + Gui.
    pub const CTRL_SHIFT_ALT_GUI: u8 = 0b0000_1111;

    /// Shift + Alt.
    pub const SHIFT_ALT: u8 = 0b0000_0110;

    /// Shift + Gui.
    pub const SHIFT_GUI: u8 = 0b0000_1010;

    /// Shift + Alt + Gui.
    pub const SHIFT_ALT_GUI: u8 = 0b0000_1110;

    /// Alt + Gui.
    pub const ALT_GUI: u8 = 0b0000_1100;

    /// Whether only bits of the four modifiers are set.
    pub open spec fn wf(&self) -> bool {
        self.bits <= ModifierKey::CTRL_SHIFT_ALT_GUI
    }

    /// Whether every bit of `flags` is set.
    pub open spec fn holds(&self, flags: u8) -> bool {
        self.bits & flags == flags
    }

    /// The state with the bits of `flags` set as well.
    pub open spec fn with(&self, flags: u8) -> ModifierKey {
        ModifierKey { bits: self.bits | flags }
    }

    /// The state with the bits of `flags` cleared.
    pub open spec fn without(&self, flags: u8) -> ModifierKey {
        ModifierKey { bits: self.bits & !flags }
    }

    /// The flag that a button stands for: that of the modifier for the left
    /// and for the right key of each modifier, none for any other button.
    pub open spec fn flag_of(button: Button) -> u8 {
        match button {
            Button::Keyboard(Key::LCtrl) | Button::Keyboard(Key::RCtrl) => ModifierKey::CTRL,
            Button::Keyboard(Key::LShift) | Button::Keyboard(Key::RShift) => ModifierKey::SHIFT,
            Button::Keyboard(Key::LAlt) | Button::Keyboard(Key::RAlt) => ModifierKey::ALT,
            Button::Keyboard(Key::LGui) | Button::Keyboard(Key::RGui) => ModifierKey::GUI,
            _ => ModifierKey::NO_MODIFIER,
        }
    }

    /// The state that follows `self` when an event with the payload `args`
    /// arrives: a press sets the flag of its button, a release clears it,
    /// the loss of focus clears every flag, and nothing else changes any.
    pub open spec fn after(&self, args: Payload) -> ModifierKey {
        match args {
            Payload::Press(button) => self.with(ModifierKey::flag_of(button)),
            Payload::Release(button) => self.without(ModifierKey::flag_of(button)),
            Payload::Focus(false) => ModifierKey { bits: ModifierKey::NO_MODIFIER },
            _ => *self,
        }
    }

    /// The state in which no modifier is held.
    pub fn empty() -> (state: ModifierKey)
        ensures
            state.bits == ModifierKey::NO_MODIFIER,
            state.wf(),
    {
        ModifierKey { bits: ModifierKey::NO_MODIFIER }
    }

    /// The state with exactly the bits of `bits`, or `None` where `bits` has
    /// a bit that stands for no modifier.
    pub fn from_bits(bits: u8) -> (r: Option<ModifierKey>)
        ensures
            r is Some <==> bits <= ModifierKey::CTRL_SHIFT_ALT_GUI,
            r matches Some(state) ==> state.bits == bits && state.wf(),
    {
        if bits <= ModifierKey::CTRL_SHIFT_ALT_GUI {
            Some(ModifierKey { bits })
        } else {
            None
        }
    }

    /// Returns the flags as bits.
    pub fn bits(&self) -> (bits: u8)
        ensures
            bits == self.bits,
    {
        self.bits
    }

    /// Whether no modifier is held.
    pub fn is_empty(&self) -> (r: bool)
        ensures
            r == (self.bits == ModifierKey::NO_MODIFIER),
    {
        self.bits == ModifierKey::NO_MODIFIER
    }

    /// Whether every modifier of `flags` is held.
    pub fn contains(&self, flags: u8) -> (r: bool)
        ensures
            r == self.holds(flags),
    {
        self.bits & flags == flags
    }

    /// Sets the bits of `flags`.
    pub fn insert(&mut self, flags: u8)
        ensures
            *final(self) == old(self).with(flags),
            old(self).wf() && flags <= ModifierKey::CTRL_SHIFT_ALT_GUI ==> final(self).wf(),
    {
        proof {
            let b = self.bits;
            assert(b <= 15 && flags <= 15 ==> (b | flags) <= 15) by (bit_vector);
        }
        self.bits = self.bits | flags;
    }

    /// Clears the bits of `flags`.
    pub fn remove(&mut self, flags: u8)
        ensures
            *final(self) == old(self).without(flags),
            old(self).wf() ==> final(self).wf(),
    {
        proof {
            let b = self.bits;
            assert(b <= 15 ==> (b & !flags) <= 15) by (bit_vector);
        }
        self.bits = self.bits & !flags;
    }

    /// Change modifier key state depending on input.
    ///
    /// If the left or side button is released, it counts as a release.
    pub fn event<E: GenericEvent>(&mut self, e: &E)
        ensures
            *final(self) == old(self).after(e.payload()),
            old(self).wf() ==> final(self).wf(),
    {
        proof {
            if self.wf() {
                ModifierKey::after_keeps_wf(*self, e.payload());
            }
            ModifierKey::no_flag_changes_nothing(*self);
        }
        if let Some(button) = e.press_args() {
            match button {
                Button::Keyboard(Key::LCtrl) | Button::Keyboard(Key::RCtrl) => self.insert(
                    ModifierKey::CTRL,
                ),
                Button::Keyboard(Key::LShift) | Button::Keyboard(Key::RShift) => self.insert(
                    ModifierKey::SHIFT,
                ),
                Button::Keyboard(Key::LAlt) | Button::Keyboard(Key::RAlt) => self.insert(
                    ModifierKey::ALT,
                ),
                Button::Keyboard(Key::LGui) | Button::Keyboard(Key::RGui) => self.insert(
                    ModifierKey::GUI,
                ),
                _ => {},
            }
        }
        if let Some(button) = e.release_args() {
            match button {
                Button::Keyboard(Key::LCtrl) | Button::Keyboard(Key::RCtrl) => self.remove(
                    ModifierKey::CTRL,
                ),
                Button::Keyboard(Key::LShift) | Button::Keyboard(Key::RShift) => self.remove(
                    ModifierKey::SHIFT,
                ),
                Button::Keyboard(Key::LAlt) | Button::Keyboard(Key::RAlt) => self.remove(
                    ModifierKey::ALT,
                ),
                Button::Keyboard(Key::LGui) | Button::Keyboard(Key::RGui) => self.remove(
                    ModifierKey::GUI,
                ),
                _ => {},
            }
        }
        if let Some(false) = e.focus_args() {
            *self = ModifierKey { bits: ModifierKey::NO_MODIFIER };
        }
    }

    /// Setting or clearing no flag leaves a state as it is.
    pub proof fn no_flag_changes_nothing(state: ModifierKey)
        ensures
            state.with(ModifierKey::NO_MODIFIER) == state,
            state.without(ModifierKey::NO_MODIFIER) == state,
    {
        let b = state.bits;
        assert(b | 0u8 == b && b & !0u8 == b) by (bit_vector);
    }

    /// No event sets a bit that stands for no modifier.
    pub proof fn after_keeps_wf(state: ModifierKey, args: Payload)
        requires
            state.wf(),
        ensures
            state.after(args).wf(),
    {
        let b = state.bits;
        assert(b <= 15 ==> (b | 0u8) <= 15 && (b | 1u8) <= 15 && (b | 2u8) <= 15 && (b | 4u8) <= 15
            && (b | 8u8) <= 15) by (bit_vector);
        assert(b <= 15 ==> (b & !0u8) <= 15 && (b & !1u8) <= 15 && (b & !2u8) <= 15 && (b & !4u8)
            <= 15 && (b & !8u8) <= 15) by (bit_vector);
    }

    /// After the press of a button its flag is set, and after its release
    /// the flag is clear, whatever the state was.
    pub proof fn press_sets_and_release_clears(state: ModifierKey, button: Button)
        ensures
            state.after(Payload::Press(button)).holds(ModifierKey::flag_of(button)),
            state.after(Payload::Release(button)).bits & ModifierKey::flag_of(button) == 0,
    {
        let b = state.bits;
        let m = ModifierKey::flag_of(button);
        assert((b | m) & m == m && (b & !m) & m == 0) by (bit_vector);
    }

    /// A second press of the same button, with no release between the two,
    /// leaves the state as the first press left it.
    pub proof fn press_is_idempotent(state: ModifierKey, button: Button)
        ensures
            state.after(Payload::Press(button)).after(Payload::Press(button)) == state.after(
                Payload::Press(button),
            ),
    {
        let b = state.bits;
        let m = ModifierKey::flag_of(button);
        assert((b | m) | m == b | m) by (bit_vector);
    }

    /// A second release of the same button leaves the state as the first
    /// release left it.
    pub proof fn release_is_idempotent(state: ModifierKey, button: Button)
        ensures
            state.after(Payload::Release(button)).after(Payload::Release(button)) == state.after(
                Payload::Release(button),
            ),
    {
        let b = state.bits;
        let m = ModifierKey::flag_of(button);
        assert((b & !m) & !m == b & !m) by (bit_vector);
    }

    /// The release of a button whose flag is not set changes nothing.
    pub proof fn release_of_unheld_changes_nothing(state: ModifierKey, button: Button)
        requires
            state.bits & ModifierKey::flag_of(button) == 0,
        ensures
            state.after(Payload::Release(button)) == state,
    {
        let b = state.bits;
        let m = ModifierKey::flag_of(button);
        assert(b & m == 0 ==> b & !m == b) by (bit_vector);
    }

    /// The loss of focus clears every flag, whatever was held; an event that
    /// is no press, no release and no loss of focus changes nothing.
    pub proof fn focus_lost_clears_all(state: ModifierKey, args: Payload)
        ensures
            state.after(Payload::Focus(false)).bits == ModifierKey::NO_MODIFIER,
            args.press() is None && args.release() is None && args.focus() != Some(false)
                ==> state.after(args) == state,
    {
    }
}

impl Default for ModifierKey {
    fn default() -> (state: ModifierKey)
        ensures
            state.bits == ModifierKey::NO_MODIFIER,
    {
        ModifierKey { bits: ModifierKey::NO_MODIFIER }
    }
}

} // verus!
