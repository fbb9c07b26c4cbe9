use input_event::{
    Button, Event, FocusEvent, Input, Key, ModifierKey, MouseButton, PressEvent, ReleaseEvent,
    RenderArgs, UpdateArgs,
};

fn press(key: Key) -> Input {
    Input::Press(Button::Keyboard(key))
}

fn release(key: Key) -> Input {
    Input::Release(Button::Keyboard(key))
}

#[test]
fn constants_have_the_bit_layout() {
    assert_eq!(ModifierKey::NO_MODIFIER, 0);
    assert_eq!(ModifierKey::CTRL, 1);
    assert_eq!(ModifierKey::SHIFT, 2);
    assert_eq!(ModifierKey::ALT, 4);
    assert_eq!(ModifierKey::GUI, 8);
    assert_eq!(ModifierKey::CTRL_SHIFT, ModifierKey::CTRL | ModifierKey::SHIFT);
    assert_eq!(ModifierKey::CTRL_ALT, ModifierKey::CTRL | ModifierKey::ALT);
    assert_eq!(ModifierKey::CTRL_GUI, ModifierKey::CTRL | ModifierKey::GUI);
    assert_eq!(
        ModifierKey::CTRL_SHIFT_ALT,
        ModifierKey::CTRL | ModifierKey::SHIFT | ModifierKey::ALT
    );
    assert_eq!(
        ModifierKey::CTRL_SHIFT_GUI,
        ModifierKey::CTRL | ModifierKey::SHIFT | ModifierKey::GUI
    );
    assert_eq!(
        ModifierKey::CTRL_SHIFT_ALT_GUI,
        ModifierKey::CTRL | ModifierKey::SHIFT | ModifierKey::ALT | ModifierKey::GUI
    );
    assert_eq!(ModifierKey::SHIFT_ALT, ModifierKey::SHIFT | ModifierKey::ALT);
    assert_eq!(ModifierKey::SHIFT_GUI, ModifierKey::SHIFT | ModifierKey::GUI);
    assert_eq!(
        ModifierKey::SHIFT_ALT_GUI,
        ModifierKey::SHIFT | ModifierKey::ALT | ModifierKey::GUI
    );
    assert_eq!(ModifierKey::ALT_GUI, ModifierKey::ALT | ModifierKey::GUI);
}

#[test]
fn empty_and_default_hold_nothing() {
    assert_eq!(ModifierKey::empty().bits(), 0);
    assert_eq!(ModifierKey::default(), ModifierKey::empty());
    assert!(ModifierKey::empty().is_empty());
    assert!(!ModifierKey { bits: ModifierKey::ALT }.is_empty());
}

#[test]
fn from_bits_takes_the_four_flags_only() {
    for bits in 0u8..=15 {
        assert_eq!(ModifierKey::from_bits(bits), Some(ModifierKey { bits }));
    }
    assert_eq!(ModifierKey::from_bits(16), None);
    assert_eq!(ModifierKey::from_bits(0x80), None);
    assert_eq!(ModifierKey::from_bits(0xFF), None);
}

#[test]
fn insert_remove_contains() {
    let mut state = ModifierKey::empty();
    state.insert(ModifierKey::CTRL);
    assert_eq!(state.bits(), 1);
    state.insert(ModifierKey::SHIFT_ALT);
    assert_eq!(state.bits(), 7);
    assert!(state.contains(ModifierKey::CTRL_ALT));
    assert!(state.contains(ModifierKey::NO_MODIFIER));
    assert!(!state.contains(ModifierKey::GUI));
    assert!(!state.contains(ModifierKey::CTRL_GUI));
    state.remove(ModifierKey::SHIFT_GUI);
    assert_eq!(state.bits(), 5);
    state.remove(ModifierKey::CTRL_SHIFT_ALT_GUI);
    assert!(state.is_empty());
}

#[test]
fn press_release_and_focus_lost() {
    let mut state = ModifierKey::empty();
    state.event(&press(Key::LCtrl));
    assert_eq!(state.bits(), ModifierKey::CTRL);
    state.event(&press(Key::RShift));
    assert_eq!(state.bits(), ModifierKey::CTRL_SHIFT);
    state.event(&release(Key::LCtrl));
    assert_eq!(state.bits(), ModifierKey::SHIFT);
    state.event(&Input::Focus(false));
    assert_eq!(state.bits(), ModifierKey::NO_MODIFIER);
}

#[test]
fn focus_lost_resets_before_the_next_press() {
    let mut state = ModifierKey::empty();
    state.event(&press(Key::LAlt));
    state.event(&press(Key::RGui));
    assert_eq!(state.bits(), ModifierKey::ALT_GUI);
    state.event(&Input::Focus(false));
    state.event(&press(Key::LCtrl));
    assert_eq!(state.bits(), ModifierKey::CTRL);
}

#[test]
fn focus_lost_clears_every_state() {
    for bits in 0u8..=15 {
        let mut state = ModifierKey { bits };
        state.event(&Input::Focus(false));
        assert!(state.is_empty());
        let mut state = ModifierKey { bits };
        state.event(&Event::Input(Input::Focus(false)));
        assert!(state.is_empty());
    }
}

#[test]
fn focus_gained_changes_nothing() {
    for bits in 0u8..=15 {
        let mut state = ModifierKey { bits };
        state.event(&Input::Focus(true));
        assert_eq!(state.bits(), bits);
    }
}

#[test]
fn second_press_changes_nothing() {
    let keys = [
        Key::LCtrl,
        Key::RCtrl,
        Key::LShift,
        Key::RShift,
        Key::LAlt,
        Key::RAlt,
        Key::LGui,
        Key::RGui,
        Key::A,
    ];
    for bits in 0u8..=15 {
        for &key in &keys {
            let mut state = ModifierKey { bits };
            state.event(&press(key));
            let once = state;
            state.event(&press(key));
            assert_eq!(state, once);
        }
    }
}

#[test]
fn release_of_unheld_key_changes_nothing() {
    let mut state = ModifierKey::empty();
    state.event(&release(Key::LCtrl));
    assert!(state.is_empty());
    let mut state = ModifierKey { bits: ModifierKey::SHIFT_ALT };
    state.event(&release(Key::RGui));
    assert_eq!(state.bits(), ModifierKey::SHIFT_ALT);
    state.event(&release(Key::RCtrl));
    assert_eq!(state.bits(), ModifierKey::SHIFT_ALT);
}

#[test]
fn left_and_right_keys_share_a_flag() {
    let pairs = [
        (Key::LCtrl, Key::RCtrl, ModifierKey::CTRL),
        (Key::LShift, Key::RShift, ModifierKey::SHIFT),
        (Key::LAlt, Key::RAlt, ModifierKey::ALT),
        (Key::LGui, Key::RGui, ModifierKey::GUI),
    ];
    for &(left, right, flag) in &pairs {
        let mut state = ModifierKey::empty();
        state.event(&press(left));
        assert_eq!(state.bits(), flag);
        state.event(&release(right));
        assert_eq!(state.bits(), 0);
        state.event(&press(right));
        assert_eq!(state.bits(), flag);
        state.event(&release(left));
        assert_eq!(state.bits(), 0);
    }
}

#[test]
fn other_events_change_nothing() {
    let render = Event::Render(RenderArgs { ext_dt: 0, width: 1, height: 1 });
    let update = Event::Update(UpdateArgs { dt: 0 });
    let others = vec![
        render,
        update,
        Event::Input(press(Key::A)),
        Event::Input(release(Key::Space)),
        Event::Input(Input::Press(Button::Mouse(MouseButton::Left))),
        Event::Input(Input::Release(Button::Mouse(MouseButton::Right))),
        Event::Input(Input::Text(String::from("a"))),
        Event::Input(Input::Resize(2, 3)),
    ];
    for bits in 0u8..=15 {
        for e in &others {
            let mut state = ModifierKey { bits };
            state.event(e);
            assert_eq!(state.bits(), bits);
        }
    }
}

#[test]
fn tracker_reads_any_envelope() {
    let old = Event::Update(UpdateArgs { dt: 0 });
    let mut state = ModifierKey::empty();
    let e: Event = PressEvent::from_button(Button::Keyboard(Key::RAlt), &old).unwrap();
    state.event(&e);
    assert_eq!(state.bits(), ModifierKey::ALT);
    let e: Event = ReleaseEvent::from_button(Button::Keyboard(Key::LAlt), &old).unwrap();
    state.event(&e);
    assert_eq!(state.bits(), ModifierKey::NO_MODIFIER);
    let e: Event = PressEvent::from_button(Button::Keyboard(Key::LGui), &old).unwrap();
    state.event(&e);
    let e: Event = FocusEvent::from_focused(false, &old).unwrap();
    state.event(&e);
    assert!(state.is_empty());
}
