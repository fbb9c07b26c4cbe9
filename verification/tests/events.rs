use input_event::{
    Button, ControllerButton, Event, EventId, FocusEvent, GenericEvent, Input, Key, Motion,
    MouseButton, MouseCursorEvent, MouseRelativeEvent, MouseScrollEvent, Payload, PressEvent,
    ReleaseEvent, RenderArgs, RenderEvent, ResizeEvent, TextEvent, UpdateArgs, UpdateEvent, FOCUS,
    MOUSE_CURSOR, MOUSE_RELATIVE, MOUSE_SCROLL, PRESS, RELEASE, RENDER, RESIZE, TEXT, UPDATE,
};

fn render_args() -> RenderArgs {
    RenderArgs { ext_dt: 1.0f64.to_bits(), width: 10, height: 10 }
}

#[test]
fn test_input_press() {
    let e = Input::Press(Button::Keyboard(Key::S));
    let button = Button::Keyboard(Key::A);
    let x: Option<Input> = PressEvent::from_button(button, &e);
    let y: Option<Input> = x
        .clone()
        .unwrap()
        .press(|button| PressEvent::from_button(button, x.as_ref().unwrap()))
        .unwrap();
    assert_eq!(x, y);
}

#[test]
fn test_event_press() {
    let e = Event::Input(Input::Press(Button::Keyboard(Key::S)));
    let button = Button::Keyboard(Key::A);
    let x: Option<Event> = PressEvent::from_button(button, &e);
    let y: Option<Event> = x
        .clone()
        .unwrap()
        .press(|button| PressEvent::from_button(button, x.as_ref().unwrap()))
        .unwrap();
    assert_eq!(x, y);
}

#[test]
fn test_event_render() {
    let e = Event::Update(UpdateArgs { dt: 0 });
    let x: Option<Event> = RenderEvent::from_render_args(
        &RenderArgs { ext_dt: 1.0f64.to_bits(), width: 10, height: 10 },
        &e,
    );
    let y: Option<Event> = x
        .clone()
        .unwrap()
        .render(|args| RenderEvent::from_render_args(args, x.as_ref().unwrap()))
        .unwrap();
    assert_eq!(x, y);
}

#[test]
fn press_makes_the_press_variant() {
    let old = Input::Focus(true);
    let button = Button::Keyboard(Key::A);
    let x: Option<Input> = PressEvent::from_button(button, &old);
    assert_eq!(x, Some(Input::Press(button)));
    let y: Option<Event> = PressEvent::from_button(button, &Event::Render(render_args()));
    assert_eq!(y, Some(Event::Input(Input::Press(button))));
    assert_eq!(y.unwrap().press_args(), Some(button));
}

#[test]
fn release_round_trip() {
    let old = Event::Update(UpdateArgs { dt: 3 });
    let button = Button::Mouse(MouseButton::Left);
    let x: Option<Event> = ReleaseEvent::from_button(button, &old);
    assert_eq!(x, Some(Event::Input(Input::Release(button))));
    let e = x.unwrap();
    assert_eq!(e.release_args(), Some(button));
    assert_eq!(e.release(|b| b == button), Some(true));
    assert_eq!(e.event_id(), EventId::Release);
}

#[test]
fn render_round_trip() {
    let old = Event::Update(UpdateArgs { dt: 3 });
    let args = RenderArgs { ext_dt: 0.25f64.to_bits(), width: 640, height: 480 };
    let x: Option<Event> = RenderEvent::from_render_args(&args, &old);
    assert_eq!(x, Some(Event::Render(args)));
    let e = x.unwrap();
    assert_eq!(e.render_args(), Some(args));
    assert_eq!(e.render(|a| a.width + a.height), Some(1120));
    assert_eq!(f64::from_bits(e.render_args().unwrap().ext_dt), 0.25);
    assert_eq!(e.event_id(), EventId::Render);
}

#[test]
fn update_round_trip() {
    let old = Event::Render(render_args());
    let args = UpdateArgs { dt: 0.5f64.to_bits() };
    let x: Option<Event> = UpdateEvent::from_update_args(&args, &old);
    assert_eq!(x, Some(Event::Update(args)));
    let e = x.unwrap();
    assert_eq!(e.update_args(), Some(args));
    assert_eq!(e.update(|a| f64::from_bits(a.dt)), Some(0.5));
    assert_eq!(e.event_id(), EventId::Update);
}

#[test]
fn mouse_round_trips() {
    let old = Input::Focus(true);
    let (x, y) = (1.5f64.to_bits(), (-2.0f64).to_bits());

    let cursor: Input = MouseCursorEvent::from_xy(x, y, &old).unwrap();
    assert_eq!(cursor, Input::Move(Motion::MouseCursor(x, y)));
    assert_eq!(cursor.mouse_cursor_args(), Some((x, y)));
    assert_eq!(cursor.mouse_cursor(|a, b| (b, a)), Some((y, x)));
    assert_eq!(cursor.mouse_relative_args(), None);
    assert_eq!(cursor.mouse_scroll_args(), None);

    let relative: Input = MouseRelativeEvent::from_xy(x, y, &old).unwrap();
    assert_eq!(relative, Input::Move(Motion::MouseRelative(x, y)));
    assert_eq!(relative.mouse_relative_args(), Some((x, y)));
    assert_eq!(relative.mouse_relative(|a, b| (b, a)), Some((y, x)));
    assert_eq!(relative.mouse_cursor_args(), None);
    assert_eq!(relative.mouse_scroll_args(), None);

    let scroll: Input = MouseScrollEvent::from_xy(x, y, &old).unwrap();
    assert_eq!(scroll, Input::Move(Motion::MouseScroll(x, y)));
    assert_eq!(scroll.mouse_scroll_args(), Some((x, y)));
    assert_eq!(scroll.mouse_scroll(|a, b| (b, a)), Some((y, x)));
    assert_eq!(scroll.mouse_cursor_args(), None);
    assert_eq!(scroll.mouse_relative_args(), None);
}

#[test]
fn text_round_trip() {
    let old = Event::Render(render_args());
    let text = String::from("hello");
    let x: Option<Event> = TextEvent::from_text(&text, &old);
    assert_eq!(x, Some(Event::Input(Input::Text(String::from("hello")))));
    let e = x.unwrap();
    assert_eq!(e.text_args(), Some(String::from("hello")));
    assert_eq!(e.text(|s| s.len()), Some(5));
    assert_eq!(e.event_id(), EventId::Text);
}

#[test]
fn resize_round_trip() {
    let old = Input::Focus(true);
    let x: Option<Input> = ResizeEvent::from_width_height(800, 600, &old);
    assert_eq!(x, Some(Input::Resize(800, 600)));
    let e = x.unwrap();
    assert_eq!(e.resize_args(), Some((800, 600)));
    assert_eq!(e.resize(|w, h| w - h), Some(200));
    assert_eq!(e.event_id(), EventId::Resize);
}

#[test]
fn focus_round_trip() {
    let old = Input::Resize(1, 2);
    for &focused in &[true, false] {
        let x: Option<Input> = FocusEvent::from_focused(focused, &old);
        assert_eq!(x, Some(Input::Focus(focused)));
        let e = x.unwrap();
        assert_eq!(e.focus_args(), Some(focused));
        assert_eq!(e.focus(|f| !f), Some(!focused));
        assert_eq!(e.event_id(), EventId::Focus);
    }
}

#[test]
fn another_kind_reads_as_none() {
    let render = Event::Render(render_args());
    assert_eq!(render.press_args(), None);
    assert_eq!(render.press(|_| 1), None);
    assert_eq!(render.release_args(), None);
    assert_eq!(render.update_args(), None);
    assert_eq!(render.mouse_cursor_args(), None);
    assert_eq!(render.mouse_relative_args(), None);
    assert_eq!(render.mouse_scroll_args(), None);
    assert_eq!(render.text_args(), None);
    assert_eq!(render.resize_args(), None);
    assert_eq!(render.focus_args(), None);
    assert_eq!(render.render_args(), Some(render_args()));

    let press = Input::Press(Button::Keyboard(Key::A));
    assert_eq!(press.release_args(), None);
    assert_eq!(press.render_args(), None);
    assert_eq!(press.render(|_| 1), None);
    assert_eq!(press.update_args(), None);
    assert_eq!(press.text_args(), None);
    assert_eq!(press.resize_args(), None);
    assert_eq!(press.focus_args(), None);
    assert_eq!(press.press_args(), Some(Button::Keyboard(Key::A)));

    let release = Input::Release(Button::Keyboard(Key::A));
    assert_eq!(release.press_args(), None);
    assert_eq!(release.release_args(), Some(Button::Keyboard(Key::A)));
}

#[test]
fn input_cannot_carry_render_or_update() {
    let old = Input::Focus(true);
    let x: Option<Input> = RenderEvent::from_render_args(&render_args(), &old);
    assert_eq!(x, None);
    let y: Option<Input> = UpdateEvent::from_update_args(&UpdateArgs { dt: 7 }, &old);
    assert_eq!(y, None);
    assert_eq!(Input::from_payload(&Payload::Render(render_args())), None);
    assert_eq!(Input::from_payload(&Payload::Update(UpdateArgs { dt: 7 })), None);
    assert_eq!(
        Input::from_payload(&Payload::Resize(3, 4)),
        Some(Input::Resize(3, 4))
    );
}

#[test]
fn generic_operations_agree() {
    let button = Button::Controller(ControllerButton { id: 2, button: 5 });
    let payloads = vec![
        Payload::Press(button),
        Payload::Release(button),
        Payload::Render(render_args()),
        Payload::Update(UpdateArgs { dt: 9 }),
        Payload::MouseCursor(1, 2),
        Payload::MouseRelative(3, 4),
        Payload::MouseScroll(5, 6),
        Payload::Text(String::from("x")),
        Payload::Resize(7, 8),
        Payload::Focus(false),
    ];
    let ids = vec![
        EventId::Press,
        EventId::Release,
        EventId::Render,
        EventId::Update,
        EventId::MouseCursor,
        EventId::MouseRelative,
        EventId::MouseScroll,
        EventId::Text,
        EventId::Resize,
        EventId::Focus,
    ];
    let old = Event::Render(render_args());
    for (payload, id) in payloads.iter().zip(ids.iter()) {
        assert_eq!(payload.event_id(), *id);
        let e = Event::from_args(payload, &old).unwrap();
        assert_eq!(e.event_id(), *id);
        assert_eq!(e.with_args(|p| p.clone()), payload.clone());

        let is_input = *id != EventId::Render && *id != EventId::Update;
        let i = Input::from_args(payload, &Input::Focus(true));
        assert_eq!(i.is_some(), is_input);
        if let Some(i) = i {
            assert_eq!(i.event_id(), *id);
            assert_eq!(i.with_args(|p| p.clone()), payload.clone());
            assert_eq!(e, Event::Input(i));
        }
    }
}

#[test]
fn kinds_have_distinct_identities() {
    let ids = [
        PRESS,
        RELEASE,
        RENDER,
        UPDATE,
        MOUSE_CURSOR,
        MOUSE_RELATIVE,
        MOUSE_SCROLL,
        TEXT,
        RESIZE,
        FOCUS,
    ];
    for (i, a) in ids.iter().enumerate() {
        for (j, b) in ids.iter().enumerate() {
            assert_eq!(a == b, i == j);
        }
    }
    assert_eq!(Input::Press(Button::Keyboard(Key::A)).event_id(), PRESS);
    assert_eq!(Event::Render(render_args()).event_id(), RENDER);
    assert_eq!(Input::Focus(true).event_id(), FOCUS);
}

#[test]
fn clones_are_equal() {
    let e = Event::Input(Input::Text(String::from("abc")));
    assert_eq!(e.clone(), e);
    let i = Input::Move(Motion::MouseScroll(1, 2));
    assert_eq!(i.clone(), i);
    let p = Payload::Text(String::from("abc"));
    assert_eq!(p.clone(), p);
}
