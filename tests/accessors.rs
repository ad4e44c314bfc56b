use input::{
    AfterRenderArgs, ControllerAxisArgs, ControllerButton, IdleArgs, Key, MouseButton, RenderArgs,
    UpdateArgs,
};
use input_tools::{Button, ButtonTools, Event, EventTools, Input, InputTools, Motion, MotionTools};

#[test]
fn it_works() {
}

#[test]
fn keyboard_button_answers_only_keyboard() {
    let b = Button::Keyboard(Key::A);
    assert_eq!(b.keyboard(), Some(Key::A));
    assert_eq!(b.mouse(), None);
    assert_eq!(b.controller(), None);
}

#[test]
fn mouse_button_answers_only_mouse() {
    let b = Button::Mouse(MouseButton::Right);
    assert_eq!(b.mouse(), Some(MouseButton::Right));
    assert_eq!(b.keyboard(), None);
    assert_eq!(b.controller(), None);
}

#[test]
fn controller_button_answers_only_controller() {
    let c = ControllerButton::new(2, 9);
    let b = Button::Controller(c);
    assert_eq!(b.controller(), Some(ControllerButton::new(2, 9)));
    assert_eq!(b.keyboard(), None);
    assert_eq!(b.mouse(), None);
}

#[test]
fn wrapped_button_answers_as_bare() {
    let b = Some(Button::Mouse(MouseButton::Left));
    assert_eq!(b.mouse(), Some(MouseButton::Left));
    assert_eq!(b.keyboard(), None);
    assert_eq!(b.controller(), None);
}

#[test]
fn absent_button_answers_none() {
    let b: Option<Button> = None;
    assert_eq!(b.keyboard(), None);
    assert_eq!(b.mouse(), None);
    assert_eq!(b.controller(), None);
}

#[test]
fn mouse_scroll_passes_values_through() {
    let m = Motion::MouseScroll(0.0, -1.5);
    assert_eq!(m.mouse_scroll(), Some((0.0, -1.5)));
    assert_eq!(m.mouse_cursor(), None);
    assert_eq!(m.mouse_relative(), None);
    assert_eq!(m.controller_axis(), None);
}

#[test]
fn mouse_cursor_answers_only_cursor() {
    let m = Motion::MouseCursor(12.25, 40.0);
    assert_eq!(m.mouse_cursor(), Some((12.25, 40.0)));
    assert_eq!(m.mouse_relative(), None);
    assert_eq!(m.mouse_scroll(), None);
    assert_eq!(m.controller_axis(), None);
}

#[test]
fn mouse_relative_answers_only_relative() {
    let m = Motion::MouseRelative(-3.0, 4.5);
    assert_eq!(m.mouse_relative(), Some((-3.0, 4.5)));
    assert_eq!(m.mouse_cursor(), None);
    assert_eq!(m.mouse_scroll(), None);
    assert_eq!(m.controller_axis(), None);
}

#[test]
fn controller_axis_answers_only_axis() {
    let m: Motion<f64> = Motion::ControllerAxis(ControllerAxisArgs::new(1, 3, -0.5));
    assert_eq!(m.controller_axis(), Some(ControllerAxisArgs::new(1, 3, -0.5)));
    assert_eq!(m.mouse_cursor(), None);
    assert_eq!(m.mouse_relative(), None);
    assert_eq!(m.mouse_scroll(), None);
}

fn motion_answers(m: &Option<Motion<f64>>) -> usize {
    let mut n: usize = 0;
    n += m.mouse_cursor().is_some() as usize;
    n += m.mouse_relative().is_some() as usize;
    n += m.mouse_scroll().is_some() as usize;
    n += m.controller_axis().is_some() as usize;
    n
}

#[test]
fn each_motion_answers_exactly_one_accessor() {
    let all: Vec<Motion<f64>> = vec![
        Motion::MouseCursor(1.0, 2.0),
        Motion::MouseRelative(-1.0, 0.5),
        Motion::MouseScroll(0.0, -1.5),
        Motion::ControllerAxis(ControllerAxisArgs::new(0, 1, 0.25)),
    ];
    for m in all {
        assert_eq!(motion_answers(&Some(m)), 1);
    }
    assert_eq!(motion_answers(&None), 0);
}

#[test]
fn wrapped_and_absent_motion() {
    let m = Some(Motion::MouseCursor(1.0, 2.0));
    assert_eq!(m.mouse_cursor(), Some((1.0, 2.0)));
    assert_eq!(m.mouse_scroll(), None);
    let n: Option<Motion<f64>> = None;
    assert_eq!(n.mouse_cursor(), None);
    assert_eq!(n.mouse_relative(), None);
    assert_eq!(n.mouse_scroll(), None);
    assert_eq!(n.controller_axis(), None);
}

fn answers(i: &Option<Input<f64>>) -> usize {
    let mut n: usize = 0;
    n += i.press().is_some() as usize;
    n += i.release().is_some() as usize;
    n += i.movement().is_some() as usize;
    n += i.text().is_some() as usize;
    n += i.resize().is_some() as usize;
    n += i.focus().is_some() as usize;
    n += i.cursor().is_some() as usize;
    n
}

#[test]
fn resize_answers_pair_and_not_text() {
    let i: Input<f64> = Input::Resize(800, 600);
    assert_eq!(i.resize(), Some((800, 600)));
    assert_eq!(i.text(), None);
}

#[test]
fn each_input_answers_exactly_one_accessor() {
    let all: Vec<Input<f64>> = vec![
        Input::Press(Button::Keyboard(Key::Space)),
        Input::Release(Button::Mouse(MouseButton::Middle)),
        Input::Move(Motion::MouseRelative(1.0, -1.0)),
        Input::Text(String::from("hi")),
        Input::Resize(0, u32::MAX),
        Input::Focus(false),
        Input::Cursor(true),
    ];
    for i in all {
        assert_eq!(answers(&Some(i)), 1);
    }
    assert_eq!(answers(&None), 0);
}

#[test]
fn input_payloads_come_back() {
    let press: Input<f64> = Input::Press(Button::Keyboard(Key::Space));
    assert_eq!(press.press(), Some(Button::Keyboard(Key::Space)));
    assert_eq!(press.release(), None);
    let release: Input<f64> = Input::Release(Button::Mouse(MouseButton::Middle));
    assert_eq!(release.release(), Some(Button::Mouse(MouseButton::Middle)));
    assert_eq!(release.press(), None);
    let moved: Input<f64> = Input::Move(Motion::MouseRelative(1.0, -1.0));
    assert_eq!(moved.movement(), Some(Motion::MouseRelative(1.0, -1.0)));
    let text: Input<f64> = Input::Text(String::from("hello"));
    assert_eq!(text.text(), Some("hello"));
    assert_eq!(text.resize(), None);
    let empty: Input<f64> = Input::Text(String::new());
    assert_eq!(empty.text(), Some(""));
    let focus: Input<f64> = Input::Focus(false);
    assert_eq!(focus.focus(), Some(false));
    assert_eq!(focus.cursor(), None);
    let cursor: Input<f64> = Input::Cursor(true);
    assert_eq!(cursor.cursor(), Some(true));
    assert_eq!(cursor.focus(), None);
}

#[test]
fn wrapped_and_absent_input() {
    let i: Option<Input<f64>> = Some(Input::Text(String::from("abc")));
    assert_eq!(i.text(), Some("abc"));
    assert_eq!(i.press(), None);
    let n: Option<Input<f64>> = None;
    assert_eq!(n.press(), None);
    assert_eq!(n.release(), None);
    assert_eq!(n.movement(), None);
    assert_eq!(n.text(), None);
    assert_eq!(n.resize(), None);
    assert_eq!(n.focus(), None);
    assert_eq!(n.cursor(), None);
}

#[test]
fn event_input_is_borrowed_back() {
    let e: Event<Input<f64>> = Event::Input(Input::Focus(true));
    assert_eq!(e.input(), Some(&Input::Focus(true)));
    let wrapped = Some(Event::Input(Input::<f64>::Resize(3, 4)));
    assert_eq!(wrapped.input(), Some(&Input::Resize(3, 4)));
    assert_eq!(wrapped.input().and_then(|i| i.resize()), Some((3, 4)));
}

#[test]
fn event_ticks_carry_no_input() {
    let render: Event<Input<f64>> = Event::Render(RenderArgs {
        ext_dt: 0.0,
        window_size: [640.0, 480.0],
        draw_size: [640, 480],
    });
    assert_eq!(render.input(), None);
    let after: Event<Input<f64>> = Event::AfterRender(AfterRenderArgs);
    assert_eq!(after.input(), None);
    let update: Event<Input<f64>> = Event::Update(UpdateArgs { dt: 0.016 });
    assert_eq!(update.input(), None);
    let idle: Event<Input<f64>> = Event::Idle(IdleArgs { dt: 0.002 });
    assert_eq!(idle.input(), None);
    let absent: Option<Event<Input<f64>>> = None;
    assert_eq!(absent.input(), None);
}

#[test]
fn asking_twice_answers_the_same() {
    let i: Input<f64> = Input::Text(String::from("twice"));
    assert_eq!(i.text(), i.text());
    assert_eq!(i.focus(), i.focus());
    let m = Motion::MouseScroll(2.0, 3.0);
    assert_eq!(m.mouse_scroll(), m.mouse_scroll());
    let b = Some(Button::Keyboard(Key::Z));
    assert_eq!(b.keyboard(), b.keyboard());
    let e: Event<Input<f64>> = Event::Input(Input::Cursor(false));
    assert_eq!(e.input(), e.input());
}

#[test]
fn clone_keeps_the_value() {
    let i: Input<f64> = Input::Text(String::from("copy"));
    assert_eq!(i.clone(), i);
    let m = Motion::MouseCursor(5.0, 6.0);
    assert_eq!(m.clone(), m);
}
