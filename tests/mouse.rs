use ezinput_core::{
    wheel_press_state, AxisValue, BindingTypeView, InputReceiver, InputSource, InputView,
    MouseAxisType, MouseButton, MouseMarker, PressState, ReceiverDescriptor, Vec2,
};

struct Bindings;

impl BindingTypeView for Bindings {}

fn val(f: f32) -> AxisValue {
    AxisValue::from_bits(f.to_bits())
}

fn vec2(x: f32, y: f32) -> Vec2 {
    Vec2::new(val(x), val(y))
}

fn pressed() -> PressState {
    PressState::Pressed { started_pressing_instant: None }
}

fn desc(press: PressState, f: f32) -> Option<ReceiverDescriptor> {
    Some(ReceiverDescriptor { press, value: val(f) })
}

const AX: InputReceiver = InputReceiver::MouseAxis(MouseAxisType::X);
const AY: InputReceiver = InputReceiver::MouseAxis(MouseAxisType::Y);
const AW: InputReceiver = InputReceiver::MouseAxis(MouseAxisType::Wheel);
const DX: InputReceiver = InputReceiver::MouseAxisDelta(MouseAxisType::X);
const DY: InputReceiver = InputReceiver::MouseAxisDelta(MouseAxisType::Y);
const DW: InputReceiver = InputReceiver::MouseAxisDelta(MouseAxisType::Wheel);

fn tick(
    marker: &mut MouseMarker,
    view: &mut InputView<Bindings>,
    positions: Vec<Vec2>,
    deltas: Vec<Vec2>,
    buttons: Vec<(MouseButton, PressState)>,
    wheel: Vec<f32>,
) {
    let ys: Vec<AxisValue> = wheel.into_iter().map(val).collect();
    marker.process_mouse_events(view, &positions, &deltas, &buttons, &ys);
}

#[test]
fn position_then_idle_tick() {
    let mut view = InputView::<Bindings>::new();
    let mut marker = MouseMarker::default();
    tick(&mut marker, &mut view, vec![vec2(10.0, 20.0)], vec![vec2(1.0, 2.0)], vec![], vec![]);
    assert_eq!(view.descriptor(AX), desc(pressed(), 10.0));
    assert_eq!(view.descriptor(AY), desc(pressed(), 20.0));
    assert_eq!(view.descriptor(DX), desc(pressed(), 1.0));
    assert_eq!(view.descriptor(DY), desc(pressed(), 2.0));
    assert_eq!(marker.mouse_position, Some(vec2(10.0, 20.0)));
    assert_eq!(marker.mouse_delta, Some(vec2(1.0, 2.0)));
    assert!(marker.does_mouse_location_changed_this_tick);
    assert!(!marker.does_mouse_wheel_changed_this_tick);
    assert_eq!(view.last_input_source(), Some(InputSource::Mouse));

    tick(&mut marker, &mut view, vec![], vec![], vec![], vec![]);
    assert_eq!(view.descriptor(AX), desc(PressState::Released, 10.0));
    assert_eq!(view.descriptor(AY), desc(PressState::Released, 0.0));
    assert_eq!(view.descriptor(DX), desc(PressState::Released, 0.0));
    assert_eq!(view.descriptor(DY), desc(PressState::Released, 0.0));
    assert_eq!(marker.mouse_position, Some(vec2(10.0, 20.0)));
    assert_eq!(marker.mouse_delta, None);
    assert!(!marker.does_mouse_location_changed_this_tick);
    assert!(!marker.does_mouse_wheel_changed_this_tick);
}

#[test]
fn wheel_last_event_wins() {
    let mut view = InputView::<Bindings>::new();
    let mut marker = MouseMarker::new();
    tick(&mut marker, &mut view, vec![], vec![], vec![], vec![3.0, -1.0]);
    assert_eq!(view.descriptor(AW), desc(PressState::Released, -1.0));
    assert!(marker.does_mouse_wheel_changed_this_tick);
    assert_eq!(view.last_input_source(), Some(InputSource::Mouse));
}

#[test]
fn wheel_positive_reading_presses() {
    let mut view = InputView::<Bindings>::new();
    let mut marker = MouseMarker::new();
    tick(&mut marker, &mut view, vec![], vec![], vec![], vec![-1.0, 3.0]);
    assert_eq!(view.descriptor(AW), desc(pressed(), 3.0));
    tick(&mut marker, &mut view, vec![], vec![], vec![], vec![]);
    assert_eq!(view.descriptor(AW), desc(PressState::Released, 0.0));
    assert!(!marker.does_mouse_wheel_changed_this_tick);
}

#[test]
fn idle_tick_resets_every_axis() {
    let mut view = InputView::<Bindings>::new();
    let mut marker = MouseMarker::new();
    tick(&mut marker, &mut view, vec![], vec![], vec![], vec![]);
    assert_eq!(view.descriptor(AX), desc(PressState::Released, 0.0));
    for r in [AY, AW, DX, DY, DW] {
        assert_eq!(view.descriptor(r), desc(PressState::Released, 0.0));
    }
    assert_eq!(view.entry_count(), 6);
    assert_eq!(view.last_input_source(), None);
    assert_eq!(marker.mouse_position, None);
    assert_eq!(marker.mouse_delta, None);
}

#[test]
fn button_state_is_not_reset_by_a_tick() {
    let mut view = InputView::<Bindings>::new();
    let mut marker = MouseMarker::new();
    let left = InputReceiver::MouseButton(MouseButton::Left);
    tick(&mut marker, &mut view, vec![], vec![], vec![(MouseButton::Left, pressed())], vec![]);
    assert_eq!(view.descriptor(left), desc(pressed(), 0.0));
    assert_eq!(view.last_input_source(), Some(InputSource::Mouse));
    tick(&mut marker, &mut view, vec![], vec![], vec![], vec![]);
    assert_eq!(view.descriptor(left), desc(pressed(), 0.0));
    tick(
        &mut marker,
        &mut view,
        vec![],
        vec![],
        vec![(MouseButton::Left, PressState::Released), (MouseButton::Other(7), pressed())],
        vec![],
    );
    assert_eq!(view.descriptor(left), desc(PressState::Released, 0.0));
    assert_eq!(view.descriptor(InputReceiver::MouseButton(MouseButton::Other(7))), desc(pressed(), 0.0));
    assert_eq!(view.descriptor(InputReceiver::MouseButton(MouseButton::Other(8))), None);
}

#[test]
fn delta_unset_without_pairs() {
    let mut view = InputView::<Bindings>::new();
    let mut marker = MouseMarker::new();
    tick(&mut marker, &mut view, vec![vec2(5.0, 6.0)], vec![], vec![], vec![1.0]);
    assert_eq!(marker.mouse_delta, None);
    assert_eq!(marker.mouse_position, None);
    assert!(!marker.does_mouse_location_changed_this_tick);
    assert_eq!(view.descriptor(AX), desc(PressState::Released, 0.0));
}

#[test]
fn pairing_drops_excess_positions() {
    let mut view = InputView::<Bindings>::new();
    let mut marker = MouseMarker::new();
    tick(
        &mut marker,
        &mut view,
        vec![vec2(1.0, 1.0), vec2(2.0, 2.0), vec2(3.0, 3.0)],
        vec![vec2(0.5, 0.5), vec2(0.25, -0.25)],
        vec![],
        vec![],
    );
    assert_eq!(marker.mouse_position, Some(vec2(2.0, 2.0)));
    assert_eq!(marker.mouse_delta, Some(vec2(0.25, -0.25)));
    assert_eq!(view.descriptor(AX), desc(pressed(), 2.0));
    assert_eq!(view.descriptor(AY), desc(pressed(), 2.0));
    assert_eq!(view.descriptor(DX), desc(pressed(), 0.25));
    assert_eq!(view.descriptor(DY), desc(pressed(), -0.25));
}

#[test]
fn pairing_drops_excess_deltas() {
    let mut view = InputView::<Bindings>::new();
    let mut marker = MouseMarker::new();
    tick(
        &mut marker,
        &mut view,
        vec![vec2(4.0, 8.0)],
        vec![vec2(1.0, 1.0), vec2(9.0, 9.0)],
        vec![],
        vec![],
    );
    assert_eq!(marker.mouse_position, Some(vec2(4.0, 8.0)));
    assert_eq!(marker.mouse_delta, Some(vec2(1.0, 1.0)));
    assert_eq!(view.descriptor(DX), desc(pressed(), 1.0));
}

#[test]
fn wheel_sign_rule() {
    assert_eq!(wheel_press_state(val(3.0)), pressed());
    assert_eq!(wheel_press_state(val(f32::MIN_POSITIVE)), pressed());
    assert_eq!(wheel_press_state(val(f32::INFINITY)), pressed());
    assert_eq!(wheel_press_state(val(0.0)), PressState::Released);
    assert_eq!(wheel_press_state(val(-0.0)), PressState::Released);
    assert_eq!(wheel_press_state(val(-1.0)), PressState::Released);
    assert_eq!(wheel_press_state(val(-1000.0)), PressState::Released);
    assert_eq!(wheel_press_state(val(f32::NAN)), PressState::Released);
}

#[test]
fn positivity_agrees_with_float_comparison() {
    for f in [0.0f32, -0.0, 1.0, -1.0, 1e-40, -1e-40, f32::MAX, f32::MIN, f32::INFINITY, f32::NEG_INFINITY, f32::NAN] {
        assert_eq!(val(f).is_positive(), f > 0.0);
    }
    assert_eq!(AxisValue::zero().to_bits(), 0.0f32.to_bits());
}

#[test]
fn source_attribution_per_event() {
    let mut view = InputView::<Bindings>::new();
    let mut marker = MouseMarker::new();
    marker.set_mouse_button_state(&mut view, MouseButton::Right, pressed());
    assert_eq!(view.last_input_source(), Some(InputSource::Mouse));
    assert_eq!(marker, MouseMarker::new());

    let mut view = InputView::<Bindings>::new();
    marker.set_mouse_wheel_state(&mut view, val(-2.0), PressState::Released);
    assert_eq!(view.last_input_source(), Some(InputSource::Mouse));
    assert!(marker.does_mouse_wheel_changed_this_tick);
    assert_eq!(view.descriptor(AW), desc(PressState::Released, -2.0));

    let mut view = InputView::<Bindings>::new();
    view.set_last_input_source(InputSource::Keyboard);
    marker.set_mouse_location(&mut view, vec2(3.0, 4.0), vec2(-1.0, 0.5));
    assert_eq!(view.last_input_source(), Some(InputSource::Mouse));
    assert_eq!(view.descriptor(DY), desc(pressed(), 0.5));
}

#[test]
fn idle_tick_keeps_source() {
    let mut view = InputView::<Bindings>::new();
    let mut marker = MouseMarker::new();
    view.set_last_input_source(InputSource::Gamepad);
    tick(&mut marker, &mut view, vec![], vec![], vec![], vec![]);
    assert_eq!(view.last_input_source(), Some(InputSource::Gamepad));
}

#[test]
fn lookup_twice_keeps_one_entry() {
    let mut view = InputView::<Bindings>::new();
    let r = InputReceiver::MouseButton(MouseButton::Middle);
    let d = view.descriptor_or_insert(r);
    assert_eq!(*d, ReceiverDescriptor { press: PressState::Released, value: AxisValue::zero() });
    d.value = val(5.0);
    assert_eq!(view.entry_count(), 1);
    let d2 = view.descriptor_or_insert(r);
    assert_eq!(d2.value, val(5.0));
    assert_eq!(view.entry_count(), 1);
}

#[test]
fn key_state_keeps_value() {
    let mut view = InputView::<Bindings>::new();
    view.set_axis_value(AW, val(-4.5), PressState::Released);
    view.set_key_receiver_state(AW, pressed());
    assert_eq!(view.descriptor(AW), desc(pressed(), -4.5));
    assert_eq!(view.entry_count(), 1);
    assert_eq!(view.last_input_source(), None);
}

#[test]
fn tick_mouse_alone() {
    let mut view = InputView::<Bindings>::new();
    let mut marker = MouseMarker::new();
    marker.set_mouse_location(&mut view, vec2(7.0, 8.0), vec2(1.0, 1.0));
    marker.set_mouse_wheel_state(&mut view, val(2.0), pressed());
    marker.tick_mouse(&mut view);
    assert_eq!(view.descriptor(AX), desc(PressState::Released, 7.0));
    assert_eq!(view.descriptor(AY), desc(PressState::Released, 0.0));
    assert_eq!(view.descriptor(AW), desc(PressState::Released, 0.0));
    assert_eq!(view.descriptor(DW), desc(PressState::Released, 0.0));
    assert_eq!(marker.mouse_position, Some(vec2(7.0, 8.0)));
    assert_eq!(marker.mouse_delta, None);
    assert!(!marker.does_mouse_wheel_changed_this_tick);
}

