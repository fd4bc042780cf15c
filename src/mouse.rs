//! Mouse button, location and delta support.
use vstd::prelude::*;

use crate::receiver::{InputReceiver, InputSource, MouseAxisType, MouseButton};
use crate::value::{AxisValue, PressState, Vec2};
use crate::view::{
    default_descriptor, stored_or_default, BindingTypeView, InputView, ReceiverDescriptor,
};

verus! {

/// The label under which the mouse update routine is scheduled.
#[derive(Clone, Hash, Debug, PartialEq, Eq)]
pub struct MouseInputHandlingSystem;

/// Mouse position, delta and per-tick change flags of one input context.
#[derive(Clone, Copy, Debug, PartialEq, Eq, Structural)]
pub struct MouseMarker {
    pub mouse_position: Option<Vec2>,
    pub mouse_delta: Option<Vec2>,
    pub does_mouse_location_changed_this_tick: bool,
    pub does_mouse_wheel_changed_this_tick: bool,
}

pub type ReceiverMap = Map<InputReceiver, ReceiverDescriptor>;

pub open spec fn pressed_now() -> PressState {
    PressState::Pressed { started_pressing_instant: None }
}

pub open spec fn axis(t: MouseAxisType) -> InputReceiver {
    InputReceiver::MouseAxis(t)
}

pub open spec fn axis_delta(t: MouseAxisType) -> InputReceiver {
    InputReceiver::MouseAxisDelta(t)
}

/// The press state that a wheel reading stands for: pressed when it is greater than
/// zero, released otherwise.
pub open spec fn wheel_press(y: AxisValue) -> PressState {
    if y.spec_is_positive() {
        pressed_now()
    } else {
        PressState::Released
    }
}

/// The receivers after the reset phase: every axis receiver released, every one but
/// the absolute X axis zeroed; X keeps its reading.
pub open spec fn tick_view(m: ReceiverMap) -> ReceiverMap {
    m.insert(
        axis(MouseAxisType::X),
        ReceiverDescriptor {
            press: PressState::Released,
            value: stored_or_default(m, axis(MouseAxisType::X)).value,
        },
    ).insert(axis(MouseAxisType::Y), default_descriptor()).insert(
        axis(MouseAxisType::Wheel),
        default_descriptor(),
    ).insert(axis_delta(MouseAxisType::X), default_descriptor()).insert(
        axis_delta(MouseAxisType::Y),
        default_descriptor(),
    ).insert(axis_delta(MouseAxisType::Wheel), default_descriptor())
}

/// The receivers after one position sample paired with one motion sample.
pub open spec fn location_view(m: ReceiverMap, position: Vec2, delta: Vec2) -> ReceiverMap {
    m.insert(
        axis(MouseAxisType::X),
        ReceiverDescriptor { press: pressed_now(), value: position.x },
    ).insert(
        axis(MouseAxisType::Y),
        ReceiverDescriptor { press: pressed_now(), value: position.y },
    ).insert(
        axis_delta(MouseAxisType::X),
        ReceiverDescriptor { press: pressed_now(), value: delta.x },
    ).insert(axis_delta(MouseAxisType::Y), ReceiverDescriptor { press: pressed_now(), value: delta.y })
}

/// The receivers after one button transition: the press state changes, the reading stays.
pub open spec fn button_view(m: ReceiverMap, button: MouseButton, press: PressState) -> ReceiverMap {
    m.insert(
        InputReceiver::MouseButton(button),
        ReceiverDescriptor {
            press,
            value: stored_or_default(m, InputReceiver::MouseButton(button)).value,
        },
    )
}

/// The receivers after one wheel event.
pub open spec fn wheel_view(m: ReceiverMap, y: AxisValue, press: PressState) -> ReceiverMap {
    m.insert(axis(MouseAxisType::Wheel), ReceiverDescriptor { press, value: y })
}

/// The receivers after the first `n` position/motion pairs, in order.
pub open spec fn locations_view(
    m: ReceiverMap,
    positions: Seq<Vec2>,
    deltas: Seq<Vec2>,
    n: nat,
) -> ReceiverMap
    decreases n,
{
    if n == 0 {
        m
    } else {
        location_view(
            locations_view(m, positions, deltas, (n - 1) as nat),
            positions[n - 1],
            deltas[n - 1],
        )
    }
}

/// The receivers after all button transitions, in order.
pub open spec fn buttons_view(m: ReceiverMap, buttons: Seq<(MouseButton, PressState)>) -> ReceiverMap
    decreases buttons.len(),
{
    if buttons.len() == 0 {
        m
    } else {
        button_view(buttons_view(m, buttons.drop_last()), buttons.last().0, buttons.last().1)
    }
}

/// The receivers after all wheel events, in order.
pub open spec fn wheels_view(m: ReceiverMap, ys: Seq<AxisValue>) -> ReceiverMap
    decreases ys.len(),
{
    if ys.len() == 0 {
        m
    } else {
        wheel_view(wheels_view(m, ys.drop_last()), ys.last(), wheel_press(ys.last()))
    }
}

/// How many position/motion pairs a tick applies: the two streams are zipped.
pub open spec fn pair_count(positions: Seq<Vec2>, deltas: Seq<Vec2>) -> nat {
    if positions.len() < deltas.len() {
        positions.len()
    } else {
        deltas.len()
    }
}

/// The receivers after a whole tick: reset, then pairs, then buttons, then wheel events.
pub open spec fn frame_view(
    m: ReceiverMap,
    positions: Seq<Vec2>,
    deltas: Seq<Vec2>,
    buttons: Seq<(MouseButton, PressState)>,
    ys: Seq<AxisValue>,
) -> ReceiverMap {
    wheels_view(
        buttons_view(
            locations_view(tick_view(m), positions, deltas, pair_count(positions, deltas)),
            buttons,
        ),
        ys,
    )
}

/// The marker after a whole tick: the last applied pair, or no delta where none was.
pub open spec fn frame_marker(
    k: MouseMarker,
    positions: Seq<Vec2>,
    deltas: Seq<Vec2>,
    ys: Seq<AxisValue>,
) -> MouseMarker {
    let n = pair_count(positions, deltas);
    MouseMarker {
        mouse_position: if n > 0 {
            Some(positions[n - 1])
        } else {
            k.mouse_position
        },
        mouse_delta: if n > 0 {
            Some(deltas[n - 1])
        } else {
            None
        },
        does_mouse_location_changed_this_tick: n > 0,
        does_mouse_wheel_changed_this_tick: ys.len() > 0,
    }
}

/// The device class recorded after a whole tick: the mouse where any event came.
pub open spec fn frame_source(
    s: Option<InputSource>,
    positions: Seq<Vec2>,
    deltas: Seq<Vec2>,
    buttons: Seq<(MouseButton, PressState)>,
    ys: Seq<AxisValue>,
) -> Option<InputSource> {
    if pair_count(positions, deltas) > 0 || buttons.len() > 0 || ys.len() > 0 {
        Some(InputSource::Mouse)
    } else {
        s
    }
}

/// The press state of a wheel event: pressed, with no start instant, where the
/// vertical reading is greater than zero; released where it is zero, negative or NaN.
pub fn wheel_press_state(y: AxisValue) -> (r: PressState)
    ensures
        r == wheel_press(y),
{
    if y.is_positive() {
        PressState::Pressed { started_pressing_instant: None }
    } else {
        PressState::Released
    }
}

impl Default for MouseMarker {
    fn default() -> (r: MouseMarker)
        ensures
            r.mouse_position is None,
            r.mouse_delta is None,
            !r.does_mouse_location_changed_this_tick,
            !r.does_mouse_wheel_changed_this_tick,
    {
        MouseMarker::new()
    }
}

impl MouseMarker {
    /// A marker with no position yet and no change this tick.
    pub fn new() -> (r: MouseMarker)
        ensures
            r.mouse_position is None,
            r.mouse_delta is None,
            !r.does_mouse_location_changed_this_tick,
            !r.does_mouse_wheel_changed_this_tick,
    {
        MouseMarker {
            mouse_position: None,
            mouse_delta: None,
            does_mouse_location_changed_this_tick: false,
            does_mouse_wheel_changed_this_tick: false,
        }
    }

    /// Change the current mouse location and delta and set the last input source to Mouse.
    pub fn set_mouse_location<Keys: BindingTypeView>(
        &mut self,
        view: &mut InputView<Keys>,
        position: Vec2,
        delta: Vec2,
    )
        requires
            old(view).wf(),
        ensures
            final(view).wf(),
            final(view)@ == location_view(old(view)@, position, delta),
            final(view).spec_last_input_source() == Some(InputSource::Mouse),
            *final(self) == (MouseMarker {
                mouse_position: Some(position),
                mouse_delta: Some(delta),
                does_mouse_location_changed_this_tick: true,
                ..*old(self)
            }),
    {
        let state = PressState::pressed_now();
        view.set_axis_value(InputReceiver::MouseAxis(MouseAxisType::X), position.x, state);
        view.set_axis_value(InputReceiver::MouseAxis(MouseAxisType::Y), position.y, state);
        view.set_axis_value(InputReceiver::MouseAxisDelta(MouseAxisType::X), delta.x, state);
        view.set_axis_value(InputReceiver::MouseAxisDelta(MouseAxisType::Y), delta.y, state);
        self.mouse_delta = Some(delta);
        self.mouse_position = Some(position);
        self.does_mouse_location_changed_this_tick = true;
        view.set_last_input_source(InputSource::Mouse);
    }

    /// Tick the mouse: release every axis, zero every one but the absolute X axis,
    /// clear the delta and the change flags.
    pub fn tick_mouse<Keys: BindingTypeView>(&mut self, view: &mut InputView<Keys>)
        requires
            old(view).wf(),
        ensures
            final(view).wf(),
            final(view)@ == tick_view(old(view)@),
            final(view).spec_last_input_source() == old(view).spec_last_input_source(),
            *final(self) == (MouseMarker {
                mouse_position: old(self).mouse_position,
                mouse_delta: None,
                does_mouse_location_changed_this_tick: false,
                does_mouse_wheel_changed_this_tick: false,
            }),
    {
        view.descriptor_or_insert(InputReceiver::MouseAxis(MouseAxisType::X)).press =
            PressState::Released;
        view.descriptor_or_insert(InputReceiver::MouseAxis(MouseAxisType::Y)).press =
            PressState::Released;
        view.set_axis_value(
            InputReceiver::MouseAxis(MouseAxisType::Y),
            AxisValue::zero(),
            PressState::Released,
        );
        view.set_axis_value(
            InputReceiver::MouseAxis(MouseAxisType::Wheel),
            AxisValue::zero(),
            PressState::Released,
        );
        view.set_axis_value(
            InputReceiver::MouseAxisDelta(MouseAxisType::X),
            AxisValue::zero(),
            PressState::Released,
        );
        view.set_axis_value(
            InputReceiver::MouseAxisDelta(MouseAxisType::Y),
            AxisValue::zero(),
            PressState::Released,
        );
        view.set_axis_value(
            InputReceiver::MouseAxisDelta(MouseAxisType::Wheel),
            AxisValue::zero(),
            PressState::Released,
        );
        self.does_mouse_location_changed_this_tick = false;
        self.does_mouse_wheel_changed_this_tick = false;
        self.mouse_delta = None;
        proof {
            assert(final(view)@ =~= tick_view(old(view)@));
        }
    }

    /// Set the mouse button state for the given button and set the last input source to Mouse.
    pub fn set_mouse_button_state<Keys: BindingTypeView>(
        &mut self,
        view: &mut InputView<Keys>,
        button: MouseButton,
        state: PressState,
    )
        requires
            old(view).wf(),
        ensures
            final(view).wf(),
            final(view)@ == button_view(old(view)@, button, state),
            final(view).spec_last_input_source() == Some(InputSource::Mouse),
            *final(self) == *old(self),
    {
        view.set_last_input_source(InputSource::Mouse);
        view.set_key_receiver_state(InputReceiver::MouseButton(button), state);
    }

    /// Set the mouse wheel state and set the last input source to Mouse.
    pub fn set_mouse_wheel_state<Keys: BindingTypeView>(
        &mut self,
        view: &mut InputView<Keys>,
        y: AxisValue,
        state: PressState,
    )
        requires
            old(view).wf(),
        ensures
            final(view).wf(),
            final(view)@ == wheel_view(old(view)@, y, state),
            final(view).spec_last_input_source() == Some(InputSource::Mouse),
            *final(self) == (MouseMarker { does_mouse_wheel_changed_this_tick: true, ..*old(self) }),
    {
        view.set_last_input_source(InputSource::Mouse);
        view.set_axis_value(InputReceiver::MouseAxis(MouseAxisType::Wheel), y, state);
        self.does_mouse_wheel_changed_this_tick = true;
    }
    /// One tick of the mouse for one context: reset every axis receiver, then apply
    /// the position samples zipped with the motion samples (excess samples of the
    /// longer stream are dropped), then the button transitions, then the wheel
    /// readings, each in order.
    pub fn process_mouse_events<Keys: BindingTypeView>(
        &mut self,
        view: &mut InputView<Keys>,
        positions: &Vec<Vec2>,
        deltas: &Vec<Vec2>,
        buttons: &Vec<(MouseButton, PressState)>,
        wheel_ys: &Vec<AxisValue>,
    )
        requires
            old(view).wf(),
        ensures
            final(view).wf(),
            final(view)@ == frame_view(old(view)@, positions@, deltas@, buttons@, wheel_ys@),
            final(view).spec_last_input_source() == frame_source(
                old(view).spec_last_input_source(),
                positions@,
                deltas@,
                buttons@,
                wheel_ys@,
            ),
            *final(self) == frame_marker(*old(self), positions@, deltas@, wheel_ys@),
    {
        self.tick_mouse(view);
        let ghost ticked = view@;
        let ghost source0 = view.spec_last_input_source();
        let ghost position0 = self.mouse_position;
        let n: usize = if positions.len() < deltas.len() {
            positions.len()
        } else {
            deltas.len()
        };
        let mut i: usize = 0;
        while i < n
            invariant
                n == pair_count(positions@, deltas@),
                i <= n,
                view.wf(),
                view@ == locations_view(ticked, positions@, deltas@, i as nat),
                view.spec_last_input_source() == (if i > 0 {
                    Some(InputSource::Mouse)
                } else {
                    source0
                }),
                *self == (MouseMarker {
                    mouse_position: if i > 0 {
                        Some(positions@[i - 1])
                    } else {
                        position0
                    },
                    mouse_delta: if i > 0 {
                        Some(deltas@[i - 1])
                    } else {
                        None
                    },
                    does_mouse_location_changed_this_tick: i > 0,
                    does_mouse_wheel_changed_this_tick: false,
                }),
            decreases n - i,
        {
            self.set_mouse_location(view, positions[i], deltas[i]);
            i = i + 1;
        }
        let ghost located = view@;
        let ghost source1 = view.spec_last_input_source();
        let mut j: usize = 0;
        while j < buttons.len()
            invariant
                j <= buttons@.len(),
                view.wf(),
                view@ == buttons_view(located, buttons@.subrange(0, j as int)),
                view.spec_last_input_source() == (if j > 0 {
                    Some(InputSource::Mouse)
                } else {
                    source1
                }),
                *self == frame_marker(*old(self), positions@, deltas@, Seq::<AxisValue>::empty()),
            decreases buttons@.len() - j,
        {
            let (button, state) = buttons[j];
            self.set_mouse_button_state(view, button, state);
            proof {
                assert(buttons@.subrange(0, j + 1).drop_last() =~= buttons@.subrange(0, j as int));
            }
            j = j + 1;
        }
        proof {
            assert(buttons@.subrange(0, buttons@.len() as int) =~= buttons@);
        }
        let ghost pressed = view@;
        let ghost source2 = view.spec_last_input_source();
        let mut w: usize = 0;
        while w < wheel_ys.len()
            invariant
                w <= wheel_ys@.len(),
                view.wf(),
                view@ == wheels_view(pressed, wheel_ys@.subrange(0, w as int)),
                view.spec_last_input_source() == (if w > 0 {
                    Some(InputSource::Mouse)
                } else {
                    source2
                }),
                *self == frame_marker(*old(self), positions@, deltas@, wheel_ys@.subrange(0, w as int)),
            decreases wheel_ys@.len() - w,
        {
            let y = wheel_ys[w];
            let state = wheel_press_state(y);
            self.set_mouse_wheel_state(view, y, state);
            proof {
                assert(wheel_ys@.subrange(0, w + 1).drop_last() =~= wheel_ys@.subrange(0, w as int));
            }
            w = w + 1;
        }
        proof {
            assert(wheel_ys@.subrange(0, wheel_ys@.len() as int) =~= wheel_ys@);
        }
    }
}

} // verus!
